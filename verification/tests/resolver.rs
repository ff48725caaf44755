use unity_csharp::command::{BinarySettings, Command};
use unity_csharp::resolver::{
    language_server_command, DEFAULT_BINARY, IMPORT_COMPLETION, ROOT_FLAG, STDIO_FLAG,
};
use unity_csharp::solution::{DirEntry, DirListing};

fn strings(items: &[&str]) -> Vec<String> {
    items.iter().map(|s| s.to_string()).collect()
}

fn file(root: &str, name: &str) -> DirEntry {
    DirEntry { file_name: name.to_string(), path: Some(format!("{}/{}", root, name)) }
}

fn listing(root: &str, names: &[&str]) -> DirListing {
    DirListing::Entries(names.iter().map(|n| file(root, n)).collect())
}

#[test]
fn fixed_vocabulary() {
    assert_eq!(DEFAULT_BINARY, "omnisharp");
    assert_eq!(STDIO_FLAG, "--languageserver");
    assert_eq!(ROOT_FLAG, "-s");
    assert_eq!(IMPORT_COMPLETION, "RoslynExtensionsOptions:EnableImportCompletion=true");
}

#[test]
fn default_command_without_override_or_solution() {
    let cmd = language_server_command("/work/game", None, &listing("/work/game", &["Assets", "Game.csproj"]));
    assert_eq!(
        cmd,
        Command {
            command: "omnisharp".to_string(),
            args: strings(&[
                "--languageserver",
                "-s",
                "/work/game",
                "RoslynExtensionsOptions:EnableImportCompletion=true",
            ]),
            env: vec![],
        }
    );
}

#[test]
fn default_command_in_empty_directory() {
    let cmd = language_server_command("/work/game", None, &DirListing::Entries(vec![]));
    assert_eq!(cmd.command, "omnisharp");
    assert_eq!(
        cmd.args,
        strings(&["--languageserver", "-s", "/work/game", "RoslynExtensionsOptions:EnableImportCompletion=true"])
    );
    assert!(cmd.env.is_empty());
}

#[test]
fn override_path_and_arguments_come_first() {
    let settings = BinarySettings {
        path: Some("/opt/omnisharp/run".to_string()),
        arguments: Some(strings(&["--verbose", "--loglevel", "debug"])),
    };
    let cmd = language_server_command("/work/game", Some(settings), &DirListing::Entries(vec![]));
    assert_eq!(cmd.command, "/opt/omnisharp/run");
    assert_eq!(
        cmd.args,
        strings(&[
            "--verbose",
            "--loglevel",
            "debug",
            "--languageserver",
            "-s",
            "/work/game",
            "RoslynExtensionsOptions:EnableImportCompletion=true",
        ])
    );
    assert!(cmd.env.is_empty());
}

#[test]
fn override_with_solution_keeps_user_arguments_first() {
    let settings = BinarySettings {
        path: Some("OmniSharp".to_string()),
        arguments: Some(strings(&["--verbose"])),
    };
    let cmd = language_server_command("/work/game", Some(settings), &listing("/work/game", &["game.sln"]));
    assert_eq!(cmd.command, "OmniSharp");
    assert_eq!(
        cmd.args,
        strings(&[
            "--verbose",
            "--languageserver",
            "-s",
            "/work/game/game.sln",
            "RoslynExtensionsOptions:EnableImportCompletion=true",
        ])
    );
}

#[test]
fn override_without_path_uses_default_binary() {
    let settings = BinarySettings { path: None, arguments: Some(strings(&["-v"])) };
    let cmd = language_server_command("/w", Some(settings), &DirListing::Unreadable);
    assert_eq!(cmd.command, "omnisharp");
    assert_eq!(
        cmd.args,
        strings(&["-v", "--languageserver", "-s", "/w", "RoslynExtensionsOptions:EnableImportCompletion=true"])
    );
}

#[test]
fn override_without_arguments_starts_empty() {
    let settings = BinarySettings { path: Some("/bin/omni".to_string()), arguments: None };
    let cmd = language_server_command("/w", Some(settings), &DirListing::Unreadable);
    assert_eq!(cmd.command, "/bin/omni");
    assert_eq!(
        cmd.args,
        strings(&["--languageserver", "-s", "/w", "RoslynExtensionsOptions:EnableImportCompletion=true"])
    );
}

#[test]
fn empty_override_is_the_default() {
    let settings = BinarySettings { path: None, arguments: None };
    let with = language_server_command("/w", Some(settings), &DirListing::Unreadable);
    let without = language_server_command("/w", None, &DirListing::Unreadable);
    assert_eq!(with, without);
}

#[test]
fn single_solution_replaces_root() {
    let cmd = language_server_command(
        "/work/game",
        None,
        &listing("/work/game", &["Assets", "game.sln", "Assembly-CSharp.csproj"]),
    );
    assert_eq!(
        cmd.args,
        strings(&[
            "--languageserver",
            "-s",
            "/work/game/game.sln",
            "RoslynExtensionsOptions:EnableImportCompletion=true",
        ])
    );
    assert_eq!(cmd.args[1], "-s");
    assert_eq!(cmd.args[2], "/work/game/game.sln");
    assert_ne!(cmd.args[2], "/work/game");
}

#[test]
fn no_solution_keeps_bare_root() {
    let cmd = language_server_command(
        "/work/game",
        None,
        &listing("/work/game", &["Assets", "notes.txt", "sln", ".sln", "game.sln.meta", "game.SLN"]),
    );
    assert_eq!(cmd.args[2], "/work/game");
    assert_eq!(cmd.args.len(), 4);
}

#[test]
fn first_of_several_solutions_wins() {
    let cmd = language_server_command(
        "/work/game",
        None,
        &listing("/work/game", &["readme.md", "b.sln", "a.sln"]),
    );
    assert_eq!(cmd.args[2], "/work/game/b.sln");
    let swapped = language_server_command(
        "/work/game",
        None,
        &listing("/work/game", &["a.sln", "readme.md", "b.sln"]),
    );
    assert_eq!(swapped.args[2], "/work/game/a.sln");
}

#[test]
fn unreadable_directory_is_no_match() {
    let settings = BinarySettings {
        path: Some("/opt/omni".to_string()),
        arguments: Some(strings(&["--x"])),
    };
    let unreadable = language_server_command("/gone", Some(settings.clone()), &DirListing::Unreadable);
    let empty = language_server_command("/gone", Some(settings.clone()), &DirListing::Entries(vec![]));
    let unrelated = language_server_command("/gone", Some(settings), &listing("/gone", &["a.txt"]));
    assert_eq!(unreadable, empty);
    assert_eq!(unreadable, unrelated);
    assert_eq!(unreadable.args[3], "/gone");
}

#[test]
fn user_root_flag_is_left_alone() {
    let settings = BinarySettings {
        path: Some("/usr/bin/omnisharp".to_string()),
        arguments: Some(strings(&["-s", "/other/Alt.sln"])),
    };
    let cmd = language_server_command("/w", Some(settings), &listing("/w", &["Game.sln"]));
    assert_eq!(
        cmd,
        Command {
            command: "/usr/bin/omnisharp".to_string(),
            args: strings(&[
                "-s",
                "/other/Alt.sln",
                "--languageserver",
                "-s",
                "/w/Game.sln",
                "RoslynExtensionsOptions:EnableImportCompletion=true",
            ]),
            env: vec![],
        }
    );
}

#[test]
fn user_root_flag_in_last_place() {
    let settings = BinarySettings { path: None, arguments: Some(strings(&["-s"])) };
    let cmd = language_server_command("/w", Some(settings.clone()), &listing("/w", &["g.sln"]));
    assert_eq!(
        cmd.args,
        strings(&[
            "-s",
            "--languageserver",
            "-s",
            "/w/g.sln",
            "RoslynExtensionsOptions:EnableImportCompletion=true",
        ])
    );
    let plain = language_server_command("/w", Some(settings), &DirListing::Unreadable);
    assert_eq!(
        plain.args,
        strings(&["-s", "--languageserver", "-s", "/w", "RoslynExtensionsOptions:EnableImportCompletion=true"])
    );
}

#[test]
fn only_the_root_argument_depends_on_the_listing() {
    let settings = BinarySettings {
        path: Some("omni".to_string()),
        arguments: Some(strings(&["-s", "-s", "--languageserver", "/w"])),
    };
    let with = language_server_command("/w", Some(settings.clone()), &listing("/w", &["a.sln"]));
    let without = language_server_command("/w", Some(settings), &DirListing::Unreadable);
    assert_eq!(with.args.len(), 8);
    assert_eq!(without.args.len(), 8);
    for i in 0..8 {
        if i == 6 {
            assert_eq!(with.args[i], "/w/a.sln");
            assert_eq!(without.args[i], "/w");
        } else {
            assert_eq!(with.args[i], without.args[i]);
        }
    }
    assert_eq!(with.args[..4], strings(&["-s", "-s", "--languageserver", "/w"])[..]);
    assert_eq!(with.command, without.command);
}

#[test]
fn solution_without_unicode_path_changes_nothing() {
    let entries = vec![
        DirEntry { file_name: "bad\u{fffd}.sln".to_string(), path: None },
        file("/w", "good.sln"),
    ];
    let cmd = language_server_command("/w", None, &DirListing::Entries(entries));
    assert_eq!(cmd.args[2], "/w");
}

#[test]
fn empty_root_is_passed_on() {
    let cmd = language_server_command("", None, &DirListing::Unreadable);
    assert_eq!(
        cmd.args,
        strings(&["--languageserver", "-s", "", "RoslynExtensionsOptions:EnableImportCompletion=true"])
    );
}

#[test]
fn non_ascii_root_and_solution() {
    let root = "/home/zoë/игра";
    let cmd = language_server_command(root, None, &listing(root, &["проект.sln"]));
    assert_eq!(cmd.args[2], "/home/zoë/игра/проект.sln");
}
