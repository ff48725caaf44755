//! The command resolver: from the workspace root, the user's override and the
//! listing of the root directory to the command that starts the language
//! server in stdio mode.

use vstd::prelude::*;
use crate::command::{texts, BinarySettings, BinarySettingsView, Command, CommandView, optional_settings};
use crate::solution::{find_sln, solution_path, DirEntryView, DirListing};

verus! {

/// The executable that is run where the user names none.
pub const DEFAULT_BINARY: &'static str = "omnisharp";

/// The flag that makes the server speak over standard input and output.
pub const STDIO_FLAG: &'static str = "--languageserver";

/// The flag that is followed by the solution file or the project root.
pub const ROOT_FLAG: &'static str = "-s";

/// The option that turns on completion of types that are not yet imported.
pub const IMPORT_COMPLETION: &'static str = "RoslynExtensionsOptions:EnableImportCompletion=true";

/// The executable: the user's, or the default one.
pub open spec fn chosen_binary(settings: Option<BinarySettingsView>) -> Seq<char> {
    match settings {
        Some(BinarySettingsView { path: Some(path), .. }) => path,
        _ => DEFAULT_BINARY@,
    }
}

/// The arguments that the user asked for; none where there is no override
/// or it names none.
pub open spec fn leading_args(settings: Option<BinarySettingsView>) -> Seq<Seq<char>> {
    match settings {
        Some(BinarySettingsView { arguments: Some(arguments), .. }) => arguments,
        _ => Seq::empty(),
    }
}

/// The arguments that every command ends with: the stdio flag, the root flag
/// followed by `target`, and the completion option.
pub open spec fn fixed_args(target: Seq<char>) -> Seq<Seq<char>> {
    seq![STDIO_FLAG@, ROOT_FLAG@, target, IMPORT_COMPLETION@]
}

/// The argument behind the root flag: the solution file where one was found,
/// the bare root otherwise.
pub open spec fn root_argument(root: Seq<char>, solution: Option<Seq<char>>) -> Seq<char> {
    match solution {
        Some(path) => path,
        None => root,
    }
}

/// The command for a workspace at `root`, given the user's override and what
/// reading the root directory gave: the chosen binary, the user's arguments
/// as given, then the fixed arguments, and an empty environment.
pub open spec fn resolved_command(
    root: Seq<char>,
    settings: Option<BinarySettingsView>,
    listing: Option<Seq<DirEntryView>>,
) -> CommandView {
    CommandView {
        command: chosen_binary(settings),
        args: leading_args(settings) + fixed_args(root_argument(root, solution_path(listing))),
        env: Seq::empty(),
    }
}

/// The command that runs the chosen binary with the user's arguments
/// followed by the fixed ones, `target` standing behind the root flag.
fn command_for(target: String, settings: Option<BinarySettings>) -> (cmd: Command)
    ensures
        cmd@ == (CommandView {
            command: chosen_binary(optional_settings(settings)),
            args: leading_args(optional_settings(settings)) + fixed_args(target@),
            env: Seq::empty(),
        }),
{
    let (binary, mut args) = match settings {
        Some(BinarySettings { path, arguments }) => {
            let binary = match path {
                Some(p) => p,
                None => DEFAULT_BINARY.to_owned(),
            };
            let extra = match arguments {
                Some(a) => a,
                None => Vec::new(),
            };
            (binary, extra)
        },
        None => (DEFAULT_BINARY.to_owned(), Vec::new()),
    };
    let ghost leading = texts(args@);
    assert(leading =~= leading_args(optional_settings(settings)));
    args.push(STDIO_FLAG.to_owned());
    args.push(ROOT_FLAG.to_owned());
    args.push(target);
    args.push(IMPORT_COMPLETION.to_owned());
    assert(texts(args@) =~= leading + fixed_args(target@));
    let cmd = Command { command: binary, args, env: Vec::new() };
    assert(cmd@.env =~= Seq::empty());
    cmd
}

/// Returns the command that starts the language server for the workspace at
/// `root`.
///
/// The binary is the one of `settings`, or `DEFAULT_BINARY`. The arguments
/// are those of `settings`, unchanged, then the stdio flag, the root flag,
/// the root argument and the completion option. The root argument is the
/// path of the first solution file of `listing`, or `root` where there is
/// none. The environment is empty.
pub fn language_server_command(
    root: &str,
    settings: Option<BinarySettings>,
    listing: &DirListing,
) -> (cmd: Command)
    ensures
        cmd@ == resolved_command(root@, optional_settings(settings), listing@),
{
    let target = match find_sln(listing) {
        Some(path) => path,
        None => root.to_owned(),
    };
    command_for(target, settings)
}

} // verus!
