//! What holds of every command that the resolver produces.

use vstd::prelude::*;
use crate::command::{BinarySettingsView, CommandView};
use crate::resolver::{
    fixed_args, leading_args, resolved_command, root_argument, DEFAULT_BINARY, IMPORT_COMPLETION,
    ROOT_FLAG, STDIO_FLAG,
};
use crate::search::lemma_first_index_unique;
use crate::solution::{first_solution, is_solution_name, names_solution, solution_path, DirEntryView};

verus! {

/// Whether no entry of `entries` is a solution file.
pub open spec fn holds_no_solution(entries: Seq<DirEntryView>) -> bool {
    forall|j: int| 0 <= j < entries.len() ==> !is_solution_name(#[trigger] entries[j].file_name)
}

/// A listing without a solution file yields no solution path.
pub proof fn lemma_no_solution_no_path(entries: Seq<DirEntryView>)
    requires
        holds_no_solution(entries),
    ensures
        first_solution(entries) == entries.len(),
        solution_path(Some(entries)) is None,
{
    assert forall|j: int| 0 <= j < entries.len() implies !names_solution()(#[trigger] entries[j]) by {
        assert(!is_solution_name(entries[j].file_name));
    }
    lemma_first_index_unique(entries, names_solution(), entries.len() as int);
}

/// The first entry that is a solution file decides the solution path,
/// whatever comes after it.
pub proof fn lemma_first_solution_decides(entries: Seq<DirEntryView>, k: int)
    requires
        0 <= k < entries.len(),
        is_solution_name(entries[k].file_name),
        forall|j: int| 0 <= j < k ==> !is_solution_name(#[trigger] entries[j].file_name),
    ensures
        first_solution(entries) == k,
        solution_path(Some(entries)) == entries[k].path,
{
    assert forall|j: int| 0 <= j < k implies !names_solution()(#[trigger] entries[j]) by {
        assert(!is_solution_name(entries[j].file_name));
    }
    lemma_first_index_unique(entries, names_solution(), k);
}

/// Without an override, and with no solution file to point at, the command
/// runs the default binary with the stdio flag, the root flag, the root and
/// the completion option, in this order, and with an empty environment.
pub proof fn lemma_default_command(root: Seq<char>, listing: Option<Seq<DirEntryView>>)
    requires
        solution_path(listing) is None,
    ensures
        resolved_command(root, None, listing) == (CommandView {
            command: DEFAULT_BINARY@,
            args: seq![STDIO_FLAG@, ROOT_FLAG@, root, IMPORT_COMPLETION@],
            env: Seq::empty(),
        }),
{
    assert(leading_args(None) + fixed_args(root) =~= fixed_args(root));
}

/// With an override that gives a binary and arguments, the command runs that
/// binary. Its arguments are the user's, each as given and in the user's
/// order, followed by the stdio flag, the root flag, the solution path or
/// the root, and the completion option. This holds of every listing and of
/// every choice of user arguments, a root flag among them included.
pub proof fn lemma_override_comes_first(
    root: Seq<char>,
    path: Seq<char>,
    arguments: Seq<Seq<char>>,
    listing: Option<Seq<DirEntryView>>,
)
    ensures
        ({
            let settings = Some(BinarySettingsView { path: Some(path), arguments: Some(arguments) });
            let cmd = resolved_command(root, settings, listing);
            let n = arguments.len() as int;
            &&& cmd.command == path
            &&& cmd.args.len() == n + 4
            &&& cmd.args.subrange(0, n) == arguments
            &&& cmd.args[n] == STDIO_FLAG@
            &&& cmd.args[n + 1] == ROOT_FLAG@
            &&& cmd.args[n + 2] == root_argument(root, solution_path(listing))
            &&& cmd.args[n + 3] == IMPORT_COMPLETION@
            &&& cmd.env.len() == 0
        }),
{
    let settings = Some(BinarySettingsView { path: Some(path), arguments: Some(arguments) });
    let cmd = resolved_command(root, settings, listing);
    assert(cmd.args.subrange(0, arguments.len() as int) =~= arguments);
}

/// Whatever the override, the user's arguments stand first and unchanged,
/// and exactly four arguments follow them.
pub proof fn lemma_user_arguments_kept(
    root: Seq<char>,
    settings: Option<BinarySettingsView>,
    listing: Option<Seq<DirEntryView>>,
)
    ensures
        ({
            let args = resolved_command(root, settings, listing).args;
            let n = leading_args(settings).len() as int;
            &&& args.len() == n + 4
            &&& args.subrange(0, n) == leading_args(settings)
            &&& args.subrange(n, n + 4) == fixed_args(root_argument(root, solution_path(listing)))
        }),
{
    let args = resolved_command(root, settings, listing).args;
    let n = leading_args(settings).len() as int;
    assert(args.subrange(0, n) =~= leading_args(settings));
    assert(args.subrange(n, n + 4) =~= fixed_args(
        root_argument(root, solution_path(listing)),
    ));
}

/// Where the listing holds solution files, the arguments are the user's
/// followed by the fixed ones, and the path of the first solution file of
/// the listing stands behind the fixed root flag, whatever other solution
/// files come after it.
pub proof fn lemma_first_solution_wins(
    root: Seq<char>,
    settings: Option<BinarySettingsView>,
    entries: Seq<DirEntryView>,
    k: int,
    path: Seq<char>,
)
    requires
        0 <= k < entries.len(),
        is_solution_name(entries[k].file_name),
        forall|j: int| 0 <= j < k ==> !is_solution_name(#[trigger] entries[j].file_name),
        entries[k].path == Some(path),
    ensures
        resolved_command(root, settings, Some(entries)).args == leading_args(settings)
            + fixed_args(path),
        resolved_command(root, settings, Some(entries)).args[leading_args(settings).len() as int
            + 1] == ROOT_FLAG@,
        resolved_command(root, settings, Some(entries)).args[leading_args(settings).len() as int
            + 2] == path,
{
    lemma_first_solution_decides(entries, k);
}

/// Where exactly one entry of the listing is a solution file, the arguments
/// are the user's followed by the fixed ones, and that file's path stands
/// behind the fixed root flag in place of the root.
pub proof fn lemma_single_solution_follows_root_flag(
    root: Seq<char>,
    settings: Option<BinarySettingsView>,
    entries: Seq<DirEntryView>,
    k: int,
    path: Seq<char>,
)
    requires
        0 <= k < entries.len(),
        forall|j: int|
            0 <= j < entries.len() ==> (is_solution_name(#[trigger] entries[j].file_name) <==> j
                == k),
        entries[k].path == Some(path),
    ensures
        resolved_command(root, settings, Some(entries)).args == leading_args(settings)
            + fixed_args(path),
        resolved_command(root, settings, Some(entries)).args[leading_args(settings).len() as int
            + 1] == ROOT_FLAG@,
        resolved_command(root, settings, Some(entries)).args[leading_args(settings).len() as int
            + 2] == path,
{
    lemma_first_solution_wins(root, settings, entries, k, path);
}

/// Where no entry of the listing is a solution file, the arguments are the
/// user's followed by the fixed ones, with the bare root behind the fixed
/// root flag.
pub proof fn lemma_no_solution_keeps_root(
    root: Seq<char>,
    settings: Option<BinarySettingsView>,
    entries: Seq<DirEntryView>,
)
    requires
        holds_no_solution(entries),
    ensures
        resolved_command(root, settings, Some(entries)).args == leading_args(settings)
            + fixed_args(root),
        resolved_command(root, settings, Some(entries)).args[leading_args(settings).len() as int
            + 2] == root,
{
    lemma_no_solution_no_path(entries);
}

/// A directory that could not be read yields the command that a directory
/// without a solution file yields.
pub proof fn lemma_unreadable_as_no_solution(
    root: Seq<char>,
    settings: Option<BinarySettingsView>,
    entries: Seq<DirEntryView>,
)
    requires
        holds_no_solution(entries),
    ensures
        resolved_command(root, settings, None) == resolved_command(root, settings, Some(entries)),
{
    lemma_no_solution_no_path(entries);
}

} // verus!
