//! Finding the solution file among the entries of the workspace root.

use vstd::prelude::*;
use crate::command::optional_text;
use crate::search::{first_index, lemma_first_index_unique};

verus! {

/// The extension that marks a solution file.
pub const SOLUTION_EXTENSION: &'static str = "sln";

/// The index of the last `.` of `name`, or -1 where it has none.
pub open spec fn last_dot(name: Seq<char>) -> int
    decreases name.len(),
{
    if name.len() == 0 {
        -1
    } else if name.last() == '.' {
        name.len() - 1
    } else {
        last_dot(name.drop_last())
    }
}

/// The extension of a file name: what follows its last `.`. A name without a
/// `.`, one whose only `.` is its first character, and the name `..` have
/// none.
pub open spec fn extension_of(name: Seq<char>) -> Option<Seq<char>> {
    let dot = last_dot(name);
    if dot <= 0 || name == seq!['.', '.'] {
        None
    } else {
        Some(name.subrange(dot + 1, name.len() as int))
    }
}

/// Whether `name` is the file name of a solution file.
pub open spec fn is_solution_name(name: Seq<char>) -> bool {
    extension_of(name) == Some(SOLUTION_EXTENSION@)
}

/// `last_dot` is -1 or the index of a `.`, and no `.` stands behind it.
pub proof fn lemma_last_dot(name: Seq<char>)
    ensures
        -1 <= last_dot(name) < name.len(),
        last_dot(name) >= 0 ==> name[last_dot(name)] == '.',
        forall|j: int| last_dot(name) < j < name.len() ==> name[j] != '.',
    decreases name.len(),
{
    if name.len() > 0 && name.last() != '.' {
        let head = name.drop_last();
        lemma_last_dot(head);
        assert forall|j: int| last_dot(name) < j < name.len() implies name[j] != '.' by {
            if j < head.len() {
                assert(name[j] == head[j]);
            }
        }
    }
}

/// A name is that of a solution file exactly when it ends in `.sln` and
/// something stands before that ending.
pub proof fn lemma_solution_name_by_ending(name: Seq<char>)
    ensures
        is_solution_name(name) <==> (name.len() > 4 && name.subrange(
            name.len() - 4,
            name.len() as int,
        ) == ".sln"@),
{
    reveal_strlit("sln");
    reveal_strlit(".sln");
    lemma_last_dot(name);
    let len = name.len() as int;
    let dot = last_dot(name);
    if is_solution_name(name) {
        let ext = name.subrange(dot + 1, len);
        assert(ext.len() == 3);
        assert(ext[0] == 's' && ext[1] == 'l' && ext[2] == 'n');
        assert(name.subrange(len - 4, len) =~= ".sln"@);
    }
    if len > 4 && name.subrange(len - 4, len) == ".sln"@ {
        let ending = name.subrange(len - 4, len);
        assert(ending[0] == '.' && ending[1] == 's' && ending[2] == 'l' && ending[3] == 'n');
        assert(name[len - 4] == '.' && name[len - 3] == 's' && name[len - 2] == 'l' && name[len
            - 1] == 'n');
        assert(dot == len - 4);
        assert(name != seq!['.', '.']) by {
            assert(seq!['.', '.'].len() == 2);
        }
        assert(name.subrange(dot + 1, len) =~= "sln"@);
    }
}

/// The extension of `file_name`, taken as the name of one directory entry,
/// if it has one.
pub fn extension(file_name: &str) -> (ext: Option<String>)
    ensures
        optional_text(ext) == extension_of(file_name@),
{
    let len: usize = file_name.unicode_len();
    let mut i: usize = len;
    assert(file_name@.subrange(0, len as int) =~= file_name@);
    while i > 0 && file_name.get_char(i - 1) != '.'
        invariant
            i <= len,
            len == file_name@.len(),
            last_dot(file_name@) == last_dot(file_name@.subrange(0, i as int)),
        decreases i,
    {
        proof {
            let head = file_name@.subrange(0, i as int);
            assert(head.drop_last() =~= file_name@.subrange(0, i as int - 1));
        }
        i -= 1;
    }
    proof {
        let head = file_name@.subrange(0, i as int);
        if i > 0 {
            assert(head.last() == '.');
        }
        assert(last_dot(file_name@) == i as int - 1);
    }
    if i <= 1 {
        return None;
    }
    if len == 2 && file_name.get_char(0) == '.' {
        assert(file_name@ =~= seq!['.', '.']);
        return None;
    }
    assert(file_name@ != seq!['.', '.']) by {
        if file_name@ == seq!['.', '.'] {
            assert(seq!['.', '.'].len() == 2);
            assert(seq!['.', '.'][0] == '.');
        }
    }
    Some(file_name.substring_char(i, len).to_owned())
}

/// Whether `file_name` has the extension of a solution file.
pub fn is_solution_file(file_name: &str) -> (yes: bool)
    ensures
        yes == is_solution_name(file_name@),
{
    match extension(file_name) {
        Some(ext) => ext == SOLUTION_EXTENSION.to_owned(),
        None => false,
    }
}

/// One entry of a directory.
#[derive(Debug, Clone, PartialEq, Eq)]
pub struct DirEntry {
    /// The entry's name within its directory. Where the name is not valid
    /// Unicode, each invalid part of it is replaced by U+FFFD.
    pub file_name: String,
    /// The entry's full path, or `None` where the path is not valid Unicode.
    pub path: Option<String>,
}

/// A `DirEntry` as plain text.
pub struct DirEntryView {
    pub file_name: Seq<char>,
    pub path: Option<Seq<char>>,
}

impl View for DirEntry {
    type V = DirEntryView;

    open spec fn view(&self) -> DirEntryView {
        DirEntryView { file_name: self.file_name@, path: optional_text(self.path) }
    }
}

/// What reading the workspace root gave.
#[derive(Debug, Clone, PartialEq, Eq)]
pub enum DirListing {
    /// The directory could not be read.
    Unreadable,
    /// The directory's immediate entries, in the order in which they were
    /// read.
    Entries(Vec<DirEntry>),
}

impl View for DirListing {
    type V = Option<Seq<DirEntryView>>;

    open spec fn view(&self) -> Option<Seq<DirEntryView>> {
        match self {
            DirListing::Unreadable => None,
            DirListing::Entries(entries) => Some(Seq::new(entries@.len(), |i: int| entries@[i]@)),
        }
    }
}

/// The test that an entry is a solution file, by its name.
pub open spec fn names_solution() -> spec_fn(DirEntryView) -> bool {
    |e: DirEntryView| is_solution_name(e.file_name)
}

/// The index of the first entry that is a solution file, or `entries.len()`
/// where none is.
pub open spec fn first_solution(entries: Seq<DirEntryView>) -> int {
    first_index(entries, names_solution())
}

/// The path of the first solution file of a listing. There is none where the
/// directory could not be read, where no entry is a solution file, and where
/// the first such entry has no path in Unicode.
pub open spec fn solution_path(listing: Option<Seq<DirEntryView>>) -> Option<Seq<char>> {
    match listing {
        None => None,
        Some(entries) => {
            let i = first_solution(entries);
            if i < entries.len() {
                entries[i].path
            } else {
                None
            }
        },
    }
}

/// Searches the entries of the workspace root for a solution file and
/// returns the path of the first one.
pub fn find_sln(listing: &DirListing) -> (found: Option<String>)
    ensures
        optional_text(found) == solution_path(listing@),
{
    match listing {
        DirListing::Unreadable => None,
        DirListing::Entries(entries) => {
            let ghost view = listing@.unwrap();
            let mut i: usize = 0;
            while i < entries.len()
                invariant
                    i <= entries.len(),
                    listing@ == Some(view),
                    view.len() == entries@.len(),
                    forall|j: int| 0 <= j < entries@.len() ==> #[trigger] view[j] == entries@[j]@,
                    forall|j: int| 0 <= j < i ==> !names_solution()(#[trigger] view[j]),
                decreases entries.len() - i,
            {
                let entry = &entries[i];
                if is_solution_file(entry.file_name.as_str()) {
                    proof {
                        assert(names_solution()(view[i as int]));
                        lemma_first_index_unique(view, names_solution(), i as int);
                    }
                    let found = match &entry.path {
                        Some(path) => Some(path.clone()),
                        None => None,
                    };
                    return found;
                }
                i += 1;
            }
            proof {
                lemma_first_index_unique(view, names_solution(), i as int);
            }
            None
        },
    }
}

} // verus!
