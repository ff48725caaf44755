//! The value that the resolver produces, the user's override that it reads,
//! and their mathematical views.

use vstd::prelude::*;

verus! {

/// The text of each string of `v`, in order.
pub open spec fn texts(v: Seq<String>) -> Seq<Seq<char>> {
    Seq::new(v.len(), |i: int| v[i]@)
}

/// The text of an optional string.
pub open spec fn optional_text(s: Option<String>) -> Option<Seq<char>> {
    match s {
        Some(t) => Some(t@),
        None => None,
    }
}

/// How to launch a process: the executable, its arguments in order, and the
/// environment variables to set for it.
#[derive(Debug, Clone, PartialEq, Eq)]
pub struct Command {
    pub command: String,
    pub args: Vec<String>,
    pub env: Vec<(String, String)>,
}

/// A `Command` as plain text.
pub struct CommandView {
    pub command: Seq<char>,
    pub args: Seq<Seq<char>>,
    pub env: Seq<(Seq<char>, Seq<char>)>,
}

impl View for Command {
    type V = CommandView;

    open spec fn view(&self) -> CommandView {
        CommandView {
            command: self.command@,
            args: texts(self.args@),
            env: Seq::new(self.env@.len(), |i: int| (self.env@[i].0@, self.env@[i].1@)),
        }
    }
}

/// What the user configured for the language server's binary. Either field
/// may be absent.
#[derive(Debug, Clone, PartialEq, Eq)]
pub struct BinarySettings {
    /// The executable to run in place of the default one.
    pub path: Option<String>,
    /// Arguments to pass before the fixed ones.
    pub arguments: Option<Vec<String>>,
}

/// A `BinarySettings` as plain text.
pub struct BinarySettingsView {
    pub path: Option<Seq<char>>,
    pub arguments: Option<Seq<Seq<char>>>,
}

impl View for BinarySettings {
    type V = BinarySettingsView;

    open spec fn view(&self) -> BinarySettingsView {
        BinarySettingsView {
            path: optional_text(self.path),
            arguments: match self.arguments {
                Some(a) => Some(texts(a@)),
                None => None,
            },
        }
    }
}

/// The view of an optional override.
pub open spec fn optional_settings(s: Option<BinarySettings>) -> Option<BinarySettingsView> {
    match s {
        Some(b) => Some(b@),
        None => None,
    }
}

} // verus!
