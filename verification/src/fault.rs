//! What can go wrong, by kind.

use vstd::prelude::*;
use vstd::string::*;

verus! {

/// The kinds of failure. Each failure ends the command that met it.
#[derive(Clone, Copy, Debug, PartialEq, Eq, Structural)]
pub enum Fault {
    /// The storage could not be set up: it is set up already, or cannot be
    /// written.
    StorageInit,
    /// A post could not be stored or removed.
    StorageWrite,
    /// The storage could not be read.
    StorageRead,
    /// No post has the id that was asked for.
    NotFound(i64),
    /// No scratch file could be made for the editor.
    TempFile,
    /// No editor is configured.
    EditorNotConfigured,
    /// The editor could not be started, or it reported failure.
    EditorProcess,
    /// What the editor left behind could not be read.
    ContentRead,
    /// The command is not supported yet.
    Unsupported,
    /// The arguments fit no usage line.
    Usage,
    /// The text given for an id is not an integer.
    BadId,
    /// The arguments name no command.
    NoCommand,
    /// An answer came that the command was not waiting for.
    Protocol,
}

impl Fault {
    /// The sentence that tells the user of this kind of failure.
    pub open spec fn description(self) -> Seq<char> {
        match self {
            Fault::StorageInit => "cannot set up the journal"@,
            Fault::StorageWrite => "cannot write to the journal"@,
            Fault::StorageRead => "cannot read the journal"@,
            Fault::NotFound(_) => "no post has this id"@,
            Fault::TempFile => "cannot make a scratch file"@,
            Fault::EditorNotConfigured => "no editor is configured"@,
            Fault::EditorProcess => "the editor failed"@,
            Fault::ContentRead => "cannot read what the editor wrote"@,
            Fault::Unsupported => "this command is not supported yet"@,
            Fault::Usage => "the arguments are not understood"@,
            Fault::BadId => "the id is not an integer"@,
            Fault::NoCommand => "no command was given"@,
            Fault::Protocol => "an unexpected answer arrived"@,
        }
    }

    /// The sentence that tells the user of this kind of failure.
    pub fn describe(self) -> (text: &'static str)
        ensures
            text@ == self.description(),
    {
        match self {
            Fault::StorageInit => "cannot set up the journal",
            Fault::StorageWrite => "cannot write to the journal",
            Fault::StorageRead => "cannot read the journal",
            Fault::NotFound(_) => "no post has this id",
            Fault::TempFile => "cannot make a scratch file",
            Fault::EditorNotConfigured => "no editor is configured",
            Fault::EditorProcess => "the editor failed",
            Fault::ContentRead => "cannot read what the editor wrote",
            Fault::Unsupported => "this command is not supported yet",
            Fault::Usage => "the arguments are not understood",
            Fault::BadId => "the id is not an integer",
            Fault::NoCommand => "no command was given",
            Fault::Protocol => "an unexpected answer arrived",
        }
    }
}

} // verus!
