//! The command line: which command an argument list asks for.

use vstd::prelude::*;
use vstd::string::*;
use crate::ident::{id_of_text, parse_id};

verus! {

/// The usage text, which is also the grammar of the command line.
pub const USAGE: &'static str = "
dablog CLI

Usage:
  dablog init
  dablog create
  dablog read ID
  dablog update ID
  dablog delete ID
  dablog build
  dablog (-h | --help)
  dablog (-v | --version)

Options:
  -h --help     Show this screen.
  -v --version  Show version.
";

/// The usage lines alone: the part of the usage text that a refusal repeats.
pub const USAGE_LINES: &'static str = "Usage:
  dablog init
  dablog create
  dablog read ID
  dablog update ID
  dablog delete ID
  dablog build
  dablog (-h | --help)
  dablog (-v | --version)";

/// Whether `text` ends with `tail`.
pub open spec fn ends_with(text: Seq<char>, tail: Seq<char>) -> bool {
    text.len() >= tail.len() && text.subrange(text.len() - tail.len(), text.len() as int) == tail
}

/// One thing that the program can be asked to do.
#[derive(Clone, Copy, Debug, PartialEq, Eq, Structural)]
pub enum Command {
    /// Set the journal up and store the greeting post.
    Init,
    /// Write a post in the editor and store it.
    Create,
    /// Show the post with this id.
    Read(i64),
    /// Rewrite the post with this id. Not supported.
    Update(i64),
    /// Remove the post with this id.
    Delete(i64),
    /// Render the journal. Not supported.
    Build,
    /// Show the program's version.
    Version,
    /// Show the usage text.
    Help,
}

/// What a matched argument list holds: one switch for each command word
/// and for the version flag, and the text given for `ID`, which is empty
/// where none was given.
#[derive(Debug)]
pub struct Switches {
    pub init: bool,
    pub create: bool,
    pub read: bool,
    pub update: bool,
    pub delete: bool,
    pub build: bool,
    pub version: bool,
    pub id: String,
}

/// The switches as a mathematical value.
pub struct SwitchesView {
    pub init: bool,
    pub create: bool,
    pub read: bool,
    pub update: bool,
    pub delete: bool,
    pub build: bool,
    pub version: bool,
    pub id: Seq<char>,
}

impl View for Switches {
    type V = SwitchesView;

    open spec fn view(&self) -> SwitchesView {
        SwitchesView {
            init: self.init,
            create: self.create,
            read: self.read,
            update: self.update,
            delete: self.delete,
            build: self.build,
            version: self.version,
            id: self.id@,
        }
    }
}

/// What came of matching an argument list against the usage text.
#[derive(Debug)]
pub enum Matched {
    /// The arguments fit one of the usage lines.
    Values(Switches),
    /// The arguments ask for the usage text.
    Help,
    /// The arguments fit no usage line. The text says why and repeats the
    /// usage lines.
    Refused(String),
}

/// The part of a match that the arguments alone decide: all of it but the
/// wording of a refusal.
pub enum MatchKind {
    Values(SwitchesView),
    Help,
    Refused,
}

impl Matched {
    pub open spec fn kind(&self) -> MatchKind {
        match self {
            Matched::Values(switches) => MatchKind::Values(switches@),
            Matched::Help => MatchKind::Help,
            Matched::Refused(_) => MatchKind::Refused,
        }
    }
}

/// Why an argument list names no command.
#[derive(Debug)]
pub enum CliError {
    /// The arguments fit no usage line.
    Usage(String),
    /// The text given for `ID` is not an integer that fits in 64 bits.
    BadId(String),
    /// The arguments fit a usage line that names no command.
    NoCommand,
}

/// The error as a mathematical value.
pub enum CliErrorView {
    Usage(Seq<char>),
    BadId(Seq<char>),
    NoCommand,
}

impl View for CliError {
    type V = CliErrorView;

    open spec fn view(&self) -> CliErrorView {
        match self {
            CliError::Usage(text) => CliErrorView::Usage(text@),
            CliError::BadId(text) => CliErrorView::BadId(text@),
            CliError::NoCommand => CliErrorView::NoCommand,
        }
    }
}

/// The command that takes an id, once the id is read from `text`.
pub open spec fn with_id(text: Seq<char>, read: bool, update: bool) -> Result<
    Command,
    CliErrorView,
> {
    match id_of_text(text) {
        Some(id) => Ok(
            if read {
                Command::Read(id)
            } else if update {
                Command::Update(id)
            } else {
                Command::Delete(id)
            },
        ),
        None => Err(CliErrorView::BadId(text)),
    }
}

/// The command that a set of switches names. Where several switches are
/// on, the first one in the order of the usage text decides. The id is
/// read only for a command that takes one.
pub open spec fn command_of_switches(s: SwitchesView) -> Result<Command, CliErrorView> {
    if s.init {
        Ok(Command::Init)
    } else if s.create {
        Ok(Command::Create)
    } else if s.read || s.update || s.delete {
        with_id(s.id, s.read, s.update)
    } else if s.build {
        Ok(Command::Build)
    } else if s.version {
        Ok(Command::Version)
    } else {
        Err(CliErrorView::NoCommand)
    }
}

/// The command that switches name.
pub fn select_command(switches: Switches) -> (r: Result<Command, CliError>)
    ensures
        match r {
            Ok(command) => command_of_switches(switches@) == Ok::<Command, CliErrorView>(command),
            Err(e) => command_of_switches(switches@) == Err::<Command, CliErrorView>(e@),
        },
{
    if switches.init {
        Ok(Command::Init)
    } else if switches.create {
        Ok(Command::Create)
    } else if switches.read || switches.update || switches.delete {
        match parse_id(switches.id.as_str()) {
            Some(id) => Ok(
                if switches.read {
                    Command::Read(id)
                } else if switches.update {
                    Command::Update(id)
                } else {
                    Command::Delete(id)
                },
            ),
            None => Err(CliError::BadId(switches.id)),
        }
    } else if switches.build {
        Ok(Command::Build)
    } else if switches.version {
        Ok(Command::Version)
    } else {
        Err(CliError::NoCommand)
    }
}

/// The command that a match names: the one of its switches, the usage text
/// where that was asked for, and a usage error with the refusal's own text
/// where the arguments were refused.
pub fn command_of(matched: Matched) -> (r: Result<Command, CliError>)
    ensures
        match matched {
            Matched::Values(switches) => match r {
                Ok(command) => command_of_switches(switches@) == Ok::<Command, CliErrorView>(
                    command,
                ),
                Err(e) => command_of_switches(switches@) == Err::<Command, CliErrorView>(e@),
            },
            Matched::Help => r == Ok::<Command, CliError>(Command::Help),
            Matched::Refused(text) => r == Err::<Command, CliError>(CliError::Usage(text)),
        },
{
    match matched {
        Matched::Values(switches) => select_command(switches),
        Matched::Help => Ok(Command::Help),
        Matched::Refused(text) => Err(CliError::Usage(text)),
    }
}

/// What the arguments alone decide of the match of an argument list, program
/// name first, against a usage text.
pub uninterp spec fn usage_match(usage: Seq<char>, argv: Seq<Seq<char>>) -> MatchKind;

/// Matches `argv`, program name first, against the usage text `usage` with
/// `docopt::Docopt::new`, `Docopt::argv` and `Docopt::parse`, and reads the
/// result with `ArgvMap::get_bool` and `ArgvMap::get_str`, or `Error::fatal`
/// and the error's own text. Trusted: that the switches, and whether help
/// was asked for or the arguments were refused, depend on the two texts
/// alone; and that the text of a refusal ends with the usage lines, which
/// docopt cuts out of the usage text and writes after its own account of
/// the refusal. Nothing is claimed of that account.
#[verifier::external_body]
fn match_usage(usage: &str, argv: &Vec<String>) -> (m: Matched)
    requires
        usage@ == USAGE@,
    ensures
        m.kind() == usage_match(usage@, argv.deep_view()),
        m matches Matched::Refused(text) ==> ends_with(text@, USAGE_LINES@),
{
    match docopt::Docopt::new(usage).and_then(|d| d.argv(argv.iter()).parse()) {
        Ok(map) => Matched::Values(Switches {
            init: map.get_bool("init"),
            create: map.get_bool("create"),
            read: map.get_bool("read"),
            update: map.get_bool("update"),
            delete: map.get_bool("delete"),
            build: map.get_bool("build"),
            version: map.get_bool("--version"),
            id: map.get_str("ID").to_string(),
        }),
        Err(e) => if e.fatal() { Matched::Refused(e.to_string()) } else { Matched::Help },
    }
}

/// Whether `r` is what a match of this kind comes to: the command that the
/// match names, or, for a refusal, a usage error whose text ends with the
/// usage lines. What stands before them is the refusal's own wording.
pub open spec fn command_of_kind(kind: MatchKind, r: Result<Command, CliErrorView>) -> bool {
    match kind {
        MatchKind::Values(switches) => r == command_of_switches(switches),
        MatchKind::Help => r == Ok::<Command, CliErrorView>(Command::Help),
        MatchKind::Refused => r matches Err(CliErrorView::Usage(text)) && ends_with(
            text,
            USAGE_LINES@,
        ),
    }
}

/// The view of a result of reading the command line.
pub open spec fn result_view(r: Result<Command, CliError>) -> Result<Command, CliErrorView> {
    match r {
        Ok(command) => Ok(command),
        Err(e) => Err(e@),
    }
}

/// Reads the command from the program's arguments, program name first.
pub fn parse_command(argv: &Vec<String>) -> (r: Result<Command, CliError>)
    ensures
        command_of_kind(usage_match(USAGE@, argv.deep_view()), result_view(r)),
{
    let matched = match_usage(USAGE, argv);
    command_of(matched)
}

} // verus!
