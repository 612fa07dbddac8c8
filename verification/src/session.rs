//! One run of one command, as a dialogue: the command says what it needs
//! next (the editor, the storage), is told what came of it, and in the end
//! says how the program is to finish.

use vstd::prelude::*;
use vstd::string::*;
use crate::cli::{ends_with, CliError, CliErrorView, Command};
use crate::clock::{is_utc_stamp, timestamp_now};
use crate::fault::Fault;
use crate::post::{greeting_body, greeting_title, placeholder_title, Draft, DraftView};
use crate::storage::{Reply, ReplyView, Request, RequestView};

verus! {

/// The usage text as the help shows it.
pub const HELP: &'static str = "dablog CLI

Usage:
  dablog init
  dablog create
  dablog read ID
  dablog update ID
  dablog delete ID
  dablog build
  dablog (-h | --help)
  dablog (-v | --version)

Options:
  -h --help     Show this screen.
  -v --version  Show version.";

/// How the program is to finish.
#[derive(Debug)]
pub enum Outcome {
    /// With success: what to print on the output stream and on the error
    /// stream.
    Done { out: String, err: String },
    /// With failure: the kind of failure, and what the failing part had to
    /// say of it, which may be nothing.
    Failed { fault: Fault, detail: String },
}

/// An outcome as a mathematical value.
pub enum OutcomeView {
    Done { out: Seq<char>, err: Seq<char> },
    Failed { fault: Fault, detail: Seq<char> },
}

impl View for Outcome {
    type V = OutcomeView;

    open spec fn view(&self) -> OutcomeView {
        match self {
            Outcome::Done { out, err } => OutcomeView::Done { out: out@, err: err@ },
            Outcome::Failed { fault, detail } => OutcomeView::Failed {
                fault: *fault,
                detail: detail@,
            },
        }
    }
}

impl OutcomeView {
    /// Success that prints nothing.
    pub open spec fn quiet() -> OutcomeView {
        OutcomeView::Done { out: Seq::empty(), err: Seq::empty() }
    }

    /// Failure of the kind `fault` with nothing more to say.
    pub open spec fn bare(fault: Fault) -> OutcomeView {
        OutcomeView::Failed { fault, detail: Seq::empty() }
    }

    /// The exit status: 0 for success, 1 for failure.
    pub open spec fn exit_code(self) -> int {
        match self {
            OutcomeView::Done { .. } => 0,
            OutcomeView::Failed { .. } => 1,
        }
    }

    /// What goes to the output stream.
    pub open spec fn output_text(self) -> Seq<char> {
        match self {
            OutcomeView::Done { out, .. } => out,
            OutcomeView::Failed { .. } => Seq::empty(),
        }
    }

    /// What goes to the error stream. A failure is told in one line: the
    /// sentence for its kind, then, where there is a detail, a colon and
    /// the detail.
    pub open spec fn error_text(self) -> Seq<char> {
        match self {
            OutcomeView::Done { err, .. } => err,
            OutcomeView::Failed { fault, detail } => if detail.len() == 0 {
                fault.description() + "\n"@
            } else {
                fault.description() + ": "@ + detail + "\n"@
            },
        }
    }
}

impl Outcome {
    /// Success that prints nothing.
    pub fn quiet() -> (o: Outcome)
        ensures
            o@ == OutcomeView::quiet(),
    {
        Outcome::Done { out: String::new(), err: String::new() }
    }

    /// Failure of the kind `fault` with nothing more to say.
    pub fn bare(fault: Fault) -> (o: Outcome)
        ensures
            o@ == OutcomeView::bare(fault),
    {
        Outcome::Failed { fault, detail: String::new() }
    }

    /// The exit status: 0 for success, 1 for failure.
    pub fn exit_code(&self) -> (code: i32)
        ensures
            code == self@.exit_code(),
    {
        match self {
            Outcome::Done { .. } => 0,
            Outcome::Failed { .. } => 1,
        }
    }

    /// What goes to the output stream.
    pub fn output_text(&self) -> (text: String)
        ensures
            text@ == self@.output_text(),
    {
        match self {
            Outcome::Done { out, .. } => out.clone(),
            Outcome::Failed { .. } => String::new(),
        }
    }

    /// What goes to the error stream.
    pub fn error_text(&self) -> (text: String)
        ensures
            text@ == self@.error_text(),
    {
        match self {
            Outcome::Done { err, .. } => err.clone(),
            Outcome::Failed { fault, detail } => {
                let mut text = String::from_str(fault.describe());
                if !detail.as_str().is_empty() {
                    text.append(": ");
                    text.append(detail.as_str());
                }
                text.append("\n");
                text
            },
        }
    }
}

/// How the program finishes where its arguments name no command: with the
/// fault of the error's kind, and the error's text as the detail.
pub open spec fn refusal_of(error: CliErrorView) -> OutcomeView {
    match error {
        CliErrorView::Usage(text) => OutcomeView::Failed { fault: Fault::Usage, detail: text },
        CliErrorView::BadId(text) => OutcomeView::Failed { fault: Fault::BadId, detail: text },
        CliErrorView::NoCommand => OutcomeView::bare(Fault::NoCommand),
    }
}

/// How the program finishes where its arguments name no command.
pub fn refusal(error: CliError) -> (o: Outcome)
    ensures
        o@ == refusal_of(error@),
{
    match error {
        CliError::Usage(text) => Outcome::Failed { fault: Fault::Usage, detail: text },
        CliError::BadId(text) => Outcome::Failed { fault: Fault::BadId, detail: text },
        CliError::NoCommand => Outcome::bare(Fault::NoCommand),
    }
}

/// A refused command line is told on the error stream, and what is told
/// ends with whatever the refusal's text ends with: with the usage lines,
/// where the text ends with them. Nothing goes to the output stream, and
/// the exit status is 1.
pub proof fn lemma_refusal_shows_its_text(text: Seq<char>, tail: Seq<char>)
    requires
        ends_with(text, tail),
        tail.len() > 0,
    ensures
        ends_with(refusal_of(CliErrorView::Usage(text)).error_text(), tail + "\n"@),
        refusal_of(CliErrorView::Usage(text)).output_text().len() == 0,
        refusal_of(CliErrorView::Usage(text)).exit_code() == 1,
{
    let head = Fault::Usage.description() + ": "@;
    let told = refusal_of(CliErrorView::Usage(text)).error_text();
    assert(told == head + text + "\n"@);
    let cut = told.len() - (tail + "\n"@).len();
    assert(told.subrange(cut, told.len() as int) =~= text.subrange(
        text.len() - tail.len(),
        text.len() as int,
    ) + "\n"@);
}

/// What a command is waiting for.
#[derive(Clone, Copy, Debug, PartialEq, Eq, Structural)]
pub enum Phase {
    /// For the text that the editor leaves behind.
    Editing,
    /// For the posts table to be defined.
    CreatingTable,
    /// For the greeting post to be stored.
    StoringGreeting,
    /// For the post from the editor to be stored.
    StoringPost,
    /// For the post with this id to be read.
    Reading(i64),
    /// For a post to be removed.
    Deleting,
    /// For nothing: the command is over.
    Finished,
}

/// What a command is told.
#[derive(Debug)]
pub enum Event {
    /// The editor was closed, and this is the text that it left behind.
    Edited(String),
    /// The editor gave no text: the kind of failure, and the detail.
    EditFailed(Fault, String),
    /// The storage answered.
    Answered(Reply),
}

/// An event as a mathematical value.
pub enum EventView {
    Edited(Seq<char>),
    EditFailed(Fault, Seq<char>),
    Answered(ReplyView),
}

impl View for Event {
    type V = EventView;

    open spec fn view(&self) -> EventView {
        match self {
            Event::Edited(text) => EventView::Edited(text@),
            Event::EditFailed(fault, detail) => EventView::EditFailed(*fault, detail@),
            Event::Answered(reply) => EventView::Answered(reply@),
        }
    }
}

/// What a command needs next.
#[derive(Debug)]
pub enum Action {
    /// Let the user write a text in the editor.
    Edit,
    /// Put this request to the storage.
    Ask(Request),
    /// Finish the program.
    Exit(Outcome),
}

/// An action as a mathematical value.
pub enum ActionView {
    Edit,
    Ask(RequestView),
    Exit(OutcomeView),
}

impl View for Action {
    type V = ActionView;

    open spec fn view(&self) -> ActionView {
        match self {
            Action::Edit => ActionView::Edit,
            Action::Ask(request) => ActionView::Ask(request@),
            Action::Exit(outcome) => ActionView::Exit(outcome@),
        }
    }
}

/// The draft of the greeting post, stamped `stamp`.
pub open spec fn greeting_draft(stamp: Seq<char>) -> DraftView {
    DraftView { created_at: stamp, title: greeting_title(), body: greeting_body() }
}

/// The draft of a post from the editor, stamped `stamp`.
pub open spec fn untitled_draft(stamp: Seq<char>, body: Seq<char>) -> DraftView {
    DraftView { created_at: stamp, title: placeholder_title(), body }
}

/// The first move of `command`. The version is the program's own.
pub open spec fn first_move(command: Command, version: Seq<char>) -> (Phase, ActionView) {
    match command {
        Command::Init => (Phase::CreatingTable, ActionView::Ask(RequestView::CreateTable)),
        Command::Create => (Phase::Editing, ActionView::Edit),
        Command::Read(id) => (Phase::Reading(id), ActionView::Ask(RequestView::Select(id as int))),
        Command::Delete(id) => (Phase::Deleting, ActionView::Ask(RequestView::Delete(id as int))),
        Command::Update(_) => (
            Phase::Finished,
            ActionView::Exit(OutcomeView::bare(Fault::Unsupported)),
        ),
        Command::Build => (Phase::Finished, ActionView::Exit(OutcomeView::bare(Fault::Unsupported))),
        Command::Version => (
            Phase::Finished,
            ActionView::Exit(
                OutcomeView::Done { out: Seq::empty(), err: "dablog v"@ + version + "\n"@ },
            ),
        ),
        Command::Help => (
            Phase::Finished,
            ActionView::Exit(OutcomeView::Done { out: HELP@ + "\n"@, err: Seq::empty() }),
        ),
    }
}

/// The kind of failure that a failed statement means in the phase `phase`.
pub open spec fn storage_fault(phase: Phase) -> Fault {
    match phase {
        Phase::CreatingTable => Fault::StorageInit,
        Phase::Reading(_) => Fault::StorageRead,
        _ => Fault::StorageWrite,
    }
}

/// Whether a command in the phase `phase` waits for the storage.
pub open spec fn awaits_storage(phase: Phase) -> bool {
    phase != Phase::Editing && phase != Phase::Finished
}

/// The move that follows when a command in the phase `phase` is told
/// `event`. `stamp` is the time of the move; it goes into the post that the
/// move stores, if it stores one.
pub open spec fn next_move(phase: Phase, event: EventView, stamp: Seq<char>) -> (
    Phase,
    ActionView,
) {
    let exit = |outcome: OutcomeView| (Phase::Finished, ActionView::Exit(outcome));
    match (phase, event) {
        (Phase::Editing, EventView::Edited(text)) => (
            Phase::StoringPost,
            ActionView::Ask(RequestView::Insert(untitled_draft(stamp, text))),
        ),
        (Phase::Editing, EventView::EditFailed(fault, detail)) => exit(
            OutcomeView::Failed { fault, detail },
        ),
        (Phase::CreatingTable, EventView::Answered(ReplyView::Done)) => (
            Phase::StoringGreeting,
            ActionView::Ask(RequestView::Insert(greeting_draft(stamp))),
        ),
        (Phase::StoringGreeting, EventView::Answered(ReplyView::Inserted(_))) => exit(
            OutcomeView::quiet(),
        ),
        (Phase::StoringPost, EventView::Answered(ReplyView::Inserted(_))) => exit(
            OutcomeView::quiet(),
        ),
        (Phase::Reading(_), EventView::Answered(ReplyView::Row(post))) => exit(
            OutcomeView::Done { out: post.rendered(), err: Seq::empty() },
        ),
        (Phase::Reading(id), EventView::Answered(ReplyView::NoRow)) => exit(
            OutcomeView::bare(Fault::NotFound(id)),
        ),
        (Phase::Deleting, EventView::Answered(ReplyView::Done)) => exit(OutcomeView::quiet()),
        (_, EventView::Answered(ReplyView::Failed(detail))) => if awaits_storage(phase) {
            exit(OutcomeView::Failed { fault: storage_fault(phase), detail })
        } else {
            exit(OutcomeView::bare(Fault::Protocol))
        },
        _ => exit(OutcomeView::bare(Fault::Protocol)),
    }
}

/// Whether the move that follows `event` in the phase `phase` stores a
/// post, and so needs the time.
pub open spec fn stamps(phase: Phase, event: EventView) -> bool {
    ||| phase == Phase::Editing && event is Edited
    ||| phase == Phase::CreatingTable && event == EventView::Answered(ReplyView::Done)
}

/// The first move of `command`. The version is the program's own.
pub fn start(command: Command, version: &str) -> (r: (Phase, Action))
    ensures
        (r.0, r.1@) == first_move(command, version@),
{
    match command {
        Command::Init => (Phase::CreatingTable, Action::Ask(Request::CreateTable)),
        Command::Create => (Phase::Editing, Action::Edit),
        Command::Read(id) => (Phase::Reading(id), Action::Ask(Request::Select(id))),
        Command::Delete(id) => (Phase::Deleting, Action::Ask(Request::Delete(id))),
        Command::Update(_) => (Phase::Finished, Action::Exit(Outcome::bare(Fault::Unsupported))),
        Command::Build => (Phase::Finished, Action::Exit(Outcome::bare(Fault::Unsupported))),
        Command::Version => {
            let mut err = String::from_str("dablog v");
            err.append(version);
            err.append("\n");
            (Phase::Finished, Action::Exit(Outcome::Done { out: String::new(), err }))
        },
        Command::Help => {
            let mut out = String::from_str(HELP);
            out.append("\n");
            (Phase::Finished, Action::Exit(Outcome::Done { out, err: String::new() }))
        },
    }
}

/// The move that follows when a command in the phase `phase` is told
/// `event`, at the time `stamp`.
pub fn step(phase: Phase, event: Event, stamp: String) -> (r: (Phase, Action))
    ensures
        (r.0, r.1@) == next_move(phase, event@, stamp@),
{
    match (phase, event) {
        (Phase::Editing, Event::Edited(text)) => (
            Phase::StoringPost,
            Action::Ask(Request::Insert(Draft::untitled(stamp, text))),
        ),
        (Phase::Editing, Event::EditFailed(fault, detail)) => (
            Phase::Finished,
            Action::Exit(Outcome::Failed { fault, detail }),
        ),
        (Phase::CreatingTable, Event::Answered(Reply::Done)) => (
            Phase::StoringGreeting,
            Action::Ask(Request::Insert(Draft::greeting(stamp))),
        ),
        (Phase::StoringGreeting, Event::Answered(Reply::Inserted(_))) => (
            Phase::Finished,
            Action::Exit(Outcome::quiet()),
        ),
        (Phase::StoringPost, Event::Answered(Reply::Inserted(_))) => (
            Phase::Finished,
            Action::Exit(Outcome::quiet()),
        ),
        (Phase::Reading(_), Event::Answered(Reply::Row(post))) => (
            Phase::Finished,
            Action::Exit(Outcome::Done { out: post.render(), err: String::new() }),
        ),
        (Phase::Reading(id), Event::Answered(Reply::NoRow)) => (
            Phase::Finished,
            Action::Exit(Outcome::bare(Fault::NotFound(id))),
        ),
        (Phase::Deleting, Event::Answered(Reply::Done)) => (
            Phase::Finished,
            Action::Exit(Outcome::quiet()),
        ),
        (phase, Event::Answered(Reply::Failed(detail))) => {
            let fault = match phase {
                Phase::Editing => Fault::Protocol,
                Phase::Finished => Fault::Protocol,
                Phase::CreatingTable => Fault::StorageInit,
                Phase::Reading(_) => Fault::StorageRead,
                _ => Fault::StorageWrite,
            };
            match fault {
                Fault::Protocol => (Phase::Finished, Action::Exit(Outcome::bare(Fault::Protocol))),
                _ => (Phase::Finished, Action::Exit(Outcome::Failed { fault, detail })),
            }
        },
        _ => (Phase::Finished, Action::Exit(Outcome::bare(Fault::Protocol))),
    }
}

/// The move that follows when a command in the phase `phase` is told
/// `event` now. Where the move stores a post, it is the move of `step` at
/// the present time, read from the clock and written as a moment in UTC.
/// Every other move is the same at all times, and the clock is not read.
pub fn advance(phase: Phase, event: Event) -> (r: (Phase, Action))
    ensures
        stamps(phase, event@) ==> exists|stamp: Seq<char>|
            is_utc_stamp(stamp) && (r.0, r.1@) == next_move(phase, event@, stamp),
        !stamps(phase, event@) ==> forall|stamp: Seq<char>|
            (r.0, r.1@) == next_move(phase, event@, stamp),
{
    let needs_time = match (&phase, &event) {
        (Phase::Editing, Event::Edited(_)) => true,
        (Phase::CreatingTable, Event::Answered(Reply::Done)) => true,
        _ => false,
    };
    let stamp = if needs_time {
        timestamp_now()
    } else {
        String::new()
    };
    step(phase, event, stamp)
}

} // verus!
