//! The way to a text from the user's editor, in three steps: a scratch file
//! is made, the editor runs on it until the user closes it, and what the
//! file then holds is read. The steps themselves are done outside; here is
//! what follows from each of them.

use vstd::prelude::*;
use vstd::string::*;
use crate::fault::Fault;
use crate::session::{Event, EventView};

verus! {

/// The step that is under way.
#[derive(Clone, Copy, Debug, PartialEq, Eq, Structural)]
pub enum Stage {
    /// The scratch file is being made.
    Composing,
    /// The editor is running.
    Editing,
    /// The scratch file is being read.
    Collecting,
    /// The text is there, or it is clear that there will be none.
    Over,
}

/// What came of a step.
#[derive(Debug)]
pub enum Report {
    /// The scratch file is there.
    Composed,
    /// No scratch file could be made.
    ComposeFailed(String),
    /// No editor is configured.
    EditorUnset,
    /// The editor could not be started.
    NotStarted(String),
    /// The editor ran and ended: with this exit code, if it ended by itself,
    /// and with this status in words.
    Exited(Option<i32>, String),
    /// The scratch file holds this text.
    Collected(String),
    /// The scratch file could not be read.
    CollectFailed(String),
}

/// A report as a mathematical value.
pub enum ReportView {
    Composed,
    ComposeFailed(Seq<char>),
    EditorUnset,
    NotStarted(Seq<char>),
    Exited(Option<i32>, Seq<char>),
    Collected(Seq<char>),
    CollectFailed(Seq<char>),
}

impl View for Report {
    type V = ReportView;

    open spec fn view(&self) -> ReportView {
        match self {
            Report::Composed => ReportView::Composed,
            Report::ComposeFailed(detail) => ReportView::ComposeFailed(detail@),
            Report::EditorUnset => ReportView::EditorUnset,
            Report::NotStarted(detail) => ReportView::NotStarted(detail@),
            Report::Exited(code, status) => ReportView::Exited(*code, status@),
            Report::Collected(text) => ReportView::Collected(text@),
            Report::CollectFailed(detail) => ReportView::CollectFailed(detail@),
        }
    }
}

/// What is to be done next.
#[derive(Debug)]
pub enum Todo {
    /// Make a scratch file with a name of its own.
    Compose,
    /// Run the configured editor on the scratch file and wait for it.
    Launch,
    /// Read the scratch file.
    Collect,
    /// Remove the scratch file, if there is one, and hand this on.
    Finish(Event),
}

/// A thing to do as a mathematical value.
pub enum TodoView {
    Compose,
    Launch,
    Collect,
    Finish(EventView),
}

impl View for Todo {
    type V = TodoView;

    open spec fn view(&self) -> TodoView {
        match self {
            Todo::Compose => TodoView::Compose,
            Todo::Launch => TodoView::Launch,
            Todo::Collect => TodoView::Collect,
            Todo::Finish(event) => TodoView::Finish(event@),
        }
    }
}

/// Whether an editor that ended with `code` did its work: it ended by
/// itself, with the code 0.
pub open spec fn succeeded(code: Option<i32>) -> bool {
    code == Some(0i32)
}

/// What follows when the step of `stage` is reported as `report`. Each step
/// follows the one before only where that one went well; the first failure
/// ends the way, with the fault of its kind. A report that does not belong
/// to the step ends it too. The text that is read is handed on as it is.
pub open spec fn follow(stage: Stage, report: ReportView) -> (Stage, TodoView) {
    let fail = |fault: Fault, detail: Seq<char>| (
        Stage::Over,
        TodoView::Finish(EventView::EditFailed(fault, detail)),
    );
    match (stage, report) {
        (Stage::Composing, ReportView::Composed) => (Stage::Editing, TodoView::Launch),
        (Stage::Composing, ReportView::ComposeFailed(detail)) => fail(Fault::TempFile, detail),
        (Stage::Editing, ReportView::EditorUnset) => fail(
            Fault::EditorNotConfigured,
            Seq::empty(),
        ),
        (Stage::Editing, ReportView::NotStarted(detail)) => fail(Fault::EditorProcess, detail),
        (Stage::Editing, ReportView::Exited(code, status)) => if succeeded(code) {
            (Stage::Collecting, TodoView::Collect)
        } else {
            fail(Fault::EditorProcess, status)
        },
        (Stage::Collecting, ReportView::Collected(text)) => (
            Stage::Over,
            TodoView::Finish(EventView::Edited(text)),
        ),
        (Stage::Collecting, ReportView::CollectFailed(detail)) => fail(Fault::ContentRead, detail),
        _ => fail(Fault::Protocol, Seq::empty()),
    }
}

/// The first step: the scratch file.
pub fn begin() -> (r: (Stage, Todo))
    ensures
        r.0 == Stage::Composing,
        r.1@ == TodoView::Compose,
{
    (Stage::Composing, Todo::Compose)
}

/// What follows when the step of `stage` is reported as `report`.
pub fn proceed(stage: Stage, report: Report) -> (r: (Stage, Todo))
    ensures
        (r.0, r.1@) == follow(stage, report@),
{
    match (stage, report) {
        (Stage::Composing, Report::Composed) => (Stage::Editing, Todo::Launch),
        (Stage::Composing, Report::ComposeFailed(detail)) => (
            Stage::Over,
            Todo::Finish(Event::EditFailed(Fault::TempFile, detail)),
        ),
        (Stage::Editing, Report::EditorUnset) => (
            Stage::Over,
            Todo::Finish(Event::EditFailed(Fault::EditorNotConfigured, String::new())),
        ),
        (Stage::Editing, Report::NotStarted(detail)) => (
            Stage::Over,
            Todo::Finish(Event::EditFailed(Fault::EditorProcess, detail)),
        ),
        (Stage::Editing, Report::Exited(code, status)) => {
            let went_well = match code {
                Some(n) => n == 0,
                None => false,
            };
            if went_well {
                (Stage::Collecting, Todo::Collect)
            } else {
                (Stage::Over, Todo::Finish(Event::EditFailed(Fault::EditorProcess, status)))
            }
        },
        (Stage::Collecting, Report::Collected(text)) => (
            Stage::Over,
            Todo::Finish(Event::Edited(text)),
        ),
        (Stage::Collecting, Report::CollectFailed(detail)) => (
            Stage::Over,
            Todo::Finish(Event::EditFailed(Fault::ContentRead, detail)),
        ),
        _ => (Stage::Over, Todo::Finish(Event::EditFailed(Fault::Protocol, String::new()))),
    }
}

/// The way always ends, after three steps at most, and it ends with a text
/// exactly where every step went well: the scratch file was made, the
/// editor ended by itself with the code 0, and the file was read. The text
/// is then the one that was read, unchanged.
pub proof fn lemma_three_steps(first: ReportView, second: ReportView, third: ReportView)
    ensures
        ({
            let (s1, t1) = follow(Stage::Composing, first);
            let (s2, t2) = follow(s1, second);
            let (s3, t3) = follow(s2, third);
            &&& t1 is Finish || t2 is Finish || t3 is Finish
            &&& !(t1 matches TodoView::Finish(EventView::Edited(_)))
            &&& !(t2 matches TodoView::Finish(EventView::Edited(_)))
            &&& forall|text: Seq<char>|
                t3 == TodoView::Finish(EventView::Edited(text)) <==> {
                    &&& first == ReportView::Composed
                    &&& second matches ReportView::Exited(code, _) && succeeded(code)
                    &&& third == ReportView::Collected(text)
                }
        }),
{
}

} // verus!
