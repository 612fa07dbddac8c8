//! A storage that lives in memory. It answers each request as the database
//! does, and so says what the requests mean.

use vstd::prelude::*;
use vstd::string::*;
use crate::cli::Command;
use crate::fault::Fault;
use crate::session::{
    first_move, greeting_draft, next_move, start, step, untitled_draft, Action, ActionView, Event,
    EventView, Outcome, OutcomeView, Phase,
};
use crate::storage::{Reply, ReplyView, Request, RequestView};
use crate::table::{PostTable, TableView};

verus! {

/// What the storage says when the posts table is defined a second time.
pub const TABLE_EXISTS: &'static str = "table posts already exists";

/// What the storage says when there is no posts table.
pub const NO_TABLE: &'static str = "no such table: posts";

/// What the storage says when the ids have run out.
pub const TABLE_FULL: &'static str = "database or disk is full";

/// The storage as a mathematical value: the posts table, once it is
/// defined.
pub type StoreView = Option<TableView>;

/// What the storage `store` answers to `request`, and the storage
/// afterwards.
pub open spec fn answer(store: StoreView, request: RequestView) -> (StoreView, ReplyView) {
    match store {
        None => match request {
            RequestView::CreateTable => (Some(TableView::empty()), ReplyView::Done),
            _ => (store, ReplyView::Failed(NO_TABLE@)),
        },
        Some(table) => match request {
            RequestView::CreateTable => (store, ReplyView::Failed(TABLE_EXISTS@)),
            RequestView::Insert(draft) => if table.is_full() {
                (store, ReplyView::Failed(TABLE_FULL@))
            } else {
                (Some(table.insert(draft)), ReplyView::Inserted(table.next_id()))
            },
            RequestView::Select(id) => match table.find(id) {
                Some(post) => (store, ReplyView::Row(post)),
                None => (store, ReplyView::NoRow),
            },
            RequestView::Delete(id) => (Some(table.delete(id)), ReplyView::Done),
        },
    }
}

/// Whether a storage is well formed: its table is, if it has one.
pub open spec fn store_wf(store: StoreView) -> bool {
    match store {
        Some(table) => table.wf(),
        None => true,
    }
}

/// How the command `command` ends on the storage `store`, and the storage
/// afterwards. `edit` is what the editor gives if the command opens it,
/// `stamp` the time of the command, `version` the program's version.
pub open spec fn outcome_of(
    store: StoreView,
    command: Command,
    edit: EventView,
    stamp: Seq<char>,
    version: Seq<char>,
) -> (StoreView, OutcomeView) {
    let failed = |fault: Fault, detail: Seq<char>| (store, OutcomeView::Failed { fault, detail });
    match command {
        Command::Init => match store {
            Some(_) => failed(Fault::StorageInit, TABLE_EXISTS@),
            None => (Some(TableView::empty().insert(greeting_draft(stamp))), OutcomeView::quiet()),
        },
        Command::Create => match edit {
            EventView::Edited(text) => match store {
                None => failed(Fault::StorageWrite, NO_TABLE@),
                Some(table) => if table.is_full() {
                    failed(Fault::StorageWrite, TABLE_FULL@)
                } else {
                    (Some(table.insert(untitled_draft(stamp, text))), OutcomeView::quiet())
                },
            },
            EventView::EditFailed(fault, detail) => failed(fault, detail),
            EventView::Answered(_) => (store, OutcomeView::bare(Fault::Protocol)),
        },
        Command::Read(id) => match store {
            None => failed(Fault::StorageRead, NO_TABLE@),
            Some(table) => match table.find(id as int) {
                Some(post) => (
                    store,
                    OutcomeView::Done { out: post.rendered(), err: Seq::empty() },
                ),
                None => (store, OutcomeView::bare(Fault::NotFound(id))),
            },
        },
        Command::Delete(id) => match store {
            None => failed(Fault::StorageWrite, NO_TABLE@),
            Some(table) => (Some(table.delete(id as int)), OutcomeView::quiet()),
        },
        _ => match first_move(command, version).1 {
            ActionView::Exit(outcome) => (store, outcome),
            _ => (store, OutcomeView::bare(Fault::Protocol)),
        },
    }
}

/// A storage in memory.
pub struct Store {
    table: Option<PostTable>,
}

impl View for Store {
    type V = StoreView;

    closed spec fn view(&self) -> StoreView {
        match self.table {
            Some(table) => Some(table@),
            None => None,
        }
    }
}

impl Store {
    /// A storage in which nothing is defined yet.
    pub fn new() -> (store: Store)
        ensures
            store@.is_none(),
    {
        Store { table: None }
    }

    /// A storage whose posts table is `table`.
    pub fn holding(table: PostTable) -> (store: Store)
        requires
            table@.wf(),
        ensures
            store@ == Some(table@),
            store_wf(store@),
    {
        Store { table: Some(table) }
    }

    /// Whether the posts table is defined.
    pub fn is_set_up(&self) -> (yes: bool)
        ensures
            yes == self@.is_some(),
    {
        self.table.is_some()
    }

    /// The ids of the stored posts, oldest post first; none where the posts
    /// table is not defined.
    pub fn ids(&self) -> (ids: Vec<i64>)
        ensures
            match self@ {
                Some(table) => ids@.len() == table.posts.len() && forall|i: int|
                    0 <= i < ids@.len() ==> ids@[i] as int == table.ids()[i],
                None => ids@.len() == 0,
            },
    {
        match &self.table {
            Some(table) => table.ids(),
            None => Vec::new(),
        }
    }

    /// Answers one request.
    pub fn perform(&mut self, request: Request) -> (reply: Reply)
        requires
            store_wf(old(self)@),
        ensures
            store_wf(final(self)@),
            (final(self)@, reply@) == answer(old(self)@, request@),
    {
        match self.table.take() {
            None => match request {
                Request::CreateTable => {
                    self.table = Some(PostTable::new());
                    Reply::Done
                },
                _ => Reply::Failed(String::from_str(NO_TABLE)),
            },
            Some(mut table) => {
                let reply = match request {
                    Request::CreateTable => Reply::Failed(String::from_str(TABLE_EXISTS)),
                    Request::Insert(draft) => match table.insert(draft) {
                        Some(id) => Reply::Inserted(id),
                        None => Reply::Failed(String::from_str(TABLE_FULL)),
                    },
                    Request::Select(id) => match table.find_by_id(id) {
                        Some(post) => Reply::Row(post.duplicate()),
                        None => Reply::NoRow,
                    },
                    Request::Delete(id) => {
                        let _ = table.delete_by_id(id);
                        Reply::Done
                    },
                };
                self.table = Some(table);
                reply
            },
        }
    }

    /// Puts the request of `action`, if it is one, to this storage and
    /// gives the move that follows the answer. Every other action stays as
    /// it is.
    fn settle(&mut self, phase: Phase, action: Action, stamp: &str) -> (r: (Phase, Action))
        requires
            store_wf(old(self)@),
        ensures
            store_wf(final(self)@),
            match action@ {
                ActionView::Ask(request) => {
                    &&& final(self)@ == answer(old(self)@, request).0
                    &&& (r.0, r.1@) == next_move(
                        phase,
                        EventView::Answered(answer(old(self)@, request).1),
                        stamp@,
                    )
                },
                _ => final(self)@ == old(self)@ && r.0 == phase && r.1@ == action@,
            },
    {
        match action {
            Action::Ask(request) => {
                let reply = self.perform(request);
                step(phase, Event::Answered(reply), String::from_str(stamp))
            },
            other => (phase, other),
        }
    }

    /// Runs `command` to its end on this storage. `edit` is what the editor
    /// gives if the command opens it, `stamp` the time of the command,
    /// `version` the program's version.
    pub fn run(&mut self, command: Command, edit: Event, stamp: &str, version: &str) -> (outcome:
        Outcome)
        requires
            store_wf(old(self)@),
        ensures
            store_wf(final(self)@),
            (final(self)@, outcome@) == outcome_of(old(self)@, command, edit@, stamp@, version@),
    {
        let (phase, action) = start(command, version);
        let (phase, action) = match action {
            Action::Edit => step(phase, edit, String::from_str(stamp)),
            other => (phase, other),
        };
        let (phase, action) = self.settle(phase, action, stamp);
        let (_, action) = self.settle(phase, action, stamp);
        match action {
            Action::Exit(outcome) => outcome,
            _ => Outcome::bare(Fault::Protocol),
        }
    }
}

} // verus!
