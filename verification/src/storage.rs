//! What the commands ask of the storage, and what the storage answers.
//!
//! The storage is a relational database with one table, `posts`. Each
//! request is one statement with its parameters.

use vstd::prelude::*;
use vstd::string::*;
use crate::post::{Draft, DraftView, Post, PostView};

verus! {

/// The statement that defines the posts table.
pub const CREATE_TABLE: &'static str = "
    CREATE TABLE posts (
        id         INTEGER PRIMARY KEY AUTOINCREMENT,
        created_at TEXT NOT NULL,
        title      TEXT NOT NULL,
        body       TEXT NOT NULL
    )
    ";

/// The statement that stores a post. Its parameters are the four columns
/// in the table's order; the id is given as null, which lets the table
/// pick it.
pub const INSERT_POST: &'static str = "INSERT INTO posts VALUES (?, ?, ?, ?)";

/// The statement that reads the post with the id that is its parameter.
pub const SELECT_POST: &'static str = "SELECT * FROM posts WHERE id = ?";

/// The statement that removes the post with the id that is its parameter.
pub const DELETE_POST: &'static str = "DELETE FROM posts WHERE ID = ?";

/// One request to the storage.
#[derive(Debug)]
pub enum Request {
    /// Define the posts table.
    CreateTable,
    /// Store this draft as a new post.
    Insert(Draft),
    /// Read the post with this id.
    Select(i64),
    /// Remove the post with this id, if there is one.
    Delete(i64),
}

/// A request as a mathematical value.
pub enum RequestView {
    CreateTable,
    Insert(DraftView),
    Select(int),
    Delete(int),
}

impl View for Request {
    type V = RequestView;

    open spec fn view(&self) -> RequestView {
        match self {
            Request::CreateTable => RequestView::CreateTable,
            Request::Insert(draft) => RequestView::Insert(draft@),
            Request::Select(id) => RequestView::Select(*id as int),
            Request::Delete(id) => RequestView::Delete(*id as int),
        }
    }
}

/// One parameter of a statement.
#[derive(Debug)]
pub enum Param {
    Null,
    Text(String),
    Integer(i64),
}

/// A parameter as a mathematical value.
pub enum ParamView {
    Null,
    Text(Seq<char>),
    Integer(int),
}

impl View for Param {
    type V = ParamView;

    open spec fn view(&self) -> ParamView {
        match self {
            Param::Null => ParamView::Null,
            Param::Text(text) => ParamView::Text(text@),
            Param::Integer(n) => ParamView::Integer(*n as int),
        }
    }
}

/// What the storage answers.
#[derive(Debug)]
pub enum Reply {
    /// The statement ran and has nothing to tell.
    Done,
    /// The post was stored, under this id.
    Inserted(i64),
    /// The post that was asked for.
    Row(Post),
    /// No post has the id that was asked for.
    NoRow,
    /// The statement failed. The text is the storage's own account of it.
    Failed(String),
}

/// An answer as a mathematical value.
pub enum ReplyView {
    Done,
    Inserted(int),
    Row(PostView),
    NoRow,
    Failed(Seq<char>),
}

impl View for Reply {
    type V = ReplyView;

    open spec fn view(&self) -> ReplyView {
        match self {
            Reply::Done => ReplyView::Done,
            Reply::Inserted(id) => ReplyView::Inserted(*id as int),
            Reply::Row(post) => ReplyView::Row(post@),
            Reply::NoRow => ReplyView::NoRow,
            Reply::Failed(text) => ReplyView::Failed(text@),
        }
    }
}

impl RequestView {
    /// The text of the request's statement.
    pub open spec fn statement(self) -> Seq<char> {
        match self {
            RequestView::CreateTable => CREATE_TABLE@,
            RequestView::Insert(_) => INSERT_POST@,
            RequestView::Select(_) => SELECT_POST@,
            RequestView::Delete(_) => DELETE_POST@,
        }
    }

    /// The parameters of the request's statement, in the order of its
    /// question marks.
    pub open spec fn parameters(self) -> Seq<ParamView> {
        match self {
            RequestView::CreateTable => Seq::empty(),
            RequestView::Insert(draft) => seq![
                ParamView::Null,
                ParamView::Text(draft.created_at),
                ParamView::Text(draft.title),
                ParamView::Text(draft.body),
            ],
            RequestView::Select(id) => seq![ParamView::Integer(id)],
            RequestView::Delete(id) => seq![ParamView::Integer(id)],
        }
    }
}

impl Request {
    /// The text of the request's statement.
    pub fn statement(&self) -> (sql: &'static str)
        ensures
            sql@ == self@.statement(),
    {
        match self {
            Request::CreateTable => CREATE_TABLE,
            Request::Insert(_) => INSERT_POST,
            Request::Select(_) => SELECT_POST,
            Request::Delete(_) => DELETE_POST,
        }
    }

    /// The parameters of the request's statement, in the order of its
    /// question marks.
    pub fn parameters(&self) -> (params: Vec<Param>)
        ensures
            params@.len() == self@.parameters().len(),
            forall|i: int| 0 <= i < params@.len() ==> params@[i]@ == self@.parameters()[i],
    {
        let mut params: Vec<Param> = Vec::new();
        match self {
            Request::CreateTable => {},
            Request::Insert(draft) => {
                params.push(Param::Null);
                params.push(Param::Text(draft.created_at.clone()));
                params.push(Param::Text(draft.title.clone()));
                params.push(Param::Text(draft.body.clone()));
            },
            Request::Select(id) => {
                params.push(Param::Integer(*id));
            },
            Request::Delete(id) => {
                params.push(Param::Integer(*id));
            },
        }
        params
    }
}

} // verus!
