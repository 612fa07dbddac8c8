//! Posts: the one kind of record that the journal keeps.

use vstd::prelude::*;
use vstd::string::*;

verus! {

/// The title that the first post of a new journal gets.
pub open spec fn greeting_title() -> Seq<char> {
    "Hello, World!"@
}

/// The body that the first post of a new journal gets.
pub open spec fn greeting_body() -> Seq<char> {
    "Hello, World! Welcome to my **dablog**."@
}

/// The title of every post that is written in the editor.
pub open spec fn placeholder_title() -> Seq<char> {
    "Untitled post"@
}

/// A post that has not been stored yet, and so has no id.
#[derive(Debug)]
pub struct Draft {
    pub created_at: String,
    pub title: String,
    pub body: String,
}

/// A draft as a mathematical value.
pub struct DraftView {
    pub created_at: Seq<char>,
    pub title: Seq<char>,
    pub body: Seq<char>,
}

impl View for Draft {
    type V = DraftView;

    open spec fn view(&self) -> DraftView {
        DraftView { created_at: self.created_at@, title: self.title@, body: self.body@ }
    }
}

/// A stored post.
#[derive(Debug)]
pub struct Post {
    pub id: i64,
    pub created_at: String,
    pub title: String,
    pub body: String,
}

/// A stored post as a mathematical value.
pub struct PostView {
    pub id: int,
    pub created_at: Seq<char>,
    pub title: Seq<char>,
    pub body: Seq<char>,
}

impl View for Post {
    type V = PostView;

    open spec fn view(&self) -> PostView {
        PostView {
            id: self.id as int,
            created_at: self.created_at@,
            title: self.title@,
            body: self.body@,
        }
    }
}

impl DraftView {
    /// The post that this draft becomes when it is stored under `id`.
    pub open spec fn stored_as(self, id: int) -> PostView {
        PostView { id, created_at: self.created_at, title: self.title, body: self.body }
    }
}

impl PostView {
    /// What reading the post shows: the title on one line, the body on the next.
    pub open spec fn rendered(self) -> Seq<char> {
        self.title + seq!['\n'] + self.body + seq!['\n']
    }
}

impl Draft {
    /// The post that opens a new journal, stamped `created_at`.
    pub fn greeting(created_at: String) -> (d: Draft)
        ensures
            d@ == (DraftView {
                created_at: created_at@,
                title: greeting_title(),
                body: greeting_body(),
            }),
    {
        Draft {
            created_at,
            title: String::from_str("Hello, World!"),
            body: String::from_str("Hello, World! Welcome to my **dablog**."),
        }
    }

    /// A post whose body is what the editor left behind, kept as it is.
    /// There is no way to give it a title yet.
    pub fn untitled(created_at: String, body: String) -> (d: Draft)
        ensures
            d@ == (DraftView {
                created_at: created_at@,
                title: placeholder_title(),
                body: body@,
            }),
    {
        Draft { created_at, title: String::from_str("Untitled post"), body }
    }

    /// A copy of the draft.
    pub fn duplicate(&self) -> (d: Draft)
        ensures
            d@ == self@,
    {
        Draft {
            created_at: self.created_at.clone(),
            title: self.title.clone(),
            body: self.body.clone(),
        }
    }

    /// Gives the draft an id.
    pub fn into_post(self, id: i64) -> (p: Post)
        ensures
            p@ == self@.stored_as(id as int),
    {
        Post { id, created_at: self.created_at, title: self.title, body: self.body }
    }
}

impl Post {
    /// A copy of the post.
    pub fn duplicate(&self) -> (p: Post)
        ensures
            p@ == self@,
    {
        Post {
            id: self.id,
            created_at: self.created_at.clone(),
            title: self.title.clone(),
            body: self.body.clone(),
        }
    }

    /// The text that reading the post prints.
    pub fn render(&self) -> (text: String)
        ensures
            text@ == self@.rendered(),
    {
        proof {
            reveal_strlit("\n");
        }
        let mut text: String = self.title.clone();
        text.append("\n");
        text.append(self.body.as_str());
        text.append("\n");
        assert("\n"@ =~= seq!['\n']);
        text
    }
}

} // verus!
