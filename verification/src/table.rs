//! The posts table: every stored post, in the order in which the posts were
//! created, and the greatest id that the table has handed out so far.

use vstd::prelude::*;
use crate::post::{Draft, DraftView, Post, PostView};

verus! {

/// The posts of `posts` whose id is not `id`, in the same order.
pub open spec fn without(posts: Seq<PostView>, id: int) -> Seq<PostView>
    decreases posts.len(),
{
    if posts.len() == 0 {
        posts
    } else if posts.last().id == id {
        without(posts.drop_last(), id)
    } else {
        without(posts.drop_last(), id).push(posts.last())
    }
}

/// Whether the ids of `posts` grow strictly from each post to the next.
pub open spec fn ascending(posts: Seq<PostView>) -> bool {
    forall|i: int, j: int| 0 <= i < j < posts.len() ==> posts[i].id < posts[j].id
}

/// Whether no post of `posts` has the id `id`.
pub open spec fn lacks(posts: Seq<PostView>, id: int) -> bool {
    forall|i: int| 0 <= i < posts.len() ==> (#[trigger] posts[i]).id != id
}

/// The table as a mathematical value.
pub struct TableView {
    /// The stored posts, oldest first.
    pub posts: Seq<PostView>,
    /// The greatest id ever given to a post of this table; 0 before the first.
    pub last_id: int,
}

/// One change to a table: a post comes, or the post with some id goes.
pub enum Change {
    Insert(DraftView),
    Delete(int),
}

impl TableView {
    /// The table before any post was stored.
    pub open spec fn empty() -> TableView {
        TableView { posts: Seq::empty(), last_id: 0 }
    }

    /// What holds of every table: ids are positive, none is beyond the last
    /// one handed out, and they grow in the order of creation, so that no
    /// two posts share one.
    pub open spec fn wf(self) -> bool {
        &&& 0 <= self.last_id <= i64::MAX
        &&& forall|i: int|
            0 <= i < self.posts.len() ==> 1 <= (#[trigger] self.posts[i]).id <= self.last_id
        &&& ascending(self.posts)
    }

    /// Whether a post with the id `id` is stored.
    pub open spec fn has(self, id: int) -> bool {
        !lacks(self.posts, id)
    }

    /// The stored post with the id `id`, if there is one.
    pub open spec fn find(self, id: int) -> Option<PostView> {
        if self.has(id) {
            Some(self.posts[choose|i: int| 0 <= i < self.posts.len() && self.posts[i].id == id])
        } else {
            None
        }
    }

    /// Whether the ids have run out.
    pub open spec fn is_full(self) -> bool {
        self.last_id >= i64::MAX
    }

    /// The id that the next post gets.
    pub open spec fn next_id(self) -> int {
        self.last_id + 1
    }

    /// The table once `draft` is stored in it, under the next id.
    pub open spec fn insert(self, draft: DraftView) -> TableView {
        TableView {
            posts: self.posts.push(draft.stored_as(self.next_id())),
            last_id: self.next_id(),
        }
    }

    /// The table once the post with the id `id`, if there is one, is gone.
    /// The ids that were handed out stay handed out.
    pub open spec fn delete(self, id: int) -> TableView {
        TableView { posts: without(self.posts, id), last_id: self.last_id }
    }

    /// The ids of the stored posts, oldest post first.
    pub open spec fn ids(self) -> Seq<int> {
        Seq::new(self.posts.len(), |i: int| self.posts[i].id)
    }

    /// The table after one change. A table whose ids have run out takes no
    /// further post.
    pub open spec fn apply(self, change: Change) -> TableView {
        match change {
            Change::Insert(draft) => if self.is_full() {
                self
            } else {
                self.insert(draft)
            },
            Change::Delete(id) => self.delete(id),
        }
    }

    /// The table after the changes `changes`, made in their order.
    pub open spec fn apply_all(self, changes: Seq<Change>) -> TableView
        decreases changes.len(),
    {
        if changes.len() == 0 {
            self
        } else {
            self.apply_all(changes.drop_last()).apply(changes.last())
        }
    }
}

/// Taking out an id that is not there changes nothing.
pub proof fn lemma_without_absent(posts: Seq<PostView>, id: int)
    requires
        lacks(posts, id),
    ensures
        without(posts, id) == posts,
    decreases posts.len(),
{
    if posts.len() > 0 {
        assert(posts.last() == posts[posts.len() - 1]);
        assert forall|i: int| 0 <= i < posts.drop_last().len() implies (
        #[trigger] posts.drop_last()[i]).id != id by {
            assert(posts.drop_last()[i] == posts[i]);
        }
        lemma_without_absent(posts.drop_last(), id);
        assert(posts.drop_last().push(posts.last()) =~= posts);
    }
}

/// What is left after taking out `id`: no post with that id, and otherwise
/// posts of `posts`, no more of them, in the order that they had.
pub proof fn lemma_without_keeps_order(posts: Seq<PostView>, id: int)
    ensures
        lacks(without(posts, id), id),
        without(posts, id).len() <= posts.len(),
        forall|i: int|
            0 <= i < without(posts, id).len() ==> posts.contains(#[trigger] without(posts, id)[i]),
        ascending(posts) ==> ascending(without(posts, id)),
    decreases posts.len(),
{
    if posts.len() > 0 {
        let front = posts.drop_last();
        let kept = without(front, id);
        lemma_without_keeps_order(front, id);
        assert forall|i: int| 0 <= i < kept.len() implies posts.contains(#[trigger] kept[i]) by {
            let k = choose|k: int| 0 <= k < front.len() && front[k] == kept[i];
            assert(posts[k] == kept[i]);
        }
        assert(posts[posts.len() - 1] == posts.last());
        if ascending(posts) {
            assert forall|i: int, j: int| 0 <= i < j < front.len() implies front[i].id
                < front[j].id by {
                assert(front[i] == posts[i] && front[j] == posts[j]);
            }
            if posts.last().id != id {
                let all = kept.push(posts.last());
                assert forall|i: int, j: int| 0 <= i < j < all.len() implies all[i].id
                    < all[j].id by {
                    if j == kept.len() {
                        let k = choose|k: int| 0 <= k < front.len() && front[k] == kept[i];
                        assert(posts[k] == kept[i]);
                    }
                }
            }
        }
    }
}

/// Where ids grow, taking out the id of the post at `at` takes out that
/// post and no other.
pub proof fn lemma_without_at(posts: Seq<PostView>, id: int, at: int)
    requires
        ascending(posts),
        0 <= at < posts.len(),
        posts[at].id == id,
    ensures
        without(posts, id) == posts.remove(at),
    decreases posts.len(),
{
    let front = posts.drop_last();
    assert forall|i: int, j: int| 0 <= i < j < front.len() implies front[i].id < front[j].id by {
        assert(front[i] == posts[i] && front[j] == posts[j]);
    }
    if at == posts.len() - 1 {
        assert forall|i: int| 0 <= i < front.len() implies (#[trigger] front[i]).id != id by {
            assert(front[i] == posts[i]);
        }
        lemma_without_absent(front, id);
        assert(front =~= posts.remove(at));
    } else {
        assert(posts.last() == posts[posts.len() - 1]);
        assert(front[at] == posts[at]);
        lemma_without_at(front, id, at);
        assert(front.remove(at).push(posts.last()) =~= posts.remove(at));
    }
}

/// The posts table.
pub struct PostTable {
    rows: Vec<Post>,
    last_id: i64,
}

impl View for PostTable {
    type V = TableView;

    closed spec fn view(&self) -> TableView {
        TableView {
            posts: Seq::new(self.rows@.len(), |i: int| self.rows@[i]@),
            last_id: self.last_id as int,
        }
    }
}

impl PostTable {
    /// A table without posts, which has handed out no id yet.
    pub fn new() -> (table: PostTable)
        ensures
            table@ == TableView::empty(),
            table@.wf(),
    {
        let table = PostTable { rows: Vec::new(), last_id: 0 };
        assert(table@.posts =~= Seq::empty());
        table
    }

    /// A table without posts that has handed out the ids up to `last_id`
    /// before, as one is from which every post was deleted again. `None`
    /// for a negative `last_id`, which no table has.
    pub fn emptied(last_id: i64) -> (table: Option<PostTable>)
        ensures
            last_id < 0 ==> table.is_none(),
            last_id >= 0 ==> table.is_some() && table.unwrap()@ == (TableView {
                posts: Seq::empty(),
                last_id: last_id as int,
            }) && table.unwrap()@.wf(),
    {
        if last_id < 0 {
            None
        } else {
            let table = PostTable { rows: Vec::new(), last_id };
            assert(table@.posts =~= Seq::empty());
            Some(table)
        }
    }

    /// The number of stored posts.
    pub fn len(&self) -> (n: usize)
        ensures
            n == self@.posts.len(),
    {
        self.rows.len()
    }

    /// The greatest id handed out so far, 0 if there was none.
    pub fn last_id(&self) -> (id: i64)
        ensures
            id == self@.last_id,
    {
        self.last_id
    }

    /// The ids of the stored posts, oldest post first.
    pub fn ids(&self) -> (ids: Vec<i64>)
        ensures
            ids@.len() == self@.posts.len(),
            forall|i: int| 0 <= i < ids@.len() ==> ids@[i] as int == self@.ids()[i],
    {
        let mut ids: Vec<i64> = Vec::new();
        let mut i: usize = 0;
        while i < self.rows.len()
            invariant
                0 <= i <= self.rows.len(),
                ids@.len() == i,
                forall|k: int| 0 <= k < i ==> ids@[k] == self.rows@[k].id,
            decreases self.rows.len() - i,
        {
            ids.push(self.rows[i].id);
            i = i + 1;
        }
        ids
    }

    /// Where the post with the id `id` stands among the rows.
    fn position(&self, id: i64) -> (at: Option<usize>)
        ensures
            match at {
                Some(i) => i < self.rows@.len() && self.rows@[i as int].id == id,
                None => lacks(self@.posts, id as int),
            },
    {
        let mut i: usize = 0;
        while i < self.rows.len()
            invariant
                0 <= i <= self.rows.len(),
                forall|k: int| 0 <= k < i ==> self.rows@[k].id != id,
            decreases self.rows.len() - i,
        {
            if self.rows[i].id == id {
                return Some(i);
            }
            i = i + 1;
        }
        None
    }

    /// Stores `draft` as a new post and returns the id that the post got:
    /// one more than the last id handed out, whatever was deleted since.
    /// `None`, and nothing stored, once the ids have run out.
    pub fn insert(&mut self, draft: Draft) -> (id: Option<i64>)
        requires
            old(self)@.wf(),
        ensures
            final(self)@.wf(),
            old(self)@.is_full() ==> id.is_none() && final(self)@ == old(self)@,
            !old(self)@.is_full() ==> id == Some(old(self)@.next_id() as i64) && final(self)@
                == old(self)@.insert(draft@),
    {
        if self.last_id == i64::MAX {
            return None;
        }
        let id: i64 = self.last_id + 1;
        let ghost before = self@;
        let post = draft.into_post(id);
        proof {
            lemma_insert_keeps_wf(before, draft@);
        }
        self.last_id = id;
        self.rows.push(post);
        assert(self@.posts =~= before.insert(draft@).posts);
        Some(id)
    }

    /// The stored post with the id `id`, or `None` if there is none: the id
    /// was never handed out, or its post was deleted.
    pub fn find_by_id(&self, id: i64) -> (found: Option<&Post>)
        requires
            self@.wf(),
        ensures
            match found {
                Some(post) => self@.find(id as int) == Some(post@),
                None => self@.find(id as int).is_none(),
            },
    {
        match self.position(id) {
            Some(i) => {
                proof {
                    lemma_find_at(self@, i as int);
                }
                Some(&self.rows[i])
            },
            None => None,
        }
    }

    /// Removes the post with the id `id` and says whether there was one.
    /// Where there was none, nothing changes.
    pub fn delete_by_id(&mut self, id: i64) -> (removed: bool)
        requires
            old(self)@.wf(),
        ensures
            final(self)@.wf(),
            final(self)@ == old(self)@.delete(id as int),
            removed == old(self)@.has(id as int),
    {
        let ghost before = self@;
        match self.position(id) {
            Some(i) => {
                proof {
                    assert(before.posts[i as int].id == id);
                    lemma_without_at(before.posts, id as int, i as int);
                    lemma_delete_keeps_wf(before, id as int);
                    assert(Seq::new(
                        self.rows@.remove(i as int).len(),
                        |k: int| self.rows@.remove(i as int)[k]@,
                    ) =~= before.posts.remove(i as int));
                }
                let _ = self.rows.remove(i);
                assert(self@.posts =~= before.posts.remove(i as int));
                true
            },
            None => {
                proof {
                    lemma_without_absent(before.posts, id as int);
                }
                false
            },
        }
    }
}

/// A well-formed table stays well formed when a post goes.
pub proof fn lemma_delete_keeps_wf(table: TableView, id: int)
    requires
        table.wf(),
    ensures
        table.delete(id).wf(),
{
    lemma_without_keeps_order(table.posts, id);
    let kept = without(table.posts, id);
    assert forall|i: int| 0 <= i < kept.len() implies 1 <= (#[trigger] kept[i]).id
        <= table.last_id by {
        let k = choose|k: int| 0 <= k < table.posts.len() && table.posts[k] == kept[i];
        assert(1 <= table.posts[k].id <= table.last_id);
    }
}

/// A well-formed table that has ids left stays well formed when a post comes.
pub proof fn lemma_insert_keeps_wf(table: TableView, draft: DraftView)
    requires
        table.wf(),
        !table.is_full(),
    ensures
        table.insert(draft).wf(),
{
    let after = table.insert(draft);
    assert forall|i: int, j: int| 0 <= i < j < after.posts.len() implies after.posts[i].id
        < after.posts[j].id by {
        assert(table.posts[i].id <= table.last_id);
    }
}

/// In a well-formed table a post is found under its own id, and under no
/// other.
pub proof fn lemma_find_at(table: TableView, at: int)
    requires
        table.wf(),
        0 <= at < table.posts.len(),
    ensures
        table.find(table.posts[at].id) == Some(table.posts[at]),
{
    let id = table.posts[at].id;
    let c = choose|c: int| 0 <= c < table.posts.len() && table.posts[c].id == id;
    if c < at {
        assert(table.posts[c].id < table.posts[at].id);
    } else if c > at {
        assert(table.posts[at].id < table.posts[c].id);
    }
}

} // verus!
