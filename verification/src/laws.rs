//! What holds of the posts table whatever is stored in it and in whatever
//! order posts come and go.

use vstd::prelude::*;
use crate::cli::Command;
use crate::fault::Fault;
use crate::post::{greeting_body, greeting_title, placeholder_title, DraftView, PostView};
use crate::session::{greeting_draft, untitled_draft, EventView, OutcomeView};
use crate::store::{outcome_of, store_wf, StoreView};
use crate::table::{
    lacks, lemma_delete_keeps_wf, lemma_find_at, lemma_insert_keeps_wf, lemma_without_absent,
    lemma_without_keeps_order, without, Change, TableView,
};

verus! {

impl TableView {
    /// The ids that the table hands out while the changes `changes` are made
    /// to it, in the order in which it hands them out.
    pub open spec fn handed_out(self, changes: Seq<Change>) -> Seq<int>
        decreases changes.len(),
    {
        if changes.len() == 0 {
            Seq::empty()
        } else {
            let before = self.apply_all(changes.drop_last());
            let earlier = self.handed_out(changes.drop_last());
            match changes.last() {
                Change::Insert(_) => if before.is_full() {
                    earlier
                } else {
                    earlier.push(before.next_id())
                },
                Change::Delete(_) => earlier,
            }
        }
    }
}

/// Well-formedness survives every sequence of changes.
pub proof fn lemma_changes_keep_wf(table: TableView, changes: Seq<Change>)
    requires
        table.wf(),
    ensures
        table.apply_all(changes).wf(),
    decreases changes.len(),
{
    if changes.len() > 0 {
        let before = table.apply_all(changes.drop_last());
        lemma_changes_keep_wf(table, changes.drop_last());
        match changes.last() {
            Change::Insert(draft) => {
                if !before.is_full() {
                    lemma_insert_keeps_wf(before, draft);
                }
            },
            Change::Delete(id) => {
                lemma_delete_keeps_wf(before, id);
            },
        }
    }
}

/// The last id handed out never goes down, whatever comes and goes.
pub proof fn lemma_last_id_never_falls(table: TableView, changes: Seq<Change>)
    ensures
        table.last_id <= table.apply_all(changes).last_id,
    decreases changes.len(),
{
    if changes.len() > 0 {
        lemma_last_id_never_falls(table, changes.drop_last());
    }
}

/// Ids grow for ever: over any sequence of inserts and deletes, each id
/// that the table hands out is greater than the last id that it had handed
/// out before the sequence began and than every id that it handed out
/// earlier in the sequence. A delete in between frees no id.
pub proof fn lemma_ids_strictly_increase(table: TableView, changes: Seq<Change>)
    ensures
        forall|i: int|
            0 <= i < table.handed_out(changes).len() ==> table.last_id < #[trigger] table.handed_out(
                changes,
            )[i] <= table.apply_all(changes).last_id,
        forall|i: int, j: int|
            0 <= i < j < table.handed_out(changes).len() ==> table.handed_out(changes)[i]
                < table.handed_out(changes)[j],
    decreases changes.len(),
{
    if changes.len() > 0 {
        let front = changes.drop_last();
        let before = table.apply_all(front);
        let after = table.apply_all(changes);
        let earlier = table.handed_out(front);
        let all = table.handed_out(changes);
        lemma_ids_strictly_increase(table, front);
        lemma_last_id_never_falls(table, front);
        assert(after == before.apply(changes.last()));
        assert(before.last_id <= after.last_id);
        assert forall|i: int| 0 <= i < all.len() implies table.last_id < #[trigger] all[i]
            <= after.last_id by {
            if i < earlier.len() {
                assert(all[i] == earlier[i]);
            }
        }
        assert forall|i: int, j: int| 0 <= i < j < all.len() implies all[i] < all[j] by {
            assert(all[i] == earlier[i]);
            if j < earlier.len() {
                assert(all[j] == earlier[j]);
            }
        }
    }
}

/// The id that a stored post has was handed out by the table: it is no
/// greater than the last id, so the next post gets a greater one.
pub proof fn lemma_new_id_is_fresh(table: TableView)
    requires
        table.wf(),
    ensures
        lacks(table.posts, table.next_id()),
        forall|i: int| 0 <= i < table.posts.len() ==> (#[trigger] table.posts[i]).id < table.next_id(),
{
}

/// Deleting an id a second time changes nothing: the table after the second
/// delete is the table after the first.
pub proof fn lemma_delete_twice(table: TableView, id: int)
    ensures
        table.delete(id).delete(id) == table.delete(id),
{
    lemma_without_keeps_order(table.posts, id);
    lemma_without_absent(without(table.posts, id), id);
}

/// Deleting an id that is not stored changes nothing.
pub proof fn lemma_delete_absent(table: TableView, id: int)
    requires
        !table.has(id),
    ensures
        table.delete(id) == table,
{
    lemma_without_absent(table.posts, id);
}

/// An id that the table never handed out finds nothing.
pub proof fn lemma_unassigned_not_found(table: TableView, id: int)
    requires
        table.wf(),
        id < 1 || id > table.last_id,
    ensures
        table.find(id).is_none(),
{
}

/// A deleted id finds nothing.
pub proof fn lemma_deleted_not_found(table: TableView, id: int)
    ensures
        table.delete(id).find(id).is_none(),
{
    lemma_without_keeps_order(table.posts, id);
}

/// An id that was handed out and whose post is gone stays gone, whatever
/// comes and goes afterwards: no later post gets that id.
pub proof fn lemma_gone_stays_gone(table: TableView, id: int, changes: Seq<Change>)
    requires
        table.wf(),
        !table.has(id),
        id <= table.last_id,
    ensures
        table.apply_all(changes).find(id).is_none(),
    decreases changes.len(),
{
    if changes.len() > 0 {
        let front = changes.drop_last();
        let before = table.apply_all(front);
        lemma_gone_stays_gone(table, id, front);
        lemma_last_id_never_falls(table, front);
        lemma_changes_keep_wf(table, front);
        match changes.last() {
            Change::Insert(draft) => {
                if !before.is_full() {
                    let after = before.insert(draft);
                    assert forall|i: int| 0 <= i < after.posts.len() implies (
                    #[trigger] after.posts[i]).id != id by {
                        if i < before.posts.len() {
                            assert(after.posts[i] == before.posts[i]);
                        }
                    }
                }
            },
            Change::Delete(other) => {
                lemma_without_keeps_order(before.posts, other);
                let kept = without(before.posts, other);
                assert forall|i: int| 0 <= i < kept.len() implies (#[trigger] kept[i]).id
                    != id by {
                    assert(before.posts.contains(kept[i]));
                    let k = choose|k: int| 0 <= k < before.posts.len() && before.posts[k] == kept[i];
                    assert(before.posts[k].id != id);
                }
            },
        }
    }
}

/// What was just stored is found under the id that it got, as it was
/// written; every other id finds what it found before.
pub proof fn lemma_find_after_insert(table: TableView, draft: DraftView, other: int)
    requires
        table.wf(),
        !table.is_full(),
    ensures
        table.insert(draft).find(table.next_id()) == Some(draft.stored_as(table.next_id())),
        other != table.next_id() ==> table.insert(draft).find(other) == table.find(other),
{
    let after = table.insert(draft);
    lemma_insert_keeps_wf(table, draft);
    assert(after.posts[table.posts.len() as int] == draft.stored_as(table.next_id()));
    lemma_find_at(after, table.posts.len() as int);
    if other != table.next_id() {
        if table.has(other) {
            let k = choose|k: int| 0 <= k < table.posts.len() && table.posts[k].id == other;
            lemma_find_at(table, k);
            assert(after.posts[k] == table.posts[k]);
            lemma_find_at(after, k);
        } else {
            assert forall|i: int| 0 <= i < after.posts.len() implies (#[trigger] after.posts[i]).id
                != other by {
                if i < table.posts.len() {
                    assert(after.posts[i] == table.posts[i]);
                }
            }
        }
    }
}

/// A delete touches one id: every other id finds what it found before.
pub proof fn lemma_find_after_delete(table: TableView, id: int, other: int)
    requires
        table.wf(),
        other != id,
    ensures
        table.delete(id).find(other) == table.find(other),
{
    let after = table.delete(id);
    lemma_delete_keeps_wf(table, id);
    lemma_without_keeps_order(table.posts, id);
    if table.has(other) {
        let k = choose|k: int| 0 <= k < table.posts.len() && table.posts[k].id == other;
        lemma_find_at(table, k);
        lemma_without_keeps(table.posts, id, k);
        let m = choose|m: int| 0 <= m < after.posts.len() && after.posts[m] == table.posts[k];
        lemma_find_at(after, m);
    } else {
        assert forall|i: int| 0 <= i < after.posts.len() implies (#[trigger] after.posts[i]).id
            != other by {
            assert(table.posts.contains(after.posts[i]));
            let k = choose|k: int| 0 <= k < table.posts.len() && table.posts[k] == after.posts[i];
            assert(table.posts[k].id != other);
        }
    }
}

/// A post with another id than the one taken out is still there afterwards.
pub proof fn lemma_without_keeps(posts: Seq<PostView>, id: int, at: int)
    requires
        0 <= at < posts.len(),
        posts[at].id != id,
    ensures
        without(posts, id).contains(posts[at]),
    decreases posts.len(),
{
    let front = posts.drop_last();
    let kept = without(front, id);
    if at == posts.len() - 1 {
        assert(posts.last() == posts[at]);
        assert(kept.push(posts.last())[kept.len() as int] == posts[at]);
    } else {
        assert(front[at] == posts[at]);
        lemma_without_keeps(front, id, at);
        let m = choose|m: int| 0 <= m < kept.len() && kept[m] == posts[at];
        if posts.last().id != id {
            assert(kept.push(posts.last())[m] == posts[at]);
        }
    }
}

/// Every command leaves a well-formed storage well formed.
pub proof fn lemma_commands_keep_wf(
    store: StoreView,
    command: Command,
    edit: EventView,
    stamp: Seq<char>,
    version: Seq<char>,
)
    requires
        store_wf(store),
    ensures
        store_wf(outcome_of(store, command, edit, stamp, version).0),
{
    match store {
        Some(table) => {
            match command {
                Command::Create => {
                    if let EventView::Edited(text) = edit {
                        if !table.is_full() {
                            lemma_insert_keeps_wf(table, untitled_draft(stamp, text));
                        }
                    }
                },
                Command::Delete(id) => {
                    lemma_delete_keeps_wf(table, id as int);
                },
                _ => {},
            }
        },
        None => {
            lemma_insert_keeps_wf(TableView::empty(), greeting_draft(stamp));
        },
    }
}

/// Setting a journal up stores one post, the greeting, under the id 1, and
/// reading that id shows the greeting: its title on one line, its body on
/// the next.
pub proof fn lemma_greeting_is_read_back(
    edit: EventView,
    stamp: Seq<char>,
    later: Seq<char>,
    version: Seq<char>,
)
    ensures
        ({
            let (store, outcome) = outcome_of(None, Command::Init, edit, stamp, version);
            let (after, shown) = outcome_of(store, Command::Read(1), edit, later, version);
            &&& outcome == OutcomeView::quiet()
            &&& store.is_some()
            &&& store.unwrap().ids() == seq![1int]
            &&& after == store
            &&& shown == OutcomeView::Done {
                out: greeting_title() + seq!['\n'] + greeting_body() + seq!['\n'],
                err: Seq::empty(),
            }
        }),
{
    let draft = greeting_draft(stamp);
    let table = TableView::empty().insert(draft);
    lemma_insert_keeps_wf(TableView::empty(), draft);
    lemma_find_after_insert(TableView::empty(), draft, 0);
    assert(table.ids() =~= seq![1int]);
}

/// What is written in the editor is stored as it is: after a create, the
/// new post is found under the id that was next, its body is the editor's
/// text and its title is the placeholder. Every post that was there before
/// is still found as it was.
pub proof fn lemma_create_stores_verbatim(
    table: TableView,
    text: Seq<char>,
    stamp: Seq<char>,
    version: Seq<char>,
    other: int,
)
    requires
        table.wf(),
        !table.is_full(),
    ensures
        ({
            let (store, outcome) = outcome_of(
                Some(table),
                Command::Create,
                EventView::Edited(text),
                stamp,
                version,
            );
            &&& outcome == OutcomeView::quiet()
            &&& store.is_some()
            &&& store.unwrap().find(table.next_id()) == Some(
                PostView {
                    id: table.next_id(),
                    created_at: stamp,
                    title: placeholder_title(),
                    body: text,
                },
            )
            &&& other != table.next_id() ==> store.unwrap().find(other) == table.find(other)
        }),
{
    lemma_find_after_insert(table, untitled_draft(stamp, text), other);
}

/// Reading an id that finds nothing is told as such: the command fails
/// with the not-found fault for that id, prints nothing, and leaves the
/// storage as it was. So does every read after the id's post was deleted.
pub proof fn lemma_read_of_missing_fails(
    table: TableView,
    id: i64,
    edit: EventView,
    stamp: Seq<char>,
    version: Seq<char>,
)
    requires
        table.wf(),
    ensures
        !table.has(id as int) ==> outcome_of(Some(table), Command::Read(id), edit, stamp, version)
            == (Some(table), OutcomeView::bare(Fault::NotFound(id))),
        ({
            let (store, _) = outcome_of(Some(table), Command::Delete(id), edit, stamp, version);
            outcome_of(store, Command::Read(id), edit, stamp, version) == (
                store,
                OutcomeView::bare(Fault::NotFound(id)),
            )
        }),
        OutcomeView::bare(Fault::NotFound(id)).exit_code() == 1,
{
    lemma_deleted_not_found(table, id as int);
}

/// Deleting the same id twice leaves the journal as deleting it once, and
/// neither delete is a failure.
pub proof fn lemma_delete_command_twice(
    store: StoreView,
    id: i64,
    edit: EventView,
    stamp: Seq<char>,
    version: Seq<char>,
)
    requires
        store.is_some(),
    ensures
        ({
            let (once, first) = outcome_of(store, Command::Delete(id), edit, stamp, version);
            let (twice, second) = outcome_of(once, Command::Delete(id), edit, stamp, version);
            twice == once && first == OutcomeView::quiet() && second == OutcomeView::quiet()
        }),
{
    lemma_delete_twice(store.unwrap(), id as int);
}

} // verus!
