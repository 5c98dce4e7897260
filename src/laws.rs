use vstd::prelude::*;
use crate::model::{CreateTodoRequest, Timestamp, TodoError, TodoRec, UpdateTodoRequest};
use crate::rules::priority_or_default;
use crate::store::{
    created_descending, created_micros, is_row, lemma_create_keeps_wf, lemma_position_at, lemma_update_keeps_wf,
    newest_first, owned_by, StoreView,
};
use crate::validate::blank;

verus! {

/// A new record appended to the rows comes first in the owner's listing.
proof fn lemma_newest_first_push(rows: Seq<TodoRec>, t: TodoRec, owner: i32)
    ensures
        newest_first(rows.push(t), owner) == if owned_by(t, owner) {
            seq![t] + newest_first(rows, owner)
        } else {
            newest_first(rows, owner)
        },
    decreases rows.len(),
{
    if rows.len() == 0 {
        assert(rows.push(t).drop_first() =~= rows);
        assert(seq![t] + Seq::<TodoRec>::empty() =~= Seq::<TodoRec>::empty().push(t));
    } else {
        assert(rows.push(t).drop_first() =~= rows.drop_first().push(t));
        lemma_newest_first_push(rows.drop_first(), t, owner);
        let rest = newest_first(rows.drop_first(), owner);
        if owned_by(t, owner) {
            assert((seq![t] + rest).push(rows[0]) =~= seq![t] + rest.push(rows[0]));
        }
    }
}

/// Rows stored oldest first list newest first, and the listing holds only stored rows.
proof fn lemma_newest_first_sorted(rows: Seq<TodoRec>, owner: i32)
    requires
        forall|i: int, j: int| 0 <= i < j < rows.len()
            ==> created_micros(#[trigger] rows[i]) <= created_micros(#[trigger] rows[j]),
    ensures
        created_descending(newest_first(rows, owner)),
        forall|k: int| 0 <= k < newest_first(rows, owner).len()
            ==> rows.contains(#[trigger] newest_first(rows, owner)[k]),
    decreases rows.len(),
{
    if rows.len() > 0 {
        let tail = rows.drop_first();
        assert forall|i: int, j: int| 0 <= i < j < tail.len()
            implies created_micros(#[trigger] tail[i]) <= created_micros(#[trigger] tail[j]) by {
            assert(created_micros(rows[i + 1]) <= created_micros(rows[j + 1]));
        }
        lemma_newest_first_sorted(tail, owner);
        let rest = newest_first(tail, owner);
        assert forall|k: int| 0 <= k < rest.len() implies created_micros(rows[0]) <= created_micros(#[trigger] rest[k]) by {
            assert(tail.contains(rest[k]));
            let m = choose|m: int| 0 <= m < tail.len() && tail[m] == rest[k];
            assert(created_micros(rows[0]) <= created_micros(rows[m + 1]));
        }
        let nf = newest_first(rows, owner);
        assert forall|k: int| 0 <= k < nf.len() implies rows.contains(#[trigger] nf[k]) by {
            if k < rest.len() {
                assert(tail.contains(rest[k]));
                let m = choose|m: int| 0 <= m < tail.len() && tail[m] == rest[k];
                assert(rows[m + 1] == nf[k]);
            } else {
                assert(rows[0] == nf[k]);
            }
        }
    }
}

/// A well-formed store lists an owner's records by creation time, latest first.
pub proof fn lemma_listing_sorted(s: StoreView, owner: i32)
    requires
        s.wf(),
    ensures
        created_descending(s.listing(owner)),
{
    lemma_newest_first_sorted(s.rows, owner);
}

/// The store after creating each payload in turn for `owner`, the i-th at `nows[i]`.
pub open spec fn create_all(s: StoreView, owner: i32, reqs: Seq<CreateTodoRequest>, nows: Seq<Timestamp>) -> StoreView
    decreases reqs.len(),
{
    if reqs.len() == 0 || nows.len() == 0 {
        s
    } else {
        create_all(s.after_create(owner, reqs[0], nows[0]), owner, reqs.drop_first(), nows.drop_first())
    }
}

/// Successful creates each add one record to the owner's listing.
proof fn lemma_create_all_counts(s: StoreView, owner: i32, reqs: Seq<CreateTodoRequest>, nows: Seq<Timestamp>)
    requires
        s.wf(),
        nows.len() == reqs.len(),
        s.next_id + reqs.len() <= i32::MAX as int + 1,
        forall|i: int| 0 <= i < reqs.len() ==> !blank(#[trigger] reqs[i].title@),
    ensures
        create_all(s, owner, reqs, nows).wf(),
        create_all(s, owner, reqs, nows).listing(owner).len() == s.listing(owner).len() + reqs.len(),
    decreases reqs.len(),
{
    if reqs.len() > 0 {
        let s1 = s.after_create(owner, reqs[0], nows[0]);
        assert(!blank(reqs[0].title@));
        lemma_create_keeps_wf(s, owner, reqs[0], nows[0]);
        let t = s.create_result(owner, reqs[0], nows[0])->Ok_0;
        lemma_newest_first_push(s.rows, t, owner);
        let rest = reqs.drop_first();
        assert forall|i: int| 0 <= i < rest.len() implies !blank(#[trigger] rest[i].title@) by {
            assert(!blank(reqs[i + 1].title@));
        }
        lemma_create_all_counts(s1, owner, rest, nows.drop_first());
    }
}

/// Listing after creating N records with non-blank titles in an empty store
/// returns exactly N records, by creation time latest first.
pub proof fn lemma_list_after_creates(owner: i32, reqs: Seq<CreateTodoRequest>, nows: Seq<Timestamp>)
    requires
        nows.len() == reqs.len(),
        reqs.len() <= i32::MAX,
        forall|i: int| 0 <= i < reqs.len() ==> !blank(#[trigger] reqs[i].title@),
    ensures
        create_all(StoreView::empty(), owner, reqs, nows).listing(owner).len() == reqs.len(),
        created_descending(create_all(StoreView::empty(), owner, reqs, nows).listing(owner)),
{
    let e = StoreView::empty();
    assert(e.listing(owner) == Seq::<TodoRec>::empty());
    lemma_create_all_counts(e, owner, reqs, nows);
    lemma_listing_sorted(create_all(e, owner, reqs, nows), owner);
}

/// A create with a non-blank title, while ids remain, stores a record with
/// the payload's title, text and due date, the payload's priority or 1 when
/// it has none, no completion flag, and the same creation and update time;
/// the record can then be read back under its new id.
pub proof fn lemma_create_fields(s: StoreView, owner: i32, req: CreateTodoRequest, now: Timestamp)
    requires
        s.wf(),
        !blank(req.title@),
        s.next_id <= i32::MAX,
    ensures
        s.create_result(owner, req, now) matches Ok(t) && {
            &&& t.title == req.title
            &&& t.todo_text == req.todo_text
            &&& t.due_date == req.due_date
            &&& t.priority == Some(priority_or_default(req.priority))
            &&& req.priority is None ==> t.priority == Some(1i32)
            &&& t.completed is None
            &&& t.created_at is Some
            &&& t.created_at == t.updated_at
            &&& t.user_id == Some(owner)
            &&& s.after_create(owner, req, now).get_result(owner, t.todo_id) == Ok::<TodoRec, TodoError>(t)
        },
{
    lemma_create_keeps_wf(s, owner, req, now);
    let s2 = s.after_create(owner, req, now);
    let t = s.create_result(owner, req, now)->Ok_0;
    lemma_position_at(s2, owner, t.todo_id, s.rows.len() as int);
}

/// An update of an existing record overwrites exactly the fields the payload
/// carries, keeps the others, never moves `updated_at` back, and is what a
/// later read returns.
pub proof fn lemma_update_fields(s: StoreView, owner: i32, id: i32, req: UpdateTodoRequest, now: Timestamp)
    requires
        s.wf(),
        s.get_result(owner, id) is Ok,
    ensures
        s.get_result(owner, id) matches Ok(before) && s.update_result(owner, id, req, now) matches Ok(after) && {
            &&& after.todo_id == before.todo_id
            &&& after.created_at == before.created_at
            &&& after.user_id == before.user_id
            &&& (req.title matches Some(v) ==> after.title == v)
            &&& (req.title is None ==> after.title == before.title)
            &&& (req.todo_text is Some ==> after.todo_text == req.todo_text)
            &&& (req.todo_text is None ==> after.todo_text == before.todo_text)
            &&& (req.completed is Some ==> after.completed == req.completed)
            &&& (req.completed is None ==> after.completed == before.completed)
            &&& (req.priority is Some ==> after.priority == req.priority)
            &&& (req.priority is None ==> after.priority == before.priority)
            &&& (req.due_date is Some ==> after.due_date == req.due_date)
            &&& (req.due_date is None ==> after.due_date == before.due_date)
            &&& before.updated_at matches Some(b) && after.updated_at matches Some(a) && b.le(a)
            &&& s.after_update(owner, id, req, now).get_result(owner, id) == Ok::<TodoRec, TodoError>(after)
        },
{
    let k = s.position(owner, id)->0;
    let s2 = s.after_update(owner, id, req, now);
    lemma_update_keeps_wf(s, owner, id, req, now);
    lemma_position_at(s2, owner, id, k);
}

/// Reading, updating or deleting a record that does not exist for the owner
/// yields `NotFound`, never a storage failure, and changes nothing.
pub proof fn lemma_missing_not_found(s: StoreView, owner: i32, id: i32, req: UpdateTodoRequest, now: Timestamp)
    requires
        forall|i: int| 0 <= i < s.rows.len() ==> !is_row(#[trigger] s.rows[i], owner, id),
    ensures
        s.get_result(owner, id) == Err::<TodoRec, TodoError>(TodoError::NotFound),
        s.update_result(owner, id, req, now) == Err::<TodoRec, TodoError>(TodoError::NotFound),
        s.delete_result(owner, id) == Err::<(), TodoError>(TodoError::NotFound),
        s.after_update(owner, id, req, now) == s,
        s.after_delete(owner, id) == s,
{
}

/// Deleting a record a second time yields `NotFound`.
pub proof fn lemma_delete_twice(s: StoreView, owner: i32, id: i32)
    requires
        s.wf(),
    ensures
        s.after_delete(owner, id).delete_result(owner, id) == Err::<(), TodoError>(TodoError::NotFound),
{
    if let Some(k) = s.position(owner, id) {
        let s2 = s.after_delete(owner, id);
        assert forall|i: int| 0 <= i < s2.rows.len() implies !is_row(#[trigger] s2.rows[i], owner, id) by {
            let oi = if i < k { i } else { i + 1 };
            assert(s2.rows[i] == s.rows[oi]);
            if oi < k {
                assert(s.rows[oi].todo_id < s.rows[k].todo_id);
            } else {
                assert(s.rows[k].todo_id < s.rows[oi].todo_id);
            }
        }
    }
}

} // verus!
