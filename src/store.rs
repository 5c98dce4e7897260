use vstd::prelude::*;
use crate::model::{CreateTodoRequest, Timestamp, TodoError, TodoRec, UpdateTodoRequest};
use crate::outcome::{from_row_lookup, from_rows_affected, from_store, StoreFailure};
use crate::rules::{created_record, created_spec, insert_spec, insert_values, merge_update, merged_spec};
use crate::validate::{blank, validate_create};

verus! {

/// What a record store holds: its rows in insertion order, the id the next
/// insert gets, and the latest time it has stamped on a row.
pub struct StoreView {
    pub rows: Seq<TodoRec>,
    pub next_id: int,
    pub clock: Timestamp,
}

pub open spec fn owned_by(t: TodoRec, owner: i32) -> bool {
    t.user_id == Some(owner)
}

/// The row addressed by `(owner, id)`.
pub open spec fn is_row(t: TodoRec, owner: i32, id: i32) -> bool {
    t.todo_id == id && owned_by(t, owner)
}

/// The creation time of a record in microseconds (a record always has one once stored).
pub open spec fn created_micros(t: TodoRec) -> int {
    match t.created_at {
        Some(c) => c.micros as int,
        None => i64::MIN as int,
    }
}

/// The owner's rows, newest first: the reverse of their insertion order.
pub open spec fn newest_first(rows: Seq<TodoRec>, owner: i32) -> Seq<TodoRec>
    decreases rows.len(),
{
    if rows.len() == 0 {
        Seq::empty()
    } else {
        let rest = newest_first(rows.drop_first(), owner);
        if owned_by(rows[0], owner) {
            rest.push(rows[0])
        } else {
            rest
        }
    }
}

/// Records ordered by creation time, latest first.
pub open spec fn created_descending(s: Seq<TodoRec>) -> bool {
    forall|i: int, j: int| 0 <= i < j < s.len() ==> created_micros(s[j]) <= created_micros(s[i])
}

/// The invariant of one stored row.
pub open spec fn row_ok(t: TodoRec, next_id: int, clock: Timestamp) -> bool {
    &&& 1 <= t.todo_id < next_id
    &&& t.created_at matches Some(c) && t.updated_at matches Some(u) && c.le(u) && u.le(clock)
}

impl StoreView {
    /// Ids are assigned in increasing order and never reused, rows keep their
    /// insertion order, and no row was created after it was last updated.
    pub open spec fn wf(self) -> bool {
        &&& 1 <= self.next_id <= i32::MAX as int + 1
        &&& forall|i: int| 0 <= i < self.rows.len() ==> row_ok(#[trigger] self.rows[i], self.next_id, self.clock)
        &&& forall|i: int, j: int| 0 <= i < j < self.rows.len()
            ==> #[trigger] self.rows[i].todo_id < #[trigger] self.rows[j].todo_id
        &&& forall|i: int, j: int| 0 <= i < j < self.rows.len()
            ==> created_micros(#[trigger] self.rows[i]) <= created_micros(#[trigger] self.rows[j])
    }

    pub open spec fn empty() -> StoreView {
        StoreView { rows: Seq::empty(), next_id: 1, clock: Timestamp { micros: i64::MIN } }
    }

    /// Where the row `(owner, id)` stands, if it exists.
    pub open spec fn position(self, owner: i32, id: i32) -> Option<int> {
        if exists|i: int| 0 <= i < self.rows.len() && is_row(self.rows[i], owner, id) {
            Some(choose|i: int| 0 <= i < self.rows.len() && is_row(self.rows[i], owner, id))
        } else {
            None
        }
    }

    /// The time stamped on a row written at `now`: never earlier than a time stamped before.
    pub open spec fn stamp(self, now: Timestamp) -> Timestamp {
        self.clock.latest(now)
    }

    pub open spec fn listing(self, owner: i32) -> Seq<TodoRec> {
        newest_first(self.rows, owner)
    }

    pub open spec fn get_result(self, owner: i32, id: i32) -> Result<TodoRec, TodoError> {
        match self.position(owner, id) {
            Some(i) => Ok(self.rows[i]),
            None => Err(TodoError::NotFound),
        }
    }

    /// A blank title is refused; once every id is used, the store fails.
    pub open spec fn create_result(self, owner: i32, req: CreateTodoRequest, now: Timestamp) -> Result<TodoRec, TodoError> {
        if blank(req.title@) {
            Err(TodoError::ValidationError)
        } else if self.next_id > i32::MAX {
            Err(TodoError::StorageError)
        } else {
            Ok(created_spec(insert_spec(req, owner), self.next_id as i32, self.stamp(now)))
        }
    }

    pub open spec fn after_create(self, owner: i32, req: CreateTodoRequest, now: Timestamp) -> StoreView {
        match self.create_result(owner, req, now) {
            Ok(t) => StoreView { rows: self.rows.push(t), next_id: self.next_id + 1, clock: self.stamp(now) },
            Err(_) => self,
        }
    }

    pub open spec fn update_result(self, owner: i32, id: i32, req: UpdateTodoRequest, now: Timestamp) -> Result<TodoRec, TodoError> {
        match self.position(owner, id) {
            Some(i) => Ok(merged_spec(self.rows[i], req, self.stamp(now))),
            None => Err(TodoError::NotFound),
        }
    }

    pub open spec fn after_update(self, owner: i32, id: i32, req: UpdateTodoRequest, now: Timestamp) -> StoreView {
        match self.position(owner, id) {
            Some(i) => StoreView {
                rows: self.rows.update(i, merged_spec(self.rows[i], req, self.stamp(now))),
                next_id: self.next_id,
                clock: self.stamp(now),
            },
            None => self,
        }
    }

    pub open spec fn delete_result(self, owner: i32, id: i32) -> Result<(), TodoError> {
        match self.position(owner, id) {
            Some(_) => Ok(()),
            None => Err(TodoError::NotFound),
        }
    }

    pub open spec fn after_delete(self, owner: i32, id: i32) -> StoreView {
        match self.position(owner, id) {
            Some(i) => StoreView { rows: self.rows.remove(i), next_id: self.next_id, clock: self.clock },
            None => self,
        }
    }
}

/// Ids are unique in a well-formed store, so a row found at `i` is the one `position` names.
pub proof fn lemma_position_at(s: StoreView, owner: i32, id: i32, i: int)
    requires
        s.wf(),
        0 <= i < s.rows.len(),
        is_row(s.rows[i], owner, id),
    ensures
        s.position(owner, id) == Some(i),
{
    let k = choose|k: int| 0 <= k < s.rows.len() && is_row(s.rows[k], owner, id);
    if k < i {
        assert(s.rows[k].todo_id < s.rows[i].todo_id);
    } else if i < k {
        assert(s.rows[i].todo_id < s.rows[k].todo_id);
    }
}

/// Creating a record keeps the store well formed.
pub proof fn lemma_create_keeps_wf(s: StoreView, owner: i32, req: CreateTodoRequest, now: Timestamp)
    requires
        s.wf(),
    ensures
        s.after_create(owner, req, now).wf(),
{
    if let Ok(t) = s.create_result(owner, req, now) {
        let s2 = s.after_create(owner, req, now);
        assert forall|i: int| 0 <= i < s2.rows.len() implies row_ok(#[trigger] s2.rows[i], s2.next_id, s2.clock) by {
            if i < s.rows.len() {
                assert(row_ok(s.rows[i], s.next_id, s.clock));
            }
        }
        assert forall|i: int, j: int| 0 <= i < j < s2.rows.len()
            implies created_micros(#[trigger] s2.rows[i]) <= created_micros(#[trigger] s2.rows[j]) by {
            assert(row_ok(s.rows[i], s.next_id, s.clock));
            if j < s.rows.len() {
                assert(created_micros(s.rows[i]) <= created_micros(s.rows[j]));
            }
        }
        assert forall|i: int, j: int| 0 <= i < j < s2.rows.len()
            implies #[trigger] s2.rows[i].todo_id < #[trigger] s2.rows[j].todo_id by {
            assert(row_ok(s.rows[i], s.next_id, s.clock));
            if j < s.rows.len() {
                assert(s.rows[i].todo_id < s.rows[j].todo_id);
            }
        }
    }
}

/// Updating a record keeps the store well formed.
pub proof fn lemma_update_keeps_wf(s: StoreView, owner: i32, id: i32, req: UpdateTodoRequest, now: Timestamp)
    requires
        s.wf(),
    ensures
        s.after_update(owner, id, req, now).wf(),
{
    if let Some(k) = s.position(owner, id) {
        let s2 = s.after_update(owner, id, req, now);
        assert forall|i: int| 0 <= i < s2.rows.len() implies row_ok(#[trigger] s2.rows[i], s2.next_id, s2.clock) by {
            assert(row_ok(s.rows[i], s.next_id, s.clock));
        }
        assert forall|i: int, j: int| 0 <= i < j < s2.rows.len()
            implies created_micros(#[trigger] s2.rows[i]) <= created_micros(#[trigger] s2.rows[j]) by {
            assert(created_micros(s.rows[i]) <= created_micros(s.rows[j]));
        }
        assert forall|i: int, j: int| 0 <= i < j < s2.rows.len()
            implies #[trigger] s2.rows[i].todo_id < #[trigger] s2.rows[j].todo_id by {
            assert(s.rows[i].todo_id < s.rows[j].todo_id);
        }
    }
}

/// Deleting a record keeps the store well formed.
pub proof fn lemma_delete_keeps_wf(s: StoreView, owner: i32, id: i32)
    requires
        s.wf(),
    ensures
        s.after_delete(owner, id).wf(),
{
    if let Some(k) = s.position(owner, id) {
        let s2 = s.after_delete(owner, id);
        assert forall|i: int| 0 <= i < s2.rows.len() implies row_ok(#[trigger] s2.rows[i], s2.next_id, s2.clock) by {
            if i < k {
                assert(s2.rows[i] == s.rows[i]);
            } else {
                assert(s2.rows[i] == s.rows[i + 1]);
            }
        }
        assert forall|i: int, j: int| 0 <= i < j < s2.rows.len()
            implies created_micros(#[trigger] s2.rows[i]) <= created_micros(#[trigger] s2.rows[j]) by {
            let oi = if i < k { i } else { i + 1 };
            let oj = if j < k { j } else { j + 1 };
            assert(s2.rows[i] == s.rows[oi]);
            assert(s2.rows[j] == s.rows[oj]);
            assert(created_micros(s.rows[oi]) <= created_micros(s.rows[oj]));
        }
        assert forall|i: int, j: int| 0 <= i < j < s2.rows.len()
            implies #[trigger] s2.rows[i].todo_id < #[trigger] s2.rows[j].todo_id by {
            let oi = if i < k { i } else { i + 1 };
            let oj = if j < k { j } else { j + 1 };
            assert(s2.rows[i] == s.rows[oi]);
            assert(s2.rows[j] == s.rows[oj]);
            assert(s.rows[oi].todo_id < s.rows[oj].todo_id);
        }
    }
}

/// An in-memory record store: one table of todo rows keyed by an increasing id.
pub struct TodoStore {
    rows: Vec<TodoRec>,
    next_id: i64,
    clock: Timestamp,
}

impl View for TodoStore {
    type V = StoreView;

    closed spec fn view(&self) -> StoreView {
        StoreView { rows: self.rows@, next_id: self.next_id as int, clock: self.clock }
    }
}

impl TodoStore {
    /// A store with no rows.
    pub fn new() -> (r: TodoStore)
        ensures
            r@ == StoreView::empty(),
            r@.wf(),
    {
        let r = TodoStore { rows: Vec::new(), next_id: 1, clock: Timestamp { micros: i64::MIN } };
        assert(r@.rows =~= Seq::<TodoRec>::empty());
        r
    }

    fn find(&self, owner: i32, id: i32) -> (r: Option<usize>)
        requires
            self@.wf(),
        ensures
            match r {
                Some(i) => i < self@.rows.len() && self@.position(owner, id) == Some(i as int),
                None => self@.position(owner, id) is None,
            },
    {
        let n = self.rows.len();
        let mut i: usize = 0;
        while i < n
            invariant
                n == self.rows@.len(),
                i <= n,
                self@.wf(),
                forall|j: int| 0 <= j < i ==> !is_row(#[trigger] self.rows@[j], owner, id),
            decreases n - i,
        {
            let t = &self.rows[i];
            let owned = match t.user_id {
                Some(u) => u == owner,
                None => false,
            };
            if t.todo_id == id && owned {
                proof {
                    lemma_position_at(self@, owner, id, i as int);
                }
                return Some(i);
            }
            i = i + 1;
        }
        None
    }
    /// The owner's records, newest first.
    pub fn list_todos(&self, owner: i32) -> (r: Result<Vec<TodoRec>, TodoError>)
        requires
            self@.wf(),
        ensures
            r matches Ok(v) && v@ == self@.listing(owner),
    {
        let n = self.rows.len();
        let mut out: Vec<TodoRec> = Vec::new();
        let mut j: usize = n;
        while j > 0
            invariant
                n == self.rows@.len(),
                j <= n,
                out@ == newest_first(self.rows@.subrange(j as int, n as int), owner),
            decreases j,
        {
            j = j - 1;
            let t = &self.rows[j];
            proof {
                assert(self.rows@.subrange(j as int, n as int).drop_first()
                    =~= self.rows@.subrange(j + 1, n as int));
            }
            let owned = match t.user_id {
                Some(u) => u == owner,
                None => false,
            };
            if owned {
                out.push(t.clone());
            }
        }
        proof {
            assert(self.rows@.subrange(0, n as int) =~= self.rows@);
        }
        from_store(Ok(out))
    }

    /// The record `(owner, id)`, or `NotFound`.
    pub fn get_todo(&self, owner: i32, id: i32) -> (r: Result<TodoRec, TodoError>)
        requires
            self@.wf(),
        ensures
            r == self@.get_result(owner, id),
    {
        let found = match self.find(owner, id) {
            Some(i) => Some(self.rows[i].clone()),
            None => None,
        };
        from_row_lookup(Ok(found))
    }

    /// Validates the payload and inserts a new record for `owner` stamped at `now`.
    pub fn create_todo(&mut self, owner: i32, req: CreateTodoRequest, now: Timestamp) -> (r: Result<TodoRec, TodoError>)
        requires
            old(self)@.wf(),
        ensures
            final(self)@.wf(),
            final(self)@ == old(self)@.after_create(owner, req, now),
            r == old(self)@.create_result(owner, req, now),
    {
        proof {
            lemma_create_keeps_wf(self@, owner, req, now);
        }
        let ghost req0 = req;
        let req = match validate_create(req) {
            Ok(valid) => valid,
            Err(e) => {
                return Err(e);
            },
        };
        let inserted: Result<TodoRec, StoreFailure> = if self.next_id > i32::MAX as i64 {
            Err(StoreFailure)
        } else {
            let at = self.clock.later_of(now);
            let rec = created_record(insert_values(req, owner), self.next_id as i32, at);
            self.rows.push(rec.clone());
            self.next_id = self.next_id + 1;
            self.clock = at;
            Ok(rec)
        };
        from_store(inserted)
    }

    /// Merges the payload into the record `(owner, id)` and stamps it at `now`, or `NotFound`.
    pub fn update_todo(&mut self, owner: i32, id: i32, req: UpdateTodoRequest, now: Timestamp) -> (r: Result<TodoRec, TodoError>)
        requires
            old(self)@.wf(),
        ensures
            final(self)@.wf(),
            final(self)@ == old(self)@.after_update(owner, id, req, now),
            r == old(self)@.update_result(owner, id, req, now),
    {
        proof {
            lemma_update_keeps_wf(self@, owner, id, req, now);
        }
        let updated = match self.find(owner, id) {
            Some(i) => {
                let at = self.clock.later_of(now);
                let rec = merge_update(self.rows[i].clone(), req, at);
                self.rows.set(i, rec.clone());
                self.clock = at;
                Some(rec)
            },
            None => None,
        };
        from_row_lookup(Ok(updated))
    }

    /// Removes the record `(owner, id)`, or `NotFound`.
    pub fn delete_todo(&mut self, owner: i32, id: i32) -> (r: Result<(), TodoError>)
        requires
            old(self)@.wf(),
        ensures
            final(self)@.wf(),
            final(self)@ == old(self)@.after_delete(owner, id),
            r == old(self)@.delete_result(owner, id),
    {
        proof {
            lemma_delete_keeps_wf(self@, owner, id);
        }
        let affected: u64 = match self.find(owner, id) {
            Some(i) => {
                self.rows.remove(i);
                1
            },
            None => 0,
        };
        from_rows_affected(Ok(affected))
    }
}

} // verus!
