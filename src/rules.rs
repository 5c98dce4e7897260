use vstd::prelude::*;
use crate::model::{CreateTodoRequest, NewTodo, Timestamp, TodoRec, UpdateTodoRequest};

verus! {

/// The priority a record gets when the create payload names none.
pub const DEFAULT_PRIORITY: i32 = 1;

/// The payload's value where it has one, else the current one.
pub open spec fn coalesce<T>(given: Option<T>, current: Option<T>) -> Option<T> {
    match given {
        Some(v) => Some(v),
        None => current,
    }
}

pub open spec fn priority_or_default(p: Option<i32>) -> i32 {
    match p {
        Some(v) => v,
        None => DEFAULT_PRIORITY,
    }
}

/// The row that a create payload asks the store to insert for `owner`.
pub open spec fn insert_spec(req: CreateTodoRequest, owner: i32) -> NewTodo {
    NewTodo {
        title: req.title,
        todo_text: req.todo_text,
        priority: priority_or_default(req.priority),
        due_date: req.due_date,
        user_id: owner,
    }
}

/// The record that an inserted row becomes, given its id and the time of insertion.
pub open spec fn created_spec(row: NewTodo, todo_id: i32, now: Timestamp) -> TodoRec {
    TodoRec {
        todo_id,
        title: row.title,
        todo_text: row.todo_text,
        completed: None,
        priority: Some(row.priority),
        due_date: row.due_date,
        created_at: Some(now),
        updated_at: Some(now),
        user_id: Some(row.user_id),
    }
}

/// The record after an update: each mutable field is coalesced with the
/// payload, the identity and creation time are kept, and `updated_at` is `now`.
pub open spec fn merged_spec(rec: TodoRec, req: UpdateTodoRequest, now: Timestamp) -> TodoRec {
    TodoRec {
        todo_id: rec.todo_id,
        title: match req.title {
            Some(t) => t,
            None => rec.title,
        },
        todo_text: coalesce(req.todo_text, rec.todo_text),
        completed: coalesce(req.completed, rec.completed),
        priority: coalesce(req.priority, rec.priority),
        due_date: coalesce(req.due_date, rec.due_date),
        created_at: rec.created_at,
        updated_at: Some(now),
        user_id: rec.user_id,
    }
}

/// Builds the insert values of a create payload, defaulting an absent priority.
pub fn insert_values(req: CreateTodoRequest, owner: i32) -> (r: NewTodo)
    ensures
        r == insert_spec(req, owner),
{
    let priority: i32 = match req.priority {
        Some(p) => p,
        None => DEFAULT_PRIORITY,
    };
    NewTodo {
        title: req.title,
        todo_text: req.todo_text,
        priority,
        due_date: req.due_date,
        user_id: owner,
    }
}

/// The record the store holds after inserting `row` under `todo_id` at `now`.
pub fn created_record(row: NewTodo, todo_id: i32, now: Timestamp) -> (r: TodoRec)
    ensures
        r == created_spec(row, todo_id, now),
{
    TodoRec {
        todo_id,
        title: row.title,
        todo_text: row.todo_text,
        completed: None,
        priority: Some(row.priority),
        due_date: row.due_date,
        created_at: Some(now),
        updated_at: Some(now),
        user_id: Some(row.user_id),
    }
}

/// Applies an update payload to a record, field by field.
pub fn merge_update(rec: TodoRec, req: UpdateTodoRequest, now: Timestamp) -> (r: TodoRec)
    ensures
        r == merged_spec(rec, req, now),
{
    let title = match req.title {
        Some(t) => t,
        None => rec.title,
    };
    let todo_text = match req.todo_text {
        Some(t) => Some(t),
        None => rec.todo_text,
    };
    let completed = match req.completed {
        Some(c) => Some(c),
        None => rec.completed,
    };
    let priority = match req.priority {
        Some(p) => Some(p),
        None => rec.priority,
    };
    let due_date = match req.due_date {
        Some(d) => Some(d),
        None => rec.due_date,
    };
    TodoRec {
        todo_id: rec.todo_id,
        title,
        todo_text,
        completed,
        priority,
        due_date,
        created_at: rec.created_at,
        updated_at: Some(now),
        user_id: rec.user_id,
    }
}

} // verus!
