use vstd::prelude::*;

verus! {

/// A date and time without a time zone, as microseconds since 1970-01-01 00:00:00.
#[derive(Clone, Copy, Debug, PartialEq, Eq, Structural)]
pub struct Timestamp {
    pub micros: i64,
}

impl Timestamp {
    pub open spec fn le(self, other: Timestamp) -> bool {
        self.micros <= other.micros
    }

    /// The later of two instants.
    pub open spec fn latest(self, other: Timestamp) -> Timestamp {
        if self.micros < other.micros {
            other
        } else {
            self
        }
    }

    pub fn later_of(self, other: Timestamp) -> (r: Timestamp)
        ensures
            r == self.latest(other),
    {
        if self.micros < other.micros {
            other
        } else {
            self
        }
    }
}

/// A persisted todo record.
#[derive(Debug, PartialEq, Eq)]
pub struct TodoRec {
    pub todo_id: i32,
    pub title: String,
    pub todo_text: Option<String>,
    pub completed: Option<bool>,
    pub priority: Option<i32>,
    pub due_date: Option<Timestamp>,
    pub created_at: Option<Timestamp>,
    pub updated_at: Option<Timestamp>,
    pub user_id: Option<i32>,
}

/// The record type under its short name.
pub type Todo = TodoRec;

fn copy_text(t: &Option<String>) -> (r: Option<String>)
    ensures
        r == *t,
{
    match t {
        Some(s) => Some(s.clone()),
        None => None,
    }
}

impl Clone for TodoRec {
    fn clone(&self) -> (r: Self)
        ensures
            r == *self,
    {
        TodoRec {
            todo_id: self.todo_id,
            title: self.title.clone(),
            todo_text: copy_text(&self.todo_text),
            completed: self.completed,
            priority: self.priority,
            due_date: self.due_date,
            created_at: self.created_at,
            updated_at: self.updated_at,
            user_id: self.user_id,
        }
    }
}

/// The payload of a create request.
#[derive(Debug, PartialEq, Eq)]
pub struct CreateTodoRequest {
    pub title: String,
    pub todo_text: Option<String>,
    pub priority: Option<i32>,
    pub due_date: Option<Timestamp>,
}

/// The payload of an update request: an absent field means "leave unchanged".
#[derive(Debug, PartialEq, Eq)]
pub struct UpdateTodoRequest {
    pub title: Option<String>,
    pub todo_text: Option<String>,
    pub completed: Option<bool>,
    pub priority: Option<i32>,
    pub due_date: Option<Timestamp>,
}

/// The values handed to the store for one insert.
#[derive(Debug, PartialEq, Eq)]
pub struct NewTodo {
    pub title: String,
    pub todo_text: Option<String>,
    pub priority: i32,
    pub due_date: Option<Timestamp>,
    pub user_id: i32,
}

/// The ways a service operation can fail.
#[derive(Clone, Copy, Debug, PartialEq, Eq, Structural)]
pub enum TodoError {
    /// The payload breaks a content rule; nothing was stored.
    ValidationError,
    /// No record with that id exists for the owner.
    NotFound,
    /// The record store failed.
    StorageError,
}

impl TodoError {
    pub open spec fn status_spec(self) -> u16 {
        match self {
            TodoError::ValidationError => 400,
            TodoError::NotFound => 404,
            TodoError::StorageError => 500,
        }
    }

    /// The response status that reports this error.
    pub fn status(&self) -> (r: u16)
        ensures
            r == self.status_spec(),
    {
        match self {
            TodoError::ValidationError => 400,
            TodoError::NotFound => 404,
            TodoError::StorageError => 500,
        }
    }
}

} // verus!
