use vstd::prelude::*;
use crate::model::TodoError;

verus! {

/// The five operations the service offers.
#[derive(Clone, Copy, Debug, PartialEq, Eq, Structural)]
pub enum Operation {
    List,
    Get,
    Create,
    Update,
    Delete,
}

pub open spec fn method_spec(op: Operation) -> Seq<char> {
    match op {
        Operation::List => "GET"@,
        Operation::Get => "GET"@,
        Operation::Create => "POST"@,
        Operation::Update => "PUT"@,
        Operation::Delete => "DELETE"@,
    }
}

pub open spec fn path_spec(op: Operation) -> Seq<char> {
    match op {
        Operation::List => "/todos"@,
        Operation::Create => "/todos"@,
        _ => "/todos/{id}"@,
    }
}

pub open spec fn success_spec(op: Operation) -> u16 {
    match op {
        Operation::Create => 201,
        Operation::Delete => 204,
        _ => 200,
    }
}

/// The description of the HTTP interface: how each operation is addressed
/// and which status reports each outcome.
pub struct ApiDoc;

impl ApiDoc {
    /// The HTTP method of an operation.
    pub fn method(op: Operation) -> (r: &'static str)
        ensures
            r@ == method_spec(op),
    {
        match op {
            Operation::List => "GET",
            Operation::Get => "GET",
            Operation::Create => "POST",
            Operation::Update => "PUT",
            Operation::Delete => "DELETE",
        }
    }

    /// The path of an operation; `{id}` stands for the record's id.
    pub fn path(op: Operation) -> (r: &'static str)
        ensures
            r@ == path_spec(op),
    {
        match op {
            Operation::List => "/todos",
            Operation::Create => "/todos",
            _ => "/todos/{id}",
        }
    }

    /// The status of a successful operation.
    pub fn success_status(op: Operation) -> (r: u16)
        ensures
            r == success_spec(op),
    {
        match op {
            Operation::Create => 201,
            Operation::Delete => 204,
            _ => 200,
        }
    }

    /// The status that reports an operation's outcome.
    pub fn response_status<T>(op: Operation, r: &Result<T, TodoError>) -> (s: u16)
        ensures
            match r {
                Ok(_) => s == success_spec(op),
                Err(e) => s == e.status_spec(),
            },
    {
        match r {
            Ok(_) => ApiDoc::success_status(op),
            Err(e) => e.status(),
        }
    }
}

} // verus!
