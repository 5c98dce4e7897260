//! A todo service core: request validation, the partial-update merge, the
//! mapping of store outcomes to service errors and response statuses, and an
//! in-memory record store whose operations are described as a state machine.

pub mod api;
pub mod laws;
pub mod model;
pub mod outcome;
pub mod rules;
pub mod store;
pub mod validate;

pub use api::{ApiDoc, Operation};
pub use model::{CreateTodoRequest, NewTodo, Timestamp, Todo, TodoError, TodoRec, UpdateTodoRequest};
pub use outcome::StoreFailure;
pub use store::{StoreView, TodoStore};
