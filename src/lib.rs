//! A small task-tracking library: the task record and its input shape, an
//! in-memory task table with the five repository operations, and the request
//! handlers that turn repository outcomes into HTTP responses.

pub mod api;
pub mod laws;
pub mod store;
pub mod task;

pub use api::{
    error_status, respond, Api, TaskResponse, CREATE_SQL, DELETE_SQL, GET_SQL, LIST_SQL,
    UPDATE_SQL,
};
pub use store::{StorageError, TaskStore};
pub use task::{Task, TaskFields, TaskPayload};
