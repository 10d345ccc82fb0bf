use vstd::prelude::*;

use crate::store::{
    create_post, delete_post, get_post, ids_ascending, list_post, opt_view, res_view,
    update_post, views, StorageError, StoreView, TaskStore,
};
use crate::task::{resolved, Task, TaskPayload, TaskView};

verus! {

/// Statement of the `list` operation: every row, in ascending id order.
pub const LIST_SQL: &'static str = "SELECT id, title, description, completed FROM tasks ORDER BY id";

/// Statement of the `get` operation; binds the id.
pub const GET_SQL: &'static str = "SELECT id, title, description, completed FROM tasks WHERE id = ?";

/// Statement of the `create` operation; binds title, description, completed.
pub const CREATE_SQL: &'static str = "INSERT INTO tasks (title, description, completed) VALUES (?, ?, ?) RETURNING id, title, description, completed";

/// Statement of the `update` operation; binds title, description, completed, id.
pub const UPDATE_SQL: &'static str = "UPDATE tasks SET title = ?, description = ?, completed = ? WHERE id = ? RETURNING id, title, description, completed";

/// Statement of the `delete` operation; binds the id.
pub const DELETE_SQL: &'static str = "DELETE FROM tasks WHERE id = ? RETURNING id, title, description, completed";

/// The answer of a handler that addresses one task by id.
#[derive(Debug)]
pub enum TaskResponse {
    /// HTTP 200 with the task as body.
    Found(Task),
    /// HTTP 404 with no body.
    NotFound,
}

/// The task that a handler's answer carries, if any.
pub open spec fn found(r: Result<TaskResponse, StorageError>) -> Option<TaskView> {
    match r {
        Ok(TaskResponse::Found(t)) => Some(t@),
        _ => None,
    }
}

impl TaskResponse {
    /// The HTTP status of this answer.
    pub fn status(&self) -> (r: u16)
        ensures
            r == (match self {
                TaskResponse::Found(_) => 200u16,
                TaskResponse::NotFound => 404u16,
            }),
    {
        match self {
            TaskResponse::Found(_) => 200,
            TaskResponse::NotFound => 404,
        }
    }
}

/// The HTTP status of a failed storage operation: an internal error, with no
/// detail passed on to the client.
pub fn error_status(e: &StorageError) -> (r: u16)
    ensures
        r == 500,
{
    500
}

/// Turns the outcome of a lookup by id into the handler's answer: a row is a
/// 200, no row a 404, and a storage error passes through unchanged.
pub fn respond(row: Result<Option<Task>, StorageError>) -> (r: Result<TaskResponse, StorageError>)
    ensures
        match row {
            Ok(Some(t)) => r == Ok::<TaskResponse, StorageError>(TaskResponse::Found(t)),
            Ok(None) => r == Ok::<TaskResponse, StorageError>(TaskResponse::NotFound),
            Err(e) => r == Err::<TaskResponse, StorageError>(e),
        },
{
    match row {
        Ok(Some(t)) => Ok(TaskResponse::Found(t)),
        Ok(None) => Ok(TaskResponse::NotFound),
        Err(e) => Err(e),
    }
}

/// The task handlers, over a task table that is handed to them.
pub struct Api {
    store: TaskStore,
}

impl View for Api {
    type V = StoreView;

    closed spec fn view(&self) -> StoreView {
        self.store@
    }
}

impl Api {
    pub closed spec fn wf(&self) -> bool {
        self.store.wf()
    }

    /// Handlers over the given table.
    pub fn new(store: TaskStore) -> (r: Api)
        requires
            store.wf(),
        ensures
            r.wf(),
            r@ == store@,
    {
        Api { store }
    }

    /// `GET /task`: every task, in ascending id order.
    pub fn list_task(&self) -> (r: Result<Vec<Task>, StorageError>)
        requires
            self.wf(),
        ensures
            r is Ok,
            r matches Ok(v) ==> list_post(self@, views(v@)) && ids_ascending(views(v@)),
    {
        Ok(self.store.list())
    }

    /// `GET /task/:id`: the task, or not found.
    pub fn get_task(&self, id: i64) -> (r: Result<TaskResponse, StorageError>)
        requires
            self.wf(),
        ensures
            r is Ok,
            get_post(self@, id as int, found(r)),
    {
        respond(Ok(self.store.get(id)))
    }

    /// `POST /task`: inserts the payload, with its defaults applied, under a
    /// fresh id, and returns the stored task.
    pub fn create_task(&mut self, payload: TaskPayload) -> (r: Result<Task, StorageError>)
        requires
            old(self).wf(),
        ensures
            final(self).wf(),
            create_post(old(self)@, resolved(payload), final(self)@, res_view(r)),
    {
        self.store.create(payload.resolve())
    }

    /// `PATCH /task/:id`: replaces every field of the task by the payload,
    /// with its defaults applied; not found when there is no such task.
    pub fn update_task(&mut self, id: i64, payload: TaskPayload) -> (r: Result<TaskResponse, StorageError>)
        requires
            old(self).wf(),
        ensures
            final(self).wf(),
            r is Ok,
            update_post(old(self)@, id as int, resolved(payload), final(self)@, found(r)),
    {
        let fields = payload.resolve();
        respond(Ok(self.store.update(id, fields)))
    }

    /// `DELETE /task/:id`: removes the task and returns it; not found when
    /// there is no such task.
    pub fn delete_task(&mut self, id: i64) -> (r: Result<TaskResponse, StorageError>)
        requires
            old(self).wf(),
        ensures
            final(self).wf(),
            r is Ok,
            delete_post(old(self)@, id as int, final(self)@, found(r)),
    {
        respond(Ok(self.store.delete(id)))
    }
}

} // verus!
