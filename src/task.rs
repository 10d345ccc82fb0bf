use vstd::prelude::*;

verus! {

/// The mutable fields of a task, as mathematical values.
pub struct FieldsView {
    pub title: Seq<char>,
    pub description: Option<Seq<char>>,
    pub completed: bool,
}

/// A stored task, as mathematical values.
pub struct TaskView {
    pub id: int,
    pub title: Seq<char>,
    pub description: Option<Seq<char>>,
    pub completed: bool,
}

pub open spec fn opt_str_view(o: Option<String>) -> Option<Seq<char>> {
    match o {
        Some(s) => Some(s@),
        None => None,
    }
}

/// The task that a row with the given id and fields holds.
pub open spec fn task_with(id: int, f: FieldsView) -> TaskView {
    TaskView { id, title: f.title, description: f.description, completed: f.completed }
}

/// The fields of a task: everything but its id.
pub open spec fn fields_of(t: TaskView) -> FieldsView {
    FieldsView { title: t.title, description: t.description, completed: t.completed }
}

/// A task as it is stored and returned: the id is assigned by the store.
#[derive(Debug)]
pub struct Task {
    pub id: i64,
    pub title: String,
    pub description: Option<String>,
    pub completed: bool,
}

impl View for Task {
    type V = TaskView;

    open spec fn view(&self) -> TaskView {
        TaskView {
            id: self.id as int,
            title: self.title@,
            description: opt_str_view(self.description),
            completed: self.completed,
        }
    }
}

fn clone_str_opt(o: &Option<String>) -> (r: Option<String>)
    ensures
        r == *o,
{
    match o {
        Some(s) => Some(s.clone()),
        None => None,
    }
}

impl Task {
    /// A task with the given id and fields.
    pub fn from_fields(id: i64, fields: TaskFields) -> (r: Task)
        ensures
            r@ == task_with(id as int, fields@),
            r.id == id,
    {
        Task { id, title: fields.title, description: fields.description, completed: fields.completed }
    }

    /// A task equal to this one, with its own strings.
    pub fn duplicate(&self) -> (r: Task)
        ensures
            r == *self,
    {
        Task {
            id: self.id,
            title: self.title.clone(),
            description: clone_str_opt(&self.description),
            completed: self.completed,
        }
    }
}

/// The fields that an insert or a full replacement writes, once the
/// request's defaults have been applied.
#[derive(Debug)]
pub struct TaskFields {
    pub title: String,
    pub description: Option<String>,
    pub completed: bool,
}

impl View for TaskFields {
    type V = FieldsView;

    open spec fn view(&self) -> FieldsView {
        FieldsView {
            title: self.title@,
            description: opt_str_view(self.description),
            completed: self.completed,
        }
    }
}

/// The body of a create or update request. It has no id: the id of a task
/// is assigned by the store and never taken from a client. An absent
/// `completed` means `false`.
#[derive(Debug)]
pub struct TaskPayload {
    pub title: String,
    pub description: Option<String>,
    pub completed: Option<bool>,
}

/// The fields that a payload writes: `completed` defaults to `false`.
pub open spec fn resolved(p: TaskPayload) -> FieldsView {
    FieldsView {
        title: p.title@,
        description: opt_str_view(p.description),
        completed: match p.completed {
            Some(c) => c,
            None => false,
        },
    }
}

impl TaskPayload {
    /// Applies the request's defaults: an omitted `completed` is `false`.
    pub fn resolve(self) -> (r: TaskFields)
        ensures
            r@ == resolved(self),
    {
        let completed = match self.completed {
            Some(c) => c,
            None => false,
        };
        TaskFields { title: self.title, description: self.description, completed }
    }
}

} // verus!
