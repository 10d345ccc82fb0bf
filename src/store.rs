use vstd::prelude::*;

use crate::task::{fields_of, task_with, FieldsView, Task, TaskFields, TaskView};

verus! {

/// Why a storage operation failed.
#[derive(Debug, Clone, Copy, PartialEq, Eq, Structural)]
pub enum StorageError {
    /// Every id up to the largest `i64` has been handed out: no fresh id is left.
    IdsExhausted,
    /// The backing database could not be reached or refused the statement.
    Backend,
}

/// The contents of a task table: its rows in ascending id order, and the
/// largest id ever assigned (0 when none was).
pub struct StoreView {
    pub tasks: Seq<TaskView>,
    pub last_id: int,
}

pub open spec fn views(s: Seq<Task>) -> Seq<TaskView> {
    s.map_values(|t: Task| t@)
}

pub open spec fn opt_view(o: Option<Task>) -> Option<TaskView> {
    match o {
        Some(t) => Some(t@),
        None => None,
    }
}

pub open spec fn res_view(r: Result<Task, StorageError>) -> Result<TaskView, StorageError> {
    match r {
        Ok(t) => Ok(t@),
        Err(e) => Err(e),
    }
}

/// Ids strictly ascend along the sequence.
pub open spec fn ids_ascending(s: Seq<TaskView>) -> bool {
    forall|i: int, j: int| 0 <= i < j < s.len() ==> s[i].id < s[j].id
}

/// No row has the given id.
pub open spec fn absent(s: Seq<TaskView>, id: int) -> bool {
    forall|i: int| 0 <= i < s.len() ==> s[i].id != id
}

/// Row `i` exists and has the given id.
pub open spec fn row_at(s: Seq<TaskView>, id: int, i: int) -> bool {
    0 <= i < s.len() && s[i].id == id
}

/// A well-formed table: ids are positive, ascend, and none exceeds the last
/// id assigned, which fits in an `i64`.
pub open spec fn table_wf(s: StoreView) -> bool {
    &&& 0 <= s.last_id <= i64::MAX
    &&& ids_ascending(s.tasks)
    &&& forall|i: int| 0 <= i < s.tasks.len() ==> 1 <= #[trigger] s.tasks[i].id <= s.last_id
}

/// `list`: every row, in ascending id order.
pub open spec fn list_post(s: StoreView, r: Seq<TaskView>) -> bool {
    r == s.tasks
}

/// `get`: the row with the id, or nothing when no row has it.
pub open spec fn get_post(s: StoreView, id: int, r: Option<TaskView>) -> bool {
    match r {
        Some(t) => exists|i: int| row_at(s.tasks, id, i) && t == s.tasks[i],
        None => absent(s.tasks, id),
    }
}

/// `create`: the row gets the id after the last one assigned and goes at the
/// end; when the id space is used up, nothing changes and the insert fails.
pub open spec fn create_post(
    pre: StoreView,
    f: FieldsView,
    post: StoreView,
    r: Result<TaskView, StorageError>,
) -> bool {
    if pre.last_id < i64::MAX {
        &&& r == Ok::<TaskView, StorageError>(task_with(pre.last_id + 1, f))
        &&& post.tasks == pre.tasks.push(task_with(pre.last_id + 1, f))
        &&& post.last_id == pre.last_id + 1
    } else {
        &&& r == Err::<TaskView, StorageError>(StorageError::IdsExhausted)
        &&& post == pre
    }
}

/// `update`: the row with the id has all its fields replaced, in place;
/// when no row has the id, nothing changes.
pub open spec fn update_post(
    pre: StoreView,
    id: int,
    f: FieldsView,
    post: StoreView,
    r: Option<TaskView>,
) -> bool {
    match r {
        Some(t) => {
            &&& t == task_with(id, f)
            &&& exists|i: int| row_at(pre.tasks, id, i) && post.tasks == pre.tasks.update(i, t)
            &&& post.last_id == pre.last_id
        },
        None => absent(pre.tasks, id) && post == pre,
    }
}

/// `delete`: the row with the id is removed and returned; when no row has
/// the id, nothing changes.
pub open spec fn delete_post(pre: StoreView, id: int, post: StoreView, r: Option<TaskView>) -> bool {
    match r {
        Some(t) => {
            &&& exists|i: int|
                row_at(pre.tasks, id, i) && t == pre.tasks[i] && post.tasks == pre.tasks.remove(i)
            &&& post.last_id == pre.last_id
        },
        None => absent(pre.tasks, id) && post == pre,
    }
}

/// An in-memory task table with the operations of the task repository.
pub struct TaskStore {
    tasks: Vec<Task>,
    last_id: i64,
}

impl View for TaskStore {
    type V = StoreView;

    closed spec fn view(&self) -> StoreView {
        StoreView { tasks: views(self.tasks@), last_id: self.last_id as int }
    }
}

impl TaskStore {
    pub open spec fn wf(&self) -> bool {
        table_wf(self@)
    }

    /// An empty table; the first task created gets id 1.
    pub fn new() -> (r: TaskStore)
        ensures
            r.wf(),
            r@.tasks.len() == 0,
            r@.last_id == 0,
    {
        let r = TaskStore { tasks: Vec::new(), last_id: 0 };
        assert(r@.tasks =~= Seq::<TaskView>::empty());
        r
    }

    fn position(&self, id: i64) -> (r: Option<usize>)
        ensures
            match r {
                Some(i) => row_at(self@.tasks, id as int, i as int),
                None => absent(self@.tasks, id as int),
            },
    {
        let mut i: usize = 0;
        while i < self.tasks.len()
            invariant
                i <= self.tasks@.len(),
                forall|k: int| 0 <= k < i ==> self@.tasks[k].id != id as int,
            decreases self.tasks@.len() - i,
        {
            if self.tasks[i].id == id {
                return Some(i);
            }
            i = i + 1;
        }
        None
    }

    /// All tasks, in ascending id order.
    pub fn list(&self) -> (r: Vec<Task>)
        requires
            self.wf(),
        ensures
            list_post(self@, views(r@)),
            ids_ascending(views(r@)),
    {
        let mut r: Vec<Task> = Vec::new();
        let mut i: usize = 0;
        while i < self.tasks.len()
            invariant
                i <= self.tasks@.len(),
                r@.len() == i,
                forall|k: int| 0 <= k < i ==> r@[k] == self.tasks@[k],
            decreases self.tasks@.len() - i,
        {
            r.push(self.tasks[i].duplicate());
            i = i + 1;
        }
        assert(views(r@) =~= self@.tasks);
        r
    }

    /// The task with the given id, or `None` when there is none.
    pub fn get(&self, id: i64) -> (r: Option<Task>)
        requires
            self.wf(),
        ensures
            get_post(self@, id as int, opt_view(r)),
    {
        match self.position(id) {
            Some(i) => Some(self.tasks[i].duplicate()),
            None => None,
        }
    }

    /// Inserts a task with the next id and returns it.
    pub fn create(&mut self, fields: TaskFields) -> (r: Result<Task, StorageError>)
        requires
            old(self).wf(),
        ensures
            final(self).wf(),
            create_post(old(self)@, fields@, final(self)@, res_view(r)),
    {
        if self.last_id == i64::MAX {
            return Err(StorageError::IdsExhausted);
        }
        let id = self.last_id + 1;
        let t = Task::from_fields(id, fields);
        let out = t.duplicate();
        self.tasks.push(t);
        self.last_id = id;
        assert(self@.tasks =~= old(self)@.tasks.push(out@));
        Ok(out)
    }

    /// Replaces every field of the task with the given id and returns it;
    /// `None` when there is no such task.
    pub fn update(&mut self, id: i64, fields: TaskFields) -> (r: Option<Task>)
        requires
            old(self).wf(),
        ensures
            final(self).wf(),
            update_post(old(self)@, id as int, fields@, final(self)@, opt_view(r)),
    {
        match self.position(id) {
            Some(i) => {
                let t = Task::from_fields(id, fields);
                let out = t.duplicate();
                self.tasks.set(i, t);
                assert(self@.tasks =~= old(self)@.tasks.update(i as int, out@));
                Some(out)
            },
            None => None,
        }
    }

    /// Removes the task with the given id and returns it; `None` when there
    /// is no such task.
    pub fn delete(&mut self, id: i64) -> (r: Option<Task>)
        requires
            old(self).wf(),
        ensures
            final(self).wf(),
            delete_post(old(self)@, id as int, final(self)@, opt_view(r)),
    {
        match self.position(id) {
            Some(i) => {
                let t = self.tasks.remove(i);
                assert(self@.tasks =~= old(self)@.tasks.remove(i as int));
                Some(t)
            },
            None => None,
        }
    }
}

} // verus!
