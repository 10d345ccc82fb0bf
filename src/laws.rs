use vstd::prelude::*;

use crate::store::{
    absent, create_post, delete_post, get_post, ids_ascending, list_post, row_at, table_wf,
    update_post, StorageError, StoreView,
};
use crate::task::{fields_of, opt_str_view, resolved, FieldsView, TaskPayload, TaskView};

verus! {

/// A created task gets an id that no row holds and that is larger than every
/// id assigned before; the table stays well formed, and a `get` by that id
/// then returns exactly the created task.
pub proof fn created_task_is_fresh_and_found(
    pre: StoreView,
    f: FieldsView,
    post: StoreView,
    t: TaskView,
    g: Option<TaskView>,
)
    requires
        table_wf(pre),
        create_post(pre, f, post, Ok(t)),
        get_post(post, t.id, g),
    ensures
        absent(pre.tasks, t.id),
        t.id > pre.last_id,
        fields_of(t) == f,
        table_wf(post),
        g == Some(t),
{
    let n = pre.tasks.len() as int;
    assert(post.tasks[n] == t);
    assert forall|i: int| 0 <= i < post.tasks.len() implies 1 <= #[trigger] post.tasks[i].id
        <= post.last_id by {
        if i < n {
            assert(post.tasks[i] == pre.tasks[i]);
        }
    }
    assert forall|i: int, j: int| 0 <= i < j < post.tasks.len() implies post.tasks[i].id
        < post.tasks[j].id by {
        assert(post.tasks[i] == pre.tasks[i]);
        if j < n {
            assert(post.tasks[j] == pre.tasks[j]);
        }
    }
    match g {
        Some(u) => {
            let i = choose|i: int| row_at(post.tasks, t.id, i) && u == post.tasks[i];
            if i < n {
                assert(post.tasks[i] == pre.tasks[i]);
            }
        },
        None => {
            assert(post.tasks[n].id == t.id);
        },
    }
}

/// `list` returns the rows in strictly ascending id order, one per row.
pub proof fn listed_tasks_ascend(s: StoreView, r: Seq<TaskView>)
    requires
        table_wf(s),
        list_post(s, r),
    ensures
        ids_ascending(r),
        r.len() == s.tasks.len(),
{
}

/// A successful create adds exactly one row; a failed one adds none.
pub proof fn create_adds_one_row(
    pre: StoreView,
    f: FieldsView,
    post: StoreView,
    r: Result<TaskView, StorageError>,
)
    requires
        create_post(pre, f, post, r),
    ensures
        post.tasks.len() == pre.tasks.len() + (if r is Ok { 1int } else { 0int }),
{
}

/// A delete that finds its row removes exactly that one; one that does not
/// changes nothing.
pub proof fn delete_removes_one_row(pre: StoreView, id: int, post: StoreView, r: Option<TaskView>)
    requires
        delete_post(pre, id, post, r),
    ensures
        post.tasks.len() == pre.tasks.len() - (if r is Some { 1int } else { 0int }),
{
}

/// An update never changes the number of rows.
pub proof fn update_keeps_row_count(
    pre: StoreView,
    id: int,
    f: FieldsView,
    post: StoreView,
    r: Option<TaskView>,
)
    requires
        update_post(pre, id, f, post, r),
    ensures
        post.tasks.len() == pre.tasks.len(),
{
}

/// No row of a well-formed table has an id below 1.
pub proof fn ids_below_one_are_absent(s: StoreView, id: int)
    requires
        table_wf(s),
        id < 1,
    ensures
        absent(s.tasks, id),
{
}

/// On an id that no row has, `get`, `update` and `delete` all answer "not
/// found" and leave the table as it was.
pub proof fn missing_id_is_not_found(
    pre: StoreView,
    id: int,
    f: FieldsView,
    rg: Option<TaskView>,
    post_u: StoreView,
    ru: Option<TaskView>,
    post_d: StoreView,
    rd: Option<TaskView>,
)
    requires
        absent(pre.tasks, id),
        get_post(pre, id, rg),
        update_post(pre, id, f, post_u, ru),
        delete_post(pre, id, post_d, rd),
    ensures
        rg is None,
        ru is None,
        rd is None,
        post_u == pre,
        post_d == pre,
{
    if rg is Some {
        let i = choose|i: int| row_at(pre.tasks, id, i) && rg == Some(pre.tasks[i]);
    }
    if ru is Some {
        let i = choose|i: int| row_at(pre.tasks, id, i) && post_u.tasks == pre.tasks.update(i, ru->0);
    }
    if rd is Some {
        let i = choose|i: int|
            row_at(pre.tasks, id, i) && rd->0 == pre.tasks[i] && post_d.tasks == pre.tasks.remove(i);
    }
}

/// An update writes every field from the payload, none from the row it
/// replaces: an omitted `completed` becomes `false`. A `get` afterwards
/// returns the updated task.
pub proof fn update_replaces_all_fields(
    pre: StoreView,
    id: int,
    p: TaskPayload,
    post: StoreView,
    t: TaskView,
    g: Option<TaskView>,
)
    requires
        table_wf(pre),
        update_post(pre, id, resolved(p), post, Some(t)),
        get_post(post, id, g),
    ensures
        t.id == id,
        t.title == p.title@,
        t.description == opt_str_view(p.description),
        t.completed == (p.completed == Some(true)),
        g == Some(t),
{
    let i = choose|i: int| row_at(pre.tasks, id, i) && post.tasks == pre.tasks.update(i, t);
    assert(post.tasks[i] == t);
    match g {
        Some(u) => {
            let j = choose|j: int| row_at(post.tasks, id, j) && u == post.tasks[j];
            if j != i {
                assert(post.tasks[j] == pre.tasks[j]);
                assert(pre.tasks[i].id == pre.tasks[j].id);
            }
        },
        None => {},
    }
}

/// After a delete of an id, a `get` of it and a second delete of it both
/// answer "not found", and the second delete changes nothing.
pub proof fn delete_then_not_found(
    pre: StoreView,
    id: int,
    mid: StoreView,
    r: Option<TaskView>,
    g: Option<TaskView>,
    post: StoreView,
    r2: Option<TaskView>,
)
    requires
        table_wf(pre),
        delete_post(pre, id, mid, r),
        get_post(mid, id, g),
        delete_post(mid, id, post, r2),
    ensures
        absent(mid.tasks, id),
        g is None,
        r2 is None,
        post == mid,
{
    if r is Some {
        let i = choose|i: int|
            row_at(pre.tasks, id, i) && r->0 == pre.tasks[i] && mid.tasks == pre.tasks.remove(i);
        assert forall|k: int| 0 <= k < mid.tasks.len() implies mid.tasks[k].id != id by {
            if k < i {
                assert(mid.tasks[k] == pre.tasks[k]);
            } else {
                assert(mid.tasks[k] == pre.tasks[k + 1]);
            }
        }
    }
    if g is Some {
        let j = choose|j: int| row_at(mid.tasks, id, j) && g == Some(mid.tasks[j]);
    }
    if r2 is Some {
        let j = choose|j: int|
            row_at(mid.tasks, id, j) && r2->0 == mid.tasks[j] && post.tasks == mid.tasks.remove(j);
    }
}

} // verus!
