use task_tracker::{
    error_status, respond, Api, StorageError, Task, TaskPayload, TaskResponse, TaskStore,
};

fn payload(title: &str, description: Option<&str>, completed: Option<bool>) -> TaskPayload {
    TaskPayload {
        title: title.to_string(),
        description: description.map(|d| d.to_string()),
        completed,
    }
}

fn api() -> Api {
    Api::new(TaskStore::new())
}

fn found(r: Result<TaskResponse, StorageError>) -> Option<Task> {
    match r {
        Ok(TaskResponse::Found(t)) => Some(t),
        Ok(TaskResponse::NotFound) => None,
        Err(e) => panic!("unexpected storage error {:?}", e),
    }
}

#[test]
fn buy_milk_scenario() {
    let mut a = api();
    let t = a.create_task(payload("Buy milk", None, None)).unwrap();
    assert_eq!(t.id, 1);
    assert_eq!(t.title, "Buy milk");
    assert_eq!(t.description, None);
    assert!(!t.completed);

    let r = a.update_task(1, payload("Buy milk", Some("2%"), Some(true))).unwrap();
    assert_eq!(r.status(), 200);
    let u = match r {
        TaskResponse::Found(u) => u,
        TaskResponse::NotFound => panic!("update lost the task"),
    };
    assert_eq!(u.id, 1);
    assert_eq!(u.title, "Buy milk");
    assert_eq!(u.description.as_deref(), Some("2%"));
    assert!(u.completed);

    let d = a.delete_task(1).unwrap();
    assert_eq!(d.status(), 200);
    match d {
        TaskResponse::Found(d) => assert_eq!(d.id, 1),
        TaskResponse::NotFound => panic!("delete found nothing"),
    }

    let g = a.get_task(1).unwrap();
    assert_eq!(g.status(), 404);
    assert!(matches!(g, TaskResponse::NotFound));
}

#[test]
fn create_then_get_round_trip() {
    let mut a = api();
    let t = a.create_task(payload("A", None, Some(true))).unwrap();
    let g = found(a.get_task(t.id)).unwrap();
    assert_eq!(g.id, t.id);
    assert_eq!(g.title, "A");
    assert_eq!(g.description, None);
    assert!(g.completed);
}

#[test]
fn created_ids_are_fresh_after_delete() {
    let mut a = api();
    let t1 = a.create_task(payload("one", None, None)).unwrap();
    let t2 = a.create_task(payload("two", Some("second"), None)).unwrap();
    assert_eq!((t1.id, t2.id), (1, 2));
    assert!(found(a.delete_task(2)).is_some());
    let t3 = a.create_task(payload("three", None, Some(false))).unwrap();
    assert_eq!(t3.id, 3);
    let g = found(a.get_task(3)).unwrap();
    assert_eq!(g.title, "three");
    assert!(found(a.get_task(2)).is_none());
}

#[test]
fn list_is_ascending_and_counts_live_tasks() {
    let mut a = api();
    assert!(a.list_task().unwrap().is_empty());
    for title in ["a", "b", "c", "d"] {
        a.create_task(payload(title, None, None)).unwrap();
    }
    assert!(found(a.delete_task(2)).is_some());
    assert!(found(a.update_task(3, payload("C", None, Some(true)))).is_some());
    let all = a.list_task().unwrap();
    let ids: Vec<i64> = all.iter().map(|t| t.id).collect();
    assert_eq!(ids, vec![1, 3, 4]);
    let titles: Vec<&str> = all.iter().map(|t| t.title.as_str()).collect();
    assert_eq!(titles, vec!["a", "C", "d"]);
}

#[test]
fn missing_ids_are_not_found() {
    let mut a = api();
    a.create_task(payload("x", None, None)).unwrap();
    for id in [-1, 0, 2, i64::MAX, i64::MIN] {
        assert!(matches!(a.get_task(id), Ok(TaskResponse::NotFound)));
        assert!(matches!(a.update_task(id, payload("y", None, None)), Ok(TaskResponse::NotFound)));
        assert!(matches!(a.delete_task(id), Ok(TaskResponse::NotFound)));
    }
    let all = a.list_task().unwrap();
    assert_eq!(all.len(), 1);
    assert_eq!(all[0].title, "x");
}

#[test]
fn update_does_not_keep_omitted_fields() {
    let mut a = api();
    let t = a.create_task(payload("old", Some("details"), Some(true))).unwrap();
    let u = found(a.update_task(t.id, payload("new", None, None))).unwrap();
    assert_eq!(u.id, t.id);
    assert_eq!(u.title, "new");
    assert_eq!(u.description, None);
    assert!(!u.completed);
    let g = found(a.get_task(t.id)).unwrap();
    assert_eq!((g.title.as_str(), g.description.clone(), g.completed), ("new", None, false));
}

#[test]
fn second_delete_is_not_found() {
    let mut a = api();
    let t = a.create_task(payload("gone", None, None)).unwrap();
    let d = found(a.delete_task(t.id)).unwrap();
    assert_eq!(d.title, "gone");
    assert!(found(a.get_task(t.id)).is_none());
    assert!(found(a.delete_task(t.id)).is_none());
    assert!(a.list_task().unwrap().is_empty());
}

#[test]
fn payload_defaults_completed_to_false() {
    let f = payload("t", Some("d"), None).resolve();
    assert_eq!(f.title, "t");
    assert_eq!(f.description.as_deref(), Some("d"));
    assert!(!f.completed);
    assert!(payload("t", None, Some(true)).resolve().completed);
}

#[test]
fn respond_maps_outcomes() {
    let t = Task { id: 7, title: "t".to_string(), description: None, completed: false };
    match respond(Ok(Some(t))) {
        Ok(TaskResponse::Found(t)) => assert_eq!(t.id, 7),
        _ => panic!("a row must be found"),
    }
    assert!(matches!(respond(Ok(None)), Ok(TaskResponse::NotFound)));
    assert!(matches!(respond(Err(StorageError::Backend)), Err(StorageError::Backend)));
}

#[test]
fn statuses() {
    let t = Task { id: 1, title: "t".to_string(), description: None, completed: true };
    assert_eq!(TaskResponse::Found(t).status(), 200);
    assert_eq!(TaskResponse::NotFound.status(), 404);
    assert_eq!(error_status(&StorageError::Backend), 500);
    assert_eq!(error_status(&StorageError::IdsExhausted), 500);
}

#[test]
fn store_operations_directly() {
    let mut s = TaskStore::new();
    let t = s.create(payload("s", None, None).resolve()).unwrap();
    assert_eq!(t.id, 1);
    assert_eq!(s.get(1).unwrap().title, "s");
    assert_eq!(s.update(1, payload("S", None, Some(true)).resolve()).unwrap().title, "S");
    assert_eq!(s.list().len(), 1);
    assert!(s.delete(1).is_some());
    assert!(s.get(1).is_none());
    assert!(s.update(1, payload("S", None, None).resolve()).is_none());
}
