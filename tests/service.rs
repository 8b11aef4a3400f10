use tasklist::response::{respond_list, respond_task, Body, Response, BAD_REQUEST, CREATED, OK};
use tasklist::service::{Request, TaskService};
use tasklist::table::{StoreError, TaskTable};
use tasklist::task::{Task, TaskComplete, TaskNew};

const NOT_FOUND: &str = "no rows returned by a query that expected to return at least one row";

fn create(text: &str) -> Request {
    Request::Create { body: TaskNew { text: text.to_string() } }
}

fn complete(id: i32, completed: bool) -> Request {
    Request::Complete { id, body: TaskComplete { completed } }
}

fn expect_task(r: &Response, status: u16, id: i32, text: &str, completed: bool) {
    assert_eq!(r.status, status);
    match &r.body {
        Body::Task(t) => {
            assert_eq!(t.id, id);
            assert_eq!(t.text, text);
            assert_eq!(t.completed, completed);
        }
        _ => panic!("expected one task"),
    }
}

fn expect_error(r: &Response, message: &str) {
    assert_eq!(r.status, BAD_REQUEST);
    match &r.body {
        Body::Message(m) => assert_eq!(m, message),
        _ => panic!("expected an error message"),
    }
}

#[test]
fn buy_milk_round_trip() {
    let mut s = TaskService::new();
    let r = s.handle(create("buy milk"));
    expect_task(&r, 201, 1, "buy milk", false);
    let r = s.handle(complete(1, true));
    expect_task(&r, 200, 1, "buy milk", true);
    let r = s.handle(Request::Delete { id: 1 });
    expect_task(&r, 200, 1, "buy milk", true);
    let r = s.handle(Request::Get { id: 1 });
    assert_eq!(r.status, 400);
    expect_error(&r, NOT_FOUND);
}

#[test]
fn create_keeps_text_and_assigns_fresh_ids() {
    let mut s = TaskService::new();
    expect_task(&s.handle(create("a")), CREATED, 1, "a", false);
    expect_task(&s.handle(create("a")), CREATED, 2, "a", false);
    expect_task(&s.handle(create("")), CREATED, 3, "", false);
    expect_task(&s.handle(create("ünïcode ✓")), CREATED, 4, "ünïcode ✓", false);
}

#[test]
fn ids_are_not_reused_after_delete() {
    let mut s = TaskService::new();
    s.handle(create("x"));
    s.handle(Request::Delete { id: 1 });
    expect_task(&s.handle(create("y")), CREATED, 2, "y", false);
}

#[test]
fn list_returns_created_tasks_in_id_order() {
    let mut s = TaskService::new();
    let r = s.handle(Request::List);
    assert_eq!(r.status, OK);
    match &r.body {
        Body::Tasks(ts) => assert!(ts.is_empty()),
        _ => panic!("expected a list"),
    }
    for text in ["one", "two", "three"] {
        s.handle(create(text));
    }
    let r = s.handle(Request::List);
    assert_eq!(r.status, OK);
    match &r.body {
        Body::Tasks(ts) => {
            assert_eq!(ts.len(), 3);
            let ids: Vec<i32> = ts.iter().map(|t| t.id).collect();
            assert_eq!(ids, vec![1, 2, 3]);
            let texts: Vec<&str> = ts.iter().map(|t| t.text.as_str()).collect();
            assert_eq!(texts, vec!["one", "two", "three"]);
            assert!(ts.iter().all(|t| !t.completed));
        }
        _ => panic!("expected a list"),
    }
}

#[test]
fn list_after_delete_keeps_order() {
    let mut s = TaskService::new();
    for text in ["a", "b", "c", "d"] {
        s.handle(create(text));
    }
    s.handle(Request::Delete { id: 2 });
    match &s.handle(Request::List).body {
        Body::Tasks(ts) => {
            let ids: Vec<i32> = ts.iter().map(|t| t.id).collect();
            assert_eq!(ids, vec![1, 3, 4]);
        }
        _ => panic!("expected a list"),
    }
}

#[test]
fn complete_then_revert() {
    let mut s = TaskService::new();
    s.handle(create("walk"));
    s.handle(complete(1, true));
    expect_task(&s.handle(Request::Get { id: 1 }), OK, 1, "walk", true);
    s.handle(complete(1, true));
    expect_task(&s.handle(Request::Get { id: 1 }), OK, 1, "walk", true);
    expect_task(&s.handle(complete(1, false)), OK, 1, "walk", false);
    expect_task(&s.handle(Request::Get { id: 1 }), OK, 1, "walk", false);
}

#[test]
fn delete_then_get_fails() {
    let mut s = TaskService::new();
    s.handle(create("a"));
    s.handle(create("b"));
    expect_task(&s.handle(Request::Delete { id: 2 }), OK, 2, "b", false);
    expect_error(&s.handle(Request::Get { id: 2 }), NOT_FOUND);
    expect_error(&s.handle(Request::Delete { id: 2 }), NOT_FOUND);
    expect_task(&s.handle(Request::Get { id: 1 }), OK, 1, "a", false);
}

#[test]
fn missing_id_always_fails() {
    let mut s = TaskService::new();
    s.handle(create("only"));
    for id in [0, 2, -1, i32::MAX, i32::MIN] {
        expect_error(&s.handle(Request::Get { id }), NOT_FOUND);
        expect_error(&s.handle(complete(id, true)), NOT_FOUND);
        expect_error(&s.handle(Request::Delete { id }), NOT_FOUND);
    }
    expect_task(&s.handle(Request::Get { id: 1 }), OK, 1, "only", false);
}

#[test]
fn table_operations_report_store_errors() {
    let mut t = TaskTable::new();
    assert!(matches!(t.get(1), Err(StoreError::RowNotFound)));
    assert!(matches!(t.set_completed(1, true), Err(StoreError::RowNotFound)));
    assert!(matches!(t.remove(1), Err(StoreError::RowNotFound)));
    let created = t.insert("x".to_string()).ok().unwrap();
    assert_eq!(created.id, 1);
    assert_eq!(t.list().len(), 1);
    let removed = t.remove(1).ok().unwrap();
    assert_eq!(removed.text, "x");
    assert!(t.list().is_empty());
}

#[test]
fn store_error_messages() {
    assert_eq!(StoreError::RowNotFound.message(), NOT_FOUND);
    assert_eq!(
        StoreError::IdsExhausted.message(),
        "error returned from database: nextval: reached maximum value of sequence \"tasks_id_seq\" (2147483647)"
    );
}

#[test]
fn success_statuses() {
    assert_eq!(TaskService::success_status(&create("a")), 201);
    assert_eq!(TaskService::success_status(&Request::List), 200);
    assert_eq!(TaskService::success_status(&Request::Get { id: 1 }), 200);
    assert_eq!(TaskService::success_status(&complete(1, true)), 200);
    assert_eq!(TaskService::success_status(&Request::Delete { id: 1 }), 200);
}

#[test]
fn respond_maps_outcomes() {
    let t = Task { id: 7, text: "t".to_string(), completed: true };
    expect_task(&respond_task(CREATED, Ok(t)), 201, 7, "t", true);
    expect_error(&respond_task(OK, Err("boom".to_string())), "boom");
    let r = respond_list(Ok(vec![Task { id: 3, text: "z".to_string(), completed: false }]));
    assert_eq!(r.status, 200);
    match &r.body {
        Body::Tasks(ts) => assert_eq!(ts[0].id, 3),
        _ => panic!("expected a list"),
    }
    expect_error(&respond_list(Err("down".to_string())), "down");
}

#[test]
fn duplicate_keeps_every_field() {
    let t = Task { id: 5, text: "keep me".to_string(), completed: true };
    let d = t.duplicate();
    assert_eq!((d.id, d.text.as_str(), d.completed), (5, "keep me", true));
}
