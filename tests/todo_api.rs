use todo_api::handlers::{
    create_outcome, fetch_outcome, parse_todo_id, update_outcome, validate_create,
};
use todo_api::model::{CreateTodoReq, Todo, TodoId, UpdateTodoStatusReq};
use todo_api::response::{ApiResponse, TodoError};
use todo_api::store::{StoreError, TodoStore};

fn create_req(title: &str) -> CreateTodoReq {
    CreateTodoReq { title: Some(title.to_string()) }
}

fn listed(store: &TodoStore) -> Vec<Todo> {
    match store.fetch_todos() {
        ApiResponse::Todos(v) => v,
        other => panic!("listing failed: {:?}", other),
    }
}

fn id_text(id: TodoId) -> String {
    uuid::Uuid::from_u128(id.value).to_string()
}

#[test]
fn create_then_list_gives_one_entry() {
    let mut store = TodoStore::new();
    let r = store.create_todo(create_req("buy milk"));
    assert!(matches!(r, ApiResponse::Created));
    assert_eq!(r.status_code(), 201);
    let todos = listed(&store);
    assert_eq!(todos.len(), 1);
    assert_eq!(todos[0].title, "buy milk");
    assert!(!todos[0].status);
}

#[test]
fn listing_twice_gives_the_same_rows() {
    let mut store = TodoStore::new();
    store.create_todo(create_req("a"));
    store.create_todo(create_req("b"));
    let first = listed(&store);
    let second = listed(&store);
    assert_eq!(first.len(), 2);
    assert_eq!(first.len(), second.len());
    for (x, y) in first.iter().zip(second.iter()) {
        assert_eq!(x.id, y.id);
        assert_eq!(x.title, y.title);
        assert_eq!(x.status, y.status);
    }
}

#[test]
fn status_toggles_and_reverts() {
    let mut store = TodoStore::new();
    store.create_todo(create_req("write report"));
    let id = listed(&store)[0].id;
    let r = store.update_todo_status(&id_text(id), UpdateTodoStatusReq { status: true });
    assert!(matches!(r, ApiResponse::Updated));
    assert_eq!(r.status_code(), 200);
    let todos = listed(&store);
    assert_eq!(todos[0].id, id);
    assert!(todos[0].status);
    store.update_todo_status(&id_text(id), UpdateTodoStatusReq { status: false });
    assert!(!listed(&store)[0].status);
}

#[test]
fn unknown_identifier_succeeds_and_changes_nothing() {
    let mut store = TodoStore::new();
    store.create_todo_with_id(TodoId { value: 1 }, create_req("only"));
    let r = store.update_todo_status(
        "67e55044-10b1-426f-9247-bb680e5fe0c8",
        UpdateTodoStatusReq { status: true },
    );
    assert!(matches!(r, ApiResponse::Updated));
    assert_eq!(r.status_code(), 200);
    let todos = listed(&store);
    assert_eq!(todos.len(), 1);
    assert_eq!(todos[0].id, TodoId { value: 1 });
    assert!(!todos[0].status);
}

#[test]
fn malformed_identifier_is_rejected() {
    let mut store = TodoStore::new();
    store.create_todo(create_req("x"));
    let r = store.update_todo_status("not-a-uuid", UpdateTodoStatusReq { status: true });
    assert!(matches!(r, ApiResponse::UpdateFailed(TodoError::MalformedId)));
    assert_eq!(r.status_code(), 400);
    assert_eq!(r.message(), Some("Unable to update todo status"));
    assert!(!listed(&store)[0].status);
    assert_eq!(parse_todo_id(""), Err(TodoError::MalformedId));
}

#[test]
fn missing_title_is_rejected() {
    let mut store = TodoStore::new();
    let r = store.create_todo(CreateTodoReq { title: None });
    assert!(matches!(r, ApiResponse::CreateFailed(TodoError::MissingTitle)));
    assert_eq!(r.status_code(), 400);
    assert_eq!(r.message(), Some("Unable to create todo"));
    assert_eq!(store.len(), 0);
}

#[test]
fn empty_title_is_rejected() {
    let mut store = TodoStore::new();
    let r = store.create_todo(create_req(""));
    assert!(matches!(r, ApiResponse::CreateFailed(TodoError::EmptyTitle)));
    assert_eq!(r.status_code(), 400);
    assert_eq!(store.len(), 0);
}

#[test]
fn many_creates_lose_nothing() {
    let mut store = TodoStore::new();
    let n = 50;
    for k in 0..n {
        let r = store.create_todo(create_req(&format!("task {}", k)));
        assert!(matches!(r, ApiResponse::Created));
    }
    let todos = listed(&store);
    assert_eq!(todos.len(), n);
    for k in 0..n {
        assert_eq!(todos[k].title, format!("task {}", k));
        for j in 0..k {
            assert_ne!(todos[j].id, todos[k].id);
        }
    }
}

#[test]
fn taken_identifier_is_refused() {
    let mut store = TodoStore::new();
    let id = TodoId { value: 42 };
    assert!(matches!(store.create_todo_with_id(id, create_req("first")), ApiResponse::Created));
    let r = store.create_todo_with_id(id, create_req("second"));
    assert!(matches!(r, ApiResponse::CreateFailed(TodoError::Store(StoreError::DuplicateId))));
    assert_eq!(r.status_code(), 400);
    let todos = listed(&store);
    assert_eq!(todos.len(), 1);
    assert_eq!(todos[0].title, "first");
}

#[test]
fn update_by_id_touches_only_that_row() {
    let mut store = TodoStore::new();
    store.create_todo_with_id(TodoId { value: 1 }, create_req("one"));
    store.create_todo_with_id(TodoId { value: 2 }, create_req("two"));
    let r = store.update_todo_status_by_id(TodoId { value: 2 }, UpdateTodoStatusReq { status: true });
    assert!(matches!(r, ApiResponse::Updated));
    let todos = listed(&store);
    assert!(!todos[0].status);
    assert!(todos[1].status);
    assert_eq!(todos[1].title, "two");
}

#[test]
fn parse_reads_the_uuid_value() {
    let want = TodoId { value: 0x67e5504410b1426f9247bb680e5fe0c8 };
    assert_eq!(TodoId::parse("67e55044-10b1-426f-9247-bb680e5fe0c8"), Some(want));
    assert_eq!(TodoId::parse("67e5504410b1426f9247bb680e5fe0c8"), Some(want));
    assert_eq!(TodoId::parse("{67e55044-10b1-426f-9247-bb680e5fe0c8}"), Some(want));
    assert_eq!(TodoId::parse("urn:uuid:67e55044-10b1-426f-9247-bb680e5fe0c8"), Some(want));
    assert_eq!(TodoId::parse("67e55044-10b1-426f-9247-bb680e5fe0cz"), None);
    assert_eq!(TodoId::parse(""), None);
    assert_eq!(parse_todo_id("00000000-0000-0000-0000-000000000001"), Ok(TodoId { value: 1 }));
}

#[test]
fn generated_identifiers_differ() {
    let a = TodoId::generate();
    let b = TodoId::generate();
    assert_ne!(a, b);
    assert_eq!(uuid::Uuid::from_u128(a.value).get_version_num(), 4);
}

#[test]
fn validate_create_hands_back_the_title() {
    assert_eq!(validate_create(create_req("t")), Ok("t".to_string()));
    assert_eq!(validate_create(create_req("")), Err(TodoError::EmptyTitle));
    assert_eq!(validate_create(CreateTodoReq { title: None }), Err(TodoError::MissingTitle));
}

#[test]
fn create_outcome_checks_affected_rows() {
    assert!(matches!(create_outcome(Ok(1)), ApiResponse::Created));
    assert!(matches!(create_outcome(Ok(0)), ApiResponse::Created));
    let r = create_outcome(Ok(2));
    assert!(matches!(r, ApiResponse::CreateFailed(TodoError::TooManyRows(2))));
    assert_eq!(r.status_code(), 400);
    let r = create_outcome(Err(StoreError::Unavailable));
    assert!(matches!(r, ApiResponse::CreateFailed(TodoError::Store(StoreError::Unavailable))));
    assert_eq!(r.message(), Some("Unable to create todo"));
}

#[test]
fn update_outcome_ignores_row_count() {
    assert!(matches!(update_outcome(Ok(0)), ApiResponse::Updated));
    assert!(matches!(update_outcome(Ok(1)), ApiResponse::Updated));
    let r = update_outcome(Err(StoreError::Unavailable));
    assert!(matches!(r, ApiResponse::UpdateFailed(TodoError::Store(StoreError::Unavailable))));
    assert_eq!(r.status_code(), 400);
}

#[test]
fn fetch_outcome_passes_rows_through() {
    let rows = vec![Todo { id: TodoId { value: 7 }, title: "seven".to_string(), status: true }];
    match fetch_outcome(Ok(rows)) {
        ApiResponse::Todos(v) => {
            assert_eq!(v.len(), 1);
            assert_eq!(v[0].id, TodoId { value: 7 });
            assert_eq!(v[0].title, "seven");
            assert!(v[0].status);
        }
        other => panic!("unexpected answer: {:?}", other),
    }
    let r = fetch_outcome(Err(StoreError::Unavailable));
    assert_eq!(r.status_code(), 400);
    assert_eq!(r.message(), Some("Unable to fetch todos"));
    assert!(!r.is_success());
}

#[test]
fn success_answers_carry_no_message() {
    assert_eq!(ApiResponse::Created.message(), None);
    assert_eq!(ApiResponse::Updated.message(), None);
    assert!(ApiResponse::Created.is_success());
    assert_eq!(ApiResponse::Todos(Vec::new()).status_code(), 200);
}
