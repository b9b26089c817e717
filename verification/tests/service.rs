use todo_service::error::Error;
use todo_service::error::StorageError;
use todo_service::parse::parse_id_segment;
use todo_service::present::present;
use todo_service::present::present_all;
use todo_service::routing::RoutingService;
use todo_service::store::TodoStore;
use todo_service::todo::apply_update;
use todo_service::todo::NewTodo;
use todo_service::todo::Todo;
use todo_service::todo::UpdateTodo;

fn routing() -> RoutingService {
    RoutingService {
        host: "127.0.0.1".to_owned(),
        port: 8080,
        scheme: "http".to_owned(),
    }
}

fn new_todo(title: &str, order: Option<i64>) -> NewTodo {
    NewTodo {
        title: title.to_owned(),
        order,
    }
}

#[test]
fn created_ids_are_unique_and_stable() {
    let mut store = TodoStore::new();
    let a = store.create(new_todo("a", None));
    let b = store.create(new_todo("b", None));
    let c = store.create(new_todo("c", None));
    assert_ne!(a.id, b.id);
    assert_ne!(a.id, c.id);
    assert_ne!(b.id, c.id);
    // the ids stay the same across repeated fetches
    for _ in 0..3 {
        let got = store.show(b.id).unwrap();
        assert_eq!(got.id, b.id);
        assert_eq!(got.title, "b");
    }
    // and other operations do not disturb them
    store.delete_one(a.id);
    let got = store.show(c.id).unwrap();
    assert_eq!(got.id, c.id);
}

#[test]
fn deleted_id_is_never_reassigned() {
    let mut store = TodoStore::new();
    let a = store.create(new_todo("a", None));
    store.delete_one(a.id);
    let b = store.create(new_todo("b", None));
    assert_ne!(a.id, b.id);
    store.delete_all();
    let c = store.create(new_todo("c", None));
    assert_ne!(a.id, c.id);
    assert_ne!(b.id, c.id);
}

#[test]
fn listing_is_sorted_by_ascending_id() {
    let mut store = TodoStore::new();
    for i in 0..5 {
        store.create(new_todo(&format!("t{}", i), Some(100 - i)));
    }
    let listing = store.list();
    assert_eq!(listing.len(), 5);
    for w in listing.windows(2) {
        assert!(w[0].id < w[1].id);
    }
}

#[test]
fn create_without_order_defaults_to_zero_and_not_completed() {
    let mut store = TodoStore::new();
    let t = store.create(new_todo("a", None));
    assert_eq!(t.order, 0);
    assert!(!t.completed);
    assert_eq!(t.title, "a");
}

#[test]
fn create_with_order_keeps_it() {
    let mut store = TodoStore::new();
    let t = store.create(new_todo("a", Some(42)));
    assert_eq!(t.order, 42);
    assert!(!t.completed);
}

#[test]
fn patch_with_only_completed_preserves_title_and_order() {
    let mut store = TodoStore::new();
    let t = store.create(new_todo("keep me", Some(9)));
    let patched = store
        .patch(
            t.id,
            UpdateTodo {
                title: None,
                completed: Some(true),
                order: None,
            },
        )
        .unwrap();
    assert!(patched.completed);
    assert_eq!(patched.title, "keep me");
    assert_eq!(patched.order, 9);
    assert_eq!(patched.id, t.id);
    // the merge is persisted
    let got = store.show(t.id).unwrap();
    assert!(got.completed);
    assert_eq!(got.title, "keep me");
    assert_eq!(got.order, 9);
}

#[test]
fn patch_each_field_separately() {
    let before = Todo {
        id: 3,
        title: "old".to_owned(),
        completed: false,
        order: 1,
    };
    let t = apply_update(
        &before,
        &UpdateTodo {
            title: Some("new".to_owned()),
            completed: None,
            order: None,
        },
    );
    assert_eq!(t.title, "new");
    assert!(!t.completed);
    assert_eq!(t.order, 1);
    assert_eq!(t.id, 3);

    let t = apply_update(
        &before,
        &UpdateTodo {
            title: None,
            completed: None,
            order: Some(-7),
        },
    );
    assert_eq!(t.title, "old");
    assert_eq!(t.order, -7);

    let t = apply_update(
        &before,
        &UpdateTodo {
            title: None,
            completed: None,
            order: None,
        },
    );
    assert_eq!(t.title, "old");
    assert!(!t.completed);
    assert_eq!(t.order, 1);
}

#[test]
fn patch_of_absent_id_is_not_found_and_changes_nothing() {
    let mut store = TodoStore::new();
    store.create(new_todo("a", None));
    let r = store.patch(
        999,
        UpdateTodo {
            title: Some("x".to_owned()),
            completed: None,
            order: None,
        },
    );
    assert_eq!(r.unwrap_err(), Error::NotFound);
    let listing = store.list();
    assert_eq!(listing.len(), 1);
    assert_eq!(listing[0].title, "a");
}

#[test]
fn delete_of_absent_id_is_no_content_not_an_error() {
    let mut store = TodoStore::new();
    store.create(new_todo("a", None));
    // deleting an id that never existed returns normally
    store.delete_one(12345);
    assert_eq!(store.list().len(), 1);
    // deleting the same id twice is the same as deleting it once
    let t = store.create(new_todo("b", None));
    store.delete_one(t.id);
    store.delete_one(t.id);
    assert_eq!(store.list().len(), 1);
    assert_eq!(store.list()[0].title, "a");
}

#[test]
fn delete_all_then_list_returns_empty() {
    let mut store = TodoStore::new();
    for i in 0..4 {
        store.create(new_todo(&format!("t{}", i), None));
    }
    store.delete_all();
    let listing = store.list();
    assert!(listing.is_empty());
}

#[test]
fn show_of_absent_numeric_id_is_not_found() {
    let store = TodoStore::new();
    assert_eq!(store.show(7).unwrap_err(), Error::NotFound);
}

#[test]
fn non_numeric_segment_does_not_match_the_route() {
    assert_eq!(parse_id_segment("abc"), None);
    assert_eq!(parse_id_segment("12x"), None);
    assert_eq!(parse_id_segment("x12"), None);
    assert_eq!(parse_id_segment(""), None);
    assert_eq!(parse_id_segment("-5"), None);
    assert_eq!(parse_id_segment("1.5"), None);
    assert_eq!(parse_id_segment(" 1"), None);
}

#[test]
fn numeric_segments_parse_to_their_value() {
    assert_eq!(parse_id_segment("0"), Some(0));
    assert_eq!(parse_id_segment("42"), Some(42));
    assert_eq!(parse_id_segment("007"), Some(7));
    assert_eq!(parse_id_segment("9223372036854775807"), Some(i64::MAX));
}

#[test]
fn overflowing_segments_do_not_match() {
    assert_eq!(parse_id_segment("9223372036854775808"), None);
    assert_eq!(parse_id_segment("99999999999999999999999"), None);
}

#[test]
fn round_trip_create_then_show_with_url() {
    let mut store = TodoStore::new();
    let created = store.create(new_todo("shop", Some(2)));
    let fetched = store.show(created.id).unwrap();
    assert_eq!(fetched.title, created.title);
    assert_eq!(fetched.completed, created.completed);
    assert_eq!(fetched.order, created.order);
    let presented = present(&fetched, &routing());
    assert!(presented.url.ends_with(&format!("/todos/{}", created.id)));
    assert_eq!(presented.todo.title, "shop");
}

#[test]
fn todo_url_has_the_exact_shape() {
    let r = routing();
    assert_eq!(r.todo_url(1), "http://127.0.0.1:8080/todos/1");
    assert_eq!(r.todo_url(907), "http://127.0.0.1:8080/todos/907");
    // ports and negative ids render in plain decimal
    let r2 = RoutingService {
        host: "example.org".to_owned(),
        port: 80,
        scheme: "https".to_owned(),
    };
    assert_eq!(r2.todo_url(-3), "https://example.org:80/todos/-3");
    assert_eq!(r2.todo_url(i64::MIN), format!("https://example.org:80/todos/{}", i64::MIN));
    assert_eq!(r2.todo_url(i64::MAX), format!("https://example.org:80/todos/{}", i64::MAX));
}

#[test]
fn listing_presents_every_item_with_its_url() {
    let mut store = TodoStore::new();
    let a = store.create(new_todo("a", None));
    let b = store.create(new_todo("b", None));
    let presented = present_all(&store.list(), &routing());
    assert_eq!(presented.len(), 2);
    assert_eq!(presented[0].todo.id, a.id);
    assert_eq!(presented[1].todo.id, b.id);
    assert_eq!(presented[0].url, format!("http://127.0.0.1:8080/todos/{}", a.id));
    assert_eq!(presented[1].url, format!("http://127.0.0.1:8080/todos/{}", b.id));
}

#[test]
fn error_status_codes_and_messages() {
    assert_eq!(Error::InternalError.status_code(), 500);
    assert_eq!(Error::BadClientData.status_code(), 400);
    assert_eq!(Error::Timeout.status_code(), 504);
    assert_eq!(Error::NotFound.status_code(), 404);
    assert_eq!(Error::InternalError.message(), "internal error");
    assert_eq!(Error::BadClientData.message(), "bad request");
    assert_eq!(Error::Timeout.message(), "timeout");
    assert_eq!(Error::NotFound.message(), "not found");
}

#[test]
fn storage_failures_map_to_not_found_or_internal() {
    assert_eq!(Error::from_storage(StorageError::RowNotFound), Error::NotFound);
    assert_eq!(Error::from_storage(StorageError::Other), Error::InternalError);
}
