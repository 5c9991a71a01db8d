use lowboy::error::LowboyError;
use lowboy::session_store::{after_insert, CreateStep, Error as StoreError, InsertOutcome, StoreErrorKind};
use lowboy::text::{i64_to_decimal, str_eq, without_last_char};
use lowboy::view::{page_context, LayoutContext};

#[test]
fn error_status_codes() {
    assert_eq!(LowboyError::BadRequest.status_code(), 400);
    assert_eq!(LowboyError::Unauthorized.status_code(), 401);
    assert_eq!(LowboyError::Forbidden.status_code(), 403);
    assert_eq!(LowboyError::NotFound.status_code(), 404);
    assert_eq!(LowboyError::Internal("x".to_string()).status_code(), 500);
}

#[test]
fn error_messages() {
    assert_eq!(LowboyError::BadRequest.message(), "Bad Request");
    assert_eq!(LowboyError::NotFound.public_message(), "Not Found");
    let e = LowboyError::database("disk full");
    assert_eq!(e.message(), "Internal Server Error: database error: disk full");
    assert_eq!(e.public_message(), "Internal Server Error");
    assert_eq!(LowboyError::pool("p").message(), "Internal Server Error: database pool error: p");
    assert_eq!(LowboyError::session("s").message(), "Internal Server Error: session error: s");
    assert_eq!(LowboyError::context("c").message(), "Internal Server Error: context error: c");
}

#[test]
fn layout_context_insert_get() {
    let mut c = LayoutContext::new();
    assert_eq!(c.insert("title".to_string(), "Login".to_string()), None);
    assert_eq!(c.get("title"), Some(&"Login".to_string()));
    assert_eq!(c.insert("title".to_string(), "Register".to_string()), Some("Login".to_string()));
    assert_eq!(c.get("title"), Some(&"Register".to_string()));
    assert_eq!(c.len(), 1);
    assert!(!c.contains_key("other"));
}

#[test]
fn layout_context_append_and_pairs() {
    let mut a = LayoutContext::from_pairs(vec![
        ("x".to_string(), "1".to_string()),
        ("y".to_string(), "2".to_string()),
        ("x".to_string(), "3".to_string()),
    ]);
    assert_eq!(a.len(), 2);
    assert_eq!(a.get("x"), Some(&"3".to_string()));
    let mut b = LayoutContext::from_pairs(vec![("y".to_string(), "4".to_string()), ("z".to_string(), "5".to_string())]);
    a.append(&mut b);
    assert_eq!(b.len(), 0);
    assert_eq!(a.get("y"), Some(&"4".to_string()));
    assert_eq!(a.get("z"), Some(&"5".to_string()));
    assert_eq!(a.get("x"), Some(&"3".to_string()));
    let copy = a.clone();
    assert_eq!(copy.pairs().len(), 3);
}

#[test]
fn page_context_defaults_and_overrides() {
    let page = LayoutContext::from_pairs(vec![
        ("title".to_string(), "Error".to_string()),
        ("app_title".to_string(), "Mine".to_string()),
    ]);
    let c = page_context("Demo", "abc123", Some(page));
    assert_eq!(c.get("lowboy_version"), Some(&"abc123".to_string()));
    assert_eq!(c.get("app_title"), Some(&"Mine".to_string()));
    assert_eq!(c.get("title"), Some(&"Error".to_string()));
    let plain = page_context("Demo", "v", None);
    assert_eq!(plain.get("app_title"), Some(&"Demo".to_string()));
    assert_eq!(plain.len(), 2);
}

#[test]
fn session_store_error_kinds() {
    assert_eq!(StoreError::Diesel("d".to_string()).into_store_error(), (StoreErrorKind::Backend, "d".to_string()));
    assert_eq!(StoreError::Pool("p".to_string()).into_store_error().0, StoreErrorKind::Backend);
    assert_eq!(StoreError::Interact("i".to_string()).into_store_error().0, StoreErrorKind::Backend);
    assert_eq!(StoreError::Decode("x".to_string()).into_store_error().0, StoreErrorKind::Decode);
    assert_eq!(StoreError::Encode("y".to_string()).into_store_error(), (StoreErrorKind::Encode, "y".to_string()));
}

#[test]
fn session_store_create_steps() {
    assert!(matches!(after_insert(InsertOutcome::Inserted), CreateStep::Done));
    assert!(matches!(after_insert(InsertOutcome::IdTaken), CreateStep::Retry));
    assert!(matches!(
        after_insert(InsertOutcome::Failed(StoreError::Diesel("e".to_string()))),
        CreateStep::Fail(StoreError::Diesel(d)) if d == "e"
    ));
}

#[test]
fn text_helpers() {
    assert_eq!(i64_to_decimal(1234567890), "1234567890");
    assert_eq!(i64_to_decimal(-10), "-10");
    assert!(str_eq("abc", "abc"));
    assert!(!str_eq("abc", "abd"));
    assert_eq!(without_last_char("line\n"), "line");
    assert_eq!(without_last_char("é"), "");
    assert_eq!(without_last_char(""), "");
}

#[test]
fn layout_context_insert_is_undone_by_its_result() {
    let mut c = LayoutContext::from_pairs(vec![
        ("title".to_string(), "Login".to_string()),
        ("lang".to_string(), "en".to_string()),
    ]);
    let previous = c.insert("title".to_string(), "Register".to_string()).unwrap();
    assert_eq!(c.get("title"), Some(&"Register".to_string()));
    c.insert("title".to_string(), previous);
    assert_eq!(c.get("title"), Some(&"Login".to_string()));
    assert_eq!(c.get("lang"), Some(&"en".to_string()));
    assert_eq!(c.len(), 2);
}

#[test]
fn layout_context_pairs_in_name_order() {
    let c = LayoutContext::from_pairs(vec![
        ("title".to_string(), "Login".to_string()),
        ("app_title".to_string(), "Demo".to_string()),
        ("b".to_string(), "2".to_string()),
        ("Z".to_string(), "upper".to_string()),
        ("ab".to_string(), "x".to_string()),
        ("a".to_string(), "y".to_string()),
        ("é".to_string(), "accent".to_string()),
    ]);
    let names: Vec<&str> = c.pairs().iter().map(|(k, _)| k.as_str()).collect();
    assert_eq!(names, vec!["Z", "a", "ab", "app_title", "b", "title", "é"]);
    let mut sorted: Vec<String> = names.iter().map(|s| s.to_string()).collect();
    sorted.sort();
    assert_eq!(sorted, names);
}
