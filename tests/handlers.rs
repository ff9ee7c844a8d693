use user_store::decimal::decimal_string;
use user_store::handlers::{
    create_user, get_user, get_users, hello, lock_failed, not_found_message, Payload, Response,
};
use user_store::store::{AppState, CreateUser, User};

fn user(id: u32, name: &str, email: &str) -> User {
    User { id, name: name.to_string(), email: email.to_string() }
}

fn text_of(r: &Response) -> &str {
    match &r.payload {
        Payload::Text(s) => s.as_str(),
        _ => panic!("expected a text payload"),
    }
}

fn one_user(r: &Response) -> &User {
    match &r.payload {
        Payload::OneUser(u) => u,
        _ => panic!("expected one user"),
    }
}

fn req(name: &str, email: &str) -> CreateUser {
    CreateUser { name: name.to_string(), email: email.to_string() }
}

#[test]
fn hello_greets() {
    let r = hello();
    assert_eq!(r.status, 200);
    assert_eq!(text_of(&r), "Hello, actix-web!");
}

#[test]
fn carol_scenario() {
    let mut st = AppState::new();
    let created = create_user(Some(&mut st), req("Carol", "carol@example.com"));
    assert_eq!(created.status, 201);
    assert_eq!(one_user(&created), &user(3, "Carol", "carol@example.com"));

    let got = get_user(Some(&st), 3);
    assert_eq!(got.status, 200);
    assert_eq!(one_user(&got), &user(3, "Carol", "carol@example.com"));

    let missing = get_user(Some(&st), 99);
    assert_eq!(missing.status, 404);
    assert_eq!(text_of(&missing), "User with ID 99 not found");
}

#[test]
fn get_users_lists_every_record() {
    let mut st = AppState::new();
    create_user(Some(&mut st), req("Carol", "carol@example.com"));
    let r = get_users(Some(&st));
    assert_eq!(r.status, 200);
    match &r.payload {
        Payload::UserList(v) => assert_eq!(
            v,
            &vec![
                user(1, "Alice", "alice@example.com"),
                user(2, "Bob", "bob@example.com"),
                user(3, "Carol", "carol@example.com"),
            ]
        ),
        _ => panic!("expected a list"),
    }
}

#[test]
fn lock_failure_gives_500_on_every_store_handler() {
    let a = get_users(None);
    let b = get_user(None, 1);
    let c = create_user(None, req("Carol", "carol@example.com"));
    for r in [&a, &b, &c] {
        assert_eq!(r.status, 500);
        assert_eq!(text_of(r), "Failed to lock application state");
    }
    let d = lock_failed();
    assert_eq!(d.status, 500);
    assert_eq!(text_of(&d), "Failed to lock application state");
}

#[test]
fn lock_failure_is_not_a_not_found() {
    let r = get_user(None, 99);
    assert_ne!(r.status, 404);
}

#[test]
fn not_found_message_names_the_identifier() {
    assert_eq!(not_found_message(0), "User with ID 0 not found");
    assert_eq!(not_found_message(4294967295), "User with ID 4294967295 not found");
}

#[test]
fn decimal_string_writes_plain_digits() {
    assert_eq!(decimal_string(0), "0");
    assert_eq!(decimal_string(7), "7");
    assert_eq!(decimal_string(10), "10");
    assert_eq!(decimal_string(1203), "1203");
    assert_eq!(decimal_string(u32::MAX), "4294967295");
}

#[test]
fn create_user_leaves_a_readable_record() {
    let mut st = AppState::new();
    let a = create_user(Some(&mut st), req("Dan", "dan@example.com"));
    let b = create_user(Some(&mut st), req("Dan", "dan@example.com"));
    assert_eq!(one_user(&a).id, 3);
    assert_eq!(one_user(&b).id, 4);
    assert_eq!(one_user(&get_user(Some(&st), 4)), &user(4, "Dan", "dan@example.com"));
}
