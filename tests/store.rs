use user_store::store::{AppState, User};

fn user(id: u32, name: &str, email: &str) -> User {
    User { id, name: name.to_string(), email: email.to_string() }
}

#[test]
fn new_store_holds_the_two_seed_records() {
    let st = AppState::new();
    assert_eq!(st.counter(), 2);
    assert_eq!(
        st.list(),
        vec![user(1, "Alice", "alice@example.com"), user(2, "Bob", "bob@example.com")]
    );
}

#[test]
fn insert_assigns_counter_plus_one() {
    let mut st = AppState::new();
    let r = st.insert("Carol".to_string(), "carol@example.com".to_string());
    assert_eq!(r, user(3, "Carol", "carol@example.com"));
    assert_eq!(st.counter(), 3);
}

#[test]
fn successive_inserts_are_consecutive_and_unique() {
    let mut st = AppState::new();
    let mut ids = Vec::new();
    for k in 0..10 {
        let r = st.insert(format!("user{}", k), format!("user{}@example.com", k));
        ids.push(r.id);
    }
    assert_eq!(ids, (3..13).collect::<Vec<u32>>());
    let listed: Vec<u32> = st.list().iter().map(|u| u.id).collect();
    assert_eq!(listed, (1..13).collect::<Vec<u32>>());
}

#[test]
fn identical_inserts_make_distinct_records() {
    let mut st = AppState::new();
    let a = st.insert("Dan".to_string(), "dan@example.com".to_string());
    let b = st.insert("Dan".to_string(), "dan@example.com".to_string());
    assert_ne!(a.id, b.id);
    assert_eq!(st.list().len(), 4);
}

#[test]
fn get_after_insert_returns_the_same_record() {
    let mut st = AppState::new();
    let r = st.insert("Eve".to_string(), "eve@example.com".to_string());
    assert_eq!(st.get(r.id), Some(r));
}

#[test]
fn get_finds_seed_records() {
    let st = AppState::new();
    assert_eq!(st.get(1), Some(user(1, "Alice", "alice@example.com")));
    assert_eq!(st.get(2), Some(user(2, "Bob", "bob@example.com")));
}

#[test]
fn get_of_unissued_identifier_is_none() {
    let mut st = AppState::new();
    st.insert("Carol".to_string(), "carol@example.com".to_string());
    assert_eq!(st.get(0), None);
    assert_eq!(st.get(4), None);
    assert_eq!(st.get(99), None);
    assert_eq!(st.get(u32::MAX), None);
}

#[test]
fn list_keeps_insertion_order() {
    let mut st = AppState::new();
    st.insert("Zed".to_string(), "z@example.com".to_string());
    st.insert("Amy".to_string(), "a@example.com".to_string());
    assert_eq!(
        st.list(),
        vec![
            user(1, "Alice", "alice@example.com"),
            user(2, "Bob", "bob@example.com"),
            user(3, "Zed", "z@example.com"),
            user(4, "Amy", "a@example.com"),
        ]
    );
}

#[test]
fn empty_name_and_email_are_accepted() {
    let mut st = AppState::new();
    let r = st.insert(String::new(), String::new());
    assert_eq!(r, user(3, "", ""));
}

#[test]
fn serialized_inserts_from_many_callers_get_a_gap_free_run() {
    let shared = std::sync::Mutex::new(AppState::new());
    let mut ids = Vec::new();
    for k in 0..8 {
        let mut guard = shared.lock().unwrap();
        ids.push(guard.insert(format!("c{}", k), format!("c{}@example.com", k)).id);
    }
    ids.sort();
    assert_eq!(ids, (3..11).collect::<Vec<u32>>());
}

#[test]
fn duplicate_keeps_every_field() {
    let u = user(7, "Gus", "gus@example.com");
    assert_eq!(u.duplicate(), u);
}
