use vstd::prelude::*;
use crate::decimal::{decimal, decimal_string};
use crate::store::{AppState, CreateUser, User, UserView, view_users};

verus! {

/// What a response carries: plain text, one record, or a list of records.
pub enum Payload {
    Text(String),
    OneUser(User),
    UserList(Vec<User>),
}

pub ghost enum PayloadView {
    Text(Seq<char>),
    OneUser(UserView),
    UserList(Seq<UserView>),
}

impl View for Payload {
    type V = PayloadView;

    open spec fn view(&self) -> PayloadView {
        match self {
            Payload::Text(s) => PayloadView::Text(s@),
            Payload::OneUser(u) => PayloadView::OneUser(u@),
            Payload::UserList(v) => PayloadView::UserList(view_users(v@)),
        }
    }
}

/// A handler's result: a status code and a payload.
pub struct Response {
    pub status: u16,
    pub payload: Payload,
}

pub ghost struct ResponseView {
    pub status: u16,
    pub payload: PayloadView,
}

impl View for Response {
    type V = ResponseView;

    open spec fn view(&self) -> ResponseView {
        ResponseView { status: self.status, payload: self.payload@ }
    }
}

pub open spec fn text_response(status: u16, text: Seq<char>) -> ResponseView {
    ResponseView { status, payload: PayloadView::Text(text) }
}

pub open spec fn greeting_text() -> Seq<char> {
    "Hello, actix-web!"@
}

pub open spec fn lock_failure_text() -> Seq<char> {
    "Failed to lock application state"@
}

pub open spec fn exhausted_text() -> Seq<char> {
    "No user identifier left to assign"@
}

pub open spec fn not_found_text(id: u32) -> Seq<char> {
    "User with ID "@ + decimal(id as nat) + " not found"@
}

fn text(status: u16, s: String) -> (r: Response)
    ensures
        r@ == text_response(status, s@),
{
    Response { status, payload: Payload::Text(s) }
}

/// The reply when the store's guard cannot be acquired.
pub fn lock_failed() -> (r: Response)
    ensures
        r@ == text_response(500, lock_failure_text()),
{
    text(500, String::from_str("Failed to lock application state"))
}

/// The message naming an identifier that no record carries.
pub fn not_found_message(id: u32) -> (r: String)
    ensures
        r@ == not_found_text(id),
{
    let mut m = String::from_str("User with ID ");
    let d = decimal_string(id);
    m.append(d.as_str());
    m.append(" not found");
    m
}

/// `GET /`: the fixed greeting.
pub fn hello() -> (r: Response)
    ensures
        r@ == text_response(200, greeting_text()),
{
    text(200, String::from_str("Hello, actix-web!"))
}

/// `GET /users`: every record, or 500 when the guard was not acquired.
pub fn get_users(state: Option<&AppState>) -> (r: Response)
    ensures
        state is None ==> r@ == text_response(500, lock_failure_text()),
        state is Some ==> r@ == (ResponseView {
            status: 200,
            payload: PayloadView::UserList(state->0@.users),
        }),
{
    match state {
        None => lock_failed(),
        Some(s) => Response { status: 200, payload: Payload::UserList(s.list()) },
    }
}

/// `GET /users/{id}`: the record with identifier `id` (200), a message naming
/// `id` (404), or 500 when the guard was not acquired.
pub fn get_user(state: Option<&AppState>, id: u32) -> (r: Response)
    ensures
        state is None ==> r@ == text_response(500, lock_failure_text()),
        state is Some ==> match state->0@.lookup(id) {
            Some(u) => r@ == (ResponseView { status: 200, payload: PayloadView::OneUser(u) }),
            None => r@ == text_response(404, not_found_text(id)),
        },
{
    match state {
        None => lock_failed(),
        Some(s) => match s.get(id) {
            Some(u) => Response { status: 200, payload: Payload::OneUser(u) },
            None => text(404, not_found_message(id)),
        },
    }
}

/// `POST /users`: appends a record built from `req` under identifier
/// counter + 1 and returns it (201); 500 when the guard was not acquired or
/// no identifier is left, with the store unchanged.
pub fn create_user(state: Option<&mut AppState>, req: CreateUser) -> (r: Response)
    ensures
        state is None ==> r@ == text_response(500, lock_failure_text()),
        state is Some && old(state->0)@.counter == u32::MAX ==> {
            &&& r@ == text_response(500, exhausted_text())
            &&& final(state->0)@ == old(state->0)@
        },
        state is Some && old(state->0)@.counter < u32::MAX ==> {
            &&& r@ == (ResponseView {
                status: 201,
                payload: PayloadView::OneUser(old(state->0)@.next_record(req.name@, req.email@)),
            })
            &&& final(state->0)@ == old(state->0)@.after_insert(req.name@, req.email@)
        },
{
    match state {
        None => lock_failed(),
        Some(s) => {
            if s.can_insert() {
                let u = s.insert(req.name, req.email);
                Response { status: 201, payload: Payload::OneUser(u) }
            } else {
                text(500, String::from_str("No user identifier left to assign"))
            }
        },
    }
}

} // verus!
