use vstd::prelude::*;

verus! {

/// Abstract value of a user record.
pub ghost struct UserView {
    pub id: u32,
    pub name: Seq<char>,
    pub email: Seq<char>,
}

/// A user record as held by the store.
#[derive(Debug, PartialEq, Eq)]
pub struct User {
    pub id: u32,
    pub name: String,
    pub email: String,
}

impl View for User {
    type V = UserView;

    open spec fn view(&self) -> UserView {
        UserView { id: self.id, name: self.name@, email: self.email@ }
    }
}

impl User {
    /// A copy of this record with the same field values.
    pub fn duplicate(&self) -> (r: User)
        ensures
            r@ == self@,
    {
        User { id: self.id, name: self.name.clone(), email: self.email.clone() }
    }
}

/// The fields a caller supplies to create a user.
#[derive(Debug, PartialEq, Eq)]
pub struct CreateUser {
    pub name: String,
    pub email: String,
}

/// Abstract value of the store: records in insertion order and the
/// highest identifier issued so far.
pub ghost struct StoreView {
    pub users: Seq<UserView>,
    pub counter: u32,
}

impl StoreView {
    /// Identifiers strictly increase along the sequence, hence are unique.
    pub open spec fn ids_increasing(self) -> bool {
        forall|i: int, j: int|
            0 <= i < j < self.users.len() ==> #[trigger] self.users[i].id
                < #[trigger] self.users[j].id
    }

    /// No record carries an identifier above the counter.
    pub open spec fn ids_bounded(self) -> bool {
        forall|i: int| 0 <= i < self.users.len() ==> #[trigger] self.users[i].id <= self.counter
    }

    pub open spec fn wf(self) -> bool {
        self.ids_increasing() && self.ids_bounded()
    }

    /// Some record carries identifier `id`.
    pub open spec fn contains_id(self, id: u32) -> bool {
        exists|i: int| 0 <= i < self.users.len() && #[trigger] self.users[i].id == id
    }

    /// The record with identifier `id`, if any.
    pub open spec fn lookup(self, id: u32) -> Option<UserView> {
        if self.contains_id(id) {
            Some(
                self.users[choose|i: int| 0 <= i < self.users.len() && #[trigger] self.users[i].id == id],
            )
        } else {
            None
        }
    }

    /// The record that the next insertion of `name` and `email` creates.
    pub open spec fn next_record(self, name: Seq<char>, email: Seq<char>) -> UserView {
        UserView { id: (self.counter + 1) as u32, name, email }
    }

    /// The store after inserting `name` and `email`.
    pub open spec fn after_insert(self, name: Seq<char>, email: Seq<char>) -> StoreView {
        StoreView {
            users: self.users.push(self.next_record(name, email)),
            counter: (self.counter + 1) as u32,
        }
    }
}

pub open spec fn alice() -> UserView {
    UserView { id: 1, name: "Alice"@, email: "alice@example.com"@ }
}

pub open spec fn bob() -> UserView {
    UserView { id: 2, name: "Bob"@, email: "bob@example.com"@ }
}

/// The state a store starts in: two seed records and counter 2.
pub open spec fn seeded() -> StoreView {
    StoreView { users: seq![alice(), bob()], counter: 2 }
}

pub open spec fn view_opt(u: Option<User>) -> Option<UserView> {
    match u {
        Some(x) => Some(x@),
        None => None,
    }
}

pub open spec fn view_users(v: Seq<User>) -> Seq<UserView> {
    v.map_values(|u: User| u@)
}

/// The user record store: records in insertion order plus the highest
/// identifier issued so far.
pub struct AppState {
    users: Vec<User>,
    user_counter: u32,
}

impl View for AppState {
    type V = StoreView;

    closed spec fn view(&self) -> StoreView {
        StoreView { users: view_users(self.users@), counter: self.user_counter }
    }
}

impl AppState {
    #[verifier::type_invariant]
    spec fn inv(&self) -> bool {
        self@.wf()
    }

    /// A store holding the two seed records, with counter 2.
    pub fn new() -> (r: AppState)
        ensures
            r@ == seeded(),
    {
        let mut users: Vec<User> = Vec::new();
        users.push(
            User {
                id: 1,
                name: String::from_str("Alice"),
                email: String::from_str("alice@example.com"),
            },
        );
        users.push(
            User {
                id: 2,
                name: String::from_str("Bob"),
                email: String::from_str("bob@example.com"),
            },
        );
        let r = AppState { users, user_counter: 2 };
        assert(r@.users =~= seeded().users);
        r
    }

    /// The highest identifier issued so far.
    pub fn counter(&self) -> (r: u32)
        ensures
            r == self@.counter,
    {
        self.user_counter
    }

    /// Whether another identifier can still be issued.
    pub fn can_insert(&self) -> (r: bool)
        ensures
            r == (self@.counter < u32::MAX),
    {
        self.user_counter < u32::MAX
    }

    /// A copy of all records, in insertion order.
    pub fn list(&self) -> (r: Vec<User>)
        ensures
            view_users(r@) == self@.users,
    {
        let mut out: Vec<User> = Vec::new();
        let mut i: usize = 0;
        while i < self.users.len()
            invariant
                i <= self.users@.len(),
                out@.len() == i,
                forall|k: int| 0 <= k < i ==> #[trigger] out@[k]@ == self.users@[k]@,
            decreases self.users@.len() - i,
        {
            out.push(self.users[i].duplicate());
            i = i + 1;
        }
        assert(view_users(out@) =~= self@.users);
        out
    }

    /// The record whose identifier is `id`, if any.
    pub fn get(&self, id: u32) -> (r: Option<User>)
        ensures
            view_opt(r) == self@.lookup(id),
    {
        proof {
            use_type_invariant(self);
        }
        let mut i: usize = 0;
        while i < self.users.len()
            invariant
                self@.wf(),
                i <= self.users@.len(),
                forall|k: int| 0 <= k < i ==> #[trigger] self.users@[k].id != id,
            decreases self.users@.len() - i,
        {
            if self.users[i].id == id {
                let u = self.users[i].duplicate();
                proof {
                    let s = self@;
                    assert(s.users[i as int].id == id);
                    assert(s.contains_id(id));
                    let j = choose|j: int| 0 <= j < s.users.len() && #[trigger] s.users[j].id == id;
                    if j < i {
                        assert(s.users[j].id < s.users[i as int].id);
                    } else if j > i {
                        assert(s.users[i as int].id < s.users[j].id);
                    }
                }
                return Some(u);
            }
            i = i + 1;
        }
        proof {
            let s = self@;
            assert(!s.contains_id(id)) by {
                if s.contains_id(id) {
                    let j = choose|j: int| 0 <= j < s.users.len() && #[trigger] s.users[j].id == id;
                    assert(self.users@[j].id == id);
                }
            }
        }
        None
    }

    /// Appends a record with identifier counter + 1 and advances the counter.
    pub fn insert(&mut self, name: String, email: String) -> (r: User)
        requires
            old(self)@.counter < u32::MAX,
        ensures
            final(self)@ == old(self)@.after_insert(name@, email@),
            r@ == old(self)@.next_record(name@, email@),
    {
        proof {
            use_type_invariant(&*self);
        }
        let user_id = self.user_counter + 1;
        let new_user = User { id: user_id, name, email };
        let r = new_user.duplicate();
        let mut taken = AppState { users: Vec::new(), user_counter: 0 };
        proof {
            assert(taken@.users =~= Seq::<UserView>::empty());
        }
        std::mem::swap(self, &mut taken);
        let AppState { mut users, user_counter: _ } = taken;
        users.push(new_user);
        proof {
            let s0 = old(self)@;
            assert(view_users(users@) =~= s0.after_insert(r@.name, r@.email).users);
            crate::laws::lemma_insert_keeps_wf(s0, r@.name, r@.email);
        }
        *self = AppState { users, user_counter: user_id };
        r
    }
}

} // verus!
