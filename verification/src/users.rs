//! Users: the `users` table. A user is found by `id`, the primary key, or
//! by `email`, which no two users share.

use vstd::prelude::*;
use crate::rows::{keys_distinct, lemma_listing_covers, lemma_position, Record, Rows};
use crate::text::{copy_opt_text, opt_text};

verus! {

/// One row of the `users` table.
#[derive(Debug, Clone, PartialEq, Eq)]
pub struct User {
    pub id: String,
    pub name: Option<String>,
    pub avatar_color: Option<String>,
    pub email: String,
    pub email_verified: bool,
    pub master_password_hash: String,
    pub master_password_hint: Option<String>,
    pub key: String,
    pub private_key: String,
    pub public_key: String,
    pub kdf_type: i32,
    pub kdf_iterations: i32,
    pub security_stamp: String,
    pub created_at: String,
    pub updated_at: String,
}

/// The mathematical value of a [`User`].
pub struct UserView {
    pub id: Seq<char>,
    pub name: Option<Seq<char>>,
    pub avatar_color: Option<Seq<char>>,
    pub email: Seq<char>,
    pub email_verified: bool,
    pub master_password_hash: Seq<char>,
    pub master_password_hint: Option<Seq<char>>,
    pub key: Seq<char>,
    pub private_key: Seq<char>,
    pub public_key: Seq<char>,
    pub kdf_type: i32,
    pub kdf_iterations: i32,
    pub security_stamp: Seq<char>,
    pub created_at: Seq<char>,
    pub updated_at: Seq<char>,
}

impl View for User {
    type V = UserView;

    open spec fn view(&self) -> UserView {
        UserView {
            id: self.id@,
            name: opt_text(self.name),
            avatar_color: opt_text(self.avatar_color),
            email: self.email@,
            email_verified: self.email_verified,
            master_password_hash: self.master_password_hash@,
            master_password_hint: opt_text(self.master_password_hint),
            key: self.key@,
            private_key: self.private_key@,
            public_key: self.public_key@,
            kdf_type: self.kdf_type,
            kdf_iterations: self.kdf_iterations,
            security_stamp: self.security_stamp@,
            created_at: self.created_at@,
            updated_at: self.updated_at@,
        }
    }
}

impl User {
    /// A copy of the user, field for field.
    pub fn copy(&self) -> (r: User)
        ensures
            r@ == self@,
    {
        User {
            id: self.id.clone(),
            name: copy_opt_text(&self.name),
            avatar_color: copy_opt_text(&self.avatar_color),
            email: self.email.clone(),
            email_verified: self.email_verified,
            master_password_hash: self.master_password_hash.clone(),
            master_password_hint: copy_opt_text(&self.master_password_hint),
            key: self.key.clone(),
            private_key: self.private_key.clone(),
            public_key: self.public_key.clone(),
            kdf_type: self.kdf_type,
            kdf_iterations: self.kdf_iterations,
            security_stamp: self.security_stamp.clone(),
            created_at: self.created_at.clone(),
            updated_at: self.updated_at.clone(),
        }
    }
}

impl Record for User {
    open spec fn key_of(row: UserView) -> Seq<char> {
        row.id
    }

    fn key(&self) -> (k: &String) {
        &self.id
    }
}

/// The value of a user who may be absent.
pub open spec fn opt_user(user: Option<User>) -> Option<UserView> {
    match user {
        Some(u) => Some(u@),
        None => None,
    }
}

/// Whether `t` holds a user with this `email`.
pub open spec fn has_email(t: Map<Seq<char>, UserView>, email: Seq<char>) -> bool {
    exists|k: Seq<char>| #[trigger] t.contains_key(k) && t[k].email == email
}

/// Whether no two users of `t` share an email, and each is filed under
/// their own `id`.
pub open spec fn users_valid(t: Map<Seq<char>, UserView>) -> bool {
    &&& forall|k: Seq<char>| #[trigger] t.contains_key(k) ==> t[k].id == k
    &&& forall|j: Seq<char>, k: Seq<char>|
        #![trigger t.contains_key(j), t.contains_key(k)]
        t.contains_key(j) && t.contains_key(k) && t[j].email == t[k].email ==> j == k
}

/// The user whom a read by `email` finds.
pub open spec fn by_email(t: Map<Seq<char>, UserView>, email: Seq<char>) -> Option<UserView> {
    if has_email(t, email) {
        Some(t[choose|k: Seq<char>| #[trigger] t.contains_key(k) && t[k].email == email])
    } else {
        None
    }
}

/// The user whom a read by `id` finds.
pub open spec fn by_id(t: Map<Seq<char>, UserView>, id: Seq<char>) -> Option<UserView> {
    if t.contains_key(id) {
        Some(t[id])
    } else {
        None
    }
}

/// The table after `user` was written, where neither the `id` nor the
/// email was taken.
pub open spec fn with_user(t: Map<Seq<char>, UserView>, user: UserView) -> Map<Seq<char>, UserView> {
    if t.contains_key(user.id) || has_email(t, user.email) {
        t
    } else {
        t.insert(user.id, user)
    }
}

/// In a valid table a read by email finds the one user who has it.
pub proof fn lemma_by_email_is_unique(t: Map<Seq<char>, UserView>, k: Seq<char>)
    requires
        users_valid(t),
        t.contains_key(k),
    ensures
        by_email(t, t[k].email) == Some(t[k]),
{
    let email = t[k].email;
    let c = choose|c: Seq<char>| #[trigger] t.contains_key(c) && t[c].email == email;
    assert(t.contains_key(c) && t[c].email == email);
    assert(c == k);
}

/// The `users` table.
pub struct UserTable {
    rows: Rows<User>,
}

impl View for UserTable {
    type V = Map<Seq<char>, UserView>;

    closed spec fn view(&self) -> Map<Seq<char>, UserView> {
        self.rows@
    }
}

impl UserTable {
    #[verifier::type_invariant]
    spec fn emails_unique(self) -> bool {
        users_valid(self.rows@)
    }

    /// The empty table.
    pub fn new() -> (table: UserTable)
        ensures
            table@ == Map::<Seq<char>, UserView>::empty(),
    {
        UserTable { rows: Rows::new() }
    }

    /// Reads the user `id`. Every table is valid, which a reader learns
    /// here.
    pub fn get(&self, id: &str) -> (user: Option<User>)
        ensures
            users_valid(self@),
            opt_user(user) == by_id(self@, id@),
    {
        proof {
            use_type_invariant(self);
        }
        let key = String::from_str(id);
        match self.rows.get(&key) {
            Some(user) => Some(user.copy()),
            None => None,
        }
    }

    /// Reads the user with this `email`.
    pub fn find_by_email(&self, email: &str) -> (user: Option<User>)
        ensures
            users_valid(self@),
            opt_user(user) == by_email(self@, email@),
    {
        proof {
            use_type_invariant(self);
        }
        let wanted = String::from_str(email);
        let n = self.rows.len();
        let mut i: usize = 0;
        while i < n
            invariant
                i <= n,
                n == self.rows.listing().len(),
                wanted@ == email@,
                users_valid(self.rows@),
                keys_distinct(self.rows.listing()),
                forall|j: int| 0 <= j < i ==> (#[trigger] self.rows.listing()[j])@.email != email@,
            decreases n - i,
        {
            let row = self.rows.at(i);
            if row.email == wanted {
                proof {
                    lemma_position(self.rows.listing(), i as int);
                    lemma_by_email_is_unique(self.rows@, row@.id);
                }
                return Some(row.copy());
            }
            i += 1;
        }
        proof {
            lemma_listing_covers(self.rows.listing());
            if has_email(self.rows@, email@) {
                let k = choose|k: Seq<char>| #[trigger]
                    self.rows@.contains_key(k) && self.rows@[k].email == email@;
                let j = choose|j: int|
                    0 <= j < self.rows.listing().len() && self.rows.listing()[j]@ == self.rows@[k];
                assert(self.rows.listing()[j]@.email != email@);
            }
        }
        None
    }

    /// Writes a new user. A user whose `id` or email is taken is refused:
    /// nothing is written and the result is `false`.
    pub fn insert(&mut self, user: User) -> (written: bool)
        ensures
            written == !(old(self)@.contains_key(user@.id) || has_email(old(self)@, user@.email)),
            final(self)@ == with_user(old(self)@, user@),
    {
        proof {
            use_type_invariant(&*self);
        }
        if self.rows.contains(&user.id) {
            return false;
        }
        if self.find_by_email(user.email.as_str()).is_some() {
            return false;
        }
        let mut rows: Rows<User> = Rows::new();
        core::mem::swap(&mut self.rows, &mut rows);
        let ghost before = rows@;
        rows.put(user);
        proof {
            let after = rows@;
            assert forall|j: Seq<char>, k: Seq<char>|
                #![trigger after.contains_key(j), after.contains_key(k)]
                after.contains_key(j) && after.contains_key(k) && after[j].email
                    == after[k].email implies j == k by {
                if j != k {
                    if j == user@.id {
                        assert(before.contains_key(k));
                    } else if k == user@.id {
                        assert(before.contains_key(j));
                    } else {
                        assert(before.contains_key(j) && before.contains_key(k));
                    }
                }
            }
        }
        core::mem::swap(&mut self.rows, &mut rows);
        true
    }
}

} // verus!
