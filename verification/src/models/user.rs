//! The identity record of the user directory.

use vstd::prelude::*;
use crate::services::shelf::Filed;

verus! {

/// Name of the collection that holds the records.
pub const USERS_COLL: &'static str = "users";

/// A stored identity. `password` holds the encoded password hash.
#[derive(Debug, Clone, PartialEq, Eq)]
pub struct User {
    pub id: String,
    pub username: String,
    pub email: String,
    pub password: String,
    pub is_email_verified: bool,
    pub last_login_at: i64,
    pub created_at: i64,
    pub updated_at: i64,
}

/// An identity that is about to be stored.
#[derive(Debug, Clone, PartialEq, Eq)]
pub struct NewUser {
    pub username: String,
    pub email: String,
    pub password: String,
    pub is_email_verified: bool,
    pub last_login_at: i64,
    pub created_at: i64,
    pub updated_at: i64,
}

/// What a `User` says.
pub struct UserRecord {
    pub id: Seq<char>,
    pub username: Seq<char>,
    pub email: Seq<char>,
    pub password: Seq<char>,
    pub is_email_verified: bool,
    pub last_login_at: i64,
    pub created_at: i64,
    pub updated_at: i64,
}

/// What a `NewUser` says.
pub struct NewUserRecord {
    pub username: Seq<char>,
    pub email: Seq<char>,
    pub password: Seq<char>,
    pub is_email_verified: bool,
    pub last_login_at: i64,
    pub created_at: i64,
    pub updated_at: i64,
}

impl View for User {
    type V = UserRecord;

    open spec fn view(&self) -> UserRecord {
        UserRecord {
            id: self.id@,
            username: self.username@,
            email: self.email@,
            password: self.password@,
            is_email_verified: self.is_email_verified,
            last_login_at: self.last_login_at,
            created_at: self.created_at,
            updated_at: self.updated_at,
        }
    }
}

impl View for NewUser {
    type V = NewUserRecord;

    open spec fn view(&self) -> NewUserRecord {
        NewUserRecord {
            username: self.username@,
            email: self.email@,
            password: self.password@,
            is_email_verified: self.is_email_verified,
            last_login_at: self.last_login_at,
            created_at: self.created_at,
            updated_at: self.updated_at,
        }
    }
}

impl UserRecord {
    /// The identity after its email address was confirmed at `at`.
    pub open spec fn verified(self, at: i64) -> UserRecord {
        UserRecord { is_email_verified: true, updated_at: at, ..self }
    }
}

impl NewUserRecord {
    /// A fresh, unverified identity that joined at `now`.
    pub open spec fn joined(
        username: Seq<char>,
        email: Seq<char>,
        password_hash: Seq<char>,
        now: i64,
    ) -> NewUserRecord {
        NewUserRecord {
            username,
            email,
            password: password_hash,
            is_email_verified: false,
            last_login_at: now,
            created_at: now,
            updated_at: now,
        }
    }

    /// The identity as it is stored under `id`.
    pub open spec fn stored(self, id: Seq<char>) -> UserRecord {
        UserRecord {
            id,
            username: self.username,
            email: self.email,
            password: self.password,
            is_email_verified: self.is_email_verified,
            last_login_at: self.last_login_at,
            created_at: self.created_at,
            updated_at: self.updated_at,
        }
    }
}

impl Filed for User {
    open spec fn key_of(record: UserRecord) -> Seq<char> {
        record.id
    }

    fn key(&self) -> (key: &str) {
        self.id.as_str()
    }

    fn duplicate(&self) -> (copy: User) {
        User {
            id: self.id.clone(),
            username: self.username.clone(),
            email: self.email.clone(),
            password: self.password.clone(),
            is_email_verified: self.is_email_verified,
            last_login_at: self.last_login_at,
            created_at: self.created_at,
            updated_at: self.updated_at,
        }
    }
}

impl NewUser {
    /// A fresh, unverified identity that joined at `now`.
    pub fn joined(username: String, email: String, password_hash: String, now: i64) -> (r: NewUser)
        ensures
            r@ == NewUserRecord::joined(username@, email@, password_hash@, now),
    {
        NewUser {
            username,
            email,
            password: password_hash,
            is_email_verified: false,
            last_login_at: now,
            created_at: now,
            updated_at: now,
        }
    }

    /// The identity as it is stored under `id`.
    pub fn stored(&self, id: String) -> (r: User)
        ensures
            r@ == self@.stored(id@),
    {
        User {
            id,
            username: self.username.clone(),
            email: self.email.clone(),
            password: self.password.clone(),
            is_email_verified: self.is_email_verified,
            last_login_at: self.last_login_at,
            created_at: self.created_at,
            updated_at: self.updated_at,
        }
    }
}

} // verus!
