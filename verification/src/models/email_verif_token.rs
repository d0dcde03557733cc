//! The record kept for every email-verification token that was issued. The
//! token itself is never stored, only its digest.

use vstd::prelude::*;
use crate::services::shelf::Filed;

verus! {

/// Name of the collection that holds the records.
pub const EMAIL_VERIF_TOKENS_COLL: &'static str = "email_verif_tokens";

/// A stored email-verification record.
#[derive(Debug, Clone, PartialEq, Eq)]
pub struct EmailVerifToken {
    pub id: String,
    pub user_id: String,
    pub token_hash: String,
    pub expires_at: i64,
    pub created_at: i64,
    pub used_at: Option<i64>,
}

/// A record that is about to be stored. It is not used yet.
#[derive(Debug, Clone, PartialEq, Eq)]
pub struct NewEmailVerifToken {
    pub user_id: String,
    pub token_hash: String,
    pub expires_at: i64,
    pub created_at: i64,
}

/// What an `EmailVerifToken` says.
pub struct EmailVerifTokenRecord {
    pub id: Seq<char>,
    pub user_id: Seq<char>,
    pub token_hash: Seq<char>,
    pub expires_at: i64,
    pub created_at: i64,
    pub used_at: Option<i64>,
}

/// What a `NewEmailVerifToken` says.
pub struct NewEmailVerifTokenRecord {
    pub user_id: Seq<char>,
    pub token_hash: Seq<char>,
    pub expires_at: i64,
    pub created_at: i64,
}

impl View for EmailVerifToken {
    type V = EmailVerifTokenRecord;

    open spec fn view(&self) -> EmailVerifTokenRecord {
        EmailVerifTokenRecord {
            id: self.id@,
            user_id: self.user_id@,
            token_hash: self.token_hash@,
            expires_at: self.expires_at,
            created_at: self.created_at,
            used_at: self.used_at,
        }
    }
}

impl View for NewEmailVerifToken {
    type V = NewEmailVerifTokenRecord;

    open spec fn view(&self) -> NewEmailVerifTokenRecord {
        NewEmailVerifTokenRecord {
            user_id: self.user_id@,
            token_hash: self.token_hash@,
            expires_at: self.expires_at,
            created_at: self.created_at,
        }
    }
}

impl EmailVerifTokenRecord {
    /// Whether the record can still be consumed by `user_id` at `now`.
    pub open spec fn consumable(self, user_id: Seq<char>, now: i64) -> bool {
        &&& self.user_id == user_id
        &&& self.used_at is None
        &&& self.expires_at > now
    }

    /// The record after it was consumed at `at`.
    pub open spec fn consumed(self, at: i64) -> EmailVerifTokenRecord {
        EmailVerifTokenRecord { used_at: Some(at), ..self }
    }
}

impl NewEmailVerifTokenRecord {
    /// An unused record for `user_id`, created at `now`.
    pub open spec fn unused(
        user_id: Seq<char>,
        token_hash: Seq<char>,
        now: i64,
        expires_at: i64,
    ) -> NewEmailVerifTokenRecord {
        NewEmailVerifTokenRecord { user_id, token_hash, expires_at, created_at: now }
    }

    /// The record as it is stored under `id`: unused.
    pub open spec fn stored(self, id: Seq<char>) -> EmailVerifTokenRecord {
        EmailVerifTokenRecord {
            id,
            user_id: self.user_id,
            token_hash: self.token_hash,
            expires_at: self.expires_at,
            created_at: self.created_at,
            used_at: None,
        }
    }
}

impl Filed for EmailVerifToken {
    open spec fn key_of(record: EmailVerifTokenRecord) -> Seq<char> {
        record.token_hash
    }

    fn key(&self) -> (key: &str) {
        self.token_hash.as_str()
    }

    fn duplicate(&self) -> (copy: EmailVerifToken) {
        EmailVerifToken {
            id: self.id.clone(),
            user_id: self.user_id.clone(),
            token_hash: self.token_hash.clone(),
            expires_at: self.expires_at,
            created_at: self.created_at,
            used_at: self.used_at,
        }
    }
}

impl NewEmailVerifToken {
    /// An unused record for `user_id`, created at `now`.
    pub fn unused(user_id: String, token_hash: String, now: i64, expires_at: i64) -> (r:
        NewEmailVerifToken)
        ensures
            r@ == NewEmailVerifTokenRecord::unused(user_id@, token_hash@, now, expires_at),
    {
        NewEmailVerifToken { user_id, token_hash, expires_at, created_at: now }
    }

    /// The record as it is stored under `id`: unused.
    pub fn stored(&self, id: String) -> (r: EmailVerifToken)
        ensures
            r@ == self@.stored(id@),
    {
        EmailVerifToken {
            id,
            user_id: self.user_id.clone(),
            token_hash: self.token_hash.clone(),
            expires_at: self.expires_at,
            created_at: self.created_at,
            used_at: None,
        }
    }
}

} // verus!
