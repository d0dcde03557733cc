//! The record kept for every refresh token that was issued.
//!
//! Instants are milliseconds since the Unix epoch, identifiers are the
//! 24-digit hexadecimal form of an object id.

use vstd::prelude::*;
use crate::services::shelf::Filed;

verus! {

/// Name of the collection that holds the records.
pub const REFRESH_TOKENS_COLL: &'static str = "refresh_tokens";

/// A stored refresh-token record. `token` is the token's `jti`.
#[derive(Debug, Clone, PartialEq, Eq)]
pub struct RefreshToken {
    pub id: String,
    pub user_id: String,
    pub token: String,
    pub is_revoked: bool,
    pub created_at: i64,
    pub expires_at: i64,
    pub used_at: Option<i64>,
}

/// A record that is about to be stored.
#[derive(Debug, Clone, PartialEq, Eq)]
pub struct NewRefreshToken {
    pub user_id: String,
    pub token: String,
    pub is_revoked: bool,
    pub created_at: i64,
    pub expires_at: i64,
    pub used_at: Option<i64>,
}

/// What a `RefreshToken` says.
pub struct RefreshTokenRecord {
    pub id: Seq<char>,
    pub user_id: Seq<char>,
    pub token: Seq<char>,
    pub is_revoked: bool,
    pub created_at: i64,
    pub expires_at: i64,
    pub used_at: Option<i64>,
}

/// What a `NewRefreshToken` says.
pub struct NewRefreshTokenRecord {
    pub user_id: Seq<char>,
    pub token: Seq<char>,
    pub is_revoked: bool,
    pub created_at: i64,
    pub expires_at: i64,
    pub used_at: Option<i64>,
}

impl View for RefreshToken {
    type V = RefreshTokenRecord;

    open spec fn view(&self) -> RefreshTokenRecord {
        RefreshTokenRecord {
            id: self.id@,
            user_id: self.user_id@,
            token: self.token@,
            is_revoked: self.is_revoked,
            created_at: self.created_at,
            expires_at: self.expires_at,
            used_at: self.used_at,
        }
    }
}

impl View for NewRefreshToken {
    type V = NewRefreshTokenRecord;

    open spec fn view(&self) -> NewRefreshTokenRecord {
        NewRefreshTokenRecord {
            user_id: self.user_id@,
            token: self.token@,
            is_revoked: self.is_revoked,
            created_at: self.created_at,
            expires_at: self.expires_at,
            used_at: self.used_at,
        }
    }
}

impl RefreshTokenRecord {
    /// A record is used exactly when it is revoked.
    pub open spec fn consistent(self) -> bool {
        self.used_at is Some <==> self.is_revoked
    }

    /// The record after it was revoked at `at`.
    pub open spec fn revoked(self, at: i64) -> RefreshTokenRecord {
        RefreshTokenRecord { is_revoked: true, used_at: Some(at), ..self }
    }
}

impl NewRefreshTokenRecord {
    /// An active record for `user_id` under `jti`, created at `now`.
    pub open spec fn active(
        user_id: Seq<char>,
        jti: Seq<char>,
        now: i64,
        expires_at: i64,
    ) -> NewRefreshTokenRecord {
        NewRefreshTokenRecord {
            user_id,
            token: jti,
            is_revoked: false,
            created_at: now,
            expires_at,
            used_at: None,
        }
    }

    /// The record as it is stored under `id`.
    pub open spec fn stored(self, id: Seq<char>) -> RefreshTokenRecord {
        RefreshTokenRecord {
            id,
            user_id: self.user_id,
            token: self.token,
            is_revoked: self.is_revoked,
            created_at: self.created_at,
            expires_at: self.expires_at,
            used_at: self.used_at,
        }
    }
}

impl Filed for RefreshToken {
    open spec fn key_of(record: RefreshTokenRecord) -> Seq<char> {
        record.token
    }

    fn key(&self) -> (key: &str) {
        self.token.as_str()
    }

    fn duplicate(&self) -> (copy: RefreshToken) {
        RefreshToken {
            id: self.id.clone(),
            user_id: self.user_id.clone(),
            token: self.token.clone(),
            is_revoked: self.is_revoked,
            created_at: self.created_at,
            expires_at: self.expires_at,
            used_at: self.used_at,
        }
    }
}

impl NewRefreshToken {
    /// An active record for `user_id` under `jti`, created at `now`.
    pub fn active(user_id: String, jti: String, now: i64, expires_at: i64) -> (r: NewRefreshToken)
        ensures
            r@ == NewRefreshTokenRecord::active(user_id@, jti@, now, expires_at),
    {
        NewRefreshToken {
            user_id,
            token: jti,
            is_revoked: false,
            created_at: now,
            expires_at,
            used_at: None,
        }
    }

    /// The record as it is stored under `id`.
    pub fn stored(&self, id: String) -> (r: RefreshToken)
        ensures
            r@ == self@.stored(id@),
    {
        RefreshToken {
            id,
            user_id: self.user_id.clone(),
            token: self.token.clone(),
            is_revoked: self.is_revoked,
            created_at: self.created_at,
            expires_at: self.expires_at,
            used_at: self.used_at,
        }
    }
}

} // verus!
