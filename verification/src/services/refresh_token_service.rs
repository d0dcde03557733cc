//! The store of refresh-token records.
//!
//! `RefreshTokens` is the store as a map from `jti` to record, and the three
//! functions beside it say what creating, finding and revoking mean on that
//! map. `RefreshTokenService` keeps the records in memory and is proved to
//! behave as the map does; any other backing store has to do the same, with
//! the revocation as one atomic conditional update.

use vstd::prelude::*;
use crate::error::{CustomError, ErrorKind};
use crate::models::refresh_token::{NewRefreshToken, NewRefreshTokenRecord, RefreshToken, RefreshTokenRecord};
use crate::services::shelf::Shelf;

verus! {

/// The store of record: the records by their `jti`.
pub type RefreshTokens = Map<Seq<char>, RefreshTokenRecord>;

/// What a conditional revocation did.
#[derive(Debug, Clone, Copy, PartialEq, Eq, Structural)]
pub enum RevokeOutcome {
    /// The record was active and is revoked now.
    Revoked,
    /// No active record carries the `jti`: it was revoked before, or is gone.
    AlreadyRevoked,
}

/// Every record is filed under its own `jti`.
pub open spec fn refresh_tokens_wf(store: RefreshTokens) -> bool {
    forall|jti: Seq<char>| #[trigger] store.contains_key(jti) ==> store[jti].token == jti
}

/// Creating a record: refused when the `jti` is taken, else filed under `id`.
pub open spec fn refresh_tokens_create(
    store: RefreshTokens,
    record: NewRefreshTokenRecord,
    id: Seq<char>,
) -> (RefreshTokens, Result<Seq<char>, ErrorKind>) {
    if store.contains_key(record.token) {
        (store, Err(ErrorKind::DuplicateKey(record.token)))
    } else {
        (store.insert(record.token, record.stored(id)), Ok(id))
    }
}

/// Finding a record by its `jti`.
pub open spec fn refresh_tokens_find(store: RefreshTokens, jti: Seq<char>) -> Result<
    RefreshTokenRecord,
    ErrorKind,
> {
    if store.contains_key(jti) {
        Ok(store[jti])
    } else {
        Err(ErrorKind::NotFoundError(jti))
    }
}

/// Revoking a record if it is active, in one step: an active record becomes
/// revoked and used at `at`; anything else leaves the store as it is.
pub open spec fn refresh_tokens_revoke(store: RefreshTokens, jti: Seq<char>, at: i64) -> (
    RefreshTokens,
    RevokeOutcome,
) {
    if store.contains_key(jti) && !store[jti].is_revoked {
        (store.insert(jti, store[jti].revoked(at)), RevokeOutcome::Revoked)
    } else {
        (store, RevokeOutcome::AlreadyRevoked)
    }
}

/// What a conditional revocation did, told by the number of records that it
/// changed: it revoked the record if it changed one.
pub open spec fn outcome_of(modified: u64) -> RevokeOutcome {
    if modified > 0 {
        RevokeOutcome::Revoked
    } else {
        RevokeOutcome::AlreadyRevoked
    }
}

/// What a conditional revocation did, told by the number of records that it
/// changed.
pub fn revoke_outcome(modified: u64) -> (outcome: RevokeOutcome)
    ensures
        outcome == outcome_of(modified),
{
    if modified > 0 {
        RevokeOutcome::Revoked
    } else {
        RevokeOutcome::AlreadyRevoked
    }
}

/// Refresh-token records kept in memory.
pub struct RefreshTokenService {
    shelf: Shelf<RefreshToken>,
}

impl View for RefreshTokenService {
    type V = RefreshTokens;

    closed spec fn view(&self) -> RefreshTokens {
        self.shelf@
    }
}

impl RefreshTokenService {
    /// No two records share a `jti`.
    pub closed spec fn wf(self) -> bool {
        self.shelf.wf()
    }

    /// The map that the records stand for files each under its own `jti`.
    pub proof fn lemma_wf(self)
        requires
            self.wf(),
        ensures
            refresh_tokens_wf(self@),
    {
        self.shelf.lemma_entries();
    }

    /// An empty store.
    pub fn new() -> (store: RefreshTokenService)
        ensures
            store.wf(),
            store@ == Map::<Seq<char>, RefreshTokenRecord>::empty(),
    {
        RefreshTokenService { shelf: Shelf::new() }
    }

    /// The record filed under `jti`, or `NotFoundError` with the `jti`.
    pub fn get_token_by_jti(&self, jti: &str) -> (r: Result<RefreshToken, CustomError>)
        requires
            self.wf(),
        ensures
            match r {
                Ok(record) => refresh_tokens_find(self@, jti@) == Ok::<_, ErrorKind>(record@),
                Err(e) => refresh_tokens_find(self@, jti@) == Err::<RefreshTokenRecord, _>(e@),
            },
    {
        match self.shelf.find(jti) {
            Some(record) => Ok(record),
            None => Err(CustomError::NotFoundError(jti.to_owned())),
        }
    }

    /// Files `data` under the identifier `id` and returns the identifier, or
    /// refuses with `DuplicateKey` when the `jti` is taken.
    pub fn create_token(&mut self, data: &NewRefreshToken, id: String) -> (r: Result<
        String,
        CustomError,
    >)
        requires
            old(self).wf(),
        ensures
            final(self).wf(),
            match r {
                Ok(stored) => (final(self)@, Ok::<_, ErrorKind>(stored@)) == refresh_tokens_create(
                    old(self)@,
                    data@,
                    id@,
                ),
                Err(e) => (final(self)@, Err::<Seq<char>, _>(e@)) == refresh_tokens_create(
                    old(self)@,
                    data@,
                    id@,
                ),
            },
    {
        if self.shelf.put(data.stored(id.clone())) {
            Ok(id)
        } else {
            Err(CustomError::DuplicateKey(data.token.clone()))
        }
    }

    /// Revokes the record filed under `jti` if it is active, marking it used
    /// at `revoked_at`, and says which of the two it was.
    pub fn revoke_token(&mut self, jti: &str, revoked_at: i64) -> (r: Result<
        RevokeOutcome,
        CustomError,
    >)
        requires
            old(self).wf(),
        ensures
            final(self).wf(),
            r matches Ok(outcome) && (final(self)@, outcome) == refresh_tokens_revoke(
                old(self)@,
                jti@,
                revoked_at,
            ),
    {
        proof {
            self.shelf.lemma_entries();
        }
        match self.shelf.find(jti) {
            None => Ok(RevokeOutcome::AlreadyRevoked),
            Some(record) => if record.is_revoked {
                Ok(RevokeOutcome::AlreadyRevoked)
            } else {
                let mut revoked = record;
                revoked.is_revoked = true;
                revoked.used_at = Some(revoked_at);
                self.shelf.replace(revoked);
                Ok(RevokeOutcome::Revoked)
            },
        }
    }

    /// How many records the store holds.
    pub fn len(&self) -> (n: usize)
        requires
            self.wf(),
        ensures
            n == self@.len(),
            self@.dom().finite(),
    {
        self.shelf.len()
    }
}

} // verus!
