//! The store of email-verification records.
//!
//! `VerifTokens` is the store as a map from token digest to record, and the
//! two functions beside it say what creating and consuming mean on that map.
//! `VerifEmailTokenService` keeps the records in memory and is proved to
//! behave as the map does; any other backing store has to do the same, with
//! the consumption as one atomic conditional update.

use vstd::prelude::*;
use crate::error::{CustomError, ErrorKind};
use crate::ids::{object_id_of, parse_object_id};
use crate::models::email_verif_token::{EmailVerifToken, EmailVerifTokenRecord, NewEmailVerifToken, NewEmailVerifTokenRecord};
use crate::services::shelf::Shelf;
use crate::text::same_text;

verus! {

/// The store of record: the records by their token digest.
pub type VerifTokens = Map<Seq<char>, EmailVerifTokenRecord>;

/// Every record is filed under its own digest.
pub open spec fn verif_tokens_wf(store: VerifTokens) -> bool {
    forall|hash: Seq<char>| #[trigger] store.contains_key(hash) ==> store[hash].token_hash == hash
}

/// Creating a record: refused when the digest is taken, else filed under
/// `id`.
pub open spec fn verif_tokens_create(
    store: VerifTokens,
    record: NewEmailVerifTokenRecord,
    id: Seq<char>,
) -> (VerifTokens, Result<Seq<char>, ErrorKind>) {
    if store.contains_key(record.token_hash) {
        (store, Err(ErrorKind::DuplicateKey(record.token_hash)))
    } else {
        (store.insert(record.token_hash, record.stored(id)), Ok(id))
    }
}

/// Consuming a token at `now`, in one step: the record under the digest is
/// marked used if it is the user's, unused and unexpired; anything else is
/// an invalid token and leaves the store as it is. A `user_id` that is no
/// object id is the user of no record, and an invalid token like the rest.
pub open spec fn verif_tokens_consume(
    store: VerifTokens,
    token_hash: Seq<char>,
    user_id: Seq<char>,
    now: i64,
) -> (VerifTokens, Result<(), ErrorKind>) {
    match object_id_of(user_id) {
        None => (store, Err(ErrorKind::InvalidToken)),
        Some(id) => if store.contains_key(token_hash) && store[token_hash].consumable(id, now) {
            (store.insert(token_hash, store[token_hash].consumed(now)), Ok(()))
        } else {
            (store, Err(ErrorKind::InvalidToken))
        },
    }
}

/// Email-verification records kept in memory.
pub struct VerifEmailTokenService {
    shelf: Shelf<EmailVerifToken>,
}

impl View for VerifEmailTokenService {
    type V = VerifTokens;

    closed spec fn view(&self) -> VerifTokens {
        self.shelf@
    }
}

impl VerifEmailTokenService {
    /// No two records share a digest.
    pub closed spec fn wf(self) -> bool {
        self.shelf.wf()
    }

    /// The map that the records stand for files each under its own digest.
    pub proof fn lemma_wf(self)
        requires
            self.wf(),
        ensures
            verif_tokens_wf(self@),
    {
        self.shelf.lemma_entries();
    }

    /// An empty store.
    pub fn new() -> (store: VerifEmailTokenService)
        ensures
            store.wf(),
            store@ == Map::<Seq<char>, EmailVerifTokenRecord>::empty(),
    {
        VerifEmailTokenService { shelf: Shelf::new() }
    }

    /// Files `data` under the identifier `id` and returns the identifier, or
    /// refuses with `DuplicateKey` when the digest is taken.
    pub fn create_token(&mut self, data: &NewEmailVerifToken, id: String) -> (r: Result<
        String,
        CustomError,
    >)
        requires
            old(self).wf(),
        ensures
            final(self).wf(),
            match r {
                Ok(stored) => (final(self)@, Ok::<_, ErrorKind>(stored@)) == verif_tokens_create(
                    old(self)@,
                    data@,
                    id@,
                ),
                Err(e) => (final(self)@, Err::<Seq<char>, _>(e@)) == verif_tokens_create(
                    old(self)@,
                    data@,
                    id@,
                ),
            },
    {
        if self.shelf.put(data.stored(id.clone())) {
            Ok(id)
        } else {
            Err(CustomError::DuplicateKey(data.token_hash.clone()))
        }
    }

    /// Consumes the token with digest `token_hash` for `user_id` at `now`:
    /// marks the record used if it is the user's, unused and unexpired, and
    /// fails with `InvalidToken` otherwise, without saying which it was.
    pub fn find_valid_token_then_update(&mut self, token_hash: &str, user_id: &str, now: i64) -> (r:
        Result<(), CustomError>)
        requires
            old(self).wf(),
        ensures
            final(self).wf(),
            match r {
                Ok(()) => (final(self)@, Ok::<(), ErrorKind>(())) == verif_tokens_consume(
                    old(self)@,
                    token_hash@,
                    user_id@,
                    now,
                ),
                Err(e) => (final(self)@, Err::<(), _>(e@)) == verif_tokens_consume(
                    old(self)@,
                    token_hash@,
                    user_id@,
                    now,
                ),
            },
    {
        proof {
            self.shelf.lemma_entries();
        }
        let id = match parse_object_id(user_id) {
            Some(id) => id,
            None => return Err(CustomError::InvalidToken),
        };
        let record = match self.shelf.find(token_hash) {
            Some(record) => record,
            None => return Err(CustomError::InvalidToken),
        };
        if !same_text(record.user_id.as_str(), id.as_str()) || record.used_at.is_some()
            || record.expires_at <= now {
            return Err(CustomError::InvalidToken);
        }
        let mut consumed = record;
        consumed.used_at = Some(now);
        self.shelf.replace(consumed);
        Ok(())
    }
}

} // verus!
