//! The directory of identities.
//!
//! `Users` is the directory as a map from id to identity, and the functions
//! beside it say what creating, finding and verifying mean on that map.
//! `UserService` keeps the identities in memory and is proved to behave as
//! the map does.

use vstd::prelude::*;
use crate::error::{CustomError, ErrorKind};
use crate::ids::{object_id_of, parse_object_id};
use crate::models::user::{NewUser, NewUserRecord, User, UserRecord};
use crate::services::shelf::{Filed, Shelf};
use crate::text::{lowercase, lowercase_of, same_text};

verus! {

/// The directory: the identities by their id.
pub type Users = Map<Seq<char>, UserRecord>;

/// Every identity is filed under its own id, and no two share an email
/// address or a user name.
pub open spec fn users_wf(store: Users) -> bool {
    &&& forall|id: Seq<char>| #[trigger] store.contains_key(id) ==> store[id].id == id
    &&& forall|a: Seq<char>, b: Seq<char>|
        #![trigger store[a], store[b]]
        store.contains_key(a) && store.contains_key(b) && a != b ==> store[a].email
            != store[b].email && store[a].username != store[b].username
}

/// Whether an identity has this email address.
pub open spec fn email_taken(store: Users, email: Seq<char>) -> bool {
    exists|id: Seq<char>| store.contains_key(id) && #[trigger] store[id].email == email
}

/// Whether an identity has this user name.
pub open spec fn username_taken(store: Users, username: Seq<char>) -> bool {
    exists|id: Seq<char>| store.contains_key(id) && #[trigger] store[id].username == username
}

/// Creating an identity under `id`: refused, with the email address named,
/// when the id, the email address or the user name is taken.
pub open spec fn users_create(store: Users, record: NewUserRecord, id: Seq<char>) -> (
    Users,
    Result<Seq<char>, ErrorKind>,
) {
    if store.contains_key(id) || email_taken(store, record.email) || username_taken(
        store,
        record.username,
    ) {
        (store, Err(ErrorKind::DuplicateKey(record.email)))
    } else {
        (store.insert(id, record.stored(id)), Ok(id))
    }
}

/// Finding an identity by its email address, whatever the case the address
/// is written in.
pub open spec fn users_by_email(store: Users, email: Seq<char>) -> Result<UserRecord, ErrorKind> {
    let lower = lowercase_of(email);
    if email_taken(store, lower) {
        Ok(store[choose|id: Seq<char>| store.contains_key(id) && #[trigger] store[id].email == lower])
    } else {
        Err(ErrorKind::NotFoundError(email))
    }
}

/// Finding an identity by the text of its id.
pub open spec fn users_find(store: Users, id: Seq<char>) -> Result<UserRecord, ErrorKind> {
    match object_id_of(id) {
        None => Err(ErrorKind::InvalidIDError(id)),
        Some(key) => if store.contains_key(key) {
            Ok(store[key])
        } else {
            Err(ErrorKind::NotFoundError(id))
        },
    }
}

/// Marking the email address of an identity verified at `at`. An identity
/// that is not there is no failure: nothing is marked.
pub open spec fn users_verify(store: Users, id: Seq<char>, at: i64) -> (Users, Result<(), ErrorKind>) {
    match object_id_of(id) {
        None => (store, Err(ErrorKind::InvalidIDError(id))),
        Some(key) => if store.contains_key(key) {
            (store.insert(key, store[key].verified(at)), Ok(()))
        } else {
            (store, Ok(()))
        },
    }
}

/// A directory to which an identity is added under a free id, address and
/// name is still a directory.
pub proof fn lemma_user_added(users: Users, user: UserRecord)
    requires
        users_wf(users),
        !users.contains_key(user.id),
        !email_taken(users, user.email),
        !username_taken(users, user.username),
    ensures
        users_wf(users.insert(user.id, user)),
{
    let after = users.insert(user.id, user);
    assert forall|a: Seq<char>, b: Seq<char>|
        #![trigger after[a], after[b]]
        after.contains_key(a) && after.contains_key(b) && a != b implies after[a].email
        != after[b].email && after[a].username != after[b].username by {
        if a != user.id && b != user.id {
            assert(users[a].email != users[b].email);
        } else if a == user.id {
            assert(users.contains_key(b));
            assert(users[b].email != user.email);
            assert(users[b].username != user.username);
        } else {
            assert(users.contains_key(a));
            assert(users[a].email != user.email);
            assert(users[a].username != user.username);
        }
    }
}

/// A directory in which an identity is marked verified is still a directory.
pub proof fn lemma_user_marked(users: Users, id: Seq<char>, at: i64)
    requires
        users_wf(users),
        users.contains_key(id),
    ensures
        users_wf(users.insert(id, users[id].verified(at))),
{
    let after = users.insert(id, users[id].verified(at));
    assert forall|a: Seq<char>, b: Seq<char>|
        #![trigger after[a], after[b]]
        after.contains_key(a) && after.contains_key(b) && a != b implies after[a].email
        != after[b].email && after[a].username != after[b].username by {
        assert(users.contains_key(a) && users.contains_key(b));
        assert(users[a].email != users[b].email);
        assert(after[a].email == users[a].email && after[b].email == users[b].email);
        assert(after[a].username == users[a].username && after[b].username == users[b].username);
    }
}

/// In a directory, the identity with an address is the one that is found by
/// the address.
pub proof fn lemma_user_by_email(users: Users, id: Seq<char>, email: Seq<char>)
    requires
        users_wf(users),
        users.contains_key(id),
        users[id].email == lowercase_of(email),
    ensures
        users_by_email(users, email) == Ok::<_, ErrorKind>(users[id]),
{
    let chosen = choose|other: Seq<char>|
        users.contains_key(other) && #[trigger] users[other].email == lowercase_of(email);
    assert(users.contains_key(chosen) && users[chosen].email == lowercase_of(email));
    if chosen != id {
        assert(users[chosen].email != users[id].email);
    }
}

/// An identity that was stored under a free id, address and name is the one
/// that is found by its address, and the directory is still one.
pub proof fn lemma_stored_user_is_found(users: Users, user: UserRecord, email: Seq<char>)
    requires
        users_wf(users),
        !users.contains_key(user.id),
        !email_taken(users, user.email),
        !username_taken(users, user.username),
        user.email == lowercase_of(email),
    ensures
        users_wf(users.insert(user.id, user)),
        users_by_email(users.insert(user.id, user), email) == Ok::<_, ErrorKind>(user),
{
    lemma_user_added(users, user);
    lemma_user_by_email(users.insert(user.id, user), user.id, email);
}

/// Identities kept in memory.
pub struct UserService {
    shelf: Shelf<User>,
}

impl View for UserService {
    type V = Users;

    closed spec fn view(&self) -> Users {
        self.shelf@
    }
}

impl UserService {
    /// No two identities share an id, an email address or a user name.
    pub closed spec fn wf(self) -> bool {
        self.shelf.wf() && users_wf(self.shelf@)
    }

    /// The map that the records stand for is a directory.
    pub proof fn lemma_wf(self)
        requires
            self.wf(),
        ensures
            users_wf(self@),
    {
    }

    /// An empty directory.
    pub fn new() -> (store: UserService)
        ensures
            store.wf(),
            store@ == Map::<Seq<char>, UserRecord>::empty(),
    {
        UserService { shelf: Shelf::new() }
    }

    /// The place of the identity with this email address.
    fn locate_email(&self, email: &str) -> (r: Option<usize>)
        requires
            self.wf(),
        ensures
            match r {
                Some(i) => i < self.shelf.count() && self.shelf.at(i as int).email == email@,
                None => !email_taken(self@, email@),
            },
    {
        let n = self.shelf.len();
        let mut i: usize = 0;
        while i < n
            invariant
                i <= n,
                n == self.shelf.count(),
                forall|k: int| 0 <= k < i ==> self.shelf.at(k).email != email@,
            decreases n - i,
        {
            if same_text(self.shelf.get_at(i).email.as_str(), email) {
                return Some(i);
            }
            i += 1;
        }
        proof {
            self.shelf.lemma_entries();
            if email_taken(self@, email@) {
                let id = choose|id: Seq<char>| self@.contains_key(id) && self@[id].email == email@;
                let k = choose|k: int| 0 <= k < self.shelf.count() && self.shelf.at(k) == self@[id];
                assert(self.shelf.at(k).email == email@);
            }
        }
        None
    }

    /// Whether an identity has this user name.
    fn has_username(&self, username: &str) -> (r: bool)
        requires
            self.wf(),
        ensures
            r == username_taken(self@, username@),
    {
        let n = self.shelf.len();
        let mut i: usize = 0;
        while i < n
            invariant
                i <= n,
                n == self.shelf.count(),
                self.wf(),
                forall|k: int| 0 <= k < i ==> self.shelf.at(k).username != username@,
            decreases n - i,
        {
            if same_text(self.shelf.get_at(i).username.as_str(), username) {
                proof {
                    self.shelf.lemma_entries();
                    let id = self.shelf.at(i as int).id;
                    assert(self@.contains_key(id) && self@[id].username == username@);
                }
                return true;
            }
            i += 1;
        }
        proof {
            self.shelf.lemma_entries();
            if username_taken(self@, username@) {
                let id = choose|id: Seq<char>|
                    self@.contains_key(id) && self@[id].username == username@;
                let k = choose|k: int| 0 <= k < self.shelf.count() && self.shelf.at(k) == self@[id];
                assert(self.shelf.at(k).username == username@);
            }
        }
        false
    }

    /// Stores the identity under the id `id` and returns the id, or refuses
    /// with `DuplicateKey` and the email address when the id, the email
    /// address or the user name is taken.
    pub fn create_user(&mut self, data: &NewUser, id: String) -> (r: Result<String, CustomError>)
        requires
            old(self).wf(),
        ensures
            final(self).wf(),
            match r {
                Ok(stored) => (final(self)@, Ok::<_, ErrorKind>(stored@)) == users_create(
                    old(self)@,
                    data@,
                    id@,
                ),
                Err(e) => (final(self)@, Err::<Seq<char>, _>(e@)) == users_create(
                    old(self)@,
                    data@,
                    id@,
                ),
            },
    {
        let taken = match self.locate_email(data.email.as_str()) {
            Some(i) => {
                proof {
                    self.shelf.lemma_entries();
                    let other = self.shelf.at(i as int).id;
                    assert(self@.contains_key(other) && self@[other].email == data.email@);
                }
                true
            },
            None => false,
        };
        if taken || self.has_username(data.username.as_str()) {
            return Err(CustomError::DuplicateKey(data.email.clone()));
        }
        proof {
            lemma_user_added_if_free(self@, data@.stored(id@));
        }
        if self.shelf.put(data.stored(id.clone())) {
            Ok(id)
        } else {
            Err(CustomError::DuplicateKey(data.email.clone()))
        }
    }

    /// Sets the email-verified flag of the identity and notes `at` as the
    /// time of the change. An id that is none fails with `InvalidIDError`.
    pub fn update_email_verified(&mut self, user_id: &str, at: i64) -> (r: Result<(), CustomError>)
        requires
            old(self).wf(),
        ensures
            final(self).wf(),
            match r {
                Ok(()) => (final(self)@, Ok::<(), ErrorKind>(())) == users_verify(
                    old(self)@,
                    user_id@,
                    at,
                ),
                Err(e) => (final(self)@, Err::<(), _>(e@)) == users_verify(old(self)@, user_id@, at),
            },
    {
        let id = match parse_object_id(user_id) {
            Some(id) => id,
            None => return Err(CustomError::InvalidIDError(user_id.to_owned())),
        };
        match self.shelf.find(id.as_str()) {
            None => Ok(()),
            Some(user) => {
                proof {
                    self.shelf.lemma_entries();
                    lemma_user_marked(self@, id@, at);
                }
                let mut marked = user;
                marked.is_email_verified = true;
                marked.updated_at = at;
                self.shelf.replace(marked);
                Ok(())
            },
        }
    }

    /// The identity with this id: `InvalidIDError` for an id that is none,
    /// `NotFoundError` when no identity has it.
    pub fn get_user_by_id(&self, id: &str) -> (r: Result<User, CustomError>)
        requires
            self.wf(),
        ensures
            match r {
                Ok(user) => users_find(self@, id@) == Ok::<_, ErrorKind>(user@),
                Err(e) => users_find(self@, id@) == Err::<UserRecord, _>(e@),
            },
    {
        let key = match parse_object_id(id) {
            Some(key) => key,
            None => return Err(CustomError::InvalidIDError(id.to_owned())),
        };
        match self.shelf.find(key.as_str()) {
            Some(user) => Ok(user),
            None => Err(CustomError::NotFoundError(id.to_owned())),
        }
    }

    /// The identity with this email address, whatever the case it is
    /// written in; `NotFoundError` with the address when there is none.
    pub fn get_user_by_email(&self, email: &str) -> (r: Result<User, CustomError>)
        requires
            self.wf(),
        ensures
            match r {
                Ok(user) => users_by_email(self@, email@) == Ok::<_, ErrorKind>(user@),
                Err(e) => users_by_email(self@, email@) == Err::<UserRecord, _>(e@),
            },
    {
        let lower = lowercase(email);
        match self.locate_email(lower.as_str()) {
            Some(i) => {
                proof {
                    self.shelf.lemma_entries();
                    lemma_user_by_email(self@, self.shelf.at(i as int).id, email@);
                }
                Ok(self.shelf.get_at(i).duplicate())
            },
            None => Err(CustomError::NotFoundError(email.to_owned())),
        }
    }
}

/// Adding an identity whose address and name are free keeps the directory
/// one, if the id is free too.
proof fn lemma_user_added_if_free(users: Users, user: UserRecord)
    requires
        users_wf(users),
        !email_taken(users, user.email),
        !username_taken(users, user.username),
    ensures
        !users.contains_key(user.id) ==> users_wf(users.insert(user.id, user)),
{
    if !users.contains_key(user.id) {
        lemma_user_added(users, user);
    }
}

} // verus!
