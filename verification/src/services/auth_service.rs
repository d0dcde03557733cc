//! The service that hashes passwords and signs, decodes and draws tokens.

use vstd::prelude::*;
use vstd::string::*;
use vstd::utf8::encode_utf8;
use crate::digest::{hash_verification_token, hex_encode, hex_lower, os_random_32, token_digest};
use crate::dtos::auth_dto::{AuthResDto, TokenPair};
use crate::error::{CustomError, ErrorKind};
use crate::json::JsonObject;
use crate::services::jwt::{Members, decode_eddsa, ed_key_signs, ed_token_verifies, members_of, new_jti, sign_eddsa, token_claims};
use crate::services::password::{PasswordCheck, argon2_check, argon2_hash, argon2_verify, phc_parts, phc_shape};
use crate::types::claims::{Claims, ClaimsView};
use crate::types::keys::Keys;
use crate::types::refresh_claims::{RefreshClaims, RefreshClaimsView};
use crate::utils::now_epoch;

verus! {

/// How long an access token lives, in seconds: a quarter of an hour.
pub const ACCESS_EXP_MINUTES: u32 = 15 * 60;

/// How long a refresh token lives, in seconds: seven days.
pub const REFRESH_EXP_DAYS: u32 = 7 * 24 * 3600;

/// How long an email-verification token lives, in seconds: an hour.
pub const EMAIL_VERIFICATION_EXP_MINUTES: u32 = 3600;

/// A new pair of tokens with the `jti` and the expiry, in seconds since the
/// Unix epoch, of its refresh token.
pub type Issued = (AuthResDto, String, usize);

/// The signing key pair and the audience and issuer that every token names.
pub struct AuthService {
    pub keys: Keys,
    pub audience: String,
    pub issuer: String,
}

/// The claims of an access token for `subject` issued at `now`, unless the
/// expiry is beyond what the machine can count.
pub open spec fn access_claims_at(
    subject: Seq<char>,
    now: usize,
    audience: Seq<char>,
    issuer: Seq<char>,
) -> Option<ClaimsView> {
    if now + ACCESS_EXP_MINUTES <= usize::MAX {
        Some(
            ClaimsView {
                sub: subject,
                exp: (now + ACCESS_EXP_MINUTES) as usize,
                aud: audience,
                iss: issuer,
            },
        )
    } else {
        None
    }
}

/// The claims of a refresh token for `subject` issued at `now` under `jti`,
/// unless the expiry is beyond what the machine can count.
pub open spec fn refresh_claims_at(
    subject: Seq<char>,
    now: usize,
    jti: Seq<char>,
    audience: Seq<char>,
    issuer: Seq<char>,
) -> Option<RefreshClaimsView> {
    if now + REFRESH_EXP_DAYS <= usize::MAX {
        Some(
            RefreshClaimsView {
                sub: subject,
                exp: (now + REFRESH_EXP_DAYS) as usize,
                jti,
                aud: audience,
                iss: issuer,
            },
        )
    } else {
        None
    }
}

/// What a password check means to the caller: a match is fine, a mismatch
/// is a wrong password, an unusable hash is a fault of the stored hash.
pub open spec fn credential_spec(check: PasswordCheck) -> Result<(), ErrorKind> {
    match check {
        PasswordCheck::Match => Ok(()),
        PasswordCheck::Mismatch => Err(ErrorKind::WrongCredentials),
        PasswordCheck::Unusable => Err(ErrorKind::HashError),
    }
}

/// Whether a stored hash is whole: it can be read, and carries both its
/// salt and the hash itself.
pub open spec fn hash_is_whole(parts: Option<(bool, bool)>) -> bool {
    parts matches Some(p) && p.0 && p.1
}

/// What verifying the password against the stored hash comes to: a stored
/// hash that is not whole is a `HashError`, whatever the password.
pub open spec fn verify_password_spec(password: Seq<char>, password_hash: Seq<char>) -> Result<
    (),
    ErrorKind,
> {
    if hash_is_whole(phc_parts(password_hash)) {
        credential_spec(argon2_check(encode_utf8(password), password_hash))
    } else {
        Err(ErrorKind::HashError)
    }
}

/// For how long after its expiry a token is still taken, in seconds, to
/// allow for clocks that differ.
pub const EXPIRY_LEEWAY: usize = 60;

/// Whether a token with the expiry `exp` has expired at `now`, both in
/// seconds since the Unix epoch. Without a `now` nothing has expired.
pub open spec fn has_expired(exp: usize, now: Option<usize>) -> bool {
    now matches Some(n) && exp + EXPIRY_LEEWAY < n
}

/// What decoding an access token comes to, given whether the key, the
/// audience and the issuer accept the token, the members that the token
/// carries, and the time at which the expiry is checked, if it is:
/// `InvalidToken` for a token that is not accepted or lacks a claim,
/// `TokenExpired` for a good token that has expired, else the claims.
pub open spec fn access_decoded_spec(verifies: bool, members: Members, now: Option<usize>) -> Result<
    ClaimsView,
    ErrorKind,
> {
    if !verifies {
        Err(ErrorKind::InvalidToken)
    } else {
        match ClaimsView::read(members.0, members.1) {
            None => Err(ErrorKind::InvalidToken),
            Some(claims) => if has_expired(claims.exp, now) {
                Err(ErrorKind::TokenExpired)
            } else {
                Ok(claims)
            },
        }
    }
}

/// What decoding a refresh token comes to, given whether the key, the
/// audience and the issuer accept the token, the members that the token
/// carries, and the time at which the expiry is checked, if it is:
/// `InvalidToken` for a token that is not accepted or lacks a claim,
/// `TokenExpired` for a good token that has expired, else the claims.
pub open spec fn refresh_decoded_spec(
    verifies: bool,
    members: Members,
    now: Option<usize>,
) -> Result<RefreshClaimsView, ErrorKind> {
    if !verifies {
        Err(ErrorKind::InvalidToken)
    } else {
        match RefreshClaimsView::read(members.0, members.1) {
            None => Err(ErrorKind::InvalidToken),
            Some(claims) => if has_expired(claims.exp, now) {
                Err(ErrorKind::TokenExpired)
            } else {
                Ok(claims)
            },
        }
    }
}

/// The members of the claims that the decoder handed back, if it did.
pub open spec fn decoded_members<E>(decoded: Result<JsonObject, E>) -> Members {
    match decoded {
        Ok(object) => members_of(object),
        Err(_) => (Map::empty(), Map::empty()),
    }
}

/// Whether a token carries these claims of an access token.
pub open spec fn carries_access(token: Seq<char>, claims: ClaimsView) -> bool {
    token_claims(token) == (claims.texts(), claims.numbers())
}

/// Whether a token carries these claims of a refresh token.
pub open spec fn carries_refresh(token: Seq<char>, claims: RefreshClaimsView) -> bool {
    token_claims(token) == (claims.texts(), claims.numbers())
}

/// Whether a pair of tokens is the pair for `subject` as of `now` under
/// `jti`: two bearer tokens that are not empty and carry the claims of an
/// access and of a refresh token.
pub open spec fn pair_is_for(
    pair: TokenPair,
    subject: Seq<char>,
    now: usize,
    jti: Seq<char>,
    audience: Seq<char>,
    issuer: Seq<char>,
) -> bool {
    &&& pair.token_type == "Bearer"@
    &&& pair.access_token.len() > 0
    &&& pair.refresh_token.len() > 0
    &&& access_claims_at(subject, now, audience, issuer) matches Some(claims) && carries_access(
        pair.access_token,
        claims,
    )
    &&& refresh_claims_at(subject, now, jti, audience, issuer) matches Some(claims)
        && carries_refresh(pair.refresh_token, claims)
}

/// Whether a stored hash is whole, given whether it parses and which of
/// salt and hash it carries.
pub fn stored_hash_is_whole(parts: Option<(bool, bool)>) -> (whole: bool)
    ensures
        whole == hash_is_whole(parts),
{
    match parts {
        Some((salt, hash)) => salt && hash,
        None => false,
    }
}

/// What a password check means to the caller.
pub fn credential_result(check: PasswordCheck) -> (r: Result<(), CustomError>)
    ensures
        match r {
            Ok(()) => credential_spec(check) is Ok,
            Err(e) => credential_spec(check) == Err::<(), _>(e@),
        },
{
    match check {
        PasswordCheck::Match => Ok(()),
        PasswordCheck::Mismatch => Err(CustomError::WrongCredentials),
        PasswordCheck::Unusable => Err(CustomError::HashError),
    }
}

/// What a password hash, or the failure to make one, means to the caller.
pub fn hash_result<E>(hashed: Result<String, E>) -> (r: Result<String, CustomError>)
    ensures
        match r {
            Ok(encoded) => hashed matches Ok(h) && encoded@ == h@,
            Err(e) => hashed is Err && e@ == ErrorKind::HashError,
        },
{
    match hashed {
        Ok(encoded) => Ok(encoded),
        Err(_) => Err(CustomError::HashError),
    }
}

/// Whether a token with the expiry `exp` has expired at `now`.
pub fn expired(exp: usize, now: Option<usize>) -> (r: bool)
    ensures
        r == has_expired(exp, now),
{
    match now {
        None => false,
        Some(n) => match exp.checked_add(EXPIRY_LEEWAY) {
            Some(limit) => limit < n,
            None => false,
        },
    }
}

/// The claims of an access token, from what the decoder handed back, with
/// the expiry checked at `now` if there is one.
pub fn read_access_claims<E>(decoded: Result<JsonObject, E>, now: Option<usize>) -> (r: Result<
    Claims,
    CustomError,
>)
    ensures
        match r {
            Ok(claims) => access_decoded_spec(decoded is Ok, decoded_members(decoded), now) == Ok::<
                _,
                ErrorKind,
            >(claims@),
            Err(e) => access_decoded_spec(decoded is Ok, decoded_members(decoded), now) == Err::<
                ClaimsView,
                _,
            >(e@),
        },
{
    match decoded {
        Err(_) => Err(CustomError::InvalidToken),
        Ok(object) => match Claims::from_json(&object) {
            None => Err(CustomError::InvalidToken),
            Some(claims) => if expired(claims.exp, now) {
                Err(CustomError::TokenExpired)
            } else {
                Ok(claims)
            },
        },
    }
}

/// The claims of a refresh token, from what the decoder handed back, with
/// the expiry checked at `now` if there is one.
pub fn read_refresh_claims<E>(decoded: Result<JsonObject, E>, now: Option<usize>) -> (r: Result<
    RefreshClaims,
    CustomError,
>)
    ensures
        match r {
            Ok(claims) => refresh_decoded_spec(decoded is Ok, decoded_members(decoded), now) == Ok::<
                _,
                ErrorKind,
            >(claims@),
            Err(e) => refresh_decoded_spec(decoded is Ok, decoded_members(decoded), now) == Err::<
                RefreshClaimsView,
                _,
            >(e@),
        },
{
    match decoded {
        Err(_) => Err(CustomError::InvalidToken),
        Ok(object) => match RefreshClaims::from_json(&object) {
            None => Err(CustomError::InvalidToken),
            Some(claims) => if expired(claims.exp, now) {
                Err(CustomError::TokenExpired)
            } else {
                Ok(claims)
            },
        },
    }
}

/// The pair of tokens made of two signatures, with the `jti` and the expiry
/// of the refresh token; `TokenCreation` if either signature failed.
pub fn issued_result<E>(
    access: Result<String, E>,
    refresh: Result<String, E>,
    jti: String,
    exp: usize,
) -> (r: Result<Issued, CustomError>)
    ensures
        match r {
            Ok(issued) => {
                &&& access matches Ok(a) && refresh matches Ok(t) && issued.0@ == TokenPair::bearer(
                    a@,
                    t@,
                )
                &&& issued.1@ == jti@
                &&& issued.2 == exp
            },
            Err(e) => e@ == ErrorKind::TokenCreation && (access is Err || refresh is Err),
        },
{
    match (access, refresh) {
        (Ok(access_token), Ok(refresh_token)) => Ok(
            (AuthResDto::new(access_token, refresh_token), jti, exp),
        ),
        _ => Err(CustomError::TokenCreation),
    }
}

/// The verification token made of 32 random bytes, with its digest;
/// `TokenCreation` if no random bytes could be had.
pub fn verification_token_result<E>(random: Result<[u8; 32], E>) -> (r: Result<
    (String, String),
    CustomError,
>)
    ensures
        match r {
            Ok(pair) => random matches Ok(bytes) && pair.0@ == hex_lower(bytes@) && pair.0@.len()
                == 64 && pair.1@ == token_digest(pair.0@) && pair.1@.len() == 64,
            Err(e) => random is Err && e@ == ErrorKind::TokenCreation,
        },
{
    match random {
        Err(_) => Err(CustomError::TokenCreation),
        Ok(bytes) => {
            let raw_token = hex_encode(bytes.as_slice());
            let token_hash = hash_verification_token(raw_token.as_str());
            Ok((raw_token, token_hash))
        },
    }
}

impl AuthService {
    /// What decoding `token` as an access token for the audience and the
    /// issuer comes to, with the expiry checked at `now` if there is one.
    pub open spec fn access_decoded(
        self,
        token: Seq<char>,
        audience: Seq<char>,
        issuer: Seq<char>,
        now: Option<usize>,
    ) -> Result<ClaimsView, ErrorKind> {
        access_decoded_spec(
            ed_token_verifies(token, self.keys.decoding_key(), audience, issuer),
            token_claims(token),
            now,
        )
    }

    /// What decoding `token` as a refresh token of this service comes to,
    /// with the expiry checked at `now` if there is one.
    pub open spec fn refresh_decoded(self, token: Seq<char>, now: Option<usize>) -> Result<
        RefreshClaimsView,
        ErrorKind,
    > {
        refresh_decoded_spec(
            ed_token_verifies(token, self.keys.decoding_key(), self.audience@, self.issuer@),
            token_claims(token),
            now,
        )
    }

    /// The service that signs with `keys` for `audience` in the name of
    /// `issuer`.
    pub fn new(keys: Keys, audience: String, issuer: String) -> (service: AuthService)
        ensures
            service.keys == keys,
            service.audience@ == audience@,
            service.issuer@ == issuer@,
    {
        AuthService { keys, audience, issuer }
    }

    /// Hashes the password under a fresh salt. Fails with `HashError` when
    /// the hashing itself fails; a hash that comes back is the password's.
    pub fn hash_password(&self, password: String) -> (r: Result<String, CustomError>)
        ensures
            match r {
                Ok(encoded) => verify_password_spec(password@, encoded@) is Ok,
                Err(e) => e@ == ErrorKind::HashError,
            },
    {
        hash_result(argon2_hash(password.as_str().as_bytes()))
    }

    /// Checks the password against the encoded hash: `WrongCredentials` for
    /// another password's hash, `HashError` for a stored hash that is
    /// malformed, incomplete or otherwise of no use.
    pub fn verify_password(&self, password: String, password_hash: String) -> (r: Result<
        (),
        CustomError,
    >)
        ensures
            match r {
                Ok(()) => verify_password_spec(password@, password_hash@) is Ok,
                Err(e) => verify_password_spec(password@, password_hash@) == Err::<(), _>(e@),
            },
    {
        if !stored_hash_is_whole(phc_shape(password_hash.as_str())) {
            return Err(CustomError::HashError);
        }
        credential_result(argon2_verify(password.as_str().as_bytes(), password_hash.as_str()))
    }

    /// The claims of an access token for `user_id` issued at `now`.
    pub fn access_claims(&self, user_id: &str, now: usize) -> (claims: Option<Claims>)
        ensures
            match claims {
                Some(c) => access_claims_at(user_id@, now, self.audience@, self.issuer@) == Some(c@),
                None => access_claims_at(user_id@, now, self.audience@, self.issuer@) is None,
            },
    {
        match now.checked_add(ACCESS_EXP_MINUTES as usize) {
            None => None,
            Some(exp) => Some(
                Claims {
                    sub: user_id.to_owned(),
                    exp,
                    aud: self.audience.clone(),
                    iss: self.issuer.clone(),
                },
            ),
        }
    }

    /// The claims of a refresh token for `user_id` issued at `now` under
    /// `jti`.
    pub fn refresh_claims(&self, user_id: &str, now: usize, jti: String) -> (claims: Option<
        RefreshClaims,
    >)
        ensures
            match claims {
                Some(c) => refresh_claims_at(user_id@, now, jti@, self.audience@, self.issuer@)
                    == Some(c@),
                None => refresh_claims_at(user_id@, now, jti@, self.audience@, self.issuer@)
                    is None,
            },
    {
        match now.checked_add(REFRESH_EXP_DAYS as usize) {
            None => None,
            Some(exp) => Some(
                RefreshClaims {
                    sub: user_id.to_owned(),
                    exp,
                    jti,
                    aud: self.audience.clone(),
                    iss: self.issuer.clone(),
                },
            ),
        }
    }

    /// Signs an access token for `subject` as of `now`. Succeeds exactly
    /// when the expiry can be counted and the key signs, and fails with
    /// `TokenCreation` otherwise. The token carries the claims for `subject`:
    /// subject, expiry a quarter of an hour after `now`, audience and issuer.
    pub fn issue_access_token(&self, subject: &str, now: usize) -> (r: Result<String, CustomError>)
        ensures
            r is Ok <==> now + ACCESS_EXP_MINUTES <= usize::MAX && ed_key_signs(
                self.keys.encoding_key(),
            ),
            match r {
                Ok(token) => {
                    &&& token@.len() > 0
                    &&& access_claims_at(
                        subject@,
                        now,
                        self.audience@,
                        self.issuer@,
                    ) matches Some(claims) && carries_access(token@, claims)
                },
                Err(e) => e@ == ErrorKind::TokenCreation,
            },
    {
        match self.access_claims(subject, now) {
            None => Err(CustomError::TokenCreation),
            Some(claims) => match sign_eddsa(&claims.to_json(), self.keys.encoding()) {
                Ok(token) => Ok(token),
                Err(_) => Err(CustomError::TokenCreation),
            },
        }
    }

    /// Signs a refresh token for `subject` as of `now` under `jti`, and
    /// returns it with the `jti` and its expiry. Succeeds exactly when the
    /// expiry can be counted and the key signs, and fails with
    /// `TokenCreation` otherwise. The token carries the claims for `subject`:
    /// subject, expiry seven days after `now`, `jti`, audience and issuer.
    pub fn issue_refresh_token(&self, subject: &str, now: usize, jti: String) -> (r: Result<
        (String, String, usize),
        CustomError,
    >)
        ensures
            r is Ok <==> now + REFRESH_EXP_DAYS <= usize::MAX && ed_key_signs(
                self.keys.encoding_key(),
            ),
            match r {
                Ok(issued) => {
                    &&& issued.0@.len() > 0
                    &&& issued.1@ == jti@
                    &&& issued.2 == now + REFRESH_EXP_DAYS
                    &&& refresh_claims_at(
                        subject@,
                        now,
                        jti@,
                        self.audience@,
                        self.issuer@,
                    ) matches Some(claims) && carries_refresh(issued.0@, claims)
                },
                Err(e) => e@ == ErrorKind::TokenCreation,
            },
    {
        match self.refresh_claims(subject, now, jti) {
            None => Err(CustomError::TokenCreation),
            Some(claims) => match sign_eddsa(&claims.to_json(), self.keys.encoding()) {
                Ok(token) => Ok((token, claims.jti, claims.exp)),
                Err(_) => Err(CustomError::TokenCreation),
            },
        }
    }

    /// Signs an access token and a refresh token for `user_id` as of `now`,
    /// the refresh token under `jti`. Returns the pair with the `jti` and
    /// the expiry of the refresh token. Succeeds exactly when the expiry of
    /// the refresh token can be counted and the key signs, and fails with
    /// `TokenCreation` otherwise.
    pub fn generate_tokens_at(&self, user_id: &str, now: usize, jti: String) -> (r: Result<
        Issued,
        CustomError,
    >)
        ensures
            r is Ok <==> now + REFRESH_EXP_DAYS <= usize::MAX && ed_key_signs(
                self.keys.encoding_key(),
            ),
            match r {
                Ok(issued) => {
                    &&& pair_is_for(issued.0@, user_id@, now, jti@, self.audience@, self.issuer@)
                    &&& issued.1@ == jti@
                    &&& issued.2 == now + REFRESH_EXP_DAYS
                },
                Err(e) => e@ == ErrorKind::TokenCreation,
            },
    {
        let access_token = self.issue_access_token(user_id, now);
        match self.issue_refresh_token(user_id, now, jti) {
            Err(e) => Err(e),
            Ok(refresh) => issued_result(access_token, Ok(refresh.0), refresh.1, refresh.2),
        }
    }

    /// Signs a new pair of tokens for `user_id` as of now, the refresh token
    /// under a `jti` drawn at random. Returns the pair with the `jti` and the
    /// expiry of the refresh token; fails with `TokenCreation`, as it must
    /// with a key that does not sign. The pair is the one for `user_id`, the
    /// `jti` and the time on the clock, seven days before the expiry.
    pub fn generate_tokens(&self, user_id: &str) -> (r: Result<Issued, CustomError>)
        ensures
            match r {
                Ok(issued) => {
                    &&& issued.1@.len() == 36
                    &&& issued.2 >= REFRESH_EXP_DAYS
                    &&& pair_is_for(
                        issued.0@,
                        user_id@,
                        (issued.2 - REFRESH_EXP_DAYS) as usize,
                        issued.1@,
                        self.audience@,
                        self.issuer@,
                    )
                },
                Err(e) => e@ == ErrorKind::TokenCreation,
            },
            !ed_key_signs(self.keys.encoding_key()) ==> r is Err,
    {
        match now_epoch() {
            None => Err(CustomError::TokenCreation),
            Some(now) => self.generate_tokens_at(user_id, now, new_jti()),
        }
    }

    /// Decodes an access token with the expiry checked at `now`, if there
    /// is one: verifies signature, audience and issuer, reads the claims, and
    /// checks the expiry. Fails with `TokenExpired` for a good token that has
    /// expired and with `InvalidToken` otherwise. Claims that come back are
    /// the ones that the token carries, and name the expected audience and
    /// issuer.
    pub fn decode_at(
        &self,
        token: &str,
        expected_aud: &str,
        expected_iss: &str,
        now: Option<usize>,
    ) -> (r: Result<Claims, CustomError>)
        ensures
            match r {
                Ok(claims) => self.access_decoded(token@, expected_aud@, expected_iss@, now) == Ok::<
                    _,
                    ErrorKind,
                >(claims@) && claims.aud@ == expected_aud@ && claims.iss@ == expected_iss@,
                Err(e) => self.access_decoded(token@, expected_aud@, expected_iss@, now) == Err::<
                    ClaimsView,
                    _,
                >(e@),
            },
    {
        let decoded = decode_eddsa(token, self.keys.decoding(), expected_aud, expected_iss);
        read_access_claims(decoded, now)
    }

    /// Decodes an access token: verifies signature, audience and issuer, and
    /// the expiry, against the clock, only if `check_expiry`. Fails with
    /// `TokenExpired` for a good token that has expired and with
    /// `InvalidToken` otherwise; a token whose expiry is to be checked while
    /// the clock reads no time is invalid.
    pub fn decode(
        &self,
        token: &str,
        expected_aud: &str,
        expected_iss: &str,
        check_expiry: bool,
    ) -> (r: Result<Claims, CustomError>)
        ensures
            match r {
                Ok(claims) => self.access_decoded(token@, expected_aud@, expected_iss@, None) == Ok::<
                    _,
                    ErrorKind,
                >(claims@) && claims.aud@ == expected_aud@ && claims.iss@ == expected_iss@,
                Err(e) => e@ == ErrorKind::InvalidToken || (check_expiry && e@
                    == ErrorKind::TokenExpired && self.access_decoded(
                    token@,
                    expected_aud@,
                    expected_iss@,
                    None,
                ) is Ok),
            },
            !check_expiry ==> (r is Ok <==> self.access_decoded(
                token@,
                expected_aud@,
                expected_iss@,
                None,
            ) is Ok),
    {
        if check_expiry {
            match now_epoch() {
                None => Err(CustomError::InvalidToken),
                Some(now) => self.decode_at(token, expected_aud, expected_iss, Some(now)),
            }
        } else {
            self.decode_at(token, expected_aud, expected_iss, None)
        }
    }

    /// The claims of the caller's access token: `decode` for this service's
    /// audience and issuer, with the expiry checked.
    pub fn authenticate(&self, token: &str) -> (r: Result<Claims, CustomError>)
        ensures
            match r {
                Ok(claims) => self.access_decoded(token@, self.audience@, self.issuer@, None) == Ok::<
                    _,
                    ErrorKind,
                >(claims@) && claims.aud@ == self.audience@ && claims.iss@ == self.issuer@,
                Err(e) => e@ == ErrorKind::InvalidToken || e@ == ErrorKind::TokenExpired,
            },
    {
        self.decode(token, self.audience.as_str(), self.issuer.as_str(), true)
    }

    /// Decodes a refresh token in full, with the expiry checked at `now`, if
    /// there is one: signature, audience, issuer, claims and expiry. Fails
    /// with `TokenExpired` for a good token that has expired and with
    /// `InvalidToken` otherwise. Claims that come back are the ones that the
    /// token carries, and name this service's audience and issuer.
    pub fn decode_refresh_token_at(&self, refresh_token: &str, now: Option<usize>) -> (r: Result<
        RefreshClaims,
        CustomError,
    >)
        ensures
            match r {
                Ok(claims) => self.refresh_decoded(refresh_token@, now) == Ok::<_, ErrorKind>(
                    claims@,
                ) && claims.aud@ == self.audience@ && claims.iss@ == self.issuer@,
                Err(e) => self.refresh_decoded(refresh_token@, now) == Err::<RefreshClaimsView, _>(
                    e@,
                ),
            },
    {
        let decoded = decode_eddsa(
            refresh_token,
            self.keys.decoding(),
            self.audience.as_str(),
            self.issuer.as_str(),
        );
        read_refresh_claims(decoded, now)
    }

    /// Decodes a refresh token in full, with the expiry checked against the
    /// clock. Fails with `TokenExpired` for a good token that has expired and
    /// with `InvalidToken` otherwise, as it does while the clock reads no
    /// time.
    pub fn decode_refresh_token(&self, refresh_token: &str) -> (r: Result<
        RefreshClaims,
        CustomError,
    >)
        ensures
            match r {
                Ok(claims) => self.refresh_decoded(refresh_token@, None) == Ok::<_, ErrorKind>(
                    claims@,
                ) && claims.aud@ == self.audience@ && claims.iss@ == self.issuer@,
                Err(e) => e@ == ErrorKind::InvalidToken || (e@ == ErrorKind::TokenExpired
                    && self.refresh_decoded(refresh_token@, None) is Ok),
            },
    {
        match now_epoch() {
            None => Err(CustomError::InvalidToken),
            Some(now) => self.decode_refresh_token_at(refresh_token, Some(now)),
        }
    }

    /// Draws a verification token: 32 random bytes in hexadecimal, and the
    /// digest under which the token is kept. Fails with `TokenCreation`.
    pub fn generate_email_verification_token(&self) -> (r: Result<(String, String), CustomError>)
        ensures
            match r {
                Ok(pair) => pair.0@.len() == 64 && pair.1@ == token_digest(pair.0@) && pair.1@.len()
                    == 64,
                Err(e) => e@ == ErrorKind::TokenCreation,
            },
    {
        verification_token_result(os_random_32())
    }
}

} // verus!
