//! What holds of every request, whatever the stores hold and whatever the
//! outside world answers.

use vstd::prelude::*;
use crate::digest::token_digest;
use crate::error::ErrorKind;
use crate::handlers::auth_handler::{MIN_PASSWORD_LEN, MIN_USERNAME_LEN, byte_len, expiry_millis, login_spec, logout_spec, plausible_email, refresh_spec, register_spec, resume_spec, verify_email_spec};
use crate::handlers::conversation::{EffectView, EventView, FlowView, ReplyView};
use crate::handlers::play::{Answers, Scene, World, answer, awaits, opening, play, turn, turns_left};
use crate::handlers::reuse::{REUSE_GRACE_MILLIS, Reuse};
use crate::ids::{lemma_object_id_canonical, object_id_of};
use crate::models::refresh_token::NewRefreshTokenRecord;
use crate::models::user::NewUserRecord;
use crate::services::auth_service::{access_decoded_spec, carries_access, carries_refresh, has_expired, refresh_decoded_spec, verify_password_spec};
use crate::services::jwt::token_claims;
use crate::types::claims::ClaimsView;
use crate::types::refresh_claims::RefreshClaimsView;
use crate::services::user_service::{email_taken, lemma_stored_user_is_found, username_taken, users_by_email, users_verify, users_wf};
use crate::text::lowercase_of;
use crate::services::refresh_token_service::{RefreshTokens, RevokeOutcome, refresh_tokens_create, refresh_tokens_revoke, refresh_tokens_wf};

verus! {

/// A token that was issued decodes to what it was issued for: whenever the
/// decoder accepts a token that carries the claims of an access token, with
/// the expiry left aside, the claims that come back are those claims, and so
/// the subject is the one that the token was issued for.
pub proof fn law_issued_token_decodes_to_its_claims(token: Seq<char>, claims: ClaimsView)
    requires
        carries_access(token, claims),
    ensures
        access_decoded_spec(true, token_claims(token), None) == Ok::<_, ErrorKind>(claims),
        access_decoded_spec(false, token_claims(token), None) == Err::<ClaimsView, _>(
            ErrorKind::InvalidToken,
        ),
{
    claims.lemma_round_trip();
}

/// A refresh token that was issued decodes to what it was issued for: when
/// the decoder accepts it, the claims that come back name the subject, the
/// `jti` and the expiry that it was issued with, unless the expiry has
/// passed by then.
pub proof fn law_issued_refresh_token_decodes_to_its_claims(
    token: Seq<char>,
    claims: RefreshClaimsView,
    now: Option<usize>,
)
    requires
        carries_refresh(token, claims),
    ensures
        refresh_decoded_spec(true, token_claims(token), now) == if has_expired(claims.exp, now) {
            Err::<RefreshClaimsView, _>(ErrorKind::TokenExpired)
        } else {
            Ok::<_, ErrorKind>(claims)
        },
{
    claims.lemma_round_trip();
}

/// A refresh token that was used more than the grace window ago is refused
/// as invalid, is recognised as a replay, and leaves the stores as they
/// were: no record is created.
pub proof fn law_replay_is_refused(
    world: World,
    refresh_token: Seq<char>,
    answers: Answers,
    now: i64,
)
    requires
        refresh_token.len() > 0,
        answers.decoded matches Ok(claims) && claims.jti.len() > 0
            && world.refresh_tokens.contains_key(claims.jti) && ({
            let record = world.refresh_tokens[claims.jti];
            &&& record.expires_at >= now
            &&& record.is_revoked
            &&& record.used_at matches Some(at) && now - at > REUSE_GRACE_MILLIS
        }),
    ensures
        ({
            let end = play(world, refresh_spec(refresh_token), answers, now);
            &&& end.reply() == Some(Err::<ReplyView, _>(ErrorKind::InvalidToken))
            &&& end.flow == (FlowView::Finished { reuse: Some(Reuse::Replay) })
            &&& end.world == world
        }),
{
    reveal(play);
}

/// A rotation is owed its success: a refresh token whose record is active
/// and unexpired is exchanged for the pair that the issuer hands out, if the
/// pair's `jti` is new to the store. The presented record is revoked and
/// marked used at `now`, and the successor is stored as an active record of
/// the same subject.
pub proof fn law_rotation_succeeds(
    world: World,
    refresh_token: Seq<char>,
    answers: Answers,
    now: i64,
)
    requires
        refresh_token.len() > 0,
        answers.decoded matches Ok(claims) && claims.jti.len() > 0
            && world.refresh_tokens.contains_key(claims.jti) && ({
            let record = world.refresh_tokens[claims.jti];
            &&& record.expires_at >= now
            &&& !record.is_revoked
        }),
        answers.issued.len() > 0,
        answers.record_ids.len() > 0,
        answers.issued[0] matches Ok(issue) && expiry_millis(issue.2) is Some
            && !world.refresh_tokens.contains_key(issue.1) && issue.1 != answers.decoded->Ok_0.jti,
    ensures
        ({
            let end = play(world, refresh_spec(refresh_token), answers, now);
            let claims = answers.decoded->Ok_0;
            let issue = answers.issued[0]->Ok_0;
            let successor = NewRefreshTokenRecord::active(
                claims.sub,
                issue.1,
                now,
                expiry_millis(issue.2).unwrap(),
            ).stored(answers.record_ids[0]);
            &&& end.reply() == Some(Ok::<_, ErrorKind>(ReplyView::Tokens(issue.0)))
            &&& end.world.refresh_tokens == world.refresh_tokens.insert(
                claims.jti,
                world.refresh_tokens[claims.jti].revoked(now),
            ).insert(issue.1, successor)
            &&& end.world.verif_tokens == world.verif_tokens
            &&& end.world.verified == world.verified
        }),
{
    reveal(play);
}

/// Of two presentations of one refresh token in rapid succession, one
/// succeeds and the other is refused as invalid: when the first was
/// exchanged for a new pair, the second, less than the grace window later,
/// is recognised as a duplicate, gets `InvalidToken` and changes nothing.
/// Between them exactly one record was created.
pub proof fn law_double_submission(
    world: World,
    refresh_token: Seq<char>,
    first_answers: Answers,
    first_now: i64,
    second_answers: Answers,
    second_now: i64,
)
    requires
        refresh_tokens_wf(world.refresh_tokens),
        refresh_token.len() > 0,
        first_answers.decoded matches Ok(claims) && claims.jti.len() > 0,
        second_answers.decoded == first_answers.decoded,
        play(world, refresh_spec(refresh_token), first_answers, first_now).succeeded(),
        0 <= second_now - first_now < REUSE_GRACE_MILLIS,
        world.refresh_tokens.contains_key(first_answers.decoded->Ok_0.jti) ==> world.refresh_tokens[
            first_answers.decoded->Ok_0.jti
        ].expires_at >= second_now,
    ensures
        ({
            let first = play(world, refresh_spec(refresh_token), first_answers, first_now);
            let second = play(first.world, refresh_spec(refresh_token), second_answers, second_now);
            &&& second.reply() == Some(Err::<ReplyView, _>(ErrorKind::InvalidToken))
            &&& second.flow == (FlowView::Finished { reuse: Some(Reuse::WithinGrace) })
            &&& second.world == first.world
            &&& exists|jti: Seq<char>|
                !world.refresh_tokens.contains_key(jti) && first.world.refresh_tokens.dom()
                    == world.refresh_tokens.dom().insert(jti)
        }),
{
    reveal(play);
    let claims = first_answers.decoded->Ok_0;
    let s0 = opening(world, refresh_spec(refresh_token));
    let s1 = turn(s0, first_answers, first_now);
    let s2 = turn(s1, first_answers, first_now);
    let s3 = turn(s2, first_answers, first_now);
    let s4 = turn(s3, first_answers, first_now);
    let s5 = turn(s4, first_answers, first_now);
    let s6 = turn(s5, first_answers, first_now);
    let s7 = turn(s6, first_answers, first_now);
    let first = turn(s7, first_answers, first_now);
    assert(first == play(world, refresh_spec(refresh_token), first_answers, first_now));
    assert(world.refresh_tokens.contains_key(claims.jti));
    let revoked = world.refresh_tokens.insert(
        claims.jti,
        world.refresh_tokens[claims.jti].revoked(first_now),
    );
    assert(s3.world.refresh_tokens == revoked);
    assert(revoked.dom() =~= world.refresh_tokens.dom());
    if s5.effect is Done {
        let jti = first_answers.issued[0]->Ok_0.1;
        assert(first.world.refresh_tokens.dom() =~= world.refresh_tokens.dom().insert(jti));
    } else {
        let jti = first_answers.issued[1]->Ok_0.1;
        assert(first.world.refresh_tokens.dom() =~= world.refresh_tokens.dom().insert(jti));
    }
}

/// A login is owed its success: for credentials that can be right, of an
/// identity that is found and whose password matches, the login answers with
/// the pair that the issuer hands out, if the pair's `jti` is new to the
/// store, and stores the pair's record as an active record of the identity.
pub proof fn law_login_succeeds(
    world: World,
    email: Seq<char>,
    password: Seq<char>,
    answers: Answers,
    now: i64,
)
    requires
        plausible_email(email),
        byte_len(password) >= MIN_PASSWORD_LEN,
        users_by_email(world.users, email) matches Ok(user) && verify_password_spec(
            password,
            user.password,
        ) is Ok,
        answers.issued.len() > 0,
        answers.record_ids.len() > 0,
        answers.issued[0] matches Ok(issue) && expiry_millis(issue.2) is Some
            && !world.refresh_tokens.contains_key(issue.1),
    ensures
        ({
            let end = play(world, login_spec(email, password), answers, now);
            let issue = answers.issued[0]->Ok_0;
            let record = NewRefreshTokenRecord::active(
                users_by_email(world.users, email)->Ok_0.id,
                issue.1,
                now,
                expiry_millis(issue.2).unwrap(),
            ).stored(answers.record_ids[0]);
            &&& end.reply() == Some(Ok::<_, ErrorKind>(ReplyView::Tokens(issue.0)))
            &&& end.world.refresh_tokens == world.refresh_tokens.insert(issue.1, record)
            &&& end.world.users == world.users
        }),
{
    reveal(play);
}

/// A registration is owed its success: for credentials that can be right,
/// when the password is hashed and neither the email address in lower case
/// nor the user name is taken, the registration stores the identity with
/// the address in lower case, starts the verification mail and answers with
/// the pair that the issuer hands out, if the pair's `jti` is new to the
/// store.
pub proof fn law_registration_succeeds(
    world: World,
    email: Seq<char>,
    username: Seq<char>,
    password: Seq<char>,
    answers: Answers,
    now: i64,
)
    requires
        plausible_email(email),
        byte_len(username) >= MIN_USERNAME_LEN,
        byte_len(password) >= MIN_PASSWORD_LEN,
        answers.hashed is Ok,
        !world.users.contains_key(answers.user_id),
        !email_taken(world.users, lowercase_of(email)),
        !username_taken(world.users, username),
        answers.issued.len() > 0,
        answers.record_ids.len() > 0,
        answers.issued[0] matches Ok(issue) && expiry_millis(issue.2) is Some
            && !world.refresh_tokens.contains_key(issue.1),
    ensures
        ({
            let end = play(world, register_spec(email, username, password), answers, now);
            let issue = answers.issued[0]->Ok_0;
            let record = NewRefreshTokenRecord::active(
                answers.user_id,
                issue.1,
                now,
                expiry_millis(issue.2).unwrap(),
            ).stored(answers.record_ids[0]);
            let user = NewUserRecord::joined(
                username,
                lowercase_of(email),
                answers.hashed->Ok_0,
                now,
            ).stored(answers.user_id);
            &&& end.reply() == Some(Ok::<_, ErrorKind>(ReplyView::Tokens(issue.0)))
            &&& end.world.refresh_tokens == world.refresh_tokens.insert(issue.1, record)
            &&& end.world.users == world.users.insert(answers.user_id, user)
        }),
{
    reveal(play);
}

/// Whether `end` is the end of a request that was answered with tokens the
/// right way: the pair is one that the issuer handed out during the request,
/// and the pair's record is in the store, active, unused, and expiring when
/// the refresh token does.
pub open spec fn tokens_are_persisted(end: Scene, answers: Answers) -> bool {
    match end.reply() {
        Some(Ok(ReplyView::Tokens(pair))) => {
            &&& 1 <= end.issues <= 2
            &&& answers.issued[end.issues - 1] matches Ok(issue)
            &&& issue.0 == pair
            &&& end.world.refresh_tokens.contains_key(issue.1)
            &&& !end.world.refresh_tokens[issue.1].is_revoked
            &&& end.world.refresh_tokens[issue.1].used_at is None
            &&& expiry_millis(issue.2) == Some(end.world.refresh_tokens[issue.1].expires_at)
        },
        Some(Ok(ReplyView::General(_))) => false,
        _ => true,
    }
}

/// No token is handed out without its record: whenever a registration, a
/// login or a refresh answers with a pair of tokens, the pair's record was
/// stored, whatever the stores held before and whatever the outside world
/// said. A pair whose record could not be stored is never the answer; after
/// two failed attempts the answer is `TokenCreation`.
pub proof fn law_issued_tokens_are_persisted(
    world: World,
    first: Seq<char>,
    second: Seq<char>,
    third: Seq<char>,
    answers: Answers,
    now: i64,
)
    requires
        answers.issued.len() >= 2,
        answers.record_ids.len() >= 2,
    ensures
        tokens_are_persisted(play(world, register_spec(first, second, third), answers, now), answers),
        tokens_are_persisted(play(world, login_spec(first, second), answers, now), answers),
        tokens_are_persisted(play(world, refresh_spec(first), answers, now), answers),
{
    lemma_register_persists(world, first, second, third, answers, now);
    lemma_login_persists(world, first, second, answers, now);
    lemma_refresh_persists(world, first, answers, now);
}

proof fn lemma_register_persists(
    world: World,
    email: Seq<char>,
    username: Seq<char>,
    password: Seq<char>,
    answers: Answers,
    now: i64,
)
    requires
        answers.issued.len() >= 2,
        answers.record_ids.len() >= 2,
    ensures
        tokens_are_persisted(
            play(world, register_spec(email, username, password), answers, now),
            answers,
        ),
{
    reveal(play);
}

proof fn lemma_login_persists(
    world: World,
    email: Seq<char>,
    password: Seq<char>,
    answers: Answers,
    now: i64,
)
    requires
        answers.issued.len() >= 2,
        answers.record_ids.len() >= 2,
    ensures
        tokens_are_persisted(play(world, login_spec(email, password), answers, now), answers),
{
    reveal(play);
}

proof fn lemma_refresh_persists(world: World, refresh_token: Seq<char>, answers: Answers, now: i64)
    requires
        answers.issued.len() >= 2,
        answers.record_ids.len() >= 2,
    ensures
        tokens_are_persisted(play(world, refresh_spec(refresh_token), answers, now), answers),
{
    reveal(play);
}

/// A rotation whose issuing fails after the revocation says so: the
/// presented token is revoked, no successor is stored, and the answer is
/// `TokenCreation`.
pub proof fn law_failed_issuance_is_reported(
    world: World,
    refresh_token: Seq<char>,
    answers: Answers,
    now: i64,
)
    requires
        refresh_token.len() > 0,
        answers.decoded matches Ok(claims) && claims.jti.len() > 0
            && world.refresh_tokens.contains_key(claims.jti) && ({
            let record = world.refresh_tokens[claims.jti];
            &&& record.expires_at >= now
            &&& !record.is_revoked
        }),
        answers.issued.len() > 0,
        answers.issued[0] is Err,
    ensures
        ({
            let end = play(world, refresh_spec(refresh_token), answers, now);
            let jti = answers.decoded->Ok_0.jti;
            &&& end.reply() == Some(Err::<ReplyView, _>(ErrorKind::TokenCreation))
            &&& end.world.refresh_tokens == world.refresh_tokens.insert(
                jti,
                world.refresh_tokens[jti].revoked(now),
            )
        }),
{
    reveal(play);
}

/// A logout revokes the presented token of the caller and is idempotent:
/// whether the record was active, revoked already or is not there, the
/// logout succeeds, and afterwards no record under the `jti` is active.
pub proof fn law_logout_is_idempotent(
    world: World,
    subject: Seq<char>,
    refresh_token: Seq<char>,
    answers: Answers,
    now: i64,
)
    requires
        refresh_token.len() > 0,
        answers.decoded matches Ok(claims) && claims.jti.len() > 0 && claims.sub == subject,
    ensures
        ({
            let end = play(world, logout_spec(subject, refresh_token), answers, now);
            let again = play(end.world, logout_spec(subject, refresh_token), answers, now);
            let jti = answers.decoded->Ok_0.jti;
            &&& end.succeeded()
            &&& end.world.refresh_tokens.contains_key(jti) ==> end.world.refresh_tokens[jti].is_revoked
            &&& end.world.refresh_tokens.dom() == world.refresh_tokens.dom()
            &&& again.succeeded()
            &&& again.world == end.world
        }),
{
    reveal(play);
    let end = play(world, logout_spec(subject, refresh_token), answers, now);
    assert(end.world.refresh_tokens.dom() =~= world.refresh_tokens.dom());
}

/// What a registration that succeeded did to the directory: it stored the
/// identity, with the address in lower case and the hash that it was given,
/// under an id, an address and a name that were free.
proof fn lemma_register_outcome(
    world: World,
    email: Seq<char>,
    username: Seq<char>,
    password: Seq<char>,
    answers: Answers,
    now: i64,
)
    requires
        play(world, register_spec(email, username, password), answers, now).succeeded(),
    ensures
        ({
            let end = play(world, register_spec(email, username, password), answers, now);
            let user = NewUserRecord::joined(
                username,
                lowercase_of(email),
                answers.hashed->Ok_0,
                now,
            ).stored(answers.user_id);
            &&& plausible_email(email)
            &&& byte_len(password) >= MIN_PASSWORD_LEN
            &&& answers.hashed is Ok
            &&& !world.users.contains_key(answers.user_id)
            &&& !email_taken(world.users, lowercase_of(email))
            &&& !username_taken(world.users, username)
            &&& end.world.users == world.users.insert(answers.user_id, user)
        }),
{
    reveal(play);
}

/// Whoever has registered can log in: after a registration that succeeded,
/// a login with the same address, in whatever case the registration had it,
/// and the same password finds the identity, passes the password check, and
/// answers with the pair that the issuer hands out, if the pair's `jti` is
/// new to the store. The pair's record belongs to the identity.
///
/// The hash that the registration was given is taken to be the password's,
/// as the hashing promises.
pub proof fn law_register_then_login(
    world: World,
    email: Seq<char>,
    username: Seq<char>,
    password: Seq<char>,
    register_answers: Answers,
    register_now: i64,
    answers: Answers,
    now: i64,
)
    requires
        users_wf(world.users),
        play(
            world,
            register_spec(email, username, password),
            register_answers,
            register_now,
        ).succeeded(),
        register_answers.hashed matches Ok(hash) ==> verify_password_spec(password, hash) is Ok,
        answers.issued.len() > 0,
        answers.record_ids.len() > 0,
        answers.issued[0] matches Ok(issue) && expiry_millis(issue.2) is Some && !play(
            world,
            register_spec(email, username, password),
            register_answers,
            register_now,
        ).world.refresh_tokens.contains_key(issue.1),
    ensures
        ({
            let registered = play(
                world,
                register_spec(email, username, password),
                register_answers,
                register_now,
            );
            let login = play(registered.world, login_spec(email, password), answers, now);
            let issue = answers.issued[0]->Ok_0;
            &&& users_wf(registered.world.users)
            &&& login.reply() == Some(Ok::<_, ErrorKind>(ReplyView::Tokens(issue.0)))
            &&& login.world.refresh_tokens.contains_key(issue.1)
            &&& login.world.refresh_tokens[issue.1].user_id == register_answers.user_id
            &&& !login.world.refresh_tokens[issue.1].is_revoked
        }),
{
    let registered = play(
        world,
        register_spec(email, username, password),
        register_answers,
        register_now,
    );
    lemma_register_outcome(world, email, username, password, register_answers, register_now);
    let user = NewUserRecord::joined(
        username,
        lowercase_of(email),
        register_answers.hashed->Ok_0,
        register_now,
    ).stored(register_answers.user_id);
    lemma_stored_user_is_found(world.users, user, email);
    law_login_succeeds(registered.world, email, password, answers, now);
}

/// What a login that succeeded did: it answered with the pair of its last
/// issue and stored the pair's record, active, for the identity that was
/// found.
proof fn lemma_login_outcome(
    world: World,
    email: Seq<char>,
    password: Seq<char>,
    answers: Answers,
    now: i64,
)
    requires
        answers.issued.len() >= 2,
        play(world, login_spec(email, password), answers, now).succeeded(),
    ensures
        ({
            let login = play(world, login_spec(email, password), answers, now);
            let issue = answers.issued[login.issues - 1]->Ok_0;
            &&& 1 <= login.issues <= 2
            &&& answers.issued[login.issues - 1] is Ok
            &&& users_by_email(world.users, email) is Ok
            &&& expiry_millis(issue.2) is Some
            &&& login.reply() == Some(Ok::<_, ErrorKind>(ReplyView::Tokens(issue.0)))
            &&& login.world.refresh_tokens.contains_key(issue.1)
            &&& !login.world.refresh_tokens[issue.1].is_revoked
            &&& login.world.refresh_tokens[issue.1].expires_at == expiry_millis(issue.2).unwrap()
            &&& login.world.refresh_tokens[issue.1].user_id == users_by_email(
                world.users,
                email,
            )->Ok_0.id
        }),
{
    reveal(play);
}

/// A refresh token whose record is revoked is refused, as invalid or as
/// expired, and changes nothing.
proof fn lemma_revoked_is_refused(
    world: World,
    refresh_token: Seq<char>,
    answers: Answers,
    now: i64,
)
    requires
        refresh_token.len() > 0,
        answers.decoded matches Ok(claims) && claims.jti.len() > 0
            && world.refresh_tokens.contains_key(claims.jti)
            && world.refresh_tokens[claims.jti].is_revoked,
    ensures
        ({
            let end = play(world, refresh_spec(refresh_token), answers, now);
            &&& end.reply() matches Some(Err(e)) && (e == ErrorKind::InvalidToken || e
                == ErrorKind::TokenExpired)
            &&& end.world == world
        }),
{
    reveal(play);
}

/// A login followed at once by a rotation of the refresh token that the
/// login returned: the rotation succeeds when the issuer hands out a pair
/// under a new `jti`, the new refresh token has another `jti` than the
/// presented one, and the presented token is good only once: presenting it
/// again, at any later time, is refused.
///
/// The refresh token is taken to decode to the claims it was signed with,
/// and to be not empty.
pub proof fn law_login_then_rotate(
    world: World,
    email: Seq<char>,
    password: Seq<char>,
    login_answers: Answers,
    login_now: i64,
    answers: Answers,
    now: i64,
    again_answers: Answers,
    again_now: i64,
)
    requires
        refresh_tokens_wf(world.refresh_tokens),
        login_answers.issued.len() >= 2,
        play(world, login_spec(email, password), login_answers, login_now).succeeded(),
        ({
            let login = play(world, login_spec(email, password), login_answers, login_now);
            let issue = login_answers.issued[login.issues - 1]->Ok_0;
            &&& answers.decoded matches Ok(claims) && claims.jti == issue.1 && claims.sub
                == users_by_email(world.users, email)->Ok_0.id
            &&& issue.1.len() > 0
            &&& issue.0.refresh_token.len() > 0
            &&& expiry_millis(issue.2).unwrap() >= now
        }),
        again_answers.decoded == answers.decoded,
        now <= again_now,
        answers.issued.len() > 0,
        answers.record_ids.len() > 0,
        answers.issued[0] matches Ok(next) && expiry_millis(next.2) is Some && !play(
            world,
            login_spec(email, password),
            login_answers,
            login_now,
        ).world.refresh_tokens.contains_key(next.1),
    ensures
        ({
            let login = play(world, login_spec(email, password), login_answers, login_now);
            let issue = login_answers.issued[login.issues - 1]->Ok_0;
            let next = answers.issued[0]->Ok_0;
            let rotated = play(login.world, refresh_spec(issue.0.refresh_token), answers, now);
            let again = play(
                rotated.world,
                refresh_spec(issue.0.refresh_token),
                again_answers,
                again_now,
            );
            &&& login.reply() == Some(Ok::<_, ErrorKind>(ReplyView::Tokens(issue.0)))
            &&& rotated.reply() == Some(Ok::<_, ErrorKind>(ReplyView::Tokens(next.0)))
            &&& next.1 != issue.1
            &&& rotated.world.refresh_tokens.contains_key(next.1)
            &&& !rotated.world.refresh_tokens[next.1].is_revoked
            &&& rotated.world.refresh_tokens[next.1].user_id == users_by_email(
                world.users,
                email,
            )->Ok_0.id
            &&& rotated.world.refresh_tokens[issue.1].is_revoked
            &&& again.reply() matches Some(Err(e)) && (e == ErrorKind::InvalidToken || e
                == ErrorKind::TokenExpired)
            &&& again.world == rotated.world
        }),
{
    let login = play(world, login_spec(email, password), login_answers, login_now);
    lemma_login_outcome(world, email, password, login_answers, login_now);
    let issue = login_answers.issued[login.issues - 1]->Ok_0;
    law_rotation_succeeds(login.world, issue.0.refresh_token, answers, now);
    let rotated = play(login.world, refresh_spec(issue.0.refresh_token), answers, now);
    lemma_revoked_is_refused(rotated.world, issue.0.refresh_token, again_answers, again_now);
}

/// An email-verification token is good exactly once. The first consumption
/// succeeds exactly when the user id is one and the record under the token's
/// digest is that user's, unused and unexpired; the flag of the user is then
/// set, once. A second consumption with the same arguments, at whatever
/// time, fails with `InvalidToken` and sets no flag.
pub proof fn law_verification_is_consumed_once(
    world: World,
    token: Seq<char>,
    user_id: Seq<char>,
    answers: Answers,
    now: i64,
    again_answers: Answers,
    again_now: i64,
)
    ensures
        ({
            let first = play(world, verify_email_spec(token, user_id, now), answers, now);
            let second = play(
                first.world,
                verify_email_spec(token, user_id, again_now),
                again_answers,
                again_now,
            );
            let hash = token_digest(token);
            &&& first.reply() is Some
            &&& first.succeeded() <==> {
                &&& object_id_of(user_id) matches Some(id)
                &&& world.verif_tokens.contains_key(hash)
                &&& world.verif_tokens[hash].consumable(id, now)
            }
            &&& first.succeeded() ==> {
                &&& first.world.verified == world.verified.push(object_id_of(user_id).unwrap())
                &&& first.world.users == users_verify(world.users, user_id, now).0
                &&& first.world.verif_tokens == world.verif_tokens.insert(
                    hash,
                    world.verif_tokens[hash].consumed(now),
                )
                &&& second.reply() == Some(Err::<ReplyView, _>(ErrorKind::InvalidToken))
                &&& second.world == first.world
            }
            &&& first.world.refresh_tokens == world.refresh_tokens
        }),
{
    reveal(play);
    let start = verify_email_spec(token, user_id, now);
    let s0 = opening(world, start);
    let s1 = turn(s0, answers, now);
    let s2 = turn(s1, answers, now);
    law_every_turn_advances(s0, answers, now);
    law_every_turn_advances(s1, answers, now);
    law_stays_done(s2, answers, now);
    assert(play(world, start, answers, now) == s2);
    let again = verify_email_spec(token, user_id, again_now);
    let t0 = opening(s2.world, again);
    let t1 = turn(t0, again_answers, again_now);
    law_every_turn_advances(t0, again_answers, again_now);
    let hash = token_digest(token);
    lemma_object_id_canonical(user_id);
    assert(s2.world.refresh_tokens == world.refresh_tokens);
    assert(s2.reply() is Some);
    if s2.succeeded() {
        let id = object_id_of(user_id).unwrap();
        assert(s1.world.verif_tokens[hash].used_at is Some);
        assert(s2.world.verif_tokens == s1.world.verif_tokens);
        assert(s2.world.verified == world.verified.push(id));
        assert(t1.effect is Done);
        law_stays_done(t1, again_answers, again_now);
        assert(play(s2.world, again, again_answers, again_now) == t1);
        assert(t1.world == s2.world);
        assert(t1.reply() == Some(Err::<ReplyView, _>(ErrorKind::InvalidToken)));
    }
    if object_id_of(user_id) is Some && world.verif_tokens.contains_key(hash)
        && world.verif_tokens[hash].consumable(object_id_of(user_id).unwrap(), now) {
        assert(s2.succeeded());
    }
}

/// A request that was answered stays answered through every further turn of
/// `play`.
pub proof fn law_stays_done(scene: Scene, answers: Answers, now: i64)
    requires
        scene.effect is Done,
    ensures
        turn(scene, answers, now) == scene,
        turn(turn(scene, answers, now), answers, now) == scene,
        turn(turn(turn(scene, answers, now), answers, now), answers, now) == scene,
{
}

/// Every turn brings a request nearer to its reply: the request asks for
/// what it then waits for, and needs fewer answers than before.
pub proof fn law_every_turn_advances(scene: Scene, answers: Answers, now: i64)
    requires
        awaits(scene.flow, scene.effect),
    ensures
        awaits(turn(scene, answers, now).flow, turn(scene, answers, now).effect),
        scene.effect !is Done ==> turns_left(turn(scene, answers, now).flow) < turns_left(
            scene.flow,
        ),
        scene.effect is Done ==> turn(scene, answers, now) == scene,
{
}

/// A request that begins with a step that asks for what it waits for is
/// answered within the turns that `play` takes.
pub proof fn law_play_ends(world: World, step: (FlowView, EffectView), answers: Answers, now: i64)
    requires
        awaits(step.0, step.1),
    ensures
        play(world, step, answers, now).reply() is Some,
        awaits(play(world, step, answers, now).flow, play(world, step, answers, now).effect),
{
    reveal(play);
    let s0 = opening(world, step);
    let s1 = turn(s0, answers, now);
    let s2 = turn(s1, answers, now);
    let s3 = turn(s2, answers, now);
    let s4 = turn(s3, answers, now);
    let s5 = turn(s4, answers, now);
    let s6 = turn(s5, answers, now);
    let s7 = turn(s6, answers, now);
    let s8 = turn(s7, answers, now);
    law_every_turn_advances(s0, answers, now);
    law_every_turn_advances(s1, answers, now);
    law_every_turn_advances(s2, answers, now);
    law_every_turn_advances(s3, answers, now);
    law_every_turn_advances(s4, answers, now);
    law_every_turn_advances(s5, answers, now);
    law_every_turn_advances(s6, answers, now);
    law_every_turn_advances(s7, answers, now);
    assert(turns_left(s0.flow) <= 7);
    assert(s8 == play(world, step, answers, now));
    if s8.effect !is Done {
        assert(s7.effect !is Done);
        assert(s6.effect !is Done);
        assert(s5.effect !is Done);
        assert(s4.effect !is Done);
        assert(s3.effect !is Done);
        assert(s2.effect !is Done);
        assert(s1.effect !is Done);
        assert(s0.effect !is Done);
        assert(turns_left(s8.flow) + 8 <= turns_left(s0.flow));
    }
}

/// Every request is answered: whatever the stores hold and whatever the
/// outside world says, each of the five conversations ends with a reply.
pub proof fn law_every_request_is_answered(
    world: World,
    first: Seq<char>,
    second: Seq<char>,
    third: Seq<char>,
    answers: Answers,
    now: i64,
)
    ensures
        play(world, register_spec(first, second, third), answers, now).reply() is Some,
        play(world, login_spec(first, second), answers, now).reply() is Some,
        play(world, refresh_spec(first), answers, now).reply() is Some,
        play(world, logout_spec(first, second), answers, now).reply() is Some,
        play(world, verify_email_spec(first, second, now), answers, now).reply() is Some,
{
    lemma_register_ends(world, first, second, third, answers, now);
    lemma_login_ends(world, first, second, answers, now);
    lemma_refresh_ends(world, first, answers, now);
    lemma_logout_ends(world, first, second, answers, now);
    lemma_verify_email_ends(world, first, second, answers, now);
}

proof fn lemma_register_ends(
    world: World,
    email: Seq<char>,
    username: Seq<char>,
    password: Seq<char>,
    answers: Answers,
    now: i64,
)
    ensures
        play(world, register_spec(email, username, password), answers, now).reply() is Some,
{
    law_play_ends(world, register_spec(email, username, password), answers, now);
}

proof fn lemma_login_ends(
    world: World,
    email: Seq<char>,
    password: Seq<char>,
    answers: Answers,
    now: i64,
)
    ensures
        play(world, login_spec(email, password), answers, now).reply() is Some,
{
    law_play_ends(world, login_spec(email, password), answers, now);
}

proof fn lemma_refresh_ends(world: World, refresh_token: Seq<char>, answers: Answers, now: i64)
    ensures
        play(world, refresh_spec(refresh_token), answers, now).reply() is Some,
{
    law_play_ends(world, refresh_spec(refresh_token), answers, now);
}

proof fn lemma_logout_ends(
    world: World,
    subject: Seq<char>,
    refresh_token: Seq<char>,
    answers: Answers,
    now: i64,
)
    ensures
        play(world, logout_spec(subject, refresh_token), answers, now).reply() is Some,
{
    law_play_ends(world, logout_spec(subject, refresh_token), answers, now);
}

proof fn lemma_verify_email_ends(
    world: World,
    token: Seq<char>,
    user_id: Seq<char>,
    answers: Answers,
    now: i64,
)
    ensures
        play(world, verify_email_spec(token, user_id, now), answers, now).reply() is Some,
{
    law_play_ends(world, verify_email_spec(token, user_id, now), answers, now);
}

/// In every record, used and revoked go together.
pub open spec fn refresh_tokens_consistent(store: RefreshTokens) -> bool {
    forall|jti: Seq<char>| #[trigger] store.contains_key(jti) ==> store[jti].consistent()
}

/// Records are kept under their own `jti`, stay once they are stored, and
/// once revoked they stay revoked and used at the same instant, whatever
/// the request and whatever the outside world answers. New records are
/// active and unused, and where used and revoked went together in every
/// record, they still do.
pub proof fn law_revocation_is_final(scene: Scene, answers: Answers, now: i64)
    requires
        refresh_tokens_wf(scene.world.refresh_tokens),
        awaits(scene.flow, scene.effect),
    ensures
        ({
            let before = scene.world.refresh_tokens;
            let after = turn(scene, answers, now).world.refresh_tokens;
            &&& refresh_tokens_wf(after)
            &&& forall|jti: Seq<char>| #[trigger]
                before.contains_key(jti) ==> {
                    &&& after.contains_key(jti)
                    &&& before[jti].is_revoked ==> after[jti] == before[jti]
                    &&& after[jti].is_revoked && !before[jti].is_revoked ==> after[jti].used_at
                        is Some && after[jti] == before[jti].revoked(after[jti].used_at.unwrap())
                    &&& !after[jti].is_revoked ==> after[jti] == before[jti]
                }
            &&& forall|jti: Seq<char>| #[trigger]
                after.contains_key(jti) && !before.contains_key(jti) ==> !after[jti].is_revoked
                    && after[jti].used_at is None
            &&& refresh_tokens_consistent(before) ==> refresh_tokens_consistent(after)
        }),
{
    let before = scene.world.refresh_tokens;
    let after = turn(scene, answers, now).world.refresh_tokens;
    let answered = answer(scene.world, scene.effect, answers, scene.issues, now);
    match scene.effect {
        EffectView::CreateRefreshToken { record } => {
            let created = refresh_tokens_create(before, record, answers.record_ids[scene.issues - 1]);
            assert(after == created.0 || after == before);
        },
        EffectView::RevokeRefreshToken { jti, revoked_at } => {
            let revoked = refresh_tokens_revoke(before, jti, revoked_at);
            assert(after == revoked.0 || after == before);
        },
        _ => {
            assert(after == before);
        },
    }
}

/// A revocation is granted once: whoever asks second for the revocation of
/// a `jti`, at whatever time, is told that it was revoked already, and the
/// record keeps the instant of the first.
pub proof fn law_revocation_is_granted_once(
    store: RefreshTokens,
    jti: Seq<char>,
    first_at: i64,
    second_at: i64,
)
    ensures
        ({
            let first = refresh_tokens_revoke(store, jti, first_at);
            let second = refresh_tokens_revoke(first.0, jti, second_at);
            &&& second.1 == RevokeOutcome::AlreadyRevoked
            &&& second.0 == first.0
            &&& first.1 == RevokeOutcome::Revoked <==> store.contains_key(jti)
                && !store[jti].is_revoked
        }),
{
}

/// A refresh hands out new tokens only to the request that was granted the
/// revocation: from the states of a refresh, the only answer that leads to
/// the issuing of tokens is `Revoked`.
pub proof fn law_refresh_issues_only_after_revoking(flow: FlowView, event: EventView, now: i64)
    requires
        flow is RefreshDecoding || flow is RefreshFinding || flow is RefreshRevoking,
        resume_spec(flow, event, now) matches Some(next) && next.1 is IssueTokens,
    ensures
        flow is RefreshRevoking,
        event == EventView::RefreshTokenRevoked(Ok(RevokeOutcome::Revoked)),
{
}

/// Something that a request can have the store of refresh tokens do.
pub enum StoreOp {
    Create { record: NewRefreshTokenRecord, id: Seq<char> },
    Revoke { jti: Seq<char>, at: i64 },
}

/// The store after `op`.
pub open spec fn applied(store: RefreshTokens, op: StoreOp) -> RefreshTokens {
    match op {
        StoreOp::Create { record, id } => refresh_tokens_create(store, record, id).0,
        StoreOp::Revoke { jti, at } => refresh_tokens_revoke(store, jti, at).0,
    }
}

/// Whether `op` is a revocation of `jti` that the store grants.
pub open spec fn grants(store: RefreshTokens, op: StoreOp, jti: Seq<char>) -> bool {
    op matches StoreOp::Revoke { jti: asked, at } && asked == jti && refresh_tokens_revoke(
        store,
        asked,
        at,
    ).1 == RevokeOutcome::Revoked
}

/// How many revocations of `jti` the store grants when it is asked to do
/// `ops` one after the other.
pub open spec fn grants_in(store: RefreshTokens, ops: Seq<StoreOp>, jti: Seq<char>) -> nat
    decreases ops.len(),
{
    if ops.len() == 0 {
        0
    } else {
        let granted: nat = if grants(store, ops[0], jti) {
            1
        } else {
            0
        };
        granted + grants_in(applied(store, ops[0]), ops.skip(1), jti)
    }
}

/// However requests interleave, the revocation of a `jti` is granted at most
/// once: in any sequence of creations and revocations, by whomever and in
/// whatever order, at most one revocation of the `jti` is answered `Revoked`,
/// and none if the record was revoked already. So of any number of requests
/// that present one refresh token, at most one is handed a successor.
pub proof fn law_one_grant_per_token(store: RefreshTokens, ops: Seq<StoreOp>, jti: Seq<char>)
    ensures
        grants_in(store, ops, jti) <= 1,
        store.contains_key(jti) && store[jti].is_revoked ==> grants_in(store, ops, jti) == 0,
    decreases ops.len(),
{
    if ops.len() > 0 {
        let next = applied(store, ops[0]);
        law_one_grant_per_token(next, ops.skip(1), jti);
        if grants(store, ops[0], jti) {
            assert(next.contains_key(jti) && next[jti].is_revoked);
        }
        if store.contains_key(jti) && store[jti].is_revoked {
            assert(next.contains_key(jti) && next[jti].is_revoked);
        }
    }
}

} // verus!
