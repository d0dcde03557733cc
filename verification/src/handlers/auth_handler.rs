//! The five requests of the authentication routes.
//!
//! A request begins with `register`, `login`, `refresh`, `logout` or
//! `verify_email` and goes on with `resume`, once for every answer of the
//! outside world, until the effect is `Done`. The functions decide; they
//! never wait, store or sign.

use vstd::prelude::*;
use vstd::string::*;
use vstd::utf8::encode_utf8;
use crate::digest::{hash_verification_token, token_digest};
use crate::dtos::auth_dto::{LoginReqDto, LogoutDto, RegisterReqDto, VerifyEmailDto};
use crate::dtos::general_res_dto::{GeneralRes, GeneralResDto};
use crate::error::{CustomError, ErrorKind};
use crate::handlers::conversation::{Effect, EffectView, Event, EventView, Flow, FlowView, Reply, ReplyView, Step, StepView, refuse, refused, serve, served};
use crate::handlers::reuse::{classify_reuse, reuse_of, Reuse};
use crate::ids::{object_id_of, parse_object_id};
use crate::models::refresh_token::{NewRefreshToken, NewRefreshTokenRecord};
use crate::models::user::{NewUser, NewUserRecord};
use crate::services::refresh_token_service::RevokeOutcome;
use crate::text::{contains_char, lowercase, lowercase_of};
use crate::types::claims::Claims;

verus! {

/// The shortest user name, in bytes.
pub const MIN_USERNAME_LEN: usize = 5;

/// The shortest password, in bytes.
pub const MIN_PASSWORD_LEN: usize = 8;

/// An email address that can be one: not empty, and with an `@` in it.
pub open spec fn plausible_email(email: Seq<char>) -> bool {
    email.len() > 0 && email.contains('@')
}

/// The instant, in milliseconds, of an expiry given in seconds, if it can be
/// written in 64 bits.
pub open spec fn expiry_millis(exp: usize) -> Option<i64> {
    if exp * 1000 <= i64::MAX {
        Some((exp * 1000) as i64)
    } else {
        None
    }
}

/// The length of a text in bytes, as a string of that text reports it.
pub open spec fn byte_len(text: Seq<char>) -> usize {
    encode_utf8(text).len() as usize
}

/// How a registration begins.
pub open spec fn register_spec(email: Seq<char>, username: Seq<char>, password: Seq<char>) -> StepView {
    if !plausible_email(email) || byte_len(username) < MIN_USERNAME_LEN || byte_len(password)
        < MIN_PASSWORD_LEN {
        refused(ErrorKind::MissingCredentials)
    } else {
        (FlowView::RegisterHashing { email, username }, EffectView::HashPassword { password })
    }
}

/// How a login begins.
pub open spec fn login_spec(email: Seq<char>, password: Seq<char>) -> StepView {
    if !plausible_email(email) || byte_len(password) < MIN_PASSWORD_LEN {
        refused(ErrorKind::MissingCredentials)
    } else {
        (FlowView::LoginFinding { password }, EffectView::FindUserByEmail { email })
    }
}

/// How a refresh begins.
pub open spec fn refresh_spec(refresh_token: Seq<char>) -> StepView {
    if refresh_token.len() == 0 {
        refused(ErrorKind::MissingCredentials)
    } else {
        (FlowView::RefreshDecoding, EffectView::DecodeRefreshToken { token: refresh_token })
    }
}

/// How a logout of the authenticated `subject` begins.
pub open spec fn logout_spec(subject: Seq<char>, refresh_token: Seq<char>) -> StepView {
    if refresh_token.len() == 0 {
        refused(ErrorKind::MissingCredentials)
    } else {
        (
            FlowView::LogoutDecoding { subject },
            EffectView::DecodeRefreshToken { token: refresh_token },
        )
    }
}

/// How an email verification at `now` begins.
pub open spec fn verify_email_spec(token: Seq<char>, user_id: Seq<char>, now: i64) -> StepView {
    match object_id_of(user_id) {
        None => refused(ErrorKind::InvalidToken),
        Some(id) => (
            FlowView::VerifyConsuming { user_id: id },
            EffectView::ConsumeVerification { token_hash: token_digest(token), user_id: id, at: now },
        ),
    }
}

/// The step that asks for a pair of tokens for `subject`.
pub open spec fn issuing(subject: Seq<char>, retried: bool) -> StepView {
    (FlowView::Issuing { subject, retried }, EffectView::IssueTokens { subject })
}

/// What a refresh makes of the record of the presented token at `now`.
/// `raced` says that the store has just refused to revoke the record.
pub open spec fn refresh_found_spec(
    subject: Seq<char>,
    jti: Seq<char>,
    raced: bool,
    expires_at: i64,
    is_revoked: bool,
    used_at: Option<i64>,
    now: i64,
) -> StepView {
    if expires_at < now {
        refused(ErrorKind::TokenExpired)
    } else if is_revoked {
        (
            FlowView::Finished { reuse: Some(reuse_of(used_at, now)) },
            EffectView::Done { result: Err(ErrorKind::InvalidToken) },
        )
    } else if raced {
        (
            FlowView::Finished { reuse: Some(Reuse::Inconsistent) },
            EffectView::Done { result: Err(ErrorKind::InvalidToken) },
        )
    } else {
        (
            FlowView::RefreshRevoking { subject, jti },
            EffectView::RevokeRefreshToken { jti, revoked_at: now },
        )
    }
}

/// The next step of a request that stands at `flow` when `event` arrives at
/// `now`; none when `event` does not answer what `flow` asked for.
pub open spec fn resume_spec(flow: FlowView, event: EventView, now: i64) -> Option<StepView> {
    match (flow, event) {
        (FlowView::RegisterHashing { email, username }, EventView::PasswordHashed(hashed)) => Some(
            match hashed {
                Err(_) => refused(ErrorKind::HashError),
                Ok(hash) => (
                    FlowView::RegisterCreating { email: lowercase_of(email), username },
                    EffectView::CreateUser {
                        user: NewUserRecord::joined(username, lowercase_of(email), hash, now),
                    },
                ),
            },
        ),
        (FlowView::RegisterCreating { email, username }, EventView::UserCreated(created)) => Some(
            match created {
                Err(e) => refused(e),
                Ok(id) => (
                    FlowView::RegisterNotifying { subject: id },
                    EffectView::SendVerification { user_id: id, username, email },
                ),
            },
        ),
        (FlowView::RegisterNotifying { subject }, EventView::VerificationStarted) => Some(
            issuing(subject, false),
        ),
        (FlowView::LoginFinding { password }, EventView::UserFound(found)) => Some(
            match found {
                Err(e) => refused(e),
                Ok(user) => (
                    FlowView::LoginChecking { subject: user.id },
                    EffectView::CheckPassword { password, password_hash: user.password },
                ),
            },
        ),
        (FlowView::LoginChecking { subject }, EventView::PasswordChecked(checked)) => Some(
            match checked {
                Err(e) => refused(e),
                Ok(()) => issuing(subject, false),
            },
        ),
        (FlowView::Issuing { subject, retried }, EventView::TokensIssued(issued)) => Some(
            match issued {
                Err(_) => refused(ErrorKind::TokenCreation),
                Ok(issue) => match expiry_millis(issue.2) {
                    None => refused(ErrorKind::TokenCreation),
                    Some(expires_at) => (
                        FlowView::Persisting { subject, retried, tokens: issue.0 },
                        EffectView::CreateRefreshToken {
                            record: NewRefreshTokenRecord::active(subject, issue.1, now, expires_at),
                        },
                    ),
                },
            },
        ),
        (
            FlowView::Persisting { subject, retried, tokens },
            EventView::RefreshTokenCreated(created),
        ) => Some(
            match created {
                Ok(_) => served(ReplyView::Tokens(tokens)),
                Err(_) => if retried {
                    refused(ErrorKind::TokenCreation)
                } else {
                    issuing(subject, true)
                },
            },
        ),
        (FlowView::RefreshDecoding, EventView::RefreshTokenDecoded(decoded)) => Some(
            match decoded {
                Err(e) => refused(e),
                Ok(claims) => if claims.jti.len() == 0 {
                    refused(ErrorKind::MissingCredentials)
                } else {
                    (
                        FlowView::RefreshFinding {
                            subject: claims.sub,
                            jti: claims.jti,
                            raced: false,
                        },
                        EffectView::FindRefreshToken { jti: claims.jti },
                    )
                },
            },
        ),
        (FlowView::RefreshFinding { subject, jti, raced }, EventView::RefreshTokenFound(found)) => Some(
            match found {
                Err(ErrorKind::NotFoundError(_)) => refused(ErrorKind::InvalidToken),
                Err(e) => refused(e),
                Ok(record) => refresh_found_spec(
                    subject,
                    jti,
                    raced,
                    record.expires_at,
                    record.is_revoked,
                    record.used_at,
                    now,
                ),
            },
        ),
        (FlowView::RefreshRevoking { subject, jti }, EventView::RefreshTokenRevoked(revoked)) => Some(
            match revoked {
                Err(e) => refused(e),
                Ok(RevokeOutcome::Revoked) => issuing(subject, false),
                Ok(RevokeOutcome::AlreadyRevoked) => (
                    FlowView::RefreshFinding { subject, jti, raced: true },
                    EffectView::FindRefreshToken { jti },
                ),
            },
        ),
        (FlowView::LogoutDecoding { subject }, EventView::RefreshTokenDecoded(decoded)) => Some(
            match decoded {
                Err(e) => refused(e),
                Ok(claims) => if claims.jti.len() == 0 {
                    refused(ErrorKind::MissingCredentials)
                } else if claims.sub != subject {
                    refused(ErrorKind::WrongCredentials)
                } else {
                    (
                        FlowView::LogoutRevoking,
                        EffectView::RevokeRefreshToken { jti: claims.jti, revoked_at: now },
                    )
                },
            },
        ),
        (FlowView::LogoutRevoking, EventView::RefreshTokenRevoked(revoked)) => Some(
            match revoked {
                Err(e) => refused(e),
                Ok(_) => served(ReplyView::General(GeneralRes::ok())),
            },
        ),
        (FlowView::VerifyConsuming { user_id }, EventView::VerificationConsumed(consumed)) => Some(
            match consumed {
                Err(_) => refused(ErrorKind::InvalidToken),
                Ok(()) => (FlowView::VerifyMarking, EffectView::MarkEmailVerified { user_id }),
            },
        ),
        (FlowView::VerifyMarking, EventView::EmailMarkedVerified(marked)) => Some(
            match marked {
                Err(e) => refused(e),
                Ok(()) => served(ReplyView::General(GeneralRes::ok())),
            },
        ),
        _ => None,
    }
}

/// What a step says, if there is one.
pub open spec fn step_view(step: Option<Step>) -> Option<StepView> {
    match step {
        Some(s) => Some((s.0@, s.1@)),
        None => None,
    }
}

/// Whether `email` can be an email address.
pub fn email_is_plausible(email: &str) -> (ok: bool)
    ensures
        ok == plausible_email(email@),
{
    !email.is_empty() && contains_char(email, '@')
}

/// The instant, in milliseconds, of an expiry given in seconds.
pub fn expiry_to_millis(exp: usize) -> (r: Option<i64>)
    ensures
        r == expiry_millis(exp),
{
    if exp as u64 <= 9_223_372_036_854_775u64 {
        Some((exp as i64) * 1000)
    } else {
        None
    }
}

/// Begins a registration: refuses credentials that cannot be right, else
/// asks for the password to be hashed.
pub fn register(payload: RegisterReqDto) -> (step: Step)
    ensures
        (step.0@, step.1@) == register_spec(payload.email@, payload.username@, payload.password@),
{
    if !email_is_plausible(payload.email.as_str()) || payload.username.as_str().len()
        < MIN_USERNAME_LEN || payload.password.as_str().len() < MIN_PASSWORD_LEN {
        refuse(CustomError::MissingCredentials)
    } else {
        (
            Flow::RegisterHashing { email: payload.email, username: payload.username },
            Effect::HashPassword { password: payload.password },
        )
    }
}

/// Begins a login: refuses credentials that cannot be right, else asks for
/// the identity.
pub fn login(payload: LoginReqDto) -> (step: Step)
    ensures
        (step.0@, step.1@) == login_spec(payload.email@, payload.password@),
{
    if !email_is_plausible(payload.email.as_str()) || payload.password.as_str().len()
        < MIN_PASSWORD_LEN {
        refuse(CustomError::MissingCredentials)
    } else {
        (
            Flow::LoginFinding { password: payload.password },
            Effect::FindUserByEmail { email: payload.email },
        )
    }
}

/// Begins a refresh: refuses an empty token, else asks for the token to be
/// decoded.
pub fn refresh(payload: LogoutDto) -> (step: Step)
    ensures
        (step.0@, step.1@) == refresh_spec(payload.refresh_token@),
{
    if payload.refresh_token.as_str().is_empty() {
        refuse(CustomError::MissingCredentials)
    } else {
        (Flow::RefreshDecoding, Effect::DecodeRefreshToken { token: payload.refresh_token })
    }
}

/// Begins the logout of the caller whose access token carried `claims`:
/// refuses an empty token, else asks for the token to be decoded.
pub fn logout(claims: Claims, payload: LogoutDto) -> (step: Step)
    ensures
        (step.0@, step.1@) == logout_spec(claims.sub@, payload.refresh_token@),
{
    if payload.refresh_token.as_str().is_empty() {
        refuse(CustomError::MissingCredentials)
    } else {
        (
            Flow::LogoutDecoding { subject: claims.sub },
            Effect::DecodeRefreshToken { token: payload.refresh_token },
        )
    }
}

/// Begins an email verification at `now`: refuses a user id that is none as
/// an invalid token, else asks for the record under the token's digest to be
/// consumed.
pub fn verify_email(payload: VerifyEmailDto, now: i64) -> (step: Step)
    ensures
        (step.0@, step.1@) == verify_email_spec(payload.token@, payload.user_id@, now),
{
    match parse_object_id(payload.user_id.as_str()) {
        None => refuse(CustomError::InvalidToken),
        Some(id) => {
            let token_hash = hash_verification_token(payload.token.as_str());
            (
                Flow::VerifyConsuming { user_id: id.clone() },
                Effect::ConsumeVerification { token_hash, user_id: id, at: now },
            )
        },
    }
}

/// The step that asks for a pair of tokens for `subject`.
fn issue(subject: String, retried: bool) -> (step: Step)
    ensures
        (step.0@, step.1@) == issuing(subject@, retried),
{
    (Flow::Issuing { subject: subject.clone(), retried }, Effect::IssueTokens { subject })
}

/// The step that ends a refresh on a revoked record.
fn reject_reuse(reuse: Reuse) -> (step: Step)
    ensures
        step.0@ == (FlowView::Finished { reuse: Some(reuse) }),
        step.1@ == (EffectView::Done { result: Err(ErrorKind::InvalidToken) }),
{
    (Flow::Finished { reuse: Some(reuse) }, Effect::Done { result: Err(CustomError::InvalidToken) })
}

/// Takes a request one step further: given where it stands and the answer
/// that arrived at `now`, says where it stands next and what it asks for.
/// An answer to a question that was not asked is no step at all.
pub fn resume(flow: Flow, event: Event, now: i64) -> (next: Option<Step>)
    ensures
        step_view(next) == resume_spec(flow@, event@, now),
{
    match (flow, event) {
        (Flow::RegisterHashing { email, username }, Event::PasswordHashed(hashed)) => Some(
            match hashed {
                Err(_) => refuse(CustomError::HashError),
                Ok(hash) => {
                    let lower = lowercase(email.as_str());
                    let user = NewUser::joined(username.clone(), lower.clone(), hash, now);
                    (Flow::RegisterCreating { email: lower, username }, Effect::CreateUser { user })
                },
            },
        ),
        (Flow::RegisterCreating { email, username }, Event::UserCreated(created)) => Some(
            match created {
                Err(e) => refuse(e),
                Ok(id) => (
                    Flow::RegisterNotifying { subject: id.clone() },
                    Effect::SendVerification { user_id: id, username, email },
                ),
            },
        ),
        (Flow::RegisterNotifying { subject }, Event::VerificationStarted) => Some(
            issue(subject, false),
        ),
        (Flow::LoginFinding { password }, Event::UserFound(found)) => Some(
            match found {
                Err(e) => refuse(e),
                Ok(user) => (
                    Flow::LoginChecking { subject: user.id },
                    Effect::CheckPassword { password, password_hash: user.password },
                ),
            },
        ),
        (Flow::LoginChecking { subject }, Event::PasswordChecked(checked)) => Some(
            match checked {
                Err(e) => refuse(e),
                Ok(()) => issue(subject, false),
            },
        ),
        (Flow::Issuing { subject, retried }, Event::TokensIssued(issued)) => Some(
            match issued {
                Err(_) => refuse(CustomError::TokenCreation),
                Ok(issue) => match expiry_to_millis(issue.2) {
                    None => refuse(CustomError::TokenCreation),
                    Some(expires_at) => {
                        let record = NewRefreshToken::active(
                            subject.clone(),
                            issue.1,
                            now,
                            expires_at,
                        );
                        (
                            Flow::Persisting { subject, retried, tokens: issue.0 },
                            Effect::CreateRefreshToken { record },
                        )
                    },
                },
            },
        ),
        (Flow::Persisting { subject, retried, tokens }, Event::RefreshTokenCreated(created)) => Some(
            match created {
                Ok(_) => serve(Reply::Tokens(tokens)),
                Err(_) => if retried {
                    refuse(CustomError::TokenCreation)
                } else {
                    issue(subject, true)
                },
            },
        ),
        (Flow::RefreshDecoding, Event::RefreshTokenDecoded(decoded)) => Some(
            match decoded {
                Err(e) => refuse(e),
                Ok(claims) => if claims.jti.as_str().is_empty() {
                    refuse(CustomError::MissingCredentials)
                } else {
                    (
                        Flow::RefreshFinding {
                            subject: claims.sub,
                            jti: claims.jti.clone(),
                            raced: false,
                        },
                        Effect::FindRefreshToken { jti: claims.jti },
                    )
                },
            },
        ),
        (Flow::RefreshFinding { subject, jti, raced }, Event::RefreshTokenFound(found)) => Some(
            match found {
                Err(CustomError::NotFoundError(_)) => refuse(CustomError::InvalidToken),
                Err(e) => refuse(e),
                Ok(record) => if record.expires_at < now {
                    refuse(CustomError::TokenExpired)
                } else if record.is_revoked {
                    reject_reuse(classify_reuse(record.used_at, now))
                } else if raced {
                    reject_reuse(Reuse::Inconsistent)
                } else {
                    (
                        Flow::RefreshRevoking { subject, jti: jti.clone() },
                        Effect::RevokeRefreshToken { jti, revoked_at: now },
                    )
                },
            },
        ),
        (Flow::RefreshRevoking { subject, jti }, Event::RefreshTokenRevoked(revoked)) => Some(
            match revoked {
                Err(e) => refuse(e),
                Ok(RevokeOutcome::Revoked) => issue(subject, false),
                Ok(RevokeOutcome::AlreadyRevoked) => (
                    Flow::RefreshFinding { subject, jti: jti.clone(), raced: true },
                    Effect::FindRefreshToken { jti },
                ),
            },
        ),
        (Flow::LogoutDecoding { subject }, Event::RefreshTokenDecoded(decoded)) => Some(
            match decoded {
                Err(e) => refuse(e),
                Ok(claims) => if claims.jti.as_str().is_empty() {
                    refuse(CustomError::MissingCredentials)
                } else if !(claims.sub == subject) {
                    refuse(CustomError::WrongCredentials)
                } else {
                    (
                        Flow::LogoutRevoking,
                        Effect::RevokeRefreshToken { jti: claims.jti, revoked_at: now },
                    )
                },
            },
        ),
        (Flow::LogoutRevoking, Event::RefreshTokenRevoked(revoked)) => Some(
            match revoked {
                Err(e) => refuse(e),
                Ok(_) => serve(Reply::General(GeneralResDto::ok())),
            },
        ),
        (Flow::VerifyConsuming { user_id }, Event::VerificationConsumed(consumed)) => Some(
            match consumed {
                Err(_) => refuse(CustomError::InvalidToken),
                Ok(()) => (Flow::VerifyMarking, Effect::MarkEmailVerified { user_id }),
            },
        ),
        (Flow::VerifyMarking, Event::EmailMarkedVerified(marked)) => Some(
            match marked {
                Err(e) => refuse(e),
                Ok(()) => serve(Reply::General(GeneralResDto::ok())),
            },
        ),
        _ => None,
    }
}

} // verus!
