//! The vocabulary of a conversation: what a request can ask the outside
//! world to do (`Effect`), what the outside world answers (`Event`), and
//! where the request stands in between (`Flow`).

use vstd::prelude::*;
use crate::dtos::auth_dto::{AuthResDto, TokenPair};
use crate::dtos::general_res_dto::{GeneralRes, GeneralResDto};
use crate::error::{CustomError, ErrorKind};
use crate::handlers::reuse::Reuse;
use crate::models::refresh_token::{NewRefreshToken, NewRefreshTokenRecord, RefreshToken, RefreshTokenRecord};
use crate::models::user::{NewUser, NewUserRecord, User, UserRecord};
use crate::services::auth_service::Issued;
use crate::services::refresh_token_service::RevokeOutcome;
use crate::types::refresh_claims::{RefreshClaims, RefreshClaimsView};

verus! {

/// What a request is answered with when it succeeds.
#[derive(Debug, PartialEq, Eq)]
pub enum Reply {
    Tokens(AuthResDto),
    General(GeneralResDto),
}

/// What a `Reply` says.
pub enum ReplyView {
    Tokens(TokenPair),
    General(GeneralRes),
}

impl View for Reply {
    type V = ReplyView;

    open spec fn view(&self) -> ReplyView {
        match self {
            Reply::Tokens(pair) => ReplyView::Tokens(pair@),
            Reply::General(res) => ReplyView::General(res@),
        }
    }
}

/// The next thing that the outside world has to do for a request. Each
/// effect but `Done` is answered by the event of the same name.
#[derive(Debug, PartialEq, Eq)]
pub enum Effect {
    /// Hash the password with a fresh salt.
    HashPassword { password: String },
    /// Store the identity.
    CreateUser { user: NewUser },
    /// Start sending the verification email, and do not wait for it.
    SendVerification { user_id: String, username: String, email: String },
    /// Look the identity up by its email address.
    FindUserByEmail { email: String },
    /// Check the password against the encoded hash.
    CheckPassword { password: String, password_hash: String },
    /// Sign a new pair of tokens for the subject.
    IssueTokens { subject: String },
    /// Store the refresh-token record.
    CreateRefreshToken { record: NewRefreshToken },
    /// Decode and validate the refresh token, its expiry included.
    DecodeRefreshToken { token: String },
    /// Look the refresh-token record up by its `jti`.
    FindRefreshToken { jti: String },
    /// Revoke the record if it is active, in one atomic step.
    RevokeRefreshToken { jti: String, revoked_at: i64 },
    /// Mark the matching verification record used if it is unused, unexpired
    /// and the user's, in one atomic step.
    ConsumeVerification { token_hash: String, user_id: String, at: i64 },
    /// Set the identity's email-verified flag.
    MarkEmailVerified { user_id: String },
    /// Answer the request.
    Done { result: Result<Reply, CustomError> },
}

/// What an `Effect` says.
pub enum EffectView {
    HashPassword { password: Seq<char> },
    CreateUser { user: NewUserRecord },
    SendVerification { user_id: Seq<char>, username: Seq<char>, email: Seq<char> },
    FindUserByEmail { email: Seq<char> },
    CheckPassword { password: Seq<char>, password_hash: Seq<char> },
    IssueTokens { subject: Seq<char> },
    CreateRefreshToken { record: NewRefreshTokenRecord },
    DecodeRefreshToken { token: Seq<char> },
    FindRefreshToken { jti: Seq<char> },
    RevokeRefreshToken { jti: Seq<char>, revoked_at: i64 },
    ConsumeVerification { token_hash: Seq<char>, user_id: Seq<char>, at: i64 },
    MarkEmailVerified { user_id: Seq<char> },
    Done { result: Result<ReplyView, ErrorKind> },
}

impl View for Effect {
    type V = EffectView;

    open spec fn view(&self) -> EffectView {
        match self {
            Effect::HashPassword { password } => EffectView::HashPassword { password: password@ },
            Effect::CreateUser { user } => EffectView::CreateUser { user: user@ },
            Effect::SendVerification { user_id, username, email } => EffectView::SendVerification {
                user_id: user_id@,
                username: username@,
                email: email@,
            },
            Effect::FindUserByEmail { email } => EffectView::FindUserByEmail { email: email@ },
            Effect::CheckPassword { password, password_hash } => EffectView::CheckPassword {
                password: password@,
                password_hash: password_hash@,
            },
            Effect::IssueTokens { subject } => EffectView::IssueTokens { subject: subject@ },
            Effect::CreateRefreshToken { record } => EffectView::CreateRefreshToken {
                record: record@,
            },
            Effect::DecodeRefreshToken { token } => EffectView::DecodeRefreshToken { token: token@ },
            Effect::FindRefreshToken { jti } => EffectView::FindRefreshToken { jti: jti@ },
            Effect::RevokeRefreshToken { jti, revoked_at } => EffectView::RevokeRefreshToken {
                jti: jti@,
                revoked_at: *revoked_at,
            },
            Effect::ConsumeVerification { token_hash, user_id, at } => EffectView::ConsumeVerification {
                token_hash: token_hash@,
                user_id: user_id@,
                at: *at,
            },
            Effect::MarkEmailVerified { user_id } => EffectView::MarkEmailVerified {
                user_id: user_id@,
            },
            Effect::Done { result } => EffectView::Done {
                result: match result {
                    Ok(reply) => Ok(reply@),
                    Err(e) => Err(e@),
                },
            },
        }
    }
}

/// What the outside world answers to an effect.
#[derive(Debug, PartialEq, Eq)]
pub enum Event {
    PasswordHashed(Result<String, CustomError>),
    UserCreated(Result<String, CustomError>),
    VerificationStarted,
    UserFound(Result<User, CustomError>),
    PasswordChecked(Result<(), CustomError>),
    TokensIssued(Result<Issued, CustomError>),
    RefreshTokenCreated(Result<String, CustomError>),
    RefreshTokenDecoded(Result<RefreshClaims, CustomError>),
    RefreshTokenFound(Result<RefreshToken, CustomError>),
    RefreshTokenRevoked(Result<RevokeOutcome, CustomError>),
    VerificationConsumed(Result<(), CustomError>),
    EmailMarkedVerified(Result<(), CustomError>),
}

/// What an `Event` says.
pub enum EventView {
    PasswordHashed(Result<Seq<char>, ErrorKind>),
    UserCreated(Result<Seq<char>, ErrorKind>),
    VerificationStarted,
    UserFound(Result<UserRecord, ErrorKind>),
    PasswordChecked(Result<(), ErrorKind>),
    TokensIssued(Result<(TokenPair, Seq<char>, usize), ErrorKind>),
    RefreshTokenCreated(Result<Seq<char>, ErrorKind>),
    RefreshTokenDecoded(Result<RefreshClaimsView, ErrorKind>),
    RefreshTokenFound(Result<RefreshTokenRecord, ErrorKind>),
    RefreshTokenRevoked(Result<RevokeOutcome, ErrorKind>),
    VerificationConsumed(Result<(), ErrorKind>),
    EmailMarkedVerified(Result<(), ErrorKind>),
}

impl View for Event {
    type V = EventView;

    open spec fn view(&self) -> EventView {
        match self {
            Event::PasswordHashed(r) => EventView::PasswordHashed(
                match r {
                    Ok(hash) => Ok(hash@),
                    Err(e) => Err(e@),
                },
            ),
            Event::UserCreated(r) => EventView::UserCreated(
                match r {
                    Ok(id) => Ok(id@),
                    Err(e) => Err(e@),
                },
            ),
            Event::VerificationStarted => EventView::VerificationStarted,
            Event::UserFound(r) => EventView::UserFound(
                match r {
                    Ok(user) => Ok(user@),
                    Err(e) => Err(e@),
                },
            ),
            Event::PasswordChecked(r) => EventView::PasswordChecked(
                match r {
                    Ok(()) => Ok(()),
                    Err(e) => Err(e@),
                },
            ),
            Event::TokensIssued(r) => EventView::TokensIssued(
                match r {
                    Ok(issued) => Ok((issued.0@, issued.1@, issued.2)),
                    Err(e) => Err(e@),
                },
            ),
            Event::RefreshTokenCreated(r) => EventView::RefreshTokenCreated(
                match r {
                    Ok(id) => Ok(id@),
                    Err(e) => Err(e@),
                },
            ),
            Event::RefreshTokenDecoded(r) => EventView::RefreshTokenDecoded(
                match r {
                    Ok(claims) => Ok(claims@),
                    Err(e) => Err(e@),
                },
            ),
            Event::RefreshTokenFound(r) => EventView::RefreshTokenFound(
                match r {
                    Ok(record) => Ok(record@),
                    Err(e) => Err(e@),
                },
            ),
            Event::RefreshTokenRevoked(r) => EventView::RefreshTokenRevoked(
                match r {
                    Ok(outcome) => Ok(*outcome),
                    Err(e) => Err(e@),
                },
            ),
            Event::VerificationConsumed(r) => EventView::VerificationConsumed(
                match r {
                    Ok(()) => Ok(()),
                    Err(e) => Err(e@),
                },
            ),
            Event::EmailMarkedVerified(r) => EventView::EmailMarkedVerified(
                match r {
                    Ok(()) => Ok(()),
                    Err(e) => Err(e@),
                },
            ),
        }
    }
}

/// Where a request stands: what it is waiting for, and what it has to
/// remember until the answer comes.
#[derive(Debug, PartialEq, Eq)]
pub enum Flow {
    /// Registration: waiting for the password hash.
    RegisterHashing { email: String, username: String },
    /// Registration: waiting for the identity to be stored.
    RegisterCreating { email: String, username: String },
    /// Registration: waiting for the verification email to be under way.
    RegisterNotifying { subject: String },
    /// Login: waiting for the identity.
    LoginFinding { password: String },
    /// Login: waiting for the password check.
    LoginChecking { subject: String },
    /// Waiting for a new pair of tokens; `retried` once a pair was lost to a
    /// failed attempt to store its record.
    Issuing { subject: String, retried: bool },
    /// Waiting for the record of `tokens` to be stored.
    Persisting { subject: String, retried: bool, tokens: AuthResDto },
    /// Refresh: waiting for the claims of the presented token.
    RefreshDecoding,
    /// Refresh: waiting for the record; `raced` when the record is looked up
    /// again because another request revoked it first.
    RefreshFinding { subject: String, jti: String, raced: bool },
    /// Refresh: waiting for the revocation of the presented token.
    RefreshRevoking { subject: String, jti: String },
    /// Logout: waiting for the claims of the presented token.
    LogoutDecoding { subject: String },
    /// Logout: waiting for the revocation.
    LogoutRevoking,
    /// Email verification: waiting for the token to be consumed.
    VerifyConsuming { user_id: String },
    /// Email verification: waiting for the flag to be set.
    VerifyMarking,
    /// The request was answered. `reuse` says what was made of a revoked
    /// refresh token, if one was presented.
    Finished { reuse: Option<Reuse> },
}

/// What a `Flow` says.
pub enum FlowView {
    RegisterHashing { email: Seq<char>, username: Seq<char> },
    RegisterCreating { email: Seq<char>, username: Seq<char> },
    RegisterNotifying { subject: Seq<char> },
    LoginFinding { password: Seq<char> },
    LoginChecking { subject: Seq<char> },
    Issuing { subject: Seq<char>, retried: bool },
    Persisting { subject: Seq<char>, retried: bool, tokens: TokenPair },
    RefreshDecoding,
    RefreshFinding { subject: Seq<char>, jti: Seq<char>, raced: bool },
    RefreshRevoking { subject: Seq<char>, jti: Seq<char> },
    LogoutDecoding { subject: Seq<char> },
    LogoutRevoking,
    VerifyConsuming { user_id: Seq<char> },
    VerifyMarking,
    Finished { reuse: Option<Reuse> },
}

impl View for Flow {
    type V = FlowView;

    open spec fn view(&self) -> FlowView {
        match self {
            Flow::RegisterHashing { email, username } => FlowView::RegisterHashing {
                email: email@,
                username: username@,
            },
            Flow::RegisterCreating { email, username } => FlowView::RegisterCreating {
                email: email@,
                username: username@,
            },
            Flow::RegisterNotifying { subject } => FlowView::RegisterNotifying { subject: subject@ },
            Flow::LoginFinding { password } => FlowView::LoginFinding { password: password@ },
            Flow::LoginChecking { subject } => FlowView::LoginChecking { subject: subject@ },
            Flow::Issuing { subject, retried } => FlowView::Issuing {
                subject: subject@,
                retried: *retried,
            },
            Flow::Persisting { subject, retried, tokens } => FlowView::Persisting {
                subject: subject@,
                retried: *retried,
                tokens: tokens@,
            },
            Flow::RefreshDecoding => FlowView::RefreshDecoding,
            Flow::RefreshFinding { subject, jti, raced } => FlowView::RefreshFinding {
                subject: subject@,
                jti: jti@,
                raced: *raced,
            },
            Flow::RefreshRevoking { subject, jti } => FlowView::RefreshRevoking {
                subject: subject@,
                jti: jti@,
            },
            Flow::LogoutDecoding { subject } => FlowView::LogoutDecoding { subject: subject@ },
            Flow::LogoutRevoking => FlowView::LogoutRevoking,
            Flow::VerifyConsuming { user_id } => FlowView::VerifyConsuming { user_id: user_id@ },
            Flow::VerifyMarking => FlowView::VerifyMarking,
            Flow::Finished { reuse } => FlowView::Finished { reuse: *reuse },
        }
    }
}

/// One step of a conversation: where the request stands now, and what it
/// asks for.
pub type Step = (Flow, Effect);

/// What a `Step` says.
pub type StepView = (FlowView, EffectView);

/// The step that ends a conversation with `error`.
pub open spec fn refused(error: ErrorKind) -> StepView {
    (FlowView::Finished { reuse: None }, EffectView::Done { result: Err(error) })
}

/// The step that ends a conversation with `reply`.
pub open spec fn served(reply: ReplyView) -> StepView {
    (FlowView::Finished { reuse: None }, EffectView::Done { result: Ok(reply) })
}

/// The step that ends a conversation with `error`.
pub fn refuse(error: CustomError) -> (step: Step)
    ensures
        (step.0@, step.1@) == refused(error@),
{
    (Flow::Finished { reuse: None }, Effect::Done { result: Err(error) })
}

/// The step that ends a conversation with `reply`.
pub fn serve(reply: Reply) -> (step: Step)
    ensures
        (step.0@, step.1@) == served(reply@),
{
    (Flow::Finished { reuse: None }, Effect::Done { result: Ok(reply) })
}

} // verus!
