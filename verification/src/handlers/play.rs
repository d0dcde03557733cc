//! A conversation played to its end against the stores of record.
//!
//! `World` is what the stores hold, `Answers` is everything else that the
//! outside world says during one request. `play` runs a request from its
//! first step to its reply: the stores answer as their maps say and never
//! fail, a password is checked as the stored hash says, and the rest is read
//! from the `Answers`.

use vstd::prelude::*;
use crate::dtos::auth_dto::TokenPair;
use crate::error::ErrorKind;
use crate::handlers::auth_handler::resume_spec;
use crate::handlers::conversation::{EffectView, EventView, FlowView, ReplyView, StepView};
use crate::services::auth_service::verify_password_spec;
use crate::services::email_verif_token_service::{VerifTokens, verif_tokens_consume};
use crate::services::refresh_token_service::{RefreshTokens, refresh_tokens_create, refresh_tokens_find, refresh_tokens_revoke};
use crate::services::user_service::{Users, users_by_email, users_create, users_verify};
use crate::types::refresh_claims::RefreshClaimsView;

verus! {

/// What the stores hold: the identities, the refresh-token records, the
/// verification records, and the users whose email address was marked
/// verified, in the order in which that happened.
pub struct World {
    pub users: Users,
    pub refresh_tokens: RefreshTokens,
    pub verif_tokens: VerifTokens,
    pub verified: Seq<Seq<char>>,
}

/// What the outside world says during one request, the stores apart: the
/// hash of the password, the id under which a new identity is stored, the
/// claims of the presented refresh token, and the tokens that are issued
/// with the ids under which their records are stored. Tokens are issued and
/// records are created up to twice in a request; the sequences hold what the
/// first and the second time bring.
pub struct Answers {
    pub hashed: Result<Seq<char>, ErrorKind>,
    pub user_id: Seq<char>,
    pub decoded: Result<RefreshClaimsView, ErrorKind>,
    pub issued: Seq<Result<(TokenPair, Seq<char>, usize), ErrorKind>>,
    pub record_ids: Seq<Seq<char>>,
}

/// A request under way: the world, where the request stands, what it asks
/// for, and how many pairs of tokens it was given so far.
pub struct Scene {
    pub world: World,
    pub flow: FlowView,
    pub effect: EffectView,
    pub issues: nat,
}

impl Scene {
    /// The reply, once the request is answered.
    pub open spec fn reply(self) -> Option<Result<ReplyView, ErrorKind>> {
        match self.effect {
            EffectView::Done { result } => Some(result),
            _ => None,
        }
    }

    /// Whether the request was answered with a success.
    pub open spec fn succeeded(self) -> bool {
        self.reply() matches Some(Ok(_))
    }
}

/// What the world answers to `effect` at `now`, and the world afterwards.
pub open spec fn answer(
    world: World,
    effect: EffectView,
    answers: Answers,
    issues: nat,
    now: i64,
) -> (World, EventView) {
    match effect {
        EffectView::HashPassword { .. } => (world, EventView::PasswordHashed(answers.hashed)),
        EffectView::CreateUser { user } => {
            let created = users_create(world.users, user, answers.user_id);
            (World { users: created.0, ..world }, EventView::UserCreated(created.1))
        },
        EffectView::SendVerification { .. } => (world, EventView::VerificationStarted),
        EffectView::FindUserByEmail { email } => (
            world,
            EventView::UserFound(users_by_email(world.users, email)),
        ),
        EffectView::CheckPassword { password, password_hash } => (
            world,
            EventView::PasswordChecked(verify_password_spec(password, password_hash)),
        ),
        EffectView::IssueTokens { .. } => (world, EventView::TokensIssued(answers.issued[issues as int])),
        EffectView::CreateRefreshToken { record } => {
            let created = refresh_tokens_create(
                world.refresh_tokens,
                record,
                answers.record_ids[issues - 1],
            );
            (
                World { refresh_tokens: created.0, ..world },
                EventView::RefreshTokenCreated(created.1),
            )
        },
        EffectView::DecodeRefreshToken { .. } => (
            world,
            EventView::RefreshTokenDecoded(answers.decoded),
        ),
        EffectView::FindRefreshToken { jti } => (
            world,
            EventView::RefreshTokenFound(refresh_tokens_find(world.refresh_tokens, jti)),
        ),
        EffectView::RevokeRefreshToken { jti, revoked_at } => {
            let revoked = refresh_tokens_revoke(world.refresh_tokens, jti, revoked_at);
            (
                World { refresh_tokens: revoked.0, ..world },
                EventView::RefreshTokenRevoked(Ok(revoked.1)),
            )
        },
        EffectView::ConsumeVerification { token_hash, user_id, at } => {
            let consumed = verif_tokens_consume(world.verif_tokens, token_hash, user_id, at);
            (
                World { verif_tokens: consumed.0, ..world },
                EventView::VerificationConsumed(consumed.1),
            )
        },
        EffectView::MarkEmailVerified { user_id } => {
            let marked = users_verify(world.users, user_id, now);
            (
                match marked.1 {
                    Ok(()) => World {
                        users: marked.0,
                        verified: world.verified.push(user_id),
                        ..world
                    },
                    Err(_) => world,
                },
                EventView::EmailMarkedVerified(marked.1),
            )
        },
        EffectView::Done { .. } => (world, EventView::VerificationStarted),
    }
}

/// One turn of the conversation at `now`: the world answers what the request
/// asks for, and the request goes on from the answer. A request that was
/// answered stays as it is.
pub open spec fn turn(scene: Scene, answers: Answers, now: i64) -> Scene {
    if scene.effect is Done {
        scene
    } else {
        let answered = answer(scene.world, scene.effect, answers, scene.issues, now);
        let issues = if scene.effect is IssueTokens {
            scene.issues + 1
        } else {
            scene.issues
        };
        match resume_spec(scene.flow, answered.1, now) {
            Some(next) => Scene { world: answered.0, flow: next.0, effect: next.1, issues },
            None => scene,
        }
    }
}

/// Whether `effect` is what a request that stands at `flow` is waiting for.
/// A record that a request asks to be stored is active and unused.
pub open spec fn awaits(flow: FlowView, effect: EffectView) -> bool {
    match flow {
        FlowView::RegisterHashing { .. } => effect is HashPassword,
        FlowView::RegisterCreating { .. } => effect is CreateUser,
        FlowView::RegisterNotifying { .. } => effect is SendVerification,
        FlowView::LoginFinding { .. } => effect is FindUserByEmail,
        FlowView::LoginChecking { .. } => effect is CheckPassword,
        FlowView::Issuing { .. } => effect is IssueTokens,
        FlowView::Persisting { .. } => effect matches EffectView::CreateRefreshToken { record }
            && !record.is_revoked && record.used_at is None,
        FlowView::RefreshDecoding => effect is DecodeRefreshToken,
        FlowView::RefreshFinding { .. } => effect is FindRefreshToken,
        FlowView::RefreshRevoking { .. } => effect is RevokeRefreshToken,
        FlowView::LogoutDecoding { .. } => effect is DecodeRefreshToken,
        FlowView::LogoutRevoking => effect is RevokeRefreshToken,
        FlowView::VerifyConsuming { .. } => effect is ConsumeVerification,
        FlowView::VerifyMarking => effect is MarkEmailVerified,
        FlowView::Finished { .. } => effect is Done,
    }
}

/// The most answers that a request that stands at `flow` can still need.
pub open spec fn turns_left(flow: FlowView) -> nat {
    match flow {
        FlowView::Finished { .. } => 0,
        FlowView::Persisting { retried, .. } => if retried {
            1
        } else {
            3
        },
        FlowView::Issuing { retried, .. } => if retried {
            2
        } else {
            4
        },
        FlowView::RegisterNotifying { .. } => 5,
        FlowView::RegisterCreating { .. } => 6,
        FlowView::RegisterHashing { .. } => 7,
        FlowView::LoginChecking { .. } => 5,
        FlowView::LoginFinding { .. } => 6,
        FlowView::RefreshFinding { raced, .. } => if raced {
            1
        } else {
            6
        },
        FlowView::RefreshRevoking { .. } => 5,
        FlowView::RefreshDecoding => 7,
        FlowView::LogoutRevoking => 1,
        FlowView::LogoutDecoding { .. } => 2,
        FlowView::VerifyMarking => 1,
        FlowView::VerifyConsuming { .. } => 2,
    }
}

/// The scene in which a request begins.
pub open spec fn opening(world: World, step: StepView) -> Scene {
    Scene { world, flow: step.0, effect: step.1, issues: 0 }
}

/// The conversation that begins with `step` in `world`, played at `now` for
/// as many turns as any request can take.
#[verifier::opaque]
pub open spec fn play(world: World, step: StepView, answers: Answers, now: i64) -> Scene {
    let s0 = opening(world, step);
    let s1 = turn(s0, answers, now);
    let s2 = turn(s1, answers, now);
    let s3 = turn(s2, answers, now);
    let s4 = turn(s3, answers, now);
    let s5 = turn(s4, answers, now);
    let s6 = turn(s5, answers, now);
    let s7 = turn(s6, answers, now);
    turn(s7, answers, now)
}

} // verus!
