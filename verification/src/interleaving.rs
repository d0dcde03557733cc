//! Two refreshes of one token that run at the same time.
//!
//! Each of the two requests takes its turns as `turn` says, in whatever
//! order a schedule gives, and both act on one world. Whatever the
//! schedule, both are answered once each has had its turns, and then exactly
//! one of them has been handed a new pair, the other has been refused, and
//! the store holds exactly one new record.

use vstd::prelude::*;
use crate::error::ErrorKind;
use crate::handlers::auth_handler::{expiry_millis, refresh_spec};
use crate::handlers::conversation::{EffectView, FlowView, ReplyView};
use crate::handlers::play::{Answers, Scene, World, awaits, turn, turns_left};
use crate::laws::law_every_turn_advances;
use crate::models::refresh_token::NewRefreshTokenRecord;
use crate::services::refresh_token_service::RefreshTokens;
use crate::types::refresh_claims::RefreshClaimsView;

verus! {

/// One of the two requests: what the outside world answers it, and the
/// instant at which it runs.
pub struct Call {
    pub answers: Answers,
    pub now: i64,
}

/// Where one of the two requests stands.
pub struct Part {
    pub flow: FlowView,
    pub effect: EffectView,
    pub issues: nat,
}

/// The two requests under way in one world.
pub struct Duet {
    pub world: World,
    pub first: Part,
    pub second: Part,
}

/// What the two requests start from: the world, the token that both
/// present with the claims that it decodes to, and the two calls.
pub struct Setup {
    pub world: World,
    pub token: Seq<char>,
    pub claims: RefreshClaimsView,
    pub first: Call,
    pub second: Call,
}

/// Whether a call can be served in `world`: the token decodes to the
/// claims, its record has not expired for the call, and the issuer hands the
/// call a pair under a `jti` that is new to the store.
pub open spec fn servable(call: Call, world: World, claims: RefreshClaimsView) -> bool {
    &&& call.answers.decoded == Ok::<_, ErrorKind>(claims)
    &&& world.refresh_tokens[claims.jti].expires_at >= call.now
    &&& call.answers.issued.len() > 0
    &&& call.answers.record_ids.len() > 0
    &&& call.answers.issued[0] matches Ok(issue) && expiry_millis(issue.2) is Some
        && !world.refresh_tokens.contains_key(issue.1)
}

/// Whether the two requests present a token that either could exchange if
/// it came alone: the token is not empty, its record is there and active,
/// and each call can be served.
pub open spec fn fair(setup: Setup) -> bool {
    &&& setup.token.len() > 0
    &&& setup.claims.jti.len() > 0
    &&& setup.world.refresh_tokens.contains_key(setup.claims.jti)
    &&& !setup.world.refresh_tokens[setup.claims.jti].is_revoked
    &&& servable(setup.first, setup.world, setup.claims)
    &&& servable(setup.second, setup.world, setup.claims)
}

/// The two requests before either has taken a turn.
pub open spec fn opening(setup: Setup) -> Duet {
    let step = refresh_spec(setup.token);
    Duet {
        world: setup.world,
        first: Part { flow: step.0, effect: step.1, issues: 0 },
        second: Part { flow: step.0, effect: step.1, issues: 0 },
    }
}

/// The world after one request has taken a turn in it, and where that
/// request stands then.
pub open spec fn moved(world: World, part: Part, call: Call) -> (World, Part) {
    let scene = turn(
        Scene { world, flow: part.flow, effect: part.effect, issues: part.issues },
        call.answers,
        call.now,
    );
    (scene.world, Part { flow: scene.flow, effect: scene.effect, issues: scene.issues })
}

/// The two requests after the first of them, or else the second, has taken
/// a turn.
pub open spec fn stepped(duet: Duet, first_moves: bool, setup: Setup) -> Duet {
    if first_moves {
        let after = moved(duet.world, duet.first, setup.first);
        Duet { world: after.0, first: after.1, second: duet.second }
    } else {
        let after = moved(duet.world, duet.second, setup.second);
        Duet { world: after.0, first: duet.first, second: after.1 }
    }
}

/// The two requests after they have taken turns as the schedule says: at
/// each place of the schedule the first moves where it says `true`, else the
/// second.
pub open spec fn performed(setup: Setup, schedule: Seq<bool>) -> Duet
    decreases schedule.len(),
{
    if schedule.len() == 0 {
        opening(setup)
    } else {
        stepped(performed(setup, schedule.drop_last()), schedule.last(), setup)
    }
}

/// The store once `call` was granted the revocation: the presented record
/// is revoked and used at the call's instant.
pub open spec fn revoked_for(setup: Setup, call: Call) -> RefreshTokens {
    setup.world.refresh_tokens.insert(
        setup.claims.jti,
        setup.world.refresh_tokens[setup.claims.jti].revoked(call.now),
    )
}

/// The record of the pair that `call` is handed.
pub open spec fn successor_of(setup: Setup, call: Call) -> NewRefreshTokenRecord {
    let issue = call.answers.issued[0]->Ok_0;
    NewRefreshTokenRecord::active(
        setup.claims.sub,
        issue.1,
        call.now,
        expiry_millis(issue.2).unwrap(),
    )
}

/// The store once `call` was served: the presented record is revoked, and
/// the record of the call's pair is the one new record.
pub open spec fn served_for(setup: Setup, call: Call) -> RefreshTokens {
    revoked_for(setup, call).insert(
        call.answers.issued[0]->Ok_0.1,
        successor_of(setup, call).stored(call.answers.record_ids[0]),
    )
}

/// A request that has not yet been told of the revocation: it is decoding,
/// looking the record up for the first time, or asking for the revocation.
pub open spec fn early(part: Part, setup: Setup, call: Call) -> bool {
    let claims = setup.claims;
    &&& part.issues == 0
    &&& {
        ||| part.flow is RefreshDecoding && part.effect == (EffectView::DecodeRefreshToken {
            token: setup.token,
        })
        ||| part.flow == (FlowView::RefreshFinding {
            subject: claims.sub,
            jti: claims.jti,
            raced: false,
        }) && part.effect == (EffectView::FindRefreshToken { jti: claims.jti })
        ||| part.flow == (FlowView::RefreshRevoking { subject: claims.sub, jti: claims.jti })
            && part.effect == (EffectView::RevokeRefreshToken {
            jti: claims.jti,
            revoked_at: call.now,
        })
    }
}

/// A request that was refused the revocation or the token: it looks the
/// record up again, or was answered `InvalidToken`.
pub open spec fn losing(part: Part, setup: Setup) -> bool {
    ||| part.flow == (FlowView::RefreshFinding {
        subject: setup.claims.sub,
        jti: setup.claims.jti,
        raced: true,
    }) && part.effect == (EffectView::FindRefreshToken { jti: setup.claims.jti })
    ||| part.effect == (EffectView::Done { result: Err(ErrorKind::InvalidToken) })
}

/// A request that was granted the revocation and waits for its pair or for
/// the pair's record to be stored.
pub open spec fn issuing(part: Part, setup: Setup, call: Call) -> bool {
    let issue = call.answers.issued[0]->Ok_0;
    ||| part.issues == 0 && part.flow == (FlowView::Issuing {
        subject: setup.claims.sub,
        retried: false,
    }) && part.effect == (EffectView::IssueTokens { subject: setup.claims.sub })
    ||| part.issues == 1 && part.flow == (FlowView::Persisting {
        subject: setup.claims.sub,
        retried: false,
        tokens: issue.0,
    }) && part.effect == (EffectView::CreateRefreshToken { record: successor_of(setup, call) })
}

/// A request that was answered with its pair.
pub open spec fn won(part: Part, call: Call) -> bool {
    part.effect == (EffectView::Done {
        result: Ok(ReplyView::Tokens(call.answers.issued[0]->Ok_0.0)),
    })
}

/// Whether the store is all that a world differs in from the one that the
/// requests started from.
pub open spec fn only_store_differs(world: World, setup: Setup, store: RefreshTokens) -> bool {
    world == (World { refresh_tokens: store, ..setup.world })
}

/// Whether `winner` is ahead of `other` in `world`: nothing has happened
/// yet to the store and both are early, or the winner alone was granted the
/// revocation and the other can only lose.
pub open spec fn ahead(world: World, winner: Part, other: Part, setup: Setup, call: Call, of_other: Call) -> bool {
    ||| only_store_differs(world, setup, revoked_for(setup, call)) && issuing(winner, setup, call)
        && (early(other, setup, of_other) || losing(other, setup))
    ||| only_store_differs(world, setup, served_for(setup, call)) && won(winner, call) && (early(
        other,
        setup,
        of_other,
    ) || losing(other, setup))
}

/// What holds of the two requests after any schedule.
pub open spec fn in_step(duet: Duet, setup: Setup) -> bool {
    ||| duet.world == setup.world && early(duet.first, setup, setup.first) && early(
        duet.second,
        setup,
        setup.second,
    )
    ||| ahead(duet.world, duet.first, duet.second, setup, setup.first, setup.second)
    ||| ahead(duet.world, duet.second, duet.first, setup, setup.second, setup.first)
}

/// Whether both requests were answered and `winner` was the one that was
/// handed the pair: its reply is the pair, the other's is `InvalidToken`,
/// and the store holds the presented record revoked and one new record, the
/// winner's.
pub open spec fn decided_for(duet: Duet, winner: Part, other: Part, setup: Setup, call: Call) -> bool {
    &&& won(winner, call)
    &&& other.effect == (EffectView::Done { result: Err(ErrorKind::InvalidToken) })
    &&& only_store_differs(duet.world, setup, served_for(setup, call))
    &&& !setup.world.refresh_tokens.contains_key(call.answers.issued[0]->Ok_0.1)
    &&& duet.world.refresh_tokens.dom() == setup.world.refresh_tokens.dom().insert(
        call.answers.issued[0]->Ok_0.1,
    )
}

/// A turn of the request that is ahead, or of the other, keeps the two in
/// step.
proof fn lemma_turn_keeps_ahead(
    world: World,
    winner: Part,
    other: Part,
    setup: Setup,
    call: Call,
    of_other: Call,
)
    requires
        fair(setup),
        (call == setup.first && of_other == setup.second) || (call == setup.second && of_other
            == setup.first),
        ahead(world, winner, other, setup, call, of_other),
    ensures
        ahead(moved(world, winner, call).0, moved(world, winner, call).1, other, setup, call, of_other),
        ahead(
            moved(world, other, of_other).0,
            winner,
            moved(world, other, of_other).1,
            setup,
            call,
            of_other,
        ),
{
    let jti = setup.claims.jti;
    assert(revoked_for(setup, call).contains_key(jti));
    assert(revoked_for(setup, call)[jti].is_revoked);
    assert(served_for(setup, call).contains_key(jti));
    assert(served_for(setup, call)[jti].is_revoked);
}

/// A turn of either request while both are early keeps the two in step.
proof fn lemma_turn_of_the_early(duet: Duet, first_moves: bool, setup: Setup)
    requires
        fair(setup),
        duet.world == setup.world,
        early(duet.first, setup, setup.first),
        early(duet.second, setup, setup.second),
    ensures
        in_step(stepped(duet, first_moves, setup), setup),
{
}

/// Every turn keeps the two requests in step.
proof fn lemma_step_keeps_in_step(duet: Duet, first_moves: bool, setup: Setup)
    requires
        fair(setup),
        in_step(duet, setup),
    ensures
        in_step(stepped(duet, first_moves, setup), setup),
{
    if duet.world == setup.world && early(duet.first, setup, setup.first) && early(
        duet.second,
        setup,
        setup.second,
    ) {
        lemma_turn_of_the_early(duet, first_moves, setup);
    } else if ahead(duet.world, duet.first, duet.second, setup, setup.first, setup.second) {
        lemma_turn_keeps_ahead(
            duet.world,
            duet.first,
            duet.second,
            setup,
            setup.first,
            setup.second,
        );
    } else {
        lemma_turn_keeps_ahead(
            duet.world,
            duet.second,
            duet.first,
            setup,
            setup.second,
            setup.first,
        );
    }
}

/// After any schedule the two requests are in step.
pub proof fn lemma_always_in_step(setup: Setup, schedule: Seq<bool>)
    requires
        fair(setup),
    ensures
        in_step(performed(setup, schedule), setup),
    decreases schedule.len(),
{
    if schedule.len() > 0 {
        lemma_always_in_step(setup, schedule.drop_last());
        lemma_step_keeps_in_step(
            performed(setup, schedule.drop_last()),
            schedule.last(),
            setup,
        );
    }
}

/// How many turns a schedule gives to the first request, or else to the
/// second.
pub open spec fn turns_of(schedule: Seq<bool>, first: bool) -> nat
    decreases schedule.len(),
{
    if schedule.len() == 0 {
        0
    } else {
        let turn: nat = if schedule.last() == first {
            1
        } else {
            0
        };
        turns_of(schedule.drop_last(), first) + turn
    }
}

/// Every turn of its own brings a request nearer to its reply, whatever the
/// other does in between.
proof fn lemma_each_advances(setup: Setup, schedule: Seq<bool>)
    ensures
        ({
            let duet = performed(setup, schedule);
            &&& awaits(duet.first.flow, duet.first.effect)
            &&& awaits(duet.second.flow, duet.second.effect)
            &&& duet.first.effect !is Done ==> turns_left(duet.first.flow) + turns_of(
                schedule,
                true,
            ) <= 7
            &&& duet.second.effect !is Done ==> turns_left(duet.second.flow) + turns_of(
                schedule,
                false,
            ) <= 7
        }),
    decreases schedule.len(),
{
    if schedule.len() > 0 {
        lemma_each_advances(setup, schedule.drop_last());
        let before = performed(setup, schedule.drop_last());
        law_every_turn_advances(
            Scene {
                world: before.world,
                flow: before.first.flow,
                effect: before.first.effect,
                issues: before.first.issues,
            },
            setup.first.answers,
            setup.first.now,
        );
        law_every_turn_advances(
            Scene {
                world: before.world,
                flow: before.second.flow,
                effect: before.second.effect,
                issues: before.second.issues,
            },
            setup.second.answers,
            setup.second.now,
        );
    }
}

/// Two refreshes that run at the same time are both answered once each has
/// had the turns that a request can take, in whatever order.
pub proof fn law_concurrent_refreshes_are_answered(setup: Setup, schedule: Seq<bool>)
    requires
        turns_of(schedule, true) >= 8,
        turns_of(schedule, false) >= 8,
    ensures
        performed(setup, schedule).first.effect is Done,
        performed(setup, schedule).second.effect is Done,
{
    lemma_each_advances(setup, schedule);
}

/// Of two refreshes that present one refresh token at the same time, exactly
/// one is handed a new pair. In whatever order the two take their turns,
/// once both are answered one of them has its pair and the other was
/// refused as invalid, the presented record is revoked and used at the
/// winner's instant, and the store holds exactly one new record: the active
/// record of the winner's pair, for the subject of the presented token.
/// Which of the two wins is decided by the store alone, by whom it grants
/// the revocation.
pub proof fn law_concurrent_refresh(setup: Setup, schedule: Seq<bool>)
    requires
        fair(setup),
        performed(setup, schedule).first.effect is Done,
        performed(setup, schedule).second.effect is Done,
    ensures
        ({
            let end = performed(setup, schedule);
            ||| decided_for(end, end.first, end.second, setup, setup.first)
            ||| decided_for(end, end.second, end.first, setup, setup.second)
        }),
{
    lemma_always_in_step(setup, schedule);
    let end = performed(setup, schedule);
    if ahead(end.world, end.first, end.second, setup, setup.first, setup.second) {
        let new = setup.first.answers.issued[0]->Ok_0.1;
        assert(end.world.refresh_tokens.dom() =~= setup.world.refresh_tokens.dom().insert(new));
    } else {
        let new = setup.second.answers.issued[0]->Ok_0.1;
        assert(end.world.refresh_tokens.dom() =~= setup.world.refresh_tokens.dom().insert(new));
    }
}

} // verus!
