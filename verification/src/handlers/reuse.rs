//! What the presentation of an already revoked refresh token means.

use vstd::prelude::*;

verus! {

/// For this long after a refresh token was used, a second presentation of it
/// counts as a duplicate submission. In milliseconds.
pub const REUSE_GRACE_MILLIS: i64 = 90_000;

/// What a revoked record says about the one who presents its token again.
#[derive(Debug, Clone, Copy, PartialEq, Eq, Structural)]
pub enum Reuse {
    /// Revoked, but never marked used: the record contradicts itself.
    Inconsistent,
    /// Used a moment ago: a retry or a race of the rightful client.
    WithinGrace,
    /// Used long ago: a replay, and possibly a theft.
    Replay,
}

/// The meaning of a presentation at `now` of a token that was used at
/// `used_at`.
pub open spec fn reuse_of(used_at: Option<i64>, now: i64) -> Reuse {
    match used_at {
        None => Reuse::Inconsistent,
        Some(at) => if now - at <= REUSE_GRACE_MILLIS {
            Reuse::WithinGrace
        } else {
            Reuse::Replay
        },
    }
}

/// The meaning of a presentation at `now` of a token that was used at
/// `used_at`.
pub fn classify_reuse(used_at: Option<i64>, now: i64) -> (reuse: Reuse)
    ensures
        reuse == reuse_of(used_at, now),
{
    match used_at {
        None => Reuse::Inconsistent,
        Some(at) => {
            let elapsed: i128 = now as i128 - at as i128;
            if elapsed <= REUSE_GRACE_MILLIS as i128 {
                Reuse::WithinGrace
            } else {
                Reuse::Replay
            }
        },
    }
}

} // verus!
