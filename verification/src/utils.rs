//! The clock.

use vstd::prelude::*;

verus! {

/// `std::time::SystemTime`: an instant on the system clock. Carried through,
/// never read.
#[verifier::external_type_specification]
#[verifier::external_body]
pub struct ExSystemTime(std::time::SystemTime);

/// `SystemTime::now` of the standard library. Nothing is said of the
/// instant: it is the clock's.
#[verifier::external_body]
pub(crate) fn system_now() -> (instant: std::time::SystemTime)
{
    std::time::SystemTime::now()
}

/// `SystemTime::duration_since` of the standard library, counted from the
/// Unix epoch: the time that has passed since then, or none for an instant
/// before it.
#[verifier::external_body]
pub(crate) fn since_epoch(instant: &std::time::SystemTime) -> (elapsed: Option<
    std::time::Duration,
>)
{
    instant.duration_since(std::time::UNIX_EPOCH).ok()
}

/// The whole seconds of a span of time.
pub uninterp spec fn seconds_in(elapsed: std::time::Duration) -> u64;

/// `Duration::as_secs` of the standard library: the whole seconds of a
/// span of time.
#[verifier::external_body]
pub(crate) fn whole_seconds(elapsed: &std::time::Duration) -> (seconds: u64)
    ensures
        seconds == seconds_in(*elapsed),
{
    elapsed.as_secs()
}

/// A count of seconds in the machine's word: the count itself where the word
/// can hold it, else the most that the word can hold.
pub open spec fn word_of(seconds: u64) -> usize {
    if seconds <= usize::MAX {
        seconds as usize
    } else {
        usize::MAX
    }
}

/// The whole seconds of the time that has passed since the Unix epoch, in
/// the machine's word; none where no time is given.
pub open spec fn reading_of(elapsed: Option<std::time::Duration>) -> Option<usize> {
    match elapsed {
        Some(e) => Some(word_of(seconds_in(e))),
        None => None,
    }
}

/// A count of seconds in the machine's word.
pub fn seconds_in_word(seconds: u64) -> (word: usize)
    ensures
        word == word_of(seconds),
{
    if seconds <= usize::MAX as u64 {
        seconds as usize
    } else {
        usize::MAX
    }
}

/// The whole seconds since the Unix epoch of an instant that lies that much
/// time after it, in the machine's word; none for an instant before the
/// epoch.
pub fn seconds_of(elapsed: Option<std::time::Duration>) -> (seconds: Option<usize>)
    ensures
        seconds == reading_of(elapsed),
{
    match elapsed {
        Some(elapsed) => Some(seconds_in_word(whole_seconds(&elapsed))),
        None => None,
    }
}

/// The whole seconds since the Unix epoch on the system clock, as far as the
/// machine's word can count; none while the clock reads a time before the
/// epoch.
pub fn now_epoch() -> (seconds: Option<usize>) {
    let instant = system_now();
    seconds_of(since_epoch(&instant))
}

} // verus!
