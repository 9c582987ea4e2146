//! The runtime's boolean settings, which cross the boundary as integers.

use vstd::prelude::*;

verus! {

/// The integer that the runtime is given for a boolean setting.
pub open spec fn flag_of(on: bool) -> int {
    if on {
        1
    } else {
        0
    }
}

/// How an integer that the runtime returns for a boolean setting is read:
/// zero is off, anything else is on.
pub open spec fn is_set(flag: int) -> bool {
    flag != 0
}

/// Record that the simulation has hit `$finish`: returns the integer to store
/// in the runtime's finish flag. It is the same on every call, so a second
/// request leaves the flag as the first one set it.
pub fn set_finish() -> (flag: i32)
    ensures
        flag == flag_of(true),
        is_set(flag as int),
{
    1
}

/// Whether the simulation has hit `$finish`, given the integer that the
/// runtime returns for its finish flag.
pub fn got_finish(flag: i32) -> (finished: bool)
    ensures
        finished == is_set(flag as int),
{
    flag != 0
}

/// Allow traces to be enabled at some later point, or not: returns the
/// integer to hand to the runtime's trace gate. Allowing them costs the
/// model some optimizations, and the runtime may not take the permission
/// back once it was given.
pub fn trace_ever_on(on: bool) -> (flag: i32)
    ensures
        flag == flag_of(on),
        is_set(flag as int) == on,
{
    if on {
        1
    } else {
        0
    }
}

/// A setting that is stored and read back reads as it was stored.
pub proof fn lemma_flag_round_trip(on: bool)
    ensures
        is_set(flag_of(on)) == on,
{
}

/// Once a finish was recorded the flag reads as finished, however many times
/// it was recorded: every request stores the one value `flag_of(true)`.
pub proof fn lemma_finish_is_observed()
    ensures
        is_set(flag_of(true)),
        flag_of(true) == 1,
{
}

} // verus!
