//! The policy for signals that a design leaves uninitialized.

use vstd::prelude::*;

verus! {

/// Initial value of signals that are not otherwise initialized.
#[derive(Copy, Clone, Debug, PartialEq, Eq, PartialOrd, Ord, Structural)]
pub enum RandomMode {
    /// Every bit is cleared.
    AllZeros,
    /// Every bit is set.
    AllBits,
    /// Every bit is drawn at random.
    Randomize,
}

impl RandomMode {
    /// The integer by which the runtime knows this mode.
    pub open spec fn code(self) -> int {
        match self {
            RandomMode::AllZeros => 0,
            RandomMode::AllBits => 1,
            RandomMode::Randomize => 2,
        }
    }

    /// The mode that `code` stands for. Every value other than 0 and 1 reads
    /// as `Randomize`, so no integer is left without a mode.
    pub open spec fn of_code(code: int) -> RandomMode {
        if code == 0 {
            RandomMode::AllZeros
        } else if code == 1 {
            RandomMode::AllBits
        } else {
            RandomMode::Randomize
        }
    }
}

/// Select the initial value of otherwise uninitialized signals: returns the
/// integer to store in the runtime's reset setting for `val`. Every mode has
/// one, and it reads back as `val`.
pub fn set_rand_reset(val: RandomMode) -> (code: i32)
    ensures
        code == val.code(),
        RandomMode::of_code(code as int) == val,
{
    match val {
        RandomMode::AllZeros => 0,
        RandomMode::AllBits => 1,
        RandomMode::Randomize => 2,
    }
}

/// Read the runtime's reset setting: returns the mode that `code` stands for.
/// Never fails; an integer outside the three known codes, negative or large,
/// reads as `Randomize`.
pub fn rand_reset(code: i32) -> (mode: RandomMode)
    ensures
        mode == RandomMode::of_code(code as int),
        !(0 <= code <= 2) ==> mode == RandomMode::Randomize,
{
    if code == 0 {
        RandomMode::AllZeros
    } else if code == 1 {
        RandomMode::AllBits
    } else {
        RandomMode::Randomize
    }
}

/// A mode that is stored in the runtime and read back is the mode that was
/// stored, and its code is one of 0, 1 and 2.
pub proof fn lemma_mode_round_trip(mode: RandomMode)
    ensures
        0 <= mode.code() <= 2,
        RandomMode::of_code(mode.code()) == mode,
{
}

/// Reading is the inverse of storing exactly on the codes 0, 1 and 2: each of
/// them is the code of the mode it reads as, and every other integer reads as
/// `Randomize`, whose code is 2.
pub proof fn lemma_code_read_back(code: int)
    ensures
        0 <= code <= 2 <==> RandomMode::of_code(code).code() == code,
        !(0 <= code <= 2) ==> RandomMode::of_code(code) == RandomMode::Randomize,
{
}

} // verus!
