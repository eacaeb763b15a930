use vstd::prelude::*;

verus! {

/// Largest number of all-pass sections in the disperser's chain.
pub const MAX_DISPERSER_STAGES: usize = 200;

/// `amount` clamped to `[1, MAX_DISPERSER_STAGES]`.
pub open spec fn clamp_amount(amount: nat) -> nat {
    if amount < 1 {
        1
    } else if amount > MAX_DISPERSER_STAGES {
        MAX_DISPERSER_STAGES as nat
    } else {
        amount
    }
}

/// Number of sections a signal goes through for a requested `amount`.
/// Sections past that count keep their state: they are neither run nor
/// reset, and their coefficients are derived again when they come back.
pub fn active_stages(amount: u32) -> (r: usize)
    ensures
        r == clamp_amount(amount as nat),
        1 <= r <= MAX_DISPERSER_STAGES,
{
    if amount < 1 {
        1
    } else if amount as usize > MAX_DISPERSER_STAGES {
        MAX_DISPERSER_STAGES
    } else {
        amount as usize
    }
}

} // verus!
