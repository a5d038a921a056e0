use vstd::prelude::*;

verus! {

/// Every way an operation can be rejected. A rejected operation aborts
/// whole: no state written by it is ever visible.
#[derive(Clone, Copy, Debug, PartialEq, Eq, Structural)]
pub enum ContractError {
    /// The caller is not in the configured admin set.
    Unauthorized,
    /// No round has been opened under the given id.
    RoundNotFound,
    /// The round has already been finalized; it accepts no registrations.
    RegistrationClosed,
    /// The round's end time lies before the current block time.
    RoundExpired,
    /// The caller already stands in the round's player list.
    AlreadyRegistered,
    /// Not exactly one payment, or a payment in the wrong denomination.
    WrongPaymentDenom,
    /// The payment amount is below the round's minimum stake.
    InsufficientFunds,
    /// A distribution must be non-empty with every share positive.
    InvalidDistribution,
    /// The distribution's shares sum to zero, so no payout can be split.
    ZeroShares,
    /// A round with no players cannot be finalized.
    NoPlayers,
    /// The round was finalized before; the terminal state is kept.
    DoubleFinalization,
    /// A counter or amount would exceed its machine bound.
    ArithmeticOverflow,
}

} // verus!
