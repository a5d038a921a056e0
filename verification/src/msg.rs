use vstd::prelude::*;

verus! {

/// One payment handed in with a join request: an amount of one
/// denomination. The engine reads denominations as plain strings.
pub struct Coin {
    pub denom: String,
    pub amount: u128,
}

/// One-time initialization input: the fixed set of admin identities.
pub struct InstantiateMsg {
    pub count: i32,
    pub admins: Vec<String>,
}

/// The operations the engine executes, dispatched by a single match.
pub enum ExecuteMsg {
    BeginRaffleRound { end_time_stamp: u64, minimum_stake: u128, winners_distribution: Vec<u32> },
    JoinRaffleRound { id: u32 },
    EndRaffleRound { id: u32 },
}

/// The read-only queries the engine answers.
pub enum QueryMsg {
    GetCount {},
    GetTotalDeposit {},
    GetRaffleInfo { id: u32 },
}

/// Answer to `QueryMsg::GetCount`: the next round id to be assigned.
pub struct GetCountResponse {
    pub count: u32,
}

/// Winner identities of a finalized round.
pub struct GetWinnerResponse {
    pub winner: Vec<String>,
}

/// One pending fund-transfer instruction, emitted at finalization for
/// the external settlement collaborator to carry out.
#[derive(Debug)]
pub struct TransferMsg {
    pub to_address: String,
    pub amount: u128,
    pub denom: String,
}

/// What a successful operation hands back to the transport layer.
#[derive(Debug)]
pub enum ExecuteResponse {
    /// A round was opened under this id.
    RoundOpened { id: u32 },
    /// The caller was appended to the round's player list.
    RoundJoined,
    /// The round was finalized; the transfers are the payout outbox,
    /// one instruction per winner, in winner-list order.
    RoundFinalized { transfers: Vec<TransferMsg> },
}

} // verus!
