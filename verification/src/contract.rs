use vstd::prelude::*;

use crate::entropy::{domain_seed, new_entropy, spec_round_seed};
use crate::errors::ContractError;
use crate::msg::{Coin, ExecuteMsg, ExecuteResponse, InstantiateMsg, TransferMsg};
use crate::payout::{compute_payouts, lemma_positive_shares_sum_positive, spec_payout, sum_amounts};
use crate::selector::{select_winners, spec_selected_winners};
use crate::state::{Counter, Raffle};

verus! {

/// The staking denomination every join must pay in.
pub open spec fn spec_stake_denom() -> Seq<char> {
    "ujuno"@
}

pub fn stake_denom() -> (s: String)
    ensures
        s@ == spec_stake_denom(),
{
    "ujuno".to_owned()
}

/// A distribution is acceptable when it is non-empty and every share is
/// positive, so its sum is positive too.
pub open spec fn spec_valid_distribution(dist: Seq<u32>) -> bool {
    &&& dist.len() > 0
    &&& forall|i: int| 0 <= i < dist.len() ==> dist[i] > 0
}

pub fn valid_distribution(dist: &Vec<u32>) -> (b: bool)
    ensures
        b == spec_valid_distribution(dist@),
{
    if dist.len() == 0 {
        return false;
    }
    let mut k: usize = 0;
    while k < dist.len()
        invariant
            k <= dist@.len(),
            forall|i: int| 0 <= i < k ==> dist@[i] > 0,
        decreases dist@.len() - k,
    {
        if dist[k] == 0 {
            return false;
        }
        k += 1;
    }
    true
}

/// All engine state, carried explicitly into every operation: the fixed
/// admin set, the next-id counter, and every round ever opened, indexed
/// by its id.
pub struct RaffleStore {
    pub admins: Vec<String>,
    pub counter: Counter,
    pub rounds: Vec<Raffle>,
}

impl RaffleStore {
    /// Well-formedness: ids were assigned by the counter in opening
    /// order, and every stored round is itself well-formed.
    pub open spec fn wf(self) -> bool {
        &&& self.counter.counter as int == self.rounds@.len()
        &&& forall|i: int| 0 <= i < self.rounds@.len() ==> (#[trigger] self.rounds@[i]).id as int == i
        &&& forall|i: int| 0 <= i < self.rounds@.len() ==> (#[trigger] self.rounds@[i]).wf()
    }

    /// Decide well-formedness of the whole store, so that a caller
    /// reloading state of unknown provenance can test it before calling
    /// the operations that rely on it.
    pub fn check_wf(&self) -> (b: bool)
        ensures
            b == self.wf(),
    {
        let len = self.rounds.len();
        if self.counter.counter as usize != len {
            return false;
        }
        let mut k: usize = 0;
        while k < len
            invariant
                len == self.rounds@.len(),
                k <= len,
                forall|i: int|
                    0 <= i < k ==> (#[trigger] self.rounds@[i]).id as int == i
                        && self.rounds@[i].wf(),
            decreases len - k,
        {
            if self.rounds[k].id as usize != k {
                return false;
            }
            if !self.rounds[k].check_wf() {
                return false;
            }
            k += 1;
        }
        true
    }

    pub open spec fn spec_is_admin(self, addr: Seq<char>) -> bool {
        exists|i: int| 0 <= i < self.admins@.len() && self.admins@[i]@ == addr
    }

    /// Whether an identity is in the configured admin set; opening and
    /// finalizing rounds is gated on this.
    pub fn is_admin(&self, addr: &String) -> (b: bool)
        ensures
            b == self.spec_is_admin(addr@),
    {
        let mut k: usize = 0;
        while k < self.admins.len()
            invariant
                k <= self.admins@.len(),
                forall|i: int| 0 <= i < k ==> self.admins@[i]@ != addr@,
            decreases self.admins@.len() - k,
        {
            if self.admins[k] == *addr {
                return true;
            }
            k += 1;
        }
        false
    }

    /// The next round id to be assigned.
    pub fn get_current_counter(&self) -> (c: u32)
        ensures
            c == self.counter.counter,
    {
        self.counter.counter
    }

    /// Snapshot of one round.
    pub fn get_raffle_info(&self, id: u32) -> (r: Result<&Raffle, ContractError>)
        ensures
            (id as int) < self.rounds@.len() <==> r is Ok,
            r is Ok ==> *r.unwrap() == self.rounds@[id as int],
            r is Err ==> r == Err::<&Raffle, ContractError>(ContractError::RoundNotFound),
    {
        let idx = id as usize;
        if idx < self.rounds.len() {
            Ok(&self.rounds[idx])
        } else {
            Err(ContractError::RoundNotFound)
        }
    }

    /// Whether a round still accepts registrations as far as its
    /// lifecycle flag goes.
    pub fn can_register(&self, id: u32) -> (r: Result<bool, ContractError>)
        ensures
            (id as int) < self.rounds@.len() <==> r is Ok,
            r is Ok ==> r.unwrap() == self.rounds@[id as int].active,
            r is Err ==> r == Err::<bool, ContractError>(ContractError::RoundNotFound),
    {
        let idx = id as usize;
        if idx < self.rounds.len() {
            Ok(self.rounds[idx].active)
        } else {
            Err(ContractError::RoundNotFound)
        }
    }

    /// Whether an identity already stands in a round's player list.
    pub fn is_registered(&self, id: u32, caller: &String) -> (r: Result<bool, ContractError>)
        ensures
            (id as int) < self.rounds@.len() <==> r is Ok,
            r is Ok ==> r.unwrap() == self.rounds@[id as int].spec_has_player(caller@),
            r is Err ==> r == Err::<bool, ContractError>(ContractError::RoundNotFound),
    {
        let idx = id as usize;
        if idx < self.rounds.len() {
            Ok(self.rounds[idx].has_player(caller))
        } else {
            Err(ContractError::RoundNotFound)
        }
    }
}

/// One-time initialization: fix the admin set, start the round counter
/// at zero, with no rounds opened yet.
pub fn instantiate(msg: InstantiateMsg) -> (store: RaffleStore)
    ensures
        store.wf(),
        store.admins@ == msg.admins@,
        store.counter.counter == 0,
        store.rounds@.len() == 0,
{
    RaffleStore { admins: msg.admins, counter: Counter { counter: 0 }, rounds: Vec::new() }
}

/// How opening a round can be rejected, and the id it returns otherwise.
pub open spec fn spec_begin_outcome(pre: RaffleStore, caller: Seq<char>, dist: Seq<u32>) -> Result<
    u32,
    ContractError,
> {
    if !pre.spec_is_admin(caller) {
        Err(ContractError::Unauthorized)
    } else if !spec_valid_distribution(dist) {
        Err(ContractError::InvalidDistribution)
    } else if pre.counter.counter == u32::MAX {
        Err(ContractError::ArithmeticOverflow)
    } else {
        Ok(pre.counter.counter)
    }
}

/// What a successful opening does to the store: the returned id is the
/// counter's old value, the counter advances by exactly one, and one
/// fresh, active, empty round is appended; nothing else changes.
pub open spec fn begin_transition(
    pre: RaffleStore,
    post: RaffleStore,
    now: u64,
    end_time_stamp: u64,
    minimum_stake: u128,
    dist: Seq<u32>,
    id: u32,
) -> bool {
    &&& id == pre.counter.counter
    &&& post.counter.counter == id + 1
    &&& post.admins@ == pre.admins@
    &&& post.rounds@.len() == pre.rounds@.len() + 1
    &&& forall|j: int| 0 <= j < pre.rounds@.len() ==> post.rounds@[j] == pre.rounds@[j]
    &&& post.rounds@.last().id == id
    &&& post.rounds@.last().begin_time_stamp == now
    &&& post.rounds@.last().end_time_stamp == end_time_stamp
    &&& post.rounds@.last().minimum_stake == minimum_stake
    &&& post.rounds@.last().winners_distribution@ == dist
    &&& post.rounds@.last().players@.len() == 0
    &&& post.rounds@.last().winners@.len() == 0
    &&& post.rounds@.last().winner_payouts@.len() == 0
    &&& post.rounds@.last().active
}

/// How joining a round can be rejected, in the order the checks run.
pub open spec fn spec_join_outcome(
    pre: RaffleStore,
    caller: Seq<char>,
    id: u32,
    funds: Seq<Coin>,
    now: u64,
) -> Result<(), ContractError> {
    if pre.rounds@.len() <= id as int {
        Err(ContractError::RoundNotFound)
    } else {
        let round = pre.rounds@[id as int];
        if !round.active {
            Err(ContractError::RegistrationClosed)
        } else if round.spec_is_expired(now) {
            Err(ContractError::RoundExpired)
        } else if round.spec_has_player(caller) {
            Err(ContractError::AlreadyRegistered)
        } else if !(funds.len() == 1 && funds[0].denom@ == spec_stake_denom()) {
            Err(ContractError::WrongPaymentDenom)
        } else if funds[0].amount < round.minimum_stake {
            Err(ContractError::InsufficientFunds)
        } else {
            Ok(())
        }
    }
}

/// What a successful join does to the store: the caller is appended to
/// the round's player list; every other field and round is unchanged.
pub open spec fn join_transition(pre: RaffleStore, post: RaffleStore, caller: String, id: u32) -> bool {
    &&& post.admins@ == pre.admins@
    &&& post.counter == pre.counter
    &&& post.rounds@.len() == pre.rounds@.len()
    &&& forall|j: int|
        0 <= j < pre.rounds@.len() && j != id as int ==> post.rounds@[j] == pre.rounds@[j]
    &&& {
        let r0 = pre.rounds@[id as int];
        let r1 = post.rounds@[id as int];
        &&& r1.players@ == r0.players@.push(caller)
        &&& r1.id == r0.id
        &&& r1.begin_time_stamp == r0.begin_time_stamp
        &&& r1.end_time_stamp == r0.end_time_stamp
        &&& r1.minimum_stake == r0.minimum_stake
        &&& r1.winners_distribution == r0.winners_distribution
        &&& r1.winners == r0.winners
        &&& r1.winner_payouts == r0.winner_payouts
        &&& r1.active == r0.active
    }
}

/// How finalizing a round can be rejected, in the order the checks run.
pub open spec fn spec_finalize_outcome(pre: RaffleStore, caller: Seq<char>, id: u32) -> Result<
    (),
    ContractError,
> {
    if !pre.spec_is_admin(caller) {
        Err(ContractError::Unauthorized)
    } else if pre.rounds@.len() <= id as int {
        Err(ContractError::RoundNotFound)
    } else if !pre.rounds@[id as int].active {
        Err(ContractError::DoubleFinalization)
    } else if pre.rounds@[id as int].players@.len() == 0 {
        Err(ContractError::NoPlayers)
    } else {
        Ok(())
    }
}

/// What a successful finalization does to the round: winners are drawn
/// deterministically from the round seed, payouts are the floor-division
/// shares of the deposit, and `active` falls to false, all in one write;
/// the payouts never sum to more than the deposit, and nothing else in
/// the store changes.
pub open spec fn finalize_transition(
    pre: RaffleStore,
    post: RaffleStore,
    caller: Seq<char>,
    id: u32,
    block_height: u64,
    total_deposit: u128,
) -> bool {
    let r0 = pre.rounds@[id as int];
    let r1 = post.rounds@[id as int];
    let seed = spec_round_seed(caller, block_height);
    let slots = r0.winners_distribution@.len();
    &&& post.admins@ == pre.admins@
    &&& post.counter == pre.counter
    &&& post.rounds@.len() == pre.rounds@.len()
    &&& forall|j: int|
        0 <= j < pre.rounds@.len() && j != id as int ==> post.rounds@[j] == pre.rounds@[j]
    &&& r1.id == r0.id
    &&& r1.begin_time_stamp == r0.begin_time_stamp
    &&& r1.end_time_stamp == r0.end_time_stamp
    &&& r1.minimum_stake == r0.minimum_stake
    &&& r1.winners_distribution == r0.winners_distribution
    &&& r1.players == r0.players
    &&& !r1.active
    &&& r1.winners.deep_view() == spec_selected_winners(r0.players.deep_view(), seed, slots)
    &&& r1.winner_payouts@.len() == slots
    &&& forall|i: int|
        0 <= i < slots ==> r1.winner_payouts@[i] as int == spec_payout(
            r0.winners_distribution@,
            total_deposit,
            i,
        )
    &&& sum_amounts(r1.winner_payouts@) <= total_deposit
}

impl RaffleStore {
    /// Open a new round. Only an admin may open; the distribution must
    /// be non-empty with all shares positive; the assigned id is the
    /// counter's current value and the counter advances by one.
    pub fn begin_raffle_round(
        &mut self,
        caller: &String,
        end_time_stamp: u64,
        minimum_stake: u128,
        winners_distribution: Vec<u32>,
        now: u64,
    ) -> (r: Result<u32, ContractError>)
        requires
            old(self).wf(),
            now < end_time_stamp,
        ensures
            final(self).wf(),
            r == spec_begin_outcome(*old(self), caller@, winners_distribution@),
            r is Err ==> *final(self) == *old(self),
            r is Ok ==> begin_transition(
                *old(self),
                *final(self),
                now,
                end_time_stamp,
                minimum_stake,
                winners_distribution@,
                r.unwrap(),
            ),
    {
        if !self.is_admin(caller) {
            return Err(ContractError::Unauthorized);
        }
        if !valid_distribution(&winners_distribution) {
            return Err(ContractError::InvalidDistribution);
        }
        if self.counter.counter == u32::MAX {
            return Err(ContractError::ArithmeticOverflow);
        }
        let id = self.counter.counter;
        let raffle = Raffle {
            id,
            begin_time_stamp: now,
            end_time_stamp,
            minimum_stake,
            winners_distribution,
            players: Vec::new(),
            winners: Vec::new(),
            winner_payouts: Vec::new(),
            active: true,
        };
        self.counter.counter = id + 1;
        self.rounds.push(raffle);
        Ok(id)
    }

    /// Register the caller in an open round against exactly one payment
    /// of the staking denomination covering the minimum stake. Every
    /// rejection leaves the store untouched.
    pub fn join_raffle_round(
        &mut self,
        caller: &String,
        id: u32,
        funds: &Vec<Coin>,
        now: u64,
    ) -> (r: Result<(), ContractError>)
        requires
            old(self).wf(),
        ensures
            final(self).wf(),
            r == spec_join_outcome(*old(self), caller@, id, funds@, now),
            r is Err ==> *final(self) == *old(self),
            r is Ok ==> join_transition(*old(self), *final(self), *caller, id),
    {
        let idx = id as usize;
        if self.rounds.len() <= idx {
            return Err(ContractError::RoundNotFound);
        }
        let round = &self.rounds[idx];
        if !round.active {
            return Err(ContractError::RegistrationClosed);
        }
        if round.is_expired(now) {
            return Err(ContractError::RoundExpired);
        }
        if round.has_player(caller) {
            return Err(ContractError::AlreadyRegistered);
        }
        if funds.len() != 1 {
            return Err(ContractError::WrongPaymentDenom);
        }
        if !(funds[0].denom == stake_denom()) {
            return Err(ContractError::WrongPaymentDenom);
        }
        if funds[0].amount < round.minimum_stake {
            return Err(ContractError::InsufficientFunds);
        }
        self.rounds[idx].players.push(caller.clone());
        Ok(())
    }

    /// Finalize a round: draw one winner per distribution slot from the
    /// deterministic round seed, compute their payouts from the
    /// custodied deposit, and close the round in one atomic write.
    /// Returns the outbox of pending transfer instructions, one per
    /// winner in slot order; the floor-division remainder stays
    /// custodied. Every rejection leaves the store untouched.
    pub fn choose_winners(
        &mut self,
        caller: &String,
        id: u32,
        block_height: u64,
        total_deposit: u128,
    ) -> (r: Result<Vec<TransferMsg>, ContractError>)
        requires
            old(self).wf(),
        ensures
            final(self).wf(),
            r is Ok <==> spec_finalize_outcome(*old(self), caller@, id) is Ok,
            r is Err ==> Err::<(), ContractError>(r.unwrap_err()) == spec_finalize_outcome(
                *old(self),
                caller@,
                id,
            ) && *final(self) == *old(self),
            r is Ok ==> finalize_transition(
                *old(self),
                *final(self),
                caller@,
                id,
                block_height,
                total_deposit,
            ),
            r is Ok ==> {
                let transfers = r.unwrap();
                let round = final(self).rounds@[id as int];
                &&& transfers@.len() == round.winners@.len()
                &&& forall|i: int|
                    0 <= i < transfers@.len() ==> (#[trigger] transfers@[i]).to_address@
                        == round.winners@[i]@ && transfers@[i].amount == round.winner_payouts@[i]
                        && transfers@[i].denom@ == spec_stake_denom()
            },
    {
        if !self.is_admin(caller) {
            return Err(ContractError::Unauthorized);
        }
        let idx = id as usize;
        if self.rounds.len() <= idx {
            return Err(ContractError::RoundNotFound);
        }
        if !self.rounds[idx].active {
            return Err(ContractError::DoubleFinalization);
        }
        if self.rounds[idx].players.len() == 0 {
            return Err(ContractError::NoPlayers);
        }

        let prng_seed = domain_seed();
        let random_seed = new_entropy(caller, block_height, &prng_seed, &prng_seed);

        let num_slots = self.rounds[idx].winners_distribution.len();
        let winners = match select_winners(&self.rounds[idx].players, num_slots, &random_seed) {
            Ok(w) => w,
            Err(e) => {
                return Err(e);
            },
        };
        proof {
            lemma_positive_shares_sum_positive(self.rounds@[idx as int].winners_distribution@);
        }
        let plan = match compute_payouts(&self.rounds[idx].winners_distribution, total_deposit) {
            Ok(p) => p,
            Err(e) => {
                return Err(e);
            },
        };

        let mut transfers: Vec<TransferMsg> = Vec::new();
        let mut k: usize = 0;
        while k < winners.len()
            invariant
                k <= winners@.len(),
                winners@.len() == num_slots,
                plan.payouts@.len() == num_slots,
                transfers@.len() == k,
                forall|i: int|
                    0 <= i < k ==> (#[trigger] transfers@[i]).to_address@ == winners@[i]@
                        && transfers@[i].amount == plan.payouts@[i] && transfers@[i].denom@
                        == spec_stake_denom(),
            decreases winners@.len() - k,
        {
            transfers.push(
                TransferMsg {
                    to_address: winners[k].clone(),
                    amount: plan.payouts[k],
                    denom: stake_denom(),
                },
            );
            k += 1;
        }

        let round = &mut self.rounds[idx];
        round.winners = winners;
        round.winner_payouts = plan.payouts;
        round.active = false;
        Ok(transfers)
    }

    /// Execute one operation against the store: the single dispatch
    /// point the transport layer drives. The deposit snapshot and block
    /// context are read by the caller and handed in as plain values.
    pub fn execute(
        &mut self,
        caller: &String,
        funds: &Vec<Coin>,
        block_time: u64,
        block_height: u64,
        total_deposit: u128,
        msg: ExecuteMsg,
    ) -> (r: Result<ExecuteResponse, ContractError>)
        requires
            old(self).wf(),
            msg matches ExecuteMsg::BeginRaffleRound { end_time_stamp, .. } ==> block_time
                < end_time_stamp,
        ensures
            final(self).wf(),
            match msg {
                ExecuteMsg::BeginRaffleRound { end_time_stamp, minimum_stake, winners_distribution } => {
                    let outcome = spec_begin_outcome(
                        *old(self),
                        caller@,
                        winners_distribution@,
                    );
                    &&& (r is Ok <==> outcome is Ok)
                    &&& r is Err ==> r.unwrap_err() == outcome.unwrap_err() && *final(self)
                        == *old(self)
                    &&& r is Ok ==> (r.unwrap() matches ExecuteResponse::RoundOpened { id }
                        && id == outcome.unwrap() && begin_transition(
                        *old(self),
                        *final(self),
                        block_time,
                        end_time_stamp,
                        minimum_stake,
                        winners_distribution@,
                        id,
                    ))
                },
                ExecuteMsg::JoinRaffleRound { id } => {
                    let outcome = spec_join_outcome(*old(self), caller@, id, funds@, block_time);
                    &&& r is Ok <==> outcome is Ok
                    &&& r is Err ==> r.unwrap_err() == outcome.unwrap_err() && *final(self)
                        == *old(self)
                    &&& r is Ok ==> (r.unwrap() matches ExecuteResponse::RoundJoined
                        && join_transition(*old(self), *final(self), *caller, id))
                },
                ExecuteMsg::EndRaffleRound { id } => {
                    let outcome = spec_finalize_outcome(*old(self), caller@, id);
                    &&& r is Ok <==> outcome is Ok
                    &&& r is Err ==> r.unwrap_err() == outcome.unwrap_err() && *final(self)
                        == *old(self)
                    &&& r is Ok ==> (r.unwrap() matches ExecuteResponse::RoundFinalized { transfers }
                        && finalize_transition(
                        *old(self),
                        *final(self),
                        caller@,
                        id,
                        block_height,
                        total_deposit,
                    ) && transfers@.len() == final(self).rounds@[id as int].winners@.len()
                        && (forall|i: int|
                        0 <= i < transfers@.len() ==> (#[trigger] transfers@[i]).to_address@
                            == final(self).rounds@[id as int].winners@[i]@ && transfers@[i].amount
                            == final(self).rounds@[id as int].winner_payouts@[i]
                            && transfers@[i].denom@ == spec_stake_denom()))
                },
            },
    {
        match msg {
            ExecuteMsg::BeginRaffleRound { end_time_stamp, minimum_stake, winners_distribution } => {
                match self.begin_raffle_round(
                    caller,
                    end_time_stamp,
                    minimum_stake,
                    winners_distribution,
                    block_time,
                ) {
                    Ok(id) => Ok(ExecuteResponse::RoundOpened { id }),
                    Err(e) => Err(e),
                }
            },
            ExecuteMsg::JoinRaffleRound { id } => {
                match self.join_raffle_round(caller, id, funds, block_time) {
                    Ok(()) => Ok(ExecuteResponse::RoundJoined),
                    Err(e) => Err(e),
                }
            },
            ExecuteMsg::EndRaffleRound { id } => {
                match self.choose_winners(caller, id, block_height, total_deposit) {
                    Ok(transfers) => Ok(ExecuteResponse::RoundFinalized { transfers }),
                    Err(e) => Err(e),
                }
            },
        }
    }
}

/// Law: round ids are strictly increasing. Two successful openings in
/// sequence return ids exactly one apart.
pub proof fn lemma_round_ids_strictly_increasing(
    s0: RaffleStore,
    s1: RaffleStore,
    s2: RaffleStore,
    now1: u64,
    now2: u64,
    end1: u64,
    end2: u64,
    stake1: u128,
    stake2: u128,
    dist1: Seq<u32>,
    dist2: Seq<u32>,
    id1: u32,
    id2: u32,
)
    requires
        begin_transition(s0, s1, now1, end1, stake1, dist1, id1),
        begin_transition(s1, s2, now2, end2, stake2, dist2, id2),
    ensures
        id2 == id1 + 1,
{
}

/// Law: a finalized round is terminal under joins. A join only ever
/// touches an active round, so a round whose `active` flag has fallen
/// is carried through unchanged.
pub proof fn lemma_join_keeps_finalized_rounds(
    pre: RaffleStore,
    post: RaffleStore,
    caller: String,
    id: u32,
    i: int,
)
    requires
        join_transition(pre, post, caller, id),
        pre.rounds@[id as int].active,
        0 <= i < pre.rounds@.len(),
        !pre.rounds@[i].active,
    ensures
        post.rounds@[i] == pre.rounds@[i],
{
}

/// Law: a finalized round is terminal under finalizations. A
/// finalization only ever touches an active round, so a round whose
/// `active` flag has fallen keeps its winners and payouts forever.
pub proof fn lemma_finalize_keeps_finalized_rounds(
    pre: RaffleStore,
    post: RaffleStore,
    caller: Seq<char>,
    id: u32,
    block_height: u64,
    total_deposit: u128,
    i: int,
)
    requires
        finalize_transition(pre, post, caller, id, block_height, total_deposit),
        pre.rounds@[id as int].active,
        0 <= i < pre.rounds@.len(),
        !pre.rounds@[i].active,
    ensures
        post.rounds@[i] == pre.rounds@[i],
{
}

/// Law: finalization is deterministic. Two finalizations fed identical
/// round state (the player list and slot count) and identical derivation
/// inputs (caller identity and block height) select identical winners.
pub proof fn lemma_finalization_deterministic(
    players1: Seq<Seq<char>>,
    players2: Seq<Seq<char>>,
    caller1: Seq<char>,
    caller2: Seq<char>,
    height1: u64,
    height2: u64,
    slots1: nat,
    slots2: nat,
)
    requires
        players1 == players2,
        caller1 == caller2,
        height1 == height2,
        slots1 == slots2,
    ensures
        spec_selected_winners(players1, spec_round_seed(caller1, height1), slots1)
            == spec_selected_winners(players2, spec_round_seed(caller2, height2), slots2),
{
}

} // verus!
