use vstd::prelude::*;

verus! {

/// One raffle round, from opening to finalization.
///
/// A round is created with `active == true` and empty `players`,
/// `winners` and `winner_payouts`. Joins append to `players` while the
/// round is active and unexpired. Finalization fills `winners` and
/// `winner_payouts` and clears `active` in one atomic write; `active ==
/// false` is terminal.
#[derive(Debug)]
pub struct Raffle {
    pub id: u32,
    pub begin_time_stamp: u64,
    pub end_time_stamp: u64,
    pub minimum_stake: u128,
    pub winners_distribution: Vec<u32>,
    pub players: Vec<String>,
    pub winners: Vec<String>,
    pub winner_payouts: Vec<u128>,
    pub active: bool,
}

impl Raffle {
    /// No identity stands twice in the player list.
    pub open spec fn players_unique(self) -> bool {
        forall|i: int, j: int|
            0 <= i < j < self.players@.len() ==> self.players@[i]@ != self.players@[j]@
    }

    /// The shares are non-empty and all positive, so their sum is positive.
    pub open spec fn distribution_valid(self) -> bool {
        &&& self.winners_distribution@.len() > 0
        &&& forall|i: int|
            0 <= i < self.winners_distribution@.len() ==> self.winners_distribution@[i] > 0
    }

    /// Well-formedness: what every stored round satisfies.
    pub open spec fn wf(self) -> bool {
        &&& self.begin_time_stamp < self.end_time_stamp
        &&& self.distribution_valid()
        &&& self.players_unique()
        &&& self.active ==> self.winners@.len() == 0 && self.winner_payouts@.len() == 0
        &&& !self.active ==> self.winners@.len() == self.winners_distribution@.len()
            && self.winner_payouts@.len() == self.winners_distribution@.len()
    }

    /// A round accepts registrations only up to its end time.
    pub open spec fn spec_is_expired(self, now: u64) -> bool {
        now > self.end_time_stamp
    }

    pub fn is_expired(&self, now: u64) -> (b: bool)
        ensures
            b == self.spec_is_expired(now),
    {
        now > self.end_time_stamp
    }

    /// Whether this identity already stands in the player list.
    pub open spec fn spec_has_player(self, who: Seq<char>) -> bool {
        exists|i: int| 0 <= i < self.players@.len() && self.players@[i]@ == who
    }

    /// Decide well-formedness of one round, so that a caller holding a
    /// round of unknown provenance can test it before relying on it.
    pub fn check_wf(&self) -> (b: bool)
        ensures
            b == self.wf(),
    {
        if !(self.begin_time_stamp < self.end_time_stamp) {
            return false;
        }
        if self.winners_distribution.len() == 0 {
            return false;
        }
        let mut k: usize = 0;
        while k < self.winners_distribution.len()
            invariant
                k <= self.winners_distribution@.len(),
                forall|i: int| 0 <= i < k ==> self.winners_distribution@[i] > 0,
            decreases self.winners_distribution@.len() - k,
        {
            if self.winners_distribution[k] == 0 {
                return false;
            }
            k += 1;
        }
        let mut m: usize = 0;
        while m < self.players.len()
            invariant
                m <= self.players@.len(),
                forall|i: int, j: int|
                    0 <= i < m && i < j < self.players@.len() ==> self.players@[i]@
                        != self.players@[j]@,
            decreases self.players@.len() - m,
        {
            let mut n: usize = m + 1;
            while n < self.players.len()
                invariant
                    m < n <= self.players@.len(),
                    m < self.players@.len(),
                    forall|i: int, j: int|
                        0 <= i < m && i < j < self.players@.len() ==> self.players@[i]@
                            != self.players@[j]@,
                    forall|j: int| m < j < n ==> self.players@[m as int]@ != self.players@[j]@,
                decreases self.players@.len() - n,
            {
                if self.players[m] == self.players[n] {
                    return false;
                }
                n += 1;
            }
            m += 1;
        }
        if self.active {
            self.winners.len() == 0 && self.winner_payouts.len() == 0
        } else {
            self.winners.len() == self.winners_distribution.len() && self.winner_payouts.len()
                == self.winners_distribution.len()
        }
    }

    pub fn has_player(&self, who: &String) -> (b: bool)
        ensures
            b == self.spec_has_player(who@),
    {
        let mut k: usize = 0;
        while k < self.players.len()
            invariant
                k <= self.players@.len(),
                forall|i: int| 0 <= i < k ==> self.players@[i]@ != who@,
            decreases self.players@.len() - k,
        {
            if self.players[k] == *who {
                return true;
            }
            k += 1;
        }
        false
    }
}

/// The single record holding the next round id to assign; monotonic,
/// never reused.
pub struct Counter {
    pub counter: u32,
}

} // verus!
