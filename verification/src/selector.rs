use vstd::prelude::*;

use crate::errors::ContractError;

verus! {

/// The `i`-th 32-bit draw of a ChaCha20 stream under a 32-byte seed: a
/// function of the seed and the position alone, left uninterpreted here.
pub uninterp spec fn chacha_word(seed: Seq<u8>, i: int) -> u32;

/// Relies on rand_chacha::ChaCha20Rng::from_seed and
/// rand_core::RngCore::next_u32: seeded from the same 32 bytes, the
/// stream of 32-bit draws is the same on every replica.
#[verifier::external_body]
pub(crate) fn chacha_u32_stream(seed: &Vec<u8>, n: usize) -> (r: Vec<u32>)
    requires
        seed@.len() == 32,
    ensures
        r@.len() == n,
        forall|i: int| 0 <= i < n ==> r@[i] == chacha_word(seed@, i),
{
    let mut key = [0u8; 32];
    key.copy_from_slice(seed.as_slice());
    let mut rng = <rand_chacha::ChaCha20Rng as rand_core::SeedableRng>::from_seed(key);
    let mut out: Vec<u32> = Vec::with_capacity(n);
    let mut k: usize = 0;
    while k < n {
        out.push(rand_core::RngCore::next_u32(&mut rng));
        k += 1;
    }
    out
}

/// Which player the stream picks for a slot: the slot's draw, reduced
/// modulo the number of players. Sampling is with replacement: one
/// player may win several slots.
pub open spec fn spec_winner_index(seed: Seq<u8>, slot: int, n_players: nat) -> int
    recommends
        n_players > 0,
{
    chacha_word(seed, slot) as int % n_players as int
}

/// The whole winner sequence a seed selects from a player list.
pub open spec fn spec_selected_winners(
    players: Seq<Seq<char>>,
    seed: Seq<u8>,
    slots: nat,
) -> Seq<Seq<char>> {
    Seq::new(slots, |i: int| players[spec_winner_index(seed, i, players.len())])
}

/// Draw one winner per slot from the player list, deterministically
/// from the seed, sampling with replacement. Fails with `NoPlayers`
/// exactly when the player list is empty.
pub fn select_winners(players: &Vec<String>, num_slots: usize, seed: &Vec<u8>) -> (r: Result<
    Vec<String>,
    ContractError,
>)
    requires
        seed@.len() == 32,
    ensures
        players@.len() == 0 <==> r is Err,
        r is Err ==> r == Err::<Vec<String>, ContractError>(ContractError::NoPlayers),
        r is Ok ==> r.unwrap().deep_view() == spec_selected_winners(
            players.deep_view(),
            seed@,
            num_slots as nat,
        ),
        r is Ok ==> r.unwrap()@.len() == num_slots,
{
    if players.len() == 0 {
        return Err(ContractError::NoPlayers);
    }
    let words = chacha_u32_stream(seed, num_slots);
    let mut winners: Vec<String> = Vec::new();
    let mut k: usize = 0;
    while k < num_slots
        invariant
            k <= num_slots,
            players@.len() > 0,
            seed@.len() == 32,
            words@.len() == num_slots,
            forall|i: int| 0 <= i < num_slots ==> words@[i] == chacha_word(seed@, i),
            winners@.len() == k,
            forall|i: int|
                0 <= i < k ==> winners@[i]@ == players.deep_view()[spec_winner_index(
                    seed@,
                    i,
                    players@.len(),
                )],
        decreases num_slots - k,
    {
        let idx = (words[k] as usize) % players.len();
        winners.push(players[idx].clone());
        k += 1;
    }
    proof {
        assert(winners.deep_view() =~= spec_selected_winners(
            players.deep_view(),
            seed@,
            num_slots as nat,
        ));
    }
    Ok(winners)
}

/// Law: winner selection is deterministic. Two selections fed identical
/// player lists, identical seeds and identical slot counts yield
/// identical winner sequences; replicas need no communication to agree.
pub proof fn lemma_winner_selection_deterministic(
    players1: Seq<Seq<char>>,
    players2: Seq<Seq<char>>,
    seed1: Seq<u8>,
    seed2: Seq<u8>,
    slots1: nat,
    slots2: nat,
)
    requires
        players1 == players2,
        seed1 == seed2,
        slots1 == slots2,
    ensures
        spec_selected_winners(players1, seed1, slots1) == spec_selected_winners(
            players2,
            seed2,
            slots2,
        ),
{
}

} // verus!
