use raffle::contract::{instantiate, RaffleStore};
use raffle::errors::ContractError;
use raffle::msg::{Coin, ExecuteMsg, ExecuteResponse, InstantiateMsg};
use raffle::state::Counter;
use rand_core::{RngCore, SeedableRng};
use sha2::Digest;

fn fresh_store() -> RaffleStore {
    let msg = InstantiateMsg { count: 0, admins: vec!["alice".to_string()] };
    instantiate(msg)
}

fn juno(amount: u128) -> Vec<Coin> {
    vec![Coin { denom: "ujuno".to_string(), amount }]
}

/// Open a round ending at time 100 with minimum stake 5 and the given
/// distribution, at time 10.
fn open_round(store: &mut RaffleStore, dist: Vec<u32>) -> u32 {
    store.begin_raffle_round(&"alice".to_string(), 100, 5, dist, 10).unwrap()
}

fn expected_round_seed(sender: &str, height: u64) -> [u8; 32] {
    let encoded = base64::Engine::encode(
        &base64::engine::general_purpose::STANDARD,
        "entropy".as_bytes(),
    );
    let domain = sha2::Sha256::digest(encoded.as_bytes()).to_vec();
    let mut material: Vec<u8> = Vec::new();
    material.extend_from_slice(&domain);
    material.extend_from_slice(&height.to_be_bytes());
    material.extend_from_slice(sender.as_bytes());
    material.extend_from_slice(&domain);
    let digest = sha2::Sha256::digest(&material);
    let mut seed = [0u8; 32];
    seed.copy_from_slice(&digest);
    seed
}

#[test]
fn instantiate_sets_admins_and_counter() {
    let store = fresh_store();
    assert_eq!(store.admins, vec!["alice".to_string()]);
    assert_eq!(store.counter.counter, 0);
    assert!(store.rounds.is_empty());
    assert!(store.check_wf());
    assert!(store.is_admin(&"alice".to_string()));
    assert!(!store.is_admin(&"bob".to_string()));
}

#[test]
fn round_ids_strictly_increase() {
    let mut store = fresh_store();
    let a = open_round(&mut store, vec![1]);
    let b = open_round(&mut store, vec![1, 2]);
    let c = open_round(&mut store, vec![3]);
    assert_eq!(a, 0);
    assert_eq!(b, a + 1);
    assert_eq!(c, b + 1);
    assert_eq!(store.get_current_counter(), 3);
}

#[test]
fn open_requires_admin() {
    let mut store = fresh_store();
    let r = store.begin_raffle_round(&"bob".to_string(), 100, 5, vec![1], 10);
    assert_eq!(r.unwrap_err(), ContractError::Unauthorized);
    assert_eq!(store.counter.counter, 0);
    assert!(store.rounds.is_empty());
}

#[test]
fn open_rejects_bad_distribution() {
    let mut store = fresh_store();
    let empty = store.begin_raffle_round(&"alice".to_string(), 100, 5, Vec::new(), 10);
    assert_eq!(empty.unwrap_err(), ContractError::InvalidDistribution);
    let zero = store.begin_raffle_round(&"alice".to_string(), 100, 5, vec![1, 0, 2], 10);
    assert_eq!(zero.unwrap_err(), ContractError::InvalidDistribution);
    assert!(store.rounds.is_empty());
}

#[test]
fn open_rejects_exhausted_counter() {
    let mut store = RaffleStore {
        admins: vec!["alice".to_string()],
        counter: Counter { counter: u32::MAX },
        rounds: Vec::new(),
    };
    let r = store.begin_raffle_round(&"alice".to_string(), 100, 5, vec![1], 10);
    assert_eq!(r.unwrap_err(), ContractError::ArithmeticOverflow);
    assert_eq!(store.counter.counter, u32::MAX);
}

#[test]
fn join_appends_player() {
    let mut store = fresh_store();
    let id = open_round(&mut store, vec![1]);
    store.join_raffle_round(&"bob".to_string(), id, &juno(5), 50).unwrap();
    store.join_raffle_round(&"carol".to_string(), id, &juno(7), 60).unwrap();
    assert_eq!(store.rounds[0].players, vec!["bob".to_string(), "carol".to_string()]);
    assert!(store.is_registered(id, &"bob".to_string()).unwrap());
    assert!(!store.is_registered(id, &"dave".to_string()).unwrap());
}

#[test]
fn join_missing_round_fails_without_mutation() {
    let mut store = fresh_store();
    let r = store.join_raffle_round(&"bob".to_string(), 3, &juno(5), 50);
    assert_eq!(r.unwrap_err(), ContractError::RoundNotFound);
    assert!(store.rounds.is_empty());
    assert_eq!(store.counter.counter, 0);
}

#[test]
fn join_finalized_round_fails_without_mutation() {
    let mut store = fresh_store();
    let id = open_round(&mut store, vec![1]);
    store.join_raffle_round(&"bob".to_string(), id, &juno(5), 50).unwrap();
    store.choose_winners(&"alice".to_string(), id, 7, 600).unwrap();
    assert!(!store.rounds[0].active);
    let r = store.join_raffle_round(&"carol".to_string(), id, &juno(5), 60);
    assert_eq!(r.unwrap_err(), ContractError::RegistrationClosed);
    assert_eq!(store.rounds[0].players.len(), 1);
}

#[test]
fn join_expired_round_fails_even_if_active() {
    let mut store = fresh_store();
    let id = open_round(&mut store, vec![1]);
    assert!(store.rounds[0].active);
    let r = store.join_raffle_round(&"bob".to_string(), id, &juno(5), 101);
    assert_eq!(r.unwrap_err(), ContractError::RoundExpired);
    assert!(store.rounds[0].players.is_empty());
}

#[test]
fn join_twice_fails_and_keeps_players() {
    let mut store = fresh_store();
    let id = open_round(&mut store, vec![1]);
    store.join_raffle_round(&"bob".to_string(), id, &juno(5), 50).unwrap();
    let r = store.join_raffle_round(&"bob".to_string(), id, &juno(5), 51);
    assert_eq!(r.unwrap_err(), ContractError::AlreadyRegistered);
    assert_eq!(store.rounds[0].players.len(), 1);
}

#[test]
fn join_wrong_payment_fails_and_keeps_players() {
    let mut store = fresh_store();
    let id = open_round(&mut store, vec![1]);

    let wrong_denom = vec![Coin { denom: "uatom".to_string(), amount: 10 }];
    let r = store.join_raffle_round(&"bob".to_string(), id, &wrong_denom, 50);
    assert_eq!(r.unwrap_err(), ContractError::WrongPaymentDenom);

    let two_coins = vec![
        Coin { denom: "ujuno".to_string(), amount: 10 },
        Coin { denom: "uatom".to_string(), amount: 10 },
    ];
    let r = store.join_raffle_round(&"bob".to_string(), id, &two_coins, 50);
    assert_eq!(r.unwrap_err(), ContractError::WrongPaymentDenom);

    let no_coins: Vec<Coin> = Vec::new();
    let r = store.join_raffle_round(&"bob".to_string(), id, &no_coins, 50);
    assert_eq!(r.unwrap_err(), ContractError::WrongPaymentDenom);

    let r = store.join_raffle_round(&"bob".to_string(), id, &juno(4), 50);
    assert_eq!(r.unwrap_err(), ContractError::InsufficientFunds);

    assert!(store.rounds[0].players.is_empty());
}

#[test]
fn minimum_stake_is_inclusive() {
    let mut store = fresh_store();
    let id = open_round(&mut store, vec![1]);
    store.join_raffle_round(&"bob".to_string(), id, &juno(5), 50).unwrap();
    assert_eq!(store.rounds[0].players.len(), 1);
}

#[test]
fn finalize_requires_admin() {
    let mut store = fresh_store();
    let id = open_round(&mut store, vec![1]);
    store.join_raffle_round(&"bob".to_string(), id, &juno(5), 50).unwrap();
    let r = store.choose_winners(&"bob".to_string(), id, 7, 600);
    assert_eq!(r.unwrap_err(), ContractError::Unauthorized);
    assert!(store.rounds[0].active);
}

#[test]
fn finalize_missing_round_fails() {
    let mut store = fresh_store();
    let r = store.choose_winners(&"alice".to_string(), 9, 7, 600);
    assert_eq!(r.unwrap_err(), ContractError::RoundNotFound);
}

#[test]
fn finalize_without_players_fails_without_partial_state() {
    let mut store = fresh_store();
    let id = open_round(&mut store, vec![1, 2]);
    let r = store.choose_winners(&"alice".to_string(), id, 7, 600);
    assert_eq!(r.unwrap_err(), ContractError::NoPlayers);
    assert!(store.rounds[0].active);
    assert!(store.rounds[0].winners.is_empty());
    assert!(store.rounds[0].winner_payouts.is_empty());
}

#[test]
fn finalize_twice_fails_and_keeps_first_outcome() {
    let mut store = fresh_store();
    let id = open_round(&mut store, vec![1, 2]);
    store.join_raffle_round(&"bob".to_string(), id, &juno(5), 50).unwrap();
    store.choose_winners(&"alice".to_string(), id, 7, 600).unwrap();
    let winners = store.rounds[0].winners.clone();
    let payouts = store.rounds[0].winner_payouts.clone();
    let r = store.choose_winners(&"alice".to_string(), id, 8, 999);
    assert_eq!(r.unwrap_err(), ContractError::DoubleFinalization);
    assert_eq!(store.rounds[0].winners, winners);
    assert_eq!(store.rounds[0].winner_payouts, payouts);
    assert!(!store.rounds[0].active);
}

#[test]
fn finalize_fills_round_and_outbox() {
    let mut store = fresh_store();
    let id = open_round(&mut store, vec![1, 2, 3]);
    store.join_raffle_round(&"bob".to_string(), id, &juno(5), 50).unwrap();
    store.join_raffle_round(&"carol".to_string(), id, &juno(5), 51).unwrap();
    let transfers = store.choose_winners(&"alice".to_string(), id, 7, 600).unwrap();

    let round = &store.rounds[0];
    assert!(!round.active);
    assert_eq!(round.winners.len(), 3);
    assert_eq!(round.winner_payouts, vec![100u128, 200, 300]);
    assert_eq!(round.players, vec!["bob".to_string(), "carol".to_string()]);

    assert_eq!(transfers.len(), 3);
    for (k, t) in transfers.iter().enumerate() {
        assert_eq!(t.to_address, round.winners[k]);
        assert_eq!(t.amount, round.winner_payouts[k]);
        assert_eq!(t.denom, "ujuno");
    }
    let paid: u128 = round.winner_payouts.iter().sum();
    assert!(paid <= 600);
    assert!(store.check_wf());
}

#[test]
fn finalize_is_deterministic_across_replicas() {
    let build = || {
        let mut store = fresh_store();
        let id = open_round(&mut store, vec![1, 1, 1, 1]);
        for p in ["bob", "carol", "dave", "erin"] {
            store.join_raffle_round(&p.to_string(), id, &juno(5), 50).unwrap();
        }
        store
    };
    let mut s1 = build();
    let mut s2 = build();
    s1.choose_winners(&"alice".to_string(), 0, 77, 400).unwrap();
    s2.choose_winners(&"alice".to_string(), 0, 77, 400).unwrap();
    assert_eq!(s1.rounds[0].winners, s2.rounds[0].winners);
    assert_eq!(s1.rounds[0].winner_payouts, s2.rounds[0].winner_payouts);

    // a different block height is a different derivation input
    let mut s3 = build();
    let mut s4 = build();
    s3.choose_winners(&"alice".to_string(), 0, 78, 400).unwrap();
    s4.choose_winners(&"alice".to_string(), 0, 78, 400).unwrap();
    assert_eq!(s3.rounds[0].winners, s4.rounds[0].winners);
}

#[test]
fn winners_match_direct_chacha_stream() {
    let mut store = fresh_store();
    let id = open_round(&mut store, vec![2, 1]);
    let players = ["bob", "carol", "dave", "erin", "frank"];
    for p in players {
        store.join_raffle_round(&p.to_string(), id, &juno(5), 50).unwrap();
    }
    store.choose_winners(&"alice".to_string(), id, 42, 900).unwrap();

    let seed = expected_round_seed("alice", 42);
    let mut rng = rand_chacha::ChaCha20Rng::from_seed(seed);
    let expected: Vec<String> = (0..2)
        .map(|_| players[(rng.next_u32() as usize) % players.len()].to_string())
        .collect();
    assert_eq!(store.rounds[0].winners, expected);
}

#[test]
fn execute_dispatches_all_operations() {
    let alice = "alice".to_string();
    let bob = "bob".to_string();
    let mut store = fresh_store();
    let no_funds: Vec<Coin> = Vec::new();

    let opened = store
        .execute(
            &alice,
            &no_funds,
            10,
            7,
            0,
            ExecuteMsg::BeginRaffleRound {
                end_time_stamp: 100,
                minimum_stake: 5,
                winners_distribution: vec![1],
            },
        )
        .unwrap();
    assert!(matches!(opened, ExecuteResponse::RoundOpened { id: 0 }));

    let joined = store
        .execute(&bob, &juno(5), 50, 8, 0, ExecuteMsg::JoinRaffleRound { id: 0 })
        .unwrap();
    assert!(matches!(joined, ExecuteResponse::RoundJoined));

    let finalized = store
        .execute(&alice, &no_funds, 60, 9, 500, ExecuteMsg::EndRaffleRound { id: 0 })
        .unwrap();
    match finalized {
        ExecuteResponse::RoundFinalized { transfers } => {
            assert_eq!(transfers.len(), 1);
            assert_eq!(transfers[0].to_address, "bob");
            assert_eq!(transfers[0].amount, 500);
            assert_eq!(transfers[0].denom, "ujuno");
        }
        _ => panic!("expected a finalization response"),
    }

    let again = store.execute(&alice, &no_funds, 61, 10, 500, ExecuteMsg::EndRaffleRound { id: 0 });
    assert_eq!(again.unwrap_err(), ContractError::DoubleFinalization);
}

#[test]
fn queries_read_rounds_and_counter() {
    let mut store = fresh_store();
    assert_eq!(store.get_current_counter(), 0);
    let id = open_round(&mut store, vec![1]);
    assert_eq!(store.get_current_counter(), 1);

    let info = store.get_raffle_info(id).unwrap();
    assert_eq!(info.id, 0);
    assert_eq!(info.begin_time_stamp, 10);
    assert_eq!(info.end_time_stamp, 100);
    assert_eq!(info.minimum_stake, 5);
    assert!(info.active);

    assert_eq!(store.get_raffle_info(5).unwrap_err(), ContractError::RoundNotFound);
    assert!(store.can_register(id).unwrap());
    assert_eq!(store.can_register(9).unwrap_err(), ContractError::RoundNotFound);
}

#[test]
fn check_wf_rejects_tampered_state() {
    let mut store = fresh_store();
    let id = open_round(&mut store, vec![1]);
    store.join_raffle_round(&"bob".to_string(), id, &juno(5), 50).unwrap();
    assert!(store.check_wf());

    let mut tampered = fresh_store();
    open_round(&mut tampered, vec![1]);
    tampered.rounds[0].players = vec!["bob".to_string(), "bob".to_string()];
    assert!(!tampered.check_wf());

    let mut bad_counter = fresh_store();
    open_round(&mut bad_counter, vec![1]);
    bad_counter.counter.counter = 7;
    assert!(!bad_counter.check_wf());
}
