use raffle::entropy::{domain_seed, new_entropy};
use sha2::Digest;

fn expected_domain_seed() -> Vec<u8> {
    let encoded = base64::Engine::encode(
        &base64::engine::general_purpose::STANDARD,
        "entropy".as_bytes(),
    );
    assert_eq!(encoded, "ZW50cm9weQ==");
    sha2::Sha256::digest(encoded.as_bytes()).to_vec()
}

fn expected_seed(sender: &str, height: u64, seed: &[u8], entropy: &[u8]) -> Vec<u8> {
    let mut material: Vec<u8> = Vec::new();
    material.extend_from_slice(seed);
    material.extend_from_slice(&height.to_be_bytes());
    material.extend_from_slice(sender.as_bytes());
    material.extend_from_slice(entropy);
    sha2::Sha256::digest(&material).to_vec()
}

#[test]
fn domain_seed_matches_direct_computation() {
    let got = domain_seed();
    assert_eq!(got.len(), 32);
    assert_eq!(got, expected_domain_seed());
}

#[test]
fn new_entropy_matches_direct_computation() {
    let sender = "alice".to_string();
    let seed: Vec<u8> = vec![1, 2, 3, 4];
    let entropy: Vec<u8> = vec![9, 9];
    let got = new_entropy(&sender, 42, &seed, &entropy);
    assert_eq!(got.len(), 32);
    assert_eq!(got, expected_seed("alice", 42, &seed, &entropy));
}

#[test]
fn new_entropy_is_deterministic() {
    let sender = "alice".to_string();
    let seed: Vec<u8> = vec![7; 32];
    let entropy: Vec<u8> = vec![1, 2, 3];
    let a = new_entropy(&sender, 5, &seed, &entropy);
    let b = new_entropy(&sender, 5, &seed, &entropy);
    assert_eq!(a, b);
}

#[test]
fn new_entropy_depends_on_inputs() {
    let sender = "alice".to_string();
    let other = "bob".to_string();
    let seed: Vec<u8> = vec![7; 32];
    let entropy: Vec<u8> = vec![1, 2, 3];
    let entropy2: Vec<u8> = vec![1, 2, 4];
    let base = new_entropy(&sender, 5, &seed, &entropy);
    assert_ne!(base, new_entropy(&other, 5, &seed, &entropy));
    assert_ne!(base, new_entropy(&sender, 6, &seed, &entropy));
    assert_ne!(base, new_entropy(&sender, 5, &seed, &entropy2));
    // the digest is not the seed handed back unchanged
    assert_ne!(base, seed);
}
