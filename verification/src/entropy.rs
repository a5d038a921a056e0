use vstd::prelude::*;
use vstd::string::StrSliceExecFns;

verus! {

/// The SHA-256 digest of a byte sequence: a function of its input
/// alone, left uninterpreted here.
pub uninterp spec fn sha256_of(bytes: Seq<u8>) -> Seq<u8>;

/// The standard (padded) base64 encoding of a byte sequence, as bytes:
/// a function of its input alone, left uninterpreted here.
pub uninterp spec fn base64_bytes_of(bytes: Seq<u8>) -> Seq<u8>;

/// Relies on sha2::Sha256 through digest::Digest::digest: the digest is
/// a function of the input bytes alone and is 32 bytes long.
#[verifier::external_body]
pub(crate) fn sha256(bytes: &Vec<u8>) -> (r: Vec<u8>)
    ensures
        r@ == sha256_of(bytes@),
        r@.len() == 32,
{
    let digest = <sha2::Sha256 as sha2::Digest>::digest(bytes.as_slice());
    digest.as_slice().to_vec()
}

/// Relies on base64's STANDARD engine (Engine::encode): the padded
/// encoding is a function of the input bytes alone, four output bytes
/// for every started group of three input bytes. Inputs whose encoded
/// length cannot be computed in a `usize` are excluded: the engine
/// panics on those.
#[verifier::external_body]
pub(crate) fn base64_bytes(input: &Vec<u8>) -> (r: Vec<u8>)
    requires
        4 * ((input@.len() + 2) / 3) <= usize::MAX,
    ensures
        r@ == base64_bytes_of(input@),
        r@.len() == 4 * ((input@.len() + 2) / 3),
{
    let encoded = base64::Engine::encode(
        &base64::engine::general_purpose::STANDARD,
        input.as_slice(),
    );
    encoded.into_bytes()
}

/// The eight bytes of a 64-bit integer, most significant first.
pub open spec fn spec_be_bytes_u64(x: u64) -> Seq<u8> {
    seq![
        ((x >> 56) & 0xff) as u8,
        ((x >> 48) & 0xff) as u8,
        ((x >> 40) & 0xff) as u8,
        ((x >> 32) & 0xff) as u8,
        ((x >> 24) & 0xff) as u8,
        ((x >> 16) & 0xff) as u8,
        ((x >> 8) & 0xff) as u8,
        (x & 0xff) as u8,
    ]
}

pub fn be_bytes_u64(x: u64) -> (r: Vec<u8>)
    ensures
        r@ == spec_be_bytes_u64(x),
{
    let mut r: Vec<u8> = Vec::new();
    r.push(((x >> 56) & 0xff) as u8);
    r.push(((x >> 48) & 0xff) as u8);
    r.push(((x >> 40) & 0xff) as u8);
    r.push(((x >> 32) & 0xff) as u8);
    r.push(((x >> 24) & 0xff) as u8);
    r.push(((x >> 16) & 0xff) as u8);
    r.push(((x >> 8) & 0xff) as u8);
    r.push((x & 0xff) as u8);
    proof {
        assert(r@ =~= spec_be_bytes_u64(x));
    }
    r
}

/// Append every byte of `src` to `dst`.
pub fn push_bytes(dst: &mut Vec<u8>, src: &Vec<u8>)
    ensures
        final(dst)@ == old(dst)@ + src@,
{
    let mut k: usize = 0;
    while k < src.len()
        invariant
            k <= src@.len(),
            dst@ == old(dst)@ + src@.take(k as int),
        decreases src@.len() - k,
    {
        dst.push(src[k]);
        proof {
            assert(old(dst)@ + src@.take(k as int + 1) =~= (old(dst)@ + src@.take(k as int)).push(
                src@[k as int],
            ));
        }
        k += 1;
    }
    proof {
        assert(src@.take(src@.len() as int) =~= src@);
    }
}

/// The seed material hashed for a round: base seed, then the block
/// height in big-endian bytes, then the caller's identity in UTF-8,
/// then the extra entropy bytes.
pub open spec fn spec_entropy_material(
    sender: Seq<char>,
    block_height: u64,
    seed: Seq<u8>,
    entropy: Seq<u8>,
) -> Seq<u8> {
    seed + spec_be_bytes_u64(block_height) + vstd::utf8::encode_utf8(sender) + entropy
}

/// The deterministic 32-byte seed derived for a round.
pub open spec fn spec_new_entropy(
    sender: Seq<char>,
    block_height: u64,
    seed: Seq<u8>,
    entropy: Seq<u8>,
) -> Seq<u8> {
    sha256_of(spec_entropy_material(sender, block_height, seed, entropy))
}

/// Derive a deterministic pseudo-random seed from transaction-level
/// inputs: never from a wall clock or an external randomness service,
/// so every replica derives the same seed from the same inputs.
pub fn new_entropy(sender: &String, block_height: u64, seed: &Vec<u8>, entropy: &Vec<u8>) -> (r:
    Vec<u8>)
    ensures
        r@ == spec_new_entropy(sender@, block_height, seed@, entropy@),
        r@.len() == 32,
{
    let mut material: Vec<u8> = Vec::new();
    push_bytes(&mut material, seed);
    let height_bytes = be_bytes_u64(block_height);
    push_bytes(&mut material, &height_bytes);
    let sender_bytes = sender.as_str().as_bytes_vec();
    push_bytes(&mut material, &sender_bytes);
    push_bytes(&mut material, entropy);
    proof {
        assert(material@ =~= spec_entropy_material(sender@, block_height, seed@, entropy@));
    }
    sha256(&material)
}

/// The ASCII bytes of the fixed domain-separation tag, "entropy".
pub open spec fn spec_domain_tag() -> Seq<u8> {
    seq![101u8, 110u8, 116u8, 114u8, 111u8, 112u8, 121u8]
}

/// The fixed domain-separation constant every round seed starts from.
pub open spec fn spec_domain_seed() -> Seq<u8> {
    sha256_of(base64_bytes_of(spec_domain_tag()))
}

/// The fixed domain-separation seed: the digest of the base64-encoded
/// tag, computed the same way on every replica.
pub fn domain_seed() -> (r: Vec<u8>)
    ensures
        r@ == spec_domain_seed(),
        r@.len() == 32,
{
    let mut tag: Vec<u8> = Vec::new();
    tag.push(101);
    tag.push(110);
    tag.push(116);
    tag.push(114);
    tag.push(111);
    tag.push(112);
    tag.push(121);
    proof {
        assert(tag@ =~= spec_domain_tag());
    }
    let encoded = base64_bytes(&tag);
    sha256(&encoded)
}

/// The 32-byte seed a finalization draws winners from: derived from the
/// domain constant, the block height and the finalizing caller, with
/// the domain constant doubling as the extra entropy input.
pub open spec fn spec_round_seed(caller: Seq<char>, block_height: u64) -> Seq<u8> {
    spec_new_entropy(caller, block_height, spec_domain_seed(), spec_domain_seed())
}

} // verus!
