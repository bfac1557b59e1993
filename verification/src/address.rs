//! Deterministic escrow addresses and the record's signing authority.
//!
//! A challenge record lives at an address derived from the seed sequence
//! ["challenge", creator key bytes, challenge id bytes] under the protocol's
//! program id, together with a disambiguation byte (the "bump") chosen at
//! derivation time so the address cannot collide with any externally
//! controllable key. No private key exists for such an address: the protocol
//! authorizes the payout by re-deriving the same seed sequence.

use vstd::prelude::*;

use anchor_lang::solana_program::pubkey::Pubkey;

use crate::identity::Identity;

verus! {

/// What `Pubkey::try_find_program_address` returns for the seed slices
/// `[tag, key, id_bytes]` under the 32-byte program id `program`: an iterated
/// SHA-256 digest and the chosen bump seed, a pure function of the arguments
/// alone (`None` when `program` is not 32 bytes long).
pub uninterp spec fn derived_address_of(
    tag: Seq<u8>,
    key: Seq<u8>,
    id_bytes: Seq<u8>,
    program: Seq<u8>,
) -> Option<(Seq<u8>, u8)>;

/// Relies on `Pubkey::try_find_program_address` (re-exported by anchor_lang
/// from solana-address): the derived address and bump depend on the seed
/// slices and the program id alone, and a derived address is 32 bytes long.
#[verifier::external_body]
fn find_program_address(tag: &Vec<u8>, key: &Vec<u8>, id_bytes: &Vec<u8>, program: &Vec<u8>) -> (r:
    Option<(Vec<u8>, u8)>)
    ensures
        (match r {
            Some((address, bump)) => derived_address_of(tag@, key@, id_bytes@, program@) == Some(
                (address@, bump),
            ) && address@.len() == 32,
            None => derived_address_of(tag@, key@, id_bytes@, program@) is None,
        }),
{
    let program_id = match Pubkey::try_from(program.as_slice()) {
        Ok(p) => p,
        Err(_) => {
            return None;
        },
    };
    let seeds: [&[u8]; 3] = [tag.as_slice(), key.as_slice(), id_bytes.as_slice()];
    match Pubkey::try_find_program_address(&seeds, &program_id) {
        Some((address, bump)) => Some((address.to_bytes().to_vec(), bump)),
        None => None,
    }
}

/// The little-endian bytes of a 64-bit integer.
pub open spec fn u64_le_bytes(x: u64) -> Seq<u8> {
    seq![
        (x & 0xff) as u8,
        ((x >> 8) & 0xff) as u8,
        ((x >> 16) & 0xff) as u8,
        ((x >> 24) & 0xff) as u8,
        ((x >> 32) & 0xff) as u8,
        ((x >> 40) & 0xff) as u8,
        ((x >> 48) & 0xff) as u8,
        ((x >> 56) & 0xff) as u8,
    ]
}

/// Writes a 64-bit integer as its eight little-endian bytes.
fn u64_to_le_bytes(x: u64) -> (r: Vec<u8>)
    ensures
        r@ == u64_le_bytes(x),
{
    let mut r: Vec<u8> = Vec::new();
    r.push((x & 0xff) as u8);
    r.push(((x >> 8) & 0xff) as u8);
    r.push(((x >> 16) & 0xff) as u8);
    r.push(((x >> 24) & 0xff) as u8);
    r.push(((x >> 32) & 0xff) as u8);
    r.push(((x >> 40) & 0xff) as u8);
    r.push(((x >> 48) & 0xff) as u8);
    r.push(((x >> 56) & 0xff) as u8);
    proof {
        assert(r@ =~= u64_le_bytes(x));
    }
    r
}

/// The 32 little-endian bytes of an identity's key.
pub open spec fn identity_le_bytes(id: Identity) -> Seq<u8> {
    u64_le_bytes(id.w0) + u64_le_bytes(id.w1) + u64_le_bytes(id.w2) + u64_le_bytes(id.w3)
}

/// Writes an identity as its 32 little-endian key bytes.
fn identity_to_le_bytes(id: &Identity) -> (r: Vec<u8>)
    ensures
        r@ == identity_le_bytes(*id),
        r@.len() == 32,
{
    let mut r = u64_to_le_bytes(id.w0);
    let mut part = u64_to_le_bytes(id.w1);
    r.append(&mut part);
    let mut part = u64_to_le_bytes(id.w2);
    r.append(&mut part);
    let mut part = u64_to_le_bytes(id.w3);
    r.append(&mut part);
    proof {
        assert(r@ =~= identity_le_bytes(*id));
    }
    r
}

/// The ASCII bytes of the seed tag "challenge".
pub open spec fn challenge_seed_tag() -> Seq<u8> {
    seq![99u8, 104u8, 97u8, 108u8, 108u8, 101u8, 110u8, 103u8, 101u8]
}

/// Builds the seed tag "challenge" as bytes.
fn challenge_tag_bytes() -> (r: Vec<u8>)
    ensures
        r@ == challenge_seed_tag(),
{
    let r: Vec<u8> = vec![99u8, 104u8, 97u8, 108u8, 108u8, 101u8, 110u8, 103u8, 101u8];
    proof {
        assert(r@ =~= challenge_seed_tag());
    }
    r
}

/// The 32 bytes of the protocol's program id, under which every escrow
/// address is derived.
pub open spec fn program_id_bytes() -> Seq<u8> {
    seq![
        136u8, 229u8, 65u8, 54u8, 85u8, 169u8, 85u8, 61u8, 3u8, 81u8, 74u8, 96u8, 255u8, 174u8,
        245u8, 7u8, 79u8, 6u8, 114u8, 102u8, 229u8, 41u8, 33u8, 21u8, 203u8, 10u8, 36u8, 170u8,
        48u8, 116u8, 39u8, 131u8,
    ]
}

/// Builds the protocol's program id as bytes.
fn program_id() -> (r: Vec<u8>)
    ensures
        r@ == program_id_bytes(),
{
    let r: Vec<u8> = vec![
        136u8, 229u8, 65u8, 54u8, 85u8, 169u8, 85u8, 61u8, 3u8, 81u8, 74u8, 96u8, 255u8, 174u8,
        245u8, 7u8, 79u8, 6u8, 114u8, 102u8, 229u8, 41u8, 33u8, 21u8, 203u8, 10u8, 36u8, 170u8,
        48u8, 116u8, 39u8, 131u8,
    ];
    proof {
        assert(r@ =~= program_id_bytes());
    }
    r
}

/// The escrow address and bump for a `(creator, challenge_id)` pair: a pure
/// deterministic function of the pair, so no two records for the same pair
/// can live at different addresses.
pub open spec fn escrow_address_of(creator: Identity, challenge_id: u64) -> Option<(Seq<u8>, u8)> {
    derived_address_of(
        challenge_seed_tag(),
        identity_le_bytes(creator),
        u64_le_bytes(challenge_id),
        program_id_bytes(),
    )
}

/// Derives the escrow record address and bump for `(creator, challenge_id)`,
/// re-creating the exact seed sequence used when the record was allocated.
pub fn derive_escrow_address(creator: &Identity, challenge_id: u64) -> (r: Option<(Vec<u8>, u8)>)
    ensures
        (match r {
            Some((address, bump)) => escrow_address_of(*creator, challenge_id) == Some(
                (address@, bump),
            ) && address@.len() == 32,
            None => escrow_address_of(*creator, challenge_id) is None,
        }),
{
    let tag = challenge_tag_bytes();
    let key = identity_to_le_bytes(creator);
    let id_bytes = u64_to_le_bytes(challenge_id);
    let program = program_id();
    find_program_address(&tag, &key, &id_bytes, &program)
}

} // verus!
