use vstd::prelude::*;

use anchor_lang::solana_program::pubkey::{Pubkey, PubkeyError};

use crate::types::{ErrorCode, Key};

verus! {

/// The error of Pubkey::create_program_address, carried without looking inside.
#[verifier::external_type_specification]
#[verifier::external_body]
pub struct ExPubkeyError(PubkeyError);

/// The address that the ledger derives from `seeds` under `program_id`, or
/// `None` where the seeds yield no valid program address.
pub uninterp spec fn program_address(seeds: Seq<Seq<u8>>, program_id: Seq<u8>) -> Option<Seq<u8>>;

/// The address and bump that the ledger's bump search finds for `seeds` under
/// `program_id`, or `None` where the search finds none.
pub uninterp spec fn found_program_address(seeds: Seq<Seq<u8>>, program_id: Seq<u8>) -> Option<(Seq<u8>, u8)>;

/// Relies on Pubkey::create_program_address: the derived address depends on
/// the seeds and the program id alone, and an error stands for "no address".
#[verifier::external_body]
fn create_program_address(seeds: &Vec<Vec<u8>>, program_id: &Key) -> (r: Result<Key, PubkeyError>)
    ensures
        match r {
            Ok(k) => program_address(seeds.deep_view(), program_id@) == Some(k@),
            Err(_) => program_address(seeds.deep_view(), program_id@) is None,
        },
{
    let parts: Vec<&[u8]> = seeds.iter().map(|s| s.as_slice()).collect();
    let program = Pubkey::new_from_array(program_id.bytes);
    Pubkey::create_program_address(&parts, &program).map(|p| Key { bytes: p.to_bytes() })
}

/// Relies on Pubkey::try_find_program_address: the result depends on the
/// seeds and the program id alone, and a found address is the one that
/// create_program_address gives for the seeds followed by the bump.
#[verifier::external_body]
fn try_find_program_address(seeds: &Vec<Vec<u8>>, program_id: &Key) -> (r: Option<(Key, u8)>)
    ensures
        match r {
            Some((k, bump)) => {
                &&& found_program_address(seeds.deep_view(), program_id@) == Some((k@, bump))
                &&& program_address(seeds.deep_view().push(seq![bump]), program_id@) == Some(k@)
            },
            None => found_program_address(seeds.deep_view(), program_id@) is None,
        },
{
    let parts: Vec<&[u8]> = seeds.iter().map(|s| s.as_slice()).collect();
    let program = Pubkey::new_from_array(program_id.bytes);
    Pubkey::try_find_program_address(&parts, &program).map(|(p, bump)| (Key { bytes: p.to_bytes() }, bump))
}

/// The `len` low-order bytes of `n`, least significant first.
pub open spec fn le_bytes(n: nat, len: nat) -> Seq<u8>
    decreases len,
{
    if len == 0 {
        seq![]
    } else {
        seq![(n % 256) as u8] + le_bytes(n / 256, (len - 1) as nat)
    }
}

/// The namespace tag of game records: the ASCII bytes of `coin_flip`.
pub open spec fn game_namespace() -> Seq<u8> {
    seq![99u8, 111u8, 105u8, 110u8, 95u8, 102u8, 108u8, 105u8, 112u8]
}

/// Seeds of the record opened by `opener` under `nonce`.
pub open spec fn game_seeds(opener: Seq<u8>, nonce: u64) -> Seq<Seq<u8>> {
    seq![game_namespace(), opener, le_bytes(nonce as nat, 8)]
}

/// The seeds of a record followed by its bump.
pub open spec fn game_seeds_with_bump(opener: Seq<u8>, nonce: u64, bump: u8) -> Seq<Seq<u8>> {
    game_seeds(opener, nonce).push(seq![bump])
}

/// The little-endian encoding of a `u64`.
pub fn u64_le_bytes(n: u64) -> (r: Vec<u8>)
    ensures
        r@ == le_bytes(n as nat, 8),
{
    let mut out: Vec<u8> = Vec::new();
    let mut x: u64 = n;
    let mut i: usize = 0;
    while i < 8
        invariant
            0 <= i <= 8,
            out@ + le_bytes(x as nat, (8 - i) as nat) == le_bytes(n as nat, 8),
        decreases 8 - i,
    {
        let ghost rest = le_bytes((x / 256) as nat, (8 - i - 1) as nat);
        assert(le_bytes(x as nat, (8 - i) as nat) == seq![(x % 256) as u8] + rest);
        out.push((x % 256) as u8);
        assert(out@ + rest =~= le_bytes(n as nat, 8));
        x = x / 256;
        i = i + 1;
    }
    assert(out@ + le_bytes(x as nat, 0) =~= out@);
    out
}

proof fn lemma_bytes_deep_view(v: Vec<u8>)
    ensures
        v.deep_view() == v@,
{
    assert(v.deep_view() =~= v@);
}

fn key_bytes(k: &Key) -> (r: Vec<u8>)
    ensures
        r@ == k@,
{
    let mut out: Vec<u8> = Vec::new();
    let mut i: usize = 0;
    while i < 32
        invariant
            0 <= i <= 32,
            out@ == k@.subrange(0, i as int),
        decreases 32 - i,
    {
        out.push(k.bytes[i]);
        i = i + 1;
        assert(out@ =~= k@.subrange(0, i as int));
    }
    assert(k@.subrange(0, 32) =~= k@);
    out
}

/// The seed list of the record opened by `opener` under `nonce`.
pub fn game_seed_list(opener: &Key, nonce: u64) -> (r: Vec<Vec<u8>>)
    ensures
        r.deep_view() == game_seeds(opener@, nonce),
{
    let ns: Vec<u8> = vec![99u8, 111u8, 105u8, 110u8, 95u8, 102u8, 108u8, 105u8, 112u8];
    let kb = key_bytes(opener);
    let nb = u64_le_bytes(nonce);
    proof {
        lemma_bytes_deep_view(ns);
        lemma_bytes_deep_view(kb);
        lemma_bytes_deep_view(nb);
    }
    assert(ns@ =~= game_namespace());
    let r: Vec<Vec<u8>> = vec![ns, kb, nb];
    assert(r.deep_view() =~= game_seeds(opener@, nonce));
    r
}

/// Finds the address and bump of the record opened by `opener` under
/// `nonce`. A found address is the one that [`check_game_address`] accepts
/// with the returned bump.
pub fn derive_game_address(program_id: &Key, opener: &Key, nonce: u64) -> (r: Option<(Key, u8)>)
    ensures
        match r {
            Some((k, bump)) => {
                &&& found_program_address(game_seeds(opener@, nonce), program_id@) == Some((k@, bump))
                &&& program_address(game_seeds_with_bump(opener@, nonce, bump), program_id@) == Some(k@)
            },
            None => found_program_address(game_seeds(opener@, nonce), program_id@) is None,
        },
{
    let seeds = game_seed_list(opener, nonce);
    try_find_program_address(&seeds, program_id)
}

/// Whether `address` is the one that the record of `opener`, `nonce` and
/// `bump` derives under `program_id`.
pub open spec fn game_address_valid(program_id: Seq<u8>, opener: Seq<u8>, nonce: u64, bump: u8, address: Seq<u8>) -> bool {
    program_address(game_seeds_with_bump(opener, nonce, bump), program_id) == Some(address)
}

/// Checks that `address` is the custody address of the record opened by
/// `opener` under `nonce` with the stored `bump`.
pub fn check_game_address(program_id: &Key, opener: &Key, nonce: u64, bump: u8, address: &Key) -> (r: Result<(), ErrorCode>)
    ensures
        r is Ok <==> game_address_valid(program_id@, opener@, nonce, bump, address@),
        r is Err ==> r->Err_0 == ErrorCode::AddressMismatch,
{
    let mut seeds = game_seed_list(opener, nonce);
    let b: Vec<u8> = vec![bump];
    proof {
        lemma_bytes_deep_view(b);
    }
    assert(b@ =~= seq![bump]);
    seeds.push(b);
    assert(seeds.deep_view() =~= game_seeds_with_bump(opener@, nonce, bump));
    match create_program_address(&seeds, program_id) {
        Ok(k) => {
            if k.same_as(address) {
                Ok(())
            } else {
                Err(ErrorCode::AddressMismatch)
            }
        },
        Err(_) => Err(ErrorCode::AddressMismatch),
    }
}

/// Seeds of the record that the game counter numbered `id`.
pub open spec fn sequence_seeds(id: u64) -> Seq<Seq<u8>> {
    seq![game_namespace(), le_bytes(id as nat, 8)]
}

/// Whether `address` is the one that the record numbered `id`, with `bump`,
/// derives under `program_id`.
pub open spec fn sequence_address_valid(program_id: Seq<u8>, id: u64, bump: u8, address: Seq<u8>) -> bool {
    program_address(sequence_seeds(id).push(seq![bump]), program_id) == Some(address)
}

/// The seed list of the record numbered `id`.
pub fn sequence_seed_list(id: u64) -> (r: Vec<Vec<u8>>)
    ensures
        r.deep_view() == sequence_seeds(id),
{
    let ns: Vec<u8> = vec![99u8, 111u8, 105u8, 110u8, 95u8, 102u8, 108u8, 105u8, 112u8];
    let nb = u64_le_bytes(id);
    proof {
        lemma_bytes_deep_view(ns);
        lemma_bytes_deep_view(nb);
    }
    assert(ns@ =~= game_namespace());
    let r: Vec<Vec<u8>> = vec![ns, nb];
    assert(r.deep_view() =~= sequence_seeds(id));
    r
}

/// Finds the address and bump of the record numbered `id`. A found address
/// is the one that [`check_sequenced_game_address`] accepts with the bump.
pub fn derive_sequenced_game_address(program_id: &Key, id: u64) -> (r: Option<(Key, u8)>)
    ensures
        match r {
            Some((k, bump)) => {
                &&& found_program_address(sequence_seeds(id), program_id@) == Some((k@, bump))
                &&& sequence_address_valid(program_id@, id, bump, k@)
            },
            None => found_program_address(sequence_seeds(id), program_id@) is None,
        },
{
    let seeds = sequence_seed_list(id);
    try_find_program_address(&seeds, program_id)
}

/// Checks that `address` is the custody address of the record numbered `id`
/// with the stored `bump`.
pub fn check_sequenced_game_address(program_id: &Key, id: u64, bump: u8, address: &Key) -> (r: Result<(), ErrorCode>)
    ensures
        r is Ok <==> sequence_address_valid(program_id@, id, bump, address@),
        r is Err ==> r->Err_0 == ErrorCode::AddressMismatch,
{
    let mut seeds = sequence_seed_list(id);
    let b: Vec<u8> = vec![bump];
    proof {
        lemma_bytes_deep_view(b);
    }
    assert(b@ =~= seq![bump]);
    seeds.push(b);
    assert(seeds.deep_view() =~= sequence_seeds(id).push(seq![bump]));
    match create_program_address(&seeds, program_id) {
        Ok(k) => {
            if k.same_as(address) {
                Ok(())
            } else {
                Err(ErrorCode::AddressMismatch)
            }
        },
        Err(_) => Err(ErrorCode::AddressMismatch),
    }
}

} // verus!
