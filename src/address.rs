use vstd::prelude::*;

use crate::hook::Key;
use spl_token_2022::solana_program::pubkey::Pubkey;

verus! {

/// The address and bump that the runtime derives for a program from `seeds`,
/// if one exists.
pub uninterp spec fn program_address(seeds: Seq<Seq<u8>>, program_id: Seq<u8>) -> Option<(Seq<u8>, u8)>;

/// Relies on Pubkey::try_find_program_address of solana-program: the first
/// bump, counting down from 255, that with `seeds` gives an address off the
/// curve, and that address; none if there is no such bump.
#[verifier::external_body]
fn find_program_address(seeds: &Vec<Vec<u8>>, program_id: &Key) -> (r: Option<(Key, u8)>)
    ensures
        r is Some <==> program_address(seeds.deep_view(), program_id@) is Some,
        r matches Some(p) ==> program_address(seeds.deep_view(), program_id@) == Some((p.0@, p.1)),
{
    let s: Vec<&[u8]> = seeds.iter().map(|x| x.as_slice()).collect();
    Pubkey::try_find_program_address(&s, &Pubkey::new_from_array(*program_id)).map(|(k, b)| (k.to_bytes(), b))
}

/// The ASCII bytes of "delegate", the seed of the delegated authority.
pub open spec fn delegate_seed_spec() -> Seq<u8> {
    seq![100u8, 101, 108, 101, 103, 97, 116, 101]
}

/// The ASCII bytes of "extra-account-metas", the seed of an asset's extra
/// account list, before the asset's mint address.
pub open spec fn meta_list_seed_spec() -> Seq<u8> {
    seq![101u8, 120, 116, 114, 97, 45, 97, 99, 99, 111, 117, 110, 116, 45, 109, 101, 116, 97, 115]
}

/// The seed of the delegated authority.
pub fn delegate_seed() -> (r: Vec<u8>)
    ensures
        r@ == delegate_seed_spec(),
{
    let r = vec![100u8, 101, 108, 101, 103, 97, 116, 101];
    assert(r@ =~= delegate_seed_spec());
    r
}

/// The seed of an asset's extra account list, without the mint.
pub fn meta_list_seed() -> (r: Vec<u8>)
    ensures
        r@ == meta_list_seed_spec(),
{
    let r = vec![101u8, 120, 116, 114, 97, 45, 97, 99, 99, 111, 117, 110, 116, 45, 109, 101, 116, 97, 115];
    assert(r@ =~= meta_list_seed_spec());
    r
}

/// The seeds of the delegated authority's address.
pub open spec fn delegate_seeds() -> Seq<Seq<u8>> {
    seq![delegate_seed_spec()]
}

/// The seeds of the extra account list of the asset `mint`.
pub open spec fn meta_list_seeds(mint: Key) -> Seq<Seq<u8>> {
    seq![meta_list_seed_spec(), mint@]
}

/// Whether `key` with `bump` is the address derived from `seeds` for
/// `program_id`.
pub open spec fn is_derived(key: Key, bump: u8, seeds: Seq<Seq<u8>>, program_id: Key) -> bool {
    program_address(seeds, program_id@) == Some((key@, bump))
}

/// Whether `key` is the address derived from `seeds`, whatever its bump.
pub open spec fn is_derived_key(key: Key, seeds: Seq<Seq<u8>>, program_id: Key) -> bool {
    program_address(seeds, program_id@) matches Some(p) && p.0 == key@
}

/// Whether two addresses are equal.
pub fn same_key(a: &Key, b: &Key) -> (r: bool)
    ensures
        r == (a@ == b@),
{
    let mut i: usize = 0;
    while i < 32
        invariant
            i <= 32,
            a@.len() == 32,
            b@.len() == 32,
            forall|j: int| 0 <= j < i ==> a@[j] == b@[j],
        decreases 32 - i,
    {
        if a[i] != b[i] {
            return false;
        }
        i = i + 1;
    }
    assert(a@ =~= b@);
    true
}

/// Derives the delegated authority's address and bump.
pub fn delegate_address(program_id: &Key) -> (r: Option<(Key, u8)>)
    ensures
        r is Some <==> program_address(delegate_seeds(), program_id@) is Some,
        r matches Some(p) ==> is_derived(p.0, p.1, delegate_seeds(), *program_id),
{
    let seeds = vec![delegate_seed()];
    assert(seeds@[0].deep_view() =~= delegate_seed_spec());
    assert(seeds.deep_view() =~= delegate_seeds());
    find_program_address(&seeds, program_id)
}

/// Derives the address and bump of the extra account list of `mint`.
pub fn meta_list_address(mint: &Key, program_id: &Key) -> (r: Option<(Key, u8)>)
    ensures
        r is Some <==> program_address(meta_list_seeds(*mint), program_id@) is Some,
        r matches Some(p) ==> is_derived(p.0, p.1, meta_list_seeds(*mint), *program_id),
{
    let mut m: Vec<u8> = Vec::new();
    let mut i: usize = 0;
    while i < 32
        invariant
            i <= 32,
            mint@.len() == 32,
            m@ == mint@.subrange(0, i as int),
        decreases 32 - i,
    {
        m.push(mint[i]);
        i = i + 1;
    }
    assert(m@ =~= mint@);
    let seeds = vec![meta_list_seed(), m];
    assert(seeds@[0].deep_view() =~= meta_list_seed_spec());
    assert(seeds@[1].deep_view() =~= mint@);
    assert(seeds.deep_view() =~= meta_list_seeds(*mint));
    find_program_address(&seeds, program_id)
}

} // verus!
