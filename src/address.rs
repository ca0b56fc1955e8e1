use vstd::prelude::*;
use crate::keys::Pubkey;

verus! {

/// The address and bump seed that program-address derivation finds for
/// `seeds` under `program_id`, or `None` when no bump gives an address.
pub uninterp spec fn program_address_of(seeds: Seq<Seq<u8>>, program_id: Seq<u8>) -> Option<
    (Seq<u8>, u8),
>;

pub open spec fn seeds_view(seeds: Seq<Vec<u8>>) -> Seq<Seq<u8>> {
    seeds.map_values(|s: Vec<u8>| s@)
}

pub open spec fn found_view(r: Option<(Pubkey, u8)>) -> Option<(Seq<u8>, u8)> {
    match r {
        Some((k, b)) => Some((k.bytes@, b)),
        None => None,
    }
}

/// Whether `key` is the address derived from `seeds` under `program_id`, with
/// bump `bump` when one is given.
pub open spec fn derives(seeds: Seq<Seq<u8>>, program_id: Pubkey, key: Pubkey, bump: Option<u8>) -> bool {
    let found = program_address_of(seeds, program_id.bytes@);
    &&& found is Some
    &&& found->Some_0.0 == key.bytes@
    &&& bump is Some ==> found->Some_0.1 == bump->Some_0
}

/// Relies on `Pubkey::try_find_program_address` of solana-pubkey (through
/// anchor_lang): the address and bump depend on the seeds and program id alone.
#[verifier::external_body]
fn find_program_address(seeds: &Vec<Vec<u8>>, program_id: &Pubkey) -> (r: Option<(Pubkey, u8)>)
    ensures
        found_view(r) == program_address_of(seeds_view(seeds@), program_id.bytes@),
{
    let s: Vec<&[u8]> = seeds.iter().map(|v| v.as_slice()).collect();
    let id = anchor_lang::prelude::Pubkey::new_from_array(program_id.bytes);
    anchor_lang::prelude::Pubkey::try_find_program_address(&s, &id).map(
        |(k, b)| (Pubkey::new(k.to_bytes()), b),
    )
}

/// Checks that `key` is the address derived from `seeds` under `program_id`,
/// and, when `bump` is given, that the derivation found that bump.
pub fn is_derived(seeds: &Vec<Vec<u8>>, program_id: &Pubkey, key: &Pubkey, bump: Option<u8>) -> (r:
    bool)
    ensures
        r == derives(seeds_view(seeds@), *program_id, *key, bump),
{
    match find_program_address(seeds, program_id) {
        None => false,
        Some((k, b)) => {
            let same = k == *key;
            proof {
                if k.bytes@ == key.bytes@ {
                    assert(k.bytes =~= key.bytes);
                }
            }
            match bump {
                None => same,
                Some(expected) => same && b == expected,
            }
        },
    }
}

/// The 32 bytes of a key, as a seed.
pub fn key_seed(k: &Pubkey) -> (r: Vec<u8>)
    ensures
        r@ == k.bytes@,
{
    let mut v: Vec<u8> = Vec::new();
    let mut i: usize = 0;
    while i < 32
        invariant
            0 <= i <= 32,
            v@ == k.bytes@.subrange(0, i as int),
        decreases 32 - i,
    {
        v.push(k.bytes[i]);
        i += 1;
    }
    proof {
        assert(v@ =~= k.bytes@);
    }
    v
}

} // verus!
