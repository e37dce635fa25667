use vstd::prelude::*;
use vstd::slice::slice_to_vec;
use crate::address::Address;

verus! {

/// What the host ledger's program-derived-address search returns for a
/// list of seeds and a program id: the derived 32-byte address and the
/// bump seed, or nothing in the statistically improbable event that no
/// bump seed yields a valid address. The result is a function of the
/// seeds and the program id alone.
pub uninterp spec fn pda_of(seeds: Seq<Seq<u8>>, program_id: Seq<u8>) -> Option<(Seq<u8>, u8)>;

/// Relies on solana_program's Pubkey::try_find_program_address: a
/// deterministic search, over bump seeds counted down from 255, for a
/// hash-derived address that lies off the signing curve. It depends on
/// its arguments alone, returns None rather than panicking, and is named
/// by `pda_of`.
#[verifier::external_body]
fn find_derived_address(seeds: &Vec<Vec<u8>>, program_id: &Address) -> (r: Option<(Address, u8)>)
    ensures
        r is Some <==> pda_of(seeds.deep_view(), program_id@) is Some,
        r matches Some(p) ==> pda_of(seeds.deep_view(), program_id@) == Some((p.0@, p.1)),
{
    let pk = solana_program::pubkey::Pubkey::new_from_array(program_id.bytes);
    let refs: Vec<&[u8]> = seeds.iter().map(|s| s.as_slice()).collect();
    solana_program::pubkey::Pubkey::try_find_program_address(&refs, &pk)
        .map(|(a, b)| (Address { bytes: a.to_bytes() }, b))
}

/// The namespace tag under which candy-store addresses are derived:
/// the bytes of "CANDYSTORE".
pub open spec fn spec_candy_store_seed() -> Seq<u8> {
    seq![67u8, 65u8, 78u8, 68u8, 89u8, 83u8, 84u8, 79u8, 82u8, 69u8]
}

fn candy_store_seed() -> (r: Vec<u8>)
    ensures
        r@ == spec_candy_store_seed(),
{
    let mut v: Vec<u8> = Vec::new();
    v.push(67);
    v.push(65);
    v.push(78);
    v.push(68);
    v.push(89);
    v.push(83);
    v.push(84);
    v.push(79);
    v.push(82);
    v.push(69);
    proof {
        assert(v@ =~= spec_candy_store_seed());
    }
    v
}

/// The candy-store address bound to a collection: derived from the
/// namespace tag and the collection's address under the owning program.
pub open spec fn spec_candy_store_pda(program_id: Seq<u8>, collection: Seq<u8>) -> Option<
    (Seq<u8>, u8),
> {
    pda_of(seq![spec_candy_store_seed(), collection], program_id)
}

/// Derive the address and bump seed of the candy store bound to
/// `collection` under `program_id`. The same collection always yields the
/// same address: the derivation is deterministic.
pub fn derive_candy_store_address(program_id: &Address, collection: &Address) -> (r: Option<
    (Address, u8),
>)
    ensures
        r is Some <==> spec_candy_store_pda(program_id@, collection@) is Some,
        r matches Some(p) ==> spec_candy_store_pda(program_id@, collection@) == Some(
            (p.0@, p.1),
        ),
{
    let mut seeds: Vec<Vec<u8>> = Vec::new();
    seeds.push(candy_store_seed());
    seeds.push(slice_to_vec(collection.bytes.as_slice()));
    proof {
        assert(seeds.deep_view() =~~= seq![spec_candy_store_seed(), collection@]);
    }
    find_derived_address(&seeds, program_id)
}

} // verus!
