//! Where records live: every record's address is derived from the program's
//! identity and from seeds that name the record, so no index is kept.

use vstd::prelude::*;
use vstd::string::StrSliceExecFns;
use vstd::utf8::{encode_utf8, encode_utf8_decode_utf8};
use crate::identity::Identity;
use crate::records::ErrorCode;

verus! {

/// Longest seed that an address can be derived from, in bytes.
pub const MAX_SEED_LEN: usize = 32;

/// The address and bump that `Pubkey::try_find_program_address` derives from
/// `seeds` for the program `program_id`, if it finds any.
pub uninterp spec fn program_address(seeds: Seq<Seq<u8>>, program_id: Seq<u8>) -> Option<(Seq<u8>, u8)>;

/// The seed that marks the configuration record: the bytes of `master`.
pub open spec fn master_tag() -> Seq<u8> {
    seq![109u8, 97u8, 115u8, 116u8, 101u8, 114u8]
}

/// The seed that marks a certificate record: the bytes of `escrow_nft`.
pub open spec fn escrow_tag() -> Seq<u8> {
    seq![101u8, 115u8, 99u8, 114u8, 111u8, 119u8, 95u8, 110u8, 102u8, 116u8]
}

/// The seeds of the configuration record.
pub open spec fn master_seeds_spec() -> Seq<Seq<u8>> {
    seq![master_tag()]
}

/// The seeds of the certificate of `escrow_id`: the tag, then the
/// identifier's bytes.
pub open spec fn escrow_seeds_spec(escrow_id: Seq<char>) -> Seq<Seq<u8>> {
    seq![escrow_tag(), encode_utf8(escrow_id)]
}

/// The bytes of each seed, in order.
pub open spec fn seeds_view(seeds: Seq<Vec<u8>>) -> Seq<Seq<u8>> {
    Seq::new(seeds.len(), |i: int| seeds[i]@)
}

/// The view of a derived address.
pub open spec fn address_view(found: Option<(Identity, u8)>) -> Option<(Seq<u8>, u8)> {
    match found {
        Some((address, bump)) => Some((address@, bump)),
        None => None,
    }
}

/// The seeds of the configuration record.
pub fn master_seeds() -> (seeds: Vec<Vec<u8>>)
    ensures
        seeds_view(seeds@) == master_seeds_spec(),
{
    let tag: Vec<u8> = vec![109u8, 97u8, 115u8, 116u8, 101u8, 114u8];
    let seeds: Vec<Vec<u8>> = vec![tag];
    proof {
        assert(seeds[0]@ =~= master_tag());
        assert(seeds_view(seeds@) =~= master_seeds_spec());
    }
    seeds
}

/// The seeds of the certificate of `escrow_id`.
pub fn escrow_seeds(escrow_id: &str) -> (seeds: Vec<Vec<u8>>)
    ensures
        seeds_view(seeds@) == escrow_seeds_spec(escrow_id@),
{
    let tag: Vec<u8> = vec![101u8, 115u8, 99u8, 114u8, 111u8, 119u8, 95u8, 110u8, 102u8, 116u8];
    let id: Vec<u8> = escrow_id.as_bytes_vec();
    let seeds: Vec<Vec<u8>> = vec![tag, id];
    proof {
        assert(seeds[0]@ =~= escrow_tag());
        assert(seeds[1]@ =~= encode_utf8(escrow_id@));
        assert(seeds_view(seeds@) =~= escrow_seeds_spec(escrow_id@));
    }
    seeds
}

/// Calls `Pubkey::try_find_program_address` of solana-program. Trusted: the
/// result is the address and bump that the function derives from these seeds
/// and this program, a function of the two alone; and, as its source shows,
/// it finds no address where one of the seeds is longer than 32 bytes.
#[verifier::external_body]
fn find_program_address(seeds: &Vec<Vec<u8>>, program_id: &Identity) -> (found: Option<(Identity, u8)>)
    ensures
        address_view(found) == program_address(seeds_view(seeds@), program_id@),
        (exists|i: int| 0 <= i < seeds.len() && (#[trigger] seeds[i]).len() > MAX_SEED_LEN) ==> found is None,
{
    let parts: Vec<&[u8]> = seeds.iter().map(|seed| seed.as_slice()).collect();
    let program = anchor_lang::prelude::Pubkey::new_from_array(program_id.bytes);
    anchor_lang::prelude::Pubkey::try_find_program_address(&parts, &program)
        .map(|(key, bump)| (Identity { bytes: key.to_bytes() }, bump))
}

/// What a derivation comes to: the address and bump that were found, or
/// `AddressSpaceExhausted` where none was.
pub fn address_or_exhausted(found: Option<(Identity, u8)>) -> (res: Result<(Identity, u8), ErrorCode>)
    ensures
        found matches Some(pair) ==> res == Ok::<(Identity, u8), ErrorCode>(pair),
        found is None ==> res == Err::<(Identity, u8), ErrorCode>(ErrorCode::AddressSpaceExhausted),
{
    match found {
        Some(pair) => Ok(pair),
        None => Err(ErrorCode::AddressSpaceExhausted),
    }
}

/// Derives the address of the record that `seeds` name in the program
/// `program_id`. The same seeds and program always give the same address.
pub fn derive_address(seeds: &Vec<Vec<u8>>, program_id: &Identity) -> (res: Result<(Identity, u8), ErrorCode>)
    ensures
        res matches Ok(pair) ==> program_address(seeds_view(seeds@), program_id@) == Some((pair.0@, pair.1)),
        res is Err ==> res == Err::<(Identity, u8), ErrorCode>(ErrorCode::AddressSpaceExhausted),
        res is Err <==> program_address(seeds_view(seeds@), program_id@) is None,
        (exists|i: int| 0 <= i < seeds.len() && (#[trigger] seeds[i]).len() > MAX_SEED_LEN) ==> res is Err,
{
    address_or_exhausted(find_program_address(seeds, program_id))
}

/// Seeds of the two kinds of record never coincide, so the configuration and
/// a certificate are never derived from the same seeds.
pub proof fn lemma_namespaces_apart(escrow_id: Seq<char>)
    ensures
        master_seeds_spec() != escrow_seeds_spec(escrow_id),
{
    assert(master_seeds_spec().len() == 1);
    assert(escrow_seeds_spec(escrow_id).len() == 2);
}

/// Certificates of different agreements have different seeds: the seeds
/// determine the identifier.
pub proof fn lemma_escrow_seeds_injective(a: Seq<char>, b: Seq<char>)
    requires
        escrow_seeds_spec(a) == escrow_seeds_spec(b),
    ensures
        a == b,
{
    assert(escrow_seeds_spec(a)[1] == encode_utf8(a));
    assert(escrow_seeds_spec(b)[1] == encode_utf8(b));
    encode_utf8_decode_utf8(a);
    encode_utf8_decode_utf8(b);
}

} // verus!
