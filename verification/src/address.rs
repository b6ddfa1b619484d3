//! Deterministic storage-cell address derivation.
//!
//! The substrate derives a cell address from the program identity and a list
//! of seed byte strings; the derivation is a pure function of those inputs,
//! available to any external verifier reconstructing the same address.  The
//! result is named by an uninterpreted function and obtained through one
//! trusted wrapper.

use vstd::prelude::*;

verus! {

/// What the substrate's address derivation returns for a program identity and
/// three seeds: the derived 32-byte address and its bump seed, or `None` in
/// the statistically improbable event that no bump seed works.  A pure
/// function of its arguments alone.
pub uninterp spec fn derived_address(
    program: Seq<u8>,
    seed_a: Seq<u8>,
    seed_b: Seq<u8>,
    seed_c: Seq<u8>,
) -> Option<(Seq<u8>, u8)>;

/// Relies on `solana_program::pubkey::Pubkey::try_find_program_address`: the
/// derivation is computed from the program identity and the seeds alone (a
/// hash search over bump seeds), a returned address is exactly 32 bytes, and
/// the call returns `None` rather than panicking when no bump seed is viable.
/// Each seed must stay within the substrate's 32-byte seed limit.
#[verifier::external_body]
pub(crate) fn find_cell_address(
    program: &Vec<u8>,
    seed_a: &Vec<u8>,
    seed_b: &Vec<u8>,
    seed_c: &Vec<u8>,
) -> (r: Option<(Vec<u8>, u8)>)
    requires
        program@.len() == 32,
        seed_a@.len() <= 32,
        seed_b@.len() <= 32,
        seed_c@.len() <= 32,
    ensures
        r matches Some(p) ==> derived_address(program@, seed_a@, seed_b@, seed_c@)
            matches Some(q) && p.0@ == q.0 && p.1 == q.1 && p.0@.len() == 32,
        r is None ==> derived_address(program@, seed_a@, seed_b@, seed_c@) is None,
{
    let mut key_bytes = [0u8; 32];
    key_bytes.copy_from_slice(program.as_slice());
    let program_id = solana_program::pubkey::Pubkey::new_from_array(key_bytes);
    let seeds: [&[u8]; 3] = [seed_a.as_slice(), seed_b.as_slice(), seed_c.as_slice()];
    solana_program::pubkey::Pubkey::try_find_program_address(&seeds, &program_id)
        .map(|(pda, bump)| (pda.to_bytes().to_vec(), bump))
}

} // verus!
