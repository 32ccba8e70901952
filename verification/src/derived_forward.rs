use crate::account::{Account, Address};
use crate::instruction::{AccountMeta, Instruction};
use vstd::prelude::*;

verus! {

/// The fixed first seed of the derivation: the bytes of "data_account".
pub open spec fn seed_tag() -> Seq<u8> {
    seq![100u8, 97u8, 116u8, 97u8, 95u8, 97u8, 99u8, 99u8, 111u8, 117u8, 110u8, 116u8]
}

/// The executable copy of `seed_tag`.
pub fn seed_tag_bytes() -> (r: Vec<u8>)
    ensures
        r@ == seed_tag(),
{
    let r: Vec<u8> = vec![100u8, 97u8, 116u8, 97u8, 95u8, 97u8, 99u8, 99u8, 111u8, 117u8, 110u8, 116u8];
    proof {
        assert(r@ =~= seed_tag());
    }
    r
}

/// The seed sequence the derived account's authority rests on: the fixed
/// tag, then the reference address's raw bytes.
pub open spec fn derivation_seeds(user_address: Seq<u8>) -> Seq<Seq<u8>> {
    seq![seed_tag(), user_address]
}

/// What the runtime's deterministic address derivation yields for a seed
/// sequence under a program's identity: an address, or nothing where the
/// seeds are unusable (too many, too long, or a derivation that lands on
/// the curve).
pub uninterp spec fn derived_address_of(seeds: Seq<Seq<u8>>, program_id: Seq<u8>) -> Option<
    Seq<u8>,
>;

/// Relies on Pubkey::create_program_address: a SHA-256 based derivation
/// from the seeds and the program id alone, the same on every machine; it
/// returns an error, and never panics, where the seeds are over the host's
/// limits or the derivation lands on the curve.
#[verifier::external_body]
fn create_program_address(seeds: &Vec<Vec<u8>>, program_id: &Address) -> (r: Option<Address>)
    requires
        program_id.wf(),
    ensures
        r is Some <==> derived_address_of(
            seeds@.map_values(|s: Vec<u8>| s@),
            program_id.bytes@,
        ) is Some,
        r matches Some(a) ==> a.wf() && Some(a.bytes@) == derived_address_of(
            seeds@.map_values(|s: Vec<u8>| s@),
            program_id.bytes@,
        ),
{
    let seed_refs: Vec<&[u8]> = seeds.iter().map(|s| s.as_slice()).collect();
    let pk = solana_pubkey::Pubkey::try_from(program_id.bytes.as_slice())
        .expect("a well-formed address holds exactly 32 bytes");
    match solana_pubkey::Pubkey::create_program_address(&seed_refs, &pk) {
        Ok(derived) => Some(Address { bytes: derived.to_bytes().to_vec() }),
        Err(_) => None,
    }
}

/// The capability check behind a derived-authority invocation: the runtime
/// grants the pseudo-signature exactly when the derived account's address
/// equals the derivation of the seed sequence under the program's own
/// identity.
pub fn derived_authority_holds(pda: &Account, user: &Account, program_id: &Address) -> (r: bool)
    requires
        program_id.wf(),
    ensures
        r == (derived_address_of(derivation_seeds(user.address.bytes@), program_id.bytes@)
            == Some(pda.address.bytes@)),
{
    let mut seeds: Vec<Vec<u8>> = Vec::new();
    seeds.push(seed_tag_bytes());
    seeds.push(user.address.dup().bytes);
    proof {
        assert(seeds@.map_values(|s: Vec<u8>| s@) =~= derivation_seeds(user.address.bytes@));
    }
    match create_program_address(&seeds, program_id) {
        Some(derived) => derived.equals(&pda.address),
        None => false,
    }
}

/// Forwards the incoming payload to the target program on behalf of the
/// derived account.
///
/// No signer is demanded of the caller: authority is asserted through the
/// seed sequence `["data_account" tag, reference address bytes]`, which the
/// runtime accepts only for an account whose address was derived from
/// those seeds under this program's identity (see
/// `derived_authority_holds`). The built invocation targets exactly the
/// given target program, carries the payload byte-for-byte, and references
/// the derived account alone, marked signer and writable.
pub fn process_instruction(
    pda: &Account,
    user: &Account,
    target_program: &Account,
    instruction_data: &[u8],
) -> (r: (Instruction, Vec<Vec<u8>>))
    ensures
        r.0.program_id.bytes@ == target_program.address.bytes@,
        r.0.accounts@.len() == 1,
        r.0.accounts@[0].pubkey.bytes@ == pda.address.bytes@,
        r.0.accounts@[0].is_signer,
        r.0.accounts@[0].is_writable,
        r.0.data@ == instruction_data@,
        r.1@.map_values(|s: Vec<u8>| s@) == derivation_seeds(user.address.bytes@),
{
    let meta = AccountMeta { pubkey: pda.address.dup(), is_signer: true, is_writable: true };
    let mut accounts: Vec<AccountMeta> = Vec::new();
    accounts.push(meta);
    let instruction = Instruction {
        program_id: target_program.address.dup(),
        accounts,
        data: vstd::slice::slice_to_vec(instruction_data),
    };
    let mut seeds: Vec<Vec<u8>> = Vec::new();
    seeds.push(seed_tag_bytes());
    seeds.push(user.address.dup().bytes);
    proof {
        assert(seeds@.map_values(|s: Vec<u8>| s@) =~= derivation_seeds(user.address.bytes@));
    }
    (instruction, seeds)
}

} // verus!
