use crate::account::Address;
use vstd::prelude::*;

verus! {

/// One account reference inside an instruction: the account's address and
/// the authority flags the nested call will see.
pub struct AccountMeta {
    pub pubkey: Address,
    pub is_signer: bool,
    pub is_writable: bool,
}

/// An invocation to hand to the runtime: the target program's address,
/// the account references, and the opaque payload.
pub struct Instruction {
    pub program_id: Address,
    pub accounts: Vec<AccountMeta>,
    pub data: Vec<u8>,
}

} // verus!
