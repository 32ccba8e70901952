use crate::account::Account;
use crate::error::HandlerError;
use crate::instruction::{AccountMeta, Instruction};
use vstd::prelude::*;

verus! {

/// Forwards the incoming payload to the target program under the data
/// account's own signature.
///
/// The data account must have signed the call; otherwise the handler
/// fails with `AuthorizationError` and no invocation is built. On success
/// the built invocation targets exactly the given target program, carries
/// the payload byte-for-byte, and references the data account alone,
/// marked signer and writable.
pub fn process_instruction(
    data_account: &Account,
    target_program: &Account,
    instruction_data: &[u8],
) -> (r: Result<Instruction, HandlerError>)
    ensures
        !data_account.is_signer ==> (r matches Err(e) && e == HandlerError::AuthorizationError),
        data_account.is_signer ==> (r matches Ok(ins) && ins.program_id.bytes@
            == target_program.address.bytes@ && ins.accounts@.len() == 1
            && ins.accounts@[0].pubkey.bytes@ == data_account.address.bytes@
            && ins.accounts@[0].is_signer && ins.accounts@[0].is_writable && ins.data@
            == instruction_data@),
{
    if !data_account.is_signer {
        return Err(HandlerError::AuthorizationError);
    }
    let meta = AccountMeta {
        pubkey: data_account.address.dup(),
        is_signer: true,
        is_writable: true,
    };
    let mut accounts: Vec<AccountMeta> = Vec::new();
    accounts.push(meta);
    Ok(
        Instruction {
            program_id: target_program.address.dup(),
            accounts,
            data: vstd::slice::slice_to_vec(instruction_data),
        },
    )
}

} // verus!
