use doubleit::account::{Account, Address};
use doubleit::derived_forward;
use doubleit::error::HandlerError;
use doubleit::signer_forward;

fn account(fill: u8, is_signer: bool) -> Account {
    Account {
        address: Address::new(vec![fill; 32]),
        is_signer,
        is_writable: true,
        data: Vec::new(),
    }
}

#[test]
fn non_signer_builds_no_invocation() {
    let data_account = account(1, false);
    let target = account(2, false);
    let r = signer_forward::process_instruction(&data_account, &target, &[1u8, 2u8]);
    assert!(matches!(r, Err(HandlerError::AuthorizationError)));
}

#[test]
fn forwarded_invocation_is_verbatim() {
    let data_account = account(1, true);
    let target = account(2, false);
    let payload = vec![0u8, 255u8, 3u8, 9u8];
    let ins = signer_forward::process_instruction(&data_account, &target, &payload).unwrap();
    assert_eq!(ins.program_id.bytes, target.address.bytes);
    assert_eq!(ins.data, payload);
    assert_eq!(ins.accounts.len(), 1);
    assert_eq!(ins.accounts[0].pubkey.bytes, data_account.address.bytes);
    assert!(ins.accounts[0].is_signer);
    assert!(ins.accounts[0].is_writable);
}

#[test]
fn forwarding_an_empty_payload() {
    let data_account = account(1, true);
    let target = account(2, false);
    let ins = signer_forward::process_instruction(&data_account, &target, &[]).unwrap();
    assert!(ins.data.is_empty());
}

#[test]
fn finish_forward_propagates_failure() {
    assert_eq!(doubleit::error::finish_forward(true), Ok(()));
    assert_eq!(
        doubleit::error::finish_forward(false),
        Err(HandlerError::ForwardedFailure)
    );
}

#[test]
fn derived_invocation_is_verbatim_and_seeded() {
    let pda = account(3, false);
    let user = account(4, false);
    let target = account(5, false);
    let payload = vec![8u8, 6u8, 7u8];
    let (ins, seeds) = derived_forward::process_instruction(&pda, &user, &target, &payload);
    assert_eq!(ins.program_id.bytes, target.address.bytes);
    assert_eq!(ins.data, payload);
    assert_eq!(ins.accounts.len(), 1);
    assert_eq!(ins.accounts[0].pubkey.bytes, pda.address.bytes);
    assert!(ins.accounts[0].is_signer);
    assert!(ins.accounts[0].is_writable);
    assert_eq!(seeds.len(), 2);
    assert_eq!(seeds[0], b"data_account".to_vec());
    assert_eq!(seeds[1], user.address.bytes);
}

#[test]
fn seed_tag_spells_data_account() {
    assert_eq!(derived_forward::seed_tag_bytes(), b"data_account".to_vec());
}
