use doubleit::account::{Account, Address};
use doubleit::derived_forward;

fn account_with(bytes: Vec<u8>) -> Account {
    Account {
        address: Address::new(bytes),
        is_signer: false,
        is_writable: true,
        data: Vec::new(),
    }
}

/// Finds a reference address whose two-seed derivation under `program_id`
/// exists (roughly half of all candidates land on the curve and fail).
fn some_derivable_user(program_id: &solana_pubkey::Pubkey) -> (Vec<u8>, solana_pubkey::Pubkey) {
    for fill in 0u8..=255 {
        let user_bytes = vec![fill; 32];
        let seeds: [&[u8]; 2] = [b"data_account", &user_bytes];
        if let Ok(derived) = solana_pubkey::Pubkey::create_program_address(&seeds, program_id) {
            return (user_bytes, derived);
        }
    }
    panic!("no candidate reference address derived off the curve");
}

#[test]
fn authority_holds_exactly_for_the_derived_address() {
    let program_id = Address::new(vec![11u8; 32]);
    let pk = solana_pubkey::Pubkey::try_from(program_id.bytes.as_slice()).unwrap();
    let (user_bytes, derived) = some_derivable_user(&pk);

    let user = account_with(user_bytes);
    let pda = account_with(derived.to_bytes().to_vec());
    assert!(derived_forward::derived_authority_holds(&pda, &user, &program_id));

    let mut wrong_bytes = derived.to_bytes().to_vec();
    wrong_bytes[0] = wrong_bytes[0].wrapping_add(1);
    let wrong_pda = account_with(wrong_bytes);
    assert!(!derived_forward::derived_authority_holds(
        &wrong_pda, &user, &program_id
    ));
}

#[test]
fn authority_depends_on_the_program_identity() {
    let program_id = Address::new(vec![11u8; 32]);
    let pk = solana_pubkey::Pubkey::try_from(program_id.bytes.as_slice()).unwrap();
    let (user_bytes, derived) = some_derivable_user(&pk);

    let user = account_with(user_bytes);
    let pda = account_with(derived.to_bytes().to_vec());
    let other_program = Address::new(vec![12u8; 32]);
    assert!(!derived_forward::derived_authority_holds(
        &pda, &user, &other_program
    ));
}
