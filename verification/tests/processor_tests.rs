use crowdfund::account::{Account, Pubkey};
use crowdfund::codec::{decode_campaign, encode_campaign, encode_withdraw_request};
use crowdfund::error::ProgramError;
use crowdfund::processor::{
    create_campaign, donate, process_instruction, withdraw, OP_CREATE_CAMPAIGN, OP_DONATE,
    OP_WITHDRAW,
};
use crowdfund::records::{Campaign, WithdrawRequest};

const RENT_MINIMUM: u64 = 1_000_000;

fn key(b: u8) -> Pubkey {
    Pubkey { bytes: vec![b; 32] }
}

fn campaign(admin: u8, donated: u64) -> Campaign {
    Campaign {
        admin: key(admin),
        name: b"spring fair".to_vec(),
        description: b"a fundraiser".to_vec(),
        image_link: b"http://image".to_vec(),
        amount_donated: donated,
    }
}

/// The campaign account, its data buffer sized exactly for the record.
fn writing_account(program: u8, lamports: u64) -> Account {
    let size = encode_campaign(&campaign(1, 0)).len();
    Account {
        key: key(2),
        owner: key(program),
        lamports,
        data: vec![0u8; size],
        is_signer: false,
    }
}

fn plain_account(k: u8, lamports: u64, is_signer: bool) -> Account {
    Account {
        key: key(k),
        owner: key(0xEE),
        lamports,
        data: Vec::new(),
        is_signer,
    }
}

/// A campaign account already holding an encoded record.
fn funded_campaign_account(program: u8, admin: u8, donated: u64, lamports: u64) -> Account {
    let mut a = writing_account(program, lamports);
    a.data = encode_campaign(&campaign(admin, donated));
    a
}

fn staging_account(program: u8, lamports: u64) -> Account {
    Account {
        key: key(3),
        owner: key(program),
        lamports,
        data: Vec::new(),
        is_signer: false,
    }
}

#[test]
fn create_forces_donation_counter_to_zero() {
    let pid = key(7);
    let mut writing = writing_account(7, RENT_MINIMUM);
    let creator = plain_account(1, 5, true);
    let payload = encode_campaign(&campaign(1, 424242));
    let res = create_campaign(&pid, &mut writing, &creator, payload.as_slice(), RENT_MINIMUM);
    assert_eq!(res, Ok(()));
    let stored = decode_campaign(writing.data.as_slice()).unwrap();
    assert_eq!(stored.amount_donated, 0);
    assert_eq!(stored.admin.bytes, vec![1u8; 32]);
    assert_eq!(stored.name, b"spring fair".to_vec());
    assert_eq!(stored.description, b"a fundraiser".to_vec());
    assert_eq!(stored.image_link, b"http://image".to_vec());
    assert_eq!(writing.lamports, RENT_MINIMUM);
}

#[test]
fn create_requires_creator_signature() {
    let pid = key(7);
    let mut writing = writing_account(7, RENT_MINIMUM);
    let creator = plain_account(1, 5, false);
    let payload = encode_campaign(&campaign(1, 0));
    let before = writing.data.clone();
    let res = create_campaign(&pid, &mut writing, &creator, payload.as_slice(), RENT_MINIMUM);
    assert_eq!(res, Err(ProgramError::AuthorizationError));
    assert_eq!(writing.data, before);
}

#[test]
fn create_requires_program_ownership() {
    let pid = key(7);
    let mut writing = writing_account(8, RENT_MINIMUM);
    let creator = plain_account(1, 5, true);
    let payload = encode_campaign(&campaign(1, 0));
    let res = create_campaign(&pid, &mut writing, &creator, payload.as_slice(), RENT_MINIMUM);
    assert_eq!(res, Err(ProgramError::OwnershipError));
}

#[test]
fn create_rejects_malformed_payload() {
    let pid = key(7);
    let mut writing = writing_account(7, RENT_MINIMUM);
    let creator = plain_account(1, 5, true);
    let res = create_campaign(&pid, &mut writing, &creator, &[1, 2, 3], RENT_MINIMUM);
    assert_eq!(res, Err(ProgramError::DeserializationError));
}

#[test]
fn create_rejects_admin_other_than_creator() {
    let pid = key(7);
    let mut writing = writing_account(7, RENT_MINIMUM);
    let creator = plain_account(1, 5, true);
    let payload = encode_campaign(&campaign(6, 0));
    let before = writing.data.clone();
    let res = create_campaign(&pid, &mut writing, &creator, payload.as_slice(), RENT_MINIMUM);
    assert_eq!(res, Err(ProgramError::InvalidDataError));
    assert_eq!(writing.data, before);
    assert_eq!(writing.lamports, RENT_MINIMUM);
}

#[test]
fn create_rejects_balance_below_rent_minimum() {
    let pid = key(7);
    let mut writing = writing_account(7, RENT_MINIMUM - 1);
    let creator = plain_account(1, 5, true);
    let payload = encode_campaign(&campaign(1, 0));
    let res = create_campaign(&pid, &mut writing, &creator, payload.as_slice(), RENT_MINIMUM);
    assert_eq!(res, Err(ProgramError::InsufficientFundsError));
}

#[test]
fn create_keeps_bytes_past_the_record() {
    let pid = key(7);
    let mut writing = writing_account(7, RENT_MINIMUM);
    writing.data.extend_from_slice(&[0xAA, 0xBB]);
    let creator = plain_account(1, 5, true);
    let payload = encode_campaign(&campaign(1, 9));
    let res = create_campaign(&pid, &mut writing, &creator, payload.as_slice(), RENT_MINIMUM);
    assert_eq!(res, Ok(()));
    assert_eq!(&writing.data[..payload.len()], &encode_campaign(&campaign(1, 0))[..]);
    assert_eq!(&writing.data[payload.len()..], &[0xAA, 0xBB]);
}

#[test]
fn create_rejects_record_larger_than_buffer() {
    let pid = key(7);
    let mut writing = writing_account(7, RENT_MINIMUM);
    writing.data.pop();
    let creator = plain_account(1, 5, true);
    let payload = encode_campaign(&campaign(1, 0));
    let res = create_campaign(&pid, &mut writing, &creator, payload.as_slice(), RENT_MINIMUM);
    assert_eq!(res, Err(ProgramError::DeserializationError));
}

#[test]
fn withdraw_moves_exactly_the_requested_amount() {
    let pid = key(7);
    let mut writing = funded_campaign_account(7, 1, 500, RENT_MINIMUM + 500);
    let mut admin = plain_account(1, 10, true);
    let before = writing.data.clone();
    let payload = encode_withdraw_request(&WithdrawRequest { amount: 300 });
    let res = withdraw(&pid, &mut writing, &mut admin, payload.as_slice(), RENT_MINIMUM);
    assert_eq!(res, Ok(()));
    assert_eq!(writing.lamports, RENT_MINIMUM + 200);
    assert_eq!(admin.lamports, 310);
    assert_eq!(writing.data, before);
}

#[test]
fn withdraw_rejects_more_than_the_balance_above_rent() {
    let pid = key(7);
    let mut writing = funded_campaign_account(7, 1, 500, RENT_MINIMUM + 500);
    let mut admin = plain_account(1, 10, true);
    let payload = encode_withdraw_request(&WithdrawRequest { amount: 501 });
    let res = withdraw(&pid, &mut writing, &mut admin, payload.as_slice(), RENT_MINIMUM);
    assert_eq!(res, Err(ProgramError::InsufficientFundsError));
    assert_eq!(writing.lamports, RENT_MINIMUM + 500);
    assert_eq!(admin.lamports, 10);
}

#[test]
fn withdraw_treats_rent_above_balance_as_insufficient() {
    let pid = key(7);
    let mut writing = funded_campaign_account(7, 1, 0, RENT_MINIMUM - 1);
    let mut admin = plain_account(1, 10, true);
    let payload = encode_withdraw_request(&WithdrawRequest { amount: 0 });
    let res = withdraw(&pid, &mut writing, &mut admin, payload.as_slice(), RENT_MINIMUM);
    assert_eq!(res, Err(ProgramError::InsufficientFundsError));
}

#[test]
fn withdraw_requires_admin_signature() {
    let pid = key(7);
    let mut writing = funded_campaign_account(7, 1, 0, RENT_MINIMUM + 500);
    let mut admin = plain_account(1, 10, false);
    let payload = encode_withdraw_request(&WithdrawRequest { amount: 1 });
    let res = withdraw(&pid, &mut writing, &mut admin, payload.as_slice(), RENT_MINIMUM);
    assert_eq!(res, Err(ProgramError::AuthorizationError));
}

#[test]
fn withdraw_rejects_anyone_but_the_stored_admin() {
    let pid = key(7);
    let mut writing = funded_campaign_account(7, 1, 0, RENT_MINIMUM + 500);
    let mut intruder = plain_account(6, 10, true);
    let payload = encode_withdraw_request(&WithdrawRequest { amount: 1 });
    let res = withdraw(&pid, &mut writing, &mut intruder, payload.as_slice(), RENT_MINIMUM);
    assert_eq!(res, Err(ProgramError::InvalidDataError));
    assert_eq!(intruder.lamports, 10);
}

#[test]
fn withdraw_rejects_malformed_request() {
    let pid = key(7);
    let mut writing = funded_campaign_account(7, 1, 0, RENT_MINIMUM + 500);
    let mut admin = plain_account(1, 10, true);
    let res = withdraw(&pid, &mut writing, &mut admin, &[1, 2, 3], RENT_MINIMUM);
    assert_eq!(res, Err(ProgramError::DeserializationError));
}

#[test]
fn withdraw_refuses_overflowing_the_admin_balance() {
    let pid = key(7);
    let mut writing = funded_campaign_account(7, 1, 0, RENT_MINIMUM + 500);
    let mut admin = plain_account(1, u64::MAX, true);
    let payload = encode_withdraw_request(&WithdrawRequest { amount: 1 });
    let res = withdraw(&pid, &mut writing, &mut admin, payload.as_slice(), RENT_MINIMUM);
    assert_eq!(res, Err(ProgramError::OverflowError));
    assert_eq!(writing.lamports, RENT_MINIMUM + 500);
    assert_eq!(admin.lamports, u64::MAX);
}

#[test]
fn donate_moves_the_staging_balance() {
    let pid = key(7);
    let mut writing = funded_campaign_account(7, 1, 40, RENT_MINIMUM);
    let mut staging = staging_account(7, 500);
    let donator = plain_account(4, 9, true);
    let res = donate(&pid, &mut writing, &mut staging, &donator);
    assert_eq!(res, Ok(()));
    assert_eq!(writing.lamports, RENT_MINIMUM + 500);
    assert_eq!(staging.lamports, 0);
    let stored = decode_campaign(writing.data.as_slice()).unwrap();
    assert_eq!(stored.amount_donated, 540);
    assert_eq!(stored.admin.bytes, vec![1u8; 32]);
    assert_eq!(donator.lamports, 9);
}

#[test]
fn donate_requires_program_owned_accounts() {
    let pid = key(7);
    let mut writing = funded_campaign_account(8, 1, 0, RENT_MINIMUM);
    let mut staging = staging_account(7, 500);
    let donator = plain_account(4, 9, true);
    assert_eq!(
        donate(&pid, &mut writing, &mut staging, &donator),
        Err(ProgramError::OwnershipError)
    );
    let mut writing = funded_campaign_account(7, 1, 0, RENT_MINIMUM);
    let mut staging = staging_account(8, 500);
    assert_eq!(
        donate(&pid, &mut writing, &mut staging, &donator),
        Err(ProgramError::OwnershipError)
    );
}

#[test]
fn donate_requires_donator_signature() {
    let pid = key(7);
    let mut writing = funded_campaign_account(7, 1, 0, RENT_MINIMUM);
    let mut staging = staging_account(7, 500);
    let donator = plain_account(4, 9, false);
    assert_eq!(
        donate(&pid, &mut writing, &mut staging, &donator),
        Err(ProgramError::AuthorizationError)
    );
    assert_eq!(staging.lamports, 500);
}

#[test]
fn donate_refuses_overflowing_the_counter() {
    let pid = key(7);
    let mut writing = funded_campaign_account(7, 1, u64::MAX - 10, RENT_MINIMUM);
    let mut staging = staging_account(7, 11);
    let donator = plain_account(4, 9, true);
    let before = writing.data.clone();
    let res = donate(&pid, &mut writing, &mut staging, &donator);
    assert_eq!(res, Err(ProgramError::OverflowError));
    assert_eq!(writing.data, before);
    assert_eq!(writing.lamports, RENT_MINIMUM);
    assert_eq!(staging.lamports, 11);
}

#[test]
fn donate_from_empty_staging_account_adds_nothing() {
    let pid = key(7);
    let mut writing = funded_campaign_account(7, 1, 40, RENT_MINIMUM);
    let mut staging = staging_account(7, 0);
    let donator = plain_account(4, 9, true);
    let res = donate(&pid, &mut writing, &mut staging, &donator);
    assert_eq!(res, Ok(()));
    assert_eq!(writing.lamports, RENT_MINIMUM);
    let stored = decode_campaign(writing.data.as_slice()).unwrap();
    assert_eq!(stored.amount_donated, 40);
}

#[test]
fn dispatcher_rejects_empty_payload() {
    let pid = key(7);
    let mut accounts: Vec<Account> = Vec::new();
    let res = process_instruction(&pid, &mut accounts, &[], RENT_MINIMUM);
    assert_eq!(res, Err(ProgramError::InvalidInstructionError));
}

#[test]
fn dispatcher_rejects_unknown_opcode() {
    let pid = key(7);
    let mut accounts: Vec<Account> = Vec::new();
    assert_eq!(
        process_instruction(&pid, &mut accounts, &[3], RENT_MINIMUM),
        Err(ProgramError::InvalidInstructionError)
    );
    assert_eq!(
        process_instruction(&pid, &mut accounts, &[255, 0, 1], RENT_MINIMUM),
        Err(ProgramError::InvalidInstructionError)
    );
}

#[test]
fn dispatcher_routes_by_opcode() {
    let pid = key(7);
    let mut instruction = vec![OP_CREATE_CAMPAIGN];
    instruction.extend_from_slice(encode_campaign(&campaign(1, 3)).as_slice());
    let mut accounts = vec![writing_account(7, RENT_MINIMUM), plain_account(1, 5, true)];
    let res = process_instruction(&pid, &mut accounts, instruction.as_slice(), RENT_MINIMUM);
    assert_eq!(res, Ok(()));
    let stored = decode_campaign(accounts[0].data.as_slice()).unwrap();
    assert_eq!(stored.amount_donated, 0);
    assert_eq!(accounts[1].lamports, 5);
}

#[test]
fn replayed_maximum_withdrawal_fails_the_second_time() {
    let pid = key(7);
    let writing = funded_campaign_account(7, 1, 600, RENT_MINIMUM + 600);
    let admin = plain_account(1, 10, true);
    let mut accounts = vec![writing, admin];
    let mut instruction = vec![OP_WITHDRAW];
    instruction.extend_from_slice(encode_withdraw_request(&WithdrawRequest { amount: 600 }).as_slice());
    let res = process_instruction(&pid, &mut accounts, instruction.as_slice(), RENT_MINIMUM);
    assert_eq!(res, Ok(()));
    assert_eq!(accounts[0].lamports, RENT_MINIMUM);
    assert_eq!(accounts[1].lamports, 610);
    // The identical instruction must re-validate against the drained state.
    let res = process_instruction(&pid, &mut accounts, instruction.as_slice(), RENT_MINIMUM);
    assert_eq!(res, Err(ProgramError::InsufficientFundsError));
    assert_eq!(accounts[0].lamports, RENT_MINIMUM);
    assert_eq!(accounts[1].lamports, 610);
}

#[test]
fn scenario_create_donate_withdraw() {
    let pid = key(7);

    // An account provisioned with exactly the rent-exempt minimum.
    let mut accounts = vec![writing_account(7, RENT_MINIMUM), plain_account(1, 0, true)];
    let mut instruction = vec![OP_CREATE_CAMPAIGN];
    instruction.extend_from_slice(encode_campaign(&campaign(1, 0)).as_slice());
    assert_eq!(
        process_instruction(&pid, &mut accounts, instruction.as_slice(), RENT_MINIMUM),
        Ok(())
    );
    let created = accounts.remove(0);
    assert_eq!(decode_campaign(created.data.as_slice()).unwrap().amount_donated, 0);

    // A donation of 500 through a pre-funded staging account.
    let mut accounts = vec![created, staging_account(7, 500), plain_account(4, 9, true)];
    assert_eq!(
        process_instruction(&pid, &mut accounts, &[OP_DONATE], RENT_MINIMUM),
        Ok(())
    );
    assert_eq!(accounts[0].lamports, RENT_MINIMUM + 500);
    assert_eq!(accounts[1].lamports, 0);
    let funded = accounts.remove(0);
    assert_eq!(decode_campaign(funded.data.as_slice()).unwrap().amount_donated, 500);

    // The true admin withdraws the 500 donated lamports.
    let mut accounts = vec![funded, plain_account(1, 0, true)];
    let mut instruction = vec![OP_WITHDRAW];
    instruction.extend_from_slice(encode_withdraw_request(&WithdrawRequest { amount: 500 }).as_slice());
    assert_eq!(
        process_instruction(&pid, &mut accounts, instruction.as_slice(), RENT_MINIMUM),
        Ok(())
    );
    assert_eq!(accounts[0].lamports, RENT_MINIMUM);
    assert_eq!(accounts[1].lamports, 500);

    // One more lamport would dip below the rent-exempt floor.
    let mut instruction = vec![OP_WITHDRAW];
    instruction.extend_from_slice(encode_withdraw_request(&WithdrawRequest { amount: 1 }).as_slice());
    assert_eq!(
        process_instruction(&pid, &mut accounts, instruction.as_slice(), RENT_MINIMUM),
        Err(ProgramError::InsufficientFundsError)
    );
}
