use crate::account::{Account, AccountView, Pubkey};
use crate::codec::{
    decode_campaign, decode_withdraw_request, encode_campaign, spec_encode_campaign,
    spec_parse_campaign, spec_parse_withdraw,
};
use crate::error::ProgramError;
use crate::records::{Campaign, CampaignView};
use vstd::prelude::*;
use vstd::slice::{slice_index_get, slice_subrange};

verus! {

/// Opcode selecting the campaign-creation handler.
pub const OP_CREATE_CAMPAIGN: u8 = 0;

/// Opcode selecting the withdrawal handler.
pub const OP_WITHDRAW: u8 = 1;

/// Opcode selecting the donation handler.
pub const OP_DONATE: u8 = 2;

/// What creating a campaign does: the new state of the writing account and
/// the outcome, as a function of the program identity, the two accounts, the
/// payload and the rent-exempt minimum. Preconditions are checked in order
/// and the first failure is returned with the account untouched; on success
/// the decoded record, its donation counter forced to zero, is written over
/// the front of the account's data buffer, the rest of the buffer kept.
pub open spec fn create_transition(
    pid: Seq<u8>,
    w: AccountView,
    c: AccountView,
    payload: Seq<u8>,
    rent_minimum: u64,
) -> (AccountView, Result<(), ProgramError>) {
    if !c.is_signer {
        (w, Err(ProgramError::AuthorizationError))
    } else if w.owner != pid {
        (w, Err(ProgramError::OwnershipError))
    } else {
        match spec_parse_campaign(payload) {
            None => (w, Err(ProgramError::DeserializationError)),
            Some(rec) => if rec.admin != c.key {
                (w, Err(ProgramError::InvalidDataError))
            } else if w.lamports < rent_minimum {
                (w, Err(ProgramError::InsufficientFundsError))
            } else {
                let enc = spec_encode_campaign(CampaignView { amount_donated: 0, ..rec });
                if enc.len() > w.data.len() {
                    (w, Err(ProgramError::DeserializationError))
                } else {
                    (AccountView { data: enc + w.data.skip(enc.len() as int), ..w }, Ok(()))
                }
            },
        }
    }
}

/// What a withdrawal does to the writing and admin accounts. Failed checks
/// leave both accounts untouched; on success exactly the requested amount
/// moves from the writing account to the admin account, both updates
/// standing or falling together, and the record bytes stay unchanged. A
/// rent minimum above the current balance counts as insufficient funds
/// rather than wrapping the subtraction.
pub open spec fn withdraw_transition(
    pid: Seq<u8>,
    w: AccountView,
    a: AccountView,
    payload: Seq<u8>,
    rent_minimum: u64,
) -> (AccountView, AccountView, Result<(), ProgramError>) {
    if w.owner != pid {
        (w, a, Err(ProgramError::OwnershipError))
    } else if !a.is_signer {
        (w, a, Err(ProgramError::AuthorizationError))
    } else {
        match spec_parse_campaign(w.data) {
            None => (w, a, Err(ProgramError::DeserializationError)),
            Some(rec) => if rec.admin != a.key {
                (w, a, Err(ProgramError::InvalidDataError))
            } else {
                match spec_parse_withdraw(payload) {
                    None => (w, a, Err(ProgramError::DeserializationError)),
                    Some(amount) => if w.lamports < rent_minimum || w.lamports - rent_minimum
                        < amount {
                        (w, a, Err(ProgramError::InsufficientFundsError))
                    } else if a.lamports + amount > u64::MAX {
                        (w, a, Err(ProgramError::OverflowError))
                    } else {
                        (
                            AccountView { lamports: (w.lamports - amount) as u64, ..w },
                            AccountView { lamports: (a.lamports + amount) as u64, ..a },
                            Ok(()),
                        )
                    },
                }
            },
        }
    }
}

/// What a donation does to the writing and staging accounts, the donator
/// only asserting its signature. The donated amount is the staging account's
/// whole balance, observed once; on success the campaign's counter and the
/// writing account's balance both grow by it, the staging account is zeroed,
/// and the re-encoded record replaces the data buffer, whose length cannot
/// change. A counter or balance that would pass the representable maximum
/// refuses the donation instead of wrapping.
pub open spec fn donate_transition(
    pid: Seq<u8>,
    w: AccountView,
    d: AccountView,
    donator: AccountView,
) -> (AccountView, AccountView, Result<(), ProgramError>) {
    if w.owner != pid {
        (w, d, Err(ProgramError::OwnershipError))
    } else if d.owner != pid {
        (w, d, Err(ProgramError::OwnershipError))
    } else if !donator.is_signer {
        (w, d, Err(ProgramError::AuthorizationError))
    } else {
        match spec_parse_campaign(w.data) {
            None => (w, d, Err(ProgramError::DeserializationError)),
            Some(rec) => if rec.amount_donated + d.lamports > u64::MAX {
                (w, d, Err(ProgramError::OverflowError))
            } else if w.lamports + d.lamports > u64::MAX {
                (w, d, Err(ProgramError::OverflowError))
            } else {
                let rec2 = CampaignView {
                    amount_donated: (rec.amount_donated + d.lamports) as u64,
                    ..rec
                };
                (
                    AccountView {
                        lamports: (w.lamports + d.lamports) as u64,
                        data: spec_encode_campaign(rec2),
                        ..w
                    },
                    AccountView { lamports: 0, ..d },
                    Ok(()),
                )
            },
        }
    }
}

/// Initializes a campaign in `writing_account`'s data buffer from the
/// payload, after checking the creator's signature, the account's ownership,
/// the record's admin, and the rent-exempt floor.
pub fn create_campaign(
    program_id: &Pubkey,
    writing_account: &mut Account,
    creator_account: &Account,
    instruction_data: &[u8],
    rent_minimum: u64,
) -> (r: Result<(), ProgramError>)
    ensures
        ({
            let (w2, res) = create_transition(
                program_id@,
                old(writing_account)@,
                creator_account@,
                instruction_data@,
                rent_minimum,
            );
            final(writing_account)@ == w2 && r == res
        }),
{
    if !creator_account.is_signer {
        return Err(ProgramError::AuthorizationError);
    }
    if !writing_account.owner.key_eq(program_id) {
        return Err(ProgramError::OwnershipError);
    }
    let rec = match decode_campaign(instruction_data) {
        Ok(rec) => rec,
        Err(e) => {
            return Err(e);
        },
    };
    if !rec.admin.key_eq(&creator_account.key) {
        return Err(ProgramError::InvalidDataError);
    }
    if writing_account.lamports < rent_minimum {
        return Err(ProgramError::InsufficientFundsError);
    }
    let stored = Campaign { amount_donated: 0, ..rec };
    let mut new_data = encode_campaign(&stored);
    let encoded_len = new_data.len();
    if encoded_len > writing_account.data.len() {
        return Err(ProgramError::DeserializationError);
    }
    let mut i: usize = encoded_len;
    while i < writing_account.data.len()
        invariant
            encoded_len <= i <= writing_account.data@.len(),
            new_data@ == spec_encode_campaign(stored@) + writing_account.data@.subrange(
                encoded_len as int,
                i as int,
            ),
        decreases writing_account.data@.len() - i,
    {
        let b = writing_account.data[i];
        new_data.push(b);
        proof {
            assert(spec_encode_campaign(stored@) + writing_account.data@.subrange(
                encoded_len as int,
                i as int,
            ) + seq![writing_account.data@[i as int]] =~= spec_encode_campaign(stored@)
                + writing_account.data@.subrange(encoded_len as int, i + 1));
        }
        i = i + 1;
    }
    proof {
        assert(writing_account.data@.subrange(
            encoded_len as int,
            writing_account.data@.len() as int,
        ) =~= writing_account.data@.skip(encoded_len as int));
    }
    writing_account.data = new_data;
    proof {
        let (w2, res) = create_transition(
            program_id@,
            old(writing_account)@,
            creator_account@,
            instruction_data@,
            rent_minimum,
        );
        assert(writing_account@ =~= w2);
    }
    Ok(())
}

/// Moves the requested amount from the campaign's account to its admin, if
/// the admin signed, the record names it, and the balance stays at or above
/// the rent-exempt floor.
pub fn withdraw(
    program_id: &Pubkey,
    writing_account: &mut Account,
    admin_account: &mut Account,
    instruction_data: &[u8],
    rent_minimum: u64,
) -> (r: Result<(), ProgramError>)
    ensures
        ({
            let (w2, a2, res) = withdraw_transition(
                program_id@,
                old(writing_account)@,
                old(admin_account)@,
                instruction_data@,
                rent_minimum,
            );
            final(writing_account)@ == w2 && final(admin_account)@ == a2 && r == res
        }),
{
    if !writing_account.owner.key_eq(program_id) {
        return Err(ProgramError::OwnershipError);
    }
    if !admin_account.is_signer {
        return Err(ProgramError::AuthorizationError);
    }
    let rec = match decode_campaign(writing_account.data.as_slice()) {
        Ok(rec) => rec,
        Err(e) => {
            return Err(e);
        },
    };
    if !rec.admin.key_eq(&admin_account.key) {
        return Err(ProgramError::InvalidDataError);
    }
    let request = match decode_withdraw_request(instruction_data) {
        Ok(request) => request,
        Err(e) => {
            return Err(e);
        },
    };
    if writing_account.lamports < rent_minimum {
        return Err(ProgramError::InsufficientFundsError);
    }
    if writing_account.lamports - rent_minimum < request.amount {
        return Err(ProgramError::InsufficientFundsError);
    }
    if admin_account.lamports > u64::MAX - request.amount {
        return Err(ProgramError::OverflowError);
    }
    writing_account.lamports = writing_account.lamports - request.amount;
    admin_account.lamports = admin_account.lamports + request.amount;
    proof {
        let (w2, a2, res) = withdraw_transition(
            program_id@,
            old(writing_account)@,
            old(admin_account)@,
            instruction_data@,
            rent_minimum,
        );
        assert(writing_account@ =~= w2);
        assert(admin_account@ =~= a2);
    }
    Ok(())
}

/// Donates the staging account's whole balance to the campaign: the record's
/// counter and the campaign account's balance grow together, the staging
/// account is drained, and the updated record is written back.
pub fn donate(
    program_id: &Pubkey,
    writing_account: &mut Account,
    donator_program_account: &mut Account,
    donator: &Account,
) -> (r: Result<(), ProgramError>)
    ensures
        ({
            let (w2, d2, res) = donate_transition(
                program_id@,
                old(writing_account)@,
                old(donator_program_account)@,
                donator@,
            );
            final(writing_account)@ == w2 && final(donator_program_account)@ == d2 && r == res
        }),
{
    if !writing_account.owner.key_eq(program_id) {
        return Err(ProgramError::OwnershipError);
    }
    if !donator_program_account.owner.key_eq(program_id) {
        return Err(ProgramError::OwnershipError);
    }
    if !donator.is_signer {
        return Err(ProgramError::AuthorizationError);
    }
    let rec = match decode_campaign(writing_account.data.as_slice()) {
        Ok(rec) => rec,
        Err(e) => {
            return Err(e);
        },
    };
    let donated = donator_program_account.lamports;
    if rec.amount_donated > u64::MAX - donated {
        return Err(ProgramError::OverflowError);
    }
    if writing_account.lamports > u64::MAX - donated {
        return Err(ProgramError::OverflowError);
    }
    let stored = Campaign { amount_donated: rec.amount_donated + donated, ..rec };
    let new_data = encode_campaign(&stored);
    writing_account.lamports = writing_account.lamports + donated;
    writing_account.data = new_data;
    donator_program_account.lamports = 0;
    proof {
        let (w2, d2, res) = donate_transition(
            program_id@,
            old(writing_account)@,
            old(donator_program_account)@,
            donator@,
        );
        assert(writing_account@ =~= w2);
        assert(donator_program_account@ =~= d2);
    }
    Ok(())
}

/// The mathematical view of an ordered account list.
pub open spec fn account_views(s: Seq<Account>) -> Seq<AccountView> {
    s.map_values(|a: Account| a@)
}

/// What one instruction does to the account list: an empty payload or an
/// unknown opcode fails with no mutation; otherwise byte 0 routes the
/// remaining bytes to the matching handler, which reads and rewrites the
/// leading accounts of the list.
pub open spec fn process_transition(
    pid: Seq<u8>,
    accounts: Seq<AccountView>,
    instruction_data: Seq<u8>,
    rent_minimum: u64,
) -> (Seq<AccountView>, Result<(), ProgramError>) {
    if instruction_data.len() == 0 {
        (accounts, Err(ProgramError::InvalidInstructionError))
    } else {
        let payload = instruction_data.skip(1);
        if instruction_data[0] == OP_CREATE_CAMPAIGN {
            let (w2, res) = create_transition(pid, accounts[0], accounts[1], payload, rent_minimum);
            (accounts.update(0, w2), res)
        } else if instruction_data[0] == OP_WITHDRAW {
            let (w2, a2, res) = withdraw_transition(
                pid,
                accounts[0],
                accounts[1],
                payload,
                rent_minimum,
            );
            (accounts.update(0, w2).update(1, a2), res)
        } else if instruction_data[0] == OP_DONATE {
            let (w2, d2, res) = donate_transition(pid, accounts[0], accounts[1], accounts[2]);
            (accounts.update(0, w2).update(1, d2), res)
        } else {
            (accounts, Err(ProgramError::InvalidInstructionError))
        }
    }
}

/// Entry point of the core: reads the opcode, routes the remaining payload
/// and the account list to the matching handler, and surfaces its outcome.
/// Each opcode's handler expects the account list to open with its fixed
/// roles, in order; accounts past them are left untouched.
pub fn process_instruction(
    program_id: &Pubkey,
    accounts: &mut Vec<Account>,
    instruction_data: &[u8],
    rent_minimum: u64,
) -> (r: Result<(), ProgramError>)
    requires
        instruction_data@.len() >= 1 ==> {
            &&& instruction_data@[0] == OP_CREATE_CAMPAIGN ==> old(accounts)@.len() >= 2
            &&& instruction_data@[0] == OP_WITHDRAW ==> old(accounts)@.len() >= 2
            &&& instruction_data@[0] == OP_DONATE ==> old(accounts)@.len() >= 3
        },
    ensures
        final(accounts)@.len() == old(accounts)@.len(),
        ({
            let (views2, res) = process_transition(
                program_id@,
                account_views(old(accounts)@),
                instruction_data@,
                rent_minimum,
            );
            account_views(final(accounts)@) == views2 && r == res
        }),
{
    if instruction_data.len() == 0 {
        return Err(ProgramError::InvalidInstructionError);
    }
    let opcode = *slice_index_get(instruction_data, 0);
    let payload = slice_subrange(instruction_data, 1, instruction_data.len());
    if opcode == OP_CREATE_CAMPAIGN {
        let mut writing = accounts.remove(0);
        let creator = accounts.remove(0);
        let res = create_campaign(program_id, &mut writing, &creator, payload, rent_minimum);
        accounts.insert(0, creator);
        accounts.insert(0, writing);
        proof {
            let (views2, _) = process_transition(
                program_id@,
                account_views(old(accounts)@),
                instruction_data@,
                rent_minimum,
            );
            assert(account_views(accounts@) =~= views2);
        }
        res
    } else if opcode == OP_WITHDRAW {
        let mut writing = accounts.remove(0);
        let mut admin = accounts.remove(0);
        let res = withdraw(program_id, &mut writing, &mut admin, payload, rent_minimum);
        accounts.insert(0, admin);
        accounts.insert(0, writing);
        proof {
            let (views2, _) = process_transition(
                program_id@,
                account_views(old(accounts)@),
                instruction_data@,
                rent_minimum,
            );
            assert(account_views(accounts@) =~= views2);
        }
        res
    } else if opcode == OP_DONATE {
        let mut writing = accounts.remove(0);
        let mut donator_program = accounts.remove(0);
        let donator = accounts.remove(0);
        let res = donate(program_id, &mut writing, &mut donator_program, &donator);
        accounts.insert(0, donator);
        accounts.insert(0, donator_program);
        accounts.insert(0, writing);
        proof {
            let (views2, _) = process_transition(
                program_id@,
                account_views(old(accounts)@),
                instruction_data@,
                rent_minimum,
            );
            assert(account_views(accounts@) =~= views2);
        }
        res
    } else {
        Err(ProgramError::InvalidInstructionError)
    }
}

} // verus!
