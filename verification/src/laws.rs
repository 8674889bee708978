use crate::account::AccountView;
use crate::codec::{
    lemma_encode_parse_campaign, lemma_parse_encode_campaign, spec_encode_campaign,
    spec_parse_campaign, spec_parse_withdraw,
};
use crate::error::ProgramError;
use crate::processor::{create_transition, donate_transition, withdraw_transition};
use crate::records::CampaignView;
use vstd::prelude::*;

verus! {

/// A creation whose checks all pass — the creator signed, the account is
/// program-owned, the payload decodes, its admin is the creator, the balance
/// covers the rent-exempt floor, and the record fits the buffer — succeeds,
/// stores the decoded record with its donation counter forced to zero and
/// every other field as supplied, and touches nothing else of the account.
pub proof fn lemma_create_campaign_success(
    pid: Seq<u8>,
    w: AccountView,
    c: AccountView,
    payload: Seq<u8>,
    rent_minimum: u64,
)
    requires
        c.is_signer,
        w.owner == pid,
        spec_parse_campaign(payload) is Some,
        spec_parse_campaign(payload)->Some_0.admin == c.key,
        w.lamports >= rent_minimum,
        spec_encode_campaign(
            CampaignView { amount_donated: 0, ..spec_parse_campaign(payload)->Some_0 },
        ).len() <= w.data.len(),
    ensures
        ({
            let rec = spec_parse_campaign(payload)->Some_0;
            let stored = CampaignView { amount_donated: 0, ..rec };
            let enc = spec_encode_campaign(stored);
            let (w2, res) = create_transition(pid, w, c, payload, rent_minimum);
            &&& res == Ok::<(), ProgramError>(())
            &&& w2.lamports == w.lamports
            &&& w2.owner == w.owner
            &&& w2.key == w.key
            &&& w2.is_signer == w.is_signer
            &&& w2.data.len() == w.data.len()
            &&& w2.data.subrange(0, enc.len() as int) == enc
            &&& enc.len() == w.data.len() ==> spec_parse_campaign(w2.data) == Some(stored)
        }),
{
    let rec = spec_parse_campaign(payload)->Some_0;
    let stored = CampaignView { amount_donated: 0, ..rec };
    let enc = spec_encode_campaign(stored);
    let (w2, res) = create_transition(pid, w, c, payload, rent_minimum);
    lemma_encode_parse_campaign(payload);
    assert(stored.wf());
    assert(w2.data.subrange(0, enc.len() as int) =~= enc);
    if enc.len() == w.data.len() {
        assert(w2.data =~= enc);
        lemma_parse_encode_campaign(stored);
    }
}

/// A creation whose payload decodes to a record naming anyone but the
/// creator as admin fails with the invalid-data error, and the account —
/// its data buffer byte for byte included — is left exactly as it was.
pub proof fn lemma_create_campaign_admin_mismatch(
    pid: Seq<u8>,
    w: AccountView,
    c: AccountView,
    payload: Seq<u8>,
    rent_minimum: u64,
)
    requires
        c.is_signer,
        w.owner == pid,
        spec_parse_campaign(payload) is Some,
        spec_parse_campaign(payload)->Some_0.admin != c.key,
    ensures
        create_transition(pid, w, c, payload, rent_minimum) == (
            w,
            Err::<(), ProgramError>(ProgramError::InvalidDataError),
        ),
{
}

/// A withdrawal of no more than the balance above the rent-exempt floor,
/// with every earlier check passing and the admin's balance able to take
/// the amount, succeeds: exactly the amount moves from the writing account
/// to the admin account, their sum is conserved, and the record bytes are
/// unchanged.
pub proof fn lemma_withdraw_success(
    pid: Seq<u8>,
    w: AccountView,
    a: AccountView,
    payload: Seq<u8>,
    rent_minimum: u64,
)
    requires
        w.owner == pid,
        a.is_signer,
        spec_parse_campaign(w.data) is Some,
        spec_parse_campaign(w.data)->Some_0.admin == a.key,
        spec_parse_withdraw(payload) is Some,
        w.lamports >= rent_minimum,
        spec_parse_withdraw(payload)->Some_0 <= w.lamports - rent_minimum,
        a.lamports + spec_parse_withdraw(payload)->Some_0 <= u64::MAX,
    ensures
        ({
            let amount = spec_parse_withdraw(payload)->Some_0;
            let (w2, a2, res) = withdraw_transition(pid, w, a, payload, rent_minimum);
            &&& res == Ok::<(), ProgramError>(())
            &&& w2.lamports == w.lamports - amount
            &&& a2.lamports == a.lamports + amount
            &&& w2.lamports + a2.lamports == w.lamports + a.lamports
            &&& w2.data == w.data
            &&& a2.data == a.data
        }),
{
}

/// A withdrawal asking for more than the balance above the rent-exempt
/// floor — among them every case where the floor alone exceeds the balance —
/// fails with the insufficient-funds error and changes neither account.
pub proof fn lemma_withdraw_insufficient(
    pid: Seq<u8>,
    w: AccountView,
    a: AccountView,
    payload: Seq<u8>,
    rent_minimum: u64,
)
    requires
        w.owner == pid,
        a.is_signer,
        spec_parse_campaign(w.data) is Some,
        spec_parse_campaign(w.data)->Some_0.admin == a.key,
        spec_parse_withdraw(payload) is Some,
        w.lamports < rent_minimum || spec_parse_withdraw(payload)->Some_0 > w.lamports
            - rent_minimum,
    ensures
        withdraw_transition(pid, w, a, payload, rent_minimum) == (
            w,
            a,
            Err::<(), ProgramError>(ProgramError::InsufficientFundsError),
        ),
{
}

/// A donation whose checks pass moves the staging account's whole balance,
/// observed once: the stored counter and the campaign's balance each grow by
/// it, the staging account ends empty, and the two balances together are
/// conserved. Where the counter or the balance would pass the representable
/// maximum, the donation instead fails with the overflow error and neither
/// account changes.
pub proof fn lemma_donate(pid: Seq<u8>, w: AccountView, d: AccountView, donator: AccountView)
    requires
        w.owner == pid,
        d.owner == pid,
        donator.is_signer,
        spec_parse_campaign(w.data) is Some,
    ensures
        ({
            let rec = spec_parse_campaign(w.data)->Some_0;
            let donated = d.lamports;
            let (w2, d2, res) = donate_transition(pid, w, d, donator);
            if rec.amount_donated + donated <= u64::MAX && w.lamports + donated <= u64::MAX {
                &&& res == Ok::<(), ProgramError>(())
                &&& spec_parse_campaign(w2.data) == Some(
                    CampaignView {
                        amount_donated: (rec.amount_donated + donated) as u64,
                        ..rec
                    },
                )
                &&& w2.lamports == w.lamports + donated
                &&& d2.lamports == 0
                &&& w2.lamports + d2.lamports == w.lamports + d.lamports
            } else {
                &&& res == Err::<(), ProgramError>(ProgramError::OverflowError)
                &&& w2 == w
                &&& d2 == d
            }
        }),
{
    let rec = spec_parse_campaign(w.data)->Some_0;
    let donated = d.lamports;
    if rec.amount_donated + donated <= u64::MAX && w.lamports + donated <= u64::MAX {
        lemma_encode_parse_campaign(w.data);
        let rec2 = CampaignView { amount_donated: (rec.amount_donated + donated) as u64, ..rec };
        assert(rec2.wf());
        lemma_parse_encode_campaign(rec2);
    }
}

/// Replaying a withdrawal re-validates against the mutated state, never the
/// pre-image: once a withdrawal has drained everything above the rent-exempt
/// floor, running the very same instruction again fails with the
/// insufficient-funds error and moves nothing.
pub proof fn lemma_withdraw_replay_fails(
    pid: Seq<u8>,
    w: AccountView,
    a: AccountView,
    payload: Seq<u8>,
    rent_minimum: u64,
)
    requires
        withdraw_transition(pid, w, a, payload, rent_minimum).2 == Ok::<(), ProgramError>(()),
        spec_parse_withdraw(payload)->Some_0 == w.lamports - rent_minimum,
        spec_parse_withdraw(payload)->Some_0 >= 1,
    ensures
        ({
            let (w1, a1, _) = withdraw_transition(pid, w, a, payload, rent_minimum);
            withdraw_transition(pid, w1, a1, payload, rent_minimum) == (
                w1,
                a1,
                Err::<(), ProgramError>(ProgramError::InsufficientFundsError),
            )
        }),
{
    let (w1, a1, _) = withdraw_transition(pid, w, a, payload, rent_minimum);
    assert(w1.lamports == rent_minimum);
    assert(w1.data == w.data);
}

/// Replaying a donation re-validates against the mutated state as well: the
/// staging account was drained, so running the same instruction again
/// succeeds but donates nothing — counter, balances and record all stay as
/// the first donation left them.
pub proof fn lemma_donate_replay_adds_nothing(
    pid: Seq<u8>,
    w: AccountView,
    d: AccountView,
    donator: AccountView,
)
    requires
        donate_transition(pid, w, d, donator).2 == Ok::<(), ProgramError>(()),
    ensures
        ({
            let (w1, d1, _) = donate_transition(pid, w, d, donator);
            donate_transition(pid, w1, d1, donator) == (w1, d1, Ok::<(), ProgramError>(()))
        }),
{
    let rec = spec_parse_campaign(w.data)->Some_0;
    let rec2 = CampaignView { amount_donated: (rec.amount_donated + d.lamports) as u64, ..rec };
    let (w1, d1, _) = donate_transition(pid, w, d, donator);
    lemma_encode_parse_campaign(w.data);
    assert(rec2.wf());
    lemma_parse_encode_campaign(rec2);
    assert(spec_parse_campaign(w1.data) == Some(rec2));
    let (w3, d3, res3) = donate_transition(pid, w1, d1, donator);
    assert(w3.data =~= w1.data);
    assert(w3 =~= w1);
    assert(d3 =~= d1);
}

} // verus!
