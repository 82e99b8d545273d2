//! Properties that hold across calls of the processor, proved over its
//! specification.

use vstd::prelude::*;
use crate::account::{AccountState, Pubkey};
use crate::codec::{lemma_state_round_trip, parse_state, state_bytes, TransferState};
use crate::error::ProcessError;
use crate::processor::{
    ensure_recipient_spec, ensure_state_spec, reset_spec, sol_transfer_spec, MinimumBalances,
};

verus! {

/// Lamports the payer spends creating the recipient and the state account, if
/// either is still unfunded.
pub open spec fn creation_funding(v: Seq<AccountState>, rent: MinimumBalances) -> int {
    (if v[1].lamports == 0 { rent.empty_account as int } else { 0 }) + (if v[2].lamports == 0 {
        rent.state_account as int
    } else {
        0
    })
}

/// A successful transfer raises the recipient's balance by exactly the amount
/// (plus its creation funding, on first use) and lowers the payer's by the
/// amount plus whatever creation funding it paid.
pub proof fn lemma_transfer_balances(
    v: Seq<AccountState>,
    amount: u64,
    program_id: Pubkey,
    rent: MinimumBalances,
)
    requires
        sol_transfer_spec(v, amount, program_id, rent) is Ok,
    ensures
        ({
            let w = sol_transfer_spec(v, amount, program_id, rent).unwrap();
            &&& w.len() == v.len()
            &&& w[1].lamports == v[1].lamports + (if v[1].lamports == 0 {
                rent.empty_account as int
            } else {
                0
            }) + amount
            &&& w[0].lamports == v[0].lamports - creation_funding(v, rent) - amount
        }),
{
}

/// A transfer between funded accounts, by a signing payer who holds at least
/// the amount, succeeds whenever neither the recipient's balance nor the
/// stored total would overflow.
pub proof fn lemma_transfer_succeeds(
    v: Seq<AccountState>,
    amount: u64,
    program_id: Pubkey,
    rent: MinimumBalances,
)
    requires
        v.len() >= 4,
        v[1].lamports != 0,
        v[2].lamports != 0,
        v[0].is_signer,
        amount <= v[0].lamports,
        v[1].lamports + amount <= u64::MAX,
        parse_state(v[2].data) matches Some(t) && t.total_transferred + amount <= u64::MAX,
    ensures
        sol_transfer_spec(v, amount, program_id, rent) is Ok,
{
}

/// The total that a state account holds before a transfer: zero when the
/// account is still to be created.
pub open spec fn start_total(s: AccountState) -> int {
    if s.lamports == 0 {
        0
    } else {
        match parse_state(s.data) {
            Some(t) => t.total_transferred as int,
            None => 0,
        }
    }
}

/// Applies transfers of `amounts`, in order, stopping at the first failure.
pub open spec fn run_transfers(
    v: Seq<AccountState>,
    amounts: Seq<u64>,
    program_id: Pubkey,
    rent: MinimumBalances,
) -> Result<Seq<AccountState>, ProcessError>
    decreases amounts.len(),
{
    if amounts.len() == 0 {
        Ok(v)
    } else {
        match sol_transfer_spec(v, amounts[0], program_id, rent) {
            Ok(w) => run_transfers(w, amounts.drop_first(), program_id, rent),
            Err(e) => Err(e),
        }
    }
}

pub open spec fn sum_amounts(amounts: Seq<u64>) -> int
    decreases amounts.len(),
{
    if amounts.len() == 0 {
        0
    } else {
        amounts[0] + sum_amounts(amounts.drop_first())
    }
}

proof fn lemma_one_transfer_total(
    v: Seq<AccountState>,
    amount: u64,
    program_id: Pubkey,
    rent: MinimumBalances,
)
    requires
        sol_transfer_spec(v, amount, program_id, rent) is Ok,
    ensures
        ({
            let w = sol_transfer_spec(v, amount, program_id, rent).unwrap();
            &&& w.len() == v.len()
            &&& parse_state(w[2].data) matches Some(t) && t.total_transferred == start_total(v[2])
                + amount
            &&& w[2].data.len() != 0
        }),
{
    let z = TransferState { total_transferred: 0 };
    lemma_state_round_trip(z);
    if let Some(t) = parse_state(v[2].data) {
        lemma_state_round_trip(TransferState { total_transferred: (t.total_transferred + amount) as u64 });
    }
    let s2 = match ensure_state_spec(
        ensure_recipient_spec(v[0], v[1], v[3].key, rent).unwrap().0,
        v[2],
        program_id,
        rent,
    ) {
        Ok((_, s)) => s,
        Err(_) => v[2],
    };
    let t = parse_state(s2.data).unwrap();
    lemma_state_round_trip(TransferState { total_transferred: (t.total_transferred + amount) as u64 });
}

/// Successive successful transfers add up: the stored total ends as the total
/// it started from plus the sum of the amounts, in invocation order.
pub proof fn lemma_transfers_accumulate(
    v: Seq<AccountState>,
    amounts: Seq<u64>,
    program_id: Pubkey,
    rent: MinimumBalances,
)
    requires
        amounts.len() > 0,
        run_transfers(v, amounts, program_id, rent) is Ok,
    ensures
        ({
            let w = run_transfers(v, amounts, program_id, rent).unwrap();
            &&& w.len() == v.len()
            &&& parse_state(w[2].data) matches Some(t) && t.total_transferred == start_total(v[2])
                + sum_amounts(amounts)
        }),
    decreases amounts.len(),
{
    let w1 = sol_transfer_spec(v, amounts[0], program_id, rent).unwrap();
    lemma_one_transfer_total(v, amounts[0], program_id, rent);
    let rest = amounts.drop_first();
    assert(run_transfers(v, amounts, program_id, rent) == run_transfers(w1, rest, program_id, rent));
    if rest.len() > 0 {
        assert(sol_transfer_spec(w1, rest[0], program_id, rent) is Ok);
        assert(w1[2].lamports != 0);
        lemma_transfers_accumulate(w1, rest, program_id, rent);
    } else {
        assert(sum_amounts(rest) == 0);
    }
}

/// A reset by a signer stores a zero total whatever the total was, and leaves
/// every balance, and every other account, as it was.
pub proof fn lemma_reset_clears(v: Seq<AccountState>)
    requires
        v.len() >= 2,
        v[0].is_signer,
        parse_state(v[1].data) is Some,
    ensures
        reset_spec(v) is Ok,
        ({
            let w = reset_spec(v).unwrap();
            &&& w.len() == v.len()
            &&& parse_state(w[1].data) == Some(TransferState { total_transferred: 0 })
            &&& forall|i: int| 0 <= i < v.len() ==> #[trigger] w[i].lamports == v[i].lamports
            &&& forall|i: int| 0 <= i < v.len() && i != 1 ==> #[trigger] w[i] == v[i]
        }),
{
    lemma_state_round_trip(TransferState { total_transferred: 0 });
}

/// Provisioning the recipient a second time changes nothing and does not fail;
/// on a funded recipient even the first time is a no-op.
pub proof fn lemma_ensure_recipient_idempotent(
    payer: AccountState,
    recipient: AccountState,
    system_program: Pubkey,
    rent: MinimumBalances,
)
    requires
        ensure_recipient_spec(payer, recipient, system_program, rent) is Ok,
    ensures
        ({
            let (p1, r1) = ensure_recipient_spec(payer, recipient, system_program, rent).unwrap();
            ensure_recipient_spec(p1, r1, system_program, rent) == Ok::<
                (AccountState, AccountState),
                ProcessError,
            >((p1, r1))
        }),
        recipient.lamports != 0 ==> ensure_recipient_spec(payer, recipient, system_program, rent)
            == Ok::<(AccountState, AccountState), ProcessError>((payer, recipient)),
{
    let (p1, r1) = ensure_recipient_spec(payer, recipient, system_program, rent).unwrap();
    if r1.lamports == 0 {
        assert(r1.data =~= Seq::new(0, |i: int| 0u8));
        let (p2, r2) = ensure_recipient_spec(p1, r1, system_program, rent).unwrap();
        assert(p2 == p1);
        assert(r2 == r1);
    }
}

/// Provisioning a funded state account a second time changes nothing and does
/// not fail; on a funded state account even the first time is a no-op.
pub proof fn lemma_ensure_state_idempotent(
    payer: AccountState,
    state: AccountState,
    program_id: Pubkey,
    rent: MinimumBalances,
)
    requires
        ensure_state_spec(payer, state, program_id, rent) is Ok,
        ensure_state_spec(payer, state, program_id, rent).unwrap().1.lamports != 0,
    ensures
        ({
            let (p1, s1) = ensure_state_spec(payer, state, program_id, rent).unwrap();
            ensure_state_spec(p1, s1, program_id, rent) == Ok::<
                (AccountState, AccountState),
                ProcessError,
            >((p1, s1))
        }),
        state.lamports != 0 ==> ensure_state_spec(payer, state, program_id, rent) == Ok::<
            (AccountState, AccountState),
            ProcessError,
        >((payer, state)),
{
}

/// With both accounts already funded, a transfer of more than the payer holds
/// fails for want of funds, whether or not the payer signed.
pub proof fn lemma_funds_checked_before_signature(
    v: Seq<AccountState>,
    amount: u64,
    program_id: Pubkey,
    rent: MinimumBalances,
)
    requires
        v.len() >= 4,
        v[1].lamports != 0,
        v[2].lamports != 0,
        amount > v[0].lamports,
    ensures
        sol_transfer_spec(v, amount, program_id, rent) == Err::<Seq<AccountState>, ProcessError>(
            ProcessError::InsufficientFunds,
        ),
{
}

} // verus!
