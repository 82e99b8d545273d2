//! The instruction processor: provisioning, checks, the transfer and the
//! update of the persisted total. An invocation that fails leaves every
//! account as it found it.

use vstd::prelude::*;
use crate::account::{accounts_view, Account, AccountState, Pubkey};
use crate::codec::{parse_state, state_bytes, TransferState};
use crate::error::{HostError, ProcessError};
use crate::host;
use crate::instruction::{parse_instruction, SolanaExampleInstruction};

verus! {

/// The ledger's rent-exempt minimum balances for the two account sizes the
/// program creates.
#[derive(Clone, Copy, Debug, PartialEq, Eq, Structural)]
pub struct MinimumBalances {
    /// For an account with no data (the recipient).
    pub empty_account: u64,
    /// For an account holding one encoded `TransferState`.
    pub state_account: u64,
}

pub open spec fn host_err<T>(r: Result<T, HostError>) -> Result<T, ProcessError> {
    match r {
        Ok(v) => Ok(v),
        Err(e) => Err(ProcessError::Host(e)),
    }
}

/// Creates the recipient as a data-less account owned by `system_program`,
/// funded by the payer, when it holds no lamports; otherwise leaves both alone.
pub open spec fn ensure_recipient_spec(
    payer: AccountState,
    recipient: AccountState,
    system_program: Pubkey,
    rent: MinimumBalances,
) -> Result<(AccountState, AccountState), ProcessError> {
    if recipient.lamports == 0 {
        host_err(host::create_spec(payer, recipient, rent.empty_account, 0, system_program))
    } else {
        Ok((payer, recipient))
    }
}

/// Creates the state account, owned by the program and sized for one record,
/// and stores a zero total in it, when it holds no lamports; otherwise leaves
/// both alone.
pub open spec fn ensure_state_spec(
    payer: AccountState,
    state: AccountState,
    program_id: Pubkey,
    rent: MinimumBalances,
) -> Result<(AccountState, AccountState), ProcessError> {
    if state.lamports == 0 {
        match host::create_spec(payer, state, rent.state_account, 8, program_id) {
            Ok((p, s)) => Ok(
                (p, AccountState { data: state_bytes(TransferState { total_transferred: 0 }), ..s }),
            ),
            Err(e) => Err(ProcessError::Host(e)),
        }
    } else {
        Ok((payer, state))
    }
}

/// The outcome of a `Transfer` on the account list `v`: payer, recipient,
/// state account, system program.
pub open spec fn sol_transfer_spec(
    v: Seq<AccountState>,
    amount: u64,
    program_id: Pubkey,
    rent: MinimumBalances,
) -> Result<Seq<AccountState>, ProcessError> {
    if v.len() < 4 {
        Err(ProcessError::MissingAccount)
    } else {
        match ensure_recipient_spec(v[0], v[1], v[3].key, rent) {
            Err(e) => Err(e),
            Ok((p1, r1)) => match ensure_state_spec(p1, v[2], program_id, rent) {
                Err(e) => Err(e),
                Ok((p2, s2)) => if p2.lamports < amount {
                    Err(ProcessError::InsufficientFunds)
                } else if !p2.is_signer {
                    Err(ProcessError::MissingSignature)
                } else {
                    match host::transfer_spec(p2, r1, amount) {
                        Err(e) => Err(ProcessError::Host(e)),
                        Ok((p3, r3)) => match parse_state(s2.data) {
                            None => Err(ProcessError::InvalidStateData),
                            Some(t) => if t.total_transferred + amount > u64::MAX {
                                Err(ProcessError::ArithmeticOverflow)
                            } else {
                                let t2 = TransferState {
                                    total_transferred: (t.total_transferred + amount) as u64,
                                };
                                Ok(
                                    v.update(0, p3).update(1, r3).update(
                                        2,
                                        AccountState { data: state_bytes(t2), ..s2 },
                                    ),
                                )
                            },
                        },
                    }
                },
            },
        }
    }
}

/// The outcome of a `Reset` on the account list `v`: admin, state account.
pub open spec fn reset_spec(v: Seq<AccountState>) -> Result<Seq<AccountState>, ProcessError> {
    if v.len() < 2 {
        Err(ProcessError::MissingAccount)
    } else if !v[0].is_signer {
        Err(ProcessError::MissingSignature)
    } else if parse_state(v[1].data) is None {
        Err(ProcessError::InvalidStateData)
    } else {
        Ok(
            v.update(
                1,
                AccountState {
                    data: state_bytes(TransferState { total_transferred: 0 }),
                    ..v[1]
                },
            ),
        )
    }
}

/// The outcome of one invocation with `instruction_data`.
pub open spec fn process_spec(
    program_id: Pubkey,
    v: Seq<AccountState>,
    instruction_data: Seq<u8>,
    rent: MinimumBalances,
) -> Result<Seq<AccountState>, ProcessError> {
    match parse_instruction(instruction_data) {
        None => Err(ProcessError::MalformedInstruction),
        Some(SolanaExampleInstruction::Transfer { amount }) => sol_transfer_spec(
            v,
            amount,
            program_id,
            rent,
        ),
        Some(SolanaExampleInstruction::Reset) => reset_spec(v),
    }
}

/// The accounts after an invocation whose outcome is `outcome`: the new
/// accounts on success, the old ones untouched on failure.
pub open spec fn committed(
    outcome: Result<Seq<AccountState>, ProcessError>,
    r: Result<(), ProcessError>,
    before: Seq<Account>,
    after: Seq<Account>,
) -> bool {
    match outcome {
        Ok(v) => r is Ok && accounts_view(after) == v,
        Err(e) => r == Err::<(), ProcessError>(e) && after == before,
    }
}

pub fn ensure_recipient_account(
    payer: &mut Account,
    recipient: &mut Account,
    system_program: &Pubkey,
    rent: &MinimumBalances,
) -> (r: Result<(), ProcessError>)
    ensures
        match ensure_recipient_spec(old(payer)@, old(recipient)@, *system_program, *rent) {
            Ok((p, q)) => r is Ok && final(payer)@ == p && final(recipient)@ == q,
            Err(e) => r == Err::<(), ProcessError>(e),
        },
{
    if recipient.lamports == 0 {
        match host::create_account(payer, recipient, rent.empty_account, 0, *system_program) {
            Ok(()) => Ok(()),
            Err(e) => Err(ProcessError::Host(e)),
        }
    } else {
        Ok(())
    }
}

pub fn ensure_state_account(
    payer: &mut Account,
    state_account: &mut Account,
    program_id: &Pubkey,
    rent: &MinimumBalances,
) -> (r: Result<(), ProcessError>)
    ensures
        match ensure_state_spec(old(payer)@, old(state_account)@, *program_id, *rent) {
            Ok((p, s)) => r is Ok && final(payer)@ == p && final(state_account)@ == s,
            Err(e) => r == Err::<(), ProcessError>(e),
        },
{
    if state_account.lamports == 0 {
        match host::create_account(payer, state_account, rent.state_account, 8, *program_id) {
            Ok(()) => {
                let initial = TransferState { total_transferred: 0 };
                state_account.data = initial.encode();
                Ok(())
            },
            Err(e) => Err(ProcessError::Host(e)),
        }
    } else {
        Ok(())
    }
}

pub fn sol_transfer(
    accounts: &mut Vec<Account>,
    amount: u64,
    program_id: &Pubkey,
    rent: &MinimumBalances,
) -> (r: Result<(), ProcessError>)
    ensures
        committed(
            sol_transfer_spec(accounts_view(old(accounts)@), amount, *program_id, *rent),
            r,
            old(accounts)@,
            final(accounts)@,
        ),
{
    let ghost v = accounts_view(accounts@);
    if accounts.len() < 4 {
        return Err(ProcessError::MissingAccount);
    }
    let mut payer = accounts[0].duplicate();
    let mut recipient = accounts[1].duplicate();
    let mut state_account = accounts[2].duplicate();
    let system_program = accounts[3].key;
    assert(v[0] == payer@ && v[1] == recipient@ && v[2] == state_account@ && v[3].key == system_program);
    match ensure_recipient_account(&mut payer, &mut recipient, &system_program, rent) {
        Ok(()) => {},
        Err(e) => return Err(e),
    }
    match ensure_state_account(&mut payer, &mut state_account, program_id, rent) {
        Ok(()) => {},
        Err(e) => return Err(e),
    }
    if payer.lamports < amount {
        return Err(ProcessError::InsufficientFunds);
    }
    if !payer.is_signer {
        return Err(ProcessError::MissingSignature);
    }
    match host::transfer(&mut payer, &mut recipient, amount) {
        Ok(()) => {},
        Err(e) => return Err(ProcessError::Host(e)),
    }
    let state = match TransferState::decode(state_account.data.as_slice()) {
        Some(s) => s,
        None => return Err(ProcessError::InvalidStateData),
    };
    if state.total_transferred > u64::MAX - amount {
        return Err(ProcessError::ArithmeticOverflow);
    }
    let updated = TransferState { total_transferred: state.total_transferred + amount };
    state_account.data = updated.encode();
    accounts.set(0, payer);
    accounts.set(1, recipient);
    accounts.set(2, state_account);
    proof {
        let expected = sol_transfer_spec(v, amount, *program_id, *rent);
        assert(accounts_view(accounts@) =~= expected.unwrap());
    }
    Ok(())
}

pub fn reset_total_transferred(accounts: &mut Vec<Account>) -> (r: Result<(), ProcessError>)
    ensures
        committed(reset_spec(accounts_view(old(accounts)@)), r, old(accounts)@, final(accounts)@),
{
    let ghost v = accounts_view(accounts@);
    if accounts.len() < 2 {
        return Err(ProcessError::MissingAccount);
    }
    if !accounts[0].is_signer {
        return Err(ProcessError::MissingSignature);
    }
    let mut state_account = accounts[1].duplicate();
    match TransferState::decode(state_account.data.as_slice()) {
        Some(_) => {},
        None => return Err(ProcessError::InvalidStateData),
    }
    let cleared = TransferState { total_transferred: 0 };
    state_account.data = cleared.encode();
    accounts.set(1, state_account);
    proof {
        assert(accounts_view(accounts@) =~= reset_spec(v).unwrap());
    }
    Ok(())
}

/// Decodes `instruction_data` and runs the instruction on `accounts`.
pub fn process_instruction(
    program_id: &Pubkey,
    accounts: &mut Vec<Account>,
    instruction_data: &[u8],
    rent: &MinimumBalances,
) -> (r: Result<(), ProcessError>)
    ensures
        committed(
            process_spec(*program_id, accounts_view(old(accounts)@), instruction_data@, *rent),
            r,
            old(accounts)@,
            final(accounts)@,
        ),
{
    match SolanaExampleInstruction::unpack(instruction_data) {
        Err(e) => Err(e),
        Ok(SolanaExampleInstruction::Transfer { amount }) => sol_transfer(
            accounts,
            amount,
            program_id,
            rent,
        ),
        Ok(SolanaExampleInstruction::Reset) => reset_total_transferred(accounts),
    }
}

} // verus!
