//! The ledger's two primitives that the processor invokes: creating an account
//! and moving lamports. Each leaves its accounts untouched when it fails.

use vstd::prelude::*;
use crate::account::{Account, AccountState, Pubkey};
use crate::error::HostError;

verus! {

/// What creating `new_account`, funded with `lamports` by `funder`, with a
/// zeroed buffer of `space` bytes owned by `owner`, yields.
pub open spec fn create_spec(
    funder: AccountState,
    new_account: AccountState,
    lamports: u64,
    space: nat,
    owner: Pubkey,
) -> Result<(AccountState, AccountState), HostError> {
    if new_account.lamports != 0 || new_account.data.len() != 0 {
        Err(HostError::AccountAlreadyInUse)
    } else if !new_account.is_signer || !funder.is_signer {
        Err(HostError::MissingRequiredSignature)
    } else if funder.lamports < lamports {
        Err(HostError::InsufficientLamports)
    } else {
        Ok(
            (
                AccountState { lamports: funder.lamports - lamports, ..funder },
                AccountState {
                    lamports: lamports as int,
                    data: Seq::new(space, |i: int| 0u8),
                    owner,
                    ..new_account
                },
            ),
        )
    }
}

/// What moving `amount` lamports from `from` to `to` yields.
pub open spec fn transfer_spec(from: AccountState, to: AccountState, amount: u64) -> Result<
    (AccountState, AccountState),
    HostError,
> {
    if !from.is_signer {
        Err(HostError::MissingRequiredSignature)
    } else if from.lamports < amount {
        Err(HostError::InsufficientLamports)
    } else if to.lamports + amount > u64::MAX {
        Err(HostError::ArithmeticOverflow)
    } else {
        Ok(
            (
                AccountState { lamports: from.lamports - amount, ..from },
                AccountState { lamports: to.lamports + amount, ..to },
            ),
        )
    }
}

pub fn create_account(
    funder: &mut Account,
    new_account: &mut Account,
    lamports: u64,
    space: usize,
    owner: Pubkey,
) -> (r: Result<(), HostError>)
    ensures
        match create_spec(old(funder)@, old(new_account)@, lamports, space as nat, owner) {
            Ok((f, n)) => r is Ok && final(funder)@ == f && final(new_account)@ == n,
            Err(e) => r == Err::<(), HostError>(e) && final(funder)@ == old(funder)@
                && final(new_account)@ == old(new_account)@,
        },
{
    if new_account.lamports != 0 || new_account.data.len() != 0 {
        return Err(HostError::AccountAlreadyInUse);
    }
    if !new_account.is_signer || !funder.is_signer {
        return Err(HostError::MissingRequiredSignature);
    }
    if funder.lamports < lamports {
        return Err(HostError::InsufficientLamports);
    }
    funder.lamports = funder.lamports - lamports;
    new_account.lamports = lamports;
    new_account.data = vec_zeroed(space);
    new_account.owner = owner;
    assert(new_account.data@ =~= Seq::new(space as nat, |i: int| 0u8));
    Ok(())
}

fn vec_zeroed(n: usize) -> (r: Vec<u8>)
    ensures
        r@.len() == n,
        forall|i: int| 0 <= i < n ==> r@[i] == 0u8,
{
    let mut v: Vec<u8> = Vec::new();
    while v.len() < n
        invariant
            v@.len() <= n,
            forall|i: int| 0 <= i < v@.len() ==> v@[i] == 0u8,
        decreases n - v@.len(),
    {
        v.push(0u8);
    }
    v
}

pub fn transfer(from: &mut Account, to: &mut Account, amount: u64) -> (r: Result<(), HostError>)
    ensures
        match transfer_spec(old(from)@, old(to)@, amount) {
            Ok((f, t)) => r is Ok && final(from)@ == f && final(to)@ == t,
            Err(e) => r == Err::<(), HostError>(e) && final(from)@ == old(from)@
                && final(to)@ == old(to)@,
        },
{
    if !from.is_signer {
        return Err(HostError::MissingRequiredSignature);
    }
    if from.lamports < amount {
        return Err(HostError::InsufficientLamports);
    }
    if to.lamports > u64::MAX - amount {
        return Err(HostError::ArithmeticOverflow);
    }
    from.lamports = from.lamports - amount;
    to.lamports = to.lamports + amount;
    Ok(())
}

} // verus!
