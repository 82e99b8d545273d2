//! Accounts as the processor sees them: a balance, a data buffer, an owner and
//! a signer flag.

use vstd::prelude::*;

verus! {

/// A 32-byte account address.
pub type Pubkey = [u8; 32];

pub struct Account {
    pub key: Pubkey,
    pub lamports: u64,
    pub data: Vec<u8>,
    pub owner: Pubkey,
    pub is_signer: bool,
}

/// The abstract value of an account.
pub ghost struct AccountState {
    pub key: Pubkey,
    pub lamports: int,
    pub data: Seq<u8>,
    pub owner: Pubkey,
    pub is_signer: bool,
}

impl View for Account {
    type V = AccountState;

    open spec fn view(&self) -> AccountState {
        AccountState {
            key: self.key,
            lamports: self.lamports as int,
            data: self.data@,
            owner: self.owner,
            is_signer: self.is_signer,
        }
    }
}

/// The abstract value of an ordered account list.
pub open spec fn accounts_view(accounts: Seq<Account>) -> Seq<AccountState> {
    accounts.map_values(|a: Account| a@)
}

impl Account {
    pub fn new(key: Pubkey, lamports: u64, data: Vec<u8>, owner: Pubkey, is_signer: bool) -> (r: Account)
        ensures
            r@ == (AccountState { key, lamports: lamports as int, data: data@, owner, is_signer }),
    {
        Account { key, lamports, data, owner, is_signer }
    }

    /// A copy with the same key, balance, data, owner and signer flag.
    pub fn duplicate(&self) -> (r: Account)
        ensures
            r@ == self@,
    {
        let data = self.data.clone();
        assert(data@ =~= self.data@);
        Account {
            key: self.key,
            lamports: self.lamports,
            data,
            owner: self.owner,
            is_signer: self.is_signer,
        }
    }
}

} // verus!
