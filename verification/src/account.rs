use vstd::prelude::*;

use crate::addresses::Address;

verus! {

/// One ledger account, as the runtime presents it to the program for the
/// duration of a single instruction: identification, authorization flags,
/// balance and data.
pub struct Account {
    /// The account's own address.
    pub key: Address,
    /// The program that owns the account and may mutate it.
    pub owner: Address,
    /// Whether the transaction carries this account's signature.
    pub is_signer: bool,
    /// Whether the account is an executable program.
    pub executable: bool,
    /// The account's balance counter.
    pub lamports: u64,
    /// The account's raw byte buffer.
    pub data: Vec<u8>,
}

impl Account {
    /// How a closed account relates to its pre-closure state: identity and
    /// flags kept, balance zero, data released, ownership returned to the
    /// system program.
    pub open spec fn spec_closed_from(self, pre: Account) -> bool {
        &&& self.key == pre.key
        &&& self.is_signer == pre.is_signer
        &&& self.executable == pre.executable
        &&& self.lamports == 0
        &&& self.data@.len() == 0
        &&& self.owner@ == crate::addresses::SYSTEM_PROGRAM_ID@
    }
}

} // verus!
