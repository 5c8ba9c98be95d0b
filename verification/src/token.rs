use vstd::prelude::*;

use crate::account::Account;
use crate::addresses::{Address, TOKEN_PROGRAM_ID};
use crate::error::ProgramError;
use crate::escrow::push_address;

verus! {

/// The fixed byte length of an asset holding account's record.
pub const TOKEN_ACCOUNT_LEN: usize = 165;

/// The fixed byte length of a mint record.
pub const MINT_LEN: usize = 82;

/// Whether an account can be read as an asset holding account: owned by the
/// asset-ledger program, with a record of the fixed length.
pub open spec fn spec_is_token_account(a: Account) -> bool {
    &&& a.owner@ == TOKEN_PROGRAM_ID@
    &&& a.data@.len() == TOKEN_ACCOUNT_LEN
}

/// The balance recorded inside a holding account's bytes.
pub open spec fn spec_token_amount(data: Seq<u8>) -> u64 {
    vstd::bytes::spec_u64_from_le_bytes(data.subrange(64, 72))
}

/// A holding account's bytes with the balance replaced.
pub open spec fn spec_write_amount(data: Seq<u8>, amount: u64) -> Seq<u8> {
    data.subrange(0, 64) + vstd::bytes::spec_u64_to_le_bytes(amount) + data.subrange(
        72,
        data.len() as int,
    )
}

/// The bytes of a freshly initialized holding account: mint and owner
/// verbatim, the balance little-endian, the state byte marking the record
/// initialized, everything else zero.
pub open spec fn spec_token_account_bytes(mint: Seq<u8>, owner: Seq<u8>, amount: u64) -> Seq<u8> {
    mint + owner + vstd::bytes::spec_u64_to_le_bytes(amount) + Seq::new(36, |i: int| 0u8)
        + seq![1u8] + Seq::new(56, |i: int| 0u8)
}

/// Reads the balance out of an asset holding account, rejecting an account
/// that the asset-ledger program does not own or whose record has the wrong
/// length.
pub fn read_token_amount(account: &Account) -> (r: Result<u64, ProgramError>)
    ensures
        r == if spec_is_token_account(*account) {
            Ok::<u64, ProgramError>(spec_token_amount(account.data@))
        } else {
            Err::<u64, ProgramError>(ProgramError::InvalidAccountData)
        },
{
    if !crate::addresses::address_eq(&account.owner, &TOKEN_PROGRAM_ID) {
        return Err(ProgramError::InvalidAccountData);
    }
    if account.data.len() != TOKEN_ACCOUNT_LEN {
        return Err(ProgramError::InvalidAccountData);
    }
    let amount = vstd::bytes::u64_from_le_bytes(
        vstd::slice::slice_subrange(account.data.as_slice(), 64, 72),
    );
    Ok(amount)
}

/// Replaces the balance recorded inside a holding account's bytes.
pub fn write_token_amount(data: &mut Vec<u8>, amount: u64)
    requires
        old(data)@.len() == TOKEN_ACCOUNT_LEN,
    ensures
        final(data)@ == spec_write_amount(old(data)@, amount),
{
    let bytes = vstd::bytes::u64_to_le_bytes(amount);
    let mut i: usize = 0;
    while i < 8
        invariant
            i <= 8,
            bytes@.len() == 8,
            data@.len() == TOKEN_ACCOUNT_LEN as int,
            bytes@ == vstd::bytes::spec_u64_to_le_bytes(amount),
            forall|j: int| 0 <= j < 64 ==> data@[j] == old(data)@[j],
            forall|j: int| 0 <= j < i ==> data@[64 + j] == bytes@[j],
            forall|j: int| 72 <= j < TOKEN_ACCOUNT_LEN as int ==> data@[j] == old(data)@[j],
        decreases 8 - i,
    {
        data.set(64 + i, bytes[i]);
        i = i + 1;
    }
    proof {
        vstd::bytes::lemma_auto_spec_u64_to_from_le_bytes();
        assert(data@ =~= spec_write_amount(old(data)@, amount));
    }
}

/// Builds the bytes of a freshly initialized holding account.
pub fn token_account_bytes(mint: &Address, owner: &Address, amount: u64) -> (r: Vec<u8>)
    ensures
        r@ == spec_token_account_bytes(mint@, owner@, amount),
        r@.len() == TOKEN_ACCOUNT_LEN,
{
    let mut out: Vec<u8> = Vec::new();
    push_address(&mut out, mint);
    push_address(&mut out, owner);
    let mut le = vstd::bytes::u64_to_le_bytes(amount);
    out.append(&mut le);
    let mut i: usize = 0;
    while i < 36
        invariant
            i <= 36,
            out@ == mint@ + owner@ + vstd::bytes::spec_u64_to_le_bytes(amount) + Seq::new(
                i as nat,
                |k: int| 0u8,
            ),
        decreases 36 - i,
    {
        out.push(0);
        proof {
            assert(out@ =~= mint@ + owner@ + vstd::bytes::spec_u64_to_le_bytes(amount) + Seq::new(
                (i + 1) as nat,
                |k: int| 0u8,
            ));
        }
        i = i + 1;
    }
    out.push(1);
    let ghost mid = out@;
    let mut j: usize = 0;
    while j < 56
        invariant
            j <= 56,
            out@ == mid + Seq::new(j as nat, |k: int| 0u8),
        decreases 56 - j,
    {
        out.push(0);
        proof {
            assert(out@ =~= mid + Seq::new((j + 1) as nat, |k: int| 0u8));
        }
        j = j + 1;
    }
    proof {
        vstd::bytes::lemma_auto_spec_u64_to_from_le_bytes();
        assert(out@ =~= spec_token_account_bytes(mint@, owner@, amount));
    }
    out
}

/// The asset-ledger program's closure of an emptied holding account: sweeps
/// the account's whole balance to a destination and releases the account.
/// Only an account whose recorded balance is zero may be closed.
pub fn close_token_account(account: &mut Account, destination: &mut Account)
    requires
        spec_is_token_account(*old(account)),
        spec_token_amount(old(account).data@) == 0,
        old(destination).lamports + old(account).lamports <= u64::MAX,
    ensures
        final(account).spec_closed_from(*old(account)),
        final(destination).lamports == old(destination).lamports + old(account).lamports,
        final(destination).key == old(destination).key,
        final(destination).owner == old(destination).owner,
        final(destination).is_signer == old(destination).is_signer,
        final(destination).executable == old(destination).executable,
        final(destination).data == old(destination).data,
{
    destination.lamports = destination.lamports + account.lamports;
    account.lamports = 0;
    account.data.truncate(0);
    account.owner = crate::addresses::SYSTEM_PROGRAM_ID;
}

/// Replacing the balance keeps the record's length and every other byte,
/// and the replaced balance is the one written.
pub proof fn lemma_write_amount(data: Seq<u8>, amount: u64)
    requires
        data.len() == TOKEN_ACCOUNT_LEN,
    ensures
        spec_write_amount(data, amount).len() == TOKEN_ACCOUNT_LEN,
        spec_token_amount(spec_write_amount(data, amount)) == amount,
{
    vstd::bytes::lemma_auto_spec_u64_to_from_le_bytes();
    assert(spec_write_amount(data, amount).subrange(64, 72) =~= vstd::bytes::spec_u64_to_le_bytes(
        amount,
    ));
}

} // verus!
