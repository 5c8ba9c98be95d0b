use vstd::prelude::*;

use crate::account::Account;
use crate::accounts::{AssociatedTokenAccount, MintAccount, ProgramAccount, SignerAccount};
use crate::addresses::{PROGRAM_ID, SYSTEM_PROGRAM_ID};
use crate::error::{PinocchioError, ProgramError};
use crate::escrow::ESCROW_LEN;
use crate::pda::ata_address_of;
use crate::refund::{Refund, RefundAccounts};
use crate::token::spec_token_amount;

verus! {

/// Atomicity: a refund that fails leaves every account of the bundle — in
/// particular the vault's balance and the escrow's bytes — exactly as it
/// was before the call.
pub proof fn lemma_refund_atomicity(pre: Refund, post: Refund, e: ProgramError)
    requires
        Refund::spec_process_post(pre, post, Err(e)),
    ensures
        post == pre,
        post.accounts.vault.data@ == pre.accounts.vault.data@,
        post.accounts.vault.lamports == pre.accounts.vault.lamports,
        post.accounts.escrow.data@ == pre.accounts.escrow.data@,
{
}

/// Atomicity of the validation step: an account array that fails
/// validation is never handed to the creation step, so the failure's only
/// effect is the error itself.
pub proof fn lemma_validation_failure_propagates(accounts: Seq<Account>, e: ProgramError)
    requires
        RefundAccounts::spec_validate(accounts) == Err::<(), ProgramError>(e),
    ensures
        Refund::spec_try_from_result(accounts) == Err::<(), ProgramError>(e),
{
}

/// Full-balance invariant: after a successful refund the maker's holding
/// account records exactly its prior balance plus the vault's whole prior
/// balance, and the vault is left empty and closed.
pub proof fn lemma_full_balance(pre: Refund, post: Refund)
    requires
        Refund::spec_process_post(pre, post, Ok(())),
    ensures
        spec_token_amount(post.accounts.maker_ata_a.data@) == spec_token_amount(
            pre.accounts.maker_ata_a.data@,
        ) + spec_token_amount(pre.accounts.vault.data@),
        post.accounts.vault.lamports == 0,
        post.accounts.vault.data@.len() == 0,
        post.accounts.maker.lamports == pre.accounts.maker.lamports
            + pre.accounts.vault.lamports + pre.accounts.escrow.lamports,
{
    let pre_data = pre.accounts.maker_ata_a.data@;
    let amount = (spec_token_amount(pre_data) + spec_token_amount(
        pre.accounts.vault.data@,
    )) as u64;
    crate::token::lemma_write_amount(pre_data, amount);
}

/// The role checks compose commutatively: whether the account array is
/// accepted does not depend on the order the checks run in — validation
/// succeeds exactly where every single check passes.  Only which error
/// surfaces first is fixed by the order.
pub proof fn lemma_validation_is_conjunction(accounts: Seq<Account>)
    requires
        accounts.len() == 8,
    ensures
        RefundAccounts::spec_validate(accounts) is Ok <==> {
            &&& SignerAccount::spec_check(accounts[0]) is Ok
            &&& ProgramAccount::spec_check(accounts[1]) is Ok
            &&& MintAccount::spec_check(accounts[2]) is Ok
            &&& AssociatedTokenAccount::spec_check(
                accounts[3],
                accounts[1].key@,
                accounts[2].key@,
                accounts[6].key@,
            ) is Ok
        },
{
}

/// Closure idempotence guard: once an escrow's storage has been released
/// back to the runtime, a refund presented with that account fails
/// validation — and where the maker did sign, the surfaced failure is the
/// owner mismatch.
pub proof fn lemma_no_double_refund_released(accounts: Seq<Account>)
    requires
        accounts.len() == 8,
        accounts[1].owner@ == SYSTEM_PROGRAM_ID@,
    ensures
        RefundAccounts::spec_validate(accounts) is Err,
        accounts[0].is_signer ==> RefundAccounts::spec_validate(accounts) == Err::<
            (),
            ProgramError,
        >(ProgramError::Custom(PinocchioError::InvalidOwner.spec_code())),
{
    assert(PROGRAM_ID@[0] == 1);
    assert(SYSTEM_PROGRAM_ID@[0] == 0);
}

/// Closure idempotence guard: an escrow account whose buffer no longer has
/// the record's length — as after the teardown's shrink — is rejected when
/// processed, never read as a live record.
pub proof fn lemma_no_double_refund_short_record(a: RefundAccounts)
    requires
        a.escrow.data@.len() != ESCROW_LEN,
    ensures
        Refund::spec_process_decision(a) == Err::<(), ProgramError>(
            ProgramError::InvalidAccountData,
        ),
{
}

/// Role rejection: a maker who did not sign is rejected with the
/// not-signer failure, before any other account is judged.
pub proof fn lemma_reject_non_signer(accounts: Seq<Account>)
    requires
        accounts.len() == 8,
        !accounts[0].is_signer,
    ensures
        RefundAccounts::spec_validate(accounts) == Err::<(), ProgramError>(
            ProgramError::Custom(PinocchioError::NotSigner.spec_code()),
        ),
{
}

/// Role rejection: a vault that does not stand at the derived
/// holding-account address for the escrow and the deposited mint is
/// rejected with the invalid-address failure, where the earlier role
/// checks pass.
pub proof fn lemma_reject_wrong_vault(accounts: Seq<Account>)
    requires
        accounts.len() == 8,
        SignerAccount::spec_check(accounts[0]) is Ok,
        ProgramAccount::spec_check(accounts[1]) is Ok,
        MintAccount::spec_check(accounts[2]) is Ok,
        match ata_address_of(accounts[1].key@, accounts[6].key@, accounts[2].key@) {
            Some(p) => accounts[3].key@ != p.0,
            None => true,
        },
    ensures
        RefundAccounts::spec_validate(accounts) == Err::<(), ProgramError>(
            ProgramError::Custom(PinocchioError::InvalidAddress.spec_code()),
        ),
{
}

} // verus!
