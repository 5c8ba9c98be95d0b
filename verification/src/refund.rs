use vstd::prelude::*;

use crate::account::Account;
use crate::accounts::{
    spec_rent_exempt_minimum, AccountCheck, AccountClose, AssociatedTokenAccount, MintAccount,
    ProgramAccount, SignerAccount,
};
use crate::error::ProgramError;
use crate::escrow::{spec_record_bump, spec_record_seed, Escrow, ESCROW_LEN};
use crate::pda::spec_verify_derivation;
use crate::token::{
    close_token_account, read_token_amount, spec_is_token_account, spec_token_account_bytes,
    spec_token_amount, spec_write_amount, write_token_amount, TOKEN_ACCOUNT_LEN,
};

verus! {

/// The instruction's discriminator byte: the tag under which the refund
/// instruction is multiplexed on the program's entry point.
pub const REFUND_DISCRIMINATOR: u8 = 2;

/// The validated account bundle of one refund invocation, in the
/// instruction's fixed positional order:
///
/// * `maker`: the creator of the escrow; must sign.
/// * `escrow`: the record account; must be owned by this program.
/// * `mint_a`: the deposited asset's mint.
/// * `vault`: the escrow's associated holding account for asset A.
/// * `maker_ata_a`: the maker's associated holding account for asset A.
/// * `system_program` and `token_program`: the invoked programs.
pub struct RefundAccounts {
    pub maker: Account,
    pub escrow: Account,
    pub mint_a: Account,
    pub vault: Account,
    pub maker_ata_a: Account,
    pub system_program: Account,
    pub token_program: Account,
}

impl RefundAccounts {
    /// The bundle holds exactly the first seven accounts of the array.
    pub open spec fn spec_from(self, accounts: Seq<Account>) -> bool {
        &&& self.maker == accounts[0]
        &&& self.escrow == accounts[1]
        &&& self.mint_a == accounts[2]
        &&& self.vault == accounts[3]
        &&& self.maker_ata_a == accounts[4]
        &&& self.system_program == accounts[5]
        &&& self.token_program == accounts[6]
    }

    /// What validating the account array decides, checks in order: the
    /// array's length, the maker's signature, the escrow's owner, the
    /// mint's shape, and the vault's derived address and owner.  The first
    /// failing check's error surfaces.
    pub open spec fn spec_validate(accounts: Seq<Account>) -> Result<(), ProgramError> {
        if accounts.len() != 8 {
            Err(ProgramError::NotEnoughAccountKeys)
        } else if SignerAccount::spec_check(accounts[0]) is Err {
            SignerAccount::spec_check(accounts[0])
        } else if ProgramAccount::spec_check(accounts[1]) is Err {
            ProgramAccount::spec_check(accounts[1])
        } else if MintAccount::spec_check(accounts[2]) is Err {
            MintAccount::spec_check(accounts[2])
        } else if AssociatedTokenAccount::spec_check(
            accounts[3],
            accounts[1].key@,
            accounts[2].key@,
            accounts[6].key@,
        ) is Err {
            AssociatedTokenAccount::spec_check(
                accounts[3],
                accounts[1].key@,
                accounts[2].key@,
                accounts[6].key@,
            )
        } else {
            Ok(())
        }
    }

    /// Validates the account array and takes ownership of its accounts as
    /// a bundle.  No account is mutated; a failure reports the first
    /// failing check.
    pub fn try_from(accounts: Vec<Account>) -> (r: Result<RefundAccounts, ProgramError>)
        ensures
            match r {
                Ok(b) => Self::spec_validate(accounts@) == Ok::<(), ProgramError>(())
                    && b.spec_from(accounts@),
                Err(e) => Self::spec_validate(accounts@) == Err::<(), ProgramError>(e),
            },
    {
        if accounts.len() != 8 {
            return Err(ProgramError::NotEnoughAccountKeys);
        }
        if let Err(e) = SignerAccount::check(&accounts[0]) {
            return Err(e);
        }
        if let Err(e) = ProgramAccount::check(&accounts[1]) {
            return Err(e);
        }
        if let Err(e) = MintAccount::check(&accounts[2]) {
            return Err(e);
        }
        if let Err(e) = AssociatedTokenAccount::check(
            &accounts[3],
            &accounts[1],
            &accounts[2],
            &accounts[6],
        ) {
            return Err(e);
        }
        let mut accounts = accounts;
        let maker = accounts.remove(0);
        let escrow = accounts.remove(0);
        let mint_a = accounts.remove(0);
        let vault = accounts.remove(0);
        let maker_ata_a = accounts.remove(0);
        let system_program = accounts.remove(0);
        let token_program = accounts.remove(0);
        Ok(RefundAccounts { maker, escrow, mint_a, vault, maker_ata_a, system_program, token_program })
    }
}

/// One refund invocation: the validated bundle, ready for processing.
pub struct Refund {
    pub accounts: RefundAccounts,
}

impl Refund {
    /// How the maker and their holding account may change while the bundle
    /// is built: untouched where the holding account already passes its
    /// role check, otherwise created fresh at its derived address and
    /// funded by the maker.
    pub open spec fn spec_after_init(
        pre_ata: Account,
        pre_payer: Account,
        post_ata: Account,
        post_payer: Account,
        mint_key: Seq<u8>,
        token_program_key: Seq<u8>,
    ) -> bool {
        if AssociatedTokenAccount::spec_check(
            pre_ata,
            pre_payer.key@,
            mint_key,
            token_program_key,
        ) is Ok {
            post_ata == pre_ata && post_payer == pre_payer
        } else {
            &&& post_payer.lamports == pre_payer.lamports - spec_rent_exempt_minimum(
                TOKEN_ACCOUNT_LEN as nat,
            )
            &&& post_payer.key == pre_payer.key
            &&& post_payer.owner == pre_payer.owner
            &&& post_payer.is_signer == pre_payer.is_signer
            &&& post_payer.executable == pre_payer.executable
            &&& post_payer.data == pre_payer.data
            &&& post_ata.data@ == spec_token_account_bytes(mint_key, pre_payer.key@, 0)
            &&& post_ata.owner@ == token_program_key
            &&& post_ata.lamports == pre_ata.lamports + spec_rent_exempt_minimum(
                TOKEN_ACCOUNT_LEN as nat,
            )
            &&& post_ata.key == pre_ata.key
            &&& post_ata.is_signer == pre_ata.is_signer
            &&& post_ata.executable == pre_ata.executable
        }
    }

    /// What building the bundle decides: the validation's decision, then
    /// the decision of ensuring the maker's holding account exists.
    pub open spec fn spec_try_from_result(accounts: Seq<Account>) -> Result<(), ProgramError> {
        match RefundAccounts::spec_validate(accounts) {
            Err(e) => Err(e),
            Ok(()) => AssociatedTokenAccount::spec_init_if_needed_result(
                accounts[4],
                accounts[2].key@,
                accounts[0],
                accounts[0].key@,
                accounts[6].key@,
            ),
        }
    }

    /// Validates the account array and ensures the maker's holding account
    /// for asset A exists, creating it funded by the maker where absent.
    /// Besides that possible creation, no account is mutated.
    pub fn try_from(accounts: Vec<Account>) -> (r: Result<Refund, ProgramError>)
        requires
            accounts@.len() == 8 ==> accounts@[4].lamports + spec_rent_exempt_minimum(
                TOKEN_ACCOUNT_LEN as nat,
            ) <= u64::MAX,
        ensures
            match r {
                Ok(b) => {
                    &&& Self::spec_try_from_result(accounts@) == Ok::<(), ProgramError>(())
                    &&& b.accounts.escrow == accounts@[1]
                    &&& b.accounts.mint_a == accounts@[2]
                    &&& b.accounts.vault == accounts@[3]
                    &&& b.accounts.system_program == accounts@[5]
                    &&& b.accounts.token_program == accounts@[6]
                    &&& Self::spec_after_init(
                        accounts@[4],
                        accounts@[0],
                        b.accounts.maker_ata_a,
                        b.accounts.maker,
                        accounts@[2].key@,
                        accounts@[6].key@,
                    )
                },
                Err(e) => Self::spec_try_from_result(accounts@) == Err::<(), ProgramError>(e),
            },
    {
        let mut bundle = match RefundAccounts::try_from(accounts) {
            Ok(b) => b,
            Err(e) => {
                return Err(e);
            },
        };
        let wallet_key = bundle.maker.key;
        if let Err(e) = AssociatedTokenAccount::init_if_needed(
            &mut bundle.maker_ata_a,
            &bundle.mint_a,
            &mut bundle.maker,
            &wallet_key,
            &bundle.token_program,
        ) {
            return Err(e);
        }
        Ok(Refund { accounts: bundle })
    }

    /// What processing the bundle decides, checks in order: the escrow
    /// record's length, the re-derivation of the escrow's address from the
    /// record's seed material and the maker's address, the vault's and the
    /// maker's holding-account shapes, and that the refunded balance still
    /// fits the destination's counter.
    pub open spec fn spec_process_decision(a: RefundAccounts) -> Result<(), ProgramError> {
        if a.escrow.data@.len() != ESCROW_LEN {
            Err(ProgramError::InvalidAccountData)
        } else {
            let seed = spec_record_seed(a.escrow.data@);
            let bump = spec_record_bump(a.escrow.data@);
            match spec_verify_derivation(a.maker.key@, seed, bump, a.escrow.key@) {
                Err(e) => Err(e),
                Ok(()) => if !spec_is_token_account(a.vault) {
                    Err(ProgramError::InvalidAccountData)
                } else if !spec_is_token_account(a.maker_ata_a) {
                    Err(ProgramError::InvalidAccountData)
                } else if spec_token_amount(a.maker_ata_a.data@) + spec_token_amount(a.vault.data@)
                    > u64::MAX {
                    Err(ProgramError::ArithmeticOverflow)
                } else {
                    Ok(())
                },
            }
        }
    }

    /// How a successful refund rewrites the bundle: the maker's holding
    /// account gains exactly the vault's recorded balance, the vault and
    /// the escrow are closed, and every swept balance reaches the maker.
    pub open spec fn spec_process_apply(pre: RefundAccounts, post: RefundAccounts) -> bool {
        let vault_amount = spec_token_amount(pre.vault.data@);
        let ata_amount = spec_token_amount(pre.maker_ata_a.data@);
        &&& post.maker_ata_a.data@ == spec_write_amount(
            pre.maker_ata_a.data@,
            (ata_amount + vault_amount) as u64,
        )
        &&& post.maker_ata_a.key == pre.maker_ata_a.key
        &&& post.maker_ata_a.owner == pre.maker_ata_a.owner
        &&& post.maker_ata_a.lamports == pre.maker_ata_a.lamports
        &&& post.maker_ata_a.is_signer == pre.maker_ata_a.is_signer
        &&& post.maker_ata_a.executable == pre.maker_ata_a.executable
        &&& post.vault.spec_closed_from(pre.vault)
        &&& post.escrow.spec_closed_from(pre.escrow)
        &&& post.maker.lamports == pre.maker.lamports + pre.vault.lamports + pre.escrow.lamports
        &&& post.maker.key == pre.maker.key
        &&& post.maker.owner == pre.maker.owner
        &&& post.maker.is_signer == pre.maker.is_signer
        &&& post.maker.executable == pre.maker.executable
        &&& post.maker.data == pre.maker.data
        &&& post.mint_a == pre.mint_a
        &&& post.system_program == pre.system_program
        &&& post.token_program == pre.token_program
    }

    /// The whole contract of one processing step: on failure the decision's
    /// error surfaces and no account changes; on success the bundle is
    /// rewritten as a refund.
    pub open spec fn spec_process_post(
        pre: Refund,
        post: Refund,
        r: Result<(), ProgramError>,
    ) -> bool {
        match r {
            Ok(()) => Self::spec_process_decision(pre.accounts) == Ok::<(), ProgramError>(())
                && Self::spec_process_apply(pre.accounts, post.accounts),
            Err(e) => Self::spec_process_decision(pre.accounts) == Err::<(), ProgramError>(e)
                && post == pre,
        }
    }

    /// Processes the refund: loads the escrow record, re-derives and checks
    /// the escrow's address, moves the vault's whole recorded balance to
    /// the maker's holding account, then closes vault and escrow, sweeping
    /// their balances to the maker.  Any failure leaves every account
    /// exactly as it was.
    pub fn process(&mut self) -> (r: Result<(), ProgramError>)
        requires
            old(self).accounts.maker.lamports + old(self).accounts.vault.lamports + old(
                self,
            ).accounts.escrow.lamports <= u64::MAX,
        ensures
            Self::spec_process_post(*old(self), *final(self), r),
    {
        let (seed, bump) = match Escrow::load(self.accounts.escrow.data.as_slice()) {
            Err(e) => {
                return Err(e);
            },
            Ok(record) => {
                proof {
                    crate::escrow::lemma_record_fields(record);
                }
                (record.seed, record.bump)
            },
        };
        if let Err(e) = crate::pda::verify_escrow_derivation(
            &self.accounts.maker.key,
            seed,
            bump,
            &self.accounts.escrow.key,
        ) {
            return Err(e);
        }
        let vault_amount = match read_token_amount(&self.accounts.vault) {
            Err(e) => {
                return Err(e);
            },
            Ok(v) => v,
        };
        let ata_amount = match read_token_amount(&self.accounts.maker_ata_a) {
            Err(e) => {
                return Err(e);
            },
            Ok(v) => v,
        };
        if ata_amount > u64::MAX - vault_amount {
            return Err(ProgramError::ArithmeticOverflow);
        }
        // Every check has passed: from here on the unit of work runs to
        // completion, so partial execution is never observable.
        write_token_amount(&mut self.accounts.vault.data, 0);
        write_token_amount(&mut self.accounts.maker_ata_a.data, ata_amount + vault_amount);
        proof {
            crate::token::lemma_write_amount(old(self).accounts.vault.data@, 0);
        }
        close_token_account(&mut self.accounts.vault, &mut self.accounts.maker);
        let close_result = ProgramAccount::close(
            &mut self.accounts.escrow,
            &mut self.accounts.maker,
        );
        if let Err(e) = close_result {
            return Err(e);
        }
        Ok(())
    }
}

} // verus!
