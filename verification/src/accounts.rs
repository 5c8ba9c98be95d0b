use vstd::prelude::*;

use crate::account::Account;
use crate::addresses::{address_eq, Address, PROGRAM_ID, SYSTEM_PROGRAM_ID, TOKEN_PROGRAM_ID};
use crate::error::{PinocchioError, ProgramError};
use crate::pda::{ata_address_of, pda_of};
use crate::token::{spec_token_account_bytes, token_account_bytes, MINT_LEN, TOKEN_ACCOUNT_LEN};

verus! {

/// A role that an account can be checked against: each implementor asserts
/// one semantic capability of an opaque account reference, with no side
/// effect besides its failure signal.
pub trait AccountCheck {
    fn check(account: &Account) -> Result<(), ProgramError>;
}

/// Destructive teardown of a program-owned record: invalidate the record,
/// sweep its whole balance to a destination, release the storage.
pub trait AccountClose {
    fn close(account: &mut Account, destination: &mut Account) -> (r: Result<(), ProgramError>)
        requires
            old(account).data@.len() >= 1,
            old(destination).lamports + old(account).lamports <= u64::MAX,
        ensures
            r == Ok::<(), ProgramError>(()),
            final(account).spec_closed_from(*old(account)),
            final(destination).lamports == old(destination).lamports + old(account).lamports,
            final(destination).key == old(destination).key,
            final(destination).owner == old(destination).owner,
            final(destination).is_signer == old(destination).is_signer,
            final(destination).executable == old(destination).executable,
            final(destination).data == old(destination).data,
    ;
}

/// The role of a transaction-level signer.
pub struct SignerAccount;

impl SignerAccount {
    /// What check-signer decides for an account.
    pub open spec fn spec_check(a: Account) -> Result<(), ProgramError> {
        if a.is_signer {
            Ok(())
        } else {
            Err(ProgramError::Custom(PinocchioError::NotSigner.spec_code()))
        }
    }
}

impl AccountCheck for SignerAccount {
    fn check(account: &Account) -> (r: Result<(), ProgramError>)
        ensures
            r == SignerAccount::spec_check(*account),
    {
        if !account.is_signer {
            return Err(ProgramError::from(PinocchioError::NotSigner));
        }
        Ok(())
    }
}

/// The role of a mint record of the asset-ledger program.
pub struct MintAccount;

impl MintAccount {
    /// What check-mint decides for an account: the asset-ledger program
    /// must own it and its record must have the fixed mint length.
    pub open spec fn spec_check(a: Account) -> Result<(), ProgramError> {
        if a.owner@ != TOKEN_PROGRAM_ID@ {
            Err(ProgramError::Custom(PinocchioError::InvalidOwner.spec_code()))
        } else if a.data@.len() != MINT_LEN {
            Err(ProgramError::Custom(PinocchioError::InvalidAccountData.spec_code()))
        } else {
            Ok(())
        }
    }
}

impl AccountCheck for MintAccount {
    fn check(account: &Account) -> (r: Result<(), ProgramError>)
        ensures
            r == MintAccount::spec_check(*account),
    {
        if !address_eq(&account.owner, &TOKEN_PROGRAM_ID) {
            return Err(ProgramError::from(PinocchioError::InvalidOwner));
        }
        if account.data.len() != MINT_LEN {
            return Err(ProgramError::from(PinocchioError::InvalidAccountData));
        }
        Ok(())
    }
}

/// The role of a record account owned by this program.
pub struct ProgramAccount;

impl ProgramAccount {
    /// What check-program-owned decides for an account: this program must
    /// own it.  A length check is deliberately not part of this role; each
    /// record type enforces its own size when it is loaded.
    pub open spec fn spec_check(a: Account) -> Result<(), ProgramError> {
        if a.owner@ == PROGRAM_ID@ {
            Ok(())
        } else {
            Err(ProgramError::Custom(PinocchioError::InvalidOwner.spec_code()))
        }
    }
}

impl AccountCheck for ProgramAccount {
    fn check(account: &Account) -> (r: Result<(), ProgramError>)
        ensures
            r == ProgramAccount::spec_check(*account),
    {
        if !address_eq(&account.owner, &PROGRAM_ID) {
            return Err(ProgramError::from(PinocchioError::InvalidOwner));
        }
        Ok(())
    }
}

impl AccountClose for ProgramAccount {
    fn close(account: &mut Account, destination: &mut Account) -> (r: Result<(), ProgramError>) {
        // The sentinel is written before any balance moves, so that an
        // interrupted teardown can never leave a live-looking record.
        account.data.set(0, 0xff);
        let total = destination.lamports + account.lamports;
        destination.lamports = total;
        account.lamports = 0;
        account.data.truncate(1);
        account.data.truncate(0);
        account.owner = SYSTEM_PROGRAM_ID;
        Ok(())
    }
}

/// The ledger's default storage-rent schedule: cost of one byte-year.
pub const LAMPORTS_PER_BYTE_YEAR: u64 = 3480;

/// The ledger's default storage-rent schedule: years of cost an account
/// must hold to be exempt.
pub const EXEMPTION_THRESHOLD_YEARS: u64 = 2;

/// The ledger's default storage-rent schedule: bytes charged on top of an
/// account's own data.
pub const ACCOUNT_STORAGE_OVERHEAD: u64 = 128;

/// The largest data size an account can be created with.
pub const MAX_ACCOUNT_DATA_LEN: usize = 10_485_760;

/// The minimum balance at which an account of the given byte size persists
/// indefinitely, under the ledger's default storage-rent schedule.
pub open spec fn spec_rent_exempt_minimum(space: nat) -> nat {
    ((ACCOUNT_STORAGE_OVERHEAD + space) * LAMPORTS_PER_BYTE_YEAR
        * EXEMPTION_THRESHOLD_YEARS) as nat
}

pub fn rent_exempt_minimum(space: usize) -> (r: u64)
    requires
        space <= MAX_ACCOUNT_DATA_LEN,
    ensures
        r == spec_rent_exempt_minimum(space as nat),
{
    (ACCOUNT_STORAGE_OVERHEAD + space as u64) * LAMPORTS_PER_BYTE_YEAR * EXEMPTION_THRESHOLD_YEARS
}

/// A zero-filled buffer of the given length.
fn zero_vec(n: usize) -> (r: Vec<u8>)
    ensures
        r@ == Seq::new(n as nat, |i: int| 0u8),
{
    let mut r: Vec<u8> = Vec::new();
    let mut i: usize = 0;
    while i < n
        invariant
            i <= n,
            r@ == Seq::new(i as nat, |k: int| 0u8),
        decreases n - i,
    {
        r.push(0);
        proof {
            assert(r@ =~= Seq::new((i + 1) as nat, |k: int| 0u8));
        }
        i = i + 1;
    }
    r
}

impl ProgramAccount {
    /// What creating a program-owned account decides: the supplied seeds
    /// must derive the new account's own address, and the payer must cover
    /// the rent-exempt minimum for the requested size.
    pub open spec fn spec_init_result(
        payer: Account,
        account: Account,
        seeds: Seq<Seq<u8>>,
        space: nat,
    ) -> Result<(), ProgramError> {
        if pda_of(seeds, PROGRAM_ID@) != Some(account.key@) {
            Err(ProgramError::InvalidSeeds)
        } else if payer.lamports < spec_rent_exempt_minimum(space) {
            Err(ProgramError::InsufficientFunds)
        } else {
            Ok(())
        }
    }
}

/// Creation of a program-owned account with rent-exempt funding under a
/// seed-derived authority.
pub trait ProgramAccountInit {
    fn init(
        payer: &mut Account,
        account: &mut Account,
        seeds: &Vec<Vec<u8>>,
        space: usize,
    ) -> (r: Result<(), ProgramError>)
        requires
            old(account).owner@ == SYSTEM_PROGRAM_ID@,
            old(account).data@.len() == 0,
            space <= MAX_ACCOUNT_DATA_LEN,
            old(account).lamports + spec_rent_exempt_minimum(space as nat) <= u64::MAX,
        ensures
            r == ProgramAccount::spec_init_result(
                *old(payer),
                *old(account),
                seeds.deep_view(),
                space as nat,
            ),
            r is Err ==> *final(payer) == *old(payer) && *final(account) == *old(account),
            r is Ok ==> {
                &&& final(payer).lamports == old(payer).lamports - spec_rent_exempt_minimum(
                    space as nat,
                )
                &&& final(payer).key == old(payer).key
                &&& final(payer).owner == old(payer).owner
                &&& final(payer).is_signer == old(payer).is_signer
                &&& final(payer).executable == old(payer).executable
                &&& final(payer).data == old(payer).data
                &&& final(account).lamports == old(account).lamports + spec_rent_exempt_minimum(
                    space as nat,
                )
                &&& final(account).owner@ == PROGRAM_ID@
                &&& final(account).data@ == Seq::new(space as nat, |i: int| 0u8)
                &&& final(account).key == old(account).key
                &&& final(account).is_signer == old(account).is_signer
                &&& final(account).executable == old(account).executable
            },
    ;
}

impl ProgramAccountInit for ProgramAccount {
    fn init(
        payer: &mut Account,
        account: &mut Account,
        seeds: &Vec<Vec<u8>>,
        space: usize,
    ) -> (r: Result<(), ProgramError>) {
        let matches_seeds = match crate::pda::create_program_address_bytes(seeds, &PROGRAM_ID) {
            Some(derived) => address_eq(&derived, &account.key),
            None => false,
        };
        if !matches_seeds {
            return Err(ProgramError::InvalidSeeds);
        }
        let lamports = rent_exempt_minimum(space);
        if payer.lamports < lamports {
            return Err(ProgramError::InsufficientFunds);
        }
        payer.lamports = payer.lamports - lamports;
        account.lamports = account.lamports + lamports;
        account.owner = PROGRAM_ID;
        account.data = zero_vec(space);
        Ok(())
    }
}

/// The role of the deterministic per-(owner, mint) holding account.
pub struct AssociatedTokenAccount;

impl AssociatedTokenAccount {
    /// What check-associated-holding-account decides: the account's address
    /// must equal the deterministic derivation for the wallet and the mint
    /// under the asset program, and the asset program must own it.
    pub open spec fn spec_check(
        account: Account,
        wallet_key: Seq<u8>,
        mint_key: Seq<u8>,
        token_program_key: Seq<u8>,
    ) -> Result<(), ProgramError> {
        match ata_address_of(wallet_key, token_program_key, mint_key) {
            None => Err(ProgramError::Custom(PinocchioError::InvalidAddress.spec_code())),
            Some(p) => if account.key@ != p.0 {
                Err(ProgramError::Custom(PinocchioError::InvalidAddress.spec_code()))
            } else if account.owner@ != token_program_key {
                Err(ProgramError::Custom(PinocchioError::InvalidOwner.spec_code()))
            } else {
                Ok(())
            },
        }
    }

    /// The role check against the wallet's address alone, for callers that
    /// hold the wallet's address but not its account.
    pub fn check_keys(
        account: &Account,
        wallet_key: &Address,
        mint: &Account,
        token_program: &Account,
    ) -> (r: Result<(), ProgramError>)
        ensures
            r == AssociatedTokenAccount::spec_check(
                *account,
                wallet_key@,
                mint.key@,
                token_program.key@,
            ),
    {
        match crate::pda::derive_associated_token_address(
            wallet_key,
            &token_program.key,
            &mint.key,
        ) {
            None => Err(ProgramError::from(PinocchioError::InvalidAddress)),
            Some(p) => {
                if !address_eq(&account.key, &p.0) {
                    Err(ProgramError::from(PinocchioError::InvalidAddress))
                } else if !address_eq(&account.owner, &token_program.key) {
                    Err(ProgramError::from(PinocchioError::InvalidOwner))
                } else {
                    Ok(())
                }
            },
        }
    }

    pub fn check(
        account: &Account,
        wallet: &Account,
        mint: &Account,
        token_program: &Account,
    ) -> (r: Result<(), ProgramError>)
        ensures
            r == AssociatedTokenAccount::spec_check(
                *account,
                wallet.key@,
                mint.key@,
                token_program.key@,
            ),
    {
        Self::check_keys(account, &wallet.key, mint, token_program)
    }

    /// Whether an account is still untouched: no data, still owned by the
    /// system program, so that the creation path may claim it.
    pub open spec fn spec_fresh(account: Account) -> bool {
        &&& account.owner@ == SYSTEM_PROGRAM_ID@
        &&& account.data@.len() == 0
    }

    /// What creating the holding account decides: the account must stand at
    /// its derived address, be untouched, and the payer must cover the
    /// rent-exempt minimum of a holding-account record.
    pub open spec fn spec_create_result(
        account: Account,
        mint_key: Seq<u8>,
        payer: Account,
        wallet_key: Seq<u8>,
        token_program_key: Seq<u8>,
    ) -> Result<(), ProgramError> {
        match ata_address_of(wallet_key, token_program_key, mint_key) {
            None => Err(ProgramError::InvalidSeeds),
            Some(p) => if account.key@ != p.0 {
                Err(ProgramError::InvalidSeeds)
            } else if !Self::spec_fresh(account) {
                Err(ProgramError::AccountAlreadyInitialized)
            } else if payer.lamports < spec_rent_exempt_minimum(TOKEN_ACCOUNT_LEN as nat) {
                Err(ProgramError::InsufficientFunds)
            } else {
                Ok(())
            },
        }
    }

    /// Creates the holding account at its derived address, funded by the
    /// payer, with a fresh record holding no balance.
    pub fn init(
        account: &mut Account,
        mint: &Account,
        payer: &mut Account,
        wallet_key: &Address,
        token_program: &Account,
    ) -> (r: Result<(), ProgramError>)
        requires
            old(account).lamports + spec_rent_exempt_minimum(TOKEN_ACCOUNT_LEN as nat)
                <= u64::MAX,
        ensures
            r == AssociatedTokenAccount::spec_create_result(
                *old(account),
                mint.key@,
                *old(payer),
                wallet_key@,
                token_program.key@,
            ),
            r is Err ==> *final(payer) == *old(payer) && *final(account) == *old(account),
            r is Ok ==> {
                &&& final(payer).lamports == old(payer).lamports - spec_rent_exempt_minimum(
                    TOKEN_ACCOUNT_LEN as nat,
                )
                &&& final(payer).key == old(payer).key
                &&& final(payer).owner == old(payer).owner
                &&& final(payer).is_signer == old(payer).is_signer
                &&& final(payer).executable == old(payer).executable
                &&& final(payer).data == old(payer).data
                &&& final(account).lamports == old(account).lamports + spec_rent_exempt_minimum(
                    TOKEN_ACCOUNT_LEN as nat,
                )
                &&& final(account).owner@ == token_program.key@
                &&& final(account).data@ == spec_token_account_bytes(mint.key@, wallet_key@, 0)
                &&& final(account).key == old(account).key
                &&& final(account).is_signer == old(account).is_signer
                &&& final(account).executable == old(account).executable
            },
    {
        let at_derived_address = match crate::pda::derive_associated_token_address(
            wallet_key,
            &token_program.key,
            &mint.key,
        ) {
            Some(p) => address_eq(&account.key, &p.0),
            None => false,
        };
        if !at_derived_address {
            return Err(ProgramError::InvalidSeeds);
        }
        if !(address_eq(&account.owner, &SYSTEM_PROGRAM_ID) && account.data.len() == 0) {
            return Err(ProgramError::AccountAlreadyInitialized);
        }
        let lamports = rent_exempt_minimum(TOKEN_ACCOUNT_LEN);
        if payer.lamports < lamports {
            return Err(ProgramError::InsufficientFunds);
        }
        payer.lamports = payer.lamports - lamports;
        account.lamports = account.lamports + lamports;
        account.owner = token_program.key;
        account.data = token_account_bytes(&mint.key, wallet_key, 0);
        Ok(())
    }

    /// What ensuring the holding account exists decides: nothing to do where
    /// the account already passes its role check, otherwise the creation's
    /// own decision.
    pub open spec fn spec_init_if_needed_result(
        account: Account,
        mint_key: Seq<u8>,
        payer: Account,
        wallet_key: Seq<u8>,
        token_program_key: Seq<u8>,
    ) -> Result<(), ProgramError> {
        if Self::spec_check(account, wallet_key, mint_key, token_program_key) is Ok {
            Ok(())
        } else {
            Self::spec_create_result(account, mint_key, payer, wallet_key, token_program_key)
        }
    }

    /// Ensures the holding account exists and is valid, creating it at its
    /// derived address (funded by the payer) where it is absent.
    pub fn init_if_needed(
        account: &mut Account,
        mint: &Account,
        payer: &mut Account,
        wallet_key: &Address,
        token_program: &Account,
    ) -> (r: Result<(), ProgramError>)
        requires
            old(account).lamports + spec_rent_exempt_minimum(TOKEN_ACCOUNT_LEN as nat)
                <= u64::MAX,
        ensures
            r == AssociatedTokenAccount::spec_init_if_needed_result(
                *old(account),
                mint.key@,
                *old(payer),
                wallet_key@,
                token_program.key@,
            ),
            r is Err ==> *final(payer) == *old(payer) && *final(account) == *old(account),
            AssociatedTokenAccount::spec_check(
                *old(account),
                wallet_key@,
                mint.key@,
                token_program.key@,
            ) is Ok ==> *final(payer) == *old(payer) && *final(account) == *old(account),
            r is Ok ==> AssociatedTokenAccount::spec_check(
                *final(account),
                wallet_key@,
                mint.key@,
                token_program.key@,
            ) is Ok,
            r is Ok && AssociatedTokenAccount::spec_check(
                *old(account),
                wallet_key@,
                mint.key@,
                token_program.key@,
            ) is Err ==> {
                &&& final(payer).lamports == old(payer).lamports - spec_rent_exempt_minimum(
                    TOKEN_ACCOUNT_LEN as nat,
                )
                &&& final(account).data@ == spec_token_account_bytes(mint.key@, wallet_key@, 0)
                &&& final(account).owner@ == token_program.key@
                &&& final(account).lamports == old(account).lamports + spec_rent_exempt_minimum(
                    TOKEN_ACCOUNT_LEN as nat,
                )
                &&& final(account).key == old(account).key
                &&& final(account).is_signer == old(account).is_signer
                &&& final(account).executable == old(account).executable
                &&& final(payer).key == old(payer).key
                &&& final(payer).owner == old(payer).owner
                &&& final(payer).is_signer == old(payer).is_signer
                &&& final(payer).executable == old(payer).executable
                &&& final(payer).data == old(payer).data
            },
    {
        match Self::check_keys(account, wallet_key, mint, token_program) {
            Ok(()) => Ok(()),
            Err(_) => Self::init(account, mint, payer, wallet_key, token_program),
        }
    }
}

} // verus!
