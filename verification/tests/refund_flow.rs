use pinocchio_escrow::account::Account;
use pinocchio_escrow::accounts::{
    rent_exempt_minimum, AccountClose, AssociatedTokenAccount, ProgramAccount, ProgramAccountInit,
};
use pinocchio_escrow::addresses::{Address, PROGRAM_ID, SYSTEM_PROGRAM_ID, TOKEN_PROGRAM_ID};
use pinocchio_escrow::error::ProgramError;
use pinocchio_escrow::escrow::Escrow;
use pinocchio_escrow::pda::{derive_associated_token_address, escrow_seed_vecs};
use pinocchio_escrow::refund::Refund;
use pinocchio_escrow::token::{read_token_amount, token_account_bytes, TOKEN_ACCOUNT_LEN};

const MAKER_KEY: Address = [7; 32];
const MINT_X: Address = [9; 32];
const MINT_Y: Address = [11; 32];
const SEED: u64 = 42;

fn plain_account(key: Address) -> Account {
    Account {
        key,
        owner: SYSTEM_PROGRAM_ID,
        is_signer: false,
        executable: false,
        lamports: 0,
        data: Vec::new(),
    }
}

fn find_escrow_pda(maker: &Address, seed: u64) -> (Address, u8) {
    let seed_bytes = seed.to_le_bytes();
    let (addr, bump) = solana_address::Address::try_find_program_address(
        &[b"escrow", maker.as_slice(), &seed_bytes],
        &solana_address::Address::new_from_array(PROGRAM_ID),
    )
    .expect("a bump must exist");
    (addr.to_bytes(), bump)
}

fn ata_key(wallet: &Address, mint: &Address) -> Address {
    derive_associated_token_address(wallet, &TOKEN_PROGRAM_ID, mint)
        .expect("a bump must exist")
        .0
}

/// The account array of the reference scenario: an escrow made with
/// `SEED` by `MAKER_KEY` for `MINT_X`, its vault holding 1_000 units, and
/// the maker's own holding account already existing with `ata_amount`.
fn scenario_accounts(ata_amount: u64) -> Vec<Account> {
    let (escrow_key, bump) = find_escrow_pda(&MAKER_KEY, SEED);

    let mut maker = plain_account(MAKER_KEY);
    maker.is_signer = true;
    maker.lamports = 10_000_000;

    let record = Escrow {
        seed: SEED,
        maker: MAKER_KEY,
        mint_a: MINT_X,
        mint_b: MINT_Y,
        receive_amount: 500,
        bump,
    };
    let mut escrow = plain_account(escrow_key);
    escrow.owner = PROGRAM_ID;
    escrow.lamports = rent_exempt_minimum(113);
    escrow.data = record.to_bytes();

    let mut mint_a = plain_account(MINT_X);
    mint_a.owner = TOKEN_PROGRAM_ID;
    mint_a.data = vec![0; 82];

    let mut vault = plain_account(ata_key(&escrow_key, &MINT_X));
    vault.owner = TOKEN_PROGRAM_ID;
    vault.lamports = rent_exempt_minimum(TOKEN_ACCOUNT_LEN);
    vault.data = token_account_bytes(&MINT_X, &escrow_key, 1_000);

    let mut maker_ata_a = plain_account(ata_key(&MAKER_KEY, &MINT_X));
    maker_ata_a.owner = TOKEN_PROGRAM_ID;
    maker_ata_a.lamports = rent_exempt_minimum(TOKEN_ACCOUNT_LEN);
    maker_ata_a.data = token_account_bytes(&MINT_X, &MAKER_KEY, ata_amount);

    let mut system_program = plain_account(SYSTEM_PROGRAM_ID);
    system_program.executable = true;

    let mut token_program = plain_account(TOKEN_PROGRAM_ID);
    token_program.executable = true;

    vec![
        maker,
        escrow,
        mint_a,
        vault,
        maker_ata_a,
        system_program,
        token_program,
        plain_account([0; 32]),
    ]
}

#[test]
fn refund_success_scenario() {
    let accounts = scenario_accounts(0);
    let maker_before = accounts[0].lamports;
    let vault_rent = accounts[3].lamports;
    let escrow_rent = accounts[1].lamports;

    let mut refund = Refund::try_from(accounts).expect("validation must pass");
    refund.process().expect("the refund must go through");

    let a = &refund.accounts;
    assert_eq!(read_token_amount(&a.maker_ata_a), Ok(1_000));
    assert_eq!(a.vault.lamports, 0);
    assert!(a.vault.data.is_empty());
    assert_eq!(a.vault.owner, SYSTEM_PROGRAM_ID);
    assert_eq!(a.escrow.lamports, 0);
    assert!(a.escrow.data.is_empty());
    assert_eq!(a.escrow.owner, SYSTEM_PROGRAM_ID);
    assert_eq!(a.maker.lamports, maker_before + vault_rent + escrow_rent);
}

#[test]
fn refund_creates_missing_maker_holding_account() {
    let mut accounts = scenario_accounts(0);
    accounts[4] = plain_account(ata_key(&MAKER_KEY, &MINT_X));
    let maker_before = accounts[0].lamports;
    let vault_rent = accounts[3].lamports;
    let escrow_rent = accounts[1].lamports;
    let ata_rent = rent_exempt_minimum(TOKEN_ACCOUNT_LEN);

    let mut refund = Refund::try_from(accounts).expect("validation must pass");
    assert_eq!(refund.accounts.maker_ata_a.owner, TOKEN_PROGRAM_ID);
    assert_eq!(refund.accounts.maker_ata_a.lamports, ata_rent);
    assert_eq!(refund.accounts.maker.lamports, maker_before - ata_rent);

    refund.process().expect("the refund must go through");
    let a = &refund.accounts;
    assert_eq!(read_token_amount(&a.maker_ata_a), Ok(1_000));
    assert_eq!(
        a.maker.lamports,
        maker_before - ata_rent + vault_rent + escrow_rent
    );
}

#[test]
fn refund_accumulates_on_existing_balance() {
    let accounts = scenario_accounts(250);
    let mut refund = Refund::try_from(accounts).expect("validation must pass");
    refund.process().expect("the refund must go through");
    assert_eq!(read_token_amount(&refund.accounts.maker_ata_a), Ok(1_250));
}

#[test]
fn refund_rejects_foreign_escrow_owner() {
    let mut accounts = scenario_accounts(0);
    accounts[1].owner = [13; 32];
    assert_eq!(
        Refund::try_from(accounts).err(),
        Some(ProgramError::Custom(1))
    );
}

#[test]
fn refund_rejects_unsigned_maker() {
    let mut accounts = scenario_accounts(0);
    accounts[0].is_signer = false;
    assert_eq!(
        Refund::try_from(accounts).err(),
        Some(ProgramError::Custom(0))
    );
}

#[test]
fn refund_rejects_misplaced_vault() {
    let mut accounts = scenario_accounts(0);
    accounts[3].key = [2; 32];
    assert_eq!(
        Refund::try_from(accounts).err(),
        Some(ProgramError::Custom(3))
    );
}

#[test]
fn refund_rejects_vault_with_wrong_holder() {
    let mut accounts = scenario_accounts(0);
    accounts[3].owner = SYSTEM_PROGRAM_ID;
    assert_eq!(
        Refund::try_from(accounts).err(),
        Some(ProgramError::Custom(1))
    );
}

#[test]
fn refund_rejects_short_account_array() {
    let mut accounts = scenario_accounts(0);
    accounts.pop();
    accounts.pop();
    assert_eq!(
        Refund::try_from(accounts).err(),
        Some(ProgramError::NotEnoughAccountKeys)
    );
}

#[test]
fn refund_rejects_mint_of_wrong_size() {
    let mut accounts = scenario_accounts(0);
    accounts[2].data = vec![0; 10];
    assert_eq!(
        Refund::try_from(accounts).err(),
        Some(ProgramError::Custom(2))
    );
}

#[test]
fn refund_rejects_mint_of_wrong_owner() {
    let mut accounts = scenario_accounts(0);
    accounts[2].owner = SYSTEM_PROGRAM_ID;
    assert_eq!(
        Refund::try_from(accounts).err(),
        Some(ProgramError::Custom(1))
    );
}

#[test]
fn refund_rejects_forged_record() {
    let mut accounts = scenario_accounts(0);
    // A record claiming another seed cannot re-derive the account's address.
    let (_, bump) = find_escrow_pda(&MAKER_KEY, SEED);
    let forged = Escrow {
        seed: SEED + 1,
        maker: MAKER_KEY,
        mint_a: MINT_X,
        mint_b: MINT_Y,
        receive_amount: 500,
        bump,
    };
    accounts[1].data = forged.to_bytes();
    let mut refund = Refund::try_from(accounts).expect("validation must pass");
    assert!(matches!(
        refund.process(),
        Err(ProgramError::InvalidAccountOwner) | Err(ProgramError::InvalidSeeds)
    ));
    // Nothing moved: the vault still records its full balance.
    assert_eq!(read_token_amount(&refund.accounts.vault), Ok(1_000));
    assert_eq!(read_token_amount(&refund.accounts.maker_ata_a), Ok(0));
}

#[test]
fn refund_rejects_truncated_record() {
    let mut accounts = scenario_accounts(0);
    accounts[1].data.truncate(1);
    let mut refund = Refund::try_from(accounts).expect("validation must pass");
    assert_eq!(refund.process(), Err(ProgramError::InvalidAccountData));
    assert_eq!(read_token_amount(&refund.accounts.vault), Ok(1_000));
}

#[test]
fn refund_refuses_closed_escrow_again() {
    let accounts = scenario_accounts(0);
    let mut refund = Refund::try_from(accounts).expect("validation must pass");
    refund.process().expect("the refund must go through");

    let a = refund.accounts;
    let again = vec![
        a.maker,
        a.escrow,
        a.mint_a,
        a.vault,
        a.maker_ata_a,
        a.system_program,
        a.token_program,
        plain_account([0; 32]),
    ];
    // The released record is no longer owned by this program.
    assert_eq!(
        Refund::try_from(again).err(),
        Some(ProgramError::Custom(1))
    );
}

#[test]
fn refund_rejects_overflowing_destination() {
    let accounts = scenario_accounts(u64::MAX);
    let mut refund = Refund::try_from(accounts).expect("validation must pass");
    assert_eq!(refund.process(), Err(ProgramError::ArithmeticOverflow));
    assert_eq!(read_token_amount(&refund.accounts.vault), Ok(1_000));
}

#[test]
fn rent_schedule_values() {
    assert_eq!(rent_exempt_minimum(TOKEN_ACCOUNT_LEN), 2_039_280);
    assert_eq!(rent_exempt_minimum(113), 1_677_360);
}

#[test]
fn read_token_amount_rejects_foreign_holder() {
    let mut account = plain_account([4; 32]);
    account.data = token_account_bytes(&MINT_X, &MAKER_KEY, 77);
    assert_eq!(
        read_token_amount(&account),
        Err(ProgramError::InvalidAccountData)
    );
    account.owner = TOKEN_PROGRAM_ID;
    assert_eq!(read_token_amount(&account), Ok(77));
    account.data.truncate(100);
    assert_eq!(
        read_token_amount(&account),
        Err(ProgramError::InvalidAccountData)
    );
}

#[test]
fn program_account_close_tears_down() {
    let mut record = plain_account([21; 32]);
    record.owner = PROGRAM_ID;
    record.lamports = 5_000;
    record.data = vec![0xAA; 113];
    let mut destination = plain_account(MAKER_KEY);
    destination.lamports = 100;

    ProgramAccount::close(&mut record, &mut destination).unwrap();
    assert_eq!(record.lamports, 0);
    assert!(record.data.is_empty());
    assert_eq!(record.owner, SYSTEM_PROGRAM_ID);
    assert_eq!(destination.lamports, 5_100);
}

#[test]
fn program_account_init_creates_record() {
    let (escrow_key, bump) = find_escrow_pda(&MAKER_KEY, SEED);
    let seeds = escrow_seed_vecs(&MAKER_KEY, SEED, bump);
    let mut payer = plain_account(MAKER_KEY);
    payer.lamports = 10_000_000;
    let mut account = plain_account(escrow_key);

    ProgramAccount::init(&mut payer, &mut account, &seeds, 113).unwrap();
    assert_eq!(account.owner, PROGRAM_ID);
    assert_eq!(account.data, vec![0; 113]);
    assert_eq!(account.lamports, 1_677_360);
    assert_eq!(payer.lamports, 10_000_000 - 1_677_360);
}

#[test]
fn program_account_init_rejects_wrong_address() {
    let (_, bump) = find_escrow_pda(&MAKER_KEY, SEED);
    let seeds = escrow_seed_vecs(&MAKER_KEY, SEED, bump);
    let mut payer = plain_account(MAKER_KEY);
    payer.lamports = 10_000_000;
    let mut account = plain_account([2; 32]);
    assert_eq!(
        ProgramAccount::init(&mut payer, &mut account, &seeds, 113),
        Err(ProgramError::InvalidSeeds)
    );
    assert_eq!(payer.lamports, 10_000_000);
}

#[test]
fn program_account_init_rejects_poor_payer() {
    let (escrow_key, bump) = find_escrow_pda(&MAKER_KEY, SEED);
    let seeds = escrow_seed_vecs(&MAKER_KEY, SEED, bump);
    let mut payer = plain_account(MAKER_KEY);
    payer.lamports = 10;
    let mut account = plain_account(escrow_key);
    assert_eq!(
        ProgramAccount::init(&mut payer, &mut account, &seeds, 113),
        Err(ProgramError::InsufficientFunds)
    );
}

#[test]
fn ata_init_rejects_claimed_account() {
    let mut token_program = plain_account(TOKEN_PROGRAM_ID);
    token_program.executable = true;
    let mut mint = plain_account(MINT_X);
    mint.owner = TOKEN_PROGRAM_ID;
    mint.data = vec![0; 82];
    let mut payer = plain_account(MAKER_KEY);
    payer.lamports = 10_000_000;

    let mut account = plain_account(ata_key(&MAKER_KEY, &MINT_X));
    account.data = vec![1; 5];
    assert_eq!(
        AssociatedTokenAccount::init(&mut account, &mint, &mut payer, &MAKER_KEY, &token_program),
        Err(ProgramError::AccountAlreadyInitialized)
    );
    assert_eq!(payer.lamports, 10_000_000);
}
