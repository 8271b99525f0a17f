use anchor_escrow::account::Holding;
use anchor_escrow::address::Address;
use anchor_escrow::contexts::cancel::Cancel;
use anchor_escrow::contexts::exchange::Exchange;
use anchor_escrow::contexts::initialize::{Initialize, InitializeBumps};
use anchor_escrow::derivation::find_record_address;
use anchor_escrow::error::{ErrorKind, EscrowError};
use anchor_escrow::instruction::{Authority, TransferChecked};
use anchor_escrow::ledger::Ledger;
use anchor_escrow::states::Escrow;
use anchor_escrow::{cancel, exchange, initialize};

const SEED: u64 = 11;
const RENT: u64 = 10;

fn id(tag: u8) -> Address {
    Address::new([tag; 32])
}

struct Parties {
    program: Address,
    initializer: Address,
    taker: Address,
    mint_a: Address,
    mint_b: Address,
    escrow: Address,
    bump: u8,
}

fn parties() -> Parties {
    let program = id(9);
    let (escrow, bump) = find_record_address(&program, SEED).unwrap();
    Parties {
        program,
        initializer: id(1),
        taker: id(2),
        mint_a: id(3),
        mint_b: id(4),
        escrow,
        bump,
    }
}

/// Initializer holds 500 of A, taker holds `taker_b` of B; both wallets hold
/// 1000.
fn market(p: &Parties, taker_b: u64) -> Ledger {
    let mut ledger = Ledger::new(p.program, RENT);
    ledger.fund(p.initializer, 1_000).unwrap();
    ledger.fund(p.taker, 1_000).unwrap();
    ledger.register_mint(p.mint_a, 6).unwrap();
    ledger.register_mint(p.mint_b, 9).unwrap();
    ledger.create_token_account(&p.initializer, Holding::new(p.initializer, p.mint_a)).unwrap();
    ledger.create_token_account(&p.taker, Holding::new(p.taker, p.mint_b)).unwrap();
    ledger.mint_to(Holding::new(p.initializer, p.mint_a), 500).unwrap();
    ledger.mint_to(Holding::new(p.taker, p.mint_b), taker_b).unwrap();
    ledger
}

fn offer(p: &Parties) -> Initialize {
    Initialize {
        initializer: p.initializer,
        mint_a: p.mint_a,
        mint_b: p.mint_b,
        initializer_ata_a: Holding::new(p.initializer, p.mint_a),
        escrow: p.escrow,
        vault: Holding::new(p.escrow, p.mint_a),
    }
}

fn swap(p: &Parties) -> Exchange {
    Exchange {
        taker: p.taker,
        initializer: p.initializer,
        mint_a: p.mint_a,
        mint_b: p.mint_b,
        taker_ata_a: Holding::new(p.taker, p.mint_a),
        taker_ata_b: Holding::new(p.taker, p.mint_b),
        initializer_ata_b: Holding::new(p.initializer, p.mint_b),
        escrow: p.escrow,
        vault: Holding::new(p.escrow, p.mint_a),
    }
}

fn withdrawal(p: &Parties) -> Cancel {
    Cancel {
        initializer: p.initializer,
        mint_a: p.mint_a,
        initializer_ata_a: Holding::new(p.initializer, p.mint_a),
        escrow: p.escrow,
        vault: Holding::new(p.escrow, p.mint_a),
    }
}

/// All that a test can observe of the ledger around these parties.
fn observe(ledger: &Ledger, p: &Parties) -> Vec<Option<u64>> {
    let mut seen = Vec::new();
    for owner in [p.initializer, p.taker, p.escrow] {
        for mint in [p.mint_a, p.mint_b] {
            seen.push(ledger.balance(&Holding::new(owner, mint)));
            seen.push(ledger.token_account(&Holding::new(owner, mint)).map(|s| s.allowance));
        }
        seen.push(Some(ledger.native_balance(&owner)));
    }
    seen.push(ledger.record(&p.escrow).map(|r| r.initializer_amount));
    seen.push(ledger.record(&p.escrow).map(|r| r.taker_amount));
    seen
}

#[test]
fn initialize_locks_the_offered_amount() {
    let p = parties();
    let mut ledger = market(&p, 60);
    assert_eq!(initialize(&mut ledger, &offer(&p), SEED, 100, 50), Ok(()));
    assert_eq!(ledger.balance(&Holding::new(p.escrow, p.mint_a)), Some(100));
    assert_eq!(ledger.balance(&Holding::new(p.initializer, p.mint_a)), Some(400));
    assert_eq!(
        ledger.record(&p.escrow),
        Some(Escrow {
            seed: SEED,
            bump: p.bump,
            initializer: p.initializer,
            mint_a: p.mint_a,
            mint_b: p.mint_b,
            initializer_amount: 100,
            taker_amount: 50,
        })
    );
    // the initializer paid for the record and for the vault
    assert_eq!(ledger.native_balance(&p.initializer), 1_000 - RENT - 2 * RENT);
    assert_eq!(ledger.token_account(&Holding::new(p.escrow, p.mint_a)).unwrap().allowance, RENT);
    // nothing of the taker's moved
    assert_eq!(ledger.balance(&Holding::new(p.taker, p.mint_b)), Some(60));
    assert_eq!(ledger.native_balance(&p.taker), 1_000 - RENT);
}

#[test]
fn initialize_for_every_seed_locks_the_amount() {
    for seed in [0u64, 1, 255, 256, 1 << 40, u64::MAX] {
        let mut p = parties();
        let (escrow, bump) = find_record_address(&p.program, seed).unwrap();
        p.escrow = escrow;
        p.bump = bump;
        let mut ledger = market(&p, 0);
        assert_eq!(initialize(&mut ledger, &offer(&p), seed, 500, 1), Ok(()));
        assert_eq!(ledger.balance(&Holding::new(p.escrow, p.mint_a)), Some(500));
        assert_eq!(ledger.balance(&Holding::new(p.initializer, p.mint_a)), Some(0));
        assert_eq!(ledger.record(&p.escrow).unwrap().seed, seed);
        assert_eq!(ledger.record(&p.escrow).unwrap().bump, bump);
    }
}

#[test]
fn initialize_without_funds_leaves_no_trace() {
    let p = parties();
    let mut ledger = market(&p, 60);
    let before = observe(&ledger, &p);
    assert_eq!(
        initialize(&mut ledger, &offer(&p), SEED, 501, 50),
        Err(EscrowError::InsufficientFunds)
    );
    assert_eq!(observe(&ledger, &p), before);
    assert_eq!(ledger.record(&p.escrow), None);
    assert_eq!(ledger.balance(&Holding::new(p.escrow, p.mint_a)), None);
    assert_eq!(EscrowError::InsufficientFunds.kind(), ErrorKind::Balance);
}

#[test]
fn initialize_twice_with_one_seed_is_refused() {
    let p = parties();
    let mut ledger = market(&p, 60);
    initialize(&mut ledger, &offer(&p), SEED, 100, 50).unwrap();
    let before = observe(&ledger, &p);
    assert_eq!(initialize(&mut ledger, &offer(&p), SEED, 100, 50), Err(EscrowError::RecordExists));
    assert_eq!(observe(&ledger, &p), before);
    assert_eq!(EscrowError::RecordExists.kind(), ErrorKind::State);
}

#[test]
fn initialize_refusals() {
    let p = parties();
    let fresh = || market(&p, 60);

    let mut wrong_address = offer(&p);
    wrong_address.escrow = id(5);
    wrong_address.vault = Holding::new(id(5), p.mint_a);
    assert_eq!(
        initialize(&mut fresh(), &wrong_address, SEED, 100, 50),
        Err(EscrowError::DerivationMismatch)
    );
    // the address of another seed is not this seed's address
    assert_eq!(
        initialize(&mut fresh(), &offer(&p), SEED + 1, 100, 50),
        Err(EscrowError::DerivationMismatch)
    );

    let mut unknown_a = offer(&p);
    unknown_a.mint_a = id(7);
    assert_eq!(initialize(&mut fresh(), &unknown_a, SEED, 100, 50), Err(EscrowError::UnknownMint));
    let mut unknown_b = offer(&p);
    unknown_b.mint_b = id(7);
    assert_eq!(initialize(&mut fresh(), &unknown_b, SEED, 100, 50), Err(EscrowError::UnknownMint));

    let mut other_asset = offer(&p);
    other_asset.initializer_ata_a = Holding::new(p.initializer, p.mint_b);
    assert_eq!(
        initialize(&mut fresh(), &other_asset, SEED, 100, 50),
        Err(EscrowError::MintMismatch)
    );
    let mut other_owner = offer(&p);
    other_owner.initializer_ata_a = Holding::new(p.taker, p.mint_a);
    assert_eq!(
        initialize(&mut fresh(), &other_owner, SEED, 100, 50),
        Err(EscrowError::OwnerMismatch)
    );
    let mut vault_asset = offer(&p);
    vault_asset.vault = Holding::new(p.escrow, p.mint_b);
    assert_eq!(
        initialize(&mut fresh(), &vault_asset, SEED, 100, 50),
        Err(EscrowError::MintMismatch)
    );
    let mut vault_owner = offer(&p);
    vault_owner.vault = Holding::new(p.initializer, p.mint_a);
    assert_eq!(
        initialize(&mut fresh(), &vault_owner, SEED, 100, 50),
        Err(EscrowError::OwnerMismatch)
    );

    // an initializer with no account for the asset
    let mut stranger = offer(&p);
    stranger.initializer = p.taker;
    stranger.initializer_ata_a = Holding::new(p.taker, p.mint_a);
    assert_eq!(
        initialize(&mut fresh(), &stranger, SEED, 100, 50),
        Err(EscrowError::AccountNotFound)
    );
    assert_eq!(initialize(&mut fresh(), &stranger, SEED, 0, 50), Err(EscrowError::AccountNotFound));
}

#[test]
fn initialize_fails_whole_when_the_payer_runs_dry() {
    let p = parties();
    // enough for the initializer's own account and the record, not for the vault
    let mut ledger = Ledger::new(p.program, RENT);
    ledger.fund(p.initializer, 2 * RENT + RENT - 1).unwrap();
    ledger.register_mint(p.mint_a, 6).unwrap();
    ledger.register_mint(p.mint_b, 9).unwrap();
    ledger.create_token_account(&p.initializer, Holding::new(p.initializer, p.mint_a)).unwrap();
    ledger.mint_to(Holding::new(p.initializer, p.mint_a), 500).unwrap();
    let before = observe(&ledger, &p);
    assert_eq!(
        initialize(&mut ledger, &offer(&p), SEED, 100, 50),
        Err(EscrowError::InsufficientAllowance)
    );
    // the record that was allocated on the way is gone again
    assert_eq!(observe(&ledger, &p), before);
    assert_eq!(ledger.record(&p.escrow), None);
    assert_eq!(ledger.native_balance(&p.initializer), 2 * RENT - 1);
    ledger.fund(p.initializer, 1).unwrap();
    assert_eq!(initialize(&mut ledger, &offer(&p), SEED, 100, 50), Ok(()));
    assert_eq!(ledger.native_balance(&p.initializer), 0);
}

#[test]
fn initialize_into_a_vault_that_holds_something_adds_to_it() {
    let p = parties();
    let mut ledger = market(&p, 60);
    let vault = Holding::new(p.escrow, p.mint_a);
    ledger.create_token_account(&p.taker, vault).unwrap();
    ledger.mint_to(vault, 5).unwrap();
    assert_eq!(initialize(&mut ledger, &offer(&p), SEED, 100, 50), Ok(()));
    assert_eq!(ledger.balance(&vault), Some(105));
    assert_eq!(ledger.balance(&Holding::new(p.initializer, p.mint_a)), Some(400));
    // the vault existed: only the record was paid for
    assert_eq!(ledger.native_balance(&p.initializer), 1_000 - 2 * RENT);
    // the exchange then cannot close the vault, and changes nothing
    let before = observe(&ledger, &p);
    assert_eq!(exchange(&mut ledger, &swap(&p)), Err(EscrowError::AccountNotEmpty));
    assert_eq!(observe(&ledger, &p), before);
    // the cancellation returns all of it
    assert_eq!(cancel(&mut ledger, &withdrawal(&p)), Ok(()));
    assert_eq!(ledger.balance(&Holding::new(p.initializer, p.mint_a)), Some(505));
}

#[test]
fn initialize_steps_one_by_one() {
    let p = parties();
    let mut ledger = market(&p, 60);
    let accounts = offer(&p);
    let bumps = accounts.check(&ledger, SEED, 100).unwrap();
    assert_eq!(bumps, InitializeBumps { escrow: p.bump });
    assert_eq!(accounts.check(&ledger, SEED, 501), Err(EscrowError::InsufficientFunds));
    assert_eq!(accounts.initialize_escrow(&mut ledger, SEED, &bumps, 100, 50), Ok(()));
    assert_eq!(ledger.record(&p.escrow).unwrap().taker_amount, 50);
    assert_eq!(ledger.native_balance(&p.initializer), 1_000 - 2 * RENT);
    assert_eq!(
        accounts.initialize_escrow(&mut ledger, SEED, &bumps, 1, 2),
        Err(EscrowError::RecordExists)
    );
    assert_eq!(ledger.record(&p.escrow).unwrap().initializer_amount, 100);
    // no vault yet
    assert_eq!(accounts.deposit(&mut ledger, 100), Err(EscrowError::AccountNotFound));
    ledger.create_token_account(&p.initializer, accounts.vault).unwrap();
    assert_eq!(accounts.deposit(&mut ledger, 501), Err(EscrowError::InsufficientFunds));
    assert_eq!(accounts.deposit(&mut ledger, 100), Ok(()));
    assert_eq!(ledger.balance(&accounts.vault), Some(100));
    assert_eq!(ledger.balance(&accounts.initializer_ata_a), Some(400));
}

#[test]
fn exchange_settles_both_legs() {
    let p = parties();
    let mut ledger = market(&p, 60);
    initialize(&mut ledger, &offer(&p), SEED, 100, 50).unwrap();
    assert_eq!(exchange(&mut ledger, &swap(&p)), Ok(()));
    assert_eq!(ledger.balance(&Holding::new(p.initializer, p.mint_b)), Some(50));
    assert_eq!(ledger.balance(&Holding::new(p.taker, p.mint_a)), Some(100));
    assert_eq!(ledger.balance(&Holding::new(p.taker, p.mint_b)), Some(10));
    assert_eq!(ledger.balance(&Holding::new(p.initializer, p.mint_a)), Some(400));
    assert_eq!(ledger.balance(&Holding::new(p.escrow, p.mint_a)), None);
    assert_eq!(ledger.record(&p.escrow), None);
    // the taker paid for the two accounts created on demand; the allowances
    // of the vault and of the record went to the initializer
    assert_eq!(ledger.native_balance(&p.taker), 1_000 - RENT - 2 * RENT);
    assert_eq!(ledger.native_balance(&p.initializer), 1_000 - RENT);
}

#[test]
fn exchange_adds_to_existing_balances() {
    let p = parties();
    let mut ledger = market(&p, 1_000);
    ledger.create_token_account(&p.taker, Holding::new(p.taker, p.mint_a)).unwrap();
    ledger.mint_to(Holding::new(p.taker, p.mint_a), 7).unwrap();
    ledger.create_token_account(&p.initializer, Holding::new(p.initializer, p.mint_b)).unwrap();
    ledger.mint_to(Holding::new(p.initializer, p.mint_b), 3).unwrap();
    initialize(&mut ledger, &offer(&p), SEED, 500, 1_000).unwrap();
    let taker_native = ledger.native_balance(&p.taker);
    assert_eq!(exchange(&mut ledger, &swap(&p)), Ok(()));
    assert_eq!(ledger.balance(&Holding::new(p.initializer, p.mint_b)), Some(1_003));
    assert_eq!(ledger.balance(&Holding::new(p.taker, p.mint_a)), Some(507));
    assert_eq!(ledger.balance(&Holding::new(p.taker, p.mint_b)), Some(0));
    // nothing was created, so the taker paid nothing
    assert_eq!(ledger.native_balance(&p.taker), taker_native);
}

#[test]
fn exchange_with_exactly_the_requested_amount() {
    let p = parties();
    let mut ledger = market(&p, 50);
    initialize(&mut ledger, &offer(&p), SEED, 100, 50).unwrap();
    assert_eq!(exchange(&mut ledger, &swap(&p)), Ok(()));
    assert_eq!(ledger.balance(&Holding::new(p.taker, p.mint_b)), Some(0));
    let mut short = market(&p, 49);
    initialize(&mut short, &offer(&p), SEED, 100, 50).unwrap();
    let before = observe(&short, &p);
    assert_eq!(exchange(&mut short, &swap(&p)), Err(EscrowError::InsufficientFunds));
    assert_eq!(observe(&short, &p), before);
}

#[test]
fn exchange_refusals() {
    let p = parties();
    let mut ledger = market(&p, 60);
    assert_eq!(exchange(&mut ledger, &swap(&p)), Err(EscrowError::RecordNotFound));
    initialize(&mut ledger, &offer(&p), SEED, 100, 50).unwrap();
    let before = observe(&ledger, &p);

    let mut elsewhere = swap(&p);
    elsewhere.escrow = id(5);
    assert_eq!(exchange(&mut ledger, &elsewhere), Err(EscrowError::RecordNotFound));

    let mut to_other = swap(&p);
    to_other.initializer = p.taker;
    to_other.initializer_ata_b = Holding::new(p.taker, p.mint_b);
    assert_eq!(exchange(&mut ledger, &to_other), Err(EscrowError::OwnerMismatch));

    let mut asset_a = swap(&p);
    asset_a.mint_a = p.mint_b;
    assert_eq!(exchange(&mut ledger, &asset_a), Err(EscrowError::MintMismatch));
    let mut asset_b = swap(&p);
    asset_b.mint_b = p.mint_a;
    assert_eq!(exchange(&mut ledger, &asset_b), Err(EscrowError::MintMismatch));

    let mut wrong_ta = swap(&p);
    wrong_ta.taker_ata_a = Holding::new(p.taker, p.mint_b);
    assert_eq!(exchange(&mut ledger, &wrong_ta), Err(EscrowError::MintMismatch));
    let mut wrong_tb = swap(&p);
    wrong_tb.taker_ata_b = Holding::new(p.initializer, p.mint_b);
    assert_eq!(exchange(&mut ledger, &wrong_tb), Err(EscrowError::OwnerMismatch));
    let mut wrong_ib = swap(&p);
    wrong_ib.initializer_ata_b = Holding::new(p.taker, p.mint_b);
    assert_eq!(exchange(&mut ledger, &wrong_ib), Err(EscrowError::OwnerMismatch));
    let mut wrong_vault = swap(&p);
    wrong_vault.vault = Holding::new(p.initializer, p.mint_a);
    assert_eq!(exchange(&mut ledger, &wrong_vault), Err(EscrowError::OwnerMismatch));

    // a taker with no account for asset B
    let mut nobody = swap(&p);
    nobody.taker = id(6);
    nobody.taker_ata_a = Holding::new(id(6), p.mint_a);
    nobody.taker_ata_b = Holding::new(id(6), p.mint_b);
    assert_eq!(exchange(&mut ledger, &nobody), Err(EscrowError::AccountNotFound));

    assert_eq!(observe(&ledger, &p), before);
}

#[test]
fn exchange_rejects_a_record_with_a_forged_bump() {
    let p = parties();
    let mut ledger = market(&p, 60);
    let accounts = offer(&p);
    let forged = InitializeBumps { escrow: p.bump.wrapping_sub(1) };
    accounts.initialize_escrow(&mut ledger, SEED, &forged, 100, 50).unwrap();
    ledger.create_token_account(&p.initializer, accounts.vault).unwrap();
    accounts.deposit(&mut ledger, 100).unwrap();
    let before = observe(&ledger, &p);
    assert_eq!(exchange(&mut ledger, &swap(&p)), Err(EscrowError::DerivationMismatch));
    assert_eq!(swap(&p).check(&ledger), Err(EscrowError::DerivationMismatch));
    // the caller is the owner, so a cancellation gets as far as the derivation
    assert_eq!(cancel(&mut ledger, &withdrawal(&p)), Err(EscrowError::DerivationMismatch));
    assert_eq!(observe(&ledger, &p), before);
    assert_eq!(EscrowError::DerivationMismatch.kind(), ErrorKind::Authorization);
}

#[test]
fn exchange_fails_whole_when_the_vault_is_short() {
    let p = parties();
    let mut ledger = market(&p, 60);
    let accounts = offer(&p);
    let bumps = accounts.check(&ledger, SEED, 100).unwrap();
    // a record that claims more than was deposited
    accounts.initialize_escrow(&mut ledger, SEED, &bumps, 100, 50).unwrap();
    ledger.create_token_account(&p.initializer, accounts.vault).unwrap();
    accounts.deposit(&mut ledger, 99).unwrap();
    let before = observe(&ledger, &p);
    // the taker's payment, which comes first, is undone with the rest
    assert_eq!(exchange(&mut ledger, &swap(&p)), Err(EscrowError::InsufficientFunds));
    assert_eq!(observe(&ledger, &p), before);
    assert_eq!(ledger.balance(&Holding::new(p.taker, p.mint_b)), Some(60));
    assert_eq!(ledger.balance(&Holding::new(p.initializer, p.mint_b)), None);
    assert_eq!(ledger.balance(&Holding::new(p.taker, p.mint_a)), None);
    assert_eq!(ledger.native_balance(&p.taker), 1_000 - RENT);
}

#[test]
fn exchange_fails_whole_when_the_taker_cannot_pay_for_accounts() {
    let p = parties();
    let mut ledger = Ledger::new(p.program, RENT);
    ledger.fund(p.initializer, 1_000).unwrap();
    ledger.fund(p.taker, 2 * RENT + RENT - 1).unwrap();
    ledger.register_mint(p.mint_a, 6).unwrap();
    ledger.register_mint(p.mint_b, 9).unwrap();
    ledger.create_token_account(&p.initializer, Holding::new(p.initializer, p.mint_a)).unwrap();
    ledger.create_token_account(&p.taker, Holding::new(p.taker, p.mint_b)).unwrap();
    ledger.mint_to(Holding::new(p.initializer, p.mint_a), 500).unwrap();
    ledger.mint_to(Holding::new(p.taker, p.mint_b), 60).unwrap();
    initialize(&mut ledger, &offer(&p), SEED, 100, 50).unwrap();
    let before = observe(&ledger, &p);
    assert_eq!(exchange(&mut ledger, &swap(&p)), Err(EscrowError::InsufficientAllowance));
    assert_eq!(observe(&ledger, &p), before);
    assert_eq!(ledger.balance(&Holding::new(p.taker, p.mint_a)), None);
}

#[test]
fn exchange_fails_whole_on_overflow() {
    let p = parties();
    let mut ledger = market(&p, 60);
    ledger.create_token_account(&p.initializer, Holding::new(p.initializer, p.mint_b)).unwrap();
    ledger.mint_to(Holding::new(p.initializer, p.mint_b), u64::MAX - 49).unwrap();
    initialize(&mut ledger, &offer(&p), SEED, 100, 50).unwrap();
    let before = observe(&ledger, &p);
    assert_eq!(exchange(&mut ledger, &swap(&p)), Err(EscrowError::BalanceOverflow));
    assert_eq!(observe(&ledger, &p), before);

    let mut rich = market(&p, 60);
    initialize(&mut rich, &offer(&p), SEED, 100, 50).unwrap();
    let native = rich.native_balance(&p.initializer);
    rich.fund(p.initializer, u64::MAX - native - 2 * RENT + 1).unwrap();
    let before = observe(&rich, &p);
    assert_eq!(exchange(&mut rich, &swap(&p)), Err(EscrowError::AllowanceOverflow));
    assert_eq!(observe(&rich, &p), before);
}

#[test]
fn exchange_steps_one_by_one() {
    let p = parties();
    let mut ledger = market(&p, 60);
    let accounts = swap(&p);
    assert_eq!(accounts.deposit(&mut ledger), Err(EscrowError::RecordNotFound));
    assert_eq!(accounts.withdraw_and_close_vault(&mut ledger), Err(EscrowError::RecordNotFound));
    initialize(&mut ledger, &offer(&p), SEED, 100, 50).unwrap();
    let record = accounts.check(&ledger).unwrap();
    assert_eq!(record.initializer_amount, 100);
    assert_eq!(record.taker_amount, 50);
    // receiving accounts are not there yet
    assert_eq!(accounts.deposit(&mut ledger), Err(EscrowError::AccountNotFound));
    assert_eq!(accounts.withdraw_and_close_vault(&mut ledger), Err(EscrowError::AccountNotFound));
    ledger.create_token_account(&p.taker, accounts.taker_ata_a).unwrap();
    ledger.create_token_account(&p.taker, accounts.initializer_ata_b).unwrap();
    assert_eq!(accounts.deposit(&mut ledger), Ok(()));
    assert_eq!(ledger.balance(&accounts.initializer_ata_b), Some(50));
    assert_eq!(ledger.balance(&accounts.taker_ata_b), Some(10));
    assert_eq!(ledger.balance(&accounts.vault), Some(100));
    assert_eq!(accounts.withdraw_and_close_vault(&mut ledger), Ok(()));
    assert_eq!(ledger.balance(&accounts.taker_ata_a), Some(100));
    assert_eq!(ledger.balance(&accounts.vault), None);
    assert_eq!(ledger.native_balance(&p.initializer), 1_000 - 3 * RENT + RENT);
    assert!(ledger.record(&p.escrow).is_some());
}

#[test]
fn withdraw_is_undone_when_the_vault_cannot_be_closed() {
    let p = parties();
    let mut ledger = market(&p, 60);
    initialize(&mut ledger, &offer(&p), SEED, 100, 50).unwrap();
    let accounts = swap(&p);
    ledger.create_token_account(&p.taker, accounts.taker_ata_a).unwrap();
    ledger.mint_to(accounts.vault, 1).unwrap();
    let before = observe(&ledger, &p);
    assert_eq!(accounts.withdraw_and_close_vault(&mut ledger), Err(EscrowError::AccountNotEmpty));
    assert_eq!(observe(&ledger, &p), before);
    assert_eq!(ledger.balance(&accounts.vault), Some(101));
    assert_eq!(ledger.balance(&accounts.taker_ata_a), Some(0));
}

#[test]
fn cancel_returns_the_deposit_to_the_initializer_only() {
    let p = parties();
    let mut ledger = market(&p, 60);
    initialize(&mut ledger, &offer(&p), SEED, 100, 50).unwrap();
    assert_eq!(cancel(&mut ledger, &withdrawal(&p)), Ok(()));
    assert_eq!(ledger.balance(&Holding::new(p.initializer, p.mint_a)), Some(500));
    assert_eq!(ledger.balance(&Holding::new(p.escrow, p.mint_a)), None);
    assert_eq!(ledger.record(&p.escrow), None);
    assert_eq!(ledger.native_balance(&p.initializer), 1_000 - RENT);
    // the taker's side is as it was
    assert_eq!(ledger.balance(&Holding::new(p.taker, p.mint_b)), Some(60));
    assert_eq!(ledger.balance(&Holding::new(p.taker, p.mint_a)), None);
    assert_eq!(ledger.balance(&Holding::new(p.initializer, p.mint_b)), None);
    assert_eq!(ledger.native_balance(&p.taker), 1_000 - RENT);
}

#[test]
fn cancel_by_another_identity_is_unauthorized() {
    let p = parties();
    let mut ledger = market(&p, 60);
    ledger.create_token_account(&p.taker, Holding::new(p.taker, p.mint_a)).unwrap();
    initialize(&mut ledger, &offer(&p), SEED, 100, 50).unwrap();
    let before = observe(&ledger, &p);
    let mut thief = withdrawal(&p);
    thief.initializer = p.taker;
    thief.initializer_ata_a = Holding::new(p.taker, p.mint_a);
    assert_eq!(cancel(&mut ledger, &thief), Err(EscrowError::Unauthorized));
    assert_eq!(thief.check(&ledger), Err(EscrowError::Unauthorized));
    // also where only the signer differs
    let mut signer_only = withdrawal(&p);
    signer_only.initializer = p.taker;
    assert_eq!(cancel(&mut ledger, &signer_only), Err(EscrowError::Unauthorized));
    assert_eq!(observe(&ledger, &p), before);
    assert_eq!(EscrowError::Unauthorized.kind(), ErrorKind::Authorization);
}

#[test]
fn cancel_refusals() {
    let p = parties();
    let mut ledger = market(&p, 60);
    assert_eq!(cancel(&mut ledger, &withdrawal(&p)), Err(EscrowError::RecordNotFound));
    initialize(&mut ledger, &offer(&p), SEED, 100, 50).unwrap();
    let before = observe(&ledger, &p);

    let mut asset = withdrawal(&p);
    asset.mint_a = p.mint_b;
    assert_eq!(cancel(&mut ledger, &asset), Err(EscrowError::MintMismatch));
    let mut wrong_account = withdrawal(&p);
    wrong_account.initializer_ata_a = Holding::new(p.taker, p.mint_a);
    assert_eq!(cancel(&mut ledger, &wrong_account), Err(EscrowError::OwnerMismatch));
    let mut wrong_vault = withdrawal(&p);
    wrong_vault.vault = Holding::new(p.escrow, p.mint_b);
    assert_eq!(cancel(&mut ledger, &wrong_vault), Err(EscrowError::MintMismatch));
    assert_eq!(observe(&ledger, &p), before);

    // the initializer gave its own account up in the meantime
    let own = Holding::new(p.initializer, p.mint_a);
    let give_away = TransferChecked {
        from: own,
        mint: p.mint_a,
        to: Holding::new(p.escrow, p.mint_a),
        authority: Authority::Signature { signer: p.initializer },
    };
    let mut gone = ledger.snapshot();
    gone.transfer_checked(&give_away, 400, 6).unwrap();
    gone.close_account(&anchor_escrow::instruction::CloseAccount {
        account: own,
        destination: p.initializer,
        authority: Authority::Signature { signer: p.initializer },
    })
    .unwrap();
    assert_eq!(cancel(&mut gone, &withdrawal(&p)), Err(EscrowError::AccountNotFound));
}

#[test]
fn settled_record_cannot_be_used_again() {
    let p = parties();
    let mut after_exchange = market(&p, 200);
    initialize(&mut after_exchange, &offer(&p), SEED, 100, 50).unwrap();
    exchange(&mut after_exchange, &swap(&p)).unwrap();
    let before = observe(&after_exchange, &p);
    assert_eq!(exchange(&mut after_exchange, &swap(&p)), Err(EscrowError::RecordNotFound));
    assert_eq!(cancel(&mut after_exchange, &withdrawal(&p)), Err(EscrowError::RecordNotFound));
    assert_eq!(observe(&after_exchange, &p), before);

    let mut after_cancel = market(&p, 200);
    initialize(&mut after_cancel, &offer(&p), SEED, 100, 50).unwrap();
    cancel(&mut after_cancel, &withdrawal(&p)).unwrap();
    let before = observe(&after_cancel, &p);
    assert_eq!(exchange(&mut after_cancel, &swap(&p)), Err(EscrowError::RecordNotFound));
    assert_eq!(cancel(&mut after_cancel, &withdrawal(&p)), Err(EscrowError::RecordNotFound));
    assert_eq!(observe(&after_cancel, &p), before);
    assert_eq!(EscrowError::RecordNotFound.kind(), ErrorKind::State);
}

#[test]
fn seed_is_free_again_after_settlement() {
    let p = parties();
    let mut ledger = market(&p, 200);
    initialize(&mut ledger, &offer(&p), SEED, 100, 50).unwrap();
    cancel(&mut ledger, &withdrawal(&p)).unwrap();
    assert_eq!(initialize(&mut ledger, &offer(&p), SEED, 30, 20), Ok(()));
    assert_eq!(ledger.balance(&Holding::new(p.escrow, p.mint_a)), Some(30));
    assert_eq!(exchange(&mut ledger, &swap(&p)), Ok(()));
    assert_eq!(ledger.balance(&Holding::new(p.taker, p.mint_a)), Some(30));
    assert_eq!(ledger.balance(&Holding::new(p.initializer, p.mint_b)), Some(20));
}

#[test]
fn offers_of_different_seeds_do_not_touch_each_other() {
    let p = parties();
    let mut ledger = market(&p, 200);
    let mut q = parties();
    let (other, other_bump) = find_record_address(&p.program, SEED + 1).unwrap();
    q.escrow = other;
    q.bump = other_bump;
    initialize(&mut ledger, &offer(&p), SEED, 100, 50).unwrap();
    initialize(&mut ledger, &offer(&q), SEED + 1, 200, 70).unwrap();
    assert_eq!(ledger.balance(&Holding::new(p.initializer, p.mint_a)), Some(200));
    exchange(&mut ledger, &swap(&q)).unwrap();
    assert_eq!(ledger.balance(&Holding::new(p.escrow, p.mint_a)), Some(100));
    assert_eq!(ledger.record(&p.escrow).unwrap().taker_amount, 50);
    assert_eq!(ledger.record(&q.escrow), None);
    assert_eq!(ledger.balance(&Holding::new(p.taker, p.mint_a)), Some(200));
    cancel(&mut ledger, &withdrawal(&p)).unwrap();
    assert_eq!(ledger.balance(&Holding::new(p.initializer, p.mint_a)), Some(300));
}

#[test]
fn taker_who_is_the_initializer_swaps_with_itself() {
    let p = parties();
    let mut ledger = market(&p, 0);
    let own_b = Holding::new(p.initializer, p.mint_b);
    ledger.create_token_account(&p.initializer, own_b).unwrap();
    ledger.mint_to(own_b, 60).unwrap();
    initialize(&mut ledger, &offer(&p), SEED, 100, 50).unwrap();
    let mut own = swap(&p);
    own.taker = p.initializer;
    own.taker_ata_a = Holding::new(p.initializer, p.mint_a);
    own.taker_ata_b = own_b;
    assert_eq!(exchange(&mut ledger, &own), Ok(()));
    // the payment went from the account to itself
    assert_eq!(ledger.balance(&own_b), Some(60));
    assert_eq!(ledger.balance(&Holding::new(p.initializer, p.mint_a)), Some(500));
    assert_eq!(ledger.record(&p.escrow), None);
}
