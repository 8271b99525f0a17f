//! Two-party atomic token-swap escrow over a custodial asset ledger.
//!
//! An initializer locks an amount of asset A in a vault and states how much
//! of asset B it asks for. A taker completes the swap by delivering asset B
//! and receives asset A, or the initializer cancels and takes asset A back.
//! Each of the three instructions either commits as a whole or leaves the
//! ledger untouched.

use vstd::prelude::*;

pub mod account;
pub mod address;
pub mod contexts;
pub mod derivation;
pub mod error;
pub mod guarantees;
pub mod instruction;
pub mod ledger;
pub mod model;
pub mod states;
pub mod table;

use crate::contexts::cancel::Cancel;
use crate::contexts::exchange::Exchange;
use crate::contexts::initialize::Initialize;
use crate::error::EscrowError;
use crate::guarantees::{
    lemma_cancel_by_stranger, lemma_cancel_destroys_offer, lemma_cancel_refunds,
    lemma_cancel_returns_allowances, lemma_exchange_destroys_offer, lemma_exchange_needs_funds,
    lemma_exchange_returns_allowances, lemma_exchange_settles, lemma_initialize_locks_offer,
    lemma_initialize_needs_funds,
};
use crate::ledger::Ledger;
use crate::model::commits;

verus! {

/// Makes an offer: allocates the escrow record that `seed` names, creates
/// the vault where absent and locks `initializer_amount` of asset A in it,
/// asking for `taker_amount` of asset B. On any failure the ledger is left
/// as it was.
///
/// The first clause says all that the call does. The others spell out what
/// follows: an initializer that holds too little is refused, and after a
/// success the vault, unless it held something before, holds exactly the
/// offered amount, taken from the initializer.
pub fn initialize(
    ledger: &mut Ledger,
    accounts: &Initialize,
    seed: u64,
    initializer_amount: u64,
    taker_amount: u64,
) -> (r: Result<(), EscrowError>)
    ensures
        commits(
            old(ledger)@,
            accounts.outcome(old(ledger)@, seed, initializer_amount, taker_amount),
            r,
            final(ledger)@,
        ),
        accounts.underfunded(old(ledger)@, initializer_amount) ==> r is Err && final(ledger)@
            == old(ledger)@,
        r is Ok && old(ledger)@.balance_or_zero(accounts.vault) == 0 ==> accounts.locked(
            old(ledger)@,
            final(ledger)@,
            seed,
            initializer_amount,
            taker_amount,
        ),
{
    proof {
        let s = ledger@;
        if accounts.underfunded(s, initializer_amount) {
            lemma_initialize_needs_funds(s, *accounts, seed, initializer_amount, taker_amount);
        }
        if accounts.outcome(s, seed, initializer_amount, taker_amount) is Ok
            && s.balance_or_zero(accounts.vault) == 0 {
            lemma_initialize_locks_offer(s, *accounts, seed, initializer_amount, taker_amount);
        }
    }
    let bumps = match accounts.check(ledger, seed, initializer_amount) {
        Ok(bumps) => bumps,
        Err(e) => {
            return Err(e);
        },
    };
    let mut work = ledger.snapshot();
    match accounts.initialize_escrow(&mut work, seed, &bumps, initializer_amount, taker_amount) {
        Err(e) => {
            return Err(e);
        },
        Ok(()) => {},
    }
    match work.create_token_account(&accounts.initializer, accounts.vault) {
        Err(e) => {
            return Err(e);
        },
        Ok(()) => {},
    }
    match accounts.deposit(&mut work, initializer_amount) {
        Err(e) => {
            return Err(e);
        },
        Ok(()) => {},
    }
    *ledger = work;
    Ok(())
}

/// Withdraws an offer: returns what the vault holds to the initializer,
/// closes the vault and destroys the record. Only the record's initializer
/// may cancel. On any failure the ledger is left as it was.
///
/// The first clause says all that the call does. The others spell out what
/// follows: anyone but the record's initializer is refused as unauthorized;
/// a success leaves neither vault nor record and pays their storage
/// allowances to the initializer; and where the vault held what was
/// deposited, exactly that amount has gone back to the initializer and to
/// nobody else.
pub fn cancel(ledger: &mut Ledger, accounts: &Cancel) -> (r: Result<(), EscrowError>)
    ensures
        commits(old(ledger)@, accounts.outcome(old(ledger)@), r, final(ledger)@),
        accounts.stranger(old(ledger)@) ==> r == Err::<(), EscrowError>(EscrowError::Unauthorized)
            && final(ledger)@ == old(ledger)@,
        r is Ok ==> !final(ledger)@.tokens.contains_key(accounts.vault)
            && !final(ledger)@.records.contains_key(accounts.escrow)
            && accounts.allowances_returned(old(ledger)@, final(ledger)@),
        r is Ok && accounts.intact(old(ledger)@) ==> accounts.refunded(
            old(ledger)@,
            final(ledger)@,
        ),
{
    proof {
        let s = ledger@;
        if accounts.stranger(s) {
            lemma_cancel_by_stranger(s, *accounts);
        }
        if accounts.outcome(s) is Ok {
            lemma_cancel_destroys_offer(s, *accounts);
            lemma_cancel_returns_allowances(s, *accounts);
            if accounts.intact(s) {
                lemma_cancel_refunds(s, *accounts);
            }
        }
    }
    match accounts.check(ledger) {
        Err(e) => {
            return Err(e);
        },
        Ok(()) => {},
    }
    let mut work = ledger.snapshot();
    match accounts.refund_and_close_vault(&mut work) {
        Err(e) => {
            return Err(e);
        },
        Ok(()) => {},
    }
    match work.destroy_record(&accounts.escrow, &accounts.initializer) {
        Err(e) => {
            return Err(e);
        },
        Ok(()) => {},
    }
    *ledger = work;
    Ok(())
}

/// Completes an offer: the taker pays the requested amount of asset B to the
/// initializer, receives the offered amount of asset A from the vault, and
/// the vault and the record are destroyed. The payment comes first. On any
/// failure the ledger is left as it was.
///
/// The first clause says all that the call does. The others spell out what
/// follows: a taker that holds too little is refused; a success leaves
/// neither vault nor record; between different parties it pays their
/// storage allowances to the initializer; and between different parties and
/// assets both legs have moved exactly the amounts of the record.
pub fn exchange(ledger: &mut Ledger, accounts: &Exchange) -> (r: Result<(), EscrowError>)
    ensures
        commits(old(ledger)@, accounts.outcome(old(ledger)@), r, final(ledger)@),
        accounts.underfunded(old(ledger)@) ==> r is Err && final(ledger)@ == old(ledger)@,
        r is Ok ==> !final(ledger)@.tokens.contains_key(accounts.vault)
            && !final(ledger)@.records.contains_key(accounts.escrow),
        r is Ok && accounts.taker != accounts.initializer ==> accounts.allowances_returned(
            old(ledger)@,
            final(ledger)@,
        ),
        r is Ok && accounts.distinct() ==> accounts.settled(old(ledger)@, final(ledger)@),
{
    proof {
        let s = ledger@;
        if accounts.underfunded(s) {
            lemma_exchange_needs_funds(s, *accounts);
        }
        if accounts.outcome(s) is Ok {
            lemma_exchange_destroys_offer(s, *accounts);
            if accounts.taker != accounts.initializer {
                lemma_exchange_returns_allowances(s, *accounts);
            }
            if accounts.distinct() {
                lemma_exchange_settles(s, *accounts);
            }
        }
    }
    match accounts.check(ledger) {
        Err(e) => {
            return Err(e);
        },
        Ok(_) => {},
    }
    let mut work = ledger.snapshot();
    match work.create_token_account(&accounts.taker, accounts.taker_ata_a) {
        Err(e) => {
            return Err(e);
        },
        Ok(()) => {},
    }
    match work.create_token_account(&accounts.taker, accounts.initializer_ata_b) {
        Err(e) => {
            return Err(e);
        },
        Ok(()) => {},
    }
    match accounts.deposit(&mut work) {
        Err(e) => {
            return Err(e);
        },
        Ok(()) => {},
    }
    match accounts.withdraw_and_close_vault(&mut work) {
        Err(e) => {
            return Err(e);
        },
        Ok(()) => {},
    }
    match work.destroy_record(&accounts.escrow, &accounts.initializer) {
        Err(e) => {
            return Err(e);
        },
        Ok(()) => {},
    }
    *ledger = work;
    Ok(())
}

} // verus!
