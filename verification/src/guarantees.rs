//! What the three instructions guarantee, proved from what they do.

use crate::contexts::cancel::Cancel;
use crate::contexts::exchange::Exchange;
use crate::contexts::initialize::Initialize;
use crate::derivation::{lemma_found_derives, record_seeds_spec};
use crate::error::{ErrorKind, EscrowError};
use crate::instruction::TransferCheckedView;
use crate::model::{commits, LedgerState};
use vstd::prelude::*;

verus! {

/// An instruction that fails changes nothing, whatever the instruction, and
/// it fails exactly where its outcome is an error.
pub proof fn lemma_failure_changes_nothing(
    before: LedgerState,
    outcome: Result<LedgerState, EscrowError>,
    result: Result<(), EscrowError>,
    after: LedgerState,
)
    requires
        commits(before, outcome, result, after),
    ensures
        result is Err ==> after == before,
        result is Err <==> outcome is Err,
{
}

/// A transfer succeeds only under an authority that controls the source
/// account: a signature of its owner, or seeds that derive its owner's
/// address.
pub proof fn lemma_transfer_needs_authority(
    s: LedgerState,
    ix: TransferCheckedView,
    amount: u64,
    decimals: u8,
)
    requires
        s.transfer_checked(ix, amount, decimals) is Ok,
    ensures
        s.authorizes(ix.authority, ix.from.owner),
{
}

/// After a successful initialization, on a ledger where the vault did not
/// exist or was empty, the vault holds exactly the offered amount, the
/// initializer's asset-A account holds that much less, and the record holds
/// the terms of the offer at an address that a later exchange or
/// cancellation derives again from the record's own seed and bump seed.
pub proof fn lemma_initialize_locks_offer(
    s: LedgerState,
    accounts: Initialize,
    seed: u64,
    initializer_amount: u64,
    taker_amount: u64,
)
    requires
        accounts.outcome(s, seed, initializer_amount, taker_amount) is Ok,
        s.balance_or_zero(accounts.vault) == 0,
    ensures
        accounts.locked(
            s,
            accounts.outcome(s, seed, initializer_amount, taker_amount)->Ok_0,
            seed,
            initializer_amount,
            taker_amount,
        ),
{
    lemma_found_derives(record_seeds_spec(seed), s.program@, 255);
}

/// An initialization fails where the initializer holds less of asset A than
/// it offers, or holds none. Failing, it leaves the ledger as it was: no
/// record and no vault are added.
pub proof fn lemma_initialize_needs_funds(
    s: LedgerState,
    accounts: Initialize,
    seed: u64,
    initializer_amount: u64,
    taker_amount: u64,
)
    requires
        accounts.underfunded(s, initializer_amount),
    ensures
        accounts.outcome(s, seed, initializer_amount, taker_amount) is Err,
{
}

/// After a successful exchange between two different parties, of two
/// different assets, the initializer's asset-B account holds the requested
/// amount more than before, the taker's asset-A account holds the offered
/// amount more, the taker's asset-B account holds the requested amount less,
/// and neither the vault nor the record exists any longer. No prior balance
/// matters.
pub proof fn lemma_exchange_settles(s: LedgerState, accounts: Exchange)
    requires
        accounts.outcome(s) is Ok,
        accounts.distinct(),
    ensures
        accounts.settled(s, accounts.outcome(s)->Ok_0),
{
}

/// Whoever the parties are, a successful exchange leaves neither the vault
/// nor the record.
pub proof fn lemma_exchange_destroys_offer(s: LedgerState, accounts: Exchange)
    requires
        accounts.outcome(s) is Ok,
    ensures
        !accounts.outcome(s)->Ok_0.tokens.contains_key(accounts.vault),
        !accounts.outcome(s)->Ok_0.records.contains_key(accounts.escrow),
{
}

/// An exchange fails where the taker holds less of asset B than the record
/// asks for, or holds none. Failing, it changes no balance.
pub proof fn lemma_exchange_needs_funds(s: LedgerState, accounts: Exchange)
    requires
        accounts.underfunded(s),
    ensures
        accounts.outcome(s) is Err,
{
}

/// The storage allowances of the vault and of the record go to the
/// initializer when an exchange succeeds, and to nobody else: the
/// initializer's native balance grows by exactly the two, and the taker's
/// does not grow.
pub proof fn lemma_exchange_returns_allowances(s: LedgerState, accounts: Exchange)
    requires
        accounts.outcome(s) is Ok,
        accounts.taker != accounts.initializer,
    ensures
        accounts.allowances_returned(s, accounts.outcome(s)->Ok_0),
{
}

/// After a successful cancellation of an offer whose vault holds what was
/// deposited, the initializer's asset-A account holds exactly the offered
/// amount more than before, every other custodial account but the vault is
/// as it was, and neither the vault nor the record exists any longer.
pub proof fn lemma_cancel_refunds(s: LedgerState, accounts: Cancel)
    requires
        accounts.outcome(s) is Ok,
        accounts.intact(s),
    ensures
        accounts.refunded(s, accounts.outcome(s)->Ok_0),
{
}

/// Whatever the vault holds, a successful cancellation leaves neither the
/// vault nor the record.
pub proof fn lemma_cancel_destroys_offer(s: LedgerState, accounts: Cancel)
    requires
        accounts.outcome(s) is Ok,
    ensures
        !accounts.outcome(s)->Ok_0.tokens.contains_key(accounts.vault),
        !accounts.outcome(s)->Ok_0.records.contains_key(accounts.escrow),
{
}

/// The storage allowances of the vault and of the record go to the
/// initializer when a cancellation succeeds: its native balance grows by
/// exactly the two.
pub proof fn lemma_cancel_returns_allowances(s: LedgerState, accounts: Cancel)
    requires
        accounts.outcome(s) is Ok,
    ensures
        accounts.allowances_returned(s, accounts.outcome(s)->Ok_0),
{
}

/// A cancellation by anyone but the record's initializer fails with an
/// authorization error. Failing, it changes nothing.
pub proof fn lemma_cancel_by_stranger(s: LedgerState, accounts: Cancel)
    requires
        accounts.stranger(s),
    ensures
        accounts.outcome(s) == Err::<LedgerState, EscrowError>(EscrowError::Unauthorized),
        EscrowError::Unauthorized.kind_spec() == ErrorKind::Authorization,
{
}

/// An exchange that succeeds destroys the record: any later exchange or
/// cancellation that names the same record fails with a state error, because
/// the record is not found. So at most one of the two ever succeeds for a
/// record.
pub proof fn lemma_exchange_is_final(
    s: LedgerState,
    accounts: Exchange,
    exchange: Exchange,
    cancel: Cancel,
)
    requires
        accounts.outcome(s) is Ok,
        exchange.escrow == accounts.escrow,
        cancel.escrow == accounts.escrow,
    ensures
        exchange.outcome(accounts.outcome(s)->Ok_0) == Err::<LedgerState, EscrowError>(
            EscrowError::RecordNotFound,
        ),
        cancel.outcome(accounts.outcome(s)->Ok_0) == Err::<LedgerState, EscrowError>(
            EscrowError::RecordNotFound,
        ),
        EscrowError::RecordNotFound.kind_spec() == ErrorKind::State,
{
}

/// A cancellation that succeeds destroys the record: any later exchange or
/// cancellation that names the same record fails with a state error, because
/// the record is not found.
pub proof fn lemma_cancel_is_final(
    s: LedgerState,
    accounts: Cancel,
    exchange: Exchange,
    cancel: Cancel,
)
    requires
        accounts.outcome(s) is Ok,
        exchange.escrow == accounts.escrow,
        cancel.escrow == accounts.escrow,
    ensures
        exchange.outcome(accounts.outcome(s)->Ok_0) == Err::<LedgerState, EscrowError>(
            EscrowError::RecordNotFound,
        ),
        cancel.outcome(accounts.outcome(s)->Ok_0) == Err::<LedgerState, EscrowError>(
            EscrowError::RecordNotFound,
        ),
        EscrowError::RecordNotFound.kind_spec() == ErrorKind::State,
{
}

} // verus!
