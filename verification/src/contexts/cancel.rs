//! Cancel: the initializer takes the locked asset A back.

use crate::account::Holding;
use crate::address::Address;
use crate::contexts::{check_holding, either, holding_refusal};
use crate::derivation::{is_record_address, signer_seeds, signer_seeds_spec, verify_record_address};
use crate::error::EscrowError;
use crate::instruction::{
    Authority, AuthorityView, CloseAccount, CloseAccountView, TransferChecked, TransferCheckedView,
};
use crate::ledger::Ledger;
use crate::model::{commits, LedgerState};
use crate::states::Escrow;
use crate::table::Key;
use vstd::prelude::*;

verus! {

/// The accounts of a cancellation.
#[derive(Clone, Copy, Debug, PartialEq, Eq)]
pub struct Cancel {
    /// The caller, who has signed the call. Only the record's initializer
    /// may cancel.
    pub initializer: Address,
    /// The asset locked in the vault.
    pub mint_a: Address,
    /// The initializer's account for asset A.
    pub initializer_ata_a: Holding,
    /// The address of the escrow record.
    pub escrow: Address,
    /// The vault: the record's account for asset A.
    pub vault: Holding,
}

impl Cancel {
    /// The first precondition of the cancellation that `s` fails, if any. In
    /// order: the record exists; the caller is its initializer; its address
    /// is what its seed and bump seed derive; it names this asset; the two
    /// custodial accounts are those of the initializer and of the record for
    /// asset A; the asset is registered; both accounts exist.
    pub open spec fn refusal(self, s: LedgerState) -> Option<EscrowError> {
        if !s.records.contains_key(self.escrow) {
            Some(EscrowError::RecordNotFound)
        } else {
            let record = s.records[self.escrow].data;
            let accounts = either(
                holding_refusal(self.initializer_ata_a, self.initializer, self.mint_a),
                holding_refusal(self.vault, self.escrow, self.mint_a),
            );
            if record.initializer != self.initializer {
                Some(EscrowError::Unauthorized)
            } else if !is_record_address(s.program, record.seed, record.bump, self.escrow) {
                Some(EscrowError::DerivationMismatch)
            } else if record.mint_a != self.mint_a {
                Some(EscrowError::MintMismatch)
            } else if accounts is Some {
                accounts
            } else if !s.mints.contains_key(self.mint_a) {
                Some(EscrowError::UnknownMint)
            } else if !s.tokens.contains_key(self.initializer_ata_a) || !s.tokens.contains_key(
                self.vault,
            ) {
                Some(EscrowError::AccountNotFound)
            } else {
                None
            }
        }
    }

    /// The refund: asset A from the vault to the initializer, under the
    /// record's derived authority.
    pub open spec fn refund_instruction(self, record: Escrow) -> TransferCheckedView {
        TransferCheckedView {
            from: self.vault,
            mint: self.mint_a,
            to: self.initializer_ata_a,
            authority: AuthorityView::Derivation {
                seeds: signer_seeds_spec(record.seed, record.bump),
            },
        }
    }

    /// The closing of the vault, whose storage allowance goes to the
    /// initializer, under the record's derived authority.
    pub open spec fn close_instruction(self, record: Escrow) -> CloseAccountView {
        CloseAccountView {
            account: self.vault,
            destination: self.initializer,
            authority: AuthorityView::Derivation {
                seeds: signer_seeds_spec(record.seed, record.bump),
            },
        }
    }

    /// What [`Cancel::refund_and_close_vault`] does to `s`: it moves all
    /// that the vault holds to the initializer, then closes the vault.
    pub open spec fn refund_and_close_vault_outcome(self, s: LedgerState) -> Result<
        LedgerState,
        EscrowError,
    > {
        if !s.records.contains_key(self.escrow) {
            Err(EscrowError::RecordNotFound)
        } else if !s.mints.contains_key(self.mint_a) {
            Err(EscrowError::UnknownMint)
        } else if !s.tokens.contains_key(self.vault) {
            Err(EscrowError::AccountNotFound)
        } else {
            let record = s.records[self.escrow].data;
            match s.transfer_checked(
                self.refund_instruction(record),
                s.tokens[self.vault].amount,
                s.mints[self.mint_a],
            ) {
                Err(e) => Err(e),
                Ok(moved) => moved.close_account(self.close_instruction(record)),
            }
        }
    }

    /// What the whole cancellation does to `s`. Where a precondition fails,
    /// that failure. Else the vault is emptied to the initializer and
    /// closed, then the record is destroyed, its storage allowance going to
    /// the initializer. The first step that fails is the outcome.
    pub open spec fn outcome(self, s: LedgerState) -> Result<LedgerState, EscrowError> {
        match self.refusal(s) {
            Some(e) => Err(e),
            None => match self.refund_and_close_vault_outcome(s) {
                Err(e) => Err(e),
                Ok(s1) => s1.destroy_record(self.escrow, self.initializer),
            },
        }
    }

    /// The record exists and the caller is not its initializer.
    pub open spec fn stranger(self, s: LedgerState) -> bool {
        &&& s.records.contains_key(self.escrow)
        &&& self.initializer != s.records[self.escrow].data.initializer
    }

    /// The vault holds exactly what the record says was deposited, and the
    /// initializer is not the record itself.
    pub open spec fn intact(self, s: LedgerState) -> bool {
        &&& self.initializer != self.escrow
        &&& s.balance_or_zero(self.vault) == s.records[self.escrow].data.initializer_amount
    }

    /// What a successful cancellation has done, seen from outside: the
    /// initializer's asset-A account holds exactly the offered amount more
    /// than before, every other custodial account but the vault is as it
    /// was, and neither the vault nor the record exists any longer.
    pub open spec fn refunded(self, before: LedgerState, after: LedgerState) -> bool {
        let record = before.records[self.escrow].data;
        let own = Holding { owner: self.initializer, mint: self.mint_a };
        let vault = Holding { owner: self.escrow, mint: self.mint_a };
        &&& before.records.contains_key(self.escrow)
        &&& record.initializer == self.initializer
        &&& before.tokens.contains_key(own)
        &&& before.tokens[own].amount + record.initializer_amount <= u64::MAX
        &&& after.balance(own) == Some(
            (before.tokens[own].amount + record.initializer_amount) as u64,
        )
        &&& forall|other: Holding|
            other != own && other != vault ==> after.tokens.contains_key(other)
                == before.tokens.contains_key(other) && after.tokens[other]
                == before.tokens[other]
        &&& !after.tokens.contains_key(vault)
        &&& !after.records.contains_key(self.escrow)
    }

    /// Where the storage allowances have gone after a successful
    /// cancellation: those of the vault and of the record to the
    /// initializer.
    pub open spec fn allowances_returned(self, before: LedgerState, after: LedgerState) -> bool {
        &&& before.tokens.contains_key(self.vault)
        &&& before.records.contains_key(self.escrow)
        &&& after.native_balance(self.initializer) == before.native_balance(self.initializer)
            + before.tokens[self.vault].allowance + before.records[self.escrow].allowance
    }

    /// Checks the preconditions of the cancellation.
    pub fn check(&self, ledger: &Ledger) -> (r: Result<(), EscrowError>)
        ensures
            match r {
                Ok(()) => self.refusal(ledger@) is None,
                Err(e) => self.refusal(ledger@) == Some(e),
            },
    {
        let record = match ledger.record(&self.escrow) {
            Some(record) => record,
            None => {
                return Err(EscrowError::RecordNotFound);
            },
        };
        if !record.initializer.same(&self.initializer) {
            return Err(EscrowError::Unauthorized);
        }
        if !verify_record_address(&ledger.program(), record.seed, record.bump, &self.escrow) {
            return Err(EscrowError::DerivationMismatch);
        }
        if !record.mint_a.same(&self.mint_a) {
            return Err(EscrowError::MintMismatch);
        }
        match check_holding(&self.initializer_ata_a, &self.initializer, &self.mint_a) {
            Err(e) => {
                return Err(e);
            },
            Ok(()) => {},
        }
        match check_holding(&self.vault, &self.escrow, &self.mint_a) {
            Err(e) => {
                return Err(e);
            },
            Ok(()) => {},
        }
        if ledger.decimals(&self.mint_a).is_none() {
            return Err(EscrowError::UnknownMint);
        }
        if ledger.balance(&self.initializer_ata_a).is_none() || ledger.balance(
            &self.vault,
        ).is_none() {
            return Err(EscrowError::AccountNotFound);
        }
        Ok(())
    }

    /// Moves all that the vault holds back to the initializer and closes the
    /// vault, both under the record's derived authority. Where either step
    /// fails nothing is changed.
    pub fn refund_and_close_vault(&self, ledger: &mut Ledger) -> (r: Result<(), EscrowError>)
        ensures
            commits(
                old(ledger)@,
                self.refund_and_close_vault_outcome(old(ledger)@),
                r,
                final(ledger)@,
            ),
    {
        let record = match ledger.record(&self.escrow) {
            Some(record) => record,
            None => {
                return Err(EscrowError::RecordNotFound);
            },
        };
        let decimals = match ledger.decimals(&self.mint_a) {
            Some(decimals) => decimals,
            None => {
                return Err(EscrowError::UnknownMint);
            },
        };
        let amount = match ledger.balance(&self.vault) {
            Some(amount) => amount,
            None => {
                return Err(EscrowError::AccountNotFound);
            },
        };
        let mut work = ledger.snapshot();
        match work.transfer_checked(&self.into_refund_context(&record), amount, decimals) {
            Err(e) => {
                return Err(e);
            },
            Ok(()) => {},
        }
        match work.close_account(&self.into_close_context(&record)) {
            Err(e) => {
                return Err(e);
            },
            Ok(()) => {},
        }
        *ledger = work;
        Ok(())
    }

    /// The instruction of the refund.
    fn into_refund_context(&self, record: &Escrow) -> (ix: TransferChecked)
        ensures
            ix@ == self.refund_instruction(*record),
    {
        TransferChecked {
            from: self.vault,
            mint: self.mint_a,
            to: self.initializer_ata_a,
            authority: Authority::Derivation { seeds: signer_seeds(record.seed, record.bump) },
        }
    }

    /// The instruction that closes the vault.
    fn into_close_context(&self, record: &Escrow) -> (ix: CloseAccount)
        ensures
            ix@ == self.close_instruction(*record),
    {
        CloseAccount {
            account: self.vault,
            destination: self.initializer,
            authority: Authority::Derivation { seeds: signer_seeds(record.seed, record.bump) },
        }
    }
}

} // verus!
