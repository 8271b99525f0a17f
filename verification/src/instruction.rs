//! Instructions to the ledger, and the authority that each is given under.

use crate::account::Holding;
use crate::address::Address;
use vstd::prelude::*;

verus! {

/// The proof of authority that accompanies an instruction.
#[derive(Clone, Debug, PartialEq, Eq)]
pub enum Authority {
    /// `signer` has signed the call. The ledger takes the caller's word for
    /// it: checking signatures is the caller's part.
    Signature { signer: Address },
    /// A program-derived address acts. The seeds are the proof: the ledger
    /// derives the address from them under its own program.
    Derivation { seeds: Vec<Vec<u8>> },
}

/// An [`Authority`] as a mathematical value.
pub enum AuthorityView {
    Signature { signer: Address },
    Derivation { seeds: Seq<Seq<u8>> },
}

impl View for Authority {
    type V = AuthorityView;

    open spec fn view(&self) -> AuthorityView {
        match *self {
            Authority::Signature { signer } => AuthorityView::Signature { signer },
            Authority::Derivation { seeds } => AuthorityView::Derivation {
                seeds: seeds.deep_view(),
            },
        }
    }
}

/// Moves units of an asset from one custodial account to another, stating
/// the asset and its scale.
#[derive(Clone, Debug, PartialEq, Eq)]
pub struct TransferChecked {
    pub from: Holding,
    pub mint: Address,
    pub to: Holding,
    pub authority: Authority,
}

/// A [`TransferChecked`] as a mathematical value.
pub struct TransferCheckedView {
    pub from: Holding,
    pub mint: Address,
    pub to: Holding,
    pub authority: AuthorityView,
}

impl View for TransferChecked {
    type V = TransferCheckedView;

    open spec fn view(&self) -> TransferCheckedView {
        TransferCheckedView {
            from: self.from,
            mint: self.mint,
            to: self.to,
            authority: self.authority@,
        }
    }
}

/// Closes an empty custodial account and pays its storage allowance to
/// `destination`.
#[derive(Clone, Debug, PartialEq, Eq)]
pub struct CloseAccount {
    pub account: Holding,
    pub destination: Address,
    pub authority: Authority,
}

/// A [`CloseAccount`] as a mathematical value.
pub struct CloseAccountView {
    pub account: Holding,
    pub destination: Address,
    pub authority: AuthorityView,
}

impl View for CloseAccount {
    type V = CloseAccountView;

    open spec fn view(&self) -> CloseAccountView {
        CloseAccountView {
            account: self.account,
            destination: self.destination,
            authority: self.authority@,
        }
    }
}

} // verus!
