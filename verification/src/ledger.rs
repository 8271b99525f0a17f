//! The ledger: native balances, registered assets, custodial accounts and
//! escrow records, with the instructions that change them. Every
//! instruction either succeeds as a whole or fails and changes nothing.

use crate::account::{Holding, RecordState, TokenState};
use crate::address::Address;
use crate::derivation::create_program_address;
use crate::error::EscrowError;
use crate::instruction::{Authority, CloseAccount, TransferChecked};
use crate::model::{commits, LedgerState};
use crate::states::Escrow;
use crate::table::{Key, Table};
use vstd::prelude::*;

verus! {

/// The ledger. Its view is a [`LedgerState`].
pub struct Ledger {
    program: Address,
    rent: u64,
    wallets: Table<Address, u64>,
    mints: Table<Address, u8>,
    tokens: Table<Holding, TokenState>,
    records: Table<Address, RecordState>,
}

impl View for Ledger {
    type V = LedgerState;

    closed spec fn view(&self) -> LedgerState {
        LedgerState {
            program: self.program,
            rent: self.rent,
            wallets: self.wallets@,
            mints: self.mints@,
            tokens: self.tokens@,
            records: self.records@,
        }
    }
}

impl Ledger {
    /// An empty ledger for the escrow program at `program`, on which every
    /// new account or record costs `rent`.
    pub fn new(program: Address, rent: u64) -> (ledger: Ledger)
        ensures
            ledger@ == (LedgerState {
                program,
                rent,
                wallets: Map::empty(),
                mints: Map::empty(),
                tokens: Map::empty(),
                records: Map::empty(),
            }),
    {
        Ledger {
            program,
            rent,
            wallets: Table::new(),
            mints: Table::new(),
            tokens: Table::new(),
            records: Table::new(),
        }
    }

    /// A copy of the ledger as it is now.
    pub fn snapshot(&self) -> (copy: Ledger)
        ensures
            copy@ == self@,
    {
        Ledger {
            program: self.program,
            rent: self.rent,
            wallets: self.wallets.duplicate(),
            mints: self.mints.duplicate(),
            tokens: self.tokens.duplicate(),
            records: self.records.duplicate(),
        }
    }

    /// The address of the escrow program.
    pub fn program(&self) -> (program: Address)
        ensures
            program == self@.program,
    {
        self.program
    }

    /// The storage allowance that a new account or record costs.
    pub fn rent(&self) -> (rent: u64)
        ensures
            rent == self@.rent,
    {
        self.rent
    }

    /// The native balance of `address`.
    pub fn native_balance(&self, address: &Address) -> (balance: u64)
        ensures
            balance == self@.native_balance(*address),
    {
        match self.wallets.get(address) {
            Some(balance) => balance,
            None => 0,
        }
    }

    /// The scale of the asset `mint`, where it is registered.
    pub fn decimals(&self, mint: &Address) -> (decimals: Option<u8>)
        ensures
            decimals == (if self@.mints.contains_key(*mint) {
                Some(self@.mints[*mint])
            } else {
                None
            }),
    {
        self.mints.get(mint)
    }

    /// The contents of the custodial account `account`, where it exists.
    pub fn token_account(&self, account: &Holding) -> (state: Option<TokenState>)
        ensures
            state == (if self@.tokens.contains_key(*account) {
                Some(self@.tokens[*account])
            } else {
                None
            }),
    {
        self.tokens.get(account)
    }

    /// The units that `account` holds, where it exists.
    pub fn balance(&self, account: &Holding) -> (balance: Option<u64>)
        ensures
            balance == self@.balance(*account),
    {
        match self.tokens.get(account) {
            Some(state) => Some(state.amount),
            None => None,
        }
    }

    /// The record stored at `address`, where there is one.
    pub fn record(&self, address: &Address) -> (record: Option<Escrow>)
        ensures
            record == (if self@.records.contains_key(*address) {
                Some(self@.records[*address].data)
            } else {
                None
            }),
    {
        match self.records.get(address) {
            Some(state) => Some(state.data),
            None => None,
        }
    }

    /// Whether `authority` proves control of what `owner` owns.
    pub fn authorizes(&self, authority: &Authority, owner: &Address) -> (r: bool)
        ensures
            r == self@.authorizes(authority@, *owner),
    {
        match authority {
            Authority::Signature { signer } => signer.same(owner),
            Authority::Derivation { seeds } => {
                match create_program_address(seeds, &self.program) {
                    Some(derived) => {
                        proof {
                            Address::lemma_view_injective(derived, *owner);
                        }
                        derived.same(owner)
                    },
                    None => false,
                }
            },
        }
    }

    /// Adds `amount` to the native balance of `wallet`.
    pub fn fund(&mut self, wallet: Address, amount: u64) -> (r: Result<(), EscrowError>)
        ensures
            commits(old(self)@, old(self)@.fund(wallet, amount), r, final(self)@),
    {
        let balance = self.native_balance(&wallet);
        if amount > u64::MAX - balance {
            return Err(EscrowError::AllowanceOverflow);
        }
        self.wallets.insert(wallet, balance + amount);
        Ok(())
    }

    /// Registers the asset `mint` with its scale.
    pub fn register_mint(&mut self, mint: Address, decimals: u8) -> (r: Result<(), EscrowError>)
        ensures
            commits(old(self)@, old(self)@.register_mint(mint, decimals), r, final(self)@),
    {
        if self.mints.get(&mint).is_some() {
            return Err(EscrowError::MintExists);
        }
        self.mints.insert(mint, decimals);
        Ok(())
    }

    /// Issues `amount` new units into `account`.
    pub fn mint_to(&mut self, account: Holding, amount: u64) -> (r: Result<(), EscrowError>)
        ensures
            commits(old(self)@, old(self)@.mint_to(account, amount), r, final(self)@),
    {
        let state = match self.tokens.get(&account) {
            Some(state) => state,
            None => {
                return Err(EscrowError::AccountNotFound);
            },
        };
        if amount > u64::MAX - state.amount {
            return Err(EscrowError::BalanceOverflow);
        }
        self.tokens.insert(
            account,
            TokenState { amount: state.amount + amount, allowance: state.allowance },
        );
        Ok(())
    }

    /// Creates the custodial account `account`, empty, at the cost of one
    /// storage allowance to `payer`. Where the account exists already nothing
    /// happens.
    pub fn create_token_account(&mut self, payer: &Address, account: Holding) -> (r: Result<
        (),
        EscrowError,
    >)
        ensures
            commits(
                old(self)@,
                old(self)@.create_token_account(*payer, account),
                r,
                final(self)@,
            ),
    {
        if self.tokens.get(&account).is_some() {
            return Ok(());
        }
        if self.mints.get(&account.mint).is_none() {
            return Err(EscrowError::UnknownMint);
        }
        let balance = self.native_balance(payer);
        if balance < self.rent {
            return Err(EscrowError::InsufficientAllowance);
        }
        self.wallets.insert(*payer, balance - self.rent);
        self.tokens.insert(account, TokenState { amount: 0, allowance: self.rent });
        Ok(())
    }

    /// Moves `amount` units of the asset `ix.mint`, whose scale is stated as
    /// `decimals`, from `ix.from` to `ix.to` under `ix.authority`.
    pub fn transfer_checked(&mut self, ix: &TransferChecked, amount: u64, decimals: u8) -> (r:
        Result<(), EscrowError>)
        ensures
            commits(
                old(self)@,
                old(self)@.transfer_checked(ix@, amount, decimals),
                r,
                final(self)@,
            ),
    {
        let source = match self.tokens.get(&ix.from) {
            Some(state) => state,
            None => {
                return Err(EscrowError::AccountNotFound);
            },
        };
        let destination = match self.tokens.get(&ix.to) {
            Some(state) => state,
            None => {
                return Err(EscrowError::AccountNotFound);
            },
        };
        if source.amount < amount {
            return Err(EscrowError::InsufficientFunds);
        }
        if !ix.from.mint.same(&ix.to.mint) || !ix.mint.same(&ix.from.mint) {
            return Err(EscrowError::MintMismatch);
        }
        match self.mints.get(&ix.mint) {
            None => {
                return Err(EscrowError::UnknownMint);
            },
            Some(scale) => {
                if scale != decimals {
                    return Err(EscrowError::ScaleMismatch);
                }
            },
        }
        if !self.authorizes(&ix.authority, &ix.from.owner) {
            return Err(EscrowError::Unauthorized);
        }
        if ix.from.same(&ix.to) {
            return Ok(());
        }
        if amount > u64::MAX - destination.amount {
            return Err(EscrowError::BalanceOverflow);
        }
        self.tokens.insert(
            ix.from,
            TokenState { amount: source.amount - amount, allowance: source.allowance },
        );
        self.tokens.insert(
            ix.to,
            TokenState { amount: destination.amount + amount, allowance: destination.allowance },
        );
        Ok(())
    }

    /// Closes the empty custodial account `ix.account` under `ix.authority`
    /// and pays its storage allowance to `ix.destination`.
    pub fn close_account(&mut self, ix: &CloseAccount) -> (r: Result<(), EscrowError>)
        ensures
            commits(old(self)@, old(self)@.close_account(ix@), r, final(self)@),
    {
        let state = match self.tokens.get(&ix.account) {
            Some(state) => state,
            None => {
                return Err(EscrowError::AccountNotFound);
            },
        };
        if state.amount != 0 {
            return Err(EscrowError::AccountNotEmpty);
        }
        if !self.authorizes(&ix.authority, &ix.account.owner) {
            return Err(EscrowError::Unauthorized);
        }
        let balance = self.native_balance(&ix.destination);
        if state.allowance > u64::MAX - balance {
            return Err(EscrowError::AllowanceOverflow);
        }
        self.wallets.insert(ix.destination, balance + state.allowance);
        self.tokens.remove(&ix.account);
        Ok(())
    }

    /// Stores `data` as a new record at `address`, at the cost of one storage
    /// allowance to `payer`.
    pub(crate) fn allocate_record(&mut self, address: Address, payer: &Address, data: Escrow) -> (r:
        Result<(), EscrowError>)
        ensures
            commits(
                old(self)@,
                old(self)@.allocate_record(address, *payer, data),
                r,
                final(self)@,
            ),
    {
        if self.records.get(&address).is_some() {
            return Err(EscrowError::RecordExists);
        }
        let balance = self.native_balance(payer);
        if balance < self.rent {
            return Err(EscrowError::InsufficientAllowance);
        }
        self.wallets.insert(*payer, balance - self.rent);
        self.records.insert(address, RecordState { data, allowance: self.rent });
        Ok(())
    }

    /// Destroys the record at `address` and pays its storage allowance to
    /// `destination`.
    pub(crate) fn destroy_record(&mut self, address: &Address, destination: &Address) -> (r: Result<
        (),
        EscrowError,
    >)
        ensures
            commits(
                old(self)@,
                old(self)@.destroy_record(*address, *destination),
                r,
                final(self)@,
            ),
    {
        let state = match self.records.get(address) {
            Some(state) => state,
            None => {
                return Err(EscrowError::RecordNotFound);
            },
        };
        let balance = self.native_balance(destination);
        if state.allowance > u64::MAX - balance {
            return Err(EscrowError::AllowanceOverflow);
        }
        self.wallets.insert(*destination, balance + state.allowance);
        self.records.remove(address);
        Ok(())
    }
}

} // verus!
