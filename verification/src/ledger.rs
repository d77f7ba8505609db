//! The custodial ledger: who holds how much value, and who holds which asset.

use crate::authority::ListingAuthority;
use crate::error::TransferError;
use crate::pubkey::Pubkey;
use crate::table::{Key, Table};
use vstd::prelude::*;

verus! {

/// The account in which one owner holds units of one asset.
#[derive(Clone, Copy, Debug)]
pub struct Holding {
    pub owner: Pubkey,
    pub mint: Pubkey,
}

impl Key for Holding {
    fn same(&self, other: &Holding) -> (same: bool) {
        self.owner == other.owner && self.mint == other.mint
    }
}

/// Who consents to a transfer of an asset.
#[derive(Clone, Copy, Debug)]
pub enum Authority {
    /// A party that has signed the call.
    Signer(Pubkey),
    /// The market itself, through the authority of a listing.
    Listing(ListingAuthority),
}

impl Authority {
    /// The identity that consents.
    pub open spec fn spec_address(&self) -> Pubkey {
        match *self {
            Authority::Signer(key) => key,
            Authority::Listing(authority) => authority.address(),
        }
    }

    /// The identity that consents.
    #[verifier::when_used_as_spec(spec_address)]
    pub fn address(&self) -> (address: Pubkey)
        ensures
            address == self.spec_address(),
    {
        match self {
            Authority::Signer(key) => *key,
            Authority::Listing(authority) => authority.address(),
        }
    }
}

/// The amounts of a book of accounts, with nothing under an account that the
/// book does not hold.
pub open spec fn amounts<K>(book: Map<K, u64>) -> Map<K, u64> {
    Map::total(
        |key: K|
            if book.contains_key(key) {
                book[key]
            } else {
                0u64
            },
    )
}

/// The amounts after `amount` was added to one account, where it fits.
pub open spec fn credited<K>(book: Map<K, u64>, to: K, amount: u64) -> Result<
    Map<K, u64>,
    TransferError,
> {
    if book[to] + amount > u64::MAX {
        Err(TransferError::BalanceOverflow)
    } else {
        Ok(book.insert(to, (book[to] + amount) as u64))
    }
}

/// The amounts after `amount` moved from one account to another, where the
/// source holds it and the destination has room for it. Moving an amount from
/// an account to itself leaves the amounts as they are.
pub open spec fn moved<K>(book: Map<K, u64>, from: K, to: K, amount: u64) -> Result<
    Map<K, u64>,
    TransferError,
> {
    if book[from] < amount {
        Err(TransferError::InsufficientFunds)
    } else if from == to {
        Ok(book)
    } else if book[to] + amount > u64::MAX {
        Err(TransferError::BalanceOverflow)
    } else {
        Ok(book.insert(from, (book[from] - amount) as u64).insert(to, (book[to] + amount) as u64))
    }
}

/// The amount under an account of a book.
fn amount_in<K: Key>(table: &Table<K, u64>, key: &K) -> (amount: u64)
    requires
        table.wf(),
    ensures
        amount == amounts(table@)[*key],
{
    match table.get(key) {
        Some(amount) => *amount,
        None => 0,
    }
}

/// Adds `amount` to one account of a book, or leaves the book as it is.
fn credit_in<K: Key>(table: &mut Table<K, u64>, to: K, amount: u64) -> (done: Result<
    (),
    TransferError,
>)
    requires
        old(table).wf(),
    ensures
        final(table).wf(),
        match credited(amounts(old(table)@), to, amount) {
            Ok(book) => done is Ok && amounts(final(table)@) == book,
            Err(error) => done == Err::<(), TransferError>(error) && final(table)@ == old(table)@,
        },
{
    let held = amount_in(table, &to);
    if amount > u64::MAX - held {
        return Err(TransferError::BalanceOverflow);
    }
    table.insert(to, held + amount);
    assert(amounts(table@) =~= amounts(old(table)@).insert(to, (held + amount) as u64));
    Ok(())
}

/// Moves `amount` from one account of a book to another, or leaves the book
/// as it is.
fn move_in<K: Key + Copy>(table: &mut Table<K, u64>, from: K, to: K, amount: u64) -> (done:
    Result<(), TransferError>)
    requires
        old(table).wf(),
    ensures
        final(table).wf(),
        match moved(amounts(old(table)@), from, to, amount) {
            Ok(book) => done is Ok && amounts(final(table)@) == book,
            Err(error) => done == Err::<(), TransferError>(error) && final(table)@ == old(table)@,
        },
{
    let source = amount_in(table, &from);
    if source < amount {
        return Err(TransferError::InsufficientFunds);
    }
    if from.same(&to) {
        return Ok(());
    }
    let destination = amount_in(table, &to);
    if amount > u64::MAX - destination {
        return Err(TransferError::BalanceOverflow);
    }
    table.insert(from, source - amount);
    table.insert(to, destination + amount);
    assert(amounts(table@) =~= amounts(old(table)@).insert(from, (source - amount) as u64).insert(
        to,
        (destination + amount) as u64,
    ));
    Ok(())
}

/// What a ledger holds: the value of every party and the units of every
/// asset in every holding. Both maps are total; an account that was never
/// touched holds nothing.
#[verifier::ext_equal]
pub struct LedgerView {
    pub balances: Map<Pubkey, u64>,
    pub holdings: Map<Holding, u64>,
}

impl LedgerView {
    /// The ledger in which nobody holds anything.
    pub open spec fn empty() -> LedgerView {
        LedgerView { balances: Map::total(|who: Pubkey| 0u64), holdings: Map::total(|at: Holding| 0u64) }
    }

    /// Whether the ledger has an amount for every party and every holding.
    pub open spec fn total(self) -> bool {
        &&& forall|who: Pubkey| self.balances.contains_key(who)
        &&& forall|at: Holding| self.holdings.contains_key(at)
    }

    /// The units of an asset that an owner holds.
    pub open spec fn holding(self, owner: Pubkey, mint: Pubkey) -> u64 {
        self.holdings[Holding { owner, mint }]
    }

    /// The ledger after value came to a party from outside.
    pub open spec fn deposit(self, to: Pubkey, amount: u64) -> Result<LedgerView, TransferError> {
        match credited(self.balances, to, amount) {
            Ok(balances) => Ok(LedgerView { balances, ..self }),
            Err(error) => Err(error),
        }
    }

    /// The ledger after units of an asset were issued to an owner.
    pub open spec fn issue(self, owner: Pubkey, mint: Pubkey, amount: u64) -> Result<
        LedgerView,
        TransferError,
    > {
        match credited(self.holdings, Holding { owner, mint }, amount) {
            Ok(holdings) => Ok(LedgerView { holdings, ..self }),
            Err(error) => Err(error),
        }
    }

    /// The ledger after a party paid value to another.
    pub open spec fn transfer_value(self, from: Pubkey, to: Pubkey, amount: u64) -> Result<
        LedgerView,
        TransferError,
    > {
        match moved(self.balances, from, to, amount) {
            Ok(balances) => Ok(LedgerView { balances, ..self }),
            Err(error) => Err(error),
        }
    }

    /// The ledger after units of an asset moved from one owner's holding to
    /// another's, with the consent of `authority`. Only the owner of the
    /// source can consent.
    pub open spec fn transfer_asset(
        self,
        from: Pubkey,
        to: Pubkey,
        mint: Pubkey,
        amount: u64,
        authority: Pubkey,
    ) -> Result<LedgerView, TransferError> {
        if authority != from {
            Err(TransferError::AuthorityMismatch)
        } else {
            match moved(
                self.holdings,
                Holding { owner: from, mint },
                Holding { owner: to, mint },
                amount,
            ) {
                Ok(holdings) => Ok(LedgerView { holdings, ..self }),
                Err(error) => Err(error),
            }
        }
    }
}

/// The custodial ledger. Every transfer either happens whole or not at all.
pub struct Ledger {
    balances: Table<Pubkey, u64>,
    holdings: Table<Holding, u64>,
}

impl View for Ledger {
    type V = LedgerView;

    closed spec fn view(&self) -> LedgerView {
        LedgerView { balances: amounts(self.balances@), holdings: amounts(self.holdings@) }
    }
}

impl Ledger {
    /// The ledger is well formed.
    pub closed spec fn wf(&self) -> bool {
        self.balances.wf() && self.holdings.wf()
    }

    /// A ledger has an amount for every party and every holding.
    pub proof fn lemma_total(&self)
        ensures
            self@.total(),
    {
    }

    /// The ledger in which nobody holds anything.
    pub fn new() -> (ledger: Ledger)
        ensures
            ledger.wf(),
            ledger@ == LedgerView::empty(),
    {
        let ledger = Ledger { balances: Table::new(), holdings: Table::new() };
        assert(ledger@ =~= LedgerView::empty());
        ledger
    }

    /// The value that a party holds.
    pub fn balance(&self, who: &Pubkey) -> (amount: u64)
        requires
            self.wf(),
        ensures
            amount == self@.balances[*who],
    {
        amount_in(&self.balances, who)
    }

    /// The units of an asset that an owner holds.
    pub fn holding(&self, owner: &Pubkey, mint: &Pubkey) -> (amount: u64)
        requires
            self.wf(),
        ensures
            amount == self@.holding(*owner, *mint),
    {
        amount_in(&self.holdings, &Holding { owner: *owner, mint: *mint })
    }

    /// Brings value from outside to a party.
    pub fn deposit(&mut self, to: &Pubkey, amount: u64) -> (done: Result<(), TransferError>)
        requires
            old(self).wf(),
        ensures
            final(self).wf(),
            match old(self)@.deposit(*to, amount) {
                Ok(ledger) => done is Ok && final(self)@ == ledger,
                Err(error) => done == Err::<(), TransferError>(error) && final(self)@ == old(
                    self,
                )@,
            },
    {
        credit_in(&mut self.balances, *to, amount)
    }

    /// Issues units of an asset to an owner.
    pub fn issue(&mut self, owner: &Pubkey, mint: &Pubkey, amount: u64) -> (done: Result<
        (),
        TransferError,
    >)
        requires
            old(self).wf(),
        ensures
            final(self).wf(),
            match old(self)@.issue(*owner, *mint, amount) {
                Ok(ledger) => done is Ok && final(self)@ == ledger,
                Err(error) => done == Err::<(), TransferError>(error) && final(self)@ == old(
                    self,
                )@,
            },
    {
        credit_in(&mut self.holdings, Holding { owner: *owner, mint: *mint }, amount)
    }

    /// Pays `amount` of value from one party to another.
    pub fn transfer_value(&mut self, from: &Pubkey, to: &Pubkey, amount: u64) -> (done: Result<
        (),
        TransferError,
    >)
        requires
            old(self).wf(),
        ensures
            final(self).wf(),
            match old(self)@.transfer_value(*from, *to, amount) {
                Ok(ledger) => done is Ok && final(self)@ == ledger,
                Err(error) => done == Err::<(), TransferError>(error) && final(self)@ == old(
                    self,
                )@,
            },
    {
        move_in(&mut self.balances, *from, *to, amount)
    }

    /// Moves `amount` units of an asset from one owner's holding to
    /// another's, with the consent of `authority`.
    pub fn transfer_asset(
        &mut self,
        from: &Pubkey,
        to: &Pubkey,
        mint: &Pubkey,
        amount: u64,
        authority: &Authority,
    ) -> (done: Result<(), TransferError>)
        requires
            old(self).wf(),
        ensures
            final(self).wf(),
            match old(self)@.transfer_asset(*from, *to, *mint, amount, authority.address()) {
                Ok(ledger) => done is Ok && final(self)@ == ledger,
                Err(error) => done == Err::<(), TransferError>(error) && final(self)@ == old(
                    self,
                )@,
            },
    {
        if !authority.address().same(from) {
            return Err(TransferError::AuthorityMismatch);
        }
        move_in(
            &mut self.holdings,
            Holding { owner: *from, mint: *mint },
            Holding { owner: *to, mint: *mint },
            amount,
        )
    }
}

} // verus!
