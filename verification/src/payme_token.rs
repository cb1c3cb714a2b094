//! The token ledger: balances per holder, the total supply, and approvals
//! that let one holder spend from another's balance for a time.

use vstd::prelude::*;
use crate::address::Address;
use crate::errors::{follows, yields, yields_amount, ContractError};
use crate::table::Table;
use crate::token_model::{
    credited, debited, granted, lemma_total_bounds, lemma_total_bounds_pair, lemma_total_insert,
    lemma_total_nonnegative, live_amount, spent, total, AllowanceModel, TokenModel,
};

verus! {

/// An approval: what is left of the approved amount, and the last ledger
/// sequence at which it may still be spent.
#[derive(Clone, Copy, Debug, PartialEq, Eq, Structural)]
pub struct Allowance {
    pub amount: i128,
    pub expiration_ledger: u32,
}

impl View for Allowance {
    type V = AllowanceModel;

    open spec fn view(&self) -> AllowanceModel {
        AllowanceModel { amount: self.amount as int, expiration_ledger: self.expiration_ledger as nat }
    }
}

/// The model of a stored approval that may be absent.
pub open spec fn record_model(record: Option<Allowance>) -> Option<AllowanceModel> {
    match record {
        Some(a) => Some(a@),
        None => None,
    }
}

/// Takes `amount` from `balance`. The amount must be positive and the
/// balance must cover it.
pub fn debit(balance: i128, amount: i128) -> (r: Result<i128, ContractError>)
    ensures
        yields_amount(r, debited(balance as int, amount as int)),
{
    if amount <= 0 {
        Err(ContractError::InvalidAmount)
    } else if balance < amount {
        Err(ContractError::InsufficientBalance)
    } else {
        Ok(balance - amount)
    }
}

/// Adds `amount` to `balance`. The amount must be positive.
pub fn credit(balance: i128, amount: i128) -> (r: Result<i128, ContractError>)
    requires
        balance + amount <= i128::MAX,
    ensures
        yields_amount(r, credited(balance as int, amount as int)),
{
    if amount <= 0 {
        Err(ContractError::InvalidAmount)
    } else {
        Ok(balance + amount)
    }
}

/// The approval that `approve` records. The amount must not be negative;
/// zero clears the approval.
pub fn grant(amount: i128, expiration_ledger: u32) -> (r: Result<Allowance, ContractError>)
    ensures
        yields(r, granted(amount as int, expiration_ledger as nat)),
{
    if amount < 0 {
        Err(ContractError::InvalidAmount)
    } else {
        Ok(Allowance { amount, expiration_ledger })
    }
}

/// What may still be spent of `record` at ledger sequence `ledger_sequence`:
/// nothing without a record, nothing once the sequence has passed the
/// record's expiration.
pub fn live_allowance(record: Option<Allowance>, ledger_sequence: u32) -> (r: i128)
    ensures
        r == live_amount(record_model(record), ledger_sequence as nat),
{
    match record {
        Some(a) => if ledger_sequence <= a.expiration_ledger {
            a.amount
        } else {
            0
        },
        None => 0,
    }
}

/// Spends `amount` of `record` at ledger sequence `ledger_sequence` and
/// returns what is left of it. The amount must be positive, there must be a
/// record, it must not have expired, and it must cover the amount; the first
/// of these that fails is the error.
pub fn spend_allowance(record: Option<Allowance>, ledger_sequence: u32, amount: i128) -> (r: Result<
    Allowance,
    ContractError,
>)
    ensures
        yields(r, spent(record_model(record), ledger_sequence as nat, amount as int)),
{
    if amount <= 0 {
        return Err(ContractError::InvalidAmount);
    }
    match record {
        None => Err(ContractError::InsufficientAllowance),
        Some(a) => if ledger_sequence > a.expiration_ledger {
            Err(ContractError::AllowanceExpired)
        } else if a.amount < amount {
            Err(ContractError::InsufficientAllowance)
        } else {
            Ok(Allowance { amount: a.amount - amount, expiration_ledger: a.expiration_ledger })
        },
    }
}

/// A token ledger.
pub struct TokenContract {
    admin: Address,
    name: String,
    symbol: String,
    decimals: u32,
    ledger_sequence: u32,
    total_supply: i128,
    balances: Table<Address, i128>,
    allowances: Table<(Address, Address), Allowance>,
}

impl View for TokenContract {
    type V = TokenModel;

    closed spec fn view(&self) -> TokenModel {
        TokenModel {
            admin: self.admin@,
            name: self.name@,
            symbol: self.symbol@,
            decimals: self.decimals as nat,
            ledger_sequence: self.ledger_sequence as nat,
            total_supply: self.total_supply as int,
            balances: self.balances@.map_values(|b: i128| b as int),
            allowances: self.allowances@.map_values(|a: Allowance| a@),
        }
    }
}

impl TokenContract {
    /// The stores are in order and the state is one a ledger can reach.
    pub closed spec fn well_formed(&self) -> bool {
        &&& self.balances.well_formed()
        &&& self.allowances.well_formed()
        &&& self@.consistent()
    }

    /// In every ledger the supply is the sum of all holder balances, and
    /// neither a balance nor an allowance is negative.
    pub proof fn lemma_consistent(&self)
        requires
            self.well_formed(),
        ensures
            self@.consistent(),
            total(self@.balances) == self@.total_supply,
            i128::MIN <= self@.total_supply <= i128::MAX,
    {
    }

    /// A new ledger administered by `admin`: no supply, no balances, no
    /// approvals, ledger sequence 0.
    pub fn new(admin: Address, name: String, symbol: String, decimals: u32) -> (r: TokenContract)
        ensures
            r.well_formed(),
            r@ == TokenModel::initial(admin@, name@, symbol@, decimals as nat),
    {
        let r = TokenContract {
            admin,
            name,
            symbol,
            decimals,
            ledger_sequence: 0,
            total_supply: 0,
            balances: Table::new(),
            allowances: Table::new(),
        };
        proof {
            assert(r@.balances =~= Map::<Seq<char>, int>::empty());
            assert(r@.allowances =~= Map::<(Seq<char>, Seq<char>), AllowanceModel>::empty());
        }
        r
    }

    /// The token's name.
    pub fn name(&self) -> (r: String)
        ensures
            r@ == self@.name,
    {
        self.name.clone()
    }

    /// The token's symbol.
    pub fn symbol(&self) -> (r: String)
        ensures
            r@ == self@.symbol,
    {
        self.symbol.clone()
    }

    /// The number of decimal places in which amounts are shown.
    pub fn decimals(&self) -> (r: u32)
        ensures
            r == self@.decimals,
    {
        self.decimals
    }

    /// The total supply: the sum of all holder balances.
    pub fn get_total_supply(&self) -> (r: i128)
        requires
            self.well_formed(),
        ensures
            r == self@.total_supply,
            r == total(self@.balances),
    {
        self.total_supply
    }

    /// The current ledger sequence.
    pub fn ledger_sequence(&self) -> (r: u32)
        ensures
            r == self@.ledger_sequence,
    {
        self.ledger_sequence
    }

    /// Moves the ledger sequence on to `sequence`. It never goes back: a
    /// sequence that is not ahead of the current one changes nothing.
    pub fn advance_ledger(&mut self, sequence: u32)
        requires
            old(self).well_formed(),
        ensures
            final(self).well_formed(),
            final(self)@ == old(self)@.advance_ledger(sequence as nat),
    {
        if sequence > self.ledger_sequence {
            self.ledger_sequence = sequence;
        }
        proof {
            assert(self@.balances == old(self)@.balances);
            assert(self@.allowances == old(self)@.allowances);
        }
    }

    /// The stored balance of `id`; zero where none is stored.
    fn read_balance(&self, id: &Address) -> (r: i128)
        requires
            self.balances.well_formed(),
        ensures
            r == self@.balance(id@),
    {
        match self.balances.get(id) {
            Some(b) => *b,
            None => 0,
        }
    }

    /// The stored approval of `spender` by `owner`, if there is one.
    fn read_record(&self, owner: &Address, spender: &Address) -> (r: Option<Allowance>)
        requires
            self.allowances.well_formed(),
        ensures
            record_model(r) == self@.record(owner@, spender@),
    {
        let key = (owner.clone(), spender.clone());
        match self.allowances.get(&key) {
            Some(a) => Some(*a),
            None => None,
        }
    }

    /// The balance of `id`; zero for a holder the ledger has never seen.
    pub fn balance(&self, id: &Address) -> (r: i128)
        requires
            self.well_formed(),
        ensures
            r == self@.balance(id@),
            0 <= r <= self@.total_supply,
    {
        let r = self.read_balance(id);
        proof {
            lemma_total_nonnegative(self@.balances);
            if self@.balances.contains_key(id@) {
                lemma_total_bounds(self@.balances, id@);
            }
        }
        r
    }

    /// What `spender` may spend of `owner`'s balance now: zero without an
    /// approval, and zero once the ledger sequence has passed the approval's
    /// expiration.
    pub fn allowance(&self, owner: &Address, spender: &Address) -> (r: i128)
        requires
            self.well_formed(),
        ensures
            r == self@.allowance(owner@, spender@),
    {
        live_allowance(self.read_record(owner, spender), self.ledger_sequence)
    }

    /// Stores `value` as the balance of `id`.
    fn write_balance(&mut self, id: &Address, value: i128)
        requires
            old(self).balances.well_formed(),
        ensures
            final(self).balances.well_formed(),
            final(self).allowances == old(self).allowances,
            final(self)@ == old(self)@.with_balance(id@, value as int),
    {
        self.balances.insert(id.clone(), value);
        proof {
            assert(self@.balances =~= old(self)@.balances.insert(id@, value as int));
        }
    }

    /// Stores `record` as the approval of `spender` by `owner`.
    fn write_record(&mut self, owner: &Address, spender: &Address, record: Allowance)
        requires
            old(self).allowances.well_formed(),
        ensures
            final(self).allowances.well_formed(),
            final(self).balances == old(self).balances,
            final(self)@ == old(self)@.with_record(owner@, spender@, record@),
    {
        self.allowances.insert((owner.clone(), spender.clone()), record);
        proof {
            assert(self@.allowances =~= old(self)@.allowances.insert((owner@, spender@), record@));
        }
    }

    /// `actor` creates `amount` new units for `to`. Fails with
    /// `Unauthorized` unless `actor` is the administrator, then with
    /// `InvalidAmount` unless `amount` is positive. The new supply must fit
    /// the amount type.
    pub fn mint(&mut self, actor: &Address, to: &Address, amount: i128) -> (r: Result<(), ContractError>)
        requires
            old(self).well_formed(),
            old(self)@.total_supply + amount <= i128::MAX,
        ensures
            final(self).well_formed(),
            follows(r, old(self)@, final(self)@, old(self)@.mint(actor@, to@, amount as int)),
    {
        if !actor.same(&self.admin) {
            return Err(ContractError::Unauthorized);
        }
        let balance = self.balance(to);
        match credit(balance, amount) {
            Err(e) => Err(e),
            Ok(b) => {
                proof {
                    lemma_total_insert(self@.balances, to@, b as int);
                }
                self.write_balance(to, b);
                self.total_supply = self.total_supply + amount;
                Ok(())
            },
        }
    }

    /// `from` destroys `amount` of its units. Fails with `InvalidAmount`
    /// unless `amount` is positive, then with `InsufficientBalance` unless
    /// the balance covers it.
    pub fn burn(&mut self, from: &Address, amount: i128) -> (r: Result<(), ContractError>)
        requires
            old(self).well_formed(),
        ensures
            final(self).well_formed(),
            follows(r, old(self)@, final(self)@, old(self)@.burn(from@, amount as int)),
    {
        let balance = self.balance(from);
        match debit(balance, amount) {
            Err(e) => Err(e),
            Ok(b) => {
                proof {
                    lemma_total_insert(self@.balances, from@, b as int);
                }
                self.write_balance(from, b);
                self.total_supply = self.total_supply - amount;
                Ok(())
            },
        }
    }

    /// `from` hands `amount` of its units to `to`. Fails with
    /// `InvalidAmount` unless `amount` is positive, then with
    /// `InsufficientBalance` unless the balance covers it. The supply stays
    /// as it is.
    pub fn transfer(&mut self, from: &Address, to: &Address, amount: i128) -> (r: Result<(), ContractError>)
        requires
            old(self).well_formed(),
        ensures
            final(self).well_formed(),
            follows(r, old(self)@, final(self)@, old(self)@.transfer(from@, to@, amount as int)),
    {
        let balance = self.balance(from);
        match debit(balance, amount) {
            Err(e) => Err(e),
            Ok(b) => {
                let ghost before = self@;
                self.write_balance(from, b);
                let held = self.read_balance(to);
                proof {
                    lemma_total_insert(before.balances, from@, b as int);
                    lemma_total_insert(self@.balances, to@, held + amount);
                    if from@ != to@ && before.balances.contains_key(to@) {
                        lemma_total_bounds_pair(before.balances, from@, to@);
                    }
                }
                self.write_balance(to, held + amount);
                Ok(())
            },
        }
    }

    /// `owner` lets `spender` spend up to `amount` of its balance until the
    /// ledger sequence passes `expiration_ledger`, in place of any earlier
    /// approval for the pair. Fails with `InvalidAmount` if `amount` is
    /// negative; zero clears the approval.
    pub fn approve(&mut self, owner: &Address, spender: &Address, amount: i128, expiration_ledger: u32) -> (r:
        Result<(), ContractError>)
        requires
            old(self).well_formed(),
        ensures
            final(self).well_formed(),
            follows(
                r,
                old(self)@,
                final(self)@,
                old(self)@.approve(owner@, spender@, amount as int, expiration_ledger as nat),
            ),
    {
        match grant(amount, expiration_ledger) {
            Err(e) => Err(e),
            Ok(a) => {
                self.write_record(owner, spender, a);
                Ok(())
            },
        }
    }

    /// `spender` hands `amount` of `owner`'s units to `to`, out of its
    /// allowance, which shrinks by `amount`. Fails with `InvalidAmount`
    /// unless `amount` is positive; then with `InsufficientAllowance` if
    /// there is no approval, `AllowanceExpired` if the ledger sequence has
    /// passed its expiration, `InsufficientAllowance` if it does not cover
    /// the amount; then with `InsufficientBalance` unless `owner`'s balance
    /// covers it.
    pub fn transfer_from(&mut self, spender: &Address, owner: &Address, to: &Address, amount: i128) -> (r:
        Result<(), ContractError>)
        requires
            old(self).well_formed(),
        ensures
            final(self).well_formed(),
            follows(
                r,
                old(self)@,
                final(self)@,
                old(self)@.transfer_from(spender@, owner@, to@, amount as int),
            ),
    {
        let record = self.read_record(owner, spender);
        match spend_allowance(record, self.ledger_sequence, amount) {
            Err(e) => Err(e),
            Ok(rest) => match self.transfer(owner, to, amount) {
                Err(e) => Err(e),
                Ok(()) => {
                    self.write_record(owner, spender, rest);
                    Ok(())
                },
            },
        }
    }

    /// `spender` destroys `amount` of `from`'s units, out of its allowance,
    /// which shrinks by `amount`. Fails as `transfer_from` does.
    pub fn burn_from(&mut self, spender: &Address, from: &Address, amount: i128) -> (r: Result<(), ContractError>)
        requires
            old(self).well_formed(),
        ensures
            final(self).well_formed(),
            follows(r, old(self)@, final(self)@, old(self)@.burn_from(spender@, from@, amount as int)),
    {
        let record = self.read_record(from, spender);
        match spend_allowance(record, self.ledger_sequence, amount) {
            Err(e) => Err(e),
            Ok(rest) => match self.burn(from, amount) {
                Err(e) => Err(e),
                Ok(()) => {
                    self.write_record(from, spender, rest);
                    Ok(())
                },
            },
        }
    }
}

} // verus!
