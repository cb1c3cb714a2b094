//! The token ledger as mathematics: its state, the effect of each operation
//! on it, and the laws that hold of every reachable state.

use vstd::prelude::*;
use crate::errors::ContractError;

verus! {

/// The model of a holder identity: the text of its key.
pub type Holder = Seq<char>;

/// The sum of all values of a finite map.
pub open spec fn total<K>(m: Map<K, int>) -> int
    decreases m.dom().len(),
    when m.dom().finite()
{
    if m.dom().len() == 0 {
        0
    } else {
        let k = m.dom().choose();
        m[k] + total(m.remove(k))
    }
}

/// Any one key can be split off the sum.
pub proof fn lemma_total_remove<K>(m: Map<K, int>, k: K)
    requires
        m.dom().finite(),
        m.contains_key(k),
    ensures
        total(m) == m[k] + total(m.remove(k)),
    decreases m.dom().len(),
{
    let c = m.dom().choose();
    if c != k {
        lemma_total_remove(m.remove(c), k);
        lemma_total_remove(m.remove(k), c);
        assert(m.remove(c).remove(k) =~= m.remove(k).remove(c));
    }
}

/// Giving `k` the value `v` changes the sum by the difference to what `k`
/// had before, an absent key counting as zero.
pub proof fn lemma_total_insert<K>(m: Map<K, int>, k: K, v: int)
    requires
        m.dom().finite(),
    ensures
        total(m.insert(k, v)) == total(m) - (if m.contains_key(k) {
            m[k]
        } else {
            0
        }) + v,
{
    lemma_total_remove(m.insert(k, v), k);
    if m.contains_key(k) {
        lemma_total_remove(m, k);
        assert(m.insert(k, v).remove(k) =~= m.remove(k));
    } else {
        assert(m.insert(k, v).remove(k) =~= m);
    }
}

/// Where no value is negative, the sum is not negative either.
pub proof fn lemma_total_nonnegative<K>(m: Map<K, int>)
    requires
        m.dom().finite(),
        forall|k: K| m.contains_key(k) ==> #[trigger] m[k] >= 0,
    ensures
        total(m) >= 0,
    decreases m.dom().len(),
{
    if m.dom().len() != 0 {
        let c = m.dom().choose();
        lemma_total_nonnegative(m.remove(c));
    }
}

/// Where no value is negative, two different keys together hold no more
/// than the sum.
pub proof fn lemma_total_bounds_pair<K>(m: Map<K, int>, a: K, b: K)
    requires
        m.dom().finite(),
        forall|k: K| m.contains_key(k) ==> #[trigger] m[k] >= 0,
        m.contains_key(a),
        m.contains_key(b),
        a != b,
    ensures
        m[a] + m[b] <= total(m),
{
    lemma_total_remove(m, a);
    lemma_total_remove(m.remove(a), b);
    lemma_total_nonnegative(m.remove(a).remove(b));
}

/// Where no value is negative, no key holds more than the sum.
pub proof fn lemma_total_bounds<K>(m: Map<K, int>, a: K)
    requires
        m.dom().finite(),
        forall|k: K| m.contains_key(k) ==> #[trigger] m[k] >= 0,
        m.contains_key(a),
    ensures
        m[a] <= total(m),
{
    lemma_total_remove(m, a);
    lemma_total_nonnegative(m.remove(a));
}

/// An approval as the model sees it: what is left of the approved amount,
/// and the last ledger sequence at which it may still be spent.
pub struct AllowanceModel {
    pub amount: int,
    pub expiration_ledger: nat,
}

/// What is left of a balance after `amount` is taken from it.
pub open spec fn debited(balance: int, amount: int) -> Result<int, ContractError> {
    if amount <= 0 {
        Err(ContractError::InvalidAmount)
    } else if balance < amount {
        Err(ContractError::InsufficientBalance)
    } else {
        Ok(balance - amount)
    }
}

/// What a balance becomes when `amount` is added to it.
pub open spec fn credited(balance: int, amount: int) -> Result<int, ContractError> {
    if amount <= 0 {
        Err(ContractError::InvalidAmount)
    } else {
        Ok(balance + amount)
    }
}

/// The approval that `approve` records.
pub open spec fn granted(amount: int, expiration_ledger: nat) -> Result<
    AllowanceModel,
    ContractError,
> {
    if amount < 0 {
        Err(ContractError::InvalidAmount)
    } else {
        Ok(AllowanceModel { amount, expiration_ledger })
    }
}

/// What a spender may still spend at ledger sequence `ledger`: nothing
/// without a record, nothing once the sequence has passed the expiration.
pub open spec fn live_amount(record: Option<AllowanceModel>, ledger: nat) -> int {
    match record {
        Some(a) => if ledger <= a.expiration_ledger {
            a.amount
        } else {
            0
        },
        None => 0,
    }
}

/// The record that is left after `amount` is spent at ledger sequence
/// `ledger`.
pub open spec fn spent(record: Option<AllowanceModel>, ledger: nat, amount: int) -> Result<
    AllowanceModel,
    ContractError,
> {
    if amount <= 0 {
        Err(ContractError::InvalidAmount)
    } else {
        match record {
            None => Err(ContractError::InsufficientAllowance),
            Some(a) => if ledger > a.expiration_ledger {
                Err(ContractError::AllowanceExpired)
            } else if a.amount < amount {
                Err(ContractError::InsufficientAllowance)
            } else {
                Ok(AllowanceModel { amount: a.amount - amount, expiration_ledger: a.expiration_ledger })
            },
        }
    }
}

/// The state of a token ledger.
pub struct TokenModel {
    /// The one identity that may mint.
    pub admin: Holder,
    pub name: Seq<char>,
    pub symbol: Seq<char>,
    pub decimals: nat,
    /// The current ledger sequence; it never goes back.
    pub ledger_sequence: nat,
    pub total_supply: int,
    /// A holder without an entry has balance zero.
    pub balances: Map<Holder, int>,
    /// Keyed by owner, then spender.
    pub allowances: Map<(Holder, Holder), AllowanceModel>,
}

/// One request to a token ledger.
pub enum TokenOperation {
    Mint { actor: Holder, to: Holder, amount: int },
    Burn { from: Holder, amount: int },
    Transfer { from: Holder, to: Holder, amount: int },
    Approve { owner: Holder, spender: Holder, amount: int, expiration_ledger: nat },
    TransferFrom { spender: Holder, owner: Holder, to: Holder, amount: int },
    BurnFrom { spender: Holder, from: Holder, amount: int },
    AdvanceLedger { sequence: nat },
}

impl TokenModel {
    /// A new ledger: no supply, no balances, no approvals, ledger sequence 0.
    pub open spec fn initial(admin: Holder, name: Seq<char>, symbol: Seq<char>, decimals: nat) -> TokenModel {
        TokenModel {
            admin,
            name,
            symbol,
            decimals,
            ledger_sequence: 0,
            total_supply: 0,
            balances: Map::empty(),
            allowances: Map::empty(),
        }
    }

    /// The balance of `holder`.
    pub open spec fn balance(self, holder: Holder) -> int {
        if self.balances.contains_key(holder) {
            self.balances[holder]
        } else {
            0
        }
    }

    /// The approval recorded for `spender` on `owner`'s balance, if any.
    pub open spec fn record(self, owner: Holder, spender: Holder) -> Option<AllowanceModel> {
        if self.allowances.contains_key((owner, spender)) {
            Some(self.allowances[(owner, spender)])
        } else {
            None
        }
    }

    /// What `spender` may spend of `owner`'s balance now.
    pub open spec fn allowance(self, owner: Holder, spender: Holder) -> int {
        live_amount(self.record(owner, spender), self.ledger_sequence)
    }

    /// This state with the balance of `holder` set to `value`.
    pub open spec fn with_balance(self, holder: Holder, value: int) -> TokenModel {
        TokenModel { balances: self.balances.insert(holder, value), ..self }
    }

    /// This state with the supply changed by `delta`.
    pub open spec fn with_supply_change(self, delta: int) -> TokenModel {
        TokenModel { total_supply: self.total_supply + delta, ..self }
    }

    /// This state with `record` as the approval of `spender` by `owner`.
    pub open spec fn with_record(self, owner: Holder, spender: Holder, record: AllowanceModel) -> TokenModel {
        TokenModel { allowances: self.allowances.insert((owner, spender), record), ..self }
    }

    /// `actor` creates `amount` new units for `to`. Only the administrator
    /// may; the amount must be positive.
    pub open spec fn mint(self, actor: Holder, to: Holder, amount: int) -> Result<TokenModel, ContractError> {
        if actor != self.admin {
            Err(ContractError::Unauthorized)
        } else {
            match credited(self.balance(to), amount) {
                Err(e) => Err(e),
                Ok(b) => Ok(self.with_balance(to, b).with_supply_change(amount)),
            }
        }
    }

    /// `from` destroys `amount` of its units.
    pub open spec fn burn(self, from: Holder, amount: int) -> Result<TokenModel, ContractError> {
        match debited(self.balance(from), amount) {
            Err(e) => Err(e),
            Ok(b) => Ok(self.with_balance(from, b).with_supply_change(-amount)),
        }
    }

    /// `from` hands `amount` of its units to `to`.
    pub open spec fn transfer(self, from: Holder, to: Holder, amount: int) -> Result<TokenModel, ContractError> {
        match debited(self.balance(from), amount) {
            Err(e) => Err(e),
            Ok(b) => {
                let taken = self.with_balance(from, b);
                Ok(taken.with_balance(to, taken.balance(to) + amount))
            },
        }
    }

    /// `owner` lets `spender` spend up to `amount` of its balance until the
    /// ledger sequence passes `expiration_ledger`. Replaces any earlier
    /// approval for the pair.
    pub open spec fn approve(self, owner: Holder, spender: Holder, amount: int, expiration_ledger: nat) -> Result<
        TokenModel,
        ContractError,
    > {
        match granted(amount, expiration_ledger) {
            Err(e) => Err(e),
            Ok(a) => Ok(self.with_record(owner, spender, a)),
        }
    }

    /// `spender` hands `amount` of `owner`'s units to `to`, out of its
    /// allowance.
    pub open spec fn transfer_from(self, spender: Holder, owner: Holder, to: Holder, amount: int) -> Result<
        TokenModel,
        ContractError,
    > {
        match spent(self.record(owner, spender), self.ledger_sequence, amount) {
            Err(e) => Err(e),
            Ok(rest) => match self.transfer(owner, to, amount) {
                Err(e) => Err(e),
                Ok(moved) => Ok(moved.with_record(owner, spender, rest)),
            },
        }
    }

    /// `spender` destroys `amount` of `from`'s units, out of its allowance.
    pub open spec fn burn_from(self, spender: Holder, from: Holder, amount: int) -> Result<
        TokenModel,
        ContractError,
    > {
        match spent(self.record(from, spender), self.ledger_sequence, amount) {
            Err(e) => Err(e),
            Ok(rest) => match self.burn(from, amount) {
                Err(e) => Err(e),
                Ok(burnt) => Ok(burnt.with_record(from, spender, rest)),
            },
        }
    }

    /// The ledger sequence moves on to `sequence`, unless it is already
    /// past it.
    pub open spec fn advance_ledger(self, sequence: nat) -> TokenModel {
        TokenModel {
            ledger_sequence: if sequence > self.ledger_sequence {
                sequence
            } else {
                self.ledger_sequence
            },
            ..self
        }
    }

    /// What `op` asks for: the new state, or why it is rejected.
    pub open spec fn request(self, op: TokenOperation) -> Result<TokenModel, ContractError> {
        match op {
            TokenOperation::Mint { actor, to, amount } => self.mint(actor, to, amount),
            TokenOperation::Burn { from, amount } => self.burn(from, amount),
            TokenOperation::Transfer { from, to, amount } => self.transfer(from, to, amount),
            TokenOperation::Approve { owner, spender, amount, expiration_ledger } => self.approve(
                owner,
                spender,
                amount,
                expiration_ledger,
            ),
            TokenOperation::TransferFrom { spender, owner, to, amount } => self.transfer_from(
                spender,
                owner,
                to,
                amount,
            ),
            TokenOperation::BurnFrom { spender, from, amount } => self.burn_from(spender, from, amount),
            TokenOperation::AdvanceLedger { sequence } => Ok(self.advance_ledger(sequence)),
        }
    }

    /// The state after `op`: a rejected request leaves it as it was.
    pub open spec fn after(self, op: TokenOperation) -> TokenModel {
        match self.request(op) {
            Ok(next) => next,
            Err(_) => self,
        }
    }

    /// The state after each request in `ops`, in order.
    pub open spec fn after_all(self, ops: Seq<TokenOperation>) -> TokenModel
        decreases ops.len(),
    {
        if ops.len() == 0 {
            self
        } else {
            self.after_all(ops.drop_last()).after(ops.last())
        }
    }

    /// What holds of every state a ledger can reach: finitely many holders,
    /// no negative balance, no negative allowance, and a supply that is the
    /// sum of all balances.
    pub open spec fn consistent(self) -> bool {
        &&& self.balances.dom().finite()
        &&& forall|h: Holder| self.balances.contains_key(h) ==> #[trigger] self.balances[h] >= 0
        &&& forall|p: (Holder, Holder)|
            self.allowances.contains_key(p) ==> (#[trigger] self.allowances[p]).amount >= 0
        &&& total(self.balances) == self.total_supply
    }
}

/// A new ledger is consistent.
pub proof fn lemma_initial_consistent(admin: Holder, name: Seq<char>, symbol: Seq<char>, decimals: nat)
    ensures
        TokenModel::initial(admin, name, symbol, decimals).consistent(),
{
}

/// Every accepted request takes a consistent state to a consistent state.
pub proof fn lemma_request_keeps_consistent(m: TokenModel, op: TokenOperation)
    requires
        m.consistent(),
    ensures
        m.after(op).consistent(),
{
    match op {
        TokenOperation::Mint { actor, to, amount } => {
            lemma_total_insert(m.balances, to, m.balance(to) + amount);
        },
        TokenOperation::Burn { from, amount } => {
            lemma_total_insert(m.balances, from, m.balance(from) - amount);
        },
        TokenOperation::Transfer { from, to, amount } => {
            lemma_transfer_keeps_consistent(m, from, to, amount);
        },
        TokenOperation::Approve { owner, spender, amount, expiration_ledger } => {},
        TokenOperation::TransferFrom { spender, owner, to, amount } => {
            lemma_transfer_keeps_consistent(m, owner, to, amount);
        },
        TokenOperation::BurnFrom { spender, from, amount } => {
            lemma_total_insert(m.balances, from, m.balance(from) - amount);
        },
        TokenOperation::AdvanceLedger { sequence } => {},
    }
}

/// A transfer moves units and makes none: the sum of all balances, and with
/// it consistency, is kept.
pub proof fn lemma_transfer_keeps_consistent(m: TokenModel, from: Holder, to: Holder, amount: int)
    requires
        m.consistent(),
    ensures
        m.transfer(from, to, amount) matches Ok(next) ==> next.consistent() && next.total_supply
            == m.total_supply,
{
    if let Ok(b) = debited(m.balance(from), amount) {
        let taken = m.with_balance(from, b);
        lemma_total_insert(m.balances, from, b);
        lemma_total_insert(taken.balances, to, taken.balance(to) + amount);
    }
}

/// The supply is the sum of all holder balances after any sequence of
/// requests, accepted or rejected, to a ledger that started consistent: at
/// the end of the sequence, and so, every prefix of a sequence being a
/// sequence, at every point on the way.
pub proof fn lemma_supply_is_sum_of_balances(start: TokenModel, ops: Seq<TokenOperation>)
    requires
        start.consistent(),
    ensures
        start.after_all(ops).consistent(),
        total(start.after_all(ops).balances) == start.after_all(ops).total_supply,
    decreases ops.len(),
{
    if ops.len() > 0 {
        lemma_supply_is_sum_of_balances(start, ops.drop_last());
        lemma_request_keeps_consistent(start.after_all(ops.drop_last()), ops.last());
    }
}

/// After `approve` has succeeded with an expiration that the ledger
/// sequence has not passed, the allowance is exactly the approved amount,
/// whatever was approved before.
pub proof fn lemma_approve_sets_allowance(
    m: TokenModel,
    owner: Holder,
    spender: Holder,
    amount: int,
    expiration_ledger: nat,
)
    requires
        m.approve(owner, spender, amount, expiration_ledger) is Ok,
        m.ledger_sequence <= expiration_ledger,
    ensures
        m.approve(owner, spender, amount, expiration_ledger)->Ok_0.allowance(owner, spender) == amount,
{
}

/// After `approve` with an expiration that the ledger sequence has already
/// passed, the allowance is zero.
pub proof fn lemma_approve_in_the_past(
    m: TokenModel,
    owner: Holder,
    spender: Holder,
    amount: int,
    expiration_ledger: nat,
)
    requires
        m.approve(owner, spender, amount, expiration_ledger) is Ok,
        m.ledger_sequence > expiration_ledger,
    ensures
        m.approve(owner, spender, amount, expiration_ledger)->Ok_0.allowance(owner, spender) == 0,
{
}

/// After `transfer_from` has succeeded, the allowance is down by exactly
/// the amount, which it covered; the owner's units went to the receiver,
/// and the supply is as it was.
pub proof fn lemma_transfer_from_reduces_allowance(
    m: TokenModel,
    spender: Holder,
    owner: Holder,
    to: Holder,
    amount: int,
)
    requires
        m.transfer_from(spender, owner, to, amount) is Ok,
    ensures
        ({
            let next = m.transfer_from(spender, owner, to, amount)->Ok_0;
            &&& 0 < amount <= m.allowance(owner, spender)
            &&& next.allowance(owner, spender) == m.allowance(owner, spender) - amount
            &&& next.total_supply == m.total_supply
            &&& owner != to ==> next.balance(owner) == m.balance(owner) - amount && next.balance(to)
                == m.balance(to) + amount
            &&& owner == to ==> next.balance(owner) == m.balance(owner)
        }),
{
}

/// After `burn_from` has succeeded, the allowance is down by exactly the
/// amount, which it covered, and so are the holder's balance and the
/// supply.
pub proof fn lemma_burn_from_reduces_allowance(m: TokenModel, spender: Holder, from: Holder, amount: int)
    requires
        m.burn_from(spender, from, amount) is Ok,
    ensures
        ({
            let next = m.burn_from(spender, from, amount)->Ok_0;
            &&& 0 < amount <= m.allowance(from, spender)
            &&& next.allowance(from, spender) == m.allowance(from, spender) - amount
            &&& next.balance(from) == m.balance(from) - amount
            &&& next.total_supply == m.total_supply - amount
        }),
{
}

/// Spending more than the allowance fails with `InsufficientAllowance`, by
/// `transfer_from` and by `burn_from`, unless there is an approval that has
/// expired, for which see [`lemma_expired_allowance_rejected`].
pub proof fn lemma_overspending_rejected(m: TokenModel, spender: Holder, owner: Holder, to: Holder, amount: int)
    requires
        m.consistent(),
        amount > m.allowance(owner, spender),
        m.record(owner, spender) matches Some(a) ==> m.ledger_sequence <= a.expiration_ledger,
    ensures
        m.transfer_from(spender, owner, to, amount) == Err::<TokenModel, ContractError>(
            ContractError::InsufficientAllowance,
        ),
        m.burn_from(spender, owner, amount) == Err::<TokenModel, ContractError>(
            ContractError::InsufficientAllowance,
        ),
{
    if m.allowances.contains_key((owner, spender)) {
        assert(m.allowances[(owner, spender)].amount >= 0);
    }
}

/// Once the ledger sequence has passed an approval's expiration, the
/// allowance is zero and every spend of a positive amount fails with
/// `AllowanceExpired`.
pub proof fn lemma_expired_allowance_rejected(
    m: TokenModel,
    spender: Holder,
    owner: Holder,
    to: Holder,
    amount: int,
)
    requires
        m.record(owner, spender) matches Some(a) && m.ledger_sequence > a.expiration_ledger,
        amount > 0,
    ensures
        m.allowance(owner, spender) == 0,
        m.transfer_from(spender, owner, to, amount) == Err::<TokenModel, ContractError>(
            ContractError::AllowanceExpired,
        ),
        m.burn_from(spender, owner, amount) == Err::<TokenModel, ContractError>(
            ContractError::AllowanceExpired,
        ),
{
}

/// What an accepted `mint` does: the receiver's balance and the supply are
/// up by exactly the amount, and every other balance is as it was.
pub proof fn lemma_mint_effect(m: TokenModel, actor: Holder, to: Holder, amount: int, other: Holder)
    requires
        m.mint(actor, to, amount) is Ok,
        other != to,
    ensures
        ({
            let next = m.mint(actor, to, amount)->Ok_0;
            &&& actor == m.admin
            &&& amount > 0
            &&& next.balance(to) == m.balance(to) + amount
            &&& next.total_supply == m.total_supply + amount
            &&& next.balance(other) == m.balance(other)
        }),
{
}

/// What an accepted `burn` does: the holder's balance, which covered the
/// amount, and the supply are down by exactly the amount, and every other
/// balance is as it was.
pub proof fn lemma_burn_effect(m: TokenModel, from: Holder, amount: int, other: Holder)
    requires
        m.burn(from, amount) is Ok,
        other != from,
    ensures
        ({
            let next = m.burn(from, amount)->Ok_0;
            &&& 0 < amount <= m.balance(from)
            &&& next.balance(from) == m.balance(from) - amount
            &&& next.total_supply == m.total_supply - amount
            &&& next.balance(other) == m.balance(other)
        }),
{
}

/// What an accepted `transfer` does: the sender's balance, which covered the
/// amount, is down by it and the receiver's is up by it, or, where they are
/// one holder, its balance is as it was; the supply and every other balance
/// are as they were.
pub proof fn lemma_transfer_effect(m: TokenModel, from: Holder, to: Holder, amount: int, other: Holder)
    requires
        m.transfer(from, to, amount) is Ok,
        other != from,
        other != to,
    ensures
        ({
            let next = m.transfer(from, to, amount)->Ok_0;
            &&& 0 < amount <= m.balance(from)
            &&& from != to ==> next.balance(from) == m.balance(from) - amount && next.balance(to)
                == m.balance(to) + amount
            &&& from == to ==> next.balance(from) == m.balance(from)
            &&& next.total_supply == m.total_supply
            &&& next.balance(other) == m.balance(other)
        }),
{
}

} // verus!
