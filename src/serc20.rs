use vstd::prelude::*;

use core::marker::PhantomData;

use crate::address::{Address, Grant};
use crate::amount::{word_base, U256};
use crate::table::Table;

verus! {

/// The fixed configuration of a token: its display name, symbol and decimal precision.
pub trait SERC20Details {
    const NAME: &'static str;
    const SYMBOL: &'static str;
    const DECIMALS: u8;
}

/// A debit would take `from` below zero: it holds `have` and `want` was asked for.
#[derive(Clone, Copy, Debug, PartialEq, Eq, Structural)]
pub struct InsufficientBalance {
    pub from: Address,
    pub have: U256,
    pub want: U256,
}

/// A delegated debit exceeds what `owner` granted `spender`: `have` left, `want` asked for.
#[derive(Clone, Copy, Debug, PartialEq, Eq, Structural)]
pub struct InsufficientAllowance {
    pub owner: Address,
    pub spender: Address,
    pub have: U256,
    pub want: U256,
}

/// Why a ledger operation failed; a failed operation changes nothing.
#[derive(Clone, Copy, Debug, PartialEq, Eq, Structural)]
pub enum SERC20Error {
    InsufficientBalance(InsufficientBalance),
    InsufficientAllowance(InsufficientAllowance),
}

/// A notification that a ledger operation emits.
#[derive(Clone, Copy, Debug, PartialEq, Eq, Structural)]
pub enum Event {
    Transfer { from: Address, to: Address, amount: U256 },
    Approval { owner: Address, spender: Address, value: U256 },
}

impl SERC20Error {
    /// `self` reports that `from` holds `have` and was asked for `want`.
    pub open spec fn is_insufficient_balance(self, from: Address, have: nat, want: U256) -> bool {
        match self {
            SERC20Error::InsufficientBalance(e) => e.from == from && e.have@ == have && e.want == want,
            _ => false,
        }
    }

    /// `self` reports that `owner` granted `spender` only `have` and `want` was asked for.
    pub open spec fn is_insufficient_allowance(
        self,
        owner: Address,
        spender: Address,
        have: nat,
        want: U256,
    ) -> bool {
        match self {
            SERC20Error::InsufficientAllowance(e) => e.owner == owner && e.spender == spender
                && e.have@ == have && e.want == want,
            _ => false,
        }
    }
}

/// A token ledger: balances, allowances and the total supply.
pub struct SERC20<T> {
    balances: Table<Address>,
    allowances: Table<Grant>,
    total_supply: U256,
    phantom: PhantomData<T>,
}

impl<T: SERC20Details> SERC20<T> {
    /// The ledger is well formed, and its total supply is the sum of all balances.
    pub closed spec fn wf(&self) -> bool {
        &&& self.balances.wf()
        &&& self.allowances.wf()
        &&& self.total_supply@ == self.balances.sum()
    }

    /// What `account` holds.
    pub closed spec fn balance(&self, account: Address) -> nat {
        self.balances.value(account)
    }

    /// What `spender` may still move out of `owner`'s balance.
    pub closed spec fn allowance_of(&self, owner: Address, spender: Address) -> nat {
        self.allowances.value(Grant { owner, spender })
    }

    /// The total supply counter.
    pub closed spec fn supply(&self) -> nat {
        self.total_supply@
    }

    /// The sum over all accounts of their balances.
    pub closed spec fn balance_sum(&self) -> nat {
        self.balances.sum()
    }

    /// No balance exceeds the total supply.
    pub proof fn lemma_balance_le_supply(&self, account: Address)
        requires
            self.wf(),
        ensures
            self.balance(account) <= self.supply(),
    {
        self.balances.lemma_value_le_sum(account);
    }

    /// `post` has the allowances of `self`.
    pub open spec fn same_allowances(&self, post: &Self) -> bool {
        forall|o: Address, s: Address| #[trigger] post.allowance_of(o, s) == self.allowance_of(o, s)
    }

    /// `post` is `self` after `v` units moved from `from` to `to`.
    pub open spec fn transferred(&self, post: &Self, from: Address, to: Address, v: nat) -> bool {
        &&& post.wf()
        &&& post.supply() == self.supply()
        &&& forall|a: Address| #[trigger] post.balance(a) == self.balance(a) - (if a == from { v } else { 0 })
            + (if a == to { v } else { 0 })
    }

    /// `post` is `self` after `v` units were created for `account`.
    pub open spec fn minted(&self, post: &Self, account: Address, v: nat) -> bool {
        &&& post.wf()
        &&& post.supply() == self.supply() + v
        &&& forall|a: Address| #[trigger] post.balance(a) == self.balance(a) + (if a == account { v } else { 0 })
        &&& self.same_allowances(post)
    }

    /// `post` is `self` after `v` units of `account` were destroyed.
    pub open spec fn burnt(&self, post: &Self, account: Address, v: nat) -> bool {
        &&& post.wf()
        &&& post.supply() == self.supply() - v
        &&& forall|a: Address| #[trigger] post.balance(a) == self.balance(a) - (if a == account { v } else { 0 })
        &&& self.same_allowances(post)
    }

    /// The empty ledger: no balances, no allowances, no supply.
    pub fn new() -> (r: SERC20<T>)
        ensures
            r.wf(),
            r.supply() == 0,
            forall|a: Address| #[trigger] r.balance(a) == 0,
            forall|o: Address, s: Address| #[trigger] r.allowance_of(o, s) == 0,
    {
        SERC20 { balances: Table::new(), allowances: Table::new(), total_supply: U256::zero(), phantom: PhantomData }
    }

    /// Moves `value` units from `from` to `to`, or fails with nothing changed when
    /// `from` holds less than `value`.
    pub fn transfer_impl(&mut self, from: Address, to: Address, value: U256, log: &mut Vec<Event>) -> (r:
        Result<(), SERC20Error>)
        requires
            old(self).wf(),
        ensures
            r is Err <==> old(self).balance(from) < value@,
            r matches Err(e) ==> e.is_insufficient_balance(from, old(self).balance(from), value)
                && *final(self) == *old(self) && final(log)@ == old(log)@,
            r is Ok ==> old(self).transferred(final(self), from, to, value@)
                && old(self).same_allowances(final(self))
                && final(log)@ == old(log)@.push(Event::Transfer { from, to, amount: value }),
    {
        let old_sender_balance = self.balances.get(&from);
        if old_sender_balance.lt(&value) {
            return Err(
                SERC20Error::InsufficientBalance(
                    InsufficientBalance { from, have: old_sender_balance, want: value },
                ),
            );
        }
        let ghost before = *self;
        self.balances.set(&from, old_sender_balance.sub(&value));
        let to_balance = self.balances.get(&to);
        proof {
            self.balances.lemma_value_le_sum(to);
        }
        self.balances.set(&to, to_balance.add(&value));
        log.push(Event::Transfer { from, to, amount: value });
        assert(before.transferred(self, from, to, value@));
        Ok(())
    }

    /// Creates `value` units for `address`; the new total supply must stay below 2^256.
    pub fn mint(&mut self, address: Address, value: U256, log: &mut Vec<Event>)
        requires
            old(self).wf(),
            old(self).supply() + value@ < word_base(),
        ensures
            old(self).minted(final(self), address, value@),
            final(log)@ == old(log)@.push(Event::Transfer { from: Address::null(), to: address, amount: value }),
    {
        let balance = self.balances.get(&address);
        proof {
            self.balances.lemma_value_le_sum(address);
        }
        let ghost before = *self;
        self.balances.set(&address, balance.add(&value));
        self.total_supply = self.total_supply.add(&value);
        log.push(Event::Transfer { from: Address::zero(), to: address, amount: value });
        assert(before.minted(self, address, value@));
    }

    /// Destroys `value` units of `address`, or fails with nothing changed when `address`
    /// holds less than `value`.
    pub fn burn(&mut self, address: Address, value: U256, log: &mut Vec<Event>) -> (r: Result<(), SERC20Error>)
        requires
            old(self).wf(),
        ensures
            r is Err <==> old(self).balance(address) < value@,
            r matches Err(e) ==> e.is_insufficient_balance(address, old(self).balance(address), value)
                && *final(self) == *old(self) && final(log)@ == old(log)@,
            r is Ok ==> old(self).burnt(final(self), address, value@)
                && final(log)@ == old(log)@.push(Event::Transfer { from: address, to: Address::null(), amount: value }),
    {
        let old_balance = self.balances.get(&address);
        if old_balance.lt(&value) {
            return Err(
                SERC20Error::InsufficientBalance(
                    InsufficientBalance { from: address, have: old_balance, want: value },
                ),
            );
        }
        let ghost before = *self;
        self.balances.set(&address, old_balance.sub(&value));
        proof {
            before.balances.lemma_value_le_sum(address);
        }
        self.total_supply = self.total_supply.sub(&value);
        log.push(Event::Transfer { from: address, to: Address::zero(), amount: value });
        assert(before.burnt(self, address, value@));
        Ok(())
    }

    /// The token's display name.
    pub fn name() -> (r: Result<String, SERC20Error>)
        ensures
            r matches Ok(n) && n@ == T::NAME@,
    {
        Ok(String::from_str(T::NAME))
    }

    /// The token's symbol.
    pub fn symbol() -> (r: Result<String, SERC20Error>)
        ensures
            r matches Ok(n) && n@ == T::SYMBOL@,
    {
        Ok(String::from_str(T::SYMBOL))
    }

    /// The token's decimal precision.
    pub fn decimals() -> (r: Result<u8, SERC20Error>)
        ensures
            r == Ok::<u8, SERC20Error>(T::DECIMALS),
    {
        Ok(T::DECIMALS)
    }

    /// The total supply: the sum of all balances.
    pub fn total_supply(&self) -> (r: U256)
        requires
            self.wf(),
        ensures
            r@ == self.supply(),
            r@ == self.balance_sum(),
    {
        self.total_supply
    }

    /// What `address` holds.
    pub fn balance_of(&self, address: Address) -> (r: Result<U256, SERC20Error>)
        requires
            self.wf(),
        ensures
            r matches Ok(v) && v@ == self.balance(address),
    {
        Ok(self.balances.get(&address))
    }

    /// What `spender` may still move out of `owner`'s balance.
    pub fn allowance(&self, owner: Address, spender: Address) -> (r: Result<U256, SERC20Error>)
        requires
            self.wf(),
        ensures
            r matches Ok(v) && v@ == self.allowance_of(owner, spender),
    {
        Ok(self.allowances.get(&Grant { owner, spender }))
    }

    /// `caller` sends `value` of its units to `to`.
    pub fn transfer(&mut self, caller: Address, to: Address, value: U256, log: &mut Vec<Event>) -> (r:
        Result<bool, SERC20Error>)
        requires
            old(self).wf(),
        ensures
            r is Err <==> old(self).balance(caller) < value@,
            r matches Err(e) ==> e.is_insufficient_balance(caller, old(self).balance(caller), value)
                && *final(self) == *old(self) && final(log)@ == old(log)@,
            r is Ok ==> r == Ok::<bool, SERC20Error>(true)
                && old(self).transferred(final(self), caller, to, value@)
                && old(self).same_allowances(final(self))
                && final(log)@ == old(log)@.push(Event::Transfer { from: caller, to, amount: value }),
    {
        self.transfer_impl(caller, to, value, log)?;
        Ok(true)
    }

    /// `caller` lets `spender` move up to `value` of its units, replacing any earlier grant.
    pub fn approve(&mut self, caller: Address, spender: Address, value: U256, log: &mut Vec<Event>) -> (r:
        Result<bool, SERC20Error>)
        requires
            old(self).wf(),
        ensures
            r == Ok::<bool, SERC20Error>(true),
            final(self).wf(),
            final(self).supply() == old(self).supply(),
            forall|a: Address| #[trigger] final(self).balance(a) == old(self).balance(a),
            forall|o: Address, s: Address| #[trigger] final(self).allowance_of(o, s)
                == if o == caller && s == spender { value@ } else { old(self).allowance_of(o, s) },
            final(log)@ == old(log)@.push(Event::Approval { owner: caller, spender, value }),
    {
        let ghost before = *self;
        self.allowances.set(&Grant { owner: caller, spender }, value);
        log.push(Event::Approval { owner: caller, spender, value });
        assert forall|o: Address, s: Address| #[trigger] self.allowance_of(o, s)
            == if o == caller && s == spender { value@ } else { before.allowance_of(o, s) } by {
            if !(o == caller && s == spender) {
                assert(Grant { owner: o, spender: s } != Grant { owner: caller, spender });
            }
        }
        Ok(true)
    }

    /// `caller` moves `value` units from `from` to `to` under `from`'s grant to it. It fails
    /// with nothing changed when the grant is short, else when `from`'s balance is short.
    pub fn transfer_from(
        &mut self,
        caller: Address,
        from: Address,
        to: Address,
        value: U256,
        log: &mut Vec<Event>,
    ) -> (r: Result<bool, SERC20Error>)
        requires
            old(self).wf(),
        ensures
            r is Err <==> old(self).allowance_of(from, caller) < value@ || old(self).balance(from) < value@,
            old(self).allowance_of(from, caller) < value@ ==> (r matches Err(e) && e.is_insufficient_allowance(
                from,
                caller,
                old(self).allowance_of(from, caller),
                value,
            )),
            value@ <= old(self).allowance_of(from, caller) && old(self).balance(from) < value@
                ==> (r matches Err(e) && e.is_insufficient_balance(from, old(self).balance(from), value)),
            r is Err ==> *final(self) == *old(self) && final(log)@ == old(log)@,
            r is Ok ==> r == Ok::<bool, SERC20Error>(true)
                && old(self).transferred(final(self), from, to, value@)
                && final(self).allowance_of(from, caller) == old(self).allowance_of(from, caller) - value@
                && (forall|o: Address, s: Address| !(o == from && s == caller)
                    ==> #[trigger] final(self).allowance_of(o, s) == old(self).allowance_of(o, s))
                && final(log)@ == old(log)@.push(Event::Transfer { from, to, amount: value }),
    {
        let grant = Grant { owner: from, spender: caller };
        let old_allowance = self.allowances.get(&grant);
        if old_allowance.lt(&value) {
            return Err(
                SERC20Error::InsufficientAllowance(
                    InsufficientAllowance { owner: from, spender: caller, have: old_allowance, want: value },
                ),
            );
        }
        let sender_balance = self.balances.get(&from);
        if sender_balance.lt(&value) {
            return Err(
                SERC20Error::InsufficientBalance(
                    InsufficientBalance { from, have: sender_balance, want: value },
                ),
            );
        }
        let ghost before = *self;
        self.allowances.set(&grant, old_allowance.sub(&value));
        assert forall|o: Address, s: Address| !(o == from && s == caller) implies #[trigger] self.allowance_of(o, s)
            == before.allowance_of(o, s) by {
            assert(Grant { owner: o, spender: s } != grant);
        }
        let ghost middle = *self;
        let moved = self.transfer_impl(from, to, value, log);
        assert(moved is Ok);
        assert(middle.balances == before.balances);
        Ok(true)
    }
}


/// In every well-formed ledger, which every operation keeps, the total supply equals the
/// sum over all accounts of their balances.
pub proof fn lemma_supply_is_sum_of_balances<T: SERC20Details>(t: &SERC20<T>)
    requires
        t.wf(),
    ensures
        t.supply() == t.balance_sum(),
{
}

/// Balances and allowances are never negative, and no balance exceeds the total supply.
pub proof fn lemma_amounts_bounded<T: SERC20Details>(
    t: &SERC20<T>,
    account: Address,
    owner: Address,
    spender: Address,
)
    requires
        t.wf(),
    ensures
        0 <= t.balance(account) <= t.supply(),
        0 <= t.allowance_of(owner, spender),
{
    t.lemma_balance_le_supply(account);
}

/// Minting `n` units to `x` and then burning `n` units of `x` gives back the balance of `x`
/// and the total supply from before the mint.
pub proof fn lemma_mint_then_burn<T: SERC20Details>(
    s0: &SERC20<T>,
    s1: &SERC20<T>,
    s2: &SERC20<T>,
    x: Address,
    n: nat,
)
    requires
        s0.wf(),
        s0.minted(s1, x, n),
        s1.burnt(s2, x, n),
    ensures
        s2.balance(x) == s0.balance(x),
        s2.supply() == s0.supply(),
        forall|a: Address| #[trigger] s2.balance(a) == s0.balance(a),
{
    assert forall|a: Address| #[trigger] s2.balance(a) == s0.balance(a) by {
        assert(s1.balance(a) == s0.balance(a) + (if a == x { n } else { 0 }));
    }
}

/// A transfer from an account to itself leaves every balance and the total supply as they were.
pub proof fn lemma_self_transfer<T: SERC20Details>(s0: &SERC20<T>, s1: &SERC20<T>, a: Address, v: nat)
    requires
        s0.wf(),
        v <= s0.balance(a),
        s0.transferred(s1, a, a, v),
    ensures
        forall|b: Address| #[trigger] s1.balance(b) == s0.balance(b),
        s1.supply() == s0.supply(),
{
    assert forall|b: Address| #[trigger] s1.balance(b) == s0.balance(b) by {
        assert(s1.balance(b) == s0.balance(b) - (if b == a { v } else { 0 }) + (if b == a { v } else { 0 }));
    }
}

/// Sending an account's whole balance to another account leaves it at zero, raises the
/// recipient's balance by that amount and keeps the total supply.
pub proof fn lemma_transfer_of_whole_balance<T: SERC20Details>(
    s0: &SERC20<T>,
    s1: &SERC20<T>,
    caller: Address,
    to: Address,
    v: nat,
)
    requires
        s0.wf(),
        s0.balance(caller) == v,
        caller != to,
        s0.transferred(s1, caller, to, v),
    ensures
        s1.balance(caller) == 0,
        s1.balance(to) == s0.balance(to) + v,
        s1.supply() == s0.supply(),
{
    assert(s1.balance(caller) == s0.balance(caller) - v);
    assert(s1.balance(to) == s0.balance(to) + v);
}

} // verus!
