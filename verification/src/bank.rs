//! Model of the currency collaborator: a free and a reserved balance per
//! account, a keep-alive floor, and the four capabilities the engine consumes
//! (`reserve`, `unreserve`, `transfer`, `free_balance`).
//!
//! An absent account has balance zero on both sides. The well-formedness
//! invariant keeps every account's total (free plus reserved) within the
//! balance type, so moving funds between the two sides never overflows.

use vstd::prelude::*;
use std::collections::HashMap;

verus! {

broadcast use vstd::std_specs::hash::group_hash_axioms;

/// The balance recorded for `a`, taking an absent account as zero.
pub open spec fn balance_or_zero(m: Map<u64, u64>, a: u64) -> u64 {
    if m.dom().contains(a) {
        m[a]
    } else {
        0u64
    }
}

/// The smaller of two amounts.
pub open spec fn min64(a: u64, b: u64) -> u64 {
    if a <= b {
        a
    } else {
        b
    }
}

/// The currency collaborator's state: spendable and reserved funds per
/// account, and the keep-alive floor a paying account may not fall below.
pub struct Bank {
    pub free: HashMap<u64, u64>,
    pub reserved: HashMap<u64, u64>,
    pub existential_deposit: u64,
}

impl Bank {
    /// The spendable balance of `a`.
    pub open spec fn free_of(self, a: u64) -> u64 {
        balance_or_zero(self.free@, a)
    }

    /// The funds held in reserve against `a`.
    pub open spec fn reserved_of(self, a: u64) -> u64 {
        balance_or_zero(self.reserved@, a)
    }

    /// Every account's total balance fits the balance type.
    pub open spec fn wf(self) -> bool {
        forall|a: u64| #![auto] self.free_of(a) + self.reserved_of(a) <= u64::MAX
    }

    /// `a` is untouched between the two states.
    pub open spec fn account_unchanged(pre: Bank, post: Bank, a: u64) -> bool {
        post.free_of(a) == pre.free_of(a) && post.reserved_of(a) == pre.reserved_of(a)
    }

    /// A reservation of `amount` against `who` would succeed.
    pub open spec fn can_reserve(self, who: u64, amount: u64) -> bool {
        amount <= self.free_of(who)
    }

    /// A transfer of `amount` from `from` to `to` would succeed: `from` can
    /// spend it, stays at or above the keep-alive floor when asked to, and
    /// `to`'s total still fits the balance type.
    pub open spec fn can_transfer(self, from: u64, to: u64, amount: u64, keep_alive: bool) -> bool {
        &&& amount <= self.free_of(from)
        &&& (keep_alive ==> self.free_of(from) - amount >= self.existential_deposit)
        &&& (to != from ==> self.free_of(to) + self.reserved_of(to) + amount <= u64::MAX)
    }

    /// An empty bank: every account at zero.
    pub fn new(existential_deposit: u64) -> (r: Bank)
        ensures
            r.wf(),
            forall|a: u64| #![auto] r.free_of(a) == 0 && r.reserved_of(a) == 0,
            r.existential_deposit == existential_deposit,
    {
        Bank { free: HashMap::new(), reserved: HashMap::new(), existential_deposit }
    }

    /// Endow `who` with a starting free balance and no reservation, as a
    /// genesis configuration does.
    pub fn endow(&mut self, who: u64, amount: u64)
        requires
            old(self).wf(),
        ensures
            final(self).wf(),
            final(self).free_of(who) == amount,
            final(self).reserved_of(who) == 0,
            forall|a: u64| a != who ==> Bank::account_unchanged(*old(self), *final(self), a),
            final(self).existential_deposit == old(self).existential_deposit,
    {
        self.free.insert(who, amount);
        self.reserved.insert(who, 0);
        proof {
            assert forall|a: u64| #![auto] self.free_of(a) + self.reserved_of(a) <= u64::MAX by {
                assert(old(self).free_of(a) + old(self).reserved_of(a) <= u64::MAX);
            }
        }
    }

    /// The spendable balance of `who`.
    pub fn free_balance(&self, who: u64) -> (r: u64)
        ensures
            r == self.free_of(who),
    {
        match self.free.get(&who) {
            Some(v) => *v,
            None => 0,
        }
    }

    /// The funds held in reserve against `who`.
    pub fn reserved_balance(&self, who: u64) -> (r: u64)
        ensures
            r == self.reserved_of(who),
    {
        match self.reserved.get(&who) {
            Some(v) => *v,
            None => 0,
        }
    }

    /// Whether a reservation of `amount` against `who` would succeed.
    pub fn reservable(&self, who: u64, amount: u64) -> (r: bool)
        ensures
            r == self.can_reserve(who, amount),
    {
        amount <= self.free_balance(who)
    }

    /// Whether a transfer of `amount` from `from` to `to` would succeed.
    pub fn transferable(&self, from: u64, to: u64, amount: u64, keep_alive: bool) -> (r: bool)
        requires
            self.wf(),
        ensures
            r == self.can_transfer(from, to, amount, keep_alive),
    {
        let from_free = self.free_balance(from);
        if amount > from_free {
            return false;
        }
        if keep_alive && from_free - amount < self.existential_deposit {
            return false;
        }
        if to != from {
            let to_total = self.free_balance(to) + self.reserved_balance(to);
            if amount > u64::MAX - to_total {
                return false;
            }
        }
        true
    }

    /// Move `amount` of `who`'s free balance into reserve; fail without any
    /// change when the free balance does not cover it.
    pub fn reserve(&mut self, who: u64, amount: u64) -> (r: Result<(), ()>)
        requires
            old(self).wf(),
        ensures
            final(self).wf(),
            final(self).existential_deposit == old(self).existential_deposit,
            r is Ok <==> old(self).can_reserve(who, amount),
            r is Err ==> *final(self) == *old(self),
            r is Ok ==> final(self).free_of(who) == old(self).free_of(who) - amount
                && final(self).reserved_of(who) == old(self).reserved_of(who) + amount,
            forall|a: u64| a != who ==> Bank::account_unchanged(*old(self), *final(self), a),
    {
        let f = self.free_balance(who);
        if amount > f {
            return Err(());
        }
        let res = self.reserved_balance(who);
        assert(res + amount <= u64::MAX);
        self.free.insert(who, f - amount);
        self.reserved.insert(who, res + amount);
        proof {
            assert forall|a: u64| #![auto] self.free_of(a) + self.reserved_of(a) <= u64::MAX by {
                assert(old(self).free_of(a) + old(self).reserved_of(a) <= u64::MAX);
            }
        }
        Ok(())
    }

    /// Release up to `amount` of `who`'s reserve back to the free balance;
    /// never fails, releasing only what is actually reserved.
    pub fn unreserve(&mut self, who: u64, amount: u64)
        requires
            old(self).wf(),
        ensures
            final(self).wf(),
            final(self).existential_deposit == old(self).existential_deposit,
            final(self).free_of(who) == old(self).free_of(who)
                + min64(amount, old(self).reserved_of(who)),
            final(self).reserved_of(who) == old(self).reserved_of(who)
                - min64(amount, old(self).reserved_of(who)),
            forall|a: u64| a != who ==> Bank::account_unchanged(*old(self), *final(self), a),
    {
        let res = self.reserved_balance(who);
        let moved = if amount <= res {
            amount
        } else {
            res
        };
        let f = self.free_balance(who);
        assert(f + moved <= u64::MAX);
        self.free.insert(who, f + moved);
        self.reserved.insert(who, res - moved);
        proof {
            assert forall|a: u64| #![auto] self.free_of(a) + self.reserved_of(a) <= u64::MAX by {
                assert(old(self).free_of(a) + old(self).reserved_of(a) <= u64::MAX);
            }
        }
    }

    /// Move `amount` from `from`'s free balance to `to`'s; fail without any
    /// change unless the transfer can go through. A transfer to oneself
    /// passes the same checks and moves nothing.
    pub fn transfer(&mut self, from: u64, to: u64, amount: u64, keep_alive: bool) -> (r: Result<
        (),
        (),
    >)
        requires
            old(self).wf(),
        ensures
            final(self).wf(),
            final(self).existential_deposit == old(self).existential_deposit,
            r is Ok <==> old(self).can_transfer(from, to, amount, keep_alive),
            r is Err ==> *final(self) == *old(self),
            r is Ok && to != from ==> final(self).free_of(from) == old(self).free_of(from) - amount
                && final(self).free_of(to) == old(self).free_of(to) + amount
                && final(self).reserved_of(from) == old(self).reserved_of(from)
                && final(self).reserved_of(to) == old(self).reserved_of(to),
            r is Ok && to == from ==> *final(self) == *old(self),
            forall|a: u64|
                a != from && a != to ==> Bank::account_unchanged(*old(self), *final(self), a),
    {
        if !self.transferable(from, to, amount, keep_alive) {
            return Err(());
        }
        if to != from {
            let from_free = self.free_balance(from);
            let to_free = self.free_balance(to);
            self.free.insert(from, from_free - amount);
            self.free.insert(to, to_free + amount);
            proof {
                assert forall|a: u64| #![auto] self.free_of(a) + self.reserved_of(a)
                    <= u64::MAX by {
                    assert(old(self).free_of(a) + old(self).reserved_of(a) <= u64::MAX);
                }
            }
        }
        Ok(())
    }
}

} // verus!
