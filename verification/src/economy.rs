//! The escudo economy: ship treasuries and the money supply from which
//! sinking rewards are paid.
use vstd::prelude::*;

verus! {

/// Escudos every newly registered ship starts with.
pub const BASE_SHIP_ESCUDO_BALANCE: u32 = 100;

/// Escudos paid out per deposit when the circulation equals the reserve.
pub const BASE_ESCUDO_PAYOUT: u32 = 30;

/// The treasury of a single ship. Spending lowers the balance only; losing
/// escudos lowers the net worth as well.
pub struct Deposit {
    pub balance: u32,
    pub networth: u32,
}

impl Deposit {
    /// The deposit after earning `val` escudos: balance and net worth grow.
    pub open spec fn earned(self, val: u32) -> Deposit {
        Deposit { balance: (self.balance + val) as u32, networth: (self.networth + val) as u32 }
    }

    /// The deposit after spending `val` escudos: only the balance shrinks.
    pub open spec fn spent(self, val: u32) -> Deposit {
        Deposit { balance: (self.balance - val) as u32, networth: self.networth }
    }

    /// The deposit after losing `val` escudos: balance and net worth shrink.
    pub open spec fn lost(self, val: u32) -> Deposit {
        Deposit { balance: (self.balance - val) as u32, networth: (self.networth - val) as u32 }
    }

    /// A deposit holding `balance` escudos, all of them counted as net worth.
    pub fn new(balance: u32) -> (d: Deposit)
        ensures
            d.balance == balance,
            d.networth == balance,
    {
        Deposit { balance, networth: balance }
    }

    /// The deposit every ship starts with.
    pub fn default() -> (d: Deposit)
        ensures
            d.balance == BASE_SHIP_ESCUDO_BALANCE,
            d.networth == BASE_SHIP_ESCUDO_BALANCE,
    {
        Self::new(BASE_SHIP_ESCUDO_BALANCE)
    }

    /// Earns `val` escudos.
    pub fn add(&mut self, val: u32)
        requires
            old(self).balance + val <= u32::MAX,
            old(self).networth + val <= u32::MAX,
        ensures
            *final(self) == old(self).earned(val),
    {
        self.balance = self.balance + val;
        self.networth = self.networth + val;
    }

    /// Spends `val` escudos; spending does not lower the net worth.
    pub fn spend(&mut self, val: u32)
        requires
            old(self).balance >= val,
        ensures
            *final(self) == old(self).spent(val),
    {
        self.balance = self.balance - val;
    }

    /// Loses `val` escudos.
    pub fn lose(&mut self, val: u32)
        requires
            old(self).balance >= val,
            old(self).networth >= val,
        ensures
            *final(self) == old(self).lost(val),
    {
        self.spend(val);
        self.networth = self.networth - val;
    }
}

/// Earning adds to balance and net worth, spending takes from the balance
/// only, and losing takes from both, each by exactly the amount.
pub proof fn lemma_deposit_amounts(d: Deposit, val: u32)
    ensures
        d.balance + val <= u32::MAX && d.networth + val <= u32::MAX ==> d.earned(val).balance
            == d.balance + val && d.earned(val).networth == d.networth + val,
        val <= d.balance ==> d.spent(val).balance + val == d.balance && d.spent(val).networth
            == d.networth,
        val <= d.balance && val <= d.networth ==> d.lost(val).balance + val == d.balance
            && d.lost(val).networth + val == d.networth,
{
}

/// Earning escudos and then losing as many leaves a treasury as it was;
/// earning and then spending them leaves the balance as it was and keeps the
/// earned net worth.
pub proof fn lemma_deposit_earn_then_lose(d: Deposit, val: u32)
    requires
        d.balance + val <= u32::MAX,
        d.networth + val <= u32::MAX,
    ensures
        d.earned(val).lost(val) == d,
        d.earned(val).spent(val).balance == d.balance,
        d.earned(val).spent(val).networth == d.networth + val,
{
}

impl Deposit {
    /// The balance never exceeds the net worth: money spent is still worth
    /// counted, money lost is not.
    pub open spec fn wf(self) -> bool {
        self.balance <= self.networth
    }
}

/// Every treasury operation keeps the balance within the net worth.
pub proof fn lemma_deposit_ops_keep_wf(d: Deposit, val: u32)
    requires
        d.wf(),
    ensures
        d.balance + val <= u32::MAX && d.networth + val <= u32::MAX ==> d.earned(val).wf(),
        val <= d.balance ==> d.spent(val).wf(),
        val <= d.balance ==> d.lost(val).wf(),
{
}

/// The money supply of a match.
pub struct Economy {
    pub escudos_in_circulation: u32,
    pub produced_escudos: u32,
    pub deposits: u32,
}

impl Economy {
    pub fn new() -> (e: Economy)
        ensures
            e.escudos_in_circulation == 0,
            e.produced_escudos == 0,
            e.deposits == 0,
    {
        Economy { escudos_in_circulation: 0, produced_escudos: 0, deposits: 0 }
    }

    /// Registers a new ship deposit and the starting escudos it brings.
    pub fn add_deposit(&mut self)
        requires
            old(self).deposits + 1 <= u32::MAX,
            old(self).escudos_in_circulation + BASE_SHIP_ESCUDO_BALANCE <= u32::MAX,
        ensures
            final(self).deposits == old(self).deposits + 1,
            final(self).escudos_in_circulation == old(self).escudos_in_circulation
                + BASE_SHIP_ESCUDO_BALANCE,
            final(self).produced_escudos == old(self).produced_escudos,
    {
        self.deposits = self.deposits + 1;
        self.escudos_in_circulation = self.escudos_in_circulation + BASE_SHIP_ESCUDO_BALANCE;
    }

    /// Brings `val` newly produced escudos into circulation.
    pub fn produce(&mut self, val: u32)
        requires
            val > 0,
            old(self).escudos_in_circulation + val <= u32::MAX,
            old(self).produced_escudos + val <= u32::MAX,
        ensures
            final(self).escudos_in_circulation == old(self).escudos_in_circulation + val,
            final(self).produced_escudos == old(self).produced_escudos + val,
            final(self).deposits == old(self).deposits,
    {
        self.escudos_in_circulation = self.escudos_in_circulation + val;
        self.produced_escudos = self.produced_escudos + val;
    }

    /// Takes `val` escudos out of circulation (lost to the sea).
    pub fn remove(&mut self, val: u32)
        requires
            val > 0,
            old(self).escudos_in_circulation >= val,
        ensures
            final(self).escudos_in_circulation == old(self).escudos_in_circulation - val,
            final(self).produced_escudos == old(self).produced_escudos,
            final(self).deposits == old(self).deposits,
    {
        self.escudos_in_circulation = self.escudos_in_circulation - val;
    }

    /// The escudos that all deposits started with together.
    pub open spec fn spec_reserve(self) -> int {
        self.deposits * BASE_SHIP_ESCUDO_BALANCE
    }

    pub fn reserve_escudos(&self) -> (r: u32)
        requires
            self.spec_reserve() <= u32::MAX,
        ensures
            r == self.spec_reserve(),
    {
        self.deposits * BASE_SHIP_ESCUDO_BALANCE
    }

    /// The reward for a sinking: the base payout per deposit scaled down as
    /// the circulation outgrows the reserve (integer division).
    pub open spec fn spec_payout(self) -> int {
        (self.spec_reserve() * BASE_ESCUDO_PAYOUT) / (self.escudos_in_circulation as int)
    }

    /// When a payout can be made: there is money in circulation, the
    /// arithmetic stays within `u32`, and the payout is not zero (producing
    /// zero escudos is refused).
    pub open spec fn can_pay_out(self) -> bool {
        &&& self.escudos_in_circulation > 0
        &&& self.spec_reserve() * BASE_ESCUDO_PAYOUT <= u32::MAX
        &&& self.spec_payout() > 0
        &&& self.escudos_in_circulation + self.spec_payout() <= u32::MAX
        &&& self.produced_escudos + self.spec_payout() <= u32::MAX
    }

    /// Produces and returns the payout for a sinking.
    pub fn payout(&mut self) -> (p: u32)
        requires
            old(self).can_pay_out(),
        ensures
            p == old(self).spec_payout(),
            final(self).escudos_in_circulation == old(self).escudos_in_circulation + p,
            final(self).produced_escudos == old(self).produced_escudos + p,
            final(self).deposits == old(self).deposits,
    {
        let nominator = self.reserve_escudos() * BASE_ESCUDO_PAYOUT;
        let payout = nominator / self.escudos_in_circulation;
        self.produce(payout);
        payout
    }

    /// The net worth above the starting balance on which a bonus is paid:
    /// nothing for a net worth of at most 100 escudos.
    pub fn bonus_surplus(networth: u32) -> (s: Option<u32>)
        ensures
            networth <= 100 ==> s is None,
            networth > 100 ==> s == Some((networth - BASE_SHIP_ESCUDO_BALANCE) as u32),
    {
        if networth <= 100 {
            None
        } else {
            Some(networth - BASE_SHIP_ESCUDO_BALANCE)
        }
    }

    /// Produces the payout for a sinking and adds the bonus that the sunk
    /// ship's net worth earns.
    pub fn total_payout(&mut self, bonus: u32) -> (t: u32)
        requires
            old(self).can_pay_out(),
            old(self).spec_payout() + bonus <= u32::MAX,
        ensures
            t == old(self).spec_payout() + bonus,
            final(self).escudos_in_circulation == old(self).escudos_in_circulation
                + old(self).spec_payout(),
            final(self).produced_escudos == old(self).produced_escudos + old(self).spec_payout(),
            final(self).deposits == old(self).deposits,
    {
        let p = self.payout();
        p + bonus
    }
}

/// With the circulation at its reserve, each sinking pays the base payout
/// once per deposit.
pub proof fn lemma_payout_at_reserve(e: Economy)
    requires
        e.deposits > 0,
        e.escudos_in_circulation == e.spec_reserve(),
    ensures
        e.spec_payout() == BASE_ESCUDO_PAYOUT,
{
    let r = e.spec_reserve();
    assert(r > 0);
    assert((r * 30) / r == 30) by (nonlinear_arith)
        requires
            r > 0,
    ;
}

/// A sinking pays the starting escudos of all deposits times the base
/// payout, divided by the escudos in circulation and rounded down; so with
/// fewer escudos circulating than the deposits started with, it pays at
/// least the base payout, and more once the shortfall passes a
/// thirty-first of the circulation.
pub proof fn lemma_payout_is_scaled_base(e: Economy)
    requires
        e.escudos_in_circulation > 0,
    ensures
        e.spec_payout() * e.escudos_in_circulation <= e.deposits * BASE_SHIP_ESCUDO_BALANCE
            * BASE_ESCUDO_PAYOUT,
        e.deposits * BASE_SHIP_ESCUDO_BALANCE * BASE_ESCUDO_PAYOUT < (e.spec_payout() + 1)
            * e.escudos_in_circulation,
        e.escudos_in_circulation <= e.deposits * BASE_SHIP_ESCUDO_BALANCE ==> e.spec_payout()
            >= BASE_ESCUDO_PAYOUT,
        e.escudos_in_circulation * (BASE_ESCUDO_PAYOUT + 1) <= e.deposits
            * BASE_SHIP_ESCUDO_BALANCE * BASE_ESCUDO_PAYOUT ==> e.spec_payout()
            > BASE_ESCUDO_PAYOUT,
{
    let n = e.deposits * 100 * 30;
    let c = e.escudos_in_circulation as int;
    let p = e.spec_payout();
    assert(p == n / c);
    assert(n >= 0);
    assert(p * c <= n && n < (p + 1) * c) by (nonlinear_arith)
        requires
            n >= 0,
            c > 0,
            p == n / c,
    ;
    assert(c <= e.deposits * 100 ==> p >= 30) by (nonlinear_arith)
        requires
            n == e.deposits * 100 * 30,
            c > 0,
            n < (p + 1) * c,
    ;
    assert(c * 31 <= n ==> p > 30) by (nonlinear_arith)
        requires
            c > 0,
            n < (p + 1) * c,
    ;
}

/// The more escudos circulate, the less a sinking pays: for the same
/// deposits, a larger circulation never yields a larger payout.
pub proof fn lemma_payout_shrinks_with_inflation(e1: Economy, e2: Economy)
    requires
        e1.deposits == e2.deposits,
        0 < e1.escudos_in_circulation <= e2.escudos_in_circulation,
    ensures
        e2.spec_payout() <= e1.spec_payout(),
{
    let n = e1.spec_reserve() * BASE_ESCUDO_PAYOUT;
    let c1 = e1.escudos_in_circulation as int;
    let c2 = e2.escudos_in_circulation as int;
    assert(n >= 0);
    assert(n / c2 <= n / c1) by (nonlinear_arith)
        requires
            n >= 0,
            0 < c1 <= c2,
    ;
}

} // verus!
