use vstd::prelude::*;

use crate::fee::capped;
use crate::settle::Payout;
use crate::state::same_text;

verus! {

/// The balances that a list of entries records; a later entry for an
/// address overrides an earlier one.
pub open spec fn entries_map(s: Seq<Payout>) -> Map<Seq<char>, u128>
    decreases s.len(),
{
    if s.len() == 0 {
        Map::empty()
    } else {
        entries_map(s.drop_last()).insert(s.last().recipient@, s.last().amount)
    }
}

/// No address has two entries.
pub open spec fn unique_recipients(s: Seq<Payout>) -> bool {
    forall|i: int, j: int|
        0 <= i < s.len() && 0 <= j < s.len() && i != j ==> (#[trigger] s[i]).recipient@
            != (#[trigger] s[j]).recipient@
}

/// The balance of `who` in `m`, zero where it has none.
pub open spec fn balance_in(m: Map<Seq<char>, u128>, who: Seq<char>) -> int {
    if m.contains_key(who) {
        m[who] as int
    } else {
        0
    }
}

/// `m` after adding `p.amount` to the balance of `p.recipient`, capped.
pub open spec fn credit_one(m: Map<Seq<char>, u128>, p: Payout) -> Map<Seq<char>, u128> {
    m.insert(p.recipient@, capped(balance_in(m, p.recipient@) + p.amount) as u128)
}

/// `m` after crediting each payout in turn.
pub open spec fn credit_all(m: Map<Seq<char>, u128>, ps: Seq<Payout>) -> Map<Seq<char>, u128>
    decreases ps.len(),
{
    if ps.len() == 0 {
        m
    } else {
        credit_one(credit_all(m, ps.drop_last()), ps.last())
    }
}

proof fn lemma_absent(s: Seq<Payout>, a: Seq<char>)
    requires
        forall|i: int| 0 <= i < s.len() ==> (#[trigger] s[i]).recipient@ != a,
    ensures
        !entries_map(s).contains_key(a),
    decreases s.len(),
{
    if s.len() > 0 {
        lemma_absent(s.drop_last(), a);
    }
}

proof fn lemma_lookup(s: Seq<Payout>, i: int)
    requires
        unique_recipients(s),
        0 <= i < s.len(),
    ensures
        entries_map(s).contains_key(s[i].recipient@),
        entries_map(s)[s[i].recipient@] == s[i].amount,
    decreases s.len(),
{
    if i < s.len() - 1 {
        lemma_lookup(s.drop_last(), i);
        assert(s[s.len() - 1].recipient@ != s[i].recipient@);
    }
}

proof fn lemma_update(s: Seq<Payout>, i: int, p: Payout)
    requires
        unique_recipients(s),
        0 <= i < s.len(),
        p.recipient@ == s[i].recipient@,
    ensures
        unique_recipients(s.update(i, p)),
        entries_map(s.update(i, p)) == entries_map(s).insert(p.recipient@, p.amount),
    decreases s.len(),
{
    let t = s.update(i, p);
    assert forall|x: int, y: int|
        0 <= x < t.len() && 0 <= y < t.len() && x != y implies (#[trigger] t[x]).recipient@
        != (#[trigger] t[y]).recipient@ by {
        assert(s[x].recipient@ != s[y].recipient@);
    }
    if i == s.len() - 1 {
        assert(t.drop_last() =~= s.drop_last());
        assert(entries_map(t) =~= entries_map(s).insert(p.recipient@, p.amount));
    } else {
        lemma_update(s.drop_last(), i, p);
        assert(t.drop_last() =~= s.drop_last().update(i, p));
        assert(s.last().recipient@ != p.recipient@) by {
            assert(s[s.len() - 1].recipient@ != s[i].recipient@);
        }
        assert(entries_map(t) =~= entries_map(s).insert(p.recipient@, p.amount));
    }
}

proof fn lemma_remove(s: Seq<Payout>, i: int)
    requires
        unique_recipients(s),
        0 <= i < s.len(),
    ensures
        unique_recipients(s.remove(i)),
        entries_map(s.remove(i)) == entries_map(s).remove(s[i].recipient@),
    decreases s.len(),
{
    let t = s.remove(i);
    let a = s[i].recipient@;
    assert forall|x: int, y: int|
        0 <= x < t.len() && 0 <= y < t.len() && x != y implies (#[trigger] t[x]).recipient@
        != (#[trigger] t[y]).recipient@ by {
        let sx = if x < i { x } else { x + 1 };
        let sy = if y < i { y } else { y + 1 };
        assert(t[x] == s[sx]);
        assert(t[y] == s[sy]);
        assert(s[sx].recipient@ != s[sy].recipient@);
    }
    if i == s.len() - 1 {
        assert(t =~= s.drop_last());
        assert forall|k: int| 0 <= k < t.len() implies (#[trigger] t[k]).recipient@ != a by {
            assert(s[k].recipient@ != s[i].recipient@);
        }
        lemma_absent(t, a);
        assert(entries_map(t) =~= entries_map(s).remove(a));
    } else {
        lemma_remove(s.drop_last(), i);
        assert(t.drop_last() =~= s.drop_last().remove(i));
        assert(t.last() == s.last());
        assert(s.last().recipient@ != a) by {
            assert(s[s.len() - 1].recipient@ != s[i].recipient@);
        }
        assert(entries_map(t) =~= entries_map(s).remove(a));
    }
}

/// Claimable winnings, by participant.
pub struct BalanceLedger {
    entries: Vec<Payout>,
}

impl View for BalanceLedger {
    type V = Map<Seq<char>, u128>;

    closed spec fn view(&self) -> Map<Seq<char>, u128> {
        entries_map(self.entries@)
    }
}

impl BalanceLedger {
    /// Each participant has at most one entry.
    pub closed spec fn wf(&self) -> bool {
        unique_recipients(self.entries@)
    }

    /// An empty ledger.
    pub fn new() -> (r: Self)
        ensures
            r.wf(),
            r@ == Map::<Seq<char>, u128>::empty(),
    {
        BalanceLedger { entries: Vec::new() }
    }

    /// The entries of the ledger, one per participant with a balance.
    pub fn entries(&self) -> (r: &Vec<Payout>)
        requires
            self.wf(),
        ensures
            unique_recipients(r@),
            entries_map(r@) == self@,
    {
        &self.entries
    }

    /// Where the entry of `who` stands, if it has one.
    fn position_of(&self, who: &str) -> (r: Option<usize>)
        requires
            self.wf(),
        ensures
            match r {
                Some(i) => i < self.entries@.len() && self.entries@[i as int].recipient@ == who@,
                None => !self@.contains_key(who@),
            },
    {
        let mut i: usize = 0;
        while i < self.entries.len()
            invariant
                i <= self.entries@.len(),
                forall|j: int| 0 <= j < i ==> (#[trigger] self.entries@[j]).recipient@ != who@,
            decreases self.entries@.len() - i,
        {
            if same_text(self.entries[i].recipient.as_str(), who) {
                return Some(i);
            }
            i = i + 1;
        }
        proof {
            lemma_absent(self.entries@, who@);
        }
        None
    }

    /// The claimable balance of `who`, zero where it has none.
    pub fn balance_of(&self, who: &str) -> (r: u128)
        requires
            self.wf(),
        ensures
            r == balance_in(self@, who@),
    {
        match self.position_of(who) {
            Some(i) => {
                proof {
                    lemma_lookup(self.entries@, i as int);
                }
                self.entries[i].amount
            },
            None => 0,
        }
    }

    /// Adds `p.amount` to the balance of `p.recipient`, capped, creating the
    /// entry where there is none.
    pub fn credit(&mut self, p: Payout)
        requires
            old(self).wf(),
        ensures
            final(self).wf(),
            final(self)@ == credit_one(old(self)@, p),
    {
        match self.position_of(p.recipient.as_str()) {
            Some(i) => {
                proof {
                    lemma_lookup(self.entries@, i as int);
                }
                let old_amount = self.entries[i].amount;
                let amount = if old_amount > u128::MAX - p.amount {
                    u128::MAX
                } else {
                    old_amount + p.amount
                };
                let entry = Payout { recipient: p.recipient, amount };
                proof {
                    lemma_update(self.entries@, i as int, entry);
                }
                self.entries.set(i, entry);
            },
            None => {
                let ghost before = self.entries@;
                self.entries.push(p);
                proof {
                    assert(self.entries@.drop_last() =~= before);
                    assert forall|x: int, y: int|
                        0 <= x < self.entries@.len() && 0 <= y < self.entries@.len() && x
                            != y implies (#[trigger] self.entries@[x]).recipient@
                        != (#[trigger] self.entries@[y]).recipient@ by {
                        if x < before.len() && y < before.len() {
                        } else if x < before.len() {
                            lemma_lookup(before, x);
                        } else {
                            lemma_lookup(before, y);
                        }
                    }
                }
            },
        }
    }

    /// Credits each payout in turn.
    pub fn credit_each(&mut self, payouts: Vec<Payout>)
        requires
            old(self).wf(),
        ensures
            final(self).wf(),
            final(self)@ == credit_all(old(self)@, payouts@),
    {
        let ghost start = self@;
        let mut i: usize = 0;
        while i < payouts.len()
            invariant
                self.wf(),
                i <= payouts@.len(),
                self@ == credit_all(start, payouts@.take(i as int)),
            decreases payouts@.len() - i,
        {
            assert(payouts@.take(i + 1).drop_last() =~= payouts@.take(i as int));
            self.credit(payouts[i].duplicate());
            i = i + 1;
        }
        assert(payouts@.take(i as int) =~= payouts@);
    }

    /// Removes the balance of `who` and returns it; zero where it has none.
    pub fn claim(&mut self, who: &str) -> (r: u128)
        requires
            old(self).wf(),
        ensures
            final(self).wf(),
            r == balance_in(old(self)@, who@),
            final(self)@ == old(self)@.remove(who@),
    {
        match self.position_of(who) {
            Some(i) => {
                proof {
                    lemma_lookup(self.entries@, i as int);
                    lemma_remove(self.entries@, i as int);
                }
                let entry = self.entries.remove(i);
                entry.amount
            },
            None => {
                assert(self@.remove(who@) =~= self@);
                0
            },
        }
    }
}

} // verus!
