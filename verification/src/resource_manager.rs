//! The per-colony resource ledger.
//!
//! Quantities never go negative: a debit is admitted only when covered by
//! the current stock ([`applicable_spec`]), and a batch is all-or-nothing
//! against the balances it met on entry.  A credit that would overflow the
//! counter saturates at `u32::MAX`; the contracts state this exactly.

use crate::resource::ResourceTransaction;
use crate::resource::ResourceType;
use vstd::prelude::*;

verus! {

/// A transaction is admissible against the given balances when it is a
/// credit, or a debit covered by the current stock.
pub open spec fn applicable_spec(q: Seq<u32>, t: ResourceTransaction) -> bool {
    t.amount >= 0 || q[t.resource_type.type_index_spec()] + t.amount >= 0
}

/// Balance after one admissible credit, saturating at the counter limit.
pub open spec fn saturating_balance(v: int) -> u32 {
    if v > u32::MAX {
        u32::MAX as u32
    } else {
        v as u32
    }
}

/// Balances after one transaction: unchanged if inadmissible, otherwise
/// shifted at the affected type.
pub open spec fn apply_spec(q: Seq<u32>, t: ResourceTransaction) -> Seq<u32> {
    if applicable_spec(q, t) {
        let i = t.resource_type.type_index_spec();
        q.update(i, saturating_balance(q[i] + t.amount))
    } else {
        q
    }
}

/// Balances after a sequence of transactions, applied left to right.
pub open spec fn apply_seq_spec(q: Seq<u32>, ts: Seq<ResourceTransaction>) -> Seq<u32>
    decreases ts.len(),
{
    if ts.len() == 0 {
        q
    } else {
        apply_spec(apply_seq_spec(q, ts.drop_last()), ts.last())
    }
}

/// Every transaction of the batch is admissible against the same
/// pre-batch balances.
pub open spec fn all_applicable_spec(q: Seq<u32>, ts: Seq<ResourceTransaction>) -> bool {
    forall|i: int| 0 <= i < ts.len() ==> applicable_spec(q, ts[i])
}

/// Balances after a batch: all transactions in order when each was
/// admissible against the pre-batch balances, otherwise unchanged.
pub open spec fn apply_many_spec(q: Seq<u32>, ts: Seq<ResourceTransaction>) -> Seq<u32> {
    if all_applicable_spec(q, ts) {
        apply_seq_spec(q, ts)
    } else {
        q
    }
}

/// Sum of the first `n` balances.
pub open spec fn sum_upto_spec(q: Seq<u32>, n: int) -> int
    decreases n,
{
    if n <= 0 {
        0
    } else {
        sum_upto_spec(q, n - 1) + q[n - 1]
    }
}

/// Total stock of the six primary resources.
pub open spec fn primary_total_spec(q: Seq<u32>) -> int {
    sum_upto_spec(q, 6)
}

/// Updating one of the first `n` balances shifts their sum by the
/// difference.
pub proof fn lemma_sum_upto_update(q: Seq<u32>, i: int, v: u32, n: int)
    requires
        0 <= i < n <= q.len(),
    ensures
        sum_upto_spec(q.update(i, v), n) == sum_upto_spec(q, n) - q[i] + v,
    decreases n,
{
    if i == n - 1 {
        lemma_sum_upto_agree(q, q.update(i, v), n - 1);
    } else {
        lemma_sum_upto_update(q, i, v, n - 1);
        lemma_sum_upto_agree(q.update(i, v), q.update(i, v), n - 1);
    }
}

/// Sums over a prefix agree when the prefixes agree pointwise.
pub proof fn lemma_sum_upto_agree(q1: Seq<u32>, q2: Seq<u32>, n: int)
    requires
        n <= q1.len(),
        n <= q2.len(),
        forall|i: int| 0 <= i < n ==> q1[i] == q2[i],
    ensures
        sum_upto_spec(q1, n) == sum_upto_spec(q2, n),
    decreases n,
{
    if n > 0 {
        lemma_sum_upto_agree(q1, q2, n - 1);
    }
}

/// The ledger: one non-negative balance per resource type, in type
/// order.
#[derive(Clone, Debug, PartialEq, Eq)]
pub struct ResourceManager {
    /// Balance per resource type, indexed by the fixed type ordering.
    pub resources: Vec<u32>,
}

impl ResourceManager {
    /// Structural invariant: one balance per resource type.
    pub open spec fn wf(self) -> bool {
        self.resources@.len() == 17
    }

    /// An empty ledger: every balance is zero.
    pub fn new() -> (r: Self)
        ensures
            r.wf(),
            forall|i: int| 0 <= i < 17 ==> r.resources@[i] == 0,
    {
        let mut v: Vec<u32> = Vec::new();
        let mut i: usize = 0;
        while i < 17
            invariant
                i <= 17,
                v@.len() == i,
                forall|j: int| 0 <= j < i ==> v@[j] == 0,
            decreases 17 - i,
        {
            v.push(0);
            i = i + 1;
        }
        ResourceManager { resources: v }
    }

    /// Current balance of one resource type.
    pub fn get_quantity(&self, t: ResourceType) -> (q: u32)
        requires
            self.wf(),
        ensures
            q == self.resources@[t.type_index_spec()],
    {
        self.resources[t.type_index()]
    }

    /// Whether the transaction would be admitted right now.
    pub fn is_applicable(&self, transaction: &ResourceTransaction) -> (r: bool)
        requires
            self.wf(),
        ensures
            r == applicable_spec(self.resources@, *transaction),
    {
        if transaction.amount >= 0 {
            true
        } else {
            let i = transaction.resource_type.type_index();
            let need: u32 = ((-(transaction.amount as i64)) as u64) as u32;
            self.resources[i] >= need
        }
    }

    /// Applies one transaction; an inadmissible one is silently dropped.
    pub fn apply(&mut self, transaction: ResourceTransaction)
        requires
            old(self).wf(),
        ensures
            final(self).wf(),
            final(self).resources@ == apply_spec(old(self).resources@, transaction),
    {
        if self.is_applicable(&transaction) {
            let i = transaction.resource_type.type_index();
            let cur = self.resources[i];
            let next: u32 = if transaction.amount >= 0 {
                let add = transaction.amount as u32;
                if cur <= u32::MAX - add {
                    cur + add
                } else {
                    u32::MAX
                }
            } else {
                cur - (((-(transaction.amount as i64)) as u64) as u32)
            };
            self.resources.set(i, next);
        }
    }

    /// Applies a batch all-or-nothing: if any transaction is inadmissible
    /// against the balances as they stand before the batch, nothing
    /// changes.
    pub fn apply_many(&mut self, transactions: Vec<ResourceTransaction>)
        requires
            old(self).wf(),
        ensures
            final(self).wf(),
            final(self).resources@ == apply_many_spec(old(self).resources@, transactions@),
    {
        let ghost q0 = self.resources@;
        let mut i: usize = 0;
        while i < transactions.len()
            invariant
                self == old(self),
                self.wf(),
                i <= transactions@.len(),
                forall|j: int| 0 <= j < i ==> applicable_spec(q0, transactions@[j]),
                q0 == self.resources@,
            decreases transactions@.len() - i,
        {
            if !self.is_applicable(&transactions[i]) {
                proof {
                    assert(!all_applicable_spec(q0, transactions@));
                }
                return ;
            }
            i = i + 1;
        }
        let mut k: usize = 0;
        while k < transactions.len()
            invariant
                self.wf(),
                k <= transactions@.len(),
                all_applicable_spec(q0, transactions@),
                self.resources@ == apply_seq_spec(q0, transactions@.take(k as int)),
            decreases transactions@.len() - k,
        {
            proof {
                assert(transactions@.take(k + 1).drop_last() =~= transactions@.take(k as int));
                assert(transactions@.take(k + 1).last() == transactions@[k as int]);
            }
            self.apply(transactions[k]);
            k = k + 1;
        }
        proof {
            assert(transactions@.take(transactions@.len() as int) =~= transactions@);
        }
    }

    /// Snapshot of every balance, paired with its resource type.
    pub fn get_resources(&self) -> (r: Vec<(ResourceType, u32)>)
        requires
            self.wf(),
        ensures
            r@.len() == 17,
            forall|i: int| 0 <= i < 17 ==> (#[trigger] r@[i]) == (
                ResourceType::from_index_spec(i),
                self.resources@[i],
            ),
    {
        let mut out: Vec<(ResourceType, u32)> = Vec::new();
        let mut i: usize = 0;
        while i < 17
            invariant
                self.wf(),
                i <= 17,
                out@.len() == i,
                forall|j: int| 0 <= j < i ==> (#[trigger] out@[j]) == (
                    ResourceType::from_index_spec(j),
                    self.resources@[j],
                ),
            decreases 17 - i,
        {
            out.push((ResourceType::from_index(i), self.resources[i]));
            i = i + 1;
        }
        out
    }
}

/// Law: a credit followed by the equal debit restores the original
/// balances, provided the credit did not saturate the counter.
pub proof fn lemma_apply_round_trip(q: Seq<u32>, t: ResourceType, n: i32)
    requires
        q.len() == 17,
        n >= 0,
        q[t.type_index_spec()] + n <= u32::MAX,
    ensures
        apply_spec(
            apply_spec(q, ResourceTransaction { resource_type: t, amount: n }),
            ResourceTransaction { resource_type: t, amount: (-n) as i32 },
        ) == q,
{
    let credit = ResourceTransaction { resource_type: t, amount: n };
    let debit = ResourceTransaction { resource_type: t, amount: (-n) as i32 };
    let i = t.type_index_spec();
    let q1 = apply_spec(q, credit);
    assert(q1[i] == q[i] + n);
    assert(applicable_spec(q1, debit));
    assert(apply_spec(q1, debit) =~= q);
}

/// Law: a batch with any inadmissible transaction changes nothing.
pub proof fn lemma_apply_many_atomic(q: Seq<u32>, ts: Seq<ResourceTransaction>, i: int)
    requires
        0 <= i < ts.len(),
        !applicable_spec(q, ts[i]),
    ensures
        apply_many_spec(q, ts) == q,
{
    assert(!all_applicable_spec(q, ts));
}

} // verus!
