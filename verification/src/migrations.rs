//! Schema migrations: version records and the rule that picks which
//! registered migrations run, and in what order.

use vstd::prelude::*;
use vstd::multiset::Multiset;

verus! {

/// A record of one applied schema version.
#[derive(Debug, Clone)]
pub struct SchemaVersion {
    pub version: u32,
    pub applied_at: u64,
    pub description: String,
}

/// The initial schema setup; the schema definition itself does the work,
/// so applying it changes nothing.
pub struct InitialSchemaMigration;

impl InitialSchemaMigration {
    /// The version this migration establishes.
    pub fn version(&self) -> (r: u32)
        ensures
            r == 1,
    {
        1
    }

    /// A short description of this migration.
    pub fn description(&self) -> (r: String)
        ensures
            r@ == "Initial schema setup"@,
    {
        "Initial schema setup".to_owned()
    }
}

/// Non-decreasing order.
pub open spec fn sorted(s: Seq<u32>) -> bool {
    forall|i: int, j: int| 0 <= i <= j < s.len() ==> #[trigger] s[i] <= #[trigger] s[j]
}

/// The versions newer than `current`.
pub open spec fn newer_than(current: u32) -> spec_fn(u32) -> bool {
    |v: u32| v > current
}

/// Picks the registered versions that still have to be applied on top of
/// `current`, in ascending order: exactly the registered versions newer
/// than `current`, each as often as it was registered.
pub fn pending_versions(registered: &Vec<u32>, current: u32) -> (r: Vec<u32>)
    ensures
        sorted(r@),
        r@.to_multiset() == registered@.filter(newer_than(current)).to_multiset(),
        forall|i: int| 0 <= i < r@.len() ==> #[trigger] r@[i] > current,
{
    let ghost pred = newer_than(current);
    let mut pool: Vec<u32> = Vec::new();
    let n = registered.len();
    let mut i: usize = 0;
    proof {
        reveal(Seq::filter);
        assert(registered@.take(0).filter(pred) =~= Seq::<u32>::empty());
    }
    while i < n
        invariant
            n == registered@.len(),
            i <= n,
            pred == newer_than(current),
            pool@ == registered@.take(i as int).filter(pred),
        decreases n - i,
    {
        proof {
            reveal(Seq::filter);
            assert(registered@.take(i as int + 1).drop_last() =~= registered@.take(i as int));
            assert(registered@.take(i as int + 1).last() == registered@[i as int]);
        }
        if registered[i] > current {
            pool.push(registered[i]);
        }
        i += 1;
    }
    proof {
        assert(registered@.take(n as int) =~= registered@);
        assert(forall|k: int|
            0 <= k < pool@.len() ==> pred(#[trigger] pool@[k])) by {
            pool@.filter_lemma(pred);
        }
    }
    let ghost filtered = pool@;
    let mut out: Vec<u32> = Vec::new();
    proof {
        broadcast use vstd::seq_lib::group_to_multiset_ensures;
        assert(out@.to_multiset() =~= Multiset::<u32>::empty());
        assert(out@.to_multiset().add(pool@.to_multiset()) =~= filtered.to_multiset());
    }
    while pool.len() > 0
        invariant
            sorted(out@),
            out@.to_multiset().add(pool@.to_multiset()) == filtered.to_multiset(),
            forall|k: int| 0 <= k < out@.len() ==> #[trigger] out@[k] > current,
            forall|m: int| 0 <= m < pool@.len() ==> #[trigger] pool@[m] > current,
            forall|k: int, m: int|
                0 <= k < out@.len() && 0 <= m < pool@.len() ==> #[trigger] out@[k]
                    <= #[trigger] pool@[m],
        decreases pool@.len(),
    {
        let mut min_idx: usize = 0;
        let mut m: usize = 1;
        while m < pool.len()
            invariant
                pool@.len() > 0,
                min_idx < m <= pool@.len(),
                forall|k: int| 0 <= k < m ==> pool@[min_idx as int] <= #[trigger] pool@[k],
            decreases pool@.len() - m,
        {
            if pool[m] < pool[min_idx] {
                min_idx = m;
            }
            m += 1;
        }
        let ghost old_pool = pool@;
        let ghost old_out = out@;
        let value = pool.remove(min_idx);
        out.push(value);
        proof {
            broadcast use vstd::seq_lib::group_to_multiset_ensures;
            assert(old_pool.remove(min_idx as int).to_multiset() =~= old_pool.to_multiset()
                .remove(value));
            assert(out@.to_multiset() =~= old_out.to_multiset().insert(value));
            assert(out@.to_multiset().add(pool@.to_multiset()) =~= filtered.to_multiset());
        }
    }
    proof {
        broadcast use vstd::seq_lib::group_to_multiset_ensures;
        assert(pool@.to_multiset() =~= Multiset::<u32>::empty());
        assert(out@.to_multiset() =~= filtered.to_multiset());
    }
    out
}

} // verus!
