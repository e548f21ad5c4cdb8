//! The laws of the table.
//!
//! [`step`](crate::actor::step) pins down what one job does to the table:
//! an `Add(k, v, _)` turns table `t` into `t.insert(k, h)` for a fresh
//! handle `h` with `h@ == v`, a `Get(k, _)` answers `lookup(t, k)` and
//! leaves `t` alone, and a `Remove(k)` turns `t` into `t.remove(k)`. The
//! proof functions here state what follows for runs of such jobs.

use vstd::prelude::*;

use crate::actor::lookup;
use crate::handle::Handle;

verus! {

/// The table after a run of additions: each pair in `adds`, in order, puts
/// its handle into the table under its key, exactly as `step` states for a
/// run of `Add` jobs.
pub open spec fn after_adds<K, V>(
    table: Map<K, Handle<V>>,
    adds: Seq<(K, Handle<V>)>,
) -> Map<K, Handle<V>>
    decreases adds.len(),
{
    if adds.len() == 0 {
        table
    } else {
        after_adds(table.insert(adds[0].0, adds[0].1), adds.drop_first())
    }
}

/// A run of additions, none of which touches `k`, leaves every lookup on
/// `k` exactly as it was.
pub proof fn lemma_absent_key_untouched<K, V>(
    table: Map<K, Handle<V>>,
    adds: Seq<(K, Handle<V>)>,
    k: K,
)
    requires
        forall|j: int| 0 <= j < adds.len() ==> (#[trigger] adds[j]).0 != k,
    ensures
        lookup(after_adds(table, adds), k) == lookup(table, k),
    decreases adds.len(),
{
    if adds.len() > 0 {
        assert(adds[0].0 != k);
        let rest = adds.drop_first();
        assert forall|j: int| 0 <= j < rest.len() implies (#[trigger] rest[j]).0 != k by {
            assert(rest[j] == adds[j + 1]);
        }
        lemma_absent_key_untouched(table.insert(adds[0].0, adds[0].1), rest, k);
    }
}

/// After a run of additions with pairwise distinct keys, a lookup on each
/// added key finds exactly the handle added for it — so a `get` after such
/// inserts returns a handle whose value is the value inserted for that key.
pub proof fn lemma_distinct_adds_found<K, V>(
    table: Map<K, Handle<V>>,
    adds: Seq<(K, Handle<V>)>,
    i: int,
)
    requires
        0 <= i < adds.len(),
        forall|a: int, b: int|
            0 <= a < b < adds.len() ==> (#[trigger] adds[a]).0 != (#[trigger] adds[b]).0,
    ensures
        lookup(after_adds(table, adds), adds[i].0) == Some(adds[i].1),
        (lookup(after_adds(table, adds), adds[i].0) matches Some(h) && h@ == adds[i].1@),
    decreases adds.len(),
{
    let rest = adds.drop_first();
    let t1 = table.insert(adds[0].0, adds[0].1);
    if i == 0 {
        assert forall|j: int| 0 <= j < rest.len() implies (#[trigger] rest[j]).0 != adds[0].0 by {
            assert(rest[j] == adds[j + 1]);
            assert(adds[0].0 != adds[j + 1].0);
        }
        lemma_absent_key_untouched(t1, rest, adds[0].0);
        assert(lookup(t1, adds[0].0) == Some(adds[0].1));
    } else {
        assert forall|a: int, b: int|
            0 <= a < b < rest.len() implies (#[trigger] rest[a]).0 != (#[trigger] rest[b]).0 by {
            assert(rest[a] == adds[a + 1]);
            assert(rest[b] == adds[b + 1]);
        }
        lemma_distinct_adds_found(t1, rest, i - 1);
        assert(rest[i - 1] == adds[i]);
    }
}

/// A lookup on a key that was never added — absent at the start and touched
/// by no addition since — finds nothing.
pub proof fn lemma_never_added_not_found<K, V>(
    table: Map<K, Handle<V>>,
    adds: Seq<(K, Handle<V>)>,
    k: K,
)
    requires
        !table.contains_key(k),
        forall|j: int| 0 <= j < adds.len() ==> (#[trigger] adds[j]).0 != k,
    ensures
        lookup(after_adds(table, adds), k) == None::<Handle<V>>,
{
    lemma_absent_key_untouched(table, adds, k);
}

/// Removing `k` makes a lookup on it find nothing and leaves every other
/// key as it was; a handle fetched for `k` before the removal is a value of
/// its own and keeps showing the value its entry was created with.
pub proof fn lemma_removed_key_gone<K, V>(table: Map<K, Handle<V>>, k: K, h: Handle<V>)
    requires
        lookup(table, k) == Some(h),
    ensures
        lookup(table.remove(k), k) == None::<Handle<V>>,
        forall|k2: K| k2 != k ==> lookup(table.remove(k), k2) == lookup(table, k2),
        h@ == table[k]@,
{
}

/// Adding under an occupied key makes every later lookup on it find the
/// new handle, and leaves every other key as it was; the superseded entry's
/// handle is not redirected and keeps showing the value its own entry was
/// created with.
pub proof fn lemma_overwrite_supersedes<K, V>(
    table: Map<K, Handle<V>>,
    k: K,
    prior: Handle<V>,
    fresh: Handle<V>,
)
    requires
        lookup(table, k) == Some(prior),
    ensures
        lookup(table.insert(k, fresh), k) == Some(fresh),
        (lookup(table.insert(k, fresh), k) matches Some(now) && now@ == fresh@),
        forall|k2: K| k2 != k ==> lookup(table.insert(k, fresh), k2) == lookup(table, k2),
        prior@ == table[k]@,
{
}

} // verus!
