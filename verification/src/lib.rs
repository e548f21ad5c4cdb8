//! A keyed collection whose entries can be locked and mutated one at a time
//! without ever locking the whole map.
//!
//! The map itself lives inside a hidden worker and is reachable only through
//! a sequential request stream, so structural operations never interleave;
//! callers get back [`Handle`]s, shared lockable references to single values
//! that stay usable even after their key is removed from the map. Locking
//! one entry contends neither with the worker nor with any other entry.

use vstd::prelude::*;

use std::hash::Hash;
use std::fmt::Debug;
use std::sync::Arc;
use std::sync::Mutex;
use std::sync::mpsc::SyncSender;

mod actor;
mod amap_error;
mod ext;
mod handle;
mod laws;

pub use actor::Job;
pub use actor::Reply;
pub use actor::Worker;
pub use actor::deliver;
pub use actor::drain;
pub use actor::lookup;
pub use actor::step;
pub use amap_error::AMapErr;
pub use handle::Handle;
pub use laws::after_adds;
pub use laws::lemma_absent_key_untouched;
pub use laws::lemma_distinct_adds_found;
pub use laws::lemma_never_added_not_found;
pub use laws::lemma_overwrite_supersedes;
pub use laws::lemma_removed_key_gone;

use crate::actor::hide_map;
use crate::ext::arc_clone;
use crate::ext::clone_sync_sender;
use crate::ext::guarded_mut;
use crate::ext::lock_recover;
use crate::ext::reply_channel;
use crate::ext::recv_from;
use crate::ext::send_to;

verus! {

/// What a key must be: owned, sendable to the worker, and usable as a hash
/// map key.
pub trait MKey: 'static + Send + Eq + Hash {

}

impl<K> MKey for K where K: 'static + Send + Eq + Hash {

}

/// What a stored value must be: owned and sendable to the worker.
pub trait MVal: 'static + Send {

}

impl<V> MVal for V where V: 'static + Send + Debug {

}

/// The collection facade: a clonable sender into the worker's request
/// stream. Every clone reaches the same map; the worker lives until the
/// last clone is dropped.
#[verifier::reject_recursive_types(K)]
#[verifier::reject_recursive_types(V)]
pub struct ArcMap<K: MKey, V: MVal> {
    ch: SyncSender<Job<K, V>>,
    worker: Arc<Mutex<Worker<K, V>>>,
    cap: Ghost<usize>,
}

impl<K: MKey, V: MVal> Clone for ArcMap<K, V> {
    /// The clone feeds the same worker and so reaches the same map.
    fn clone(&self) -> (r: Self)
        ensures
            r.same_map(self),
            r.backlog() == self.backlog(),
    {
        ArcMap {
            ch: clone_sync_sender(&self.ch),
            worker: arc_clone(&self.worker),
            cap: Ghost(self.cap@),
        }
    }
}

/// Whether `rt` is a result the transform `f` can produce at all: `f`,
/// applied to some value, may return it.
pub open spec fn some_result_of<V, RT, F: FnOnce(&mut V) -> RT>(f: F, rt: RT) -> bool {
    exists|x: &mut V| call_ensures(f, (x,), rt)
}

/// Apply the caller's transform to the value it is handed: the result is
/// one of `f`'s own possible results, for the value the caller chose to
/// expose — this is the sole place a transform ever runs.
pub fn apply_to<V, RT, F: FnOnce(&mut V) -> RT>(v: &mut V, f: F) -> (rt: RT)
    requires
        forall|x: &mut V| #[trigger] call_requires(f, (x,)),
    ensures
        some_result_of(f, rt),
{
    f(v)
}

/// Turn the worker's lookup reply into the caller's result: a handle when
/// one was found, `NotFound` when the key was absent.
pub fn found_to_result<V: MVal>(found: Option<Handle<V>>) -> (r: Result<Handle<V>, AMapErr>)
    ensures
        match found {
            Some(h) => r == Ok::<Handle<V>, AMapErr>(h),
            None => r == Err::<Handle<V>, AMapErr>(AMapErr::NotFound),
        },
{
    match found {
        Some(h) => Ok(h),
        None => Err(AMapErr::NotFound),
    }
}

impl<K: MKey, V: MVal> ArcMap<K, V> {
    /// Whether two facades reach the very same hidden worker, and with it
    /// the same map: every entry visible through one is visible through the
    /// other.
    pub closed spec fn same_map(&self, o: &Self) -> bool {
        self.worker == o.worker
    }

    /// The capacity of the worker's intake: at most this many undelivered
    /// requests buffer before a sender blocks.
    pub closed spec fn backlog(&self) -> usize {
        self.cap@
    }

    /// Create a new map with the default request backlog of twenty. This
    /// builds the hidden worker, owned jointly by the map's clones and gone
    /// with the last of them.
    pub fn new() -> (r: ArcMap<K, V>)
        ensures
            r.backlog() == 20,
    {
        let (ch, worker, cap) = hide_map(20);  // a small default backlog
        ArcMap { ch, worker, cap }
    }

    /// Create a new map whose request backlog holds at most `bsize`
    /// undelivered requests; senders block while it is full. A requested
    /// backlog of zero is raised to one: with no worker thread of its own,
    /// a rendezvous intake could never meet its receiver.
    pub fn new_sized(bsize: usize) -> (r: ArcMap<K, V>)
        ensures
            r.backlog() == (if bsize == 0 {
                1usize
            } else {
                bsize
            }),
    {
        let (ch, worker, cap) = hide_map(bsize);
        ArcMap { ch, worker, cap }
    }

    /// Drive the worker: take its lock, let it drain its intake, release.
    /// Every request, after being enqueued, calls this, so a caller's own
    /// job is applied no later than its own drive.
    fn pump(&self) {
        let mut guard = lock_recover(&self.worker);
        drain(guarded_mut(&mut guard));
    }

    /// Store `v` under `k` in a fresh entry, overwriting any old slot for
    /// `k`; handles to an overwritten entry stay valid. An insert always
    /// succeeds structurally, so a reply means `Ok(true)`, never
    /// `Ok(false)`; it fails only when the worker is gone: `SendErr` when
    /// the request cannot be delivered, `RecvErr` when the worker stopped
    /// before answering.
    pub fn insert(&self, k: K, v: V) -> (r: Result<bool, AMapErr>)
        ensures
            match r {
                Ok(b) => b == true,
                Err(e) => e == AMapErr::SendErr || e == AMapErr::RecvErr,
            },
    {
        let (tbak, rbak) = reply_channel();
        match send_to(&self.ch, Job::Add(k, v, tbak)) {
            Ok(u) => {},
            Err(e) => {
                return Err(e);
            },
        }
        self.pump();
        match recv_from(&rbak) {
            Ok(_) => Ok(true),
            Err(e) => Err(e),
        }
    }

    /// Fetch a handle to the entry at `k`. The handle stays usable however
    /// the map changes afterwards. Fails with `NotFound` when `k` is absent,
    /// and with `SendErr`/`RecvErr` when the worker is gone.
    pub fn get(&self, k: K) -> (r: Result<Handle<V>, AMapErr>)
        ensures
            match r {
                Ok(h) => true,
                Err(e) => e == AMapErr::SendErr || e == AMapErr::RecvErr || e
                    == AMapErr::NotFound,
            },
    {
        let (tbak, rbak) = reply_channel();
        match send_to(&self.ch, Job::Get(k, tbak)) {
            Ok(u) => {},
            Err(e) => {
                return Err(e);
            },
        }
        self.pump();
        match recv_from(&rbak) {
            Ok(found) => found_to_result(found),
            Err(e) => Err(e),
        }
    }

    /// Drop the map's slot for `k`, if any; handles already given out keep
    /// the entry alive. No reply is expected, so this fails only with
    /// `SendErr` when the request cannot be delivered.
    pub fn remove(&self, k: K) -> (r: Result<(), AMapErr>)
        ensures
            match r {
                Ok(u) => true,
                Err(e) => e == AMapErr::SendErr,
            },
    {
        match send_to(&self.ch, Job::Remove(k)) {
            Ok(u) => {},
            Err(e) => {
                return Err(e);
            },
        }
        self.pump();
        Ok(())
    }

    /// Fetch the entry at `on`, lock it, run `f` once on the value, unlock,
    /// and hand back what `f` returned. No atomicity beyond the one
    /// lock/unlock cycle is conferred. Fails as `get` does, plus `PoisonErr`
    /// when a previous lock holder panicked.
    pub fn on_do<RT, F: FnOnce(&mut V) -> RT>(&self, on: K, f: F) -> (r: Result<RT, AMapErr>)
        requires
            forall|x: &mut V| #[trigger] call_requires(f, (x,)),
        ensures
            match r {
                Ok(rt) => some_result_of(f, rt),
                Err(e) => e == AMapErr::SendErr || e == AMapErr::RecvErr || e
                    == AMapErr::NotFound || e == AMapErr::PoisonErr,
            },
    {
        let p = match self.get(on) {
            Ok(p) => p,
            Err(e) => {
                return Err(e);
            },
        };
        let mut guard = match p.lock() {
            Ok(guard) => guard,
            Err(e) => {
                return Err(e);
            },
        };
        Ok(apply_to(guarded_mut(&mut guard), f))
    }
}

} // verus!
