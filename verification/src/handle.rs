//! The value object handed out by the map: a shared, independently lockable
//! reference to one stored entry.

use vstd::prelude::*;

use std::sync::Arc;
use std::sync::Mutex;
use std::sync::MutexGuard;

use crate::amap_error::AMapErr;
use crate::ext::arc_clone;
use crate::ext::lock_mutex;
use crate::ext::lock_recover;
use crate::ext::new_mutex;

verus! {

/// A shared reference to one entry of the map.
///
/// Any number of handles may point at the same entry; the entry lives until
/// the last of them (the map's own slot included) is dropped, so a handle
/// stays lockable after its key has been removed or overwritten.
///
/// The view of a handle is the value its entry was created from. The live
/// contents may since have been changed through [`Handle::lock`]; such
/// mutation happens under the entry's own lock and is outside this model.
#[verifier::reject_recursive_types(V)]
pub struct Handle<V> {
    pub(crate) entry: Arc<Mutex<V>>,
    pub(crate) started_as: Ghost<V>,
}

impl<V> View for Handle<V> {
    type V = V;

    closed spec fn view(&self) -> V {
        self.started_as@
    }
}

impl<V> Handle<V> {
    /// Wrap a fresh value in a new, unshared entry.
    pub(crate) fn new(v: V) -> (h: Handle<V>)
        ensures
            h@ == v,
    {
        let ghost started = v;
        Handle { entry: Arc::new(new_mutex(v)), started_as: Ghost(started) }
    }

    /// Take the entry's lock, blocking until it is free. Fails exactly when
    /// a previous holder panicked while holding the lock; the entry itself
    /// survives that — recover it with [`Handle::lock_recovering`].
    pub fn lock<'a>(&'a self) -> (r: Result<MutexGuard<'a, V>, AMapErr>)
        ensures
            match r {
                Ok(guard) => true,
                Err(e) => e == AMapErr::PoisonErr,
            },
    {
        lock_mutex(&self.entry)
    }

    /// Take the entry's lock even if a previous holder panicked while
    /// holding it. The panic leaves the value in an unspecified but
    /// accessible state; one panicking mutation should not strand an
    /// otherwise healthy entry, so the caller may recover the value here
    /// rather than fail forever.
    pub fn lock_recovering<'a>(&'a self) -> MutexGuard<'a, V> {
        lock_recover(&self.entry)
    }
}

impl<V> Clone for Handle<V> {
    /// The clone shares the entry, so as a value it equals the original.
    fn clone(&self) -> (r: Self)
        ensures
            r == *self,
    {
        Handle { entry: arc_clone(&self.entry), started_as: Ghost(self.started_as@) }
    }
}

} // verus!
