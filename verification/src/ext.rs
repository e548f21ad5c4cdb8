//! Declarations and thin wrappers for the pieces of `std::sync` that the map
//! is built on: the request and reply channels and the per-entry mutex.
//!
//! Verus is given no more here than the standard library documents: which
//! error each call can fail with, and that cloning an `Arc` yields the same
//! shared value. Everything else the library proves for itself.

use vstd::prelude::*;

use std::sync::Arc;
use std::sync::Mutex;
use std::sync::MutexGuard;
use std::sync::mpsc::Receiver;
use std::sync::mpsc::Sender;
use std::sync::mpsc::SyncSender;

use crate::amap_error::AMapErr;

verus! {

#[verifier::external_type_specification]
#[verifier::external_body]
#[verifier::reject_recursive_types(T)]
pub struct ExMutex<T: ?Sized>(Mutex<T>);

#[verifier::external_type_specification]
#[verifier::external_body]
#[verifier::reject_recursive_types(T)]
pub struct ExMutexGuard<'a, T: ?Sized + 'a>(MutexGuard<'a, T>);

#[verifier::external_type_specification]
#[verifier::external_body]
#[verifier::reject_recursive_types(T)]
pub struct ExSender<T>(Sender<T>);

#[verifier::external_type_specification]
#[verifier::external_body]
#[verifier::reject_recursive_types(T)]
pub struct ExSyncSender<T>(SyncSender<T>);

#[verifier::external_type_specification]
#[verifier::external_body]
#[verifier::reject_recursive_types(T)]
pub struct ExReceiver<T>(Receiver<T>);

/// Relies on std::sync::mpsc::sync_channel: a bounded channel on which a
/// sender blocks while `bound` requests are already waiting.
#[verifier::external_body]
pub(crate) fn request_channel<T>(bound: usize) -> (SyncSender<T>, Receiver<T>) {
    std::sync::mpsc::sync_channel(bound)
}

/// Relies on std::sync::mpsc::channel: an unbounded channel, used once per
/// request to carry the single reply back to the caller.
#[verifier::external_body]
pub(crate) fn reply_channel<T>() -> (Sender<T>, Receiver<T>) {
    std::sync::mpsc::channel()
}

/// Relies on std::sync::mpsc::SyncSender::send: it fails exactly when the
/// receiving end has been dropped, i.e. the worker is gone.
#[verifier::external_body]
pub(crate) fn send_to<T>(ch: &SyncSender<T>, t: T) -> (r: Result<(), AMapErr>)
    ensures
        match r {
            Ok(u) => true,
            Err(e) => e == AMapErr::SendErr,
        },
{
    match ch.send(t) {
        Ok(()) => Ok(()),
        Err(_) => Err(AMapErr::SendErr),
    }
}

/// Relies on std::sync::mpsc::Sender::send: it fails exactly when the
/// receiving end has been dropped, i.e. no caller is waiting any more.
#[verifier::external_body]
pub(crate) fn reply_to<T>(ch: &Sender<T>, t: T) -> (r: Result<(), AMapErr>)
    ensures
        match r {
            Ok(u) => true,
            Err(e) => e == AMapErr::SendErr,
        },
{
    match ch.send(t) {
        Ok(()) => Ok(()),
        Err(_) => Err(AMapErr::SendErr),
    }
}

/// Relies on std::sync::mpsc::Receiver::recv: it blocks until a value
/// arrives and fails exactly when every sender has been dropped.
#[verifier::external_body]
pub(crate) fn recv_from<T>(ch: &Receiver<T>) -> (r: Result<T, AMapErr>)
    ensures
        match r {
            Ok(t2) => true,
            Err(e) => e == AMapErr::RecvErr,
        },
{
    match ch.recv() {
        Ok(t) => Ok(t),
        Err(_) => Err(AMapErr::RecvErr),
    }
}

/// Relies on std::sync::mpsc::Receiver::try_recv: yields the next waiting
/// value without blocking; `None` both when the intake is momentarily empty
/// and when every sender is gone, either of which ends a drain.
#[verifier::external_body]
pub(crate) fn try_recv_from<T>(ch: &Receiver<T>) -> Option<T> {
    match ch.try_recv() {
        Ok(t) => Some(t),
        Err(_) => None,
    }
}

/// Relies on std::sync::mpsc::SyncSender::clone: the clone feeds the same
/// channel, so nothing further is claimed of it.
#[verifier::external_body]
pub(crate) fn clone_sync_sender<T>(ch: &SyncSender<T>) -> SyncSender<T> {
    ch.clone()
}

/// Relies on std::sync::Mutex::new: the new mutex wraps exactly `t`; the
/// mutex itself is opaque here, so the caller records `t` alongside it.
#[verifier::external_body]
pub(crate) fn new_mutex<T>(t: T) -> Mutex<T> {
    Mutex::new(t)
}

/// Relies on std::sync::Arc::clone: the clone shares the one allocation, so
/// as a value it is the very Arc it was cloned from.
#[verifier::external_body]
pub(crate) fn arc_clone<T>(a: &Arc<T>) -> (r: Arc<T>)
    ensures
        r == *a,
{
    Arc::clone(a)
}

/// Relies on std::sync::Mutex::lock and PoisonError::into_inner: blocks
/// until the lock is free and recovers a poisoned lock instead of refusing
/// it, handing back the guard either way. A previous holder's panic leaves
/// the guarded value in an unspecified but accessible state; recovery keeps
/// one panicking holder from stranding the value for everyone after it.
#[verifier::external_body]
pub(crate) fn lock_recover<'a, T>(a: &'a Arc<Mutex<T>>) -> MutexGuard<'a, T> {
    match a.lock() {
        Ok(guard) => guard,
        Err(poisoned) => poisoned.into_inner(),
    }
}

/// Relies on the guard's DerefMut: exclusive access to the value a held
/// lock guards, for as long as the guard is borrowed.
#[verifier::external_body]
pub(crate) fn guarded_mut<'a, 'b, T>(g: &'b mut MutexGuard<'a, T>) -> &'b mut T {
    &mut **g
}

/// Relies on std::sync::Mutex::lock: it blocks until the lock is free and
/// fails exactly when a previous holder panicked while holding it.
#[verifier::external_body]
pub(crate) fn lock_mutex<'a, T>(a: &'a Arc<Mutex<T>>) -> (r: Result<MutexGuard<'a, T>, AMapErr>)
    ensures
        match r {
            Ok(guard) => true,
            Err(e) => e == AMapErr::PoisonErr,
        },
{
    match a.lock() {
        Ok(guard) => Ok(guard),
        Err(_) => Err(AMapErr::PoisonErr),
    }
}

} // verus!
