//! The error type shared by every operation of the collection facade.

use vstd::prelude::*;

verus! {

/// Everything that can go wrong when talking to the map's worker or when
/// locking an entry: the worker's intake is gone (`SendErr`), the worker
/// stopped before answering (`RecvErr`), a previous holder of an entry's lock
/// panicked while holding it (`PoisonErr`), or the key is simply absent
/// (`NotFound`).
#[derive(Clone, Copy, Debug, PartialEq, Eq, Structural)]
pub enum AMapErr {
    SendErr,
    RecvErr,
    PoisonErr,
    NotFound,
}

} // verus!
