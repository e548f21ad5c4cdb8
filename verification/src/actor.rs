//! The worker that owns the map.
//!
//! All structural access to the key-to-entry table goes through a single
//! sequential stream of [`Job`]s; the worker applies them one at a time, in
//! arrival order, so no two structural operations ever interleave. What one
//! job does to the table and what it answers is pinned down exactly by
//! [`step`]; [`drain`] only moves jobs and replies between the channels and
//! `step`.
//!
//! The worker has no thread of its own: it is driven by whichever caller
//! holds its lock. A caller enqueues its job on the bounded intake, takes
//! the worker's lock, drains the intake, and releases the lock; the jobs it
//! drains on the way to its own are those that arrived first. The worker is
//! owned by the facades jointly and goes away with the last of them.

use vstd::prelude::*;

use std::collections::HashMap;
use std::sync::Arc;
use std::sync::Mutex;
use std::sync::mpsc::Receiver;
use std::sync::mpsc::Sender;
use std::sync::mpsc::SyncSender;

use vstd::std_specs::hash::obeys_key_model;

use crate::MKey;
use crate::MVal;
use crate::ext::new_mutex;
use crate::ext::request_channel;
use crate::ext::reply_to;
use crate::ext::try_recv_from;
use crate::handle::Handle;

verus! {

/// One structural request, together with the private channel on which its
/// reply is owed (removal expects none).
#[verifier::reject_recursive_types(V)]
pub enum Job<K, V> {
    Add(K, V, Sender<bool>),
    Get(K, Sender<Option<Handle<V>>>),
    Remove(K),
}

/// What the worker owes after one job: the reply channel it must answer on
/// and the value to answer with, or nothing for a removal.
#[verifier::reject_recursive_types(V)]
pub enum Reply<V> {
    Added(Sender<bool>, bool),
    Fetched(Sender<Option<Handle<V>>>, Option<Handle<V>>),
    Silent,
}

/// What a lookup on the table yields: the handle stored at `k`, if any.
pub open spec fn lookup<K, V>(table: Map<K, Handle<V>>, k: K) -> Option<Handle<V>> {
    if table.contains_key(k) {
        Some(table[k])
    } else {
        None
    }
}

/// Apply one job to the table and say what is owed in reply.
///
/// This is the single place where the map's structure changes: an `Add`
/// stores a fresh entry created from the given value (overwriting any old
/// slot, which outstanding handles survive), a `Get` leaves the table alone
/// and answers with the stored handle, a `Remove` drops the slot and answers
/// nothing.
pub fn step<K: MKey, V: MVal>(table: &mut HashMap<K, Handle<V>>, job: Job<K, V>) -> (rep: Reply<V>)
    ensures
        obeys_key_model::<K>() ==> match job {
            Job::Add(k, v, ch) => {
                &&& (exists|h: Handle<V>| h@ == v && final(table)@ == old(table)@.insert(k, h))
                &&& rep == Reply::<V>::Added(ch, true)
            },
            Job::Get(k, ch) => {
                &&& final(table)@ == old(table)@
                &&& rep == Reply::<V>::Fetched(ch, lookup(old(table)@, k))
            },
            Job::Remove(k) => {
                &&& final(table)@ == old(table)@.remove(k)
                &&& rep == Reply::<V>::Silent
            },
        },
{
    match job {
        Job::Add(k, v, ch) => {
            let h = Handle::new(v);
            let ghost fresh = h;
            table.insert(k, h);
            proof {
                if obeys_key_model::<K>() {
                    assert(fresh@ == v && table@ == old(table)@.insert(k, fresh));
                }
            }
            Reply::Added(ch, true)
        },
        Job::Get(k, ch) => {
            let found = match table.get(&k) {
                Some(h) => Some(h.clone()),
                None => None,
            };
            Reply::Fetched(ch, found)
        },
        Job::Remove(k) => {
            table.remove(&k);
            Reply::Silent
        },
    }
}

/// Send the owed reply, if any. A failed send only means the caller stopped
/// waiting; the worker carries on either way, as there is nobody left to
/// tell.
pub fn deliver<V: MVal>(rep: Reply<V>) {
    match rep {
        Reply::Added(ch, b) => {
            let _ = reply_to(&ch, b);
        },
        Reply::Fetched(ch, found) => {
            let _ = reply_to(&ch, found);
        },
        Reply::Silent => {},
    }
}

/// The worker itself: the sole owner of the table, reachable only through
/// its intake. It must be held (via its lock) to be driven.
#[verifier::reject_recursive_types(K)]
#[verifier::reject_recursive_types(V)]
pub struct Worker<K: MKey, V: MVal> {
    rx: Receiver<Job<K, V>>,
    table: HashMap<K, Handle<V>>,
    bound: usize,
}

/// The worker's processing loop: apply and answer waiting jobs, one at a
/// time in arrival order, and stop as soon as the intake yields no more,
/// either because it is empty or because every sender is gone. What each
/// job does to the table and what it answers is stated on [`step`]; the
/// jobs themselves come off the channel, so nothing further can be said of
/// the whole run.
///
/// One run handles at most as many jobs as the intake can hold, which is
/// all that can stand before the driving caller's own job: the intake never
/// holds more, and jobs that arrive later stand behind it. So each caller
/// drives its own job to completion, and the loop always terminates.
pub fn drain<K: MKey, V: MVal>(w: &mut Worker<K, V>) {
    let fuel = w.bound;
    let mut done: usize = 0;
    while done < fuel
        decreases fuel - done,
    {
        let job = match try_recv_from(&w.rx) {
            Some(job) => job,
            None => {
                return ;
            },
        };
        let rep = step(&mut w.table, job);
        deliver(rep);
        done = done + 1;
    }
}

/// Build the hidden worker: a bounded intake for its jobs, an empty table,
/// and the lock under which a caller may drive it. Only the returned sender
/// and lock ever reach the worker; the third part names the bound the
/// intake was built with. A requested bound of zero is raised to one: with
/// no worker thread of its own, a rendezvous intake could never meet its
/// receiver.
pub(crate) fn hide_map<K: MKey, V: MVal>(bsize: usize) -> (r: (
    SyncSender<Job<K, V>>,
    Arc<Mutex<Worker<K, V>>>,
    Ghost<usize>,
))
    ensures
        r.2@ == (if bsize == 0 {
            1usize
        } else {
            bsize
        }),
{
    let bound = if bsize == 0 {
        1
    } else {
        bsize
    };
    let (tx, rx) = request_channel(bound);
    let table: HashMap<K, Handle<V>> = HashMap::new();
    (tx, Arc::new(new_mutex(Worker { rx, table, bound })), Ghost(bound))
}

} // verus!
