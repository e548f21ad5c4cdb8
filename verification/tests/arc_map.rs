use arc_map::AMapErr;
use arc_map::ArcMap;
use arc_map::Handle;
use arc_map::Job;
use arc_map::deliver;
use arc_map::step;
use std::collections::HashMap;
use std::sync::mpsc::channel;

/// Ten counters, each raised ten times by locking a fetched handle and ten
/// times through `on_do`: every counter ends at exactly twenty.
#[test]
fn add_to_ten() {
    let mp = ArcMap::new();

    for i in 0..10 {
        mp.insert(i, 0).unwrap();
    }

    for i in 0..10 {
        for _ in 0..10 {
            let m2 = mp.clone();
            let g = m2.clone().get(i).unwrap();
            let mut incnum = g.lock().unwrap();
            *incnum += 1;
        }
    }

    for i in 0..10 {
        for _ in 0..10 {
            let m2 = mp.clone();
            m2.clone().on_do(i, |v| *v += 1).unwrap();
        }
    }

    for i in 0..10 {
        mp.on_do(i, |num| assert_eq!(*num, 20)).unwrap();
        // same but other method
        let g = mp.get(i).unwrap();
        let num = g.lock().unwrap();
        assert_eq!(*num, 20);
    }
}

/// Inserts under distinct keys; `get` on each key yields a handle holding
/// the value inserted for that key.
#[test]
fn distinct_inserts_all_found() {
    let mp = ArcMap::new();
    for i in 0..5i64 {
        assert!(mp.insert(i, i * 100).unwrap());
    }
    for i in 0..5i64 {
        let h = mp.get(i).unwrap();
        let v = h.lock().unwrap();
        assert_eq!(*v, i * 100);
    }
}

/// `get` on a key never inserted reports `NotFound`.
#[test]
fn get_never_inserted_not_found() {
    let mp: ArcMap<u32, String> = ArcMap::new();
    mp.insert(1, String::from("one")).unwrap();
    assert!(matches!(mp.get(2), Err(AMapErr::NotFound)));
    assert!(matches!(
        mp.on_do(7, |s: &mut String| s.len()),
        Err(AMapErr::NotFound)
    ));
}

/// After `remove(k)`, `get(k)` reports `NotFound`, but a handle fetched
/// before the removal stays readable and writable.
#[test]
fn removed_key_gone_but_handle_lives() {
    let mp = ArcMap::new();
    mp.insert(8u64, 40i32).unwrap();
    let kept = mp.get(8).unwrap();

    mp.remove(8).unwrap();
    assert!(matches!(mp.get(8), Err(AMapErr::NotFound)));

    {
        let v = kept.lock().unwrap();
        assert_eq!(*v, 40);
    }
    {
        let mut v = kept.lock().unwrap();
        *v += 2;
    }
    let v = kept.lock().unwrap();
    assert_eq!(*v, 42);
}

/// Other keys are untouched by a removal.
#[test]
fn remove_leaves_other_keys() {
    let mp = ArcMap::new();
    mp.insert(1u8, 10).unwrap();
    mp.insert(2u8, 20).unwrap();
    mp.remove(1).unwrap();
    let h = mp.get(2).unwrap();
    assert_eq!(*h.lock().unwrap(), 20);
}

/// Re-inserting an existing key changes what later `get` calls see, while a
/// handle fetched before the re-insert keeps showing the superseded entry.
#[test]
fn reinsert_replaces_for_later_gets_only() {
    let mp = ArcMap::new();
    mp.insert(3u32, String::from("old")).unwrap();
    let before = mp.get(3).unwrap();

    mp.insert(3u32, String::from("new")).unwrap();

    let after = mp.get(3).unwrap();
    assert_eq!(&*after.lock().unwrap(), "new");
    assert_eq!(&*before.lock().unwrap(), "old");

    // Writing through the superseded handle does not reach the new entry.
    before.lock().unwrap().push_str("er");
    assert_eq!(&*mp.get(3).unwrap().lock().unwrap(), "new");
    assert_eq!(&*before.lock().unwrap(), "older");
}

/// One hundred lock-then-mutate increments on one shared entry land exactly:
/// the counter ends at one hundred.
#[test]
fn hundred_increments_one_entry() {
    let mp = ArcMap::new();
    mp.insert(0u8, 0u64).unwrap();
    for _ in 0..10 {
        let facade = mp.clone();
        for _ in 0..10 {
            let h = facade.get(0).unwrap();
            let mut v = h.lock().unwrap();
            *v += 1;
        }
    }
    assert_eq!(mp.on_do(0, |v| *v).unwrap(), 100);
}

/// Increments made half by direct lock-and-mutate and half through `on_do`
/// interleave correctly: the counter still ends at one hundred.
#[test]
fn mixed_lock_and_on_do_increments() {
    let mp = ArcMap::new();
    mp.insert(0u8, 0u64).unwrap();
    for round in 0..100 {
        if round % 2 == 0 {
            let h = mp.get(0).unwrap();
            let mut v = h.lock().unwrap();
            *v += 1;
        } else {
            mp.clone().on_do(0, |v| *v += 1).unwrap();
        }
    }
    assert_eq!(mp.on_do(0, |v| *v).unwrap(), 100);
}

/// The two editing styles from the crate's front page: grab the mutex of a
/// fetched handle, or edit in place through `on_do`.
#[test]
fn edit_by_lock_and_in_place() {
    let mut am = ArcMap::new();

    am.insert(3, String::from("hello")).unwrap();
    {
        let p = am.get(3).unwrap();
        let mut s = p.lock().unwrap();
        s.push_str(" world");
    }
    {
        let p2 = am.get(3).unwrap();
        let s2 = p2.lock().unwrap();
        assert_eq!(*s2, String::from("hello world"));
    }

    am.insert(4, String::from("goodbye")).unwrap();
    am.on_do(4, |s| s.push_str(" cruel world")).unwrap();
    let ls = am.on_do(4, |s| s.clone()).unwrap();
    assert_eq!(&ls, "goodbye cruel world");

    am = am.clone();
    assert_eq!(am.on_do(3, |s| s.len()).unwrap(), 11);
}

/// A small explicit backlog still serves any number of requests, and a
/// requested backlog of zero is usable (it is raised to one).
#[test]
fn sized_backlogs_work() {
    let tiny = ArcMap::new_sized(1);
    for i in 0..30u16 {
        tiny.insert(i, i).unwrap();
    }
    for i in 0..30u16 {
        assert_eq!(*tiny.get(i).unwrap().lock().unwrap(), i);
    }
    tiny.remove(0).unwrap();
    assert!(matches!(tiny.get(0), Err(AMapErr::NotFound)));

    let zero = ArcMap::new_sized(0);
    zero.insert(1u8, 1u8).unwrap();
    assert_eq!(*zero.get(1).unwrap().lock().unwrap(), 1);
}

/// `insert` reports success, both for a fresh key and for an overwrite.
#[test]
fn insert_reports_success() {
    let mp = ArcMap::new();
    assert!(mp.insert(9i32, 1i32).unwrap());
    assert!(mp.insert(9i32, 2i32).unwrap());
    assert_eq!(*mp.get(9).unwrap().lock().unwrap(), 2);
}

/// Removing an absent key is a quiet no-op.
#[test]
fn remove_absent_is_noop() {
    let mp: ArcMap<u8, u8> = ArcMap::new();
    mp.remove(5).unwrap();
    assert!(matches!(mp.get(5), Err(AMapErr::NotFound)));
}

/// Driving the worker's step function by hand: each job's reply arrives on
/// the job's own reply channel and matches the table's state.
#[test]
fn step_and_deliver_answer_on_the_reply_channel() {
    let mut table: HashMap<u32, Handle<String>> = HashMap::new();

    let (tx, rx) = channel();
    deliver(step(&mut table, Job::Add(1, String::from("a"), tx)));
    assert!(rx.recv().unwrap());

    let (tx2, rx2) = channel();
    deliver(step(&mut table, Job::Get(1, tx2)));
    let h = rx2.recv().unwrap().unwrap();
    assert_eq!(&*h.lock().unwrap(), "a");

    deliver(step(&mut table, Job::Remove(1)));
    let (tx3, rx3) = channel();
    deliver(step(&mut table, Job::Get(1, tx3)));
    assert!(rx3.recv().unwrap().is_none());

    // The handle fetched before the removal still reaches the entry.
    assert_eq!(&*h.lock().unwrap(), "a");
}

/// The transform applicator returns exactly what the transform computed.
#[test]
fn apply_to_runs_the_transform() {
    let mut v: u64 = 41;
    let doubled = arc_map::apply_to(&mut v, |x: &mut u64| {
        *x += 1;
        *x * 2
    });
    assert_eq!(v, 42);
    assert_eq!(doubled, 84);
}

/// The recovering lock reaches the entry like the plain one; on a healthy
/// entry the two are interchangeable.
#[test]
fn recovering_lock_reads_and_writes() {
    let mp = ArcMap::new();
    mp.insert(1u8, 5i32).unwrap();
    let h = mp.get(1).unwrap();
    {
        let mut v = h.lock_recovering();
        *v += 1;
    }
    assert_eq!(*h.lock().unwrap(), 6);
    assert_eq!(*h.lock_recovering(), 6);
}
