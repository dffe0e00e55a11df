//! What committed journal events announce: a pulse per event, and one
//! journal change naming every image the events touched, each once and in
//! order. Events with no image target (session remarks) touch nothing, and a
//! change that touches nothing is not announced.
use vstd::prelude::*;
use crate::folders::{insert_sorted, sorted_strict, views};

verus! {

#[derive(Debug, Clone)]
pub struct Announcement {
    /// How many "remark" pulses the indicator shows.
    pub pulses: usize,
    /// The images a `journal-changed` event names, when there are any.
    pub journal_changed: Option<Vec<String>>,
}

/// Some event targets the image `h`.
pub open spec fn touched(targets: Seq<Vec<String>>, h: Seq<char>) -> bool {
    exists|i: int, j: int| 0 <= i < targets.len() && 0 <= j < targets[i]@.len() && (#[trigger] targets[i]@[j])@ == h
}

/// The announcement of events with the given image targets, in commit order.
pub fn announcement(targets: &Vec<Vec<String>>) -> (a: Announcement)
    ensures
        a.pulses == targets@.len(),
        match a.journal_changed {
            Some(hashes) => {
                &&& hashes@.len() > 0
                &&& sorted_strict(views(hashes@))
                &&& forall|h: Seq<char>| views(hashes@).contains(h) <==> touched(targets@, h)
            },
            None => forall|h: Seq<char>| !#[trigger] touched(targets@, h),
        },
{
    let ghost tv = targets@;
    let mut hashes: Vec<String> = Vec::new();
    let n = targets.len();
    for i in 0..n
        invariant
            n == targets@.len(),
            tv == targets@,
            sorted_strict(views(hashes@)),
            forall|h: Seq<char>| views(hashes@).contains(h) <==> (exists|a: int, b: int|
                0 <= a < i && 0 <= b < tv[a]@.len() && (#[trigger] tv[a]@[b])@ == h),
    {
        let event = &targets[i];
        let m = event.len();
        proof {
            assert(tv[i as int]@ == event@);
        }
        for j in 0..m
            invariant
                n == targets@.len(),
                tv == targets@,
                i < n,
                m == event@.len(),
                tv[i as int]@ == event@,
                sorted_strict(views(hashes@)),
                forall|h: Seq<char>| views(hashes@).contains(h) <==> ((exists|a: int, b: int|
                    0 <= a < i && 0 <= b < tv[a]@.len() && (#[trigger] tv[a]@[b])@ == h) || (exists|b: int|
                    0 <= b < j && (#[trigger] event@[b])@ == h)),
        {
            let ghost before = views(hashes@);
            insert_sorted(&mut hashes, event[j].clone());
            proof {
                assert forall|h: Seq<char>| views(hashes@).contains(h) <==> ((exists|a: int, b: int|
                    0 <= a < i && 0 <= b < tv[a]@.len() && (#[trigger] tv[a]@[b])@ == h) || (exists|b: int|
                    0 <= b < j + 1 && (#[trigger] event@[b])@ == h)) by {
                    if h == event@[j as int]@ {
                        assert(exists|b: int| 0 <= b < j + 1 && (#[trigger] event@[b])@ == h);
                    }
                    if exists|b: int| 0 <= b < j + 1 && (#[trigger] event@[b])@ == h {
                        let b = choose|b: int| 0 <= b < j + 1 && (#[trigger] event@[b])@ == h;
                        if b < j {
                            assert(before.contains(h));
                        }
                    }
                }
            }
        }
        proof {
            assert forall|h: Seq<char>| views(hashes@).contains(h) <==> (exists|a: int, b: int|
                0 <= a < i + 1 && 0 <= b < tv[a]@.len() && (#[trigger] tv[a]@[b])@ == h) by {
                if exists|a: int, b: int| 0 <= a < i + 1 && 0 <= b < tv[a]@.len() && (#[trigger] tv[a]@[b])@ == h {
                    let (a, b) = choose|a: int, b: int| 0 <= a < i + 1 && 0 <= b < tv[a]@.len() && (#[trigger] tv[a]@[b])@ == h;
                    if a == i {
                        assert(event@[b]@ == h);
                    }
                }
                if exists|b: int| 0 <= b < m && (#[trigger] event@[b])@ == h {
                    let b = choose|b: int| 0 <= b < m && (#[trigger] event@[b])@ == h;
                    assert(tv[i as int]@[b]@ == h);
                }
            }
        }
    }
    proof {
        assert forall|h: Seq<char>| views(hashes@).contains(h) <==> touched(tv, h) by {
            if touched(tv, h) {
                let (a, b) = choose|a: int, b: int| 0 <= a < tv.len() && 0 <= b < tv[a]@.len() && (#[trigger] tv[a]@[b])@ == h;
                assert(0 <= a < n);
            }
        }
    }
    if hashes.len() == 0 {
        proof {
            assert forall|h: Seq<char>| !#[trigger] touched(tv, h) by {
                if touched(tv, h) {
                    assert(!views(hashes@).contains(h));
                }
            }
        }
        Announcement { pulses: n, journal_changed: None }
    } else {
        Announcement { pulses: n, journal_changed: Some(hashes) }
    }
}

} // verus!
