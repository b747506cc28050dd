//! The shared window registry: the single point of truth for the current
//! window list. The listener replaces its contents wholesale on every
//! compositor event; the renderer takes copies. The surrounding application
//! guards one registry value with a mutual-exclusion lock and holds the lock
//! only for the duration of a `replace` or a `snapshot`.

use vstd::prelude::*;

use crate::extract::records_view;
use crate::tree::{RecordView, WindowRecord};

verus! {

/// An ordered sequence of window records, insertion order being the
/// depth-first traversal order of the window tree at snapshot time. Every
/// write is a complete replacement, never a delta.
pub struct WindowRegistry {
    records: Vec<WindowRecord>,
}

impl View for WindowRegistry {
    type V = Seq<RecordView>;

    closed spec fn view(&self) -> Seq<RecordView> {
        records_view(self.records@)
    }
}

impl WindowRegistry {
    /// A registry starts empty, before the first listener snapshot arrives.
    pub fn new() -> (r: Self)
        ensures
            r@ == Seq::<RecordView>::empty(),
    {
        let r = WindowRegistry { records: Vec::new() };
        proof {
            assert(r@ =~= Seq::<RecordView>::empty());
        }
        r
    }

    /// Atomically discard the previous sequence and install `records`.
    pub fn replace(&mut self, records: Vec<WindowRecord>)
        ensures
            final(self)@ == records_view(records@),
    {
        self.records = records;
    }

    /// A copy of the current sequence, leaving the registry unchanged.
    pub fn snapshot(&self) -> (r: Vec<WindowRecord>)
        ensures
            records_view(r@) == self@,
    {
        let mut r: Vec<WindowRecord> = Vec::new();
        let mut i: usize = 0;
        while i < self.records.len()
            invariant
                i <= self.records.len(),
                records_view(r@) == self@.take(i as int),
            decreases self.records.len() - i,
        {
            let ghost prev = r@;
            r.push(self.records[i].duplicate());
            proof {
                assert(records_view(prev).len() == prev.len());
                assert(self@.len() == self.records@.len());
                assert(prev.len() == i);
                assert forall|t: int| 0 <= t < i + 1 implies records_view(r@)[t] == self@.take(
                    i + 1,
                )[t] by {
                    if t < i {
                        assert(records_view(prev)[t] == self@.take(i as int)[t]);
                        assert(r@[t] == prev[t]);
                    }
                }
                assert(records_view(r@) =~= self@.take(i + 1));
            }
            i += 1;
        }
        proof {
            assert(self@.take(self.records@.len() as int) =~= self@);
        }
        r
    }

    /// How many windows the registry currently holds.
    pub fn len(&self) -> (n: usize)
        ensures
            n == self@.len(),
    {
        self.records.len()
    }
}

} // verus!
