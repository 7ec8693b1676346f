use vstd::prelude::*;

use crate::instant::Instant;

verus! {

/// An append-only sequence of instants, kept in the order they were added.
/// Sharing it between concurrent requests is left to whoever owns it (one
/// reader/writer lock around the whole store); every operation here is a
/// single short step under that lock.
pub struct TimestampStore {
    items: Vec<Instant>,
}

impl View for TimestampStore {
    type V = Seq<Instant>;

    closed spec fn view(&self) -> Seq<Instant> {
        self.items@
    }
}

impl TimestampStore {
    /// Every stored instant is well formed.
    pub open spec fn wf(&self) -> bool {
        forall|k: int| 0 <= k < self@.len() ==> #[trigger] self@[k].wf()
    }

    /// An empty store.
    pub fn new() -> (r: TimestampStore)
        ensures
            r@ == Seq::<Instant>::empty(),
            r.wf(),
    {
        TimestampStore { items: Vec::new() }
    }

    /// Adds `instant` at the end.
    pub fn append(&mut self, instant: Instant)
        requires
            old(self).wf(),
            instant.wf(),
        ensures
            final(self)@ == old(self)@.push(instant),
            final(self).wf(),
    {
        self.items.push(instant);
        proof {
            assert forall|k: int| 0 <= k < self@.len() implies #[trigger] self@[k].wf() by {
                if k < old(self)@.len() {
                    assert(old(self)@[k].wf());
                }
            }
        }
    }

    /// A copy of every stored instant, in the order they were added.
    pub fn snapshot(&self) -> (r: Vec<Instant>)
        ensures
            r@ == self@,
    {
        self.items.clone()
    }

    /// The number of stored instants.
    pub fn len(&self) -> (r: usize)
        ensures
            r == self@.len(),
    {
        self.items.len()
    }
}

} // verus!
