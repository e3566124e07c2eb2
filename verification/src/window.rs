//! The history window: a bounded, most-recent-first sequence of retained
//! measurements. Insertion is at the front; when the capacity is exceeded the
//! oldest measurement is evicted from the back.

use crate::datapoint::Datapoint;
use vstd::prelude::*;

verus! {

/// The bounded window of recent measurements, most recent first.
#[derive(Debug)]
pub struct HistoryWindow {
    items: Vec<Datapoint>,
    capacity: usize,
}

impl View for HistoryWindow {
    type V = Seq<Datapoint>;

    closed spec fn view(&self) -> Seq<Datapoint> {
        self.items@
    }
}

impl HistoryWindow {
    /// The fixed bound on how many measurements are retained.
    pub closed spec fn spec_capacity(self) -> int {
        self.capacity as int
    }

    /// The window never holds more measurements than its capacity.
    pub open spec fn well_formed(self) -> bool {
        self@.len() <= self.spec_capacity() && self.spec_capacity() >= 1
    }

    pub fn new(capacity: usize) -> (r: HistoryWindow)
        requires
            capacity >= 1,
        ensures
            r@ == Seq::<Datapoint>::empty(),
            r.spec_capacity() == capacity,
            r.well_formed(),
    {
        HistoryWindow { items: Vec::new(), capacity }
    }

    pub fn capacity(&self) -> (r: usize)
        ensures
            r as int == self.spec_capacity(),
    {
        self.capacity
    }

    pub fn len(&self) -> (r: usize)
        ensures
            r == self@.len(),
    {
        self.items.len()
    }

    pub fn get(&self, i: usize) -> (r: &Datapoint)
        requires
            i < self@.len(),
        ensures
            *r == self@[i as int],
    {
        &self.items[i]
    }

    /// The retained measurements, most recent first.
    pub fn items(&self) -> (r: &Vec<Datapoint>)
        ensures
            r@ == self@,
    {
        &self.items
    }

    /// Inserts the newest measurement at the front. At capacity the oldest
    /// measurement is evicted first, so the length never grows past the
    /// capacity.
    pub fn push(&mut self, d: Datapoint)
        requires
            old(self).well_formed(),
        ensures
            final(self).well_formed(),
            final(self).spec_capacity() == old(self).spec_capacity(),
            old(self)@.len() < old(self).spec_capacity() ==> final(self)@ == seq![d] + old(self)@,
            old(self)@.len() == old(self).spec_capacity() ==> final(self)@ == seq![d] + old(
                self,
            )@.drop_last(),
    {
        if self.items.len() >= self.capacity {
            let _evicted = self.items.pop();
        }
        self.items.insert(0, d);
        proof {
            if old(self)@.len() < old(self).spec_capacity() {
                assert(self@ =~= seq![d] + old(self)@);
            } else {
                assert(self@ =~= seq![d] + old(self)@.drop_last());
            }
        }
    }
}

} // verus!
