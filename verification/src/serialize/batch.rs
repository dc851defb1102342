//! Batches: items that are worked off one after another, whatever becomes
//! of each.

use vstd::prelude::*;

verus! {

/// How a batch went: how many of its items succeeded and how many failed.
#[derive(Debug, Clone, Copy, PartialEq, Eq, Structural)]
pub struct BatchSummary {
    pub succeeded: usize,
    pub failed: usize,
}

/// Whether progress is reported after the item at an index of a batch:
/// after the first item and after every twenty-fifth from there.
pub fn reports_progress(index: usize) -> (reported: bool)
    ensures
        reported == (index % 25 == 0),
{
    index % 25 == 0
}

/// A batch of items that are worked off one after another, and how each
/// ended.
pub struct Batch<T> {
    waiting: Vec<T>,
    outcomes: Vec<bool>,
}

/// The state of a batch: the items that still wait, in order, and whether
/// each item that was worked off succeeded.
pub ghost struct BatchModel<T> {
    pub waiting: Seq<T>,
    pub outcomes: Seq<bool>,
}

/// How many items of a list are `true`.
pub open spec fn count_true(outcomes: Seq<bool>) -> nat
    decreases outcomes.len(),
{
    if outcomes.len() == 0 {
        0
    } else if outcomes.last() {
        count_true(outcomes.drop_last()) + 1
    } else {
        count_true(outcomes.drop_last())
    }
}

impl<T> View for Batch<T> {
    type V = BatchModel<T>;

    closed spec fn view(&self) -> BatchModel<T> {
        BatchModel { waiting: self.waiting@, outcomes: self.outcomes@ }
    }
}

impl<T> Batch<T> {
    /// A batch of the given items, none of them worked off.
    pub fn new(items: Vec<T>) -> (batch: Batch<T>)
        ensures
            batch@ == (BatchModel { waiting: items@, outcomes: Seq::<bool>::empty() }),
    {
        Batch { waiting: items, outcomes: Vec::new() }
    }

    /// Hands out the item that is worked off next, if any waits. Which item
    /// that is does not depend on how the items before it ended: a failure
    /// never keeps the items after it from being tried.
    pub fn next(&mut self) -> (item: Option<T>)
        ensures
            old(self)@.waiting.len() == 0 ==> item is None && final(self)@ == old(self)@,
            old(self)@.waiting.len() > 0 ==> item == Some(old(self)@.waiting[0]) && final(self)@
                == (BatchModel { waiting: old(self)@.waiting.drop_first(), ..old(self)@ }),
    {
        if self.waiting.len() == 0 {
            None
        } else {
            let item = self.waiting.remove(0);
            assert(self.waiting@ =~= old(self).waiting@.drop_first());
            Some(item)
        }
    }

    /// Notes how the item that was handed out last ended.
    pub fn settle(&mut self, succeeded: bool)
        ensures
            final(self)@ == (BatchModel {
                outcomes: old(self)@.outcomes.push(succeeded),
                ..old(self)@
            }),
    {
        self.outcomes.push(succeeded);
    }

    /// How many items have been worked off.
    pub fn settled(&self) -> (n: usize)
        ensures
            n == self@.outcomes.len(),
    {
        self.outcomes.len()
    }

    /// Counts how the items that were worked off ended: every one of them is
    /// counted once, as a success or as a failure.
    pub fn summary(&self) -> (summary: BatchSummary)
        ensures
            summary.succeeded == count_true(self@.outcomes),
            summary.succeeded + summary.failed == self@.outcomes.len(),
    {
        let mut succeeded: usize = 0;
        let mut failed: usize = 0;
        let mut i: usize = 0;
        assert(self.outcomes@.take(0) =~= Seq::<bool>::empty());
        while i < self.outcomes.len()
            invariant
                i <= self.outcomes.len(),
                succeeded == count_true(self.outcomes@.take(i as int)),
                succeeded + failed == i,
            decreases self.outcomes.len() - i,
        {
            proof {
                let next = self.outcomes@.take(i + 1);
                assert(next.drop_last() =~= self.outcomes@.take(i as int));
                assert(next.last() == self.outcomes@[i as int]);
            }
            if self.outcomes[i] {
                succeeded += 1;
            } else {
                failed += 1;
            }
            i += 1;
        }
        assert(self.outcomes@.take(self.outcomes.len() as int) =~= self.outcomes@);
        BatchSummary { succeeded, failed }
    }
}

} // verus!
