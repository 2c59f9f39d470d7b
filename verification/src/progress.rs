//! Counting the repositories of a list that have their outcome.
use vstd::prelude::*;

verus! {

/// The model of a [`ProgressCounter`]: how many items of a list have their
/// outcome, how many the list has, and the values reported so far.
pub struct ProgressView {
    pub completed: nat,
    pub total: nat,
    pub emitted: Seq<nat>,
}

impl ProgressView {
    /// The counter of a list of `total` items before any has its outcome.
    pub open spec fn start(total: nat) -> ProgressView {
        ProgressView { completed: 0, total, emitted: Seq::empty() }
    }

    /// The counter after one more item has its outcome: the count goes up
    /// by one and its new value is reported. A counter that has reached the
    /// size of its list stays as it is.
    pub open spec fn complete_one(self) -> ProgressView {
        if self.completed < self.total {
            ProgressView {
                completed: self.completed + 1,
                total: self.total,
                emitted: self.emitted.push(self.completed + 1),
            }
        } else {
            self
        }
    }

    /// The counter of a list of `total` items after `completions` of them
    /// were counted.
    pub open spec fn after(total: nat, completions: nat) -> ProgressView
        decreases completions,
    {
        if completions == 0 {
            ProgressView::start(total)
        } else {
            ProgressView::after(total, (completions - 1) as nat).complete_one()
        }
    }
}

/// Counts the items of a list that have their outcome, and says what to
/// report for each.
pub struct ProgressCounter {
    completed: usize,
    total: usize,
    emitted: Ghost<Seq<nat>>,
}

impl View for ProgressCounter {
    type V = ProgressView;

    closed spec fn view(&self) -> ProgressView {
        ProgressView {
            completed: self.completed as nat,
            total: self.total as nat,
            emitted: self.emitted@,
        }
    }
}

impl ProgressCounter {
    /// The counter for a list of `total` items.
    pub fn new(total: usize) -> (counter: ProgressCounter)
        ensures
            counter@ == ProgressView::start(total as nat),
    {
        ProgressCounter { completed: 0, total, emitted: Ghost(Seq::empty()) }
    }

    /// How many items have their outcome.
    pub fn completed(&self) -> (completed: usize)
        ensures
            completed == self@.completed,
    {
        self.completed
    }

    /// Counts one more item and hands back the value to report: the new
    /// count. `None`, and nothing to report, once every item was counted.
    pub fn complete_one(&mut self) -> (progress: Option<usize>)
        ensures
            final(self)@ == old(self)@.complete_one(),
            progress == if old(self)@.completed < old(self)@.total {
                Some((old(self)@.completed + 1) as usize)
            } else {
                None::<usize>
            },
    {
        if self.completed < self.total {
            self.completed = self.completed + 1;
            self.emitted = Ghost(self.emitted@.push(self.completed as nat));
            Some(self.completed)
        } else {
            None
        }
    }
}

/// The values reported for one list are 1, 2, 3 and so on, one for each item
/// counted, and never more than the list has items. So they are strictly
/// increasing, and once every item was counted the size of the list has been
/// reported exactly once, as the last value.
pub proof fn law_progress_is_strictly_increasing(total: nat, completions: nat)
    ensures
        ({
            let progress = ProgressView::after(total, completions);
            &&& progress.total == total
            &&& progress.completed == if completions <= total {
                completions
            } else {
                total
            }
            &&& progress.emitted.len() == progress.completed
            &&& forall|i: int| 0 <= i < progress.emitted.len() ==> progress.emitted[i] == i + 1
            &&& forall|i: int, j: int|
                0 <= i < j < progress.emitted.len() ==> progress.emitted[i] < progress.emitted[j]
            &&& forall|i: int|
                0 <= i < progress.emitted.len() && progress.emitted[i] == total ==> completions
                    >= total && i == total - 1
            &&& completions >= total && total > 0 ==> progress.emitted.last() == total
        }),
    decreases completions,
{
    if completions > 0 {
        law_progress_is_strictly_increasing(total, (completions - 1) as nat);
    }
}

} // verus!
