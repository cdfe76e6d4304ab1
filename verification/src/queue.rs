//! The work queue: the block numbers that still wait for a job, lowest
//! first, taken from the high end.

use vstd::prelude::*;

verus! {

/// Each number of `numbers` is below the one after it, so none occurs twice.
pub open spec fn ascending(numbers: Seq<i64>) -> bool {
    forall|i: int, j: int| 0 <= i < j < numbers.len() ==> numbers[i] < numbers[j]
}

/// The `width` block numbers below `latest`, lowest first.
pub open spec fn block_span(latest: i64, width: nat) -> Seq<i64> {
    Seq::new(width, |i: int| (latest - width + i) as i64)
}

/// The numbers of the blocks that no job has been launched for yet.
///
/// The queue is filled once and then only shrinks: `pop` takes the highest
/// number that is left. The numbers stay where they were put; taking one
/// moves the mark that parts those that wait from those that were taken.
#[derive(Debug)]
pub struct WorkQueue {
    /// The numbers that the queue was filled with, in ascending order.
    numbers: Vec<i64>,
    /// How many of them, counted from the low end, still wait.
    waiting: usize,
}

impl View for WorkQueue {
    type V = Seq<i64>;

    closed spec fn view(&self) -> Seq<i64> {
        self.numbers@.take(self.waiting as int)
    }
}

impl WorkQueue {
    /// The mark lies within the numbers, and the numbers ascend.
    #[verifier::type_invariant]
    spec fn valid(&self) -> bool {
        &&& self.waiting <= self.numbers@.len()
        &&& ascending(self.numbers@)
    }

    /// The queue of no blocks.
    pub fn empty() -> (queue: Self)
        ensures
            queue@ == Seq::<i64>::empty(),
    {
        WorkQueue { numbers: Vec::new(), waiting: 0 }
    }

    /// The queue of the `width` blocks below `latest`: from `latest - width`
    /// up to `latest - 1`.
    pub fn below(latest: i64, width: u32) -> (queue: Self)
        requires
            latest - width >= i64::MIN,
        ensures
            queue@ == block_span(latest, width as nat),
    {
        let low: i64 = latest - (width as i64);
        let mut numbers: Vec<i64> = Vec::new();
        let mut i: u32 = 0;
        while i < width
            invariant
                i <= width,
                low == latest - width,
                numbers@.len() == i,
                forall|k: int| 0 <= k < i ==> numbers@[k] == low + k,
            decreases width - i,
        {
            numbers.push(low + (i as i64));
            i = i + 1;
        }
        let waiting: usize = numbers.len();
        WorkQueue { numbers, waiting }
    }

    /// How many blocks wait.
    pub fn len(&self) -> (n: usize)
        ensures
            n == self@.len(),
        no_unwind
    {
        proof {
            use_type_invariant(self);
        }
        self.waiting
    }

    /// Whether no block waits.
    pub fn is_empty(&self) -> (empty: bool)
        ensures
            empty == (self@.len() == 0),
        no_unwind
    {
        proof {
            use_type_invariant(self);
        }
        self.waiting == 0
    }

    /// Takes the highest number out of the queue, if one is left. The
    /// numbers of a queue ascend, so the one taken is the last and is above
    /// all that stay.
    pub fn pop(&mut self) -> (taken: Option<i64>)
        ensures
            ascending(old(self)@),
            match taken {
                Some(number) => old(self)@.len() > 0 && number == old(self)@.last() && final(self)@
                    == old(self)@.drop_last(),
                None => old(self)@.len() == 0 && final(self)@ == old(self)@,
            },
        no_unwind
    {
        proof {
            use_type_invariant(&*self);
        }
        if self.waiting == 0 {
            None
        } else {
            self.waiting = self.waiting - 1;
            Some(self.numbers[self.waiting])
        }
    }
}

} // verus!
