//! A number that one owner counts up and others read.
use crate::runtime::mark_of;
use crossbeam::atomic::AtomicCell;
use std::sync::atomic::Ordering;
use std::sync::Arc;
use vstd::prelude::*;

verus! {

/// A number that the worker of a stage counts up, from zero, and others may read.
/// The owner keeps the count and leaves it in a cell for the readers. A counter
/// cannot be copied and counting takes it for itself, so nobody else stores into its
/// cell.
#[derive(Default)]
pub struct Counter {
    count: u64,
    cell: Arc<AtomicCell<u64>>,
}

/// The reading end of a counter. Nothing is ever stored through it, so a reading
/// leaves the count as it is.
pub struct CounterReader {
    cell: Arc<AtomicCell<u64>>,
}

/// A count, and the cell in which readers look for it.
pub struct CounterView {
    pub count: u64,
    pub cell: AtomicCell<u64>,
}

impl View for Counter {
    type V = CounterView;

    closed spec fn view(&self) -> CounterView {
        CounterView { count: self.count, cell: *self.cell }
    }
}

impl View for CounterReader {
    type V = AtomicCell<u64>;

    closed spec fn view(&self) -> AtomicCell<u64> {
        *self.cell
    }
}

/// Whether a look at a counter's cell gave `value`.
pub open spec fn cell_showed(cell: AtomicCell<u64>, value: u64) -> bool {
    call_ensures(AtomicCell::<u64>::load, (&cell,), value)
}

/// The sum of two counts, which wrap around.
pub open spec fn counted_on(count: u64, value: u64) -> u64 {
    ((count + value) % 0x1_0000_0000_0000_0000) as u64
}

impl Counter {
    /// Counts `value` more, and gives the count from before. The count wraps around.
    /// The cell releases on each store, whatever `_order` asks for.
    pub fn fetch_add(&mut self, value: u64, _order: Ordering) -> (before: u64)
        ensures
            before == old(self)@.count,
            final(self)@ == (CounterView {
                count: counted_on(old(self)@.count, value),
                cell: old(self)@.cell,
            }),
            call_ensures(
                AtomicCell::<u64>::store,
                (&old(self)@.cell, counted_on(old(self)@.count, value)),
                (),
            ),
        opens_invariants [
            mark_of(old(self)@.cell, counted_on(old(self)@.count, value)),
        ]
    {
        let before: u64 = self.count;
        self.count = if value <= u64::MAX - before {
            before + value
        } else {
            value - (u64::MAX - before) - 1
        };
        assert(self.count == counted_on(before, value)) by {
            counts_wrap_around(before, value);
        }
        self.cell.store(self.count);
        before
    }

    /// A reading end of this counter.
    pub fn reader(&self) -> (reader: CounterReader)
        ensures
            reader@ == self@.cell,
    {
        CounterReader { cell: self.cell.clone() }
    }
}

impl CounterReader {
    /// The number that the counter shows at this moment.
    pub fn count(&self) -> (value: u64)
        ensures
            cell_showed(self@, value),
        opens_invariants none
    {
        self.cell.load()
    }
}

/// Counting on adds up, and is off the sum by one turn around the range of a count
/// where the sum is out of that range.
pub proof fn counts_wrap_around(count: u64, value: u64)
    ensures
        count + value <= u64::MAX ==> counted_on(count, value) == count + value,
        count + value > u64::MAX ==> counted_on(count, value) + 0x1_0000_0000_0000_0000 == count
            + value,
{
}

/// In how many steps a number is counted makes no difference.
pub proof fn counting_adds_up(count: u64, one: u64, other: u64)
    ensures
        counted_on(counted_on(count, one), other) == counted_on(count, counted_on(one, other)),
        counted_on(counted_on(count, one), other) == counted_on(counted_on(count, other), one),
        counted_on(count, 0) == count,
{
    counts_wrap_around(count, one);
    counts_wrap_around(count, other);
    counts_wrap_around(one, other);
}

} // verus!
