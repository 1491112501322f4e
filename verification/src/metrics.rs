//! The numbers that a stage shows to the outside while it runs.
mod counter;

pub use counter::{
    cell_showed, counted_on, counting_adds_up, counts_wrap_around, Counter, CounterReader, CounterView,
};

use crossbeam::atomic::AtomicCell;
use vstd::prelude::*;

verus! {

/// The value of each tracked counter at one moment, under its name.
pub type Readings = Vec<(String, u64)>;

/// The counters of a stage, in the order in which they were registered.
pub struct Registry {
    pub counters: Vec<(String, CounterReader)>,
}

impl Registry {
    /// The names under which counters are tracked, in order.
    pub open spec fn names(self) -> Seq<Seq<char>> {
        self.counters@.map_values(|entry: (String, CounterReader)| entry.0@)
    }

    /// A registry that tracks nothing.
    pub fn new() -> (registry: Registry)
        ensures
            registry.counters@ == Seq::<(String, CounterReader)>::empty(),
    {
        Registry { counters: Vec::new() }
    }

    /// Tracks one more counter.
    pub fn track_counter(&mut self, name: &str, counter: &Counter)
        ensures
            final(self).names() == old(self).names().push(name@),
            final(self).counters@ == old(self).counters@.push(final(self).counters@.last()),
            final(self).counters@.last().1@ == counter@.cell,
    {
        self.counters.push((name.to_owned(), counter.reader()));
        proof {
            assert(self.counters@.drop_last() =~= old(self).counters@);
            assert(self.names() =~= old(self).names().push(name@));
        }
    }
}

impl Default for Registry {
    fn default() -> (registry: Registry)
        ensures
            registry.counters@ == Seq::<(String, CounterReader)>::empty(),
    {
        Registry::new()
    }
}

/// The names of a list of readings, in order.
pub open spec fn reading_names(readings: Seq<(String, u64)>) -> Seq<Seq<char>> {
    readings.map_values(|reading: (String, u64)| reading.0@)
}

/// Whether a look at `counter` gave `value`.
pub open spec fn counter_showed(counter: CounterReader, value: u64) -> bool {
    cell_showed(counter@, value)
}

/// The number that a counter shows at this moment.
fn count_of(counter: &CounterReader) -> (value: u64)
    ensures
        counter_showed(*counter, value),
    opens_invariants none
{
    counter.count()
}

/// Whether `readings` were taken of `registry`: one for each counter, in order,
/// with its name and the number that a look at it gave.
pub open spec fn taken_of(readings: Seq<(String, u64)>, registry: Registry) -> bool {
    &&& reading_names(readings) == registry.names()
    &&& readings.len() == registry.counters@.len()
    &&& forall|i: int|
        0 <= i < readings.len() ==> counter_showed(
            registry.counters@[i].1,
            (#[trigger] readings[i]).1,
        )
}

/// Reads every tracked counter once. Which number each of them shows is up to
/// the threads that count.
pub fn collect_readings(registry: &Registry) -> (readings: Readings)
    ensures
        taken_of(readings@, *registry),
{
    let mut readings: Readings = Vec::new();
    let mut next: usize = 0;
    while next < registry.counters.len()
        invariant
            next <= registry.counters.len(),
            reading_names(readings@) == registry.names().take(next as int),
            readings@.len() == next,
            forall|i: int|
                0 <= i < next ==> counter_showed(
                    registry.counters@[i].1,
                    (#[trigger] readings@[i]).1,
                ),
        decreases registry.counters.len() - next,
    {
        let value: u64 = count_of(&registry.counters[next].1);
        let ghost before = readings@;
        readings.push((registry.counters[next].0.clone(), value));
        proof {
            assert(readings@.drop_last() =~= before);
            assert(reading_names(readings@) =~= reading_names(before).push(
                registry.names()[next as int],
            ));
        }
        next = next + 1;
    }
    assert(registry.names().take(next as int) =~= registry.names());
    readings
}

/// The readings of a registry are of its counters, each at its place and under its
/// name, and each number is one that a load of that counter's cell gave.
pub proof fn readings_are_of_the_counters(
    readings: Seq<(String, u64)>,
    registry: Registry,
    i: int,
)
    requires
        taken_of(readings, registry),
        0 <= i < registry.counters@.len(),
    ensures
        readings.len() == registry.counters@.len(),
        readings[i].0@ == registry.counters@[i].0@,
        call_ensures(
            AtomicCell::<u64>::load,
            (&registry.counters@[i].1@,),
            readings[i].1,
        ),
{
    assert(reading_names(readings)[i] == registry.names()[i]);
}

/// Names are those of the counters, in the order in which they are tracked.
pub proof fn names_are_of_the_counters(registry: Registry, i: int)
    requires
        0 <= i < registry.counters@.len(),
    ensures
        registry.names().len() == registry.counters@.len(),
        registry.names()[i] == registry.counters@[i].0@,
{
}

} // verus!
