//! The outside types through which the thread of a stage and its tether reach
//! each other.
use crate::retries::Nanos;
use crate::runtime::anchor::Anchor;
use crate::runtime::stage::StagePhase;
use crossbeam::atomic::AtomicCell;
use crossbeam::utils::Backoff;
use std::sync::{Arc, Weak};
use std::time::Instant;
use tokio::sync::watch;
use vstd::prelude::*;

verus! {

/// `crossbeam::atomic::AtomicCell`: a memory location that threads share.
#[verifier::external_type_specification]
#[verifier::external_body]
#[verifier::reject_recursive_types(T)]
pub struct ExAtomicCell<T>(AtomicCell<T>);

/// `crossbeam::utils::Backoff`: how long a spinning thread has spun already.
#[verifier::external_type_specification]
#[verifier::external_body]
pub struct ExBackoff(Backoff);

/// `tokio::sync::watch::Sender`: the end of a watch channel that sets its value.
#[verifier::external_type_specification]
#[verifier::external_body]
#[verifier::reject_recursive_types(T)]
pub struct ExSender<T>(watch::Sender<T>);

/// `tokio::sync::watch::Receiver`: an end of a watch channel that sees its value.
#[verifier::external_type_specification]
#[verifier::external_body]
#[verifier::reject_recursive_types(T)]
pub struct ExReceiver<T>(watch::Receiver<T>);

/// `tokio::sync::watch::error::SendError`: what a sender without receivers gets.
#[verifier::external_type_specification]
#[verifier::external_body]
#[verifier::reject_recursive_types(T)]
pub struct ExSendError<T>(watch::error::SendError<T>);

/// `std::time::Instant`: a moment on the machine's monotonic clock.
#[verifier::external_type_specification]
#[verifier::external_body]
pub struct ExInstant(Instant);

/// A `std::sync::Weak` to an anchor. It does not keep the anchor alive. The weak
/// pointer has an allocator parameter that cannot be written here, so it stands in
/// a field that is hidden from the proofs.
#[verifier::external_body]
pub struct AnchorRef {
    anchor: Weak<Anchor>,
}

/// A number that stands for handing `value` over to `place`, which other threads
/// can see. Different values and places have different numbers, as far as there are
/// numbers enough.
///
/// What a function may hand over is listed, by these numbers, in its
/// `opens_invariants` clause, and its body is held to that list: `none` says that it
/// leaves everything that is shared as it is.
pub closed spec fn mark_of<P, V>(place: P, value: V) -> int {
    let marks = choose|marks: spec_fn((P, V)) -> int| tells_apart(marks);
    marks((place, value))
}

/// Whether each pair has a number of its own.
spec fn tells_apart<P, V>(marks: spec_fn((P, V)) -> int) -> bool {
    forall|a: (P, V), b: (P, V)| #[trigger] marks(a) == #[trigger] marks(b) ==> a == b
}

/// The anchor that a reference was made from.
pub uninterp spec fn anchor_behind(reference: AnchorRef) -> Arc<Anchor>;

/// The phase that a cell held when it was made.
pub uninterp spec fn first_phase(cell: AtomicCell<StagePhase>) -> StagePhase;

/// The value with which the watch channel of `tx` and `rx` was opened, or `None`
/// where the two are not ends of one channel.
pub uninterp spec fn opening_value(tx: watch::Sender<bool>, rx: watch::Receiver<bool>) -> Option<
    bool,
>;

/// `AtomicCell::new` for a phase: the new cell holds `phase`.
#[verifier::external_body]
pub(crate) fn phase_cell(phase: StagePhase) -> (cell: AtomicCell<StagePhase>)
    ensures
        first_phase(cell) == phase,
    opens_invariants none
{
    AtomicCell::new(phase)
}

/// `AtomicCell::new` for a moment of the clock. Nothing is claimed of the cell.
#[verifier::external_body]
pub(crate) fn moment_cell(moment: Instant) -> (cell: AtomicCell<Instant>)
    opens_invariants none
{
    AtomicCell::new(moment)
}

/// `AtomicCell::load` gives what the cell holds at that moment. Any thread may
/// have stored it, so nothing is claimed of the value.
pub assume_specification<T: Copy>[ AtomicCell::<T>::load ](cell: &AtomicCell<T>) -> T
    opens_invariants none
;

/// `AtomicCell::store` replaces what the cell holds. The cell is shared, so no
/// later load is claimed to see the value. It hands over `val` and nothing else.
pub assume_specification<T>[ AtomicCell::<T>::store ](cell: &AtomicCell<T>, val: T)
    opens_invariants [ mark_of(*cell, val) ]
;

/// `tokio::sync::watch::channel` gives the two ends of one new channel, which
/// holds `value`.
#[verifier::external_body]
pub(crate) fn watch_channel(value: bool) -> (ends: (watch::Sender<bool>, watch::Receiver<bool>))
    ensures
        opening_value(ends.0, ends.1) == Some(value),
    opens_invariants none
{
    watch::channel(value)
}

/// `watch::Receiver::borrow` looks at the value that was sent last. Any thread
/// may have sent it, so nothing is claimed of the value.
#[verifier::external_body]
pub(crate) fn watched_value(rx: &watch::Receiver<bool>) -> (value: bool)
    opens_invariants none
{
    *rx.borrow()
}

/// `watch::Sender::send` sets the value of the channel and wakes its receivers,
/// or fails where none is left. The channel is shared, so nothing is claimed of
/// the outcome. It hands over `value` and nothing else.
pub assume_specification<T>[ watch::Sender::<T>::send ](
    tx: &watch::Sender<T>,
    value: T,
) -> Result<(), watch::error::SendError<T>>
    opens_invariants [ mark_of(*tx, value) ]
;

/// `Instant::now` reads the clock. Nothing is claimed of the moment.
pub assume_specification[ Instant::now ]() -> Instant
    opens_invariants none
;

/// `Instant::elapsed` measures the time since `moment`, here in nanoseconds.
/// It depends on the clock, so nothing is claimed of it.
#[verifier::external_body]
pub(crate) fn nanos_since(moment: &Instant) -> (nanos: Nanos)
    opens_invariants none
{
    moment.elapsed().as_nanos()
}

/// `Backoff::snooze` lets the calling thread spin or yield for a little while.
pub assume_specification[ Backoff::snooze ](backoff: &Backoff)
    opens_invariants none
;

/// `Arc::downgrade` gives a weak pointer to `anchor`.
#[verifier::external_body]
pub(crate) fn downgraded(anchor: &Arc<Anchor>) -> (reference: AnchorRef)
    ensures
        anchor_behind(reference) == *anchor,
    opens_invariants none
{
    AnchorRef { anchor: Arc::downgrade(anchor) }
}

/// `Weak::upgrade` gives the anchor that the weak pointer was made from, or nothing
/// once that anchor has been dropped. When that happens is up to the thread of the
/// stage, so it is not claimed which of the two comes.
#[verifier::external_body]
pub(crate) fn upgraded(reference: &AnchorRef) -> (anchor: Option<Arc<Anchor>>)
    ensures
        anchor matches Some(found) ==> found == anchor_behind(*reference),
    opens_invariants none
{
    reference.anchor.upgrade()
}

} // verus!
