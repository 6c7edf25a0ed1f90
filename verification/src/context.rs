//! The timer handle and the measurement, owned as one unit.
//!
//! The interrupt handler and the foreground loop both reach the measurement
//! through this container. Whoever holds it must give each of them exclusive
//! access for the length of one call, by disabling interrupts around it.

use vstd::prelude::*;
use crate::estimator::{HcSr04Measure, Phase, SequencingFault};

verus! {

/// A timer handle of type `T` together with the state of the measurement.
pub struct SharedContext<T> {
    /// The handle through which the timer's registers are reached.
    pub timer: T,
    /// The state of the edge pairing.
    pub measure: HcSr04Measure,
}

impl<T> SharedContext<T> {
    /// Takes ownership of the timer handle and starts with an empty measurement.
    pub fn new(timer: T) -> (context: SharedContext<T>)
        ensures
            context.timer == timer,
            context.measure == (HcSr04Measure {
                first_edge: None,
                closing_edge: None,
                last_distance: None,
            }),
    {
        SharedContext { timer, measure: HcSr04Measure::new() }
    }

    /// The timer handle.
    pub fn timer(&self) -> (timer: &T)
        ensures
            *timer == self.timer,
    {
        &self.timer
    }

    /// Feeds one captured edge to the measurement. The timer handle is not touched.
    pub fn capture_edge(&mut self, edge: u16) -> (outcome: Result<(), SequencingFault>)
        ensures
            final(self).timer == old(self).timer,
            final(self).measure == old(self).measure.after_edge(edge),
            outcome is Err <==> old(self).measure.phase() == Phase::Faulted,
            outcome is Err ==> outcome->Err_0 == (SequencingFault {
                first_edge: old(self).measure.first_edge->0,
                closing_edge: old(self).measure.closing_edge->0,
            }),
    {
        self.measure.save_measure(edge)
    }

    /// Copies out the distance of the last completed pair, if there is one.
    pub fn latest_distance(&self) -> (distance: Option<u16>)
        ensures
            distance == self.measure.last_distance,
    {
        self.measure.get_distance()
    }

    /// The distance that a read returns when it runs before the capture of
    /// `edge` (`read_first`) or after it.
    pub open spec fn distance_read(&self, edge: u16, read_first: bool) -> Option<u16> {
        if read_first {
            self.measure.last_distance
        } else {
            self.measure.after_edge(edge).last_distance
        }
    }
}

/// With one capture and one read each run as a whole, in either order, the
/// read returns the distance held before the capture or the one held after
/// it: the old distance, or that of the pair which the edge completed.
pub proof fn read_sees_old_or_new_distance<T>(
    context: SharedContext<T>,
    edge: u16,
    read_first: bool,
)
    ensures
        context.distance_read(edge, read_first) == context.measure.last_distance
            || context.distance_read(edge, read_first) == context.measure.after_edge(
            edge,
        ).last_distance,
        context.distance_read(edge, read_first) != context.measure.last_distance
            ==> !read_first && context.measure.completes(edge),
{
}

} // verus!
