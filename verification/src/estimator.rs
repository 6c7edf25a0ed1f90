//! Pairing of captured echo edges into distance readings.
//!
//! The counter is a free-running 16-bit register, so the length of an echo is
//! the difference of its two edge timestamps modulo 2^16.

use vstd::prelude::*;

verus! {

/// Number of values the 16-bit capture register can show.
pub const COUNTER_MODULUS: u32 = 0x1_0000;

/// Exclusive ceiling, in ticks, on a timestamp that may open a pair and on the
/// length of an echo that may close one.
pub const RANGE_CEILING: u16 = 4000;

/// Centimetres of distance per `DISTANCE_DENOMINATOR` ticks of echo, for
/// one-microsecond ticks: sound covers 0.034 cm per microsecond and the echo
/// travels the distance twice.
pub const DISTANCE_NUMERATOR: u32 = 17;

/// See `DISTANCE_NUMERATOR`.
pub const DISTANCE_DENOMINATOR: u32 = 1000;

/// Ticks from `first` to `second` on a counter that wraps at 2^16.
pub open spec fn wrap_delta(first: u16, second: u16) -> int {
    (second as int - first as int) % (COUNTER_MODULUS as int)
}

/// Whether a tick count lies under the plausible-range ceiling.
pub open spec fn in_range(ticks: int) -> bool {
    0 <= ticks < RANGE_CEILING
}

/// Distance for an echo of `delta` ticks, in thousandths of a centimetre.
pub open spec fn distance_thousandths(delta: int) -> int {
    delta * (DISTANCE_NUMERATOR as int)
}

/// Distance for an echo of `delta` ticks, in whole centimetres, rounded down.
pub open spec fn distance_cm(delta: int) -> int {
    distance_thousandths(delta) / (DISTANCE_DENOMINATOR as int)
}

/// Where the pairing of edges stands.
#[derive(Clone, Copy, Debug, PartialEq, Eq, Structural)]
pub enum Phase {
    /// No edge is pending and no pair has just completed.
    Idle,
    /// One edge is held and its pairing edge is awaited.
    Armed,
    /// A pair has just completed. The next edge is treated as in `Idle`.
    Resolved,
    /// Both slots are filled: an unpaired edge is held although a pair was
    /// closed. No sequence of edges leads here from an empty state.
    Faulted,
}

/// Raised when an edge arrives while both edge slots are filled.
#[derive(Clone, Copy, Debug, PartialEq, Eq, Structural)]
pub struct SequencingFault {
    /// The unpaired edge that was held.
    pub first_edge: u16,
    /// The closing edge that was held beside it.
    pub closing_edge: u16,
}

/// State of one HC-SR04 measurement cycle.
#[derive(Clone, Copy, Debug, PartialEq, Eq, Structural)]
pub struct HcSr04Measure {
    /// Timestamp of the edge that opened the pending pair.
    pub first_edge: Option<u16>,
    /// Timestamp of the edge that closed the last completed pair, kept until
    /// the next pair opens.
    pub closing_edge: Option<u16>,
    /// Distance of the last completed pair, in centimetres.
    pub last_distance: Option<u16>,
}

/// Converts the length of an echo in ticks to whole centimetres.
pub fn ticks_to_cm(delta: u16) -> (cm: u16)
    ensures
        cm == distance_cm(delta as int),
{
    let scaled: u32 = (delta as u32) * DISTANCE_NUMERATOR;
    (scaled / DISTANCE_DENOMINATOR) as u16
}

impl HcSr04Measure {
    /// At most one unpaired edge is held.
    pub open spec fn wf(&self) -> bool {
        !(self.first_edge is Some && self.closing_edge is Some)
    }

    /// The phase that the two edge slots encode.
    pub open spec fn phase(&self) -> Phase {
        match (self.first_edge, self.closing_edge) {
            (None, None) => Phase::Idle,
            (Some(_), None) => Phase::Armed,
            (None, Some(_)) => Phase::Resolved,
            (Some(_), Some(_)) => Phase::Faulted,
        }
    }

    /// Whether an edge at `measure` closes the pending pair with a distance.
    pub open spec fn completes(&self, measure: u16) -> bool {
        self.phase() == Phase::Armed && in_range(wrap_delta(self.first_edge->0, measure))
    }

    /// The state after an edge at `measure`.
    pub open spec fn after_edge(&self, measure: u16) -> HcSr04Measure {
        match self.phase() {
            Phase::Faulted => *self,
            Phase::Armed => {
                let delta = wrap_delta(self.first_edge->0, measure);
                if in_range(delta) {
                    HcSr04Measure {
                        first_edge: None,
                        closing_edge: Some(measure),
                        last_distance: Some(distance_cm(delta) as u16),
                    }
                } else {
                    HcSr04Measure {
                        first_edge: None,
                        closing_edge: None,
                        last_distance: self.last_distance,
                    }
                }
            },
            _ => {
                if in_range(measure as int) {
                    HcSr04Measure {
                        first_edge: Some(measure),
                        closing_edge: None,
                        last_distance: self.last_distance,
                    }
                } else {
                    *self
                }
            },
        }
    }

    /// An empty state: no edge held, no distance known.
    pub fn new() -> (state: HcSr04Measure)
        ensures
            state.first_edge is None,
            state.closing_edge is None,
            state.last_distance is None,
            state.phase() == Phase::Idle,
            state.wf(),
    {
        HcSr04Measure { first_edge: None, closing_edge: None, last_distance: None }
    }

    /// The distance of the last completed pair, if any pair has completed.
    pub fn get_distance(&self) -> (distance: Option<u16>)
        ensures
            distance == self.last_distance,
    {
        self.last_distance
    }

    /// The phase that the state is in.
    pub fn current_phase(&self) -> (phase: Phase)
        ensures
            phase == self.phase(),
    {
        match (self.first_edge, self.closing_edge) {
            (None, None) => Phase::Idle,
            (Some(_), None) => Phase::Armed,
            (None, Some(_)) => Phase::Resolved,
            (Some(_), Some(_)) => Phase::Faulted,
        }
    }

    /// Feeds one captured edge timestamp to the state machine.
    ///
    /// With no edge pending, a timestamp under the ceiling opens a pair and any
    /// other is ignored. With an edge pending, the echo length is the wrapped
    /// difference of the two timestamps: under the ceiling it becomes the new
    /// distance, otherwise the pair is dropped and the old distance stays. With
    /// both slots filled nothing is changed and the fault is returned.
    pub fn save_measure(&mut self, measure: u16) -> (outcome: Result<(), SequencingFault>)
        ensures
            *final(self) == old(self).after_edge(measure),
            outcome is Err <==> old(self).phase() == Phase::Faulted,
            outcome is Err ==> outcome->Err_0 == (SequencingFault {
                first_edge: old(self).first_edge->0,
                closing_edge: old(self).closing_edge->0,
            }),
            old(self).wf() ==> final(self).wf(),
    {
        match (self.first_edge, self.closing_edge) {
            (Some(first), Some(closing)) => {
                Err(SequencingFault { first_edge: first, closing_edge: closing })
            },
            (Some(first), None) => {
                let delta: u16 = measure.wrapping_sub(first);
                self.first_edge = None;
                if delta < RANGE_CEILING {
                    self.closing_edge = Some(measure);
                    self.last_distance = Some(ticks_to_cm(delta));
                }
                Ok(())
            },
            (None, _) => {
                if measure < RANGE_CEILING {
                    self.first_edge = Some(measure);
                    self.closing_edge = None;
                }
                Ok(())
            },
        }
    }
}

/// The state after each of `edges` has been fed in turn, first to last.
pub open spec fn after_edges(start: HcSr04Measure, edges: Seq<u16>) -> HcSr04Measure
    decreases edges.len(),
{
    if edges.len() == 0 {
        start
    } else {
        after_edges(start, edges.drop_last()).after_edge(edges.last())
    }
}

/// A longer echo never gives a shorter distance. In thousandths of a
/// centimetre the distance grows strictly with the echo; in whole centimetres
/// it grows strictly once two echoes lie 59 ticks or more apart, and the
/// rounding loses less than one centimetre.
pub proof fn distance_monotonic(shorter: int, longer: int)
    requires
        0 <= shorter < longer,
    ensures
        distance_thousandths(shorter) < distance_thousandths(longer),
        distance_cm(shorter) <= distance_cm(longer),
        longer - shorter >= 59 ==> distance_cm(shorter) < distance_cm(longer),
        1000 * distance_cm(longer) <= distance_thousandths(longer) < 1000 * distance_cm(longer)
            + 1000,
{
}

/// Under the range ceiling the distance is the sensor's rule of thumb, one
/// centimetre per 58 microseconds of echo, or one centimetre less.
pub proof fn distance_tracks_datasheet(delta: int)
    requires
        in_range(delta),
    ensures
        delta / 58 - 1 <= distance_cm(delta) <= delta / 58,
{
}

/// A pair is completed only from the armed phase, and completing it leaves
/// that phase: of two edges in a row at most one completes a pair.
pub proof fn no_two_completions_in_a_row(state: HcSr04Measure, first: u16, second: u16)
    ensures
        state.completes(first) ==> state.phase() == Phase::Armed,
        state.completes(first) ==> state.after_edge(first).phase() == Phase::Resolved,
        !(state.completes(first) && state.after_edge(first).completes(second)),
{
}

/// An edge out of range never changes the distance, and with no edge pending
/// it changes nothing at all.
pub proof fn out_of_range_edge_is_absorbed(state: HcSr04Measure, measure: u16)
    requires
        state.phase() != Phase::Faulted,
        state.phase() == Phase::Armed ==> !in_range(wrap_delta(state.first_edge->0, measure)),
        state.phase() != Phase::Armed ==> !in_range(measure as int),
    ensures
        state.after_edge(measure).last_distance == state.last_distance,
        state.after_edge(measure).phase() != Phase::Armed,
        state.phase() != Phase::Armed ==> state.after_edge(measure) == state,
{
}

/// The distance changes only when a pair completes, and then it is the
/// distance of that pair's echo.
pub proof fn distance_changes_only_on_completion(state: HcSr04Measure, measure: u16)
    ensures
        !state.completes(measure) ==> state.after_edge(measure).last_distance
            == state.last_distance,
        state.completes(measure) ==> state.after_edge(measure).last_distance == Some(
            distance_cm(wrap_delta(state.first_edge->0, measure)) as u16,
        ),
        state.completes(measure) ==> distance_cm(wrap_delta(state.first_edge->0, measure)) <= 67,
{
}

/// Starting with at most one unpaired edge held, no sequence of edges fills
/// both slots: the fault is never reached by feeding edges.
pub proof fn edges_never_fault(start: HcSr04Measure, edges: Seq<u16>)
    requires
        start.wf(),
    ensures
        after_edges(start, edges).wf(),
        after_edges(start, edges).phase() != Phase::Faulted,
    decreases edges.len(),
{
    if edges.len() > 0 {
        edges_never_fault(start, edges.drop_last());
    }
}

/// Once both slots are filled, every further edge leaves the state as it is.
pub proof fn fault_is_kept(start: HcSr04Measure, edges: Seq<u16>)
    requires
        start.phase() == Phase::Faulted,
    ensures
        after_edges(start, edges) == start,
    decreases edges.len(),
{
    if edges.len() > 0 {
        fault_is_kept(start, edges.drop_last());
    }
}

} // verus!
