//! Register values for the timer, and the order in which it is brought up.
//!
//! The prescaler divides the bus clock down to the tick rate and the reload
//! value sets the trigger period. Both registers are 16 bits wide: a derived
//! value that does not fit is cut to its low 16 bits. Divisions round down, so
//! timing is exact only where the tick rate divides the bus clock and the
//! trigger rate divides the tick rate.

use vstd::prelude::*;
use vstd::arithmetic::div_mod::lemma_fundamental_div_mod;

verus! {

/// Number of values a 16-bit timer register can hold.
pub const REGISTER_MODULUS: u32 = 0x1_0000;

/// Values for the timer's prescaler, auto-reload and trigger compare registers.
#[derive(Clone, Copy, Debug, PartialEq, Eq, Structural)]
pub struct TimerConfig {
    /// Divides the bus clock down to the tick rate: one tick every
    /// `tick_prescaler + 1` clock cycles.
    pub tick_prescaler: u16,
    /// The counter restarts after `period_reload_value + 1` ticks.
    pub period_reload_value: u16,
    /// The trigger output is high for this many ticks of every period.
    pub trigger_compare_value: u16,
}

/// Why no register values can be derived from the wanted frequencies.
#[derive(Clone, Copy, Debug, PartialEq, Eq, Structural)]
pub enum ConfigurationError {
    /// The tick frequency is zero.
    ZeroTickFrequency,
    /// The trigger frequency is zero.
    ZeroTriggerFrequency,
    /// The tick frequency is above the bus clock: the prescaler would be negative.
    TickAboveClock,
    /// The trigger frequency is above the tick frequency: the reload value
    /// would be negative.
    TriggerAboveTick,
    /// The pulse is not shorter than the reload value.
    PulseTooWide,
}

/// One action on the timer, its pins' clock domain or the interrupt controller.
#[derive(Clone, Copy, Debug, PartialEq, Eq, Structural)]
pub enum TimerStep {
    /// Enable the timer's peripheral clock.
    EnablePeripheralClock,
    /// Assert the timer's reset line.
    AssertReset,
    /// Release the timer's reset line.
    ReleaseReset,
    /// Buffer the reload register until the next update event.
    EnableAutoReloadPreload,
    /// Generate an update event.
    ForceUpdate,
    /// Write the prescaler register.
    WritePrescaler(u16),
    /// Write the auto-reload register.
    WriteReload(u16),
    /// Write the compare register of the trigger channel.
    WriteTriggerCompare(u16),
    /// Put the trigger channel in periodic-pulse mode with preload.
    SelectTriggerPulseMode,
    /// Enable the trigger channel's output.
    EnableTriggerOutput,
    /// Route the echo pin to the capture channel, with no input filter.
    SelectEchoCaptureUnfiltered,
    /// Enable the capture channel, latching on rising and falling edges.
    EnableEchoCaptureBothEdges,
    /// Let a capture raise the timer's interrupt.
    EnableCaptureInterrupt,
    /// Clear the interrupt line's pending flag.
    UnpendInterrupt,
    /// Unmask the interrupt line.
    UnmaskInterrupt,
    /// Start the counter.
    StartCounter,
}

/// The low 16 bits of a derived register value.
pub open spec fn truncate_to_register(value: int) -> int {
    value % (REGISTER_MODULUS as int)
}

/// Prescaler for a bus clock of `apb_clock_freq` and ticks at `tick_freq`.
pub open spec fn prescaler_for(apb_clock_freq: u32, tick_freq: u32) -> int
    recommends
        0 < tick_freq <= apb_clock_freq,
{
    truncate_to_register((apb_clock_freq as int) / (tick_freq as int) - 1)
}

/// Reload value for ticks at `tick_freq` and triggers at `trigger_freq`.
pub open spec fn reload_for(tick_freq: u32, trigger_freq: u32) -> int
    recommends
        0 < trigger_freq <= tick_freq,
{
    truncate_to_register((tick_freq as int) / (trigger_freq as int) - 1)
}

/// What `configure` returns: the first rule that the inputs break, or the
/// register values.
pub open spec fn configuration_for(
    apb_clock_freq: u32,
    desired_tick_freq: u32,
    desired_trigger_freq: u32,
    pulse_width: u16,
) -> Result<TimerConfig, ConfigurationError> {
    if desired_tick_freq == 0 {
        Err(ConfigurationError::ZeroTickFrequency)
    } else if desired_trigger_freq == 0 {
        Err(ConfigurationError::ZeroTriggerFrequency)
    } else if apb_clock_freq < desired_tick_freq {
        Err(ConfigurationError::TickAboveClock)
    } else if desired_tick_freq < desired_trigger_freq {
        Err(ConfigurationError::TriggerAboveTick)
    } else if pulse_width >= reload_for(desired_tick_freq, desired_trigger_freq) {
        Err(ConfigurationError::PulseTooWide)
    } else {
        Ok(
            TimerConfig {
                tick_prescaler: prescaler_for(apb_clock_freq, desired_tick_freq) as u16,
                period_reload_value: reload_for(desired_tick_freq, desired_trigger_freq) as u16,
                trigger_compare_value: pulse_width,
            },
        )
    }
}

/// The actions that bring the timer up with `config`, in the order in which
/// they are to be performed.
pub open spec fn startup_steps(config: TimerConfig) -> Seq<TimerStep> {
    seq![
        TimerStep::EnablePeripheralClock,
        TimerStep::AssertReset,
        TimerStep::ReleaseReset,
        TimerStep::EnableAutoReloadPreload,
        TimerStep::ForceUpdate,
        TimerStep::WritePrescaler(config.tick_prescaler),
        TimerStep::WriteReload(config.period_reload_value),
        TimerStep::WriteTriggerCompare(config.trigger_compare_value),
        TimerStep::SelectTriggerPulseMode,
        TimerStep::EnableTriggerOutput,
        TimerStep::SelectEchoCaptureUnfiltered,
        TimerStep::EnableEchoCaptureBothEdges,
        TimerStep::EnableCaptureInterrupt,
        TimerStep::UnpendInterrupt,
        TimerStep::UnmaskInterrupt,
        TimerStep::StartCounter,
    ]
}

impl TimerConfig {
    /// The trigger pulse ends before the period does.
    pub open spec fn wf(&self) -> bool {
        self.trigger_compare_value < self.period_reload_value
    }
}

/// A quotient is at least one where the divisor does not exceed the dividend.
proof fn lemma_quotient_at_least_one(dividend: int, divisor: int)
    requires
        0 < divisor <= dividend,
    ensures
        dividend / divisor >= 1,
{
    lemma_fundamental_div_mod(dividend, divisor);
    assert(0 <= dividend % divisor < divisor);
    assert(dividend / divisor <= 0 ==> divisor * (dividend / divisor) <= 0) by (nonlinear_arith)
        requires
            divisor > 0,
    ;
}

/// Derives the register values for a bus clock of `apb_clock_freq` Hz, ticks
/// at `desired_tick_freq` Hz, trigger pulses at `desired_trigger_freq` Hz and a
/// pulse of `pulse_width` ticks.
///
/// The prescaler is `apb_clock_freq / desired_tick_freq - 1` and the reload
/// value `desired_tick_freq / desired_trigger_freq - 1`, each rounded down and
/// cut to 16 bits.
pub fn configure(
    apb_clock_freq: u32,
    desired_tick_freq: u32,
    desired_trigger_freq: u32,
    pulse_width: u16,
) -> (config: Result<TimerConfig, ConfigurationError>)
    ensures
        config == configuration_for(
            apb_clock_freq,
            desired_tick_freq,
            desired_trigger_freq,
            pulse_width,
        ),
        config is Ok ==> config->Ok_0.wf(),
{
    if desired_tick_freq == 0 {
        return Err(ConfigurationError::ZeroTickFrequency);
    }
    if desired_trigger_freq == 0 {
        return Err(ConfigurationError::ZeroTriggerFrequency);
    }
    if apb_clock_freq < desired_tick_freq {
        return Err(ConfigurationError::TickAboveClock);
    }
    if desired_tick_freq < desired_trigger_freq {
        return Err(ConfigurationError::TriggerAboveTick);
    }
    let cycles_per_tick: u32 = apb_clock_freq / desired_tick_freq;
    let ticks_per_period: u32 = desired_tick_freq / desired_trigger_freq;
    proof {
        lemma_quotient_at_least_one(apb_clock_freq as int, desired_tick_freq as int);
        lemma_quotient_at_least_one(desired_tick_freq as int, desired_trigger_freq as int);
    }
    let prescaler: u16 = ((cycles_per_tick - 1) % REGISTER_MODULUS) as u16;
    let reload: u16 = ((ticks_per_period - 1) % REGISTER_MODULUS) as u16;
    if pulse_width >= reload {
        return Err(ConfigurationError::PulseTooWide);
    }
    Ok(
        TimerConfig {
            tick_prescaler: prescaler,
            period_reload_value: reload,
            trigger_compare_value: pulse_width,
        },
    )
}

/// Lists the actions that bring the timer up with `config`: clock and reset
/// first, then the time base, the trigger channel, the capture channel and its
/// interrupt, and the start of the counter last.
pub fn startup_sequence(config: TimerConfig) -> (steps: [TimerStep; 16])
    ensures
        steps@ == startup_steps(config),
{
    let steps: [TimerStep; 16] = [
        TimerStep::EnablePeripheralClock,
        TimerStep::AssertReset,
        TimerStep::ReleaseReset,
        TimerStep::EnableAutoReloadPreload,
        TimerStep::ForceUpdate,
        TimerStep::WritePrescaler(config.tick_prescaler),
        TimerStep::WriteReload(config.period_reload_value),
        TimerStep::WriteTriggerCompare(config.trigger_compare_value),
        TimerStep::SelectTriggerPulseMode,
        TimerStep::EnableTriggerOutput,
        TimerStep::SelectEchoCaptureUnfiltered,
        TimerStep::EnableEchoCaptureBothEdges,
        TimerStep::EnableCaptureInterrupt,
        TimerStep::UnpendInterrupt,
        TimerStep::UnmaskInterrupt,
        TimerStep::StartCounter,
    ];
    assert(steps@ =~= startup_steps(config));
    steps
}

/// Where the derived values fit their registers, the tick lasts
/// `tick_prescaler + 1` clock cycles and the period `period_reload_value + 1`
/// ticks, each rounded down from the wanted ratio: exact where the tick
/// frequency divides the bus clock and the trigger frequency divides the tick
/// frequency.
pub proof fn timing_of_configuration(
    apb_clock_freq: u32,
    desired_tick_freq: u32,
    desired_trigger_freq: u32,
    pulse_width: u16,
)
    requires
        configuration_for(apb_clock_freq, desired_tick_freq, desired_trigger_freq, pulse_width)
            is Ok,
        apb_clock_freq / desired_tick_freq <= REGISTER_MODULUS,
        desired_tick_freq / desired_trigger_freq <= REGISTER_MODULUS,
    ensures
        ({
            let config = configuration_for(
                apb_clock_freq,
                desired_tick_freq,
                desired_trigger_freq,
                pulse_width,
            )->Ok_0;
            let cycles = config.tick_prescaler + 1;
            let ticks = config.period_reload_value + 1;
            &&& cycles * desired_tick_freq <= apb_clock_freq < (cycles + 1) * desired_tick_freq
            &&& ticks * desired_trigger_freq <= desired_tick_freq < (ticks + 1)
                * desired_trigger_freq
            &&& apb_clock_freq % desired_tick_freq == 0 ==> cycles * desired_tick_freq
                == apb_clock_freq
            &&& desired_tick_freq % desired_trigger_freq == 0 ==> ticks * desired_trigger_freq
                == desired_tick_freq
        }),
{
    let apb = apb_clock_freq as int;
    let tick = desired_tick_freq as int;
    let trigger = desired_trigger_freq as int;
    lemma_fundamental_div_mod(apb, tick);
    lemma_fundamental_div_mod(tick, trigger);
    assert(0 <= apb % tick < tick);
    assert(0 <= tick % trigger < trigger);
    assert((apb / tick + 1) * tick == (apb / tick) * tick + tick) by (nonlinear_arith);
    assert((tick / trigger + 1) * trigger == (tick / trigger) * trigger + trigger)
        by (nonlinear_arith);
    assert(tick * (apb / tick) == (apb / tick) * tick) by (nonlinear_arith);
    assert(trigger * (tick / trigger) == (tick / trigger) * trigger) by (nonlinear_arith);
    lemma_quotient_at_least_one(apb, tick);
    lemma_quotient_at_least_one(tick, trigger);
}

} // verus!
