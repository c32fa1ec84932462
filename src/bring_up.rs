//! The order in which a started interface brings up the audio path.
//!
//! Each step names the one action to perform while in it. The caller
//! performs it, then asks for the next step, passing whether the receive
//! channel's intake queue holds data (read only while awaiting intake).
//! Enabling the serial peripheral before both DMA streams are armed, or
//! before the intake holds data, drops or misaligns the first frames.
use vstd::prelude::*;

verus! {

/// Busy-wait cycles that hold the codec's reset line low; far above the
/// codec's minimum pulse of 150 ns at any core clock in use.
pub const RESET_HOLD_CYCLES: u32 = 480_000;

/// A step of bring-up, named after the action to perform in it.
#[derive(Clone, Copy, Debug, PartialEq, Eq, Structural)]
pub enum StartStep {
    /// Drive the codec's reset line low.
    ResetLow,
    /// Wait `RESET_HOLD_CYCLES` cycles.
    HoldReset,
    /// Drive the codec's reset line high.
    ResetHigh,
    /// Unmask the receive stream's interrupt.
    UnmaskInterrupt,
    /// Start the receive stream and enable its DMA requests at the peripheral.
    StartReceive,
    /// Start the transmit stream and enable its DMA requests at the peripheral.
    StartTransmit,
    /// Read whether the receive intake queue holds data.
    AwaitIntake,
    /// Enable the serial peripheral.
    EnablePeripheral,
    /// Nothing left to do: audio runs.
    Running,
}

/// Position of a step in the bring-up order.
pub open spec fn step_rank(s: StartStep) -> nat {
    match s {
        StartStep::ResetLow => 0,
        StartStep::HoldReset => 1,
        StartStep::ResetHigh => 2,
        StartStep::UnmaskInterrupt => 3,
        StartStep::StartReceive => 4,
        StartStep::StartTransmit => 5,
        StartStep::AwaitIntake => 6,
        StartStep::EnablePeripheral => 7,
        StartStep::Running => 8,
    }
}

/// The step that follows `s` once its action is done: the next in order,
/// except that awaiting intake repeats until the intake holds data, and
/// running stays running.
pub open spec fn step_after(s: StartStep, intake_ready: bool) -> StartStep {
    match s {
        StartStep::ResetLow => StartStep::HoldReset,
        StartStep::HoldReset => StartStep::ResetHigh,
        StartStep::ResetHigh => StartStep::UnmaskInterrupt,
        StartStep::UnmaskInterrupt => StartStep::StartReceive,
        StartStep::StartReceive => StartStep::StartTransmit,
        StartStep::StartTransmit => StartStep::AwaitIntake,
        StartStep::AwaitIntake => if intake_ready {
            StartStep::EnablePeripheral
        } else {
            StartStep::AwaitIntake
        },
        StartStep::EnablePeripheral => StartStep::Running,
        StartStep::Running => StartStep::Running,
    }
}

/// The step after `s`, given whether the receive intake holds data.
pub fn next_step(s: StartStep, intake_ready: bool) -> (r: StartStep)
    ensures
        r == step_after(s, intake_ready),
{
    match s {
        StartStep::ResetLow => StartStep::HoldReset,
        StartStep::HoldReset => StartStep::ResetHigh,
        StartStep::ResetHigh => StartStep::UnmaskInterrupt,
        StartStep::UnmaskInterrupt => StartStep::StartReceive,
        StartStep::StartReceive => StartStep::StartTransmit,
        StartStep::StartTransmit => StartStep::AwaitIntake,
        StartStep::AwaitIntake => {
            if intake_ready {
                StartStep::EnablePeripheral
            } else {
                StartStep::AwaitIntake
            }
        },
        StartStep::EnablePeripheral => StartStep::Running,
        StartStep::Running => StartStep::Running,
    }
}

/// Bring-up never skips or reorders a step: each step is followed by itself
/// or by the next in order, and the peripheral is enabled only straight
/// after the intake was seen to hold data, which comes after both streams
/// were started.
pub proof fn lemma_bring_up_order(s: StartStep, intake_ready: bool)
    ensures
        step_after(s, intake_ready) == s || step_rank(step_after(s, intake_ready)) == step_rank(s) + 1,
        step_after(s, intake_ready) == s ==> (s == StartStep::AwaitIntake && !intake_ready) || s == StartStep::Running,
        step_after(s, intake_ready) == StartStep::EnablePeripheral ==> s == StartStep::AwaitIntake && intake_ready,
        step_rank(StartStep::StartReceive) < step_rank(StartStep::AwaitIntake),
        step_rank(StartStep::StartTransmit) < step_rank(StartStep::AwaitIntake),
{
}

} // verus!
