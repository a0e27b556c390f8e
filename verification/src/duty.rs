//! The duty-cycle state machine: cold boot, initialization, the bounded
//! awake window, and the terminal transition into timed deep sleep.
//!
//! Deep sleep halts the processor and clears ordinary memory, so the
//! machine never returns from its last phase; the next code to run is a
//! fresh cold boot with only the persisted cells carried over. The
//! surrounding runtime owns the hardware and performs the actions this
//! machine hands out.

use vstd::prelude::*;

use crate::config::{AWAKE_DURATION_SECONDS, DEEP_SLEEP_DURATION_SECONDS};
use crate::rtc_memory::RtcCell;

verus! {

/// The phases of one duty cycle, in order.
#[derive(Clone, Copy, Debug, PartialEq, Eq, Structural)]
pub enum DutyPhase {
    /// Execution has just (re)started; the persisted boot counter is due to
    /// be incremented.
    ColdBoot,
    /// Peripherals, network and display are being brought up and the
    /// concurrent tasks spawned.
    Initializing,
    /// The device stays live for a bounded window, long enough for at least
    /// one full acquisition-and-report round trip.
    Awake,
    /// Terminal per cycle: execution halts and only a physical wake source
    /// starts the next cycle.
    Sleeping,
}

/// What just happened, as reported by the surrounding runtime.
#[derive(Clone, Copy, Debug, PartialEq, Eq, Structural)]
pub enum DutyEvent {
    /// The persisted boot counter was read, incremented and stored back.
    BootCounted,
    /// Peripheral, network and display bring-up all succeeded.
    InitSucceeded,
    /// Some part of bring-up failed.
    InitFailed,
    /// The awake window elapsed.
    AwakeElapsed,
}

/// What the surrounding runtime must do next.
#[derive(Clone, Copy, Debug, PartialEq, Eq, Structural)]
pub enum DutyAction {
    /// Bring up peripherals and collaborators and spawn the tasks.
    BeginInit,
    /// Stay live for the given number of seconds.
    StayAwake(u64),
    /// Reset the whole device: it prefers restarting the entire sequence
    /// over running half-initialized.
    ResetDevice,
    /// Signal the network collaborator to wind down, then enter timed deep
    /// sleep for the given number of seconds (an external wake button may
    /// end it early).
    EnterDeepSleep(u64),
    /// Nothing: the event does not occur in this phase.
    Ignore,
}

/// The transition table of the duty cycle: each phase reacts to exactly one
/// event, failure during initialization forces a reset, and every other
/// combination is ignored.
pub open spec fn spec_duty_step(phase: DutyPhase, event: DutyEvent) -> (DutyPhase, DutyAction) {
    match (phase, event) {
        (DutyPhase::ColdBoot, DutyEvent::BootCounted) => (
            DutyPhase::Initializing,
            DutyAction::BeginInit,
        ),
        (DutyPhase::Initializing, DutyEvent::InitSucceeded) => (
            DutyPhase::Awake,
            DutyAction::StayAwake(AWAKE_DURATION_SECONDS),
        ),
        (DutyPhase::Initializing, DutyEvent::InitFailed) => (
            DutyPhase::ColdBoot,
            DutyAction::ResetDevice,
        ),
        (DutyPhase::Awake, DutyEvent::AwakeElapsed) => (
            DutyPhase::Sleeping,
            DutyAction::EnterDeepSleep(DEEP_SLEEP_DURATION_SECONDS),
        ),
        _ => (phase, DutyAction::Ignore),
    }
}

/// Advance the duty cycle by one event, yielding the next phase and the
/// action the runtime must perform.
pub fn duty_step(phase: DutyPhase, event: DutyEvent) -> (r: (DutyPhase, DutyAction))
    ensures
        r == spec_duty_step(phase, event),
{
    match (phase, event) {
        (DutyPhase::ColdBoot, DutyEvent::BootCounted) => (
            DutyPhase::Initializing,
            DutyAction::BeginInit,
        ),
        (DutyPhase::Initializing, DutyEvent::InitSucceeded) => (
            DutyPhase::Awake,
            DutyAction::StayAwake(AWAKE_DURATION_SECONDS),
        ),
        (DutyPhase::Initializing, DutyEvent::InitFailed) => (
            DutyPhase::ColdBoot,
            DutyAction::ResetDevice,
        ),
        (DutyPhase::Awake, DutyEvent::AwakeElapsed) => (
            DutyPhase::Sleeping,
            DutyAction::EnterDeepSleep(DEEP_SLEEP_DURATION_SECONDS),
        ),
        (p, _) => (p, DutyAction::Ignore),
    }
}

/// The boot counter after one more boot; it wraps at the width of the
/// counter.
pub open spec fn spec_next_boot_count(count: u32) -> u32 {
    if count == u32::MAX {
        0
    } else {
        (count + 1) as u32
    }
}

/// Increment a boot counter, wrapping at the counter width.
pub fn next_boot_count(count: u32) -> (r: u32)
    ensures
        r == spec_next_boot_count(count),
{
    count.wrapping_add(1)
}

/// Read the persisted boot counter and store its incremented value. This
/// runs unconditionally on every boot, deep-sleep wakes included, since a
/// wake re-executes the whole boot sequence; the read value identifies the
/// current cycle.
pub fn increment_boot_count(cell: &mut RtcCell<u32>) -> (r: u32)
    ensures
        r == old(cell)@,
        final(cell)@ == spec_next_boot_count(old(cell)@),
{
    let count = cell.get();
    cell.set(next_boot_count(count));
    count
}

} // verus!
