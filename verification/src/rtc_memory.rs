//! A safe cell for the few values that must survive deep sleep.
//!
//! The hardware preserves a small dedicated memory region across deep
//! sleep; the cell's backing value lives there in production, and every
//! access runs inside a critical section that disables interrupts, so that
//! read-modify-write sequences stay atomic with respect to both concurrent
//! tasks and hardware events on the single-core cooperative runtime.

use vstd::prelude::*;

verus! {

/// Relies on critical_section::with: it acquires the critical section, runs
/// the closure, releases, and returns the closure's result. The closure
/// here only copies the referenced value out.
#[verifier::external_body]
fn read_in_critical_section<T: Copy>(value: &T) -> (r: T)
    ensures
        r == *value,
{
    critical_section::with(|_cs| *value)
}

/// Relies on critical_section::with: it acquires the critical section, runs
/// the closure, and releases. The closure here only moves the new value
/// into the referenced slot.
#[verifier::external_body]
fn write_in_critical_section<T>(slot: &mut T, value: T)
    ensures
        *final(slot) == value,
{
    critical_section::with(move |_cs| {
        *slot = value;
    })
}

/// A cell holding one small `Copy` value, read and written only inside
/// critical sections. The type exposes no other accessors, so access
/// outside a critical section is impossible by construction.
pub struct RtcCell<T> {
    value: T,
}

impl<T> View for RtcCell<T> {
    type V = T;

    closed spec fn view(&self) -> T {
        self.value
    }
}

impl<T: Copy> RtcCell<T> {
    /// Create a cell holding the given initial value. On the device the
    /// cell is zero-initialized only by a true cold power-on, never by a
    /// wake from deep sleep.
    pub fn new(value: T) -> (r: Self)
        ensures
            r@ == value,
    {
        RtcCell { value }
    }

    /// Return a copy of the contained value. Two reads without an
    /// intervening write return the same value.
    pub fn get(&self) -> (r: T)
        ensures
            r == self@,
    {
        read_in_critical_section(&self.value)
    }

    /// Replace the contained value.
    pub fn set(&mut self, value: T)
        ensures
            final(self)@ == value,
    {
        write_in_critical_section(&mut self.value, value);
    }
}

} // verus!
