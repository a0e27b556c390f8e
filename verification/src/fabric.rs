//! The task fabric: the bounded channel that carries reading batches from
//! the acquisition task to the reporting task, and the single-slot,
//! latest-value-wins signal that carries pump decisions to the relay task.
//!
//! Both primitives come from the cooperative runtime's synchronization
//! library and mutate through shared references, so nothing can be stated
//! about their state between calls; the values that flow through them are
//! computed and consumed by verified code on either side.

use vstd::prelude::*;

use crate::domain::SensorData;

verus! {

/// How many reading batches the channel buffers before the producer has to
/// wait: if the reporting task stalls, the acquisition task suspends on
/// send rather than dropping data.
pub const READING_CHANNEL_CAPACITY: usize = 3;

/// The bounded FIFO queue of reading batches, with the acquisition loop as
/// its only producer and the reporting collaborator as its only consumer.
/// The struct holds the runtime's channel and is opaque to the verifier.
#[verifier::external_body]
pub struct ReadingChannel {
    inner: embassy_sync::channel::Channel<
        embassy_sync::blocking_mutex::raw::NoopRawMutex,
        SensorData,
        3,
    >,
}

impl ReadingChannel {
    /// Relies on embassy_sync::channel::Channel::new: an empty channel.
    #[verifier::external_body]
    pub fn new() -> ReadingChannel {
        ReadingChannel { inner: embassy_sync::channel::Channel::new() }
    }

    /// Relies on embassy_sync::channel::Channel::try_send: the batch is
    /// queued, or handed back unchanged when the queue is full.
    #[verifier::external_body]
    pub fn try_send(&self, batch: SensorData) -> (r: Result<(), SensorData>)
        ensures
            r matches Err(b) ==> b == batch,
    {
        match self.inner.try_send(batch) {
            Ok(()) => Ok(()),
            Err(embassy_sync::channel::TrySendError::Full(b)) => Err(b),
        }
    }

    /// Relies on embassy_sync::channel::Channel::try_receive: the oldest
    /// queued batch, or nothing when the queue is empty.
    #[verifier::external_body]
    pub fn try_receive(&self) -> Option<SensorData> {
        match self.inner.try_receive() {
            Ok(batch) => Some(batch),
            Err(embassy_sync::channel::TryReceiveError::Empty) => None,
        }
    }

    /// Relies on embassy_sync::channel::Channel::len: how many batches are
    /// queued right now.
    #[verifier::external_body]
    pub fn len(&self) -> usize {
        self.inner.len()
    }
}

/// The single-slot pump signal: a new decision overwrites any unread older
/// one, so a waiter only ever observes the newest decision. The struct
/// holds the runtime's signal and is opaque to the verifier.
#[verifier::external_body]
pub struct PumpSignal {
    inner: embassy_sync::signal::Signal<
        embassy_sync::blocking_mutex::raw::CriticalSectionRawMutex,
        bool,
    >,
}

impl PumpSignal {
    /// Relies on embassy_sync::signal::Signal::new: an unsignaled slot.
    #[verifier::external_body]
    pub fn new() -> PumpSignal {
        PumpSignal { inner: embassy_sync::signal::Signal::new() }
    }

    /// Relies on embassy_sync::signal::Signal::signal: stores the decision,
    /// replacing any unread older one.
    #[verifier::external_body]
    pub fn signal_pump(&self, state: bool) {
        self.inner.signal(state);
    }

    /// Relies on embassy_sync::signal::Signal::try_take: the stored
    /// decision, taken out of the slot, or nothing when the slot is empty.
    #[verifier::external_body]
    pub fn try_take(&self) -> Option<bool> {
        self.inner.try_take()
    }
}

} // verus!
