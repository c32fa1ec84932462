//! The audio interface handle, its lifecycle, and the registration slot
//! through which the receive interrupt reaches it.
//!
//! A handle goes from `Constructed` through `Initialized` to `Started`, and
//! stays started. Starting publishes it in the slot, which is set once.
//! Each receive notification is served in two calls: `begin_block` reads
//! the fresh receive half into a block, the caller runs the processing
//! callback on it, and `finish_block` writes the result into the free
//! transmit half.
use vstd::prelude::*;
use crate::{BLOCK_LENGTH, DMA_BUFFER_LENGTH, FS, HALF_DMA_BUFFER_LENGTH};
use crate::bring_up::StartStep;
use crate::engine::{classify, notification_of, skip_of, skip_offsets, Notification};
use crate::scheduler::{deinterleave, deinterleaved, levels_of, reinterleave, reinterleaved, widened};

verus! {

/// Where a handle is in its life.
#[derive(Clone, Copy, Debug, PartialEq, Eq, Structural)]
pub enum Stage {
    /// Built bare: no peripheral configured.
    Constructed,
    /// Peripherals configured, idle.
    Initialized,
    /// DMA and peripheral running; there is no way back.
    Started,
}

/// Why an interface could not start.
#[derive(Clone, Copy, Debug, PartialEq, Eq, Structural)]
pub enum Error {
    /// The handle was never initialized.
    NotInitialized,
    /// The handle is already started, or another one holds the slot.
    AlreadyStarted,
}

/// Stands for the started handle in the registration slot; it carries no
/// data and owns nothing.
pub struct OpaqueInterface {
    _private: (),
}

/// The single registration slot, set once when a handle starts and only
/// read afterwards.
pub struct Registration {
    slot: Option<OpaqueInterface>,
}

impl Registration {
    /// Whether a handle has been published.
    pub closed spec fn published(&self) -> bool {
        self.slot is Some
    }

    /// An empty slot.
    pub fn new() -> (r: Registration)
        ensures
            !r.published(),
    {
        Registration { slot: None }
    }

    /// Whether a handle has been published.
    pub fn is_registered(&self) -> (r: bool)
        ensures
            r == self.published(),
    {
        self.slot.is_some()
    }
}

/// The audio interface handle.
pub struct Interface {
    /// The frame rate, in hertz.
    pub fs: u32,
    stage: Stage,
    pending: Option<usize>,
}

impl Interface {
    /// Where the handle is in its life.
    pub closed spec fn stage(&self) -> Stage {
        self.stage
    }

    /// The frame rate, in hertz.
    pub closed spec fn frame_rate(&self) -> u32 {
        self.fs
    }

    /// Offset of the free transmit half that awaits a processed block.
    pub closed spec fn pending(&self) -> Option<usize> {
        self.pending
    }

    /// The handle's invariant: the fixed frame rate, and a pending transmit
    /// half, if any, at one of the two halves of the buffer.
    pub closed spec fn wf(&self) -> bool {
        &&& self.fs == FS
        &&& (self.pending matches Some(free) ==> (free == 0 || free == HALF_DMA_BUFFER_LENGTH))
    }

    /// A bare handle.
    pub fn new() -> (r: Interface)
        ensures
            r.wf(),
            r.frame_rate() == FS,
            r.stage() == Stage::Constructed,
            r.pending() is None,
    {
        Interface { fs: FS, stage: Stage::Constructed, pending: None }
    }

    /// A handle whose peripherals are configured and idle. Bring-up either
    /// succeeds or aborts at the peripheral layer, so this is always `Ok`.
    pub fn init() -> (r: Result<Interface, Error>)
        ensures
            r matches Ok(i) && i.wf() && i.frame_rate() == FS && i.stage() == Stage::Initialized
                && i.pending() is None,
    {
        Ok(Interface { fs: FS, stage: Stage::Initialized, pending: None })
    }

    /// Starts an initialized handle: publishes it in the slot and returns the
    /// first step of bring-up. A bare handle is refused with
    /// `NotInitialized`; a started one, or any handle once the slot is taken,
    /// with `AlreadyStarted`. On an error nothing changes.
    pub fn start(&mut self, registration: &mut Registration) -> (r: Result<StartStep, Error>)
        requires
            old(self).wf(),
        ensures
            final(self).wf(),
            final(self).frame_rate() == old(self).frame_rate(),
            final(self).pending() == old(self).pending(),
            old(self).stage() == Stage::Constructed ==> r == Err::<StartStep, Error>(
                Error::NotInitialized,
            ),
            old(self).stage() != Stage::Constructed && (old(self).stage() == Stage::Started
                || old(registration).published()) ==> r == Err::<StartStep, Error>(
                Error::AlreadyStarted,
            ),
            old(self).stage() == Stage::Initialized && !old(registration).published() ==> r
                == Ok::<StartStep, Error>(StartStep::ResetLow),
            r is Ok ==> final(self).stage() == Stage::Started && final(registration).published(),
            r is Err ==> final(self).stage() == old(self).stage() && final(registration).published()
                == old(registration).published(),
    {
        match self.stage {
            Stage::Constructed => Err(Error::NotInitialized),
            Stage::Started => Err(Error::AlreadyStarted),
            Stage::Initialized => {
                if registration.slot.is_some() {
                    Err(Error::AlreadyStarted)
                } else {
                    registration.slot = Some(OpaqueInterface { _private: () });
                    self.stage = Stage::Started;
                    Ok(StartStep::ResetLow)
                }
            },
        }
    }

    /// Serves a receive notification, up to the processing callback. On a
    /// handle that is not started, with no handle published, or with neither the half-transfer nor the
    /// transfer-complete flag set, it returns `None` and changes nothing.
    /// Otherwise it returns the notification, whose flag the caller clears,
    /// and the block of (left, right) levels read from the fresh receive
    /// half; the free transmit half is kept for `finish_block`.
    pub fn begin_block(
        &mut self,
        registration: &Registration,
        half_transfer: bool,
        transfer_complete: bool,
        rx: &[u32; DMA_BUFFER_LENGTH],
    ) -> (r: Option<(Notification, [(i32, i32); BLOCK_LENGTH])>)
        requires
            old(self).wf(),
        ensures
            final(self).wf(),
            final(self).frame_rate() == old(self).frame_rate(),
            final(self).stage() == old(self).stage(),
            old(self).stage() != Stage::Started ==> r is None && *final(self) == *old(self),
            !registration.published() ==> r is None && *final(self) == *old(self),
            registration.published() && notification_of(half_transfer, transfer_complete)
                == Notification::Unrecognized ==> r is None && *final(self) == *old(self),
            old(self).stage() == Stage::Started && registration.published() && skip_of(notification_of(half_transfer, transfer_complete))
                is Some ==> ({
                let n = notification_of(half_transfer, transfer_complete);
                let (fresh, free) = skip_of(n).unwrap();
                &&& r matches Some((m, block)) && m == n && levels_of(block@) == deinterleaved(
                    rx@,
                    fresh as int,
                )
                &&& final(self).pending() == Some(free)
            }),
    {
        if self.stage != Stage::Started || !registration.is_registered() {
            return None;
        }
        let n = classify(half_transfer, transfer_complete);
        match skip_offsets(n) {
            None => None,
            Some((fresh, free)) => {
                let block = deinterleave(rx, fresh);
                self.pending = Some(free);
                Some((n, block))
            },
        }
    }

    /// Finishes a notification: writes the processed block, each frame's
    /// levels already scaled and truncated, into the free transmit half that
    /// `begin_block` kept, and clears it. With no half pending `tx` is left
    /// as it was.
    pub fn finish_block(
        &mut self,
        block: &[(i64, i64); BLOCK_LENGTH],
        tx: &mut [u32; DMA_BUFFER_LENGTH],
    )
        requires
            old(self).wf(),
        ensures
            final(self).wf(),
            final(self).frame_rate() == old(self).frame_rate(),
            final(self).stage() == old(self).stage(),
            final(self).pending() is None,
            old(self).pending() matches Some(free) ==> final(tx)@ == reinterleaved(
                old(tx)@,
                widened(block@),
                free as int,
            ),
            old(self).pending() is None ==> final(tx)@ == old(tx)@,
    {
        match self.pending {
            Some(free) => {
                reinterleave(block, tx, free);
            },
            None => {},
        }
        self.pending = None;
    }
}

} // verus!
