//! The DMA double-buffer engine: which half of each buffer belongs to
//! software on a receive notification.
//!
//! Each direction cycles through a buffer of two halves. At the halfway
//! point the receive stream raises a half-transfer notification, at
//! wraparound a transfer-complete notification. On either, software takes
//! one half of the receive buffer (the fresh data) and one half of the
//! transmit buffer (the free space); the two offsets are complementary.
use vstd::prelude::*;
use crate::{DMA_BUFFER_LENGTH, HALF_DMA_BUFFER_LENGTH};

verus! {

/// What the receive stream's flags report when its interrupt fires.
#[derive(Clone, Copy, Debug, PartialEq, Eq, Structural)]
pub enum Notification {
    /// The stream reached the middle of its buffer.
    HalfTransfer,
    /// The stream wrapped to the start of its buffer.
    TransferComplete,
    /// Neither flag is set (an error flag, or a spurious interrupt).
    Unrecognized,
}

/// The notification that a pair of flags reports; the half-transfer flag is
/// looked at first.
pub open spec fn notification_of(half_transfer: bool, transfer_complete: bool) -> Notification {
    if half_transfer {
        Notification::HalfTransfer
    } else if transfer_complete {
        Notification::TransferComplete
    } else {
        Notification::Unrecognized
    }
}

/// Reads the receive stream's flags. The caller clears exactly the flag of
/// the notification returned, and none for `Unrecognized`.
pub fn classify(half_transfer: bool, transfer_complete: bool) -> (r: Notification)
    ensures
        r == notification_of(half_transfer, transfer_complete),
{
    if half_transfer {
        Notification::HalfTransfer
    } else if transfer_complete {
        Notification::TransferComplete
    } else {
        Notification::Unrecognized
    }
}

/// The skip offsets of a notification: (offset of the fresh receive half,
/// offset of the free transmit half), or none for an unrecognized state.
pub open spec fn skip_of(n: Notification) -> Option<(usize, usize)> {
    match n {
        Notification::HalfTransfer => Some((0usize, HALF_DMA_BUFFER_LENGTH)),
        Notification::TransferComplete => Some((HALF_DMA_BUFFER_LENGTH, 0usize)),
        Notification::Unrecognized => None,
    }
}

/// The skip offsets of a notification.
pub fn skip_offsets(n: Notification) -> (r: Option<(usize, usize)>)
    ensures
        r == skip_of(n),
{
    match n {
        Notification::HalfTransfer => Some((0, HALF_DMA_BUFFER_LENGTH)),
        Notification::TransferComplete => Some((HALF_DMA_BUFFER_LENGTH, 0)),
        Notification::Unrecognized => None,
    }
}

/// Whether word `k` of a buffer lies in the half that starts at `offset`.
pub open spec fn in_half(offset: int, k: int) -> bool {
    offset <= k < offset + HALF_DMA_BUFFER_LENGTH
}

/// The skip offsets alternate and are complementary: a half-transfer gives
/// (0, half), a transfer-complete gives (half, 0), the one pair is the other
/// swapped, each half fits the buffer, and across the two notifications each
/// direction's halves cover the whole buffer without overlap.
pub proof fn lemma_skip_offsets_complementary()
    ensures
        skip_of(Notification::HalfTransfer) == Some((0usize, HALF_DMA_BUFFER_LENGTH)),
        skip_of(Notification::TransferComplete) == Some((HALF_DMA_BUFFER_LENGTH, 0usize)),
        ({
            let (f0, t0) = skip_of(Notification::HalfTransfer).unwrap();
            let (f1, t1) = skip_of(Notification::TransferComplete).unwrap();
            &&& f0 == t1 && t0 == f1
            &&& f0 != t0
            &&& f0 + HALF_DMA_BUFFER_LENGTH <= DMA_BUFFER_LENGTH
            &&& f1 + HALF_DMA_BUFFER_LENGTH <= DMA_BUFFER_LENGTH
            &&& forall|k: int|
                0 <= k < DMA_BUFFER_LENGTH ==> (in_half(f0 as int, k) != in_half(f1 as int, k))
            &&& forall|k: int|
                0 <= k < DMA_BUFFER_LENGTH ==> (in_half(t0 as int, k) != in_half(t1 as int, k))
        }),
{
}

} // verus!
