//! Events read from the display device, and their correlation with the page
//! flip that a CRTC is waiting for.

use vstd::prelude::*;

verus! {

/// One event from the device's event stream.
#[derive(Clone, Copy, Debug, PartialEq, Eq, Structural)]
pub enum DeviceEvent {
    /// A vertical blank happened on `crtc`.
    Vblank { crtc: u32 },
    /// A page flip scheduled on `crtc` has completed.
    PageFlip { crtc: u32 },
    /// An event of a kind this library does not handle.
    Unknown,
}

/// Whether `e` reports the completion of a page flip on `crtc`.
pub open spec fn completes_flip(e: DeviceEvent, crtc: u32) -> bool {
    e == DeviceEvent::PageFlip { crtc }
}

/// Whether a batch of events holds the completion of a page flip on `crtc`;
/// events of other kinds, or for other CRTCs, are passed over.
pub fn flip_completion_observed(events: &Vec<DeviceEvent>, crtc: u32) -> (r: bool)
    ensures
        r == exists|i: int| 0 <= i < events@.len() && #[trigger] completes_flip(events@[i], crtc),
{
    let mut i: usize = 0;
    while i < events.len()
        invariant
            i <= events@.len(),
            forall|j: int| 0 <= j < i ==> !#[trigger] completes_flip(events@[j], crtc),
        decreases events@.len() - i,
    {
        match events[i] {
            DeviceEvent::PageFlip { crtc: c } => {
                if c == crtc {
                    assert(completes_flip(events@[i as int], crtc));
                    return true;
                }
            },
            _ => {},
        }
        i += 1;
    }
    false
}

} // verus!
