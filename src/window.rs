//! The swap chain: double-buffered presentation through a mode set on the
//! first frame and page flips after it.
//!
//! Each frame's buffer is handed to `Window::present` together with a stable
//! identity. The window keeps the framebuffer handle made for each buffer, so
//! a buffer that the allocator hands out again is never given a second one,
//! and it retains the current and the previous buffer: the previous one may
//! still be on screen until the flip completes, and dropping it returns it to
//! the allocator.

use vstd::prelude::*;
use std::collections::HashMap;
use crate::drm::{DrmDisplay, ModeSetRequest, PageFlipRequest};
use crate::events::{completes_flip, DeviceEvent};

verus! {

broadcast use vstd::std_specs::hash::group_hash_axioms;

/// A buffer held by the swap chain, with its identity and its framebuffer.
pub struct RetainedBuffer<B> {
    pub buffer: B,
    pub buffer_id: u64,
    pub framebuffer: u32,
}

/// Where the presentation protocol stands.
pub enum DisplayState<B> {
    /// Nothing presented yet.
    Init,
    /// The first frame is shown through a synchronous mode set.
    ModeSet { current: RetainedBuffer<B> },
    /// A flip to `current` was scheduled; `previous` may still be on screen.
    PageFlipScheduled { current: RetainedBuffer<B>, previous: RetainedBuffer<B> },
}

/// What the caller must ask of the device to show the frame just presented.
#[derive(Clone, Copy, Debug, PartialEq, Eq, Structural)]
pub enum PresentAction {
    /// Set the mode synchronously.
    SetMode(ModeSetRequest),
    /// Schedule a page flip, then wait for its completion event.
    PageFlip(PageFlipRequest),
}

pub struct Window<B> {
    drm_display: DrmDisplay,
    display_state: DisplayState<B>,
    framebuffers: HashMap<u64, u32>,
    presented: Ghost<Seq<u64>>,
    created: Ghost<Seq<u64>>,
}

impl<B> Window<B> {
    /// The display session the window presents on.
    pub closed spec fn display(&self) -> DrmDisplay {
        self.drm_display
    }

    /// The identities of the buffers presented so far, in order.
    pub closed spec fn presented(&self) -> Seq<u64> {
        self.presented@
    }

    /// The identities of the buffers a framebuffer was made for, in order.
    pub closed spec fn creations(&self) -> Seq<u64> {
        self.created@
    }

    /// The framebuffer handle kept for each buffer identity.
    pub closed spec fn framebuffer_map(&self) -> Map<u64, u32> {
        self.framebuffers@
    }

    /// The identities of the retained buffers, the previous one first.
    pub closed spec fn retained_ids(&self) -> Seq<u64> {
        match self.display_state {
            DisplayState::Init => seq![],
            DisplayState::ModeSet { current } => seq![current.buffer_id],
            DisplayState::PageFlipScheduled { current, previous } => seq![
                previous.buffer_id,
                current.buffer_id,
            ],
        }
    }

    /// The retained buffers, the previous one first.
    pub closed spec fn retained_buffers(&self) -> Seq<B> {
        match self.display_state {
            DisplayState::Init => seq![],
            DisplayState::ModeSet { current } => seq![current.buffer],
            DisplayState::PageFlipScheduled { current, previous } => seq![
                previous.buffer,
                current.buffer,
            ],
        }
    }

    /// The last two presented identities (fewer before the second frame).
    pub open spec fn last_two(s: Seq<u64>) -> Seq<u64> {
        if s.len() <= 2 {
            s
        } else {
            s.subrange(s.len() - 2, s.len() as int)
        }
    }

    pub closed spec fn retained_framebuffers_kept(&self) -> bool {
        match self.display_state {
            DisplayState::Init => true,
            DisplayState::ModeSet { current } => self.framebuffers@.contains_key(
                current.buffer_id,
            ) && self.framebuffers@[current.buffer_id] == current.framebuffer,
            DisplayState::PageFlipScheduled { current, previous } => {
                &&& self.framebuffers@.contains_key(current.buffer_id)
                &&& self.framebuffers@[current.buffer_id] == current.framebuffer
                &&& self.framebuffers@.contains_key(previous.buffer_id)
                &&& self.framebuffers@[previous.buffer_id] == previous.framebuffer
            },
        }
    }

    /// The window's invariant.
    pub closed spec fn wf(&self) -> bool {
        &&& (self.presented@.len() == 0) == (self.display_state is Init)
        &&& (self.presented@.len() == 1) == (self.display_state is ModeSet)
        &&& (self.presented@.len() >= 2) == (self.display_state is PageFlipScheduled)
        &&& self.retained_ids() == Self::last_two(self.presented@)
        &&& self.retained_framebuffers_kept()
        &&& self.created@.no_duplicates()
        &&& forall|k: u64| #[trigger]
            self.framebuffers@.contains_key(k) <==> self.created@.contains(k)
        &&& forall|i: int|
            0 <= i < self.presented@.len() ==> self.framebuffers@.contains_key(
                #[trigger] self.presented@[i],
            )
    }

    /// A window on `drm_display` that has presented nothing yet.
    pub fn new(drm_display: DrmDisplay) -> (w: Window<B>)
        ensures
            w.wf(),
            w.display() == drm_display,
            w.presented() == Seq::<u64>::empty(),
            w.creations() == Seq::<u64>::empty(),
            w.framebuffer_map() == Map::<u64, u32>::empty(),
            w.retained_buffers() == Seq::<B>::empty(),
    {
        let w = Window {
            drm_display,
            display_state: DisplayState::Init,
            framebuffers: HashMap::new(),
            presented: Ghost(Seq::empty()),
            created: Ghost(Seq::empty()),
        };
        assert(w.retained_ids() =~= Self::last_two(w.presented@));
        assert(w.retained_buffers() =~= Seq::<B>::empty());
        w
    }

    /// The display session the window presents on.
    pub fn drm_display(&self) -> (d: &DrmDisplay)
        ensures
            *d == self.display(),
    {
        &self.drm_display
    }

    /// The framebuffer kept for the buffer `buffer_id`; `None` means that the
    /// caller must make one and hand it to `attach_framebuffer`.
    pub fn cached_framebuffer(&self, buffer_id: u64) -> (r: Option<u32>)
        ensures
            r == if self.framebuffer_map().contains_key(buffer_id) {
                Some(self.framebuffer_map()[buffer_id])
            } else {
                None
            },
    {
        match self.framebuffers.get(&buffer_id) {
            Some(fb) => Some(*fb),
            None => None,
        }
    }

    /// Records the framebuffer made for a buffer that had none.
    pub fn attach_framebuffer(&mut self, buffer_id: u64, framebuffer: u32)
        requires
            old(self).wf(),
            !old(self).framebuffer_map().contains_key(buffer_id),
        ensures
            final(self).wf(),
            final(self).framebuffer_map() == old(self).framebuffer_map().insert(
                buffer_id,
                framebuffer,
            ),
            final(self).creations() == old(self).creations().push(buffer_id),
            final(self).presented() == old(self).presented(),
            final(self).display() == old(self).display(),
            final(self).retained_ids() == old(self).retained_ids(),
            final(self).retained_buffers() == old(self).retained_buffers(),
    {
        self.framebuffers.insert(buffer_id, framebuffer);
        self.created = Ghost(self.created@.push(buffer_id));
        assert forall|k: u64| #[trigger]
            self.framebuffers@.contains_key(k) <==> self.created@.contains(k) by {
            if k != buffer_id {
                assert(self.created@.contains(k) ==> old(self).created@.contains(k)) by {
                    if self.created@.contains(k) {
                        let i = choose|i: int| 0 <= i < self.created@.len() && self.created@[i] == k;
                        assert(i < old(self).created@.len());
                        assert(old(self).created@[i] == k);
                    }
                }
                assert(old(self).created@.contains(k) ==> self.created@.contains(k)) by {
                    if old(self).created@.contains(k) {
                        let i = choose|i: int|
                            0 <= i < old(self).created@.len() && old(self).created@[i] == k;
                        assert(self.created@[i] == k);
                    }
                }
            } else {
                assert(self.created@[self.created@.len() - 1] == k);
            }
        }
    }

    /// Presents the buffer `buffer_id`, whose content the caller has finished
    /// writing. The first frame is shown through a mode set, every later one
    /// through a page flip, after which the caller waits for the flip's
    /// completion with `handle_events`. The buffer becomes the current one;
    /// the current one becomes the previous one, and the buffer retained from
    /// two frames back is released.
    pub fn present(&mut self, buffer: B, buffer_id: u64) -> (action: PresentAction)
        requires
            old(self).wf(),
            old(self).framebuffer_map().contains_key(buffer_id),
            !old(self).display().flip_pending(),
        ensures
            final(self).wf(),
            final(self).presented() == old(self).presented().push(buffer_id),
            final(self).creations() == old(self).creations(),
            final(self).framebuffer_map() == old(self).framebuffer_map(),
            final(self).display().config == old(self).display().config,
            final(self).display().flip_pending() == (old(self).presented().len() > 0),
            action == if old(self).presented().len() == 0 {
                PresentAction::SetMode(
                    old(self).display().mode_set_request(
                        Some(old(self).framebuffer_map()[buffer_id]),
                    ),
                )
            } else {
                PresentAction::PageFlip(
                    PageFlipRequest {
                        crtc: old(self).display().config.crtc,
                        framebuffer: old(self).framebuffer_map()[buffer_id],
                    },
                )
            },
            final(self).retained_buffers() == if old(self).presented().len() == 0 {
                seq![buffer]
            } else {
                seq![old(self).retained_buffers().last(), buffer]
            },
    {
        let fb = match self.framebuffers.get(&buffer_id) {
            Some(f) => *f,
            None => 0,
        };
        let current = RetainedBuffer { buffer, buffer_id, framebuffer: fb };
        let mut prior = DisplayState::Init;
        std::mem::swap(&mut self.display_state, &mut prior);
        let ghost before = self.presented@;
        self.presented = Ghost(self.presented@.push(buffer_id));
        let action = match prior {
            DisplayState::Init => {
                let request = self.drm_display.set_mode_with_framebuffer(Some(fb));
                self.display_state = DisplayState::ModeSet { current };
                PresentAction::SetMode(request)
            },
            DisplayState::ModeSet { current: previous }
            | DisplayState::PageFlipScheduled { current: previous, .. } => {
                let request = match self.drm_display.schedule_page_flip(fb) {
                    Ok(r) => r,
                    Err(_) => PageFlipRequest { crtc: self.drm_display.config.crtc, framebuffer: fb },
                };
                self.display_state = DisplayState::PageFlipScheduled { current, previous };
                PresentAction::PageFlip(request)
            },
        };
        assert(self.retained_ids() =~= Self::last_two(self.presented@));
        assert forall|i: int|
            0 <= i < self.presented@.len() implies self.framebuffers@.contains_key(
                #[trigger] self.presented@[i],
            ) by {
            if i < before.len() {
                assert(self.presented@[i] == before[i]);
            }
        }
        action
    }

    /// Takes a batch of events read from the device while a flip is
    /// outstanding; returns whether the batch completes it. Events of other
    /// kinds, and flips of other CRTCs, are discarded.
    pub fn handle_events(&mut self, events: &Vec<DeviceEvent>) -> (done: bool)
        requires
            old(self).wf(),
        ensures
            final(self).wf(),
            final(self).presented() == old(self).presented(),
            final(self).creations() == old(self).creations(),
            final(self).framebuffer_map() == old(self).framebuffer_map(),
            final(self).retained_buffers() == old(self).retained_buffers(),
            final(self).display().config == old(self).display().config,
            done == (old(self).display().flip_pending() && exists|i: int|
                0 <= i < events@.len() && #[trigger] completes_flip(
                    events@[i],
                    old(self).display().config.crtc,
                )),
            final(self).display().flip_pending() == (old(self).display().flip_pending() && !done),
    {
        self.drm_display.complete_page_flip(events)
    }

    /// The mode set that brings back what the CRTC showed before the session:
    /// at most one, with the framebuffer recorded at the start, and none when
    /// there was none or it no longer resolves. The presentation state is
    /// left as it is.
    pub fn restore_original_display(&self, resolvable: bool) -> (r: Option<ModeSetRequest>)
        ensures
            r == if resolvable && self.display().config.original_framebuffer is Some {
                Some(self.display().mode_set_request(self.display().config.original_framebuffer))
            } else {
                None
            },
    {
        self.drm_display.restore(resolvable)
    }
}

/// Double buffering: after any sequence of presents, the window retains at
/// most two buffers, and they are the last two presented.
pub proof fn lemma_retention_depth<B>(w: &Window<B>)
    requires
        w.wf(),
    ensures
        w.retained_ids().len() <= 2,
        w.retained_buffers().len() == w.retained_ids().len(),
        w.retained_ids() == Window::<B>::last_two(w.presented()),
        w.presented().len() >= 2 ==> w.retained_ids() == seq![
            w.presented()[w.presented().len() - 2],
            w.presented()[w.presented().len() - 1],
        ],
{
    if w.presented().len() >= 2 {
        assert(w.retained_ids() =~= seq![
            w.presented()[w.presented().len() - 2],
            w.presented()[w.presented().len() - 1],
        ]);
    }
}

/// A buffer presented any number of times had exactly one framebuffer made
/// for it over the session.
pub proof fn lemma_framebuffer_made_once<B>(w: &Window<B>, buffer_id: u64)
    requires
        w.wf(),
        w.presented().contains(buffer_id),
    ensures
        w.creations().contains(buffer_id),
        forall|i: int, j: int|
            0 <= i < w.creations().len() && 0 <= j < w.creations().len() && w.creations()[i]
                == buffer_id && w.creations()[j] == buffer_id ==> i == j,
{
    let k = choose|k: int| 0 <= k < w.presented().len() && w.presented()[k] == buffer_id;
    assert(w.framebuffer_map().contains_key(w.presented()[k]));
}

} // verus!
