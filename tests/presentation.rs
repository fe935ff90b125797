use std::rc::Rc;

use just_gl::drm::{
    ConnectionState, ConnectorDescriptor, CrtcDescriptor, DisplayResources, DrmDisplay,
    EncoderDescriptor, FlipSchedulingError, ModeDescriptor, ModeSetRequest, PageFlipRequest,
};
use just_gl::events::{flip_completion_observed, DeviceEvent};
use just_gl::window::{PresentAction, Window};

const CRTC: u32 = 50;
const CONNECTOR: u32 = 21;

fn preferred() -> ModeDescriptor {
    ModeDescriptor { width: 1920, height: 1080, refresh: 60, mode_type: 8 }
}

fn display(original_framebuffer: Option<u32>) -> DrmDisplay {
    let res = DisplayResources {
        connectors: vec![ConnectorDescriptor {
            handle: CONNECTOR,
            interface: 11,
            interface_id: 1,
            state: ConnectionState::Connected,
            modes: vec![preferred()],
            encoders: vec![40],
        }],
        encoders: vec![EncoderDescriptor { handle: 40, possible_crtcs: 1 }],
        crtcs: vec![CrtcDescriptor { handle: CRTC, framebuffer: original_framebuffer }],
    };
    DrmDisplay::new(&res, None).expect("a display path exists")
}

/// Simulates one frame the way a caller drives the window: make a framebuffer
/// if the buffer has none, present, and feed the flip's completion back.
/// Returns the action and whether a framebuffer was made.
fn frame<B>(w: &mut Window<B>, buffer: B, id: u64, next_fb: &mut u32) -> (PresentAction, bool) {
    let created = match w.cached_framebuffer(id) {
        Some(_) => false,
        None => {
            w.attach_framebuffer(id, *next_fb);
            *next_fb += 1;
            true
        }
    };
    let action = w.present(buffer, id);
    if let PresentAction::PageFlip(request) = action {
        let events = vec![DeviceEvent::Vblank { crtc: request.crtc }, DeviceEvent::PageFlip { crtc: request.crtc }];
        assert!(w.handle_events(&events));
    }
    (action, created)
}

#[test]
fn three_presents_mode_set_then_flips_and_two_buffers_stay() {
    let mut w: Window<Rc<u32>> = Window::new(display(None));
    let buffers: Vec<Rc<u32>> = (1..=3).map(Rc::new).collect();
    let mut next_fb = 100;

    let (a1, _) = frame(&mut w, buffers[0].clone(), 1, &mut next_fb);
    assert_eq!(
        a1,
        PresentAction::SetMode(ModeSetRequest {
            crtc: CRTC,
            framebuffer: Some(100),
            connector: CONNECTOR,
            mode: preferred(),
        })
    );
    let (a2, _) = frame(&mut w, buffers[1].clone(), 2, &mut next_fb);
    assert_eq!(a2, PresentAction::PageFlip(PageFlipRequest { crtc: CRTC, framebuffer: 101 }));
    let (a3, _) = frame(&mut w, buffers[2].clone(), 3, &mut next_fb);
    assert_eq!(a3, PresentAction::PageFlip(PageFlipRequest { crtc: CRTC, framebuffer: 102 }));

    // the first buffer was released; the buffers of calls 2 and 3 are retained
    assert_eq!(Rc::strong_count(&buffers[0]), 1);
    assert_eq!(Rc::strong_count(&buffers[1]), 2);
    assert_eq!(Rc::strong_count(&buffers[2]), 2);
}

#[test]
fn only_the_first_present_sets_the_mode() {
    let mut w: Window<u8> = Window::new(display(None));
    let mut next_fb = 1;
    for i in 0..8u64 {
        let (action, _) = frame(&mut w, i as u8, i % 2, &mut next_fb);
        match action {
            PresentAction::SetMode(_) => assert_eq!(i, 0),
            PresentAction::PageFlip(_) => assert!(i > 0),
        }
    }
}

#[test]
fn at_most_two_buffers_are_ever_retained() {
    let mut w: Window<Rc<u32>> = Window::new(display(None));
    let buffers: Vec<Rc<u32>> = (0..10).map(Rc::new).collect();
    let mut next_fb = 1;
    for (k, b) in buffers.iter().enumerate() {
        frame(&mut w, b.clone(), k as u64, &mut next_fb);
        let alive = buffers.iter().filter(|b| Rc::strong_count(b) > 1).count();
        assert_eq!(alive, (k + 1).min(2));
        assert_eq!(Rc::strong_count(b), 2);
    }
}

#[test]
fn a_reused_buffer_gets_one_framebuffer() {
    let mut w: Window<u8> = Window::new(display(None));
    let mut next_fb = 500;
    let mut made = 0;
    let mut seen: Vec<(u64, u32)> = Vec::new();
    // the allocator hands out two buffers in turn, six times each
    for i in 0..12u64 {
        let id = 1000 + i % 2;
        let (action, created) = frame(&mut w, 0, id, &mut next_fb);
        if created {
            made += 1;
        }
        let fb = match action {
            PresentAction::SetMode(r) => r.framebuffer.unwrap(),
            PresentAction::PageFlip(r) => r.framebuffer,
        };
        if let Some(&(_, prior)) = seen.iter().find(|(b, _)| *b == id) {
            assert_eq!(prior, fb);
        } else {
            seen.push((id, fb));
        }
    }
    assert_eq!(made, 2);
    assert_eq!(w.cached_framebuffer(1000), Some(500));
    assert_eq!(w.cached_framebuffer(1001), Some(501));
    assert_eq!(w.cached_framebuffer(1002), None);
}

#[test]
fn restore_brings_back_the_original_framebuffer() {
    let mut w: Window<u8> = Window::new(display(Some(77)));
    let expected = Some(ModeSetRequest {
        crtc: CRTC,
        framebuffer: Some(77),
        connector: CONNECTOR,
        mode: preferred(),
    });
    assert_eq!(w.restore_original_display(true), expected);
    let mut next_fb = 1;
    frame(&mut w, 0, 1, &mut next_fb);
    assert_eq!(w.restore_original_display(true), expected);
    frame(&mut w, 0, 2, &mut next_fb);
    assert_eq!(w.restore_original_display(true), expected);
    // restoring does not change the presentation state: the next frame flips
    let (a, _) = frame(&mut w, 0, 1, &mut next_fb);
    assert_eq!(a, PresentAction::PageFlip(PageFlipRequest { crtc: CRTC, framebuffer: 1 }));
}

#[test]
fn restore_is_a_no_op_when_the_original_does_not_resolve() {
    let w: Window<u8> = Window::new(display(Some(77)));
    assert_eq!(w.restore_original_display(false), None);
    let w: Window<u8> = Window::new(display(None));
    assert_eq!(w.restore_original_display(true), None);
    assert_eq!(w.restore_original_display(false), None);
}

#[test]
fn a_second_flip_is_refused_while_one_is_outstanding() {
    let mut d = display(None);
    assert_eq!(d.schedule_page_flip(3), Ok(PageFlipRequest { crtc: CRTC, framebuffer: 3 }));
    assert!(d.is_flip_pending());
    assert_eq!(d.schedule_page_flip(4), Err(FlipSchedulingError::ConcurrentFlip));
    assert!(!d.complete_page_flip(&vec![DeviceEvent::Vblank { crtc: CRTC }, DeviceEvent::Unknown]));
    assert!(!d.complete_page_flip(&vec![DeviceEvent::PageFlip { crtc: CRTC + 1 }]));
    assert!(d.is_flip_pending());
    assert!(d.complete_page_flip(&vec![DeviceEvent::PageFlip { crtc: CRTC }]));
    assert!(!d.is_flip_pending());
    assert_eq!(d.schedule_page_flip(4), Ok(PageFlipRequest { crtc: CRTC, framebuffer: 4 }));
}

#[test]
fn completion_events_without_an_outstanding_flip_are_discarded() {
    let mut d = display(None);
    assert!(!d.complete_page_flip(&vec![DeviceEvent::PageFlip { crtc: CRTC }]));
    assert!(!d.is_flip_pending());
}

#[test]
fn flip_completion_is_matched_by_crtc() {
    let events = vec![DeviceEvent::Unknown, DeviceEvent::Vblank { crtc: 7 }, DeviceEvent::PageFlip { crtc: 8 }];
    assert!(flip_completion_observed(&events, 8));
    assert!(!flip_completion_observed(&events, 7));
    assert!(!flip_completion_observed(&Vec::new(), 8));
}

#[test]
fn mode_set_request_binds_the_session_crtc_and_connector() {
    let d = display(Some(9));
    let r = d.set_mode_with_framebuffer(Some(12));
    assert_eq!(r, ModeSetRequest { crtc: CRTC, framebuffer: Some(12), connector: CONNECTOR, mode: preferred() });
    assert_eq!(d.restore(true), Some(ModeSetRequest { framebuffer: Some(9), ..r }));
}
