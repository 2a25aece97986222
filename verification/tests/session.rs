use ime_indicator::cache::BufferLayout;
use ime_indicator::dispatch::LayerSurfaceEvent;
use ime_indicator::placement::Placement;
use ime_indicator::session::{
    FramePlan, OverlaySession, SessionError, SurfaceInstance, SurfaceSetup, NO_EXCLUSIVE_ZONE,
};
use ime_indicator::AppState;

fn configure(serial: u32) -> LayerSurfaceEvent {
    LayerSurfaceEvent::Configure { serial, width: 300, height: 150 }
}

#[test]
fn open_session_has_no_surface() {
    let session = OverlaySession::open();
    assert!(!session.has_surface());
    assert_eq!(session, OverlaySession { surface: None });
}

#[test]
fn begin_cycle_centered_setup() {
    let mut session = OverlaySession::open();
    let setup = session.begin_cycle(300, 150, Placement::Centered);
    assert_eq!(
        setup,
        Ok(SurfaceSetup {
            width: 300,
            height: 150,
            anchor_top: false,
            anchor_left: false,
            margin_top: 0,
            margin_left: 0,
            keyboard_interactive: false,
            exclusive_zone: -1,
            accepts_input: false,
        })
    );
    assert_eq!(NO_EXCLUSIVE_ZONE, -1);
    assert_eq!(
        session.surface,
        Some(SurfaceInstance {
            width: 300,
            height: 150,
            state: AppState { configured: false, closed: false }
        })
    );
}

#[test]
fn begin_cycle_anchored_setup() {
    let mut session = OverlaySession::open();
    let setup = session
        .begin_cycle(300, 150, Placement::TopLeft { margin_left: 350, margin_top: -5 })
        .unwrap();
    assert!(setup.anchor_top);
    assert!(setup.anchor_left);
    assert_eq!(setup.margin_left, 350);
    assert_eq!(setup.margin_top, -5);
    assert!(!setup.keyboard_interactive);
    assert!(!setup.accepts_input);
    assert_eq!(setup.exclusive_zone, -1);
}

#[test]
fn begin_cycle_refuses_a_second_surface() {
    let mut session = OverlaySession::open();
    session.begin_cycle(300, 150, Placement::Centered).unwrap();
    let before = session;
    assert_eq!(
        session.begin_cycle(10, 10, Placement::Centered),
        Err(SessionError::SurfaceExists)
    );
    assert_eq!(session, before);
}

#[test]
fn begin_cycle_refuses_what_does_not_fit_the_pool() {
    let mut session = OverlaySession::open();
    assert_eq!(
        session.begin_cycle(23171, 23171, Placement::Centered),
        Err(SessionError::TooLarge)
    );
    assert_eq!(session.begin_cycle(0, u32::MAX, Placement::Centered), Err(SessionError::TooLarge));
    assert!(!session.has_surface());
    assert!(session.begin_cycle(23170, 23170, Placement::Centered).is_ok());
}

#[test]
fn upload_needs_a_surface() {
    let session = OverlaySession::open();
    assert_eq!(session.upload(180000, true), Err(SessionError::NoSurface));
}

#[test]
fn upload_is_refused_before_the_configure_acknowledgment() {
    let mut session = OverlaySession::open();
    session.begin_cycle(300, 150, Placement::Centered).unwrap();
    assert_eq!(session.upload(180000, true), Err(SessionError::NotConfigured));
    assert_eq!(session.event(configure(9)), Some(9));
    assert_eq!(
        session.upload(180000, true),
        Ok(FramePlan {
            width: 300,
            height: 150,
            layout: BufferLayout { stride: 1200, size: 180000 },
            wait: true,
        })
    );
    assert_eq!(session.upload(180000, false).unwrap().wait, false);
}

#[test]
fn upload_checks_the_buffer_length() {
    let mut session = OverlaySession::open();
    session.begin_cycle(300, 150, Placement::Centered).unwrap();
    session.event(configure(1));
    assert_eq!(session.upload(179999, false), Err(SessionError::WrongLength));
    assert_eq!(session.upload(0, false), Err(SessionError::WrongLength));
}

#[test]
fn upload_is_refused_once_the_surface_is_closed() {
    let mut session = OverlaySession::open();
    session.begin_cycle(300, 150, Placement::Centered).unwrap();
    session.event(configure(1));
    assert_eq!(session.event(LayerSurfaceEvent::Closed), None);
    assert_eq!(session.upload(180000, false), Err(SessionError::SurfaceClosed));
}

#[test]
fn upload_with_a_hand_made_oversized_surface() {
    let session = OverlaySession {
        surface: Some(SurfaceInstance {
            width: 23171,
            height: 23171,
            state: AppState { configured: true, closed: false },
        }),
    };
    assert_eq!(session.upload(4, false), Err(SessionError::TooLarge));
}

#[test]
fn events_without_a_surface_do_nothing() {
    let mut session = OverlaySession::open();
    assert_eq!(session.event(configure(5)), None);
    assert_eq!(session.event(LayerSurfaceEvent::Closed), None);
    assert_eq!(session, OverlaySession::open());
}

#[test]
fn end_cycle_releases_the_surface() {
    let mut session = OverlaySession::open();
    assert!(!session.end_cycle());
    session.begin_cycle(300, 150, Placement::Centered).unwrap();
    session.event(configure(1));
    assert!(session.end_cycle());
    assert!(!session.has_surface());
    // the session stays usable, and the next surface starts unconfigured
    session.begin_cycle(300, 150, Placement::Centered).unwrap();
    assert_eq!(session.upload(180000, true), Err(SessionError::NotConfigured));
}
