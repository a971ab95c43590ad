use pointersay::session::{
    dispatch, Action, Event, Phase, PointerSample, SeatCapability, SessionError, SessionState,
};

fn sample(x: i32, y: i32) -> PointerSample {
    PointerSample { x, y }
}

#[test]
fn new_session_starts_all_zero() {
    let state = SessionState::new();
    assert_eq!(state.monitor_width, 0);
    assert_eq!(state.monitor_height, 0);
    assert_eq!(state.pointer_x, 0);
    assert_eq!(state.pointer_y, 0);
    assert!(state.first_configure);
    assert!(!state.pointer_bound);
    assert!(!state.terminal);
}

#[test]
fn scenario_full_capture() {
    // All globals bound, seat reports a pointer at once, one configure,
    // then the first pointer event: the session returns the captured state.
    let mut state = SessionState::new();
    assert_eq!(state.current_phase(), Phase::AwaitingConfigure);

    let r = dispatch(
        &mut state,
        Event::CapabilityAdded { capability: SeatCapability::Pointer },
    );
    assert_eq!(r, Ok(Action::BindPointer));

    let r = dispatch(&mut state, Event::Configure { width: 1920, height: 1080 });
    assert_eq!(r, Ok(Action::Paint { width: 1920, height: 1080 }));
    assert_eq!(state.current_phase(), Phase::AwaitingPointerEvent);

    let r = dispatch(
        &mut state,
        Event::PointerFrame { samples: vec![sample(640, 400)] },
    );
    assert_eq!(r, Ok(Action::Nothing));
    assert_eq!(state.current_phase(), Phase::Done);

    let info = state.env_info();
    assert_eq!(info.monitor_width, 1920);
    assert_eq!(info.monitor_height, 1080);
    assert_eq!(info.pointer_x, 640);
    assert_eq!(info.pointer_y, 400);
}

#[test]
fn last_configure_wins() {
    let mut state = SessionState::new();
    dispatch(&mut state, Event::Configure { width: 800, height: 600 }).unwrap();
    dispatch(&mut state, Event::Configure { width: 2560, height: 1440 }).unwrap();
    dispatch(
        &mut state,
        Event::PointerFrame { samples: vec![sample(10, 20)] },
    )
    .unwrap();
    let info = state.env_info();
    assert_eq!(info.monitor_width, 2560);
    assert_eq!(info.monitor_height, 1440);
}

#[test]
fn paint_fires_once() {
    let mut state = SessionState::new();
    let first = dispatch(&mut state, Event::Configure { width: 800, height: 600 });
    assert_eq!(first, Ok(Action::Paint { width: 800, height: 600 }));
    let second = dispatch(&mut state, Event::Configure { width: 1024, height: 768 });
    assert_eq!(second, Ok(Action::Nothing));
    let third = dispatch(&mut state, Event::Configure { width: 640, height: 480 });
    assert_eq!(third, Ok(Action::Nothing));
}

#[test]
fn pointer_batch_last_sample_wins() {
    let mut state = SessionState::new();
    dispatch(&mut state, Event::Configure { width: 1920, height: 1080 }).unwrap();
    let batch = vec![sample(1, 1), sample(2, 2), sample(33, 44)];
    dispatch(&mut state, Event::PointerFrame { samples: batch }).unwrap();
    assert!(state.terminal);
    assert_eq!(state.pointer_x, 33);
    assert_eq!(state.pointer_y, 44);
}

#[test]
fn events_after_capture_are_ignored() {
    let mut state = SessionState::new();
    dispatch(&mut state, Event::Configure { width: 1920, height: 1080 }).unwrap();
    dispatch(
        &mut state,
        Event::PointerFrame { samples: vec![sample(5, 6)] },
    )
    .unwrap();
    let frozen = state;
    // A late configure, pointer batch, and even a close change nothing.
    let r = dispatch(&mut state, Event::Configure { width: 1, height: 1 });
    assert_eq!(r, Ok(Action::Nothing));
    let r = dispatch(
        &mut state,
        Event::PointerFrame { samples: vec![sample(7, 8)] },
    );
    assert_eq!(r, Ok(Action::Nothing));
    let r = dispatch(&mut state, Event::SurfaceClosed);
    assert_eq!(r, Ok(Action::Nothing));
    assert_eq!(state, frozen);
}

#[test]
fn empty_pointer_batch_ignored() {
    let mut state = SessionState::new();
    let r = dispatch(&mut state, Event::PointerFrame { samples: vec![] });
    assert_eq!(r, Ok(Action::Nothing));
    assert!(!state.terminal);
    assert_eq!(state.pointer_x, 0);
    assert_eq!(state.pointer_y, 0);
}

#[test]
fn capability_removed_then_rebind_still_captures() {
    // Losing the pointer capability before any pointer event neither ends
    // the session nor records coordinates; a rebind then still succeeds.
    let mut state = SessionState::new();
    dispatch(
        &mut state,
        Event::CapabilityAdded { capability: SeatCapability::Pointer },
    )
    .unwrap();
    dispatch(&mut state, Event::Configure { width: 1920, height: 1080 }).unwrap();
    let r = dispatch(
        &mut state,
        Event::CapabilityRemoved { capability: SeatCapability::Pointer },
    );
    assert_eq!(r, Ok(Action::ReleasePointer));
    assert!(!state.terminal);
    assert!(!state.pointer_bound);
    assert_eq!(state.pointer_x, 0);
    assert_eq!(state.pointer_y, 0);
    assert_eq!(state.current_phase(), Phase::AwaitingConfigure);

    let r = dispatch(
        &mut state,
        Event::CapabilityAdded { capability: SeatCapability::Pointer },
    );
    assert_eq!(r, Ok(Action::BindPointer));
    dispatch(
        &mut state,
        Event::PointerFrame { samples: vec![sample(100, 200)] },
    )
    .unwrap();
    assert!(state.terminal);
    assert_eq!(state.pointer_x, 100);
    assert_eq!(state.pointer_y, 200);
}

#[test]
fn capability_added_twice_binds_once() {
    let mut state = SessionState::new();
    let first = dispatch(
        &mut state,
        Event::CapabilityAdded { capability: SeatCapability::Pointer },
    );
    assert_eq!(first, Ok(Action::BindPointer));
    let second = dispatch(
        &mut state,
        Event::CapabilityAdded { capability: SeatCapability::Pointer },
    );
    assert_eq!(second, Ok(Action::Nothing));
}

#[test]
fn capability_removed_without_binding_is_ignored() {
    let mut state = SessionState::new();
    let r = dispatch(
        &mut state,
        Event::CapabilityRemoved { capability: SeatCapability::Pointer },
    );
    assert_eq!(r, Ok(Action::Nothing));
}

#[test]
fn non_pointer_capabilities_are_ignored() {
    let mut state = SessionState::new();
    let r = dispatch(
        &mut state,
        Event::CapabilityAdded { capability: SeatCapability::Keyboard },
    );
    assert_eq!(r, Ok(Action::Nothing));
    assert!(!state.pointer_bound);
    let r = dispatch(
        &mut state,
        Event::CapabilityAdded { capability: SeatCapability::Touch },
    );
    assert_eq!(r, Ok(Action::Nothing));
    assert!(!state.pointer_bound);
}

#[test]
fn surface_closed_before_capture_is_fatal() {
    // A close while the session still awaits its pointer event is a
    // protocol-contract violation.
    let mut state = SessionState::new();
    dispatch(
        &mut state,
        Event::CapabilityAdded { capability: SeatCapability::Pointer },
    )
    .unwrap();
    dispatch(&mut state, Event::Configure { width: 1920, height: 1080 }).unwrap();
    assert_eq!(state.current_phase(), Phase::AwaitingPointerEvent);
    let r = dispatch(&mut state, Event::SurfaceClosed);
    assert_eq!(r, Err(SessionError::UnexpectedSurfaceClose));
}

#[test]
fn surface_closed_after_capture_is_teardown() {
    let mut state = SessionState::new();
    dispatch(
        &mut state,
        Event::PointerFrame { samples: vec![sample(1, 2)] },
    )
    .unwrap();
    let r = dispatch(&mut state, Event::SurfaceClosed);
    assert_eq!(r, Ok(Action::Nothing));
}
