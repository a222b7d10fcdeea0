use sidecar::supervisor::{Action, Event, Phase, Supervisor};

#[test]
fn launch_then_window_destroyed() {
    let mut s: Supervisor<u32> = Supervisor::new();
    assert_eq!(s.phase, Phase::Starting);
    assert!(!s.is_running());
    match s.handle_event(Event::Launched(7)) {
        Action::Settle { delay_ms, message } => {
            assert_eq!(delay_ms, 500);
            assert!(message.contains("http://localhost:8880"));
        }
        _ => panic!("a launched server must be given time to start"),
    }
    assert!(s.is_running());
    assert_eq!(s.process, Some(7));
    match s.handle_event(Event::WindowDestroyed) {
        Action::Stop { process, message } => {
            assert_eq!(process, 7);
            assert_eq!(message, "Go server stopped");
        }
        _ => panic!("the running server must be stopped"),
    }
    assert_eq!(s.phase, Phase::Stopped);
    assert_eq!(s.process, None);
}

#[test]
fn termination_twice_kills_once() {
    let mut s: Supervisor<u32> = Supervisor::new();
    s.handle_event(Event::Launched(3));
    let mut kills = 0;
    for _ in 0..2 {
        if let Action::Stop { .. } = s.handle_event(Event::WindowDestroyed) {
            kills += 1;
        }
    }
    assert_eq!(kills, 1);
    assert_eq!(s.process, None);
    assert!(matches!(s.handle_event(Event::WindowDestroyed), Action::Ignore));
}

#[test]
fn second_launch_is_not_recorded() {
    let mut s: Supervisor<u32> = Supervisor::new();
    s.handle_event(Event::Launched(1));
    match s.handle_event(Event::Launched(2)) {
        Action::Release { process } => assert_eq!(process, 2),
        _ => panic!("a second process must be handed back"),
    }
    assert_eq!(s.process, Some(1));
}

#[test]
fn failed_launch_degrades() {
    let mut s: Supervisor<u32> = Supervisor::new();
    match s.handle_event(Event::LaunchFailed("not found".to_string())) {
        Action::Report { message } => {
            assert_eq!(
                message,
                "Note: Go server not started (not found). Run it separately in dev mode."
            );
        }
        _ => panic!("a failed launch must be reported"),
    }
    assert_eq!(s.phase, Phase::Unavailable);
    assert_eq!(s.process, None);
    assert!(matches!(s.handle_event(Event::WindowDestroyed), Action::Ignore));
    match s.handle_event(Event::Launched(4)) {
        Action::Release { process } => assert_eq!(process, 4),
        _ => panic!("no relaunch within the same run"),
    }
    assert_eq!(s.process, None);
}

#[test]
fn window_destroyed_before_launch_does_nothing() {
    let mut s: Supervisor<u32> = Supervisor::new();
    assert!(matches!(s.handle_event(Event::WindowDestroyed), Action::Ignore));
    assert_eq!(s.phase, Phase::Starting);
}
