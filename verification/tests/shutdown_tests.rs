use backend_supervisor::launch::Platform;
use backend_supervisor::probe::Phase;
use backend_supervisor::shutdown::{termination, ShutdownCoordinator, SupervisorState, Termination};

fn fresh() -> SupervisorState<&'static str> {
    SupervisorState::new("/work/journal".to_string(), "/work/journal/tauri_python_server.log".to_string())
}

#[test]
fn a_fresh_state_holds_no_child() {
    let s = fresh();
    assert!(!s.has_child());
    assert!(!s.spawned());
    assert!(!s.termination_requested());
    assert_eq!(s.last_known_phase(), None);
    assert_eq!(s.working_directory(), "/work/journal");
    assert_eq!(s.log_file_path(), "/work/journal/tauri_python_server.log");
}

#[test]
fn a_spawned_child_is_held_until_shutdown() {
    let mut s = fresh();
    assert_eq!(s.store_child("child", 4242), Ok(()));
    assert!(s.has_child());
    assert!(s.spawned());
    assert_eq!(s.last_known_phase(), Some(Phase::Spawned));

    let taken = ShutdownCoordinator::shutdown(&mut s, Platform::Unix).unwrap();
    assert_eq!(taken.handle, "child");
    assert_eq!(taken.pid, 4242);
    assert_eq!(taken.termination, Termination::Signal);
    assert!(!s.has_child());
    assert!(s.spawned());
    assert!(s.termination_requested());
}

#[test]
fn a_second_shutdown_is_a_no_op() {
    let mut s = fresh();
    s.store_child("child", 1).unwrap();
    s.record_phase(Phase::Live);
    assert!(ShutdownCoordinator::shutdown(&mut s, Platform::Unix).is_some());
    assert!(ShutdownCoordinator::shutdown(&mut s, Platform::Unix).is_none());
    assert!(ShutdownCoordinator::shutdown(&mut s, Platform::Windows).is_none());
    assert!(!s.has_child());
    assert!(s.spawned());
    assert!(s.termination_requested());
    assert_eq!(s.last_known_phase(), Some(Phase::Live));
}

#[test]
fn shutdown_without_a_launch_is_a_no_op() {
    let mut s = fresh();
    assert!(ShutdownCoordinator::shutdown(&mut s, Platform::Unix).is_none());
    assert!(!s.has_child());
    assert!(!s.spawned());
    assert!(s.termination_requested());
}

#[test]
fn a_child_that_arrives_after_shutdown_is_handed_back() {
    let mut s = fresh();
    assert!(ShutdownCoordinator::shutdown(&mut s, Platform::Unix).is_none());
    assert_eq!(s.store_child("late", 9), Err("late"));
    assert!(!s.has_child());
    assert!(!s.spawned());
}

#[test]
fn a_second_child_is_handed_back() {
    let mut s = fresh();
    assert_eq!(s.store_child("first", 1), Ok(()));
    assert_eq!(s.store_child("second", 2), Err("second"));
    let taken = ShutdownCoordinator::shutdown(&mut s, Platform::Unix).unwrap();
    assert_eq!(taken.handle, "first");
    assert_eq!(taken.pid, 1);
    assert_eq!(s.store_child("third", 3), Err("third"));
}

#[test]
fn phases_are_recorded_only_once_a_child_was_spawned() {
    let mut s = fresh();
    s.record_phase(Phase::Live);
    assert_eq!(s.last_known_phase(), None);
    s.store_child("child", 1).unwrap();
    s.record_phase(Phase::Live);
    assert_eq!(s.last_known_phase(), Some(Phase::Live));
    s.record_phase(Phase::Ready);
    assert_eq!(s.last_known_phase(), Some(Phase::Ready));
    let _ = ShutdownCoordinator::shutdown(&mut s, Platform::Unix);
    s.record_phase(Phase::Failed);
    assert_eq!(s.last_known_phase(), Some(Phase::Failed));
}

#[test]
fn windows_kills_the_process_tree_by_force() {
    assert_eq!(
        termination(Platform::Windows, 4242),
        Termination::KillTree {
            program: "taskkill".to_string(),
            args: vec!["/PID".to_string(), "4242".to_string(), "/T".to_string(), "/F".to_string()],
        }
    );
    let mut s = fresh();
    s.store_child("child", 31337).unwrap();
    let taken = ShutdownCoordinator::shutdown(&mut s, Platform::Windows).unwrap();
    assert_eq!(
        taken.termination,
        Termination::KillTree {
            program: "taskkill".to_string(),
            args: vec!["/PID".to_string(), "31337".to_string(), "/T".to_string(), "/F".to_string()],
        }
    );
}

#[test]
fn unix_signals_the_process() {
    assert_eq!(termination(Platform::Unix, 4242), Termination::Signal);
    assert_eq!(termination(Platform::Unix, 0), Termination::Signal);
}
