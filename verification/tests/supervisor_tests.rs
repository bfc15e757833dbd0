use builder_monitor::progress::{BuilderProgress, LineRead};
use builder_monitor::supervisor::{Supervisor, SupervisorPhase};

#[test]
fn successful_run_completes_on_marker_line() {
    let mut s = Supervisor::new();
    assert_eq!(s.current_phase(), SupervisorPhase::Idle);
    s.begin_spawn();
    s.spawn_succeeded();
    assert_eq!(s.current_phase(), SupervisorPhase::Streaming);

    let events = s.on_read(LineRead::Line("searching".to_string()));
    assert_eq!(
        events,
        vec![BuilderProgress::Running("searching".to_string())]
    );
    assert_eq!(s.current_phase(), SupervisorPhase::Streaming);

    let events = s.on_read(LineRead::Line("build done successfully".to_string()));
    assert_eq!(
        events,
        vec![
            BuilderProgress::Running("build done successfully".to_string()),
            BuilderProgress::Done,
        ]
    );
    assert_eq!(s.current_phase(), SupervisorPhase::Completed);
}

#[test]
fn spawn_failure_yields_exactly_one_error_event() {
    let mut s = Supervisor::new();
    s.begin_spawn();
    let message = "Failed to start binary: No such file or directory (os error 2)".to_string();
    let event = s.spawn_failed(message.clone());
    assert_eq!(event, BuilderProgress::Error(message));
    assert_eq!(s.current_phase(), SupervisorPhase::Failed);
}

#[test]
fn end_of_stream_without_marker_fails_the_run() {
    let mut s = Supervisor::new();
    s.begin_spawn();
    s.spawn_succeeded();
    let events = s.on_read(LineRead::EndOfStream);
    assert_eq!(
        events,
        vec![BuilderProgress::Error(
            "Failed to read stdout: reached end of stream".to_string()
        )]
    );
    assert_eq!(s.current_phase(), SupervisorPhase::Failed);
}

#[test]
fn read_failure_fails_the_run() {
    let mut s = Supervisor::new();
    s.begin_spawn();
    s.spawn_succeeded();
    let events = s.on_read(LineRead::ReadFailure);
    assert_eq!(
        events,
        vec![BuilderProgress::Error("Failed to read stdout".to_string())]
    );
    assert_eq!(s.current_phase(), SupervisorPhase::Failed);
}

#[test]
fn cancel_mid_stream_cancels_once_and_stays_cancelled() {
    let mut s = Supervisor::new();
    s.begin_spawn();
    s.spawn_succeeded();
    s.cancel();
    assert_eq!(s.current_phase(), SupervisorPhase::Cancelled);
    s.cancel();
    assert_eq!(s.current_phase(), SupervisorPhase::Cancelled);
}

#[test]
fn cancel_after_completion_is_a_no_op() {
    let mut s = Supervisor::new();
    s.begin_spawn();
    s.spawn_succeeded();
    s.on_read(LineRead::Line("all done".to_string()));
    assert_eq!(s.current_phase(), SupervisorPhase::Completed);
    s.cancel();
    assert_eq!(s.current_phase(), SupervisorPhase::Completed);
}
