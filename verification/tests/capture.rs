use gl_renderer::capture::{
    capture_revision_outcome, revision_file_name, wr_api_capture, wr_api_stop_capture_sequence,
    CaptureBitsRange, CaptureCommand, CaptureError, CaptureSession,
};

const RANGE: CaptureBitsRange = CaptureBitsRange { scene: 1, all: 15 };

fn running(session: &CaptureSession) -> Option<(String, i64)> {
    session.sequence.as_ref().map(|target| (target.path.clone(), target.bits))
}

#[test]
fn new_session_runs_no_sequence() {
    let session = CaptureSession::new(true);
    assert!(session.available);
    assert!(!session.sequence_running());
    assert_eq!(session.availability(), Ok(()));
    let session = CaptureSession::new(false);
    assert!(!session.available);
    assert_eq!(session.availability(), Err(CaptureError::Unavailable));
}

#[test]
fn single_capture_saves_once() {
    let mut session = CaptureSession::new(true);
    let commands = wr_api_capture(&mut session, "dump", Some(1), false, true, RANGE);
    assert_eq!(commands, Ok(vec![CaptureCommand::SaveCapture]));
    assert!(!session.sequence_running());
}

#[test]
fn first_sequence_starts_directly() {
    let mut session = CaptureSession::new(true);
    let commands = wr_api_capture(&mut session, "seq", Some(15), true, true, RANGE);
    assert_eq!(commands, Ok(vec![CaptureCommand::StartSequence]));
    assert_eq!(running(&session), Some(("seq".to_string(), 15)));
}

#[test]
fn second_sequence_stops_the_first_before_it_starts() {
    let mut session = CaptureSession::new(true);
    wr_api_capture(&mut session, "first", Some(3), true, true, RANGE).unwrap();
    let commands = wr_api_capture(&mut session, "second", Some(5), true, true, RANGE);
    assert_eq!(
        commands,
        Ok(vec![CaptureCommand::StopSequence, CaptureCommand::StartSequence])
    );
    assert_eq!(running(&session), Some(("second".to_string(), 5)));
}

#[test]
fn restarting_on_the_same_path_stops_first_too() {
    let mut session = CaptureSession::new(true);
    wr_api_capture(&mut session, "same", Some(3), true, true, RANGE).unwrap();
    let commands = wr_api_capture(&mut session, "same", Some(3), true, true, RANGE).unwrap();
    assert_eq!(commands.len(), 2);
    assert_eq!(commands[0], CaptureCommand::StopSequence);
    assert_eq!(commands[1], CaptureCommand::StartSequence);
}

#[test]
fn single_capture_leaves_a_running_sequence_alone() {
    let mut session = CaptureSession::new(true);
    wr_api_capture(&mut session, "seq", Some(3), true, true, RANGE).unwrap();
    let commands = wr_api_capture(&mut session, "once", Some(1), false, true, RANGE);
    assert_eq!(commands, Ok(vec![CaptureCommand::SaveCapture]));
    assert_eq!(running(&session), Some(("seq".to_string(), 3)));
}

#[test]
fn capture_without_support_is_refused() {
    let mut session = CaptureSession::new(false);
    assert_eq!(
        wr_api_capture(&mut session, "dump", Some(1), false, true, RANGE),
        Err(CaptureError::Unavailable)
    );
    assert_eq!(
        wr_api_capture(&mut session, "dump", Some(99), true, false, RANGE),
        Err(CaptureError::Unavailable)
    );
    assert!(!session.sequence_running());
}

#[test]
fn capture_without_directory_is_refused() {
    let mut session = CaptureSession::new(true);
    assert_eq!(
        wr_api_capture(&mut session, "dump", Some(1), true, false, RANGE),
        Err(CaptureError::DirectoryNotCreated)
    );
    assert_eq!(
        wr_api_capture(&mut session, "dump", Some(99), true, false, RANGE),
        Err(CaptureError::DirectoryNotCreated)
    );
    assert!(!session.sequence_running());
}

#[test]
fn capture_bits_must_lie_in_range() {
    let mut session = CaptureSession::new(true);
    assert_eq!(
        wr_api_capture(&mut session, "dump", Some(0), true, true, RANGE),
        Err(CaptureError::BitsOutOfRange)
    );
    assert_eq!(
        wr_api_capture(&mut session, "dump", Some(16), false, true, RANGE),
        Err(CaptureError::BitsOutOfRange)
    );
    assert_eq!(
        wr_api_capture(&mut session, "dump", Some(-1), false, true, RANGE),
        Err(CaptureError::BitsOutOfRange)
    );
    assert_eq!(
        wr_api_capture(&mut session, "dump", None, true, true, RANGE),
        Err(CaptureError::BitsOutOfRange)
    );
    assert!(!session.sequence_running());
    assert!(wr_api_capture(&mut session, "dump", Some(1), false, true, RANGE).is_ok());
    assert!(wr_api_capture(&mut session, "dump", Some(15), false, true, RANGE).is_ok());
}

#[test]
fn refused_request_keeps_the_running_sequence() {
    let mut session = CaptureSession::new(true);
    wr_api_capture(&mut session, "seq", Some(3), true, true, RANGE).unwrap();
    assert!(wr_api_capture(&mut session, "other", Some(3), true, false, RANGE).is_err());
    assert!(wr_api_capture(&mut session, "other", Some(77), true, true, RANGE).is_err());
    assert_eq!(running(&session), Some(("seq".to_string(), 3)));
}

#[test]
fn stop_ends_the_sequence() {
    let mut session = CaptureSession::new(true);
    wr_api_capture(&mut session, "seq", Some(3), true, true, RANGE).unwrap();
    assert_eq!(wr_api_stop_capture_sequence(&mut session), Ok(CaptureCommand::StopSequence));
    assert!(!session.sequence_running());
    let commands = wr_api_capture(&mut session, "next", Some(3), true, true, RANGE);
    assert_eq!(commands, Ok(vec![CaptureCommand::StartSequence]));
}

#[test]
fn stop_is_sent_even_when_nothing_runs() {
    let mut session = CaptureSession::new(true);
    assert_eq!(wr_api_stop_capture_sequence(&mut session), Ok(CaptureCommand::StopSequence));
    assert!(!session.sequence_running());
}

#[test]
fn stop_without_support_is_refused() {
    let mut session = CaptureSession::new(false);
    assert_eq!(wr_api_stop_capture_sequence(&mut session), Err(CaptureError::Unavailable));
}

#[test]
fn revision_file_is_named() {
    assert_eq!(revision_file_name(), "wr.txt");
}

#[test]
fn revision_outcomes() {
    assert_eq!(capture_revision_outcome(true, true), Ok(()));
    assert_eq!(capture_revision_outcome(true, false), Err(CaptureError::RevisionNotWritten));
    assert_eq!(capture_revision_outcome(false, false), Err(CaptureError::RevisionNotCreated));
    assert_eq!(capture_revision_outcome(false, true), Err(CaptureError::RevisionNotCreated));
}
