//! Diagnostic capture of the renderer's state.
//!
//! A capture writes the renderer's scene to a directory, once or as a
//! running sequence of every frame.  At most one sequence runs at a time.
//! The functions here decide what the renderer is told and keep track of
//! the running sequence; creating the directory, talking to the renderer and
//! writing the revision file are the caller's part.

use vstd::prelude::*;

verus! {

/// Why a capture request was turned down or did not complete.
#[derive(Clone, Copy, Debug, PartialEq, Eq, Structural)]
pub enum CaptureError {
    /// The renderer was built without capture support.
    Unavailable,
    /// The target directory could not be created.
    DirectoryNotCreated,
    /// The selection of what to capture is outside the renderer's range.
    BitsOutOfRange,
    /// The capture was triggered, but the revision file could not be created.
    RevisionNotCreated,
    /// The revision file was created, but writing it failed.
    RevisionNotWritten,
}

/// One instruction to the renderer.
#[derive(Clone, Copy, Debug, PartialEq, Eq, Structural)]
pub enum CaptureCommand {
    /// End the running sequence.
    StopSequence,
    /// Capture the current frame once, with the request's path and bits.
    SaveCapture,
    /// Capture every frame from now on, with the request's path and bits.
    StartSequence,
}

/// The selections that the renderer accepts: every value from the one that
/// selects the scene alone up to the one that selects everything.
#[derive(Clone, Copy, Debug, PartialEq, Eq, Structural)]
pub struct CaptureBitsRange {
    pub scene: i64,
    pub all: i64,
}

/// Where a sequence writes and what it captures.
#[derive(Debug)]
pub struct CaptureTarget {
    pub path: String,
    pub bits: i64,
}

/// A `CaptureTarget` as a value.
pub struct CaptureTargetView {
    pub path: Seq<char>,
    pub bits: i64,
}

impl View for CaptureTarget {
    type V = CaptureTargetView;

    open spec fn view(&self) -> CaptureTargetView {
        CaptureTargetView { path: self.path@, bits: self.bits }
    }
}

/// What is known of capturing on one renderer.
#[derive(Debug)]
pub struct CaptureSession {
    /// Whether the renderer was built with capture support.
    pub available: bool,
    /// The sequence that is running, if one is.
    pub sequence: Option<CaptureTarget>,
}

/// A `CaptureSession` as a value.
pub struct CaptureSessionView {
    pub available: bool,
    pub sequence: Option<CaptureTargetView>,
}

impl View for CaptureSession {
    type V = CaptureSessionView;

    open spec fn view(&self) -> CaptureSessionView {
        CaptureSessionView {
            available: self.available,
            sequence: match self.sequence {
                Some(target) => Some(target@),
                None => None,
            },
        }
    }
}

/// Whether a selection is one that the renderer accepts: a number, and
/// one in the range.
pub open spec fn bits_in_range(bits_raw: Option<i64>, range: CaptureBitsRange) -> bool {
    match bits_raw {
        Some(bits) => range.scene <= bits <= range.all,
        None => false,
    }
}

/// Why a request is turned down before the renderer hears of it, if it is.
/// A renderer without capture support turns every request down; failing
/// that, a directory that could not be created does; failing that, a
/// selection outside the range does.
pub open spec fn capture_refusal(
    available: bool,
    directory_created: bool,
    bits_raw: Option<i64>,
    range: CaptureBitsRange,
) -> Option<CaptureError> {
    if !available {
        Some(CaptureError::Unavailable)
    } else if !directory_created {
        Some(CaptureError::DirectoryNotCreated)
    } else if !bits_in_range(bits_raw, range) {
        Some(CaptureError::BitsOutOfRange)
    } else {
        None
    }
}

/// What the renderer is told for an accepted request.  A new sequence is
/// started only after the running one, if any, has been stopped.
pub open spec fn capture_commands(sequence_running: bool, start_sequence: bool) -> Seq<
    CaptureCommand,
> {
    if !start_sequence {
        seq![CaptureCommand::SaveCapture]
    } else if sequence_running {
        seq![CaptureCommand::StopSequence, CaptureCommand::StartSequence]
    } else {
        seq![CaptureCommand::StartSequence]
    }
}

/// The session after an accepted request: a requested sequence takes the
/// place of the running one, a single capture leaves it alone.
pub open spec fn capture_accepted(
    session: CaptureSessionView,
    path: Seq<char>,
    bits_raw: i64,
    start_sequence: bool,
) -> CaptureSessionView {
    if start_sequence {
        CaptureSessionView {
            available: session.available,
            sequence: Some(CaptureTargetView { path: path, bits: bits_raw }),
        }
    } else {
        session
    }
}

/// How writing the revision file ended.
pub open spec fn revision_outcome(created: bool, written: bool) -> Result<(), CaptureError> {
    if !created {
        Err(CaptureError::RevisionNotCreated)
    } else if !written {
        Err(CaptureError::RevisionNotWritten)
    } else {
        Ok(())
    }
}

impl CaptureSession {
    /// The session of a renderer on which nothing was captured yet.
    pub fn new(available: bool) -> (session: Self)
        ensures
            session@ == (CaptureSessionView { available: available, sequence: None }),
    {
        CaptureSession { available, sequence: None }
    }

    /// Whether a sequence is running.
    pub open spec fn spec_sequence_running(&self) -> bool {
        self.sequence is Some
    }

    /// Whether a sequence is running.
    #[verifier::when_used_as_spec(spec_sequence_running)]
    pub fn sequence_running(&self) -> (running: bool)
        ensures
            running == self.spec_sequence_running(),
    {
        self.sequence.is_some()
    }

    /// Tells whether capturing can be asked for at all, so that nothing is
    /// written on behalf of a request that cannot be served.
    pub fn availability(&self) -> (result: Result<(), CaptureError>)
        ensures
            result == (if self.available {
                Ok::<(), CaptureError>(())
            } else {
                Err::<(), CaptureError>(CaptureError::Unavailable)
            }),
    {
        if self.available {
            Ok(())
        } else {
            Err(CaptureError::Unavailable)
        }
    }
}

/// Serves a request to capture the renderer's state under `path`.
///
/// `directory_created` tells whether `path` exists as a directory now;
/// `bits_raw` selects what is captured, is nothing where the host gave no
/// number, and must lie in `range`; `start_sequence` asks for a running
/// sequence in place of a single capture.  On success the result lists what the renderer is to be told, in
/// order; the caller then writes the revision file.  A request that is
/// turned down leaves the session as it was.
pub fn wr_api_capture(
    session: &mut CaptureSession,
    path: &str,
    bits_raw: Option<i64>,
    start_sequence: bool,
    directory_created: bool,
    range: CaptureBitsRange,
) -> (result: Result<Vec<CaptureCommand>, CaptureError>)
    ensures
        match result {
            Ok(commands) => {
                &&& capture_refusal(old(session).available, directory_created, bits_raw, range)
                    is None
                &&& commands@ == capture_commands(
                    old(session).spec_sequence_running(),
                    start_sequence,
                )
                &&& bits_raw is Some
                &&& final(session)@ == capture_accepted(
                    old(session)@,
                    path@,
                    bits_raw.unwrap(),
                    start_sequence,
                )
            },
            Err(error) => {
                &&& capture_refusal(old(session).available, directory_created, bits_raw, range)
                    == Some(error)
                &&& final(session)@ == old(session)@
            },
        },
{
    if !session.available {
        return Err(CaptureError::Unavailable);
    }
    if !directory_created {
        return Err(CaptureError::DirectoryNotCreated);
    }
    let bits: i64 = match bits_raw {
        Some(bits) => bits,
        None => {
            return Err(CaptureError::BitsOutOfRange);
        },
    };
    if bits < range.scene || bits > range.all {
        return Err(CaptureError::BitsOutOfRange);
    }
    let mut commands: Vec<CaptureCommand> = Vec::new();
    if !start_sequence {
        commands.push(CaptureCommand::SaveCapture);
    } else {
        if session.sequence.is_some() {
            commands.push(CaptureCommand::StopSequence);
        }
        commands.push(CaptureCommand::StartSequence);
        session.sequence = Some(CaptureTarget { path: path.to_owned(), bits });
    }
    Ok(commands)
}

/// Serves a request to end the running sequence.  The renderer is told to
/// stop whether or not a sequence is known to run, and afterwards none
/// does.
pub fn wr_api_stop_capture_sequence(session: &mut CaptureSession) -> (result: Result<
    CaptureCommand,
    CaptureError,
>)
    ensures
        match result {
            Ok(command) => {
                &&& old(session).available
                &&& command == CaptureCommand::StopSequence
                &&& final(session)@ == (CaptureSessionView { available: true, sequence: None })
            },
            Err(error) => {
                &&& !old(session).available
                &&& error == CaptureError::Unavailable
                &&& final(session)@ == old(session)@
            },
        },
{
    if !session.available {
        return Err(CaptureError::Unavailable);
    }
    session.sequence = None;
    Ok(CaptureCommand::StopSequence)
}

/// The name of the revision file, which is written into the capture's
/// directory after the renderer was told to capture.
pub fn revision_file_name() -> (name: &'static str)
    ensures
        name@ == "wr.txt"@,
{
    "wr.txt"
}

/// Classifies how writing the revision file ended: `created` tells whether
/// the file could be created, `written` whether its contents went in.
pub fn capture_revision_outcome(created: bool, written: bool) -> (result: Result<
    (),
    CaptureError,
>)
    ensures
        result == revision_outcome(created, written),
{
    if !created {
        Err(CaptureError::RevisionNotCreated)
    } else if !written {
        Err(CaptureError::RevisionNotWritten)
    } else {
        Ok(())
    }
}

/// Whether the renderer runs a sequence once it has carried out one
/// command, having run one or not before.
pub open spec fn runs_after_command(running: bool, command: CaptureCommand) -> bool {
    match command {
        CaptureCommand::StopSequence => false,
        CaptureCommand::SaveCapture => running,
        CaptureCommand::StartSequence => true,
    }
}

/// Whether the renderer runs a sequence once it has carried out `commands`
/// in order.
pub open spec fn runs_after(running: bool, commands: Seq<CaptureCommand>) -> bool
    decreases commands.len(),
{
    if commands.len() == 0 {
        running
    } else {
        runs_after_command(runs_after(running, commands.drop_last()), commands.last())
    }
}

/// Whether `commands`, carried out in order, never start a sequence while
/// one is running.
pub open spec fn never_overlaps(running: bool, commands: Seq<CaptureCommand>) -> bool
    decreases commands.len(),
{
    if commands.len() == 0 {
        true
    } else {
        &&& never_overlaps(running, commands.drop_last())
        &&& commands.last() is StartSequence ==> !runs_after(running, commands.drop_last())
    }
}

/// Starting a sequence while another runs ends the other one first: the
/// renderer hears the stop before the start and nothing else, and the
/// session then holds the new sequence alone.
pub proof fn lemma_restart_stops_running_sequence(
    session: CaptureSessionView,
    path: Seq<char>,
    bits_raw: i64,
)
    requires
        session.sequence is Some,
    ensures
        capture_commands(session.sequence is Some, true) == seq![
            CaptureCommand::StopSequence,
            CaptureCommand::StartSequence,
        ],
        capture_accepted(session, path, bits_raw, true).sequence == Some(
            CaptureTargetView { path: path, bits: bits_raw },
        ),
{
}

/// Two sequences never write at once.  As long as the session knows
/// whether the renderer runs a sequence, the commands of an accepted
/// request never start one on top of a running one, and afterwards the
/// session knows again whether one runs.  The same holds of a stop.
pub proof fn lemma_sequences_never_overlap(
    session: CaptureSessionView,
    path: Seq<char>,
    bits_raw: i64,
    start_sequence: bool,
)
    ensures
        never_overlaps(
            session.sequence is Some,
            capture_commands(session.sequence is Some, start_sequence),
        ),
        runs_after(
            session.sequence is Some,
            capture_commands(session.sequence is Some, start_sequence),
        ) == (capture_accepted(session, path, bits_raw, start_sequence).sequence is Some),
        never_overlaps(session.sequence is Some, seq![CaptureCommand::StopSequence]),
        !runs_after(session.sequence is Some, seq![CaptureCommand::StopSequence]),
{
    let running = session.sequence is Some;
    let none = Seq::<CaptureCommand>::empty();
    let stop = seq![CaptureCommand::StopSequence];
    let save = seq![CaptureCommand::SaveCapture];
    let start = seq![CaptureCommand::StartSequence];
    let restart = seq![CaptureCommand::StopSequence, CaptureCommand::StartSequence];
    assert(stop.drop_last() == none);
    assert(save.drop_last() == none);
    assert(start.drop_last() == none);
    assert(restart.drop_last() == stop);
    assert(runs_after(running, none) == running);
    assert(never_overlaps(running, none));
    assert(!runs_after(running, stop));
    assert(never_overlaps(running, stop));
    assert(runs_after(running, save) == running);
    assert(never_overlaps(running, save));
    assert(runs_after(running, start));
    assert(!running ==> never_overlaps(running, start));
    assert(runs_after(running, restart));
    assert(never_overlaps(running, restart));
}

} // verus!
