//! The decisions of one run: load the proof, load the key, call the verifier,
//! finish. The caller performs each step and reports back what happened.
use vstd::prelude::*;
use crate::outcome::Outcome;

verus! {

/// The run's error when the verifier refused the proof or faulted.
pub const VERIFICATION_FAILED_TEXT: &'static str = "Proof verification failed";

/// Printed last when the proof was accepted.
pub const COMPLETED_LINE: &'static str = "Verification completed successfully!";

/// Printed last when the proof was refused or the verifier faulted.
pub const FAILED_LINE: &'static str = "Verification failed!";

/// Put before the message of an error that stopped the run early.
pub const STOPPED_PREFIX: &'static str = "Error verifying proof: ";

/// Why a file could not be loaded.
#[derive(Debug)]
pub enum LoadError {
    /// The file could not be read.
    Io(String),
    /// The file's text is not valid JSON of the expected shape.
    Parse(String),
}

/// Why a run ended without success.
#[derive(Debug)]
pub enum RunError {
    /// The proof or the key could not be loaded; the verifier was not called.
    Load(LoadError),
    /// The verifier refused the proof or faulted.
    VerificationFailed,
}

/// Where a run stands.
#[derive(Debug)]
pub enum Stage {
    /// The proof file is to be read and parsed.
    LoadProof,
    /// The verification key file is to be read and parsed.
    LoadKey,
    /// Both are loaded; the verifier is to be called.
    Verify,
    /// The run is over, with its result.
    Finished(Result<(), RunError>),
}

/// What the caller reports after performing a stage's step.
#[derive(Debug)]
pub enum Event {
    /// The file of the current stage was loaded.
    Loaded,
    /// The file of the current stage could not be loaded.
    LoadFailed(LoadError),
    /// The verifier call came to this outcome.
    Called(Outcome),
}

/// A stage at which a file is being loaded.
pub open spec fn is_loading(s: Stage) -> bool {
    s is LoadProof || s is LoadKey
}

/// The stage after `event` at stage `s`. An event that does not belong to
/// the stage leaves it as it is.
pub open spec fn next_stage(s: Stage, event: Event) -> Stage {
    match (s, event) {
        (Stage::LoadProof, Event::Loaded) => Stage::LoadKey,
        (Stage::LoadKey, Event::Loaded) => Stage::Verify,
        (Stage::LoadProof, Event::LoadFailed(e)) => Stage::Finished(Err(RunError::Load(e))),
        (Stage::LoadKey, Event::LoadFailed(e)) => Stage::Finished(Err(RunError::Load(e))),
        (Stage::Verify, Event::Called(o)) => if o is Verified {
            Stage::Finished(Ok(()))
        } else {
            Stage::Finished(Err(RunError::VerificationFailed))
        },
        _ => s,
    }
}

/// The stage after each of `events` in turn, from `s`.
pub open spec fn stage_after(s: Stage, events: Seq<Event>) -> Stage
    decreases events.len(),
{
    if events.len() == 0 {
        s
    } else {
        stage_after(next_stage(s, events[0]), events.drop_first())
    }
}

impl Stage {
    /// The stage a run starts at.
    pub fn start() -> (s: Stage)
        ensures
            s is LoadProof,
    {
        Stage::LoadProof
    }

    /// The stage after `event`.
    pub fn advance(self, event: Event) -> (s: Stage)
        ensures
            s == next_stage(self, event),
    {
        match (self, event) {
            (Stage::LoadProof, Event::Loaded) => Stage::LoadKey,
            (Stage::LoadKey, Event::Loaded) => Stage::Verify,
            (Stage::LoadProof, Event::LoadFailed(e)) => Stage::Finished(Err(RunError::Load(e))),
            (Stage::LoadKey, Event::LoadFailed(e)) => Stage::Finished(Err(RunError::Load(e))),
            (Stage::Verify, Event::Called(o)) => {
                if o.is_verified() {
                    Stage::Finished(Ok(()))
                } else {
                    Stage::Finished(Err(RunError::VerificationFailed))
                }
            },
            (s, _) => s,
        }
    }
}

impl LoadError {
    /// The message of the underlying failure.
    pub open spec fn message_spec(&self) -> Seq<char> {
        match self {
            LoadError::Io(m) => m@,
            LoadError::Parse(m) => m@,
        }
    }

    /// The message of the underlying failure.
    pub fn message(&self) -> (r: String)
        ensures
            r@ == self.message_spec(),
    {
        match self {
            LoadError::Io(m) => m.clone(),
            LoadError::Parse(m) => m.clone(),
        }
    }
}

impl RunError {
    /// The text a run's error is reported with.
    pub open spec fn message_spec(&self) -> Seq<char> {
        match self {
            RunError::Load(e) => e.message_spec(),
            RunError::VerificationFailed => VERIFICATION_FAILED_TEXT@,
        }
    }

    /// The text a run's error is reported with.
    pub fn message(&self) -> (r: String)
        ensures
            r@ == self.message_spec(),
    {
        match self {
            RunError::Load(e) => e.message(),
            RunError::VerificationFailed => String::from_str(VERIFICATION_FAILED_TEXT),
        }
    }
}

/// The last line a run prints, for its result `r`.
pub open spec fn closing_spec(r: Result<(), RunError>) -> Seq<char> {
    match r {
        Ok(()) => COMPLETED_LINE@,
        Err(RunError::VerificationFailed) => FAILED_LINE@,
        Err(RunError::Load(e)) => STOPPED_PREFIX@ + e.message_spec(),
    }
}

/// The last line a run prints, for its result `r`.
pub fn closing_line(r: &Result<(), RunError>) -> (line: String)
    ensures
        line@ == closing_spec(*r),
{
    match r {
        Ok(()) => String::from_str(COMPLETED_LINE),
        Err(RunError::VerificationFailed) => String::from_str(FAILED_LINE),
        Err(RunError::Load(e)) => {
            let m = e.message();
            String::from_str(STOPPED_PREFIX).concat(m.as_str())
        },
    }
}

/// The process exit status for a run's result: zero on success only.
pub fn exit_code(r: &Result<(), RunError>) -> (c: i32)
    ensures
        r is Ok ==> c == 0,
        r is Err ==> c == 1,
{
    match r {
        Ok(()) => 0,
        Err(_) => 1,
    }
}

/// A finished run stays finished, with the same result, whatever is
/// reported after it.
pub proof fn lemma_finished_is_final(r: Result<(), RunError>, events: Seq<Event>)
    ensures
        stage_after(Stage::Finished(r), events) == Stage::Finished(r),
    decreases events.len(),
{
    if events.len() > 0 {
        lemma_finished_is_final(r, events.drop_first());
    }
}

/// A file that cannot be loaded ends the run with that load error: the run
/// never reaches the verifier, and it fails.
pub proof fn lemma_load_failure_stops_run(s: Stage, e: LoadError, events: Seq<Event>)
    requires
        is_loading(s),
    ensures
        stage_after(s, seq![Event::LoadFailed(e)] + events) == Stage::Finished(
            Err(RunError::Load(e)),
        ),
        forall|k: int|
            0 <= k <= events.len() ==> !(#[trigger] stage_after(
                s,
                seq![Event::LoadFailed(e)] + events.take(k),
            ) is Verify),
{
    let first = seq![Event::LoadFailed(e)];
    let fin = Stage::Finished(Err(RunError::Load(e)));
    assert((first + events).drop_first() =~= events);
    lemma_finished_is_final(Err(RunError::Load(e)), events);
    assert forall|k: int| 0 <= k <= events.len() implies !(#[trigger] stage_after(
        s,
        first + events.take(k),
    ) is Verify) by {
        assert((first + events.take(k)).drop_first() =~= events.take(k));
        lemma_finished_is_final(Err(RunError::Load(e)), events.take(k));
    }
}

/// A verifier call that did not accept the proof, whether it refused it or
/// faulted, ends the run as an ordinary failure: the run finishes with
/// `VerificationFailed`, whose exit status is non-zero. Only an accepted proof
/// ends the run with success.
pub proof fn lemma_call_outcome_decides_run(o: Outcome)
    ensures
        !(o is Verified) ==> next_stage(Stage::Verify, Event::Called(o)) == Stage::Finished(
            Err(RunError::VerificationFailed),
        ),
        o is Verified ==> next_stage(Stage::Verify, Event::Called(o)) == Stage::Finished(Ok(())),
{
}

} // verus!
