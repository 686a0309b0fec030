//! One container run: create, start, drain the logs against a time budget,
//! then stop and remove the container whatever happened.
//!
//! The run is a state machine. Whoever drives it performs the action that
//! `step` returns against the engine and feeds back what happened as the
//! next event; the machine decides everything else. Once a container has
//! been created, the machine finishes only after it has asked for the
//! container to be stopped and then removed.

use vstd::prelude::*;
use vstd::utf8::{valid_utf8, decode_utf8};

verus! {

/// What to run.
pub struct ContainerConfig {
    /// The unique name the container is created under.
    pub name: String,
    /// The image reference to create the container from.
    pub image: String,
    /// The command vector; empty means the image's default command.
    pub command: Vec<String>,
    /// Bind mounts, each `host:container[:mode]`.
    pub binds: Vec<String>,
    /// How long the logs may take to drain, in milliseconds.
    pub timeout_ms: u64,
}

/// Why a run produced no result.
pub enum RunError {
    /// The container could not be created or started.
    Launch { message: String },
    /// Reading the logs failed; the output gathered so far is dropped.
    LogStream { message: String },
    /// The logs held bytes that are not UTF-8; reading stopped there.
    UndecodableOutput,
}

impl RunError {
    /// A copy of this error.
    pub fn duplicate(&self) -> (r: RunError)
        ensures
            r == *self,
    {
        match self {
            RunError::Launch { message } => RunError::Launch { message: message.clone() },
            RunError::LogStream { message } => RunError::LogStream { message: message.clone() },
            RunError::UndecodableOutput => RunError::UndecodableOutput,
        }
    }
}

/// What a finished run produced.
pub struct RunResult {
    pub stdout: String,
    pub stderr: String,
    /// Time from start to the end of the drain, or the budget on a timeout.
    pub elapsed_ms: u64,
    /// The logs did not drain within the budget.
    pub timed_out: bool,
}

/// Where a run stands.
#[derive(PartialEq, Eq, Structural, Clone, Copy)]
pub enum Phase {
    Creating,
    Starting,
    Draining,
    Stopping,
    Removing,
    Done,
}

/// The engine call the driver performs next.
#[derive(PartialEq, Eq, Structural, Clone, Copy)]
pub enum RunAction {
    /// Create the container from the configuration.
    Create,
    /// Start the created container.
    Start,
    /// Read the next piece of the logs, racing the time budget.
    ReadLogs,
    /// Stop the container at once, with no grace period.
    Stop,
    /// Remove the container by force.
    Remove,
    /// The run is over; take its outcome.
    Finish,
}

/// What the driver observed after performing an action.
pub enum RunEvent {
    Created,
    CreateFailed { message: String },
    Started,
    StartFailed { message: String },
    /// A piece of standard output, as raw bytes.
    Stdout { bytes: Vec<u8> },
    /// A piece of standard error, as raw bytes.
    Stderr { bytes: Vec<u8> },
    /// A log record of another stream; it is not kept.
    OtherOutput,
    LogFailed { message: String },
    /// The logs ended before the budget ran out.
    Drained { elapsed_ms: u64 },
    /// The budget ran out before the logs ended.
    TimedOut,
    Stopped,
    StopFailed { message: String },
    Removed,
    RemoveFailed { message: String },
}

/// The state of a run as a mathematical value.
pub struct RunModel {
    pub phase: Phase,
    pub stdout: Seq<char>,
    pub stderr: Seq<char>,
    pub error: Option<RunError>,
    pub timed_out: bool,
    pub elapsed_ms: u64,
    pub timeout_ms: u64,
    /// The engine has created the container.
    pub created: bool,
    /// A stop has been asked for.
    pub stop_issued: bool,
    /// A removal has been asked for.
    pub remove_issued: bool,
}

/// What a finished run produced, as a mathematical value.
pub struct RunResultModel {
    pub stdout: Seq<char>,
    pub stderr: Seq<char>,
    pub elapsed_ms: u64,
    pub timed_out: bool,
}

/// The action that a phase waits on.
pub open spec fn pending(phase: Phase) -> RunAction {
    match phase {
        Phase::Creating => RunAction::Create,
        Phase::Starting => RunAction::Start,
        Phase::Draining => RunAction::ReadLogs,
        Phase::Stopping => RunAction::Stop,
        Phase::Removing => RunAction::Remove,
        Phase::Done => RunAction::Finish,
    }
}

impl RunModel {
    /// The state of a run that has done nothing yet.
    pub open spec fn initial(timeout_ms: u64) -> RunModel {
        RunModel {
            phase: Phase::Creating,
            stdout: Seq::empty(),
            stderr: Seq::empty(),
            error: None,
            timed_out: false,
            elapsed_ms: 0,
            timeout_ms,
            created: false,
            stop_issued: false,
            remove_issued: false,
        }
    }

    /// Bookkeeping of the cleanup: each phase knows what has been created
    /// and asked for, and a created container is stopped and removed before
    /// the run is done. Until the drain ends, nothing has failed or timed
    /// out.
    pub open spec fn wf(self) -> bool {
        match self.phase {
            Phase::Creating => !self.created && !self.stop_issued && !self.remove_issued
                && self.error is None && !self.timed_out,
            Phase::Starting | Phase::Draining => self.created && !self.stop_issued
                && !self.remove_issued && self.error is None && !self.timed_out,
            Phase::Stopping => self.created && self.stop_issued && !self.remove_issued,
            Phase::Removing => self.created && self.stop_issued && self.remove_issued,
            Phase::Done => self.created ==> self.stop_issued && self.remove_issued,
        }
    }

    /// Moves to the stopping phase, recording `error` if there is one.
    pub open spec fn begin_cleanup(self, error: Option<RunError>) -> RunModel {
        RunModel { phase: Phase::Stopping, error, stop_issued: true, ..self }
    }

    /// The state after `e`. An event that does not fit the phase changes
    /// nothing.
    pub open spec fn next(self, e: RunEvent) -> RunModel {
        match (self.phase, e) {
            (Phase::Creating, RunEvent::Created) => RunModel {
                phase: Phase::Starting,
                created: true,
                ..self
            },
            (Phase::Creating, RunEvent::CreateFailed { message }) => RunModel {
                phase: Phase::Done,
                error: Some(RunError::Launch { message }),
                ..self
            },
            (Phase::Starting, RunEvent::Started) => RunModel { phase: Phase::Draining, ..self },
            (Phase::Starting, RunEvent::StartFailed { message }) => self.begin_cleanup(
                Some(RunError::Launch { message }),
            ),
            (Phase::Draining, RunEvent::Stdout { bytes }) => if valid_utf8(bytes@) {
                RunModel { stdout: self.stdout + decode_utf8(bytes@), ..self }
            } else {
                self.begin_cleanup(Some(RunError::UndecodableOutput))
            },
            (Phase::Draining, RunEvent::Stderr { bytes }) => if valid_utf8(bytes@) {
                RunModel { stderr: self.stderr + decode_utf8(bytes@), ..self }
            } else {
                self.begin_cleanup(Some(RunError::UndecodableOutput))
            },
            (Phase::Draining, RunEvent::LogFailed { message }) => self.begin_cleanup(
                Some(RunError::LogStream { message }),
            ),
            (Phase::Draining, RunEvent::Drained { elapsed_ms }) => RunModel {
                elapsed_ms,
                ..self.begin_cleanup(None)
            },
            (Phase::Draining, RunEvent::TimedOut) => RunModel {
                timed_out: true,
                elapsed_ms: self.timeout_ms,
                ..self.begin_cleanup(None)
            },
            (Phase::Stopping, RunEvent::Stopped) | (Phase::Stopping, RunEvent::StopFailed { .. }) =>
                RunModel { phase: Phase::Removing, remove_issued: true, ..self },
            (Phase::Removing, RunEvent::Removed) | (Phase::Removing, RunEvent::RemoveFailed { .. }) =>
                RunModel { phase: Phase::Done, ..self },
            _ => self,
        }
    }

    /// What a run that is done returns.
    pub open spec fn outcome(self) -> Result<RunResultModel, RunError> {
        match self.error {
            Some(e) => Err(e),
            None => Ok(
                RunResultModel {
                    stdout: self.stdout,
                    stderr: self.stderr,
                    elapsed_ms: self.elapsed_ms,
                    timed_out: self.timed_out,
                },
            ),
        }
    }
}

/// A container run in progress.
pub struct ContainerRun {
    config: ContainerConfig,
    phase: Phase,
    stdout: String,
    stderr: String,
    error: Option<RunError>,
    timed_out: bool,
    elapsed_ms: u64,
    created: bool,
    stop_issued: bool,
    remove_issued: bool,
}

impl View for ContainerRun {
    type V = RunModel;

    closed spec fn view(&self) -> RunModel {
        RunModel {
            phase: self.phase,
            stdout: self.stdout@,
            stderr: self.stderr@,
            error: self.error,
            timed_out: self.timed_out,
            elapsed_ms: self.elapsed_ms,
            timeout_ms: self.config.timeout_ms,
            created: self.created,
            stop_issued: self.stop_issued,
            remove_issued: self.remove_issued,
        }
    }
}

impl ContainerRun {
    /// The configuration the run was made with.
    pub closed spec fn config(&self) -> ContainerConfig {
        self.config
    }

    /// A run of `config` that has done nothing yet.
    pub fn new(config: ContainerConfig) -> (r: ContainerRun)
        ensures
            r@ == RunModel::initial(config.timeout_ms),
            r.config() == config,
    {
        ContainerRun {
            config,
            phase: Phase::Creating,
            stdout: String::new(),
            stderr: String::new(),
            error: None,
            timed_out: false,
            elapsed_ms: 0,
            created: false,
            stop_issued: false,
            remove_issued: false,
        }
    }

    /// The configuration, for the driver to create the container from.
    pub fn settings(&self) -> (r: &ContainerConfig)
        ensures
            *r == self.config(),
    {
        &self.config
    }

    /// The action the run waits on.
    pub fn next_action(&self) -> (r: RunAction)
        ensures
            r == pending(self@.phase),
    {
        match self.phase {
            Phase::Creating => RunAction::Create,
            Phase::Starting => RunAction::Start,
            Phase::Draining => RunAction::ReadLogs,
            Phase::Stopping => RunAction::Stop,
            Phase::Removing => RunAction::Remove,
            Phase::Done => RunAction::Finish,
        }
    }

    fn begin_cleanup(&mut self, error: Option<RunError>)
        ensures
            final(self)@ == old(self)@.begin_cleanup(error),
            final(self).config() == old(self).config(),
    {
        self.phase = Phase::Stopping;
        self.error = error;
        self.stop_issued = true;
    }

    /// The error the run has ended with, if any.
    pub fn failure(&self) -> (r: Option<RunError>)
        ensures
            r == self@.error,
    {
        match &self.error {
            Some(e) => Some(e.duplicate()),
            None => None,
        }
    }

    /// Takes in what happened and returns the next action.
    pub fn step(&mut self, e: RunEvent) -> (r: RunAction)
        requires
            old(self)@.wf(),
        ensures
            final(self)@ == old(self)@.next(e),
            final(self)@.wf(),
            final(self).config() == old(self).config(),
            r == pending(final(self)@.phase),
    {
        match (self.phase, e) {
            (Phase::Creating, RunEvent::Created) => {
                self.phase = Phase::Starting;
                self.created = true;
            },
            (Phase::Creating, RunEvent::CreateFailed { message }) => {
                self.phase = Phase::Done;
                self.error = Some(RunError::Launch { message });
            },
            (Phase::Starting, RunEvent::Started) => {
                self.phase = Phase::Draining;
            },
            (Phase::Starting, RunEvent::StartFailed { message }) => {
                self.begin_cleanup(Some(RunError::Launch { message }));
            },
            (Phase::Draining, RunEvent::Stdout { bytes }) => match decode_text(bytes.as_slice()) {
                Some(text) => self.stdout.append(text.as_str()),
                None => self.begin_cleanup(Some(RunError::UndecodableOutput)),
            },
            (Phase::Draining, RunEvent::Stderr { bytes }) => match decode_text(bytes.as_slice()) {
                Some(text) => self.stderr.append(text.as_str()),
                None => self.begin_cleanup(Some(RunError::UndecodableOutput)),
            },
            (Phase::Draining, RunEvent::LogFailed { message }) => {
                self.begin_cleanup(Some(RunError::LogStream { message }));
            },
            (Phase::Draining, RunEvent::Drained { elapsed_ms }) => {
                self.begin_cleanup(None);
                self.elapsed_ms = elapsed_ms;
            },
            (Phase::Draining, RunEvent::TimedOut) => {
                self.begin_cleanup(None);
                self.timed_out = true;
                self.elapsed_ms = self.config.timeout_ms;
            },
            (Phase::Stopping, RunEvent::Stopped) | (Phase::Stopping, RunEvent::StopFailed { .. }) => {
                self.phase = Phase::Removing;
                self.remove_issued = true;
            },
            (Phase::Removing, RunEvent::Removed) | (Phase::Removing, RunEvent::RemoveFailed { .. }) => {
                self.phase = Phase::Done;
            },
            _ => {},
        }
        self.next_action()
    }

    /// The outcome of a run that is done.
    pub fn finish(self) -> (r: Result<RunResult, RunError>)
        requires
            self@.phase == Phase::Done,
        ensures
            match self@.outcome() {
                Ok(m) => r is Ok && r->Ok_0.stdout@ == m.stdout && r->Ok_0.stderr@ == m.stderr
                    && r->Ok_0.elapsed_ms == m.elapsed_ms && r->Ok_0.timed_out == m.timed_out,
                Err(e) => r == Err::<RunResult, RunError>(e),
            },
    {
        match self.error {
            Some(e) => Err(e),
            None => Ok(
                RunResult {
                    stdout: self.stdout,
                    stderr: self.stderr,
                    elapsed_ms: self.elapsed_ms,
                    timed_out: self.timed_out,
                },
            ),
        }
    }
}

proof fn lemma_wf_kept(m: RunModel, events: Seq<RunEvent>)
    requires
        m.wf(),
    ensures
        run_after(m, events).wf(),
    decreases events.len(),
{
    if events.len() > 0 {
        lemma_wf_kept(m, events.drop_last());
    }
}

/// Whatever the engine reports, a run that created its container is done
/// only after it has asked for the container to be stopped and then
/// removed; a run whose container was never created is done at once.
pub proof fn law_cleanup_before_finish(timeout_ms: u64, events: Seq<RunEvent>)
    ensures
        ({
            let m = run_after(RunModel::initial(timeout_ms), events);
            m.phase == Phase::Done && m.created ==> m.stop_issued && m.remove_issued
        }),
        ({
            let m = run_after(RunModel::initial(timeout_ms), events);
            m.phase == Phase::Removing ==> m.stop_issued
        }),
{
    lemma_wf_kept(RunModel::initial(timeout_ms), events);
}

proof fn lemma_cleanup_keeps_outcome(m: RunModel, events: Seq<RunEvent>)
    requires
        m.phase == Phase::Stopping || m.phase == Phase::Removing || m.phase == Phase::Done,
    ensures
        ({
            let f = run_after(m, events);
            &&& f.phase == Phase::Stopping || f.phase == Phase::Removing || f.phase == Phase::Done
            &&& f.stdout == m.stdout
            &&& f.stderr == m.stderr
            &&& f.error == m.error
            &&& f.timed_out == m.timed_out
            &&& f.elapsed_ms == m.elapsed_ms
        }),
    decreases events.len(),
{
    if events.len() > 0 {
        lemma_cleanup_keeps_outcome(m, events.drop_last());
    }
}

/// When the budget runs out while the logs are draining, the run ends as
/// timed out, with the budget as its elapsed time and exactly the output
/// captured up to then, whatever the stop and removal report.
pub proof fn law_timeout_keeps_captured_output(m: RunModel, rest: Seq<RunEvent>)
    requires
        m.wf(),
        m.phase == Phase::Draining,
    ensures
        ({
            let f = run_after(m.next(RunEvent::TimedOut), rest);
            f.phase == Phase::Done ==> f.outcome() == Ok::<RunResultModel, RunError>(
                RunResultModel {
                    stdout: m.stdout,
                    stderr: m.stderr,
                    elapsed_ms: m.timeout_ms,
                    timed_out: true,
                },
            )
        }),
{
    lemma_cleanup_keeps_outcome(m.next(RunEvent::TimedOut), rest);
}

/// When the logs drain within the budget, the run ends not timed out,
/// with the drain time and all the output read.
pub proof fn law_drain_keeps_output(m: RunModel, elapsed_ms: u64, rest: Seq<RunEvent>)
    requires
        m.wf(),
        m.phase == Phase::Draining,
    ensures
        ({
            let f = run_after(m.next(RunEvent::Drained { elapsed_ms }), rest);
            f.phase == Phase::Done ==> f.outcome() == Ok::<RunResultModel, RunError>(
                RunResultModel {
                    stdout: m.stdout,
                    stderr: m.stderr,
                    elapsed_ms,
                    timed_out: false,
                },
            )
        }),
{
    lemma_cleanup_keeps_outcome(m.next(RunEvent::Drained { elapsed_ms }), rest);
}

/// The state after reading `events` in order, from `m`.
pub open spec fn run_after(m: RunModel, events: Seq<RunEvent>) -> RunModel
    decreases events.len(),
{
    if events.len() == 0 {
        m
    } else {
        run_after(m, events.drop_last()).next(events.last())
    }
}

/// A log record that reading goes on after: decodable standard output or
/// error, or a record of another stream.
pub open spec fn is_log_record(e: RunEvent) -> bool {
    match e {
        RunEvent::Stdout { bytes } => valid_utf8(bytes@),
        RunEvent::Stderr { bytes } => valid_utf8(bytes@),
        RunEvent::OtherOutput => true,
        _ => false,
    }
}

/// The standard output that the records of `events` carry, in order.
pub open spec fn stdout_text(events: Seq<RunEvent>) -> Seq<char>
    decreases events.len(),
{
    if events.len() == 0 {
        Seq::empty()
    } else {
        stdout_text(events.drop_last()) + match events.last() {
            RunEvent::Stdout { bytes } => decode_utf8(bytes@),
            _ => Seq::empty(),
        }
    }
}

/// The standard error that the records of `events` carry, in order.
pub open spec fn stderr_text(events: Seq<RunEvent>) -> Seq<char>
    decreases events.len(),
{
    if events.len() == 0 {
        Seq::empty()
    } else {
        stderr_text(events.drop_last()) + match events.last() {
            RunEvent::Stderr { bytes } => decode_utf8(bytes@),
            _ => Seq::empty(),
        }
    }
}

proof fn lemma_records_accumulate(m: RunModel, frames: Seq<RunEvent>)
    requires
        m.wf(),
        m.phase == Phase::Draining,
        forall|i: int| 0 <= i < frames.len() ==> is_log_record(#[trigger] frames[i]),
    ensures
        ({
            let d = run_after(m, frames);
            &&& d.wf()
            &&& d.phase == Phase::Draining
            &&& d.stdout == m.stdout + stdout_text(frames)
            &&& d.stderr == m.stderr + stderr_text(frames)
            &&& d.timeout_ms == m.timeout_ms
        }),
    decreases frames.len(),
{
    if frames.len() > 0 {
        let p = frames.drop_last();
        assert forall|i: int| 0 <= i < p.len() implies is_log_record(#[trigger] p[i]) by {
            assert(p[i] == frames[i]);
        };
        assert(is_log_record(frames[frames.len() - 1]));
        lemma_records_accumulate(m, p);
        assert((m.stdout + stdout_text(p)) + match frames.last() {
            RunEvent::Stdout { bytes } => decode_utf8(bytes@),
            _ => Seq::<char>::empty(),
        } =~= m.stdout + stdout_text(frames));
        assert((m.stderr + stderr_text(p)) + match frames.last() {
            RunEvent::Stderr { bytes } => decode_utf8(bytes@),
            _ => Seq::<char>::empty(),
        } =~= m.stderr + stderr_text(frames));
    }
}

/// When the budget runs out after the log records `frames`, the run ends
/// timed out with the budget as its elapsed time, and its output is the
/// output before them followed by exactly what those records carried, in
/// order; nothing read later counts.
pub proof fn law_timeout_output_is_records_read(
    m: RunModel,
    frames: Seq<RunEvent>,
    rest: Seq<RunEvent>,
)
    requires
        m.wf(),
        m.phase == Phase::Draining,
        forall|i: int| 0 <= i < frames.len() ==> is_log_record(#[trigger] frames[i]),
    ensures
        ({
            let f = run_after(run_after(m, frames).next(RunEvent::TimedOut), rest);
            f.phase == Phase::Done ==> f.outcome() == Ok::<RunResultModel, RunError>(
                RunResultModel {
                    stdout: m.stdout + stdout_text(frames),
                    stderr: m.stderr + stderr_text(frames),
                    elapsed_ms: m.timeout_ms,
                    timed_out: true,
                },
            )
        }),
{
    lemma_records_accumulate(m, frames);
    law_timeout_keeps_captured_output(run_after(m, frames), rest);
}

/// Relies on `std::str::from_utf8`: it accepts exactly the well-formed
/// UTF-8 byte sequences and decodes them scalar by scalar.
#[verifier::external_body]
fn decode_text(bytes: &[u8]) -> (r: Option<String>)
    ensures
        r is Some <==> valid_utf8(bytes@),
        r is Some ==> r->0@ == decode_utf8(bytes@),
{
    std::str::from_utf8(bytes).ok().map(|s| s.to_string())
}

} // verus!
