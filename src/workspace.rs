//! A script run: a fresh workspace directory on the host receives the
//! source, a container runs it with the workspace mounted, the output file
//! is read back, and the files and the directory are removed whatever
//! happened before.
//!
//! Like a container run, the session is a state machine driven from
//! outside; a container run is nested inside it.

use vstd::prelude::*;
use crate::naming::{
    input_file, is_token, make_input_file, make_output_file, make_workspace_dir, output_file,
    workspace_dir, container_name, fresh_token,
};
use crate::runner::{
    pending, ContainerConfig, ContainerRun, Phase, RunAction, RunError, RunEvent, RunModel, RunResult,
    RunResultModel,
};
use crate::sandbox::{is_script_command, script_config, workspace_bind, RUN_TIMEOUT_MS};

verus! {

/// Why a script run produced no result.
pub enum ScriptError {
    /// A host file-system step failed.
    Io { message: String },
    /// The container run failed.
    Run { error: RunError },
    /// The run left no output file.
    MissingOutput,
}

/// Where a script run stands.
#[derive(PartialEq, Eq, Structural, Clone, Copy)]
pub enum ScriptPhase {
    MakingDir,
    WritingInput,
    Running,
    ReadingOutput,
    RemovingInput,
    RemovingOutput,
    RemovingDir,
    Done,
}

/// The step the driver performs next.
#[derive(PartialEq, Eq, Structural, Clone, Copy)]
pub enum ScriptAction {
    /// Create the workspace directory.
    MakeDir,
    /// Write the source to the input file, replacing it if present.
    WriteInput,
    /// Perform an action of the nested container run.
    Container { action: RunAction },
    /// Read the output file.
    ReadOutput,
    /// Remove the input file.
    RemoveInput,
    /// Remove the output file.
    RemoveOutput,
    /// Remove the workspace directory and whatever is left in it.
    RemoveDir,
    /// The session is over; take its outcome.
    Finish,
}

/// What the driver observed after a step.
pub enum ScriptEvent {
    DirMade,
    DirFailed { message: String },
    InputWritten,
    InputFailed { message: String },
    /// An event of the nested container run.
    Container { event: RunEvent },
    OutputRead { text: String },
    /// The output file does not exist.
    OutputMissing,
    OutputFailed { message: String },
    /// The removal step succeeded.
    Removed,
    /// The removal step failed; the driver reports it, the session goes on.
    RemoveFailed { message: String },
}

/// The state of a script run as a mathematical value.
pub struct ScriptModel {
    pub phase: ScriptPhase,
    pub run: RunModel,
    pub error: Option<ScriptError>,
    /// The text read from the output file.
    pub output: Seq<char>,
    pub dir_made: bool,
    pub input_removal_issued: bool,
    pub output_removal_issued: bool,
    pub dir_removal_issued: bool,
}

/// The step that a session waits on.
pub open spec fn script_pending(phase: ScriptPhase, run: RunModel) -> ScriptAction {
    match phase {
        ScriptPhase::MakingDir => ScriptAction::MakeDir,
        ScriptPhase::WritingInput => ScriptAction::WriteInput,
        ScriptPhase::Running => ScriptAction::Container { action: pending(run.phase) },
        ScriptPhase::ReadingOutput => ScriptAction::ReadOutput,
        ScriptPhase::RemovingInput => ScriptAction::RemoveInput,
        ScriptPhase::RemovingOutput => ScriptAction::RemoveOutput,
        ScriptPhase::RemovingDir => ScriptAction::RemoveDir,
        ScriptPhase::Done => ScriptAction::Finish,
    }
}

impl ScriptModel {
    /// A session that has done nothing yet.
    pub open spec fn initial() -> ScriptModel {
        ScriptModel {
            phase: ScriptPhase::MakingDir,
            run: RunModel::initial(RUN_TIMEOUT_MS),
            error: None,
            output: Seq::empty(),
            dir_made: false,
            input_removal_issued: false,
            output_removal_issued: false,
            dir_removal_issued: false,
        }
    }

    /// Bookkeeping of the teardown: once the directory exists, the session
    /// is done only after removing the input file, the output file and the
    /// directory; the container run is either untouched or done.
    pub open spec fn wf(self) -> bool {
        &&& self.run.wf()
        &&& match self.phase {
            ScriptPhase::MakingDir => !self.dir_made && !self.input_removal_issued
                && !self.output_removal_issued && !self.dir_removal_issued && self.error is None
                && self.run.phase == Phase::Creating,
            ScriptPhase::WritingInput => self.dir_made && !self.input_removal_issued
                && !self.output_removal_issued && !self.dir_removal_issued && self.error is None
                && self.run.phase == Phase::Creating,
            ScriptPhase::Running => self.dir_made && !self.input_removal_issued
                && !self.output_removal_issued && !self.dir_removal_issued && self.error is None
                && self.run.phase != Phase::Done,
            ScriptPhase::ReadingOutput => self.dir_made && !self.input_removal_issued
                && !self.output_removal_issued && !self.dir_removal_issued && self.error is None
                && self.run.phase == Phase::Done && self.run.error is None,
            ScriptPhase::RemovingInput => self.dir_made && self.input_removal_issued
                && !self.output_removal_issued && !self.dir_removal_issued,
            ScriptPhase::RemovingOutput => self.dir_made && self.input_removal_issued
                && self.output_removal_issued && !self.dir_removal_issued,
            ScriptPhase::RemovingDir => self.dir_made && self.input_removal_issued
                && self.output_removal_issued && self.dir_removal_issued,
            ScriptPhase::Done => self.dir_made ==> self.input_removal_issued
                && self.output_removal_issued && self.dir_removal_issued,
        }
        &&& (self.phase == ScriptPhase::RemovingInput || self.phase == ScriptPhase::RemovingOutput
            || self.phase == ScriptPhase::RemovingDir || self.phase == ScriptPhase::Done) ==> {
            &&& self.run.phase == Phase::Done || self.run.phase == Phase::Creating
            &&& self.error is None ==> self.run.phase == Phase::Done && self.run.error is None
        }
    }

    /// Moves to the teardown, recording `error` if there is one.
    pub open spec fn begin_teardown(self, error: Option<ScriptError>) -> ScriptModel {
        ScriptModel {
            phase: ScriptPhase::RemovingInput,
            error,
            input_removal_issued: true,
            ..self
        }
    }

    /// The state after `e`. An event that does not fit the phase changes
    /// nothing.
    pub open spec fn next(self, e: ScriptEvent) -> ScriptModel {
        match (self.phase, e) {
            (ScriptPhase::MakingDir, ScriptEvent::DirMade) => ScriptModel {
                phase: ScriptPhase::WritingInput,
                dir_made: true,
                ..self
            },
            (ScriptPhase::MakingDir, ScriptEvent::DirFailed { message }) => ScriptModel {
                phase: ScriptPhase::Done,
                error: Some(ScriptError::Io { message }),
                ..self
            },
            (ScriptPhase::WritingInput, ScriptEvent::InputWritten) => ScriptModel {
                phase: ScriptPhase::Running,
                ..self
            },
            (ScriptPhase::WritingInput, ScriptEvent::InputFailed { message }) => self.begin_teardown(
                Some(ScriptError::Io { message }),
            ),
            (ScriptPhase::Running, ScriptEvent::Container { event }) => {
                let run = self.run.next(event);
                if run.phase == Phase::Done {
                    match run.error {
                        None => ScriptModel { phase: ScriptPhase::ReadingOutput, run, ..self },
                        Some(error) => ScriptModel {
                            run,
                            ..self.begin_teardown(Some(ScriptError::Run { error }))
                        },
                    }
                } else {
                    ScriptModel { run, ..self }
                }
            },
            (ScriptPhase::ReadingOutput, ScriptEvent::OutputRead { text }) => ScriptModel {
                output: text@,
                ..self.begin_teardown(None)
            },
            (ScriptPhase::ReadingOutput, ScriptEvent::OutputMissing) => self.begin_teardown(
                Some(ScriptError::MissingOutput),
            ),
            (ScriptPhase::ReadingOutput, ScriptEvent::OutputFailed { message }) => self.begin_teardown(
                Some(ScriptError::Io { message }),
            ),
            (ScriptPhase::RemovingInput, ScriptEvent::Removed)
            | (ScriptPhase::RemovingInput, ScriptEvent::RemoveFailed { .. }) => ScriptModel {
                phase: ScriptPhase::RemovingOutput,
                output_removal_issued: true,
                ..self
            },
            (ScriptPhase::RemovingOutput, ScriptEvent::Removed)
            | (ScriptPhase::RemovingOutput, ScriptEvent::RemoveFailed { .. }) => ScriptModel {
                phase: ScriptPhase::RemovingDir,
                dir_removal_issued: true,
                ..self
            },
            (ScriptPhase::RemovingDir, ScriptEvent::Removed)
            | (ScriptPhase::RemovingDir, ScriptEvent::RemoveFailed { .. }) => ScriptModel {
                phase: ScriptPhase::Done,
                ..self
            },
            _ => self,
        }
    }

    /// What a session that is done returns: the output file's text as
    /// standard output, and the rest from the container run.
    pub open spec fn outcome(self) -> Result<RunResultModel, ScriptError> {
        match self.error {
            Some(e) => Err(e),
            None => Ok(
                RunResultModel {
                    stdout: self.output,
                    stderr: self.run.stderr,
                    elapsed_ms: self.run.elapsed_ms,
                    timed_out: self.run.timed_out,
                },
            ),
        }
    }
}

/// The state after reading `events` in order, from `m`.
pub open spec fn script_after(m: ScriptModel, events: Seq<ScriptEvent>) -> ScriptModel
    decreases events.len(),
{
    if events.len() == 0 {
        m
    } else {
        script_after(m, events.drop_last()).next(events.last())
    }
}

/// A script run in progress.
pub struct ScriptSession {
    dir: String,
    input_path: String,
    output_path: String,
    source: String,
    phase: ScriptPhase,
    run: ContainerRun,
    error: Option<ScriptError>,
    output: String,
    dir_made: bool,
    input_removal_issued: bool,
    output_removal_issued: bool,
    dir_removal_issued: bool,
}

impl View for ScriptSession {
    type V = ScriptModel;

    closed spec fn view(&self) -> ScriptModel {
        ScriptModel {
            phase: self.phase,
            run: self.run@,
            error: self.error,
            output: self.output@,
            dir_made: self.dir_made,
            input_removal_issued: self.input_removal_issued,
            output_removal_issued: self.output_removal_issued,
            dir_removal_issued: self.dir_removal_issued,
        }
    }
}

impl ScriptSession {
    /// The workspace directory.
    pub closed spec fn dir(&self) -> Seq<char> {
        self.dir@
    }

    /// The script's source.
    pub closed spec fn source(&self) -> Seq<char> {
        self.source@
    }

    /// The path of the input file.
    pub closed spec fn input_path(&self) -> Seq<char> {
        self.input_path@
    }

    /// The path of the output file.
    pub closed spec fn output_path(&self) -> Seq<char> {
        self.output_path@
    }

    /// The configuration of the nested container run.
    pub closed spec fn run_config(&self) -> ContainerConfig {
        self.run.config()
    }

    /// A session that runs `source` in a workspace under `base_dir` named
    /// with `token`.
    pub fn new(base_dir: &str, source: String, token: &str) -> (r: ScriptSession)
        ensures
            r@ == ScriptModel::initial(),
            r@.wf(),
            r.dir() == workspace_dir(base_dir@, token@),
            r.input_path() == input_file(r.dir()),
            r.output_path() == output_file(r.dir()),
            r.source() == source@,
            r.run_config().name@ == container_name("python"@, token@),
            is_script_command(r.run_config().command@),
            r.run_config().binds@.len() == 1,
            r.run_config().binds@[0]@ == workspace_bind(r.dir()),
    {
        let dir = make_workspace_dir(base_dir, token);
        let input_path = make_input_file(dir.as_str());
        let output_path = make_output_file(dir.as_str());
        let run = ContainerRun::new(script_config(dir.as_str(), token));
        ScriptSession {
            dir,
            input_path,
            output_path,
            source,
            phase: ScriptPhase::MakingDir,
            run,
            error: None,
            output: String::new(),
            dir_made: false,
            input_removal_issued: false,
            output_removal_issued: false,
            dir_removal_issued: false,
        }
    }

    /// A session for `source` in a fresh workspace under `base_dir`.
    pub fn start(base_dir: &str, source: String) -> (r: ScriptSession)
        ensures
            r@ == ScriptModel::initial(),
            r@.wf(),
            exists|t: Seq<char>|
                is_token(t) && r.dir() == #[trigger] workspace_dir(base_dir@, t)
                    && r.run_config().name@ == container_name("python"@, t),
            r.input_path() == input_file(r.dir()),
            r.output_path() == output_file(r.dir()),
            r.source() == source@,
            is_script_command(r.run_config().command@),
    {
        let token = fresh_token();
        ScriptSession::new(base_dir, source, token.as_str())
    }

    /// The workspace directory.
    pub fn dir_path(&self) -> (r: &str)
        ensures
            r@ == self.dir(),
    {
        self.dir.as_str()
    }

    /// The path of the input file.
    pub fn input_file_path(&self) -> (r: &str)
        ensures
            r@ == self.input_path(),
    {
        self.input_path.as_str()
    }

    /// The path of the output file.
    pub fn output_file_path(&self) -> (r: &str)
        ensures
            r@ == self.output_path(),
    {
        self.output_path.as_str()
    }

    /// The script's source, to be written to the input file.
    pub fn source_text(&self) -> (r: &str)
        ensures
            r@ == self.source(),
    {
        self.source.as_str()
    }

    /// The configuration of the nested container run.
    pub fn container_settings(&self) -> (r: &ContainerConfig)
        ensures
            *r == self.run_config(),
    {
        self.run.settings()
    }

    /// The step the session waits on.
    pub fn next_action(&self) -> (r: ScriptAction)
        ensures
            r == script_pending(self@.phase, self@.run),
    {
        match self.phase {
            ScriptPhase::MakingDir => ScriptAction::MakeDir,
            ScriptPhase::WritingInput => ScriptAction::WriteInput,
            ScriptPhase::Running => ScriptAction::Container { action: self.run.next_action() },
            ScriptPhase::ReadingOutput => ScriptAction::ReadOutput,
            ScriptPhase::RemovingInput => ScriptAction::RemoveInput,
            ScriptPhase::RemovingOutput => ScriptAction::RemoveOutput,
            ScriptPhase::RemovingDir => ScriptAction::RemoveDir,
            ScriptPhase::Done => ScriptAction::Finish,
        }
    }

    fn begin_teardown(&mut self, error: Option<ScriptError>)
        ensures
            final(self)@ == old(self)@.begin_teardown(error),
            final(self).dir() == old(self).dir(),
            final(self).input_path() == old(self).input_path(),
            final(self).output_path() == old(self).output_path(),
            final(self).source() == old(self).source(),
            final(self).run_config() == old(self).run_config(),
    {
        self.phase = ScriptPhase::RemovingInput;
        self.error = error;
        self.input_removal_issued = true;
    }

    /// Takes in what happened and returns the next step.
    pub fn step(&mut self, e: ScriptEvent) -> (r: ScriptAction)
        requires
            old(self)@.wf(),
        ensures
            final(self)@ == old(self)@.next(e),
            final(self)@.wf(),
            final(self).dir() == old(self).dir(),
            final(self).input_path() == old(self).input_path(),
            final(self).output_path() == old(self).output_path(),
            final(self).source() == old(self).source(),
            final(self).run_config() == old(self).run_config(),
            r == script_pending(final(self)@.phase, final(self)@.run),
    {
        match (self.phase, e) {
            (ScriptPhase::MakingDir, ScriptEvent::DirMade) => {
                self.phase = ScriptPhase::WritingInput;
                self.dir_made = true;
            },
            (ScriptPhase::MakingDir, ScriptEvent::DirFailed { message }) => {
                self.phase = ScriptPhase::Done;
                self.error = Some(ScriptError::Io { message });
            },
            (ScriptPhase::WritingInput, ScriptEvent::InputWritten) => {
                self.phase = ScriptPhase::Running;
            },
            (ScriptPhase::WritingInput, ScriptEvent::InputFailed { message }) => {
                self.begin_teardown(Some(ScriptError::Io { message }));
            },
            (ScriptPhase::Running, ScriptEvent::Container { event }) => {
                let action = self.run.step(event);
                if action == RunAction::Finish {
                    match self.run.failure() {
                        None => {
                            self.phase = ScriptPhase::ReadingOutput;
                        },
                        Some(error) => {
                            self.begin_teardown(Some(ScriptError::Run { error }));
                        },
                    }
                }
            },
            (ScriptPhase::ReadingOutput, ScriptEvent::OutputRead { text }) => {
                self.begin_teardown(None);
                self.output = text;
            },
            (ScriptPhase::ReadingOutput, ScriptEvent::OutputMissing) => {
                self.begin_teardown(Some(ScriptError::MissingOutput));
            },
            (ScriptPhase::ReadingOutput, ScriptEvent::OutputFailed { message }) => {
                self.begin_teardown(Some(ScriptError::Io { message }));
            },
            (ScriptPhase::RemovingInput, ScriptEvent::Removed)
            | (ScriptPhase::RemovingInput, ScriptEvent::RemoveFailed { .. }) => {
                self.phase = ScriptPhase::RemovingOutput;
                self.output_removal_issued = true;
            },
            (ScriptPhase::RemovingOutput, ScriptEvent::Removed)
            | (ScriptPhase::RemovingOutput, ScriptEvent::RemoveFailed { .. }) => {
                self.phase = ScriptPhase::RemovingDir;
                self.dir_removal_issued = true;
            },
            (ScriptPhase::RemovingDir, ScriptEvent::Removed)
            | (ScriptPhase::RemovingDir, ScriptEvent::RemoveFailed { .. }) => {
                self.phase = ScriptPhase::Done;
            },
            _ => {},
        }
        self.next_action()
    }

    /// The outcome of a session that is done.
    pub fn finish(self) -> (r: Result<RunResult, ScriptError>)
        requires
            self@.wf(),
            self@.phase == ScriptPhase::Done,
        ensures
            match self@.outcome() {
                Ok(m) => r is Ok && r->Ok_0.stdout@ == m.stdout && r->Ok_0.stderr@ == m.stderr
                    && r->Ok_0.elapsed_ms == m.elapsed_ms && r->Ok_0.timed_out == m.timed_out,
                Err(e) => r == Err::<RunResult, ScriptError>(e),
            },
    {
        match self.error {
            Some(e) => Err(e),
            None => match self.run.finish() {
                Ok(result) => Ok(
                    RunResult {
                        stdout: self.output,
                        stderr: result.stderr,
                        elapsed_ms: result.elapsed_ms,
                        timed_out: result.timed_out,
                    },
                ),
                Err(e) => Err(ScriptError::Run { error: e }),
            },
        }
    }
}

proof fn lemma_script_wf_kept(m: ScriptModel, events: Seq<ScriptEvent>)
    requires
        m.wf(),
    ensures
        script_after(m, events).wf(),
    decreases events.len(),
{
    if events.len() > 0 {
        lemma_script_wf_kept(m, events.drop_last());
    }
}

/// Whatever the host and the engine report, a script run that made its
/// workspace directory is done only after asking to remove the input file,
/// the output file and the directory; and a script run that created a
/// container is done only after asking for it to be stopped and removed.
pub proof fn law_teardown_before_finish(events: Seq<ScriptEvent>)
    ensures
        ({
            let m = script_after(ScriptModel::initial(), events);
            m.phase == ScriptPhase::Done ==> {
                &&& m.dir_made ==> m.input_removal_issued && m.output_removal_issued
                    && m.dir_removal_issued
                &&& m.run.created ==> m.run.stop_issued && m.run.remove_issued
            }
        }),
{
    lemma_script_wf_kept(ScriptModel::initial(), events);
}

proof fn lemma_teardown_keeps_outcome(m: ScriptModel, events: Seq<ScriptEvent>)
    requires
        m.phase == ScriptPhase::RemovingInput || m.phase == ScriptPhase::RemovingOutput
            || m.phase == ScriptPhase::RemovingDir || m.phase == ScriptPhase::Done,
    ensures
        ({
            let f = script_after(m, events);
            &&& f.phase == ScriptPhase::RemovingInput || f.phase == ScriptPhase::RemovingOutput
                || f.phase == ScriptPhase::RemovingDir || f.phase == ScriptPhase::Done
            &&& f.error == m.error
            &&& f.output == m.output
            &&& f.run == m.run
            &&& f.dir_made == m.dir_made
        }),
    decreases events.len(),
{
    if events.len() > 0 {
        lemma_teardown_keeps_outcome(m, events.drop_last());
    }
}

/// When the container run of a script fails, the session still tears the
/// workspace down, and then returns exactly that failure.
pub proof fn law_failed_run_is_reported(m: ScriptModel, e: RunEvent, rest: Seq<ScriptEvent>)
    requires
        m.wf(),
        m.phase == ScriptPhase::Running,
        m.run.next(e).phase == Phase::Done,
        m.run.next(e).error is Some,
    ensures
        ({
            let f = script_after(m.next(ScriptEvent::Container { event: e }), rest);
            f.phase == ScriptPhase::Done ==> {
                &&& f.outcome() == Err::<RunResultModel, ScriptError>(
                    ScriptError::Run { error: m.run.next(e).error->0 },
                )
                &&& f.input_removal_issued && f.output_removal_issued && f.dir_removal_issued
            }
        }),
{
    let t = m.next(ScriptEvent::Container { event: e });
    assert(t.wf());
    lemma_teardown_keeps_outcome(t, rest);
    lemma_script_wf_kept(t, rest);
}

/// Once the output file has been read, the session's standard output is
/// exactly that file's text, and the rest of the result is the container
/// run's: its standard error, its elapsed time and whether it timed out.
/// Nothing else reaches the result, whatever the teardown reports.
pub proof fn law_output_is_own_file(m: ScriptModel, text: String, rest: Seq<ScriptEvent>)
    requires
        m.wf(),
        m.phase == ScriptPhase::ReadingOutput,
    ensures
        ({
            let f = script_after(m.next(ScriptEvent::OutputRead { text }), rest);
            f.phase == ScriptPhase::Done ==> f.outcome() == Ok::<RunResultModel, ScriptError>(
                RunResultModel {
                    stdout: text@,
                    stderr: m.run.stderr,
                    elapsed_ms: m.run.elapsed_ms,
                    timed_out: m.run.timed_out,
                },
            )
        }),
{
    lemma_teardown_keeps_outcome(m.next(ScriptEvent::OutputRead { text }), rest);
}

} // verus!
