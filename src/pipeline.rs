//! The pipeline as a state machine. It hands out one task at a time (write
//! the inputs, run a stage, replace the key directory, read the proof), is
//! told how the task went, and either hands out the next task, completes
//! with the proof, or halts at the first failure. Whoever drives it does the
//! file-system and process work.
use vstd::prelude::*;
use vstd::string::*;
use crate::config::{config_text, Inputs};
use crate::paths::{artifacts_spec, join, join_spec, ArtifactPaths};
use crate::stage::{command_spec, stage_name_spec, CommandView, Stage, StageCommand, StageOutcome};

verus! {

/// The file-system steps of the pipeline, as named in errors.
#[derive(Clone, Copy, Debug, PartialEq, Eq, Structural)]
pub enum IoStep {
    WriteInputs,
    ResetKeys,
    ReadProof,
}

/// Why a pipeline run ended without a proof.
pub enum PipelineError {
    /// A file could not be created, written, removed or read.
    Io { step: IoStep, message: String },
    /// The inputs could not be encoded as a configuration document.
    Serialization { message: String },
    /// The program of a stage could not be started.
    ProcessLaunch { stage: Stage, message: String },
    /// The program of a stage ran and exited with a non-zero status.
    StageFailure { stage: Stage, diagnostic: String },
}

/// The proof bytes and the public inputs decoded from them (none yet:
/// decoding them is left for later).
#[derive(Debug)]
pub struct ProofResult {
    pub proof: Vec<u8>,
    pub public_inputs: Vec<String>,
}

/// One piece of outside work that the pipeline asks for.
pub enum Task {
    /// Write `contents` to `path`, creating missing parents and replacing
    /// any file there.
    WriteFile { path: String, contents: String },
    /// Run a stage's command and wait for it to finish.
    Run { stage: Stage, command: StageCommand },
    /// Replace whatever is at `path` by a new, empty directory
    /// (see `keydir::reset_plan`).
    ResetDirectory { path: String },
    /// Read the whole file at `path`.
    ReadFile { path: String },
}

/// A task in terms of character sequences.
pub enum TaskModel {
    WriteFile(Seq<char>, Seq<char>),
    Run(Stage, CommandView),
    ResetDirectory(Seq<char>),
    ReadFile(Seq<char>),
}

impl Task {
    pub open spec fn view(&self) -> TaskModel {
        match self {
            Task::WriteFile { path, contents } => TaskModel::WriteFile(path@, contents@),
            Task::Run { stage, command } => TaskModel::Run(*stage, command@),
            Task::ResetDirectory { path } => TaskModel::ResetDirectory(path@),
            Task::ReadFile { path } => TaskModel::ReadFile(path@),
        }
    }
}

/// How a task went.
pub enum Report {
    /// A file task finished.
    Done,
    /// A stage's program ran to its end.
    Exited(StageOutcome),
    /// A stage's program could not be started; the reason.
    LaunchFailed(String),
    /// A file task failed; the reason.
    IoFailed(String),
    /// The file that was to be read, byte for byte.
    Bytes(Vec<u8>),
}

/// What the pipeline does next.
pub enum Step {
    Perform(Task),
    Complete(ProofResult),
    Halt(PipelineError),
}

/// The index of the last task, the read of the proof.
pub const LAST_TASK: usize = 7;

/// The stage that task `n` runs, if it runs one.
pub open spec fn stage_at(n: nat) -> Option<Stage> {
    if n == 1 {
        Some(Stage::Execute)
    } else if n == 2 {
        Some(Stage::Prove)
    } else if n == 4 {
        Some(Stage::WriteKey)
    } else if n == 5 {
        Some(Stage::Verify)
    } else if n == 6 {
        Some(Stage::Export)
    } else {
        None
    }
}

/// The file-system step that task `n` performs where it runs no stage: the
/// first writes the inputs, the fourth replaces the key directory, the last
/// reads the proof.
pub open spec fn io_step_at(n: nat) -> IoStep {
    if n == 0 {
        IoStep::WriteInputs
    } else if n == 3 {
        IoStep::ResetKeys
    } else {
        IoStep::ReadProof
    }
}

/// The stage that task `n` runs.
fn stage_for(n: usize) -> (r: Stage)
    requires
        stage_at(n as nat) is Some,
    ensures
        Some(r) == stage_at(n as nat),
{
    if n == 1 {
        Stage::Execute
    } else if n == 2 {
        Stage::Prove
    } else if n == 4 {
        Stage::WriteKey
    } else if n == 5 {
        Stage::Verify
    } else {
        Stage::Export
    }
}

/// Whether `r` is a report that task `n` can give.
pub open spec fn report_fits(n: nat, r: Report) -> bool {
    if stage_at(n) is Some {
        r is Exited || r is LaunchFailed
    } else if n == LAST_TASK {
        r is Bytes || r is IoFailed
    } else {
        r is Done || r is IoFailed
    }
}

/// Whether report `r` says that task `n` succeeded.
pub open spec fn report_ok(n: nat, r: Report) -> bool {
    if stage_at(n) is Some {
        r matches Report::Exited(StageOutcome::Success)
    } else if n == LAST_TASK {
        r is Bytes
    } else {
        r is Done
    }
}

/// The error that a failed report `r` of task `n` becomes: it names the
/// stage or step and carries the reason unchanged.
pub open spec fn error_for(e: PipelineError, n: nat, r: Report) -> bool {
    match r {
        Report::Exited(StageOutcome::Failure { diagnostic }) => e matches PipelineError::StageFailure {
            stage,
            diagnostic: d,
        } && Some(stage) == stage_at(n) && d@ == diagnostic@,
        Report::LaunchFailed(m) => e matches PipelineError::ProcessLaunch { stage, message }
            && Some(stage) == stage_at(n) && message@ == m@,
        Report::IoFailed(m) => e matches PipelineError::Io { step, message } && step == io_step_at(n)
            && message@ == m@,
        _ => false,
    }
}

/// A pipeline run over one project, circuit and set of inputs.
pub struct Pipeline {
    /// The project directory; every stage runs in it.
    pub root: String,
    /// The name of the inputs profile, a file name under the project root.
    pub profile: String,
    /// The configuration document to write.
    pub config: String,
    pub paths: ArtifactPaths,
    /// The index of the task handed out last.
    pub position: usize,
    /// Set once the pipeline has completed or halted.
    pub finished: bool,
}

/// Task `n` of the pipeline `p`.
pub open spec fn task_spec(p: Pipeline, n: nat) -> TaskModel {
    if n == 0 {
        TaskModel::WriteFile(join_spec(p.root@, p.profile@), p.config@)
    } else if n == 3 {
        TaskModel::ResetDirectory(p.paths.key_dir@)
    } else if n == LAST_TASK {
        TaskModel::ReadFile(p.paths.proof@)
    } else {
        let s = stage_at(n)->0;
        TaskModel::Run(s, command_spec(s, p.root@, p.profile@, p.paths@))
    }
}

impl Pipeline {
    pub open spec fn wf(&self) -> bool {
        self.position <= LAST_TASK
    }

    /// What stays fixed over a run: project, profile, document and layout.
    pub open spec fn setup(&self) -> (Seq<char>, Seq<char>, Seq<char>, (Seq<char>, Seq<char>, Seq<char>, Seq<char>, Seq<char>, Seq<char>, Seq<char>)) {
        (self.root@, self.profile@, self.config@, self.paths@)
    }

    /// Prepares a run for the inputs, on circuit `circuit_name` of the project
    /// at `circuit_dir`, writing the inputs to profile `profile_name`. Every
    /// set of inputs can be encoded, so this always succeeds.
    pub fn new(inputs: &Inputs, circuit_dir: &str, profile_name: &str, circuit_name: &str) -> (r: Result<Pipeline, PipelineError>)
        ensures
            r is Ok,
            r matches Ok(p) ==> {
                &&& p.wf()
                &&& p.position == 0
                &&& !p.finished
                &&& p.root@ == circuit_dir@
                &&& p.profile@ == profile_name@
                &&& p.config@ == config_text(inputs@)
                &&& p.paths@ == artifacts_spec(circuit_dir@, circuit_name@)
            },
    {
        match inputs.to_config() {
            Ok(config) => Ok(Pipeline {
                root: String::from_str(circuit_dir),
                profile: String::from_str(profile_name),
                config,
                paths: ArtifactPaths::resolve(circuit_dir, circuit_name),
                position: 0,
                finished: false,
            }),
            Err(message) => Err(PipelineError::Serialization { message }),
        }
    }

    /// The task at the current position.
    pub fn current_task(&self) -> (r: Task)
        requires
            self.wf(),
        ensures
            r@ == task_spec(*self, self.position as nat),
    {
        let n = self.position;
        if n == 0 {
            Task::WriteFile { path: join(self.root.as_str(), self.profile.as_str()), contents: self.config.clone() }
        } else if n == 3 {
            Task::ResetDirectory { path: self.paths.key_dir.clone() }
        } else if n == LAST_TASK {
            Task::ReadFile { path: self.paths.proof.clone() }
        } else {
            let stage = stage_for(n);
            let command = stage.command(self.root.as_str(), self.profile.as_str(), &self.paths);
            Task::Run { stage, command }
        }
    }

    /// Takes the report of the current task. On success it moves to the
    /// next task and hands it out, or, after the proof has been read,
    /// completes with exactly the bytes read and no public inputs. On a
    /// failure it halts with an error naming the failed stage or step, and
    /// hands out nothing more.
    pub fn advance(&mut self, report: Report) -> (r: Step)
        requires
            old(self).wf(),
            !old(self).finished,
            report_fits(old(self).position as nat, report),
        ensures
            final(self).wf(),
            final(self).setup() == old(self).setup(),
            report_ok(old(self).position as nat, report) && old(self).position < LAST_TASK ==> {
                &&& final(self).position == old(self).position + 1
                &&& !final(self).finished
                &&& r matches Step::Perform(t) && t@ == task_spec(*final(self), final(self).position as nat)
            },
            report_ok(old(self).position as nat, report) && old(self).position == LAST_TASK ==> {
                &&& final(self).finished
                &&& r matches Step::Complete(res) && report matches Report::Bytes(b)
                    && res.proof@ == b@ && res.public_inputs@.len() == 0
            },
            !report_ok(old(self).position as nat, report) ==> {
                &&& final(self).finished
                &&& final(self).position == old(self).position
                &&& r matches Step::Halt(e) && error_for(e, old(self).position as nat, report)
            },
    {
        let n = self.position;
        let step = if n == 0 {
            IoStep::WriteInputs
        } else if n == 3 {
            IoStep::ResetKeys
        } else {
            IoStep::ReadProof
        };
        match report {
            Report::Exited(StageOutcome::Failure { diagnostic }) => {
                self.finished = true;
                Step::Halt(PipelineError::StageFailure { stage: stage_for(n), diagnostic })
            },
            Report::LaunchFailed(message) => {
                self.finished = true;
                Step::Halt(PipelineError::ProcessLaunch { stage: stage_for(n), message })
            },
            Report::IoFailed(message) => {
                self.finished = true;
                Step::Halt(PipelineError::Io { step, message })
            },
            Report::Bytes(proof) => {
                self.finished = true;
                Step::Complete(ProofResult { proof, public_inputs: Vec::new() })
            },
            Report::Exited(StageOutcome::Success) | Report::Done => {
                self.position = n + 1;
                Step::Perform(self.current_task())
            },
        }
    }

    /// Whether `report` is one that the current task can give.
    pub fn fits(&self, report: &Report) -> (r: bool)
        requires
            self.wf(),
        ensures
            r == report_fits(self.position as nat, *report),
    {
        let n = self.position;
        if n == 1 || n == 2 || n == 4 || n == 5 || n == 6 {
            match report {
                Report::Exited(_) | Report::LaunchFailed(_) => true,
                _ => false,
            }
        } else if n == LAST_TASK {
            match report {
                Report::Bytes(_) | Report::IoFailed(_) => true,
                _ => false,
            }
        } else {
            match report {
                Report::Done | Report::IoFailed(_) => true,
                _ => false,
            }
        }
    }
}

pub open spec fn io_step_text(step: IoStep) -> Seq<char> {
    match step {
        IoStep::WriteInputs => "failed to write the inputs"@,
        IoStep::ResetKeys => "failed to replace the key directory"@,
        IoStep::ReadProof => "failed to read the proof"@,
    }
}

/// The text of an error: what failed, then the reason as it was received.
pub open spec fn message_spec(e: PipelineError) -> Seq<char> {
    match e {
        PipelineError::Io { step, message } => io_step_text(step) + ": "@ + message@,
        PipelineError::Serialization { message } => "failed to encode the inputs: "@ + message@,
        PipelineError::ProcessLaunch { stage, message } => "failed to run "@ + stage_name_spec(stage) + ": "@
            + message@,
        PipelineError::StageFailure { stage, diagnostic } => stage_name_spec(stage) + " failed: "@
            + diagnostic@,
    }
}

impl PipelineError {
    /// A one-line description of the error for whoever ran the pipeline.
    pub fn message(&self) -> (r: String)
        ensures
            r@ == message_spec(*self),
    {
        match self {
            PipelineError::Io { step, message } => {
                let head = match step {
                    IoStep::WriteInputs => String::from_str("failed to write the inputs"),
                    IoStep::ResetKeys => String::from_str("failed to replace the key directory"),
                    IoStep::ReadProof => String::from_str("failed to read the proof"),
                };
                head.concat(": ").concat(message.as_str())
            },
            PipelineError::Serialization { message } => {
                String::from_str("failed to encode the inputs: ").concat(message.as_str())
            },
            PipelineError::ProcessLaunch { stage, message } => {
                String::from_str("failed to run ").concat(stage.name().as_str()).concat(": ").concat(
                    message.as_str(),
                )
            },
            PipelineError::StageFailure { stage, diagnostic } => {
                stage.name().concat(" failed: ").concat(diagnostic.as_str())
            },
        }
    }
}

} // verus!
