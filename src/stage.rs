//! The external stages of the pipeline and the command line each one runs.
use vstd::prelude::*;
use vstd::string::*;
use crate::paths::ArtifactPaths;

verus! {

/// The five external stages, in the order they run.
#[derive(Clone, Copy, Debug, PartialEq, Eq, Structural)]
pub enum Stage {
    /// Runs the circuit on the inputs to produce the witness.
    Execute,
    /// Produces the proof from the compiled circuit and the witness.
    Prove,
    /// Writes a fresh verification key.
    WriteKey,
    /// Checks the new proof against the new key.
    Verify,
    /// Renders the key as a deployable verifier contract.
    Export,
}

/// A program to start, its arguments, and the directory it runs in.
pub struct StageCommand {
    pub program: String,
    pub args: Vec<String>,
    pub working_dir: String,
}

/// Program, arguments and working directory as character sequences.
pub type CommandView = (Seq<char>, Seq<Seq<char>>, Seq<char>);

impl StageCommand {
    pub open spec fn view(&self) -> CommandView {
        (self.program@, self.args@.map_values(|a: String| a@), self.working_dir@)
    }
}

/// How one run of an external program ended.
pub enum StageOutcome {
    /// Exit status zero.
    Success,
    /// Any other exit status, with what the program wrote to its error stream.
    Failure { diagnostic: String },
}

impl StageOutcome {
    /// Classifies a finished run: only a zero exit status is a success, and a
    /// failure carries the diagnostic text as it was written.
    pub fn classify(exited_zero: bool, diagnostic: String) -> (r: StageOutcome)
        ensures
            exited_zero ==> r is Success,
            !exited_zero ==> (r matches StageOutcome::Failure { diagnostic: d } && d@ == diagnostic@),
    {
        if exited_zero {
            StageOutcome::Success
        } else {
            StageOutcome::Failure { diagnostic }
        }
    }
}

pub open spec fn stage_name_spec(s: Stage) -> Seq<char> {
    match s {
        Stage::Execute => "nargo execute"@,
        Stage::Prove => "bb prove"@,
        Stage::WriteKey => "bb write_vk"@,
        Stage::Verify => "bb verify"@,
        Stage::Export => "bb write_solidity_verifier"@,
    }
}

/// The command line that runs stage `s` of the project at `root`, with
/// inputs profile `profile` and artifact layout `p`.
pub open spec fn command_spec(
    s: Stage,
    root: Seq<char>,
    profile: Seq<char>,
    p: (Seq<char>, Seq<char>, Seq<char>, Seq<char>, Seq<char>, Seq<char>, Seq<char>),
) -> CommandView {
    match s {
        Stage::Execute => ("nargo"@, seq!["execute"@, "-p"@, profile], root),
        Stage::Prove => ("bb"@, seq!["prove"@, "-b"@, p.1, "-w"@, p.2, "-o"@, p.0], root),
        Stage::WriteKey => ("bb"@, seq!["write_vk"@, "-b"@, p.1, "-o"@, p.4], root),
        Stage::Verify => ("bb"@, seq!["verify"@, "-k"@, p.5, "-p"@, p.3], root),
        Stage::Export => ("bb"@, seq!["write_solidity_verifier"@, "-k"@, p.5, "-o"@, p.6], root),
    }
}

impl Stage {
    /// The program and subcommand of the stage, as named in messages.
    pub fn name(&self) -> (r: String)
        ensures
            r@ == stage_name_spec(*self),
    {
        match self {
            Stage::Execute => String::from_str("nargo execute"),
            Stage::Prove => String::from_str("bb prove"),
            Stage::WriteKey => String::from_str("bb write_vk"),
            Stage::Verify => String::from_str("bb verify"),
            Stage::Export => String::from_str("bb write_solidity_verifier"),
        }
    }

    /// The command line of this stage.
    pub fn command(&self, root: &str, profile: &str, paths: &ArtifactPaths) -> (r: StageCommand)
        ensures
            r@ == command_spec(*self, root@, profile@, paths@),
    {
        let mut args: Vec<String> = Vec::new();
        let program = match self {
            Stage::Execute => {
                args.push(String::from_str("execute"));
                args.push(String::from_str("-p"));
                args.push(String::from_str(profile));
                String::from_str("nargo")
            },
            Stage::Prove => {
                args.push(String::from_str("prove"));
                args.push(String::from_str("-b"));
                args.push(paths.circuit.clone());
                args.push(String::from_str("-w"));
                args.push(paths.witness.clone());
                args.push(String::from_str("-o"));
                args.push(paths.output_dir.clone());
                String::from_str("bb")
            },
            Stage::WriteKey => {
                args.push(String::from_str("write_vk"));
                args.push(String::from_str("-b"));
                args.push(paths.circuit.clone());
                args.push(String::from_str("-o"));
                args.push(paths.key_dir.clone());
                String::from_str("bb")
            },
            Stage::Verify => {
                args.push(String::from_str("verify"));
                args.push(String::from_str("-k"));
                args.push(paths.key_file.clone());
                args.push(String::from_str("-p"));
                args.push(paths.proof.clone());
                String::from_str("bb")
            },
            Stage::Export => {
                args.push(String::from_str("write_solidity_verifier"));
                args.push(String::from_str("-k"));
                args.push(paths.key_file.clone());
                args.push(String::from_str("-o"));
                args.push(paths.verifier.clone());
                String::from_str("bb")
            },
        };
        let r = StageCommand { program, args, working_dir: String::from_str(root) };
        proof {
            assert(r@.1 =~= command_spec(*self, root@, profile@, paths@).1);
        }
        r
    }
}

} // verus!
