//! Deploy execution, modelled at its decision boundary: what command a
//! request gives rise to, and what outcome a finished (or unspawnable)
//! process maps to. Spawning the child process itself is the embedding
//! program's task; every value it can hand back is covered here. Two known
//! gaps of the design: no timeout is imposed on the child, and nothing
//! keeps overlapping deploys of one repository from running concurrently.

use vstd::prelude::*;

use crate::classify::DeployRequest;
use crate::text::{int_str, trim, trim_spec, i32_to_string};

verus! {

/// Why a deploy failed: the process could not be started, or it ran and
/// exited unsuccessfully.
pub enum DeployError {
    /// The deploy process could not be spawned; the payload is the
    /// spawn error's text.
    CommandSpawnError(String),
    /// The deploy process ran and failed; the payload names the exit
    /// status and the trimmed output streams.
    CommandExecuteError(String),
}

/// The mathematical value of a `DeployError`.
pub enum DeployErrorView {
    CommandSpawnError(Seq<char>),
    CommandExecuteError(Seq<char>),
}

impl View for DeployError {
    type V = DeployErrorView;

    open spec fn view(&self) -> DeployErrorView {
        match self {
            DeployError::CommandSpawnError(s) => DeployErrorView::CommandSpawnError(s@),
            DeployError::CommandExecuteError(s) => DeployErrorView::CommandExecuteError(s@),
        }
    }
}

impl DeployErrorView {
    /// The error's rendering: its kind, a colon, its detail.
    pub open spec fn message(self) -> Seq<char> {
        match self {
            DeployErrorView::CommandSpawnError(s) => "CommandSpawnError: "@ + s,
            DeployErrorView::CommandExecuteError(s) => "CommandExecuteError: "@ + s,
        }
    }
}

impl DeployError {
    /// Renders the error as its kind, a colon, and its detail.
    pub fn message(&self) -> (r: String)
        ensures
            r@ == self@.message(),
    {
        match self {
            DeployError::CommandSpawnError(s) => {
                let mut m = String::from_str("CommandSpawnError: ");
                m.append(s.as_str());
                m
            },
            DeployError::CommandExecuteError(s) => {
                let mut m = String::from_str("CommandExecuteError: ");
                m.append(s.as_str());
                m
            },
        }
    }
}

/// The structured outcome of one deploy: success with the trimmed standard
/// output, or failure with a detail text.
pub enum DeployOutcome {
    Success(String),
    Failure(String),
}

/// The mathematical value of a `DeployOutcome`.
pub enum DeployOutcomeView {
    Success(Seq<char>),
    Failure(Seq<char>),
}

impl View for DeployOutcome {
    type V = DeployOutcomeView;

    open spec fn view(&self) -> DeployOutcomeView {
        match self {
            DeployOutcome::Success(s) => DeployOutcomeView::Success(s@),
            DeployOutcome::Failure(s) => DeployOutcomeView::Failure(s@),
        }
    }
}

/// What a finished deploy process handed back: its exit code (`None` when
/// it was ended by a signal) and its captured output streams.
pub struct ProcessOutput {
    pub exit_code: Option<i32>,
    pub stdout: String,
    pub stderr: String,
}

/// The mathematical value of a `ProcessOutput`.
pub struct ProcessOutputView {
    pub exit_code: Option<i32>,
    pub stdout: Seq<char>,
    pub stderr: Seq<char>,
}

impl View for ProcessOutput {
    type V = ProcessOutputView;

    open spec fn view(&self) -> ProcessOutputView {
        ProcessOutputView {
            exit_code: self.exit_code,
            stdout: self.stdout@,
            stderr: self.stderr@,
        }
    }
}

/// The failure detail for a process that ran: its exit status and both
/// trimmed output streams.
pub open spec fn execute_detail(p: ProcessOutputView) -> Seq<char> {
    "exit="@ + (match p.exit_code {
        Some(c) => int_str(c as int),
        None => "none"@,
    }) + ", stdout="@ + trim_spec(p.stdout) + ", stderr="@ + trim_spec(p.stderr)
}

/// What a finished process means: exit status zero yields the trimmed
/// standard output; anything else is an execution error naming the exit
/// status and both trimmed streams.
pub open spec fn interpret_output_spec(p: ProcessOutputView) -> Result<Seq<char>, DeployErrorView> {
    if p.exit_code == Some(0i32) {
        Ok(trim_spec(p.stdout))
    } else {
        Err(DeployErrorView::CommandExecuteError(execute_detail(p)))
    }
}

/// Maps a finished process to the deploy result, per
/// `interpret_output_spec`.
pub fn interpret_output(output: &ProcessOutput) -> (r: Result<String, DeployError>)
    ensures
        r matches Ok(s) ==> interpret_output_spec(output@) == Ok::<_, DeployErrorView>(s@),
        r matches Err(e) ==> interpret_output_spec(output@) == Err::<Seq<char>, _>(e@),
{
    let ok = match output.exit_code {
        Some(c) => c == 0,
        None => false,
    };
    if ok {
        Ok(trim(output.stdout.as_str()))
    } else {
        let mut detail = String::from_str("exit=");
        match output.exit_code {
            Some(c) => {
                let rendered = i32_to_string(c);
                detail.append(rendered.as_str());
            },
            None => {
                detail.append("none");
                proof {
                    reveal_strlit("none");
                }
            },
        }
        detail.append(", stdout=");
        let out_trimmed = trim(output.stdout.as_str());
        detail.append(out_trimmed.as_str());
        detail.append(", stderr=");
        let err_trimmed = trim(output.stderr.as_str());
        detail.append(err_trimmed.as_str());
        proof {
            assert(detail@ =~= execute_detail(output@));
        }
        Err(DeployError::CommandExecuteError(detail))
    }
}

/// The outcome of one deploy attempt: a spawn error is a failure with a
/// spawn detail; a finished process is interpreted by
/// `interpret_output_spec`.
pub open spec fn run_outcome_spec(spawn: Result<ProcessOutputView, Seq<char>>) -> DeployOutcomeView {
    match spawn {
        Err(e) => DeployOutcomeView::Failure(DeployErrorView::CommandSpawnError(e).message()),
        Ok(p) => match interpret_output_spec(p) {
            Ok(s) => DeployOutcomeView::Success(s),
            Err(e) => DeployOutcomeView::Failure(e.message()),
        },
    }
}

/// Maps one deploy attempt — a spawn error, or a finished process — to its
/// outcome. The two failure details stay distinct: a spawn failure names
/// the spawn error, an execution failure names the exit status and streams.
pub fn run_outcome(spawn: &Result<ProcessOutput, String>) -> (o: DeployOutcome)
    ensures
        spawn matches Ok(p) ==> o@ == run_outcome_spec(Ok(p@)),
        spawn matches Err(e) ==> o@ == run_outcome_spec(Err(e@)),
{
    match spawn {
        Err(e) => {
            let err = DeployError::CommandSpawnError(e.clone());
            DeployOutcome::Failure(err.message())
        },
        Ok(p) => match interpret_output(p) {
            Ok(s) => DeployOutcome::Success(s),
            Err(e) => DeployOutcome::Failure(e.message()),
        },
    }
}

/// The command a deploy request runs: the configured script, with the
/// repository short name, the tag, and the configured context directories
/// as its positional arguments.
pub struct DeployCommand {
    pub program: String,
    pub args: Vec<String>,
}

/// Builds the deploy command for a request: the program is the configured
/// script path; the arguments are the repository short name, the tag, the
/// working directory and the script-log directory, in that order.
pub fn deploy_command(req: &DeployRequest) -> (c: DeployCommand)
    ensures
        c.program@ == req.script_path@,
        c.args.deep_view() =~= seq![
            req.repository_short_name@,
            req.tag@,
            req.dev_dir@,
            req.scripts_dir@,
        ],
{
    let mut args: Vec<String> = Vec::new();
    args.push(req.repository_short_name.clone());
    args.push(req.tag.clone());
    args.push(req.dev_dir.clone());
    args.push(req.scripts_dir.clone());
    proof {
        assert(args.deep_view() =~= seq![
            req.repository_short_name@,
            req.tag@,
            req.dev_dir@,
            req.scripts_dir@,
        ]);
    }
    DeployCommand { program: req.script_path.clone(), args }
}

} // verus!
