//! Installing Chocolatey: its installation script is fetched and run with
//! PowerShell.

use vstd::prelude::*;
use vstd::string::*;
use crate::agent_config::{copy_text, ScriptConfigView};
use crate::failure::{Arch, Failure, FailureView, Platform, outcome_of};
use crate::host::{Action, ActionView, Event, EventView, Next, Planned};
use crate::install::is_success;
use crate::materialize::EncodingPolicy;
use crate::runner::{ExecutionResult, ExecutionResultView};
use crate::scripting::{
    run_next_view,
    run_start,
    run_step,
    RunOutcome,
    ScriptExecutor,
    ScriptRun,
    ScriptRunView,
};

verus! {

/// Where the installation script is published.
pub const INSTALL_SCRIPT_URL: &'static str = "https://chocolatey.org/install.ps1";

/// How many seconds the installation script may run: a quarter of an hour.
pub const INSTALL_TIMEOUT: i32 = 900;

/// Where the installation of Chocolatey stands: what the host was last
/// asked for.
#[derive(Clone, Copy, Debug, PartialEq, Eq, Structural)]
pub enum ChocoStage {
    /// To prepare the HTTP client.
    Connecting,
    /// To ask for the installation script.
    Requesting,
    /// To read the script from the answer.
    Reading,
    /// Something for the run of the script.
    Running,
}

/// An installation of Chocolatey on its way.
#[derive(Debug)]
pub struct ChocoInstall {
    pub stage: ChocoStage,
    pub executor: ScriptExecutor,
    /// The run of the script, in `Running`.
    pub run: Option<ScriptRun>,
}

/// `ChocoInstall` as contracts see it.
pub struct ChocoInstallView {
    pub stage: ChocoStage,
    pub config: ScriptConfigView,
    pub policy: EncodingPolicy,
    pub platform: Platform,
    pub arch: Arch,
    pub run: Option<ScriptRunView>,
}

impl View for ChocoInstall {
    type V = ChocoInstallView;

    open spec fn view(&self) -> ChocoInstallView {
        ChocoInstallView {
            stage: self.stage,
            config: self.executor.config@,
            policy: self.executor.policy,
            platform: self.executor.platform,
            arch: self.executor.arch,
            run: match self.run {
                Some(r) => Some(r@),
                None => None,
            },
        }
    }
}

/// How the installation ends: `true` for success.
pub type ChocoOutcome = Result<bool, FailureView>;

/// The end of an installation as contracts see it.
pub open spec fn choco_outcome_view(r: Result<bool, Failure>) -> ChocoOutcome {
    match r {
        Ok(b) => Ok(b),
        Err(e) => Err(e@),
    }
}

/// What an installation of Chocolatey hands back, as contracts see it.
pub open spec fn choco_next_view(n: Next<ChocoInstall, Result<bool, Failure>>) -> Planned<
    ChocoInstallView,
    ChocoOutcome,
> {
    match n {
        Next::Perform(m, a) => Planned::Perform(m@, a@),
        Next::Finish(r) => Planned::Finish(choco_outcome_view(r)),
    }
}

/// What the run of the installation script means for the installation: it
/// has succeeded where the script ended with exit code 0; any other exit
/// code is a failure that gives the code.
pub open spec fn judged(outcome: RunOutcome) -> ChocoOutcome {
    match outcome {
        Ok(result) => if result.exit_code == 0 {
            Ok(true)
        } else {
            Err(FailureView::InstallerFailed { exit_code: result.exit_code })
        },
        Err(failure) => Err(failure),
    }
}

/// The installation, as far as the run of its script has come.
pub open spec fn carried(s: ChocoInstallView, run: Planned<ScriptRunView, RunOutcome>) -> Planned<
    ChocoInstallView,
    ChocoOutcome,
> {
    match run {
        Planned::Perform(next, action) => Planned::Perform(
            ChocoInstallView { stage: ChocoStage::Running, run: Some(next), ..s },
            action,
        ),
        Planned::Finish(outcome) => Planned::Finish(judged(outcome)),
    }
}

/// The run of the installation script: with PowerShell, without arguments
/// or environment entries, in the ordinary directory for script files.
pub open spec fn script_run(s: ChocoInstallView, script: Seq<char>) -> Planned<
    ScriptRunView,
    RunOutcome,
> {
    run_start(
        s.config,
        s.policy,
        script,
        "powershell"@,
        Seq::empty(),
        INSTALL_TIMEOUT,
        false,
        Seq::empty(),
        false,
    )
}

/// How the installation begins: the host is asked for an HTTP client.
pub open spec fn choco_start(
    config: ScriptConfigView,
    policy: EncodingPolicy,
    platform: Platform,
    arch: Arch,
) -> Planned<ChocoInstallView, ChocoOutcome> {
    Planned::Perform(
        ChocoInstallView {
            stage: ChocoStage::Connecting,
            config,
            policy,
            platform,
            arch,
            run: None,
        },
        ActionView::Connect { proxy: config.proxy },
    )
}

/// What the installation does with the host's answer. The script is
/// fetched as an interpreter's archive is: an unusable proxy is a
/// `Configuration` failure; a status that is no success, no answer, or an
/// answer that cannot be read, a `Network` failure. Then the script is run.
pub open spec fn choco_step(s: ChocoInstallView, e: EventView) -> Planned<
    ChocoInstallView,
    ChocoOutcome,
> {
    match s.stage {
        ChocoStage::Connecting => match e {
            EventView::Done => Planned::Perform(
                ChocoInstallView { stage: ChocoStage::Requesting, ..s },
                ActionView::Request { url: INSTALL_SCRIPT_URL@ },
            ),
            EventView::Failed { message } => Planned::Finish(
                Err(FailureView::Configuration { message }),
            ),
            _ => Planned::Finish(Err(FailureView::Protocol)),
        },
        ChocoStage::Requesting => match e {
            EventView::Status { code } => if is_success(code) {
                Planned::Perform(
                    ChocoInstallView { stage: ChocoStage::Reading, ..s },
                    ActionView::ReadBody,
                )
            } else {
                Planned::Finish(
                    Err(FailureView::Network { status: Some(code), message: Seq::empty() }),
                )
            },
            EventView::Failed { message } => Planned::Finish(
                Err(FailureView::Network { status: None, message }),
            ),
            _ => Planned::Finish(Err(FailureView::Protocol)),
        },
        ChocoStage::Reading => match e {
            EventView::Text { body } => carried(s, script_run(s, body)),
            EventView::Failed { message } => Planned::Finish(
                Err(FailureView::Network { status: None, message }),
            ),
            _ => Planned::Finish(Err(FailureView::Protocol)),
        },
        ChocoStage::Running => match s.run {
            Some(run) => carried(s, run_step(run, e)),
            None => Planned::Finish(Err(FailureView::Protocol)),
        },
    }
}

fn judge(outcome: Result<ExecutionResult, Failure>) -> (r: Result<bool, Failure>)
    ensures
        choco_outcome_view(r) == judged(outcome_of(outcome)),
{
    match outcome {
        Ok(result) => if result.exit_code == 0 {
            Ok(true)
        } else {
            Err(Failure::InstallerFailed { exit_code: result.exit_code })
        },
        Err(failure) => Err(failure),
    }
}

fn carry(executor: ScriptExecutor, run: Next<ScriptRun, Result<ExecutionResult, Failure>>) -> (r:
    Next<ChocoInstall, Result<bool, Failure>>)
    ensures
        choco_next_view(r) == carried(
            ChocoInstallView {
                stage: ChocoStage::Running,
                config: executor.config@,
                policy: executor.policy,
                platform: executor.platform,
                arch: executor.arch,
                run: None,
            },
            run_next_view(run),
        ),
{
    match run {
        Next::Perform(next, action) => Next::Perform(
            ChocoInstall { stage: ChocoStage::Running, executor, run: Some(next) },
            action,
        ),
        Next::Finish(outcome) => Next::Finish(judge(outcome)),
    }
}

impl ScriptExecutor {
    /// Begins the installation of Chocolatey: the host carries out what is
    /// handed back and gives its answer to `ChocoInstall::advance`, until
    /// that hands back how it ended.
    pub fn install_choco(&self) -> (r: Next<ChocoInstall, Result<bool, Failure>>)
        ensures
            choco_next_view(r) == choco_start(self.config@, self.policy, self.platform, self.arch),
    {
        Next::Perform(
            ChocoInstall { stage: ChocoStage::Connecting, executor: self.duplicate(), run: None },
            Action::Connect { proxy: copy_text(&self.config.proxy) },
        )
    }
}

impl ChocoInstall {
    /// Takes the host's answer to the last request and decides what is next.
    pub fn advance(self, event: Event) -> (r: Next<ChocoInstall, Result<bool, Failure>>)
        ensures
            choco_next_view(r) == choco_step(self@, event@),
    {
        match self.stage {
            ChocoStage::Connecting => match event {
                Event::Done => Next::Perform(
                    ChocoInstall {
                        stage: ChocoStage::Requesting,
                        executor: self.executor,
                        run: self.run,
                    },
                    Action::Request { url: String::from_str(INSTALL_SCRIPT_URL) },
                ),
                Event::Failed { message } => Next::Finish(
                    Err(Failure::Configuration { message }),
                ),
                _ => Next::Finish(Err(Failure::Protocol)),
            },
            ChocoStage::Requesting => match event {
                Event::Status { code } => if 200 <= code && code <= 299 {
                    Next::Perform(
                        ChocoInstall {
                            stage: ChocoStage::Reading,
                            executor: self.executor,
                            run: self.run,
                        },
                        Action::ReadBody,
                    )
                } else {
                    Next::Finish(
                        Err(Failure::Network { status: Some(code), message: String::new() }),
                    )
                },
                Event::Failed { message } => Next::Finish(
                    Err(Failure::Network { status: None, message }),
                ),
                _ => Next::Finish(Err(Failure::Protocol)),
            },
            ChocoStage::Reading => match event {
                Event::Text { body } => {
                    let args: Vec<String> = Vec::new();
                    let env_vars: Vec<String> = Vec::new();
                    assert(args.deep_view() =~= Seq::<Seq<char>>::empty());
                    assert(env_vars.deep_view() =~= Seq::<Seq<char>>::empty());
                    let run = self.executor.run_script(
                        body.as_str(),
                        "powershell",
                        args,
                        INSTALL_TIMEOUT,
                        false,
                        env_vars,
                        false,
                    );
                    carry(self.executor, run)
                },
                Event::Failed { message } => Next::Finish(
                    Err(Failure::Network { status: None, message }),
                ),
                _ => Next::Finish(Err(Failure::Protocol)),
            },
            ChocoStage::Running => match self.run {
                Some(run) => carry(self.executor, run.advance(event)),
                None => Next::Finish(Err(Failure::Protocol)),
            },
        }
    }
}

/// The installation fails where the script ends with any exit code but 0,
/// and the failure gives the code; it succeeds where the code is 0.
pub proof fn lemma_exit_code_decides(result: ExecutionResultView)
    ensures
        result.exit_code == 0 ==> judged(Ok(result)) == Ok::<bool, FailureView>(true),
        result.exit_code != 0 ==> judged(Ok(result)) == Err::<bool, FailureView>(
            FailureView::InstallerFailed { exit_code: result.exit_code },
        ),
{
}

} // verus!
