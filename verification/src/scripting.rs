//! Running a script: from a request to the result, one decision at a time.

use vstd::prelude::*;
use vstd::string::*;
use crate::agent_config::{AgentConfig, ScriptConfig, ScriptConfigView};
use crate::dispatch::{
    binary_of,
    build_command,
    check_script_environment,
    command_for,
    deno_permissions,
    environment_verdict,
    nushell_config_args,
    permissions_of,
    required_binary,
    DispatchOptions,
};
use crate::chance::{download_delay, MAX_DELAY, MIN_DELAY};
use crate::failure::{Arch, Failure, FailureView, FsOp, Platform, Runtime, outcome_of};
use crate::install::{install_next_view, install_start, provision, Installation};
use crate::host::{Action, ActionView, Event, EventView, Next, Planned};
use crate::materialize::{materialize, script_file, temp_dir, temp_dir_of, EncodingPolicy};
use crate::runner::{
    conclude,
    conclusion,
    limit_of,
    overrides_of,
    run,
    run_request,
    ExecutionResult,
    ExecutionResultView,
};
use crate::shell::ShellKind;

verus! {

/// Runs scripts and installs interpreters for one configuration.
#[derive(Debug)]
pub struct ScriptExecutor {
    pub config: ScriptConfig,
    pub policy: EncodingPolicy,
    /// The machine that interpreters are installed for.
    pub platform: Platform,
    pub arch: Arch,
}

/// Where a run stands: what the host was last asked for.
#[derive(Clone, Copy, Debug, PartialEq, Eq, Structural)]
pub enum RunStage {
    /// Whether the interpreter is there.
    CheckingInterpreter,
    /// Whether the directory for script files is there.
    CheckingTempDir,
    /// To create that directory.
    CreatingTempDir,
    /// To write the script to a file.
    WritingScript,
    /// To run the command.
    Running,
    /// To remove the script file.
    Cleaning,
}

/// A script on its way from request to result.
#[derive(Debug)]
pub struct ScriptRun {
    pub stage: RunStage,
    pub kind: ShellKind,
    pub body: String,
    pub args: Vec<String>,
    pub env_vars: Vec<String>,
    pub timeout: i32,
    pub options: DispatchOptions,
    pub config: ScriptConfig,
    pub temp_dir: String,
    pub policy: EncodingPolicy,
    /// The script file, from `Running` on.
    pub script_path: String,
    /// What the run came to, in `Cleaning`.
    pub outcome: Option<Result<ExecutionResult, Failure>>,
}

/// `ScriptRun` as contracts see it.
pub struct ScriptRunView {
    pub stage: RunStage,
    pub kind: ShellKind,
    pub body: Seq<char>,
    pub args: Seq<Seq<char>>,
    pub env_vars: Seq<Seq<char>>,
    pub timeout: i32,
    pub user_config: bool,
    pub permissions: Seq<Seq<char>>,
    pub config: ScriptConfigView,
    pub temp_dir: Seq<char>,
    pub policy: EncodingPolicy,
    pub script_path: Seq<char>,
    pub outcome: Option<RunOutcome>,
}

/// What a run gives: a result, also for a script that failed or was killed
/// at its limit; a failure where it could not be run.
pub type RunOutcome = Result<ExecutionResultView, FailureView>;

/// What a run has come to, as contracts see it.
pub open spec fn outcome_view(o: Option<Result<ExecutionResult, Failure>>) -> Option<RunOutcome> {
    match o {
        Some(r) => Some(outcome_of(r)),
        None => None,
    }
}

impl View for ScriptRun {
    type V = ScriptRunView;

    open spec fn view(&self) -> ScriptRunView {
        ScriptRunView {
            stage: self.stage,
            kind: self.kind,
            body: self.body@,
            args: self.args.deep_view(),
            env_vars: self.env_vars.deep_view(),
            timeout: self.timeout,
            user_config: self.options.enable_user_config,
            permissions: self.options.permissions.deep_view(),
            config: self.config@,
            temp_dir: self.temp_dir@,
            policy: self.policy,
            script_path: self.script_path@,
            outcome: outcome_view(self.outcome),
        }
    }
}

/// What `run_script` and `ScriptRun::advance` hand back, as contracts see it.
pub open spec fn run_next_view(n: Next<ScriptRun, Result<ExecutionResult, Failure>>) -> Planned<
    ScriptRunView,
    RunOutcome,
> {
    match n {
        Next::Perform(m, a) => Planned::Perform(m@, a@),
        Next::Finish(r) => Planned::Finish(outcome_of(r)),
    }
}

/// How many answers of the host a run can still take before it ends.
pub open spec fn steps_left(stage: RunStage) -> nat {
    match stage {
        RunStage::CheckingInterpreter => 6,
        RunStage::CheckingTempDir => 5,
        RunStage::CreatingTempDir => 4,
        RunStage::WritingScript => 3,
        RunStage::Running => 2,
        RunStage::Cleaning => 1,
    }
}

/// The state of a run of the given request before the host was asked anything.
pub open spec fn initial_run(
    config: ScriptConfigView,
    policy: EncodingPolicy,
    kind: ShellKind,
    code: Seq<char>,
    args: Seq<Seq<char>>,
    timeout: i32,
    run_as_user: bool,
    env_vars: Seq<Seq<char>>,
    user_config: bool,
) -> ScriptRunView {
    ScriptRunView {
        stage: if kind.spec_needs_provisioning() {
            RunStage::CheckingInterpreter
        } else {
            RunStage::CheckingTempDir
        },
        kind,
        body: code,
        args,
        env_vars,
        timeout,
        user_config,
        permissions: permissions_of(env_vars),
        config,
        temp_dir: temp_dir_of(config, run_as_user),
        policy,
        script_path: Seq::empty(),
        outcome: None,
    }
}

/// How a run begins. A name that selects no interpreter ends it at once,
/// before the host is asked for anything. Otherwise the host is asked first
/// whether the interpreter is there, where it is one that the agent
/// installs, else whether the directory for script files is.
pub open spec fn run_start(
    config: ScriptConfigView,
    policy: EncodingPolicy,
    code: Seq<char>,
    shell: Seq<char>,
    args: Seq<Seq<char>>,
    timeout: i32,
    run_as_user: bool,
    env_vars: Seq<Seq<char>>,
    user_config: bool,
) -> Planned<ScriptRunView, RunOutcome> {
    match ShellKind::spec_parse(shell) {
        None => Planned::Finish(Err(FailureView::UnsupportedShellKind { name: shell })),
        Some(kind) => {
            let state = initial_run(
                config,
                policy,
                kind,
                code,
                args,
                timeout,
                run_as_user,
                env_vars,
                user_config,
            );
            match binary_of(kind, config) {
                Some(binary) => Planned::Perform(state, ActionView::Probe { path: binary }),
                None => Planned::Perform(state, ActionView::Probe { path: state.temp_dir }),
            }
        },
    }
}

/// The request to write the script of a run to its file.
pub open spec fn write_request(s: ScriptRunView) -> ActionView {
    script_file(s.body, s.kind, s.temp_dir, s.policy)
}

/// The request to run the script of a run, once it is in the file at `path`.
pub open spec fn launch_request(s: ScriptRunView, path: Seq<char>) -> ActionView {
    run_request(
        command_for(
            s.kind,
            path,
            s.args,
            s.user_config,
            s.permissions,
            s.config,
        ),
        s.env_vars,
        s.timeout,
    )
}

/// What a run does with the host's answer.
///
/// - An interpreter that the agent installs is not there: the run ends
///   with `InterpreterNotInstalled`.
/// - No directory for script files: it is created; the run ends where that fails.
/// - The script is written to a file of its own; the run ends where that fails.
/// - The command runs. Whatever comes of it, the script file is removed next.
/// - Whatever comes of the removal, the run ends with what came of the command.
///
/// An answer that the pending request cannot have ends the run with
/// `Protocol`, except while the command runs, where the file is removed first.
pub open spec fn run_step(s: ScriptRunView, e: EventView) -> Planned<ScriptRunView, RunOutcome> {
    match s.stage {
        RunStage::CheckingInterpreter => match e {
            EventView::Probed { present } => match environment_verdict(s.kind, present) {
                Ok(_) => Planned::Perform(
                    ScriptRunView { stage: RunStage::CheckingTempDir, ..s },
                    ActionView::Probe { path: s.temp_dir },
                ),
                Err(failure) => Planned::Finish(Err(failure)),
            },
            _ => Planned::Finish(Err(FailureView::Protocol)),
        },
        RunStage::CheckingTempDir => match e {
            EventView::Probed { present } => if present {
                Planned::Perform(
                    ScriptRunView { stage: RunStage::WritingScript, ..s },
                    write_request(s),
                )
            } else {
                Planned::Perform(
                    ScriptRunView { stage: RunStage::CreatingTempDir, ..s },
                    ActionView::CreateDirs { path: s.temp_dir },
                )
            },
            _ => Planned::Finish(Err(FailureView::Protocol)),
        },
        RunStage::CreatingTempDir => match e {
            EventView::Done => Planned::Perform(
                ScriptRunView { stage: RunStage::WritingScript, ..s },
                write_request(s),
            ),
            EventView::Failed { message } => Planned::Finish(
                Err(
                    FailureView::Filesystem {
                        operation: FsOp::CreateDirs,
                        path: s.temp_dir,
                        message,
                    },
                ),
            ),
            _ => Planned::Finish(Err(FailureView::Protocol)),
        },
        RunStage::WritingScript => match e {
            EventView::Created { path } => Planned::Perform(
                ScriptRunView { stage: RunStage::Running, script_path: path, ..s },
                launch_request(s, path),
            ),
            EventView::Failed { message } => Planned::Finish(
                Err(
                    FailureView::Filesystem {
                        operation: FsOp::CreateScript,
                        path: s.temp_dir,
                        message,
                    },
                ),
            ),
            _ => Planned::Finish(Err(FailureView::Protocol)),
        },
        RunStage::Running => Planned::Perform(
            ScriptRunView {
                stage: RunStage::Cleaning,
                outcome: Some(conclusion(s.timeout, e)),
                ..s
            },
            ActionView::RemoveFile { path: s.script_path },
        ),
        RunStage::Cleaning => match s.outcome {
            Some(outcome) => Planned::Finish(outcome),
            None => Planned::Finish(Err(FailureView::Protocol)),
        },
    }
}

impl ScriptExecutor {
    /// An executor for the script settings of `config`, which writes
    /// script files under the standard policy and installs interpreters for
    /// Windows on x86-64.
    pub fn new(config: AgentConfig) -> (r: ScriptExecutor)
        ensures
            r.config@ == config.script@,
            r.policy.byte_order_mark,
            r.policy.nushell_marker,
            r.platform == Platform::Windows,
            r.arch == Arch::X86_64,
    {
        ScriptExecutor {
            config: config.script,
            policy: EncodingPolicy::standard(),
            platform: Platform::Windows,
            arch: Arch::X86_64,
        }
    }

    /// The same executor, writing script files under another policy.
    pub fn with_policy(self, policy: EncodingPolicy) -> (r: ScriptExecutor)
        ensures
            r.config@ == self.config@,
            r.policy == policy,
            r.platform == self.platform,
            r.arch == self.arch,
    {
        ScriptExecutor { config: self.config, policy, platform: self.platform, arch: self.arch }
    }

    /// The same executor, installing interpreters for another machine.
    pub fn on_machine(self, platform: Platform, arch: Arch) -> (r: ScriptExecutor)
        ensures
            r.config@ == self.config@,
            r.policy == self.policy,
            r.platform == platform,
            r.arch == arch,
    {
        ScriptExecutor { config: self.config, policy: self.policy, platform, arch }
    }

    /// A copy with the same settings.
    pub fn duplicate(&self) -> (r: ScriptExecutor)
        ensures
            r.config@ == self.config@,
            r.policy == self.policy,
            r.platform == self.platform,
            r.arch == self.arch,
    {
        ScriptExecutor {
            config: self.config.duplicate(),
            policy: self.policy,
            platform: self.platform,
            arch: self.arch,
        }
    }

    /// Begins the installation of `runtime` after a wait of some seconds
    /// that chance picks.
    pub fn install(&self, runtime: Runtime, force: bool) -> (r: Next<
        Installation,
        Result<(), Failure>,
    >)
        ensures
            exists|delay: u64|
                MIN_DELAY <= delay <= MAX_DELAY && install_next_view(r) == #[trigger] install_start(
                    runtime,
                    self.config@,
                    force,
                    self.platform,
                    self.arch,
                    delay,
                ),
    {
        let delay = download_delay();
        provision(runtime, &self.config, force, self.platform, self.arch, delay)
    }

    /// Begins the installation of Python. Nothing is done where it is
    /// there and `force` is not set.
    pub fn install_python(&self, force: bool) -> (r: Next<Installation, Result<(), Failure>>)
        ensures
            exists|delay: u64|
                MIN_DELAY <= delay <= MAX_DELAY && install_next_view(r) == #[trigger] install_start(
                    Runtime::Python,
                    self.config@,
                    force,
                    self.platform,
                    self.arch,
                    delay,
                ),
    {
        self.install(Runtime::Python, force)
    }

    /// Begins the installation of Nushell. Nothing is done where it is
    /// there and `force` is not set.
    pub fn install_nu_shell(&self, force: bool) -> (r: Next<Installation, Result<(), Failure>>)
        ensures
            exists|delay: u64|
                MIN_DELAY <= delay <= MAX_DELAY && install_next_view(r) == #[trigger] install_start(
                    Runtime::Nushell,
                    self.config@,
                    force,
                    self.platform,
                    self.arch,
                    delay,
                ),
    {
        self.install(Runtime::Nushell, force)
    }

    /// Begins the installation of Deno. Nothing is done where it is there
    /// and `force` is not set.
    pub fn install_deno(&self, force: bool) -> (r: Next<Installation, Result<(), Failure>>)
        ensures
            exists|delay: u64|
                MIN_DELAY <= delay <= MAX_DELAY && install_next_view(r) == #[trigger] install_start(
                    Runtime::Deno,
                    self.config@,
                    force,
                    self.platform,
                    self.arch,
                    delay,
                ),
    {
        self.install(Runtime::Deno, force)
    }

    /// Begins the run of a script. The host carries out what is handed back
    /// and gives its answer to `ScriptRun::advance`, until that hands back
    /// the result.
    pub fn run_script(
        &self,
        code: &str,
        shell: &str,
        args: Vec<String>,
        timeout: i32,
        run_as_user: bool,
        env_vars: Vec<String>,
        nushell_enable_config: bool,
    ) -> (r: Next<ScriptRun, Result<ExecutionResult, Failure>>)
        ensures
            run_next_view(r) == run_start(
                self.config@,
                self.policy,
                code@,
                shell@,
                args.deep_view(),
                timeout,
                run_as_user,
                env_vars.deep_view(),
                nushell_enable_config,
            ),
    {
        match ShellKind::parse(shell) {
            None => Next::Finish(
                Err(Failure::UnsupportedShellKind { name: String::from_str(shell) }),
            ),
            Some(kind) => {
                let dir = temp_dir(&self.config, run_as_user).clone();
                let permissions = deno_permissions(&env_vars);
                let binary = required_binary(kind, &self.config);
                let first = match binary {
                    Some(path) => Action::Probe { path },
                    None => Action::Probe { path: dir.clone() },
                };
                let state = ScriptRun {
                    stage: if kind.needs_provisioning() {
                        RunStage::CheckingInterpreter
                    } else {
                        RunStage::CheckingTempDir
                    },
                    kind,
                    body: String::from_str(code),
                    args,
                    env_vars,
                    timeout,
                    options: DispatchOptions {
                        enable_user_config: nushell_enable_config,
                        permissions,
                    },
                    config: self.config.duplicate(),
                    temp_dir: dir,
                    policy: self.policy,
                    script_path: String::new(),
                    outcome: None,
                };
                Next::Perform(state, first)
            },
        }
    }
}

impl ScriptRun {
    fn write_script(self) -> (r: Next<ScriptRun, Result<ExecutionResult, Failure>>)
        ensures
            run_next_view(r) == Planned::<ScriptRunView, RunOutcome>::Perform(
                ScriptRunView { stage: RunStage::WritingScript, ..self@ },
                write_request(self@),
            ),
    {
        let action = materialize(
            self.body.as_str(),
            self.kind,
            self.temp_dir.as_str(),
            self.policy,
        );
        let mut next = self;
        next.stage = RunStage::WritingScript;
        Next::Perform(next, action)
    }

    /// Takes the host's answer to the last request and decides what is next.
    pub fn advance(self, event: Event) -> (r: Next<ScriptRun, Result<ExecutionResult, Failure>>)
        ensures
            run_next_view(r) == run_step(self@, event@),
    {
        match self.stage {
            RunStage::CheckingInterpreter => match event {
                Event::Probed { present } => match check_script_environment(self.kind, present) {
                    Ok(_) => {
                        let action = Action::Probe { path: self.temp_dir.clone() };
                        let mut next = self;
                        next.stage = RunStage::CheckingTempDir;
                        Next::Perform(next, action)
                    },
                    Err(failure) => Next::Finish(Err(failure)),
                },
                _ => Next::Finish(Err(Failure::Protocol)),
            },
            RunStage::CheckingTempDir => match event {
                Event::Probed { present } => {
                    if present {
                        self.write_script()
                    } else {
                        let action = Action::CreateDirs { path: self.temp_dir.clone() };
                        let mut next = self;
                        next.stage = RunStage::CreatingTempDir;
                        Next::Perform(next, action)
                    }
                },
                _ => Next::Finish(Err(Failure::Protocol)),
            },
            RunStage::CreatingTempDir => match event {
                Event::Done => self.write_script(),
                Event::Failed { message } => Next::Finish(
                    Err(
                        Failure::Filesystem {
                            operation: FsOp::CreateDirs,
                            path: self.temp_dir,
                            message,
                        },
                    ),
                ),
                _ => Next::Finish(Err(Failure::Protocol)),
            },
            RunStage::WritingScript => match event {
                Event::Created { path } => {
                    let command = build_command(
                        self.kind,
                        path.as_str(),
                        &self.args,
                        &self.options,
                        &self.config,
                    );
                    let action = run(command, &self.env_vars, self.timeout);
                    let mut next = self;
                    next.stage = RunStage::Running;
                    next.script_path = path;
                    Next::Perform(next, action)
                },
                Event::Failed { message } => Next::Finish(
                    Err(
                        Failure::Filesystem {
                            operation: FsOp::CreateScript,
                            path: self.temp_dir,
                            message,
                        },
                    ),
                ),
                _ => Next::Finish(Err(Failure::Protocol)),
            },
            RunStage::Running => {
                let outcome = conclude(self.timeout, event);
                let action = Action::RemoveFile { path: self.script_path.clone() };
                let mut next = self;
                next.stage = RunStage::Cleaning;
                next.outcome = Some(outcome);
                Next::Perform(next, action)
            },
            RunStage::Cleaning => match self.outcome {
                Some(outcome) => Next::Finish(outcome),
                None => Next::Finish(Err(Failure::Protocol)),
            },
        }
    }
}

/// A name that selects no interpreter ends the run with a failure that
/// gives the name, before the host is asked for anything: no file is
/// written and no process started.
pub proof fn lemma_unsupported_shell_ends_at_once(
    config: ScriptConfigView,
    policy: EncodingPolicy,
    code: Seq<char>,
    shell: Seq<char>,
    args: Seq<Seq<char>>,
    timeout: i32,
    run_as_user: bool,
    env_vars: Seq<Seq<char>>,
    user_config: bool,
)
    requires
        ShellKind::spec_parse(shell) is None,
    ensures
        run_start(config, policy, code, shell, args, timeout, run_as_user, env_vars, user_config)
            == Planned::<ScriptRunView, RunOutcome>::Finish(
            Err(FailureView::UnsupportedShellKind { name: shell }),
        ),
{
}

/// A run for an interpreter that the agent installs asks first whether it
/// is there, and ends with `InterpreterNotInstalled` where it is not.
pub proof fn lemma_missing_interpreter_ends_run(
    config: ScriptConfigView,
    policy: EncodingPolicy,
    code: Seq<char>,
    shell: Seq<char>,
    args: Seq<Seq<char>>,
    timeout: i32,
    run_as_user: bool,
    env_vars: Seq<Seq<char>>,
    user_config: bool,
)
    requires
        ShellKind::spec_parse(shell) matches Some(kind) && kind.spec_needs_provisioning(),
    ensures
        run_start(config, policy, code, shell, args, timeout, run_as_user, env_vars, user_config)
            matches Planned::Perform(state, action) && action == (ActionView::Probe {
            path: binary_of(ShellKind::spec_parse(shell)->Some_0, config)->Some_0,
        }) && run_step(state, EventView::Probed { present: false }) == Planned::<
            ScriptRunView,
            RunOutcome,
        >::Finish(
            Err(
                FailureView::InterpreterNotInstalled { kind: ShellKind::spec_parse(shell)->Some_0 },
            ),
        ),
{
}

/// Every answer of the host brings a run nearer to its end: it ends after
/// six answers at most.
pub proof fn lemma_run_gets_nearer_its_end(s: ScriptRunView, e: EventView)
    ensures
        run_step(s, e) matches Planned::Perform(next, _) ==> steps_left(next.stage) < steps_left(
            s.stage,
        ),
{
}

/// The script file does not outlive the run. Once the host has created it,
/// the command is started; whatever the host answers to that, the next
/// request is to remove the file; and the run ends only after that.
pub proof fn lemma_script_file_is_removed(s: ScriptRunView, path: Seq<char>, e: EventView)
    requires
        s.stage == RunStage::WritingScript,
    ensures
        run_step(s, EventView::Created { path }) matches Planned::Perform(running, action)
            && action == launch_request(s, path) && running.stage == RunStage::Running
            && running.script_path == path && (run_step(running, e) matches Planned::Perform(
            cleaning,
            removal,
        ) && removal == (ActionView::RemoveFile { path }) && cleaning.stage
            == RunStage::Cleaning),
{
}

/// A run gives what its command came to, whatever came of removing the
/// script file.
pub proof fn lemma_run_gives_the_commands_outcome(
    s: ScriptRunView,
    ended: EventView,
    removed: EventView,
)
    requires
        s.stage == RunStage::Running,
    ensures
        run_step(s, ended) matches Planned::Perform(cleaning, _) && run_step(cleaning, removed)
            == Planned::<ScriptRunView, RunOutcome>::Finish(conclusion(s.timeout, ended)),
{
}

/// No process is started for a run that has not written its script: the
/// request to run comes only as the answer to the file's creation.
pub proof fn lemma_run_request_follows_creation(s: ScriptRunView, e: EventView)
    requires
        run_step(s, e) matches Planned::Perform(_, action) && action is Run,
    ensures
        s.stage == RunStage::WritingScript,
        e is Created,
{
}

/// The command that runs a script is the one that the table of
/// `command_for` gives for the path of the script file as the host created
/// it: the path is handed on as it is.
pub proof fn lemma_command_gets_the_created_path(s: ScriptRunView, path: Seq<char>)
    requires
        s.stage == RunStage::WritingScript,
    ensures
        run_step(s, EventView::Created { path }) matches Planned::Perform(_, action) && action
            == (ActionView::Run {
            executable: match s.kind {
                ShellKind::PowerShell => "powershell.exe"@,
                ShellKind::Python => s.config.py_bin,
                ShellKind::Cmd => path,
                ShellKind::Nushell => s.config.nu_bin,
                ShellKind::Deno => s.config.deno_bin,
            },
            args: match s.kind {
                ShellKind::PowerShell => seq![
                    "-NonInteractive"@,
                    "-NoProfile"@,
                    "-ExecutionPolicy"@,
                    "Bypass"@,
                    "-File"@,
                    path,
                ],
                ShellKind::Python => seq![path],
                ShellKind::Cmd => Seq::empty(),
                ShellKind::Nushell => if s.user_config {
                    seq![
                        "--config"@,
                        s.config.program_dir + "/etc/nushell/config.nu"@,
                        "--env-config"@,
                        s.config.program_dir + "/etc/nushell/env.nu"@,
                        path,
                    ]
                } else {
                    seq![path]
                },
                ShellKind::Deno => seq!["run"@, "--no-prompt"@] + s.permissions + seq![path]
                    + s.args,
            },
            env: overrides_of(s.env_vars),
            limit: limit_of(s.timeout),
        }),
{
    if s.kind == ShellKind::Nushell && s.user_config {
        assert(nushell_config_args(s.config.program_dir).push(path) =~= seq![
            "--config"@,
            s.config.program_dir + "/etc/nushell/config.nu"@,
            "--env-config"@,
            s.config.program_dir + "/etc/nushell/env.nu"@,
            path,
        ]);
    }
}

} // verus!
