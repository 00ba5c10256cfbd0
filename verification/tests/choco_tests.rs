use nextrmm_agent::agent_config::AgentConfig;
use nextrmm_agent::choco::{ChocoInstall, ChocoStage, INSTALL_SCRIPT_URL, INSTALL_TIMEOUT};
use nextrmm_agent::failure::Failure;
use nextrmm_agent::host::{Action, Event, Next};
use nextrmm_agent::runner::ExecutionResult;
use nextrmm_agent::scripting::{ScriptExecutor, ScriptRun};

type Step = Next<ChocoInstall, Result<bool, Failure>>;

fn executor() -> ScriptExecutor {
    ScriptExecutor::new(AgentConfig::assemble("id".to_string(), "topic", "C:\\agent"))
}

fn asked(step: Step) -> (ChocoInstall, Action) {
    match step {
        Next::Perform(state, action) => (state, action),
        Next::Finish(outcome) => panic!("the installation ended early: {:?}", outcome),
    }
}

fn ended(step: Step) -> Result<bool, Failure> {
    match step {
        Next::Finish(outcome) => outcome,
        Next::Perform(_, action) => panic!("the installation goes on with {:?}", action),
    }
}

fn exited(code: i32, stdout: &str) -> Event {
    Event::Exited { exit_code: Some(code), stdout: stdout.to_string(), stderr: String::new() }
}

/// Carries the installation out on a host where the script is served and
/// ends with `code`.
fn install_with(code: i32) -> (Vec<Action>, Result<bool, Failure>) {
    let mut asked_for = Vec::new();
    let mut step = executor().install_choco();
    loop {
        match step {
            Next::Finish(outcome) => return (asked_for, outcome),
            Next::Perform(state, action) => {
                let answer = match &action {
                    Action::Request { .. } => Event::Status { code: 200 },
                    Action::ReadBody => Event::Text { body: "Write-Host install".to_string() },
                    Action::Probe { .. } => Event::Probed { present: true },
                    Action::CreateScript { dir, .. } => {
                        Event::Created { path: format!("{}\\script_c.ps1", dir) }
                    }
                    Action::Run { .. } => exited(code, "done"),
                    _ => Event::Done,
                };
                asked_for.push(action);
                step = state.advance(answer);
            }
        }
    }
}

fn run_to_end(
    step: Next<ScriptRun, Result<ExecutionResult, Failure>>,
    ending: Event,
) -> Result<ExecutionResult, Failure> {
    let mut step = step;
    loop {
        match step {
            Next::Finish(outcome) => return outcome,
            Next::Perform(run, action) => {
                let answer = match &action {
                    Action::Probe { .. } => Event::Probed { present: true },
                    Action::CreateScript { .. } => {
                        Event::Created { path: "C:\\agent\\temp\\script_v.ps1".to_string() }
                    }
                    Action::Run { .. } => ending.clone(),
                    _ => Event::Done,
                };
                step = run.advance(answer);
            }
        }
    }
}

#[test]
fn test_install_choco() {
    let (_, outcome) = install_with(0);
    match outcome {
        Ok(result) => assert!(result, "Chocolatey installation should return true on success"),
        Err(e) => panic!("Chocolatey installation failed: {}", e.describe()),
    }

    let check = executor().run_script(
        r#"
            $chocoPath = "$env:ProgramData\chocolatey\bin\choco.exe"
            if (Test-Path $chocoPath) {
                & $chocoPath --version
            } else {
                Write-Error "Chocolatey not found at expected path: $chocoPath"
                exit 1
            }
            "#,
        "powershell",
        vec![],
        30,
        false,
        vec![],
        false,
    );
    let result = run_to_end(check, exited(0, "2.2.2\r\n")).expect("Failed to check Chocolatey version");
    assert_eq!(result.exit_code, 0, "Chocolatey version check should succeed");
    assert!(!result.stdout.trim().is_empty(), "Chocolatey version should not be empty");
}

#[test]
fn the_installation_script_is_fetched_and_run_with_powershell() {
    let (asked_for, outcome) = install_with(0);
    assert_eq!(outcome, Ok(true));
    assert_eq!(asked_for[0], Action::Connect { proxy: None });
    assert_eq!(asked_for[1], Action::Request { url: "https://chocolatey.org/install.ps1".to_string() });
    assert_eq!(asked_for[2], Action::ReadBody);
    assert_eq!(asked_for[3], Action::Probe { path: "C:\\agent\\temp".to_string() });
    let mut content = vec![0xEF, 0xBB, 0xBF];
    content.extend_from_slice(b"Write-Host install");
    assert_eq!(
        asked_for[4],
        Action::CreateScript {
            dir: "C:\\agent\\temp".to_string(),
            prefix: "script_".to_string(),
            suffix: ".ps1".to_string(),
            content,
        }
    );
    assert!(matches!(
        &asked_for[5],
        Action::Run { executable, limit: Some(900), .. } if executable == "powershell.exe"
    ));
    assert_eq!(
        asked_for[6],
        Action::RemoveFile { path: "C:\\agent\\temp\\script_c.ps1".to_string() }
    );
    assert_eq!(asked_for.len(), 7);
    assert_eq!(INSTALL_SCRIPT_URL, "https://chocolatey.org/install.ps1");
    assert_eq!(INSTALL_TIMEOUT, 900);
}

#[test]
fn an_exit_code_other_than_zero_is_a_failure() {
    let (_, outcome) = install_with(3);
    assert_eq!(outcome, Err(Failure::InstallerFailed { exit_code: 3 }));
}

#[test]
fn the_proxy_of_the_configuration_is_used() {
    let mut config = AgentConfig::assemble("id".to_string(), "topic", "C:\\agent");
    config.script.proxy = Some("http://proxy:3128".to_string());
    let (state, action) = asked(ScriptExecutor::new(config).install_choco());
    assert_eq!(state.stage, ChocoStage::Connecting);
    assert_eq!(action, Action::Connect { proxy: Some("http://proxy:3128".to_string()) });
    assert_eq!(
        ended(state.advance(Event::Failed { message: "relative URL without a base".to_string() })),
        Err(Failure::Configuration { message: "relative URL without a base".to_string() })
    );
}

#[test]
fn a_refused_script_download_ends_the_installation() {
    let (state, _) = asked(executor().install_choco());
    let (state, _) = asked(state.advance(Event::Done));
    assert_eq!(state.stage, ChocoStage::Requesting);
    assert_eq!(
        ended(state.advance(Event::Status { code: 503 })),
        Err(Failure::Network { status: Some(503), message: String::new() })
    );
    let (state, _) = asked(executor().install_choco());
    let (state, _) = asked(state.advance(Event::Done));
    assert_eq!(
        ended(state.advance(Event::Failed { message: "dns".to_string() })),
        Err(Failure::Network { status: None, message: "dns".to_string() })
    );
}

#[test]
fn an_unreadable_answer_ends_the_installation() {
    let (state, _) = asked(executor().install_choco());
    let (state, _) = asked(state.advance(Event::Done));
    let (state, action) = asked(state.advance(Event::Status { code: 204 }));
    assert_eq!(state.stage, ChocoStage::Reading);
    assert_eq!(action, Action::ReadBody);
    assert_eq!(
        ended(state.advance(Event::Failed { message: "reset".to_string() })),
        Err(Failure::Network { status: None, message: "reset".to_string() })
    );
}

#[test]
fn an_answer_that_does_not_fit_ends_the_chocolatey_installation() {
    let (state, _) = asked(executor().install_choco());
    assert_eq!(ended(state.advance(Event::TimedOut)), Err(Failure::Protocol));
    let (state, _) = asked(executor().install_choco());
    let (state, _) = asked(state.advance(Event::Done));
    assert_eq!(ended(state.advance(Event::Done)), Err(Failure::Protocol));
    let (state, _) = asked(executor().install_choco());
    let (state, _) = asked(state.advance(Event::Done));
    let (state, _) = asked(state.advance(Event::Status { code: 200 }));
    assert_eq!(ended(state.advance(Event::Done)), Err(Failure::Protocol));
}
