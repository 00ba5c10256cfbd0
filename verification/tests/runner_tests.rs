use nextrmm_agent::dispatch::CommandLine;
use nextrmm_agent::failure::Failure;
use nextrmm_agent::host::{Action, Event};
use nextrmm_agent::runner::{
    completed, conclude, env_overrides, parse_assignment, run, timed_out, wait_limit,
    ExecutionResult, TIMEOUT_EXIT_CODE, UNKNOWN_EXIT_CODE,
};

fn texts(items: &[&str]) -> Vec<String> {
    items.iter().map(|s| s.to_string()).collect()
}

fn pair(key: &str, value: &str) -> (String, String) {
    (key.to_string(), value.to_string())
}

#[test]
fn an_entry_is_taken_apart_at_its_first_equals_sign() {
    assert_eq!(parse_assignment("KEY=VALUE"), Some(pair("KEY", "VALUE")));
    assert_eq!(parse_assignment("KEY=a=b"), Some(pair("KEY", "a=b")));
    assert_eq!(parse_assignment("KEY="), Some(pair("KEY", "")));
    assert_eq!(parse_assignment("=VALUE"), Some(pair("", "VALUE")));
    assert_eq!(parse_assignment("="), Some(pair("", "")));
    assert_eq!(parse_assignment("KEY"), None);
    assert_eq!(parse_assignment(""), None);
}

#[test]
fn malformed_entries_are_skipped() {
    assert_eq!(
        env_overrides(&texts(&["A=1", "broken", "B=two words", "", "C=x=y"])),
        vec![pair("A", "1"), pair("B", "two words"), pair("C", "x=y")]
    );
    assert_eq!(env_overrides(&vec![]), vec![]);
    assert_eq!(env_overrides(&texts(&["broken"])), vec![]);
}

#[test]
fn a_timeout_above_zero_limits_the_run() {
    assert_eq!(wait_limit(30), Some(30));
    assert_eq!(wait_limit(1), Some(1));
    assert_eq!(wait_limit(i32::MAX), Some(2147483647));
    assert_eq!(wait_limit(0), None);
    assert_eq!(wait_limit(-5), None);
}

#[test]
fn sentinel_exit_codes() {
    assert_eq!(TIMEOUT_EXIT_CODE, 98);
    assert_eq!(UNKNOWN_EXIT_CODE, 1);
}

#[test]
fn a_killed_script_is_reported_with_exit_code_98() {
    let result = timed_out(2);
    assert_eq!(result.stdout, "");
    assert_eq!(result.stderr, "Script execution timed out after 2 seconds");
    assert_eq!(result.exit_code, 98);
    assert!(result.stderr.contains("timed out"));
    assert_eq!(timed_out(900).stderr, "Script execution timed out after 900 seconds");
}

#[test]
fn a_script_that_ended_is_reported_with_its_own_exit_code() {
    assert_eq!(
        completed(Some(3), "out".to_string(), "err".to_string()),
        ExecutionResult { stdout: "out".to_string(), stderr: "err".to_string(), exit_code: 3 }
    );
    assert_eq!(completed(Some(0), String::new(), String::new()).exit_code, 0);
    assert_eq!(completed(Some(-1), String::new(), String::new()).exit_code, -1);
    assert_eq!(completed(None, String::new(), String::new()).exit_code, 1);
}

#[test]
fn run_request_carries_command_environment_and_limit() {
    let command = CommandLine { executable: "python.exe".to_string(), args: texts(&["s.py"]) };
    assert_eq!(
        run(command, &texts(&["KEY=VALUE", "skipped"]), 30),
        Action::Run {
            executable: "python.exe".to_string(),
            args: texts(&["s.py"]),
            env: vec![pair("KEY", "VALUE")],
            limit: Some(30),
        }
    );
    let unbounded = CommandLine { executable: "x".to_string(), args: vec![] };
    assert_eq!(
        run(unbounded, &vec![], 0),
        Action::Run { executable: "x".to_string(), args: vec![], env: vec![], limit: None }
    );
}

#[test]
fn conclude_gives_a_result_for_a_script_that_ended() {
    let event = Event::Exited {
        exit_code: Some(0),
        stdout: "hi\n".to_string(),
        stderr: String::new(),
    };
    assert_eq!(
        conclude(30, event),
        Ok(ExecutionResult { stdout: "hi\n".to_string(), stderr: String::new(), exit_code: 0 })
    );
}

#[test]
fn conclude_gives_a_result_for_a_script_that_was_killed() {
    let result = conclude(2, Event::TimedOut).unwrap();
    assert_eq!(result.exit_code, 98);
    assert_eq!(result.stdout, "");
    assert!(result.stderr.contains("timed out"));
    assert!(result.stderr.contains("2"));
}

#[test]
fn conclude_gives_a_failure_where_the_process_did_not_run() {
    assert_eq!(
        conclude(30, Event::NotStarted { message: "no such file".to_string() }),
        Err(Failure::ProcessSpawn { message: "no such file".to_string() })
    );
    assert_eq!(
        conclude(30, Event::Failed { message: "broken pipe".to_string() }),
        Err(Failure::ProcessWait { message: "broken pipe".to_string() })
    );
}

#[test]
fn conclude_refuses_what_a_run_cannot_end_in() {
    assert_eq!(conclude(0, Event::TimedOut), Err(Failure::Protocol));
    assert_eq!(conclude(-1, Event::TimedOut), Err(Failure::Protocol));
    assert_eq!(conclude(30, Event::Done), Err(Failure::Protocol));
    assert_eq!(conclude(30, Event::Probed { present: true }), Err(Failure::Protocol));
    assert_eq!(conclude(30, Event::Status { code: 200 }), Err(Failure::Protocol));
}
