//! Running a command: what the child's environment gets, how long it may
//! run, and what is reported when it has ended or was killed.

use vstd::prelude::*;
use vstd::string::*;
use crate::dispatch::{CommandLine, CommandLineView};
use crate::failure::{Failure, FailureView, outcome_of};
use crate::host::{Action, ActionView, Event, EventView};
use crate::text::{
    chars_of,
    first_index_of,
    format_i64,
    lemma_position,
    lemma_position_is,
    position,
    signed_decimal,
};

verus! {

/// The exit code that reports a script killed at its time limit.
pub const TIMEOUT_EXIT_CODE: i32 = 98;

/// The exit code reported where the child left none.
pub const UNKNOWN_EXIT_CODE: i32 = 1;

/// What a script wrote and how it ended.
#[derive(Debug, Clone, PartialEq, Eq)]
pub struct ExecutionResult {
    pub stdout: String,
    pub stderr: String,
    pub exit_code: i32,
}

/// `ExecutionResult` as contracts see it.
pub struct ExecutionResultView {
    pub stdout: Seq<char>,
    pub stderr: Seq<char>,
    pub exit_code: i32,
}

impl View for ExecutionResult {
    type V = ExecutionResultView;

    open spec fn view(&self) -> ExecutionResultView {
        ExecutionResultView {
            stdout: self.stdout@,
            stderr: self.stderr@,
            exit_code: self.exit_code,
        }
    }
}

/// True when `needle` stands somewhere in `hay`.
pub open spec fn occurs_in(needle: Seq<char>, hay: Seq<char>) -> bool {
    exists|i: int|
        0 <= i && i + needle.len() <= hay.len() && #[trigger] hay.subrange(i, i + needle.len())
            == needle
}

/// An entry `KEY=VALUE` taken apart at its first `=`. An entry without `=`
/// assigns nothing.
pub open spec fn assignment_of(entry: Seq<char>) -> Option<(Seq<char>, Seq<char>)> {
    let i = position(entry, '=');
    if i < entry.len() {
        Some((entry.take(i), entry.skip(i + 1)))
    } else {
        None
    }
}

/// The assignments among `entries`, in their order.
pub open spec fn overrides_of(entries: Seq<Seq<char>>) -> Seq<(Seq<char>, Seq<char>)>
    decreases entries.len(),
{
    if entries.len() == 0 {
        Seq::empty()
    } else {
        let before = overrides_of(entries.drop_last());
        match assignment_of(entries.last()) {
            Some(pair) => before.push(pair),
            None => before,
        }
    }
}

/// How many seconds the child may run; no limit for a timeout of 0 or less.
pub open spec fn limit_of(timeout: i32) -> Option<u64> {
    if timeout > 0 {
        Some(timeout as u64)
    } else {
        None
    }
}

/// What is said of a script that was killed at its limit.
pub open spec fn timeout_message(timeout: i32) -> Seq<char> {
    "Script execution timed out after "@ + signed_decimal(timeout as int) + " seconds"@
}

/// What is reported of a child that was killed at its limit.
pub open spec fn timed_out_result(timeout: i32) -> ExecutionResultView {
    ExecutionResultView {
        stdout: Seq::empty(),
        stderr: timeout_message(timeout),
        exit_code: TIMEOUT_EXIT_CODE,
    }
}

/// What is reported of a child that ended by itself.
pub open spec fn completed_result(
    code: Option<i32>,
    stdout: Seq<char>,
    stderr: Seq<char>,
) -> ExecutionResultView {
    ExecutionResultView {
        stdout,
        stderr,
        exit_code: match code {
            Some(c) => c,
            None => UNKNOWN_EXIT_CODE,
        },
    }
}

/// The request to run `command`.
pub open spec fn run_request(
    command: CommandLineView,
    env_vars: Seq<Seq<char>>,
    timeout: i32,
) -> ActionView {
    ActionView::Run {
        executable: command.executable,
        args: command.args,
        env: overrides_of(env_vars),
        limit: limit_of(timeout),
    }
}

/// What a run comes to. A child that ended, by itself or at its limit, gives
/// a result; one that never started, or that could not be waited for, gives
/// a failure. A host that reports a limit where none was set, or anything
/// that a run cannot end in, broke the protocol.
pub open spec fn conclusion(timeout: i32, event: EventView) -> Result<
    ExecutionResultView,
    FailureView,
> {
    match event {
        EventView::Exited { exit_code, stdout, stderr } => Ok(
            completed_result(exit_code, stdout, stderr),
        ),
        EventView::TimedOut => if timeout > 0 {
            Ok(timed_out_result(timeout))
        } else {
            Err(FailureView::Protocol)
        },
        EventView::NotStarted { message } => Err(FailureView::ProcessSpawn { message }),
        EventView::Failed { message } => Err(FailureView::ProcessWait { message }),
        _ => Err(FailureView::Protocol),
    }
}

pub fn parse_assignment(entry: &str) -> (r: Option<(String, String)>)
    ensures
        r.deep_view() == assignment_of(entry@),
{
    let chars = chars_of(entry);
    let n = chars.len();
    match first_index_of(&chars, '=') {
        Some(i) => {
            let key = String::from_str(entry.substring_char(0, i));
            let value = String::from_str(entry.substring_char(i + 1, n));
            assert(entry@.subrange(0, i as int) == entry@.take(i as int));
            assert(entry@.subrange(i + 1, entry@.len() as int) == entry@.skip(i + 1));
            Some((key, value))
        },
        None => None,
    }
}

pub fn env_overrides(entries: &Vec<String>) -> (r: Vec<(String, String)>)
    ensures
        r.deep_view() == overrides_of(entries.deep_view()),
{
    let n = entries.len();
    let mut out: Vec<(String, String)> = Vec::new();
    let mut i: usize = 0;
    let ghost all = entries.deep_view();
    assert(out.deep_view() =~= overrides_of(all.take(0)));
    while i < n
        invariant
            i <= n,
            n == entries@.len(),
            all == entries.deep_view(),
            out.deep_view() == overrides_of(all.take(i as int)),
        decreases n - i,
    {
        let ghost before = out.deep_view();
        assert(all.take(i + 1).drop_last() == all.take(i as int));
        assert(all.take(i + 1).last() == entries@[i as int]@);
        match parse_assignment(entries[i].as_str()) {
            Some(pair) => {
                out.push(pair);
                assert(out.deep_view() =~= before.push(
                    assignment_of(entries@[i as int]@)->Some_0,
                ));
            },
            None => {},
        }
        i += 1;
    }
    assert(all.take(n as int) == all);
    out
}

pub fn wait_limit(timeout: i32) -> (r: Option<u64>)
    ensures
        r == limit_of(timeout),
{
    if timeout > 0 {
        Some(timeout as u64)
    } else {
        None
    }
}

pub fn timed_out(timeout: i32) -> (r: ExecutionResult)
    ensures
        r@ == timed_out_result(timeout),
{
    let seconds = format_i64(timeout as i64);
    let mut stderr = String::from_str("Script execution timed out after ");
    stderr.append(seconds.as_str());
    stderr.append(" seconds");
    ExecutionResult { stdout: String::new(), stderr, exit_code: TIMEOUT_EXIT_CODE }
}

pub fn completed(code: Option<i32>, stdout: String, stderr: String) -> (r: ExecutionResult)
    ensures
        r@ == completed_result(code, stdout@, stderr@),
{
    let exit_code = match code {
        Some(c) => c,
        None => UNKNOWN_EXIT_CODE,
    };
    ExecutionResult { stdout, stderr, exit_code }
}

/// The request that makes the host run `command` with the assignments among
/// `env_vars` added to its environment, for `timeout` seconds at most where
/// `timeout` is above 0.
pub fn run(command: CommandLine, env_vars: &Vec<String>, timeout: i32) -> (r: Action)
    ensures
        r@ == run_request(command@, env_vars.deep_view(), timeout),
{
    Action::Run {
        executable: command.executable,
        args: command.args,
        env: env_overrides(env_vars),
        limit: wait_limit(timeout),
    }
}

pub fn conclude(timeout: i32, event: Event) -> (r: Result<ExecutionResult, Failure>)
    ensures
        outcome_of(r) == conclusion(timeout, event@),
{
    match event {
        Event::Exited { exit_code, stdout, stderr } => Ok(completed(exit_code, stdout, stderr)),
        Event::TimedOut => if timeout > 0 {
            Ok(timed_out(timeout))
        } else {
            Err(Failure::Protocol)
        },
        Event::NotStarted { message } => Err(Failure::ProcessSpawn { message }),
        Event::Failed { message } => Err(Failure::ProcessWait { message }),
        _ => Err(Failure::Protocol),
    }
}

/// A script killed at its limit is reported with exit code 98, nothing on
/// standard output, and a message on standard error that says "timed out"
/// and gives the limit in seconds.
pub proof fn lemma_timeout_report(timeout: i32)
    requires
        timeout > 0,
    ensures
        conclusion(timeout, EventView::TimedOut) == Ok::<ExecutionResultView, FailureView>(
            timed_out_result(timeout),
        ),
        timed_out_result(timeout).exit_code == 98,
        timed_out_result(timeout).stdout.len() == 0,
        occurs_in("timed out"@, timed_out_result(timeout).stderr),
        occurs_in(signed_decimal(timeout as int), timed_out_result(timeout).stderr),
{
    reveal_strlit("Script execution timed out after ");
    reveal_strlit("timed out");
    reveal_strlit(" seconds");
    let head = "Script execution timed out after "@;
    let digits = signed_decimal(timeout as int);
    let message = timeout_message(timeout);
    assert(head.len() == 33);
    let needle = "timed out"@;
    assert(message.subrange(17, 17 + needle.len() as int) =~= needle);
    assert(message.subrange(33, 33 + digits.len() as int) =~= digits);
}

/// A child that ended by itself is reported with what it wrote and with its
/// own exit code, or with 1 where it left none.
pub proof fn lemma_completion_report(
    timeout: i32,
    code: Option<i32>,
    stdout: Seq<char>,
    stderr: Seq<char>,
)
    ensures
        conclusion(timeout, EventView::Exited { exit_code: code, stdout, stderr }) matches Ok(r) && r.stdout
            == stdout && r.stderr == stderr && (code matches Some(c) ==> r.exit_code == c) && (
        code is None ==> r.exit_code == 1),
{
}

/// An entry made of a key without `=`, then `=`, then a value assigns that
/// value to that key.
pub proof fn lemma_assignment_round_trip(key: Seq<char>, value: Seq<char>)
    requires
        !key.contains('='),
    ensures
        assignment_of(key + seq!['='] + value) == Some((key, value)),
{
    let entry = key + seq!['='] + value;
    assert forall|j: int| 0 <= j < key.len() implies entry[j] != '=' by {
        assert(entry[j] == key[j]);
        assert(key.contains(key[j]));
    }
    assert(entry[key.len() as int] == '=');
    lemma_position_is(entry, '=', key.len() as int);
    assert(entry.take(key.len() as int) =~= key);
    assert(entry.skip(key.len() as int + 1) =~= value);
}

/// Every assignment among the entries reaches the child's environment.
pub proof fn lemma_overrides_keep_assignments(entries: Seq<Seq<char>>, i: int)
    requires
        0 <= i < entries.len(),
        assignment_of(entries[i]) is Some,
    ensures
        overrides_of(entries).contains(assignment_of(entries[i])->Some_0),
    decreases entries.len(),
{
    let before = overrides_of(entries.drop_last());
    if i == entries.len() - 1 {
        let pair = assignment_of(entries.last())->Some_0;
        assert(before.push(pair)[before.len() as int] == pair);
    } else {
        lemma_overrides_keep_assignments(entries.drop_last(), i);
        let pair = assignment_of(entries[i])->Some_0;
        let k = choose|k: int| 0 <= k < before.len() && before[k] == pair;
        match assignment_of(entries.last()) {
            Some(last) => {
                assert(before.push(last)[k] == pair);
            },
            None => {},
        }
    }
}

/// An entry without `=` changes nothing in the child's environment.
pub proof fn lemma_malformed_entry_is_skipped(entries: Seq<Seq<char>>, entry: Seq<char>)
    requires
        !entry.contains('='),
    ensures
        overrides_of(entries.push(entry)) == overrides_of(entries),
{
    lemma_position(entry, '=');
    assert(entries.push(entry).drop_last() == entries);
}

} // verus!
