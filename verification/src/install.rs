//! An installation in progress: the steps still to take, and what is
//! decided after each of the host's answers.

use std::collections::VecDeque;
use vstd::prelude::*;
use vstd::string::*;
use crate::agent_config::{ScriptConfig, ScriptConfigView};
use crate::archive::{archive_listing, entry_steps, extraction, unpack, unpacking, unreadable};
use crate::failure::{Arch, Failure, FailureView, FsOp, Platform, Runtime, verdict_of};
use crate::host::{Action, ActionView, Event, EventView, Next, Planned};
use crate::plan::{Step, StepView};
use crate::paths::parent_of;
use crate::provision::{asset_of, binary_of, binary_path, plan, plan_of};
use crate::text::chain;

verus! {

/// What the host was last asked for.
#[derive(Clone, Copy, Debug, PartialEq, Eq, Structural)]
pub enum Phase {
    /// Whether the interpreter is there already.
    Checking,
    /// Whether something is at the place that the first step looks at.
    Probing,
    /// To carry the first step out.
    Acting,
}

/// An installation on its way. `pending` holds the steps that are left,
/// the one in progress first.
#[derive(Debug)]
pub struct Installation {
    pub pending: VecDeque<Step>,
    pub phase: Phase,
}

/// `Installation` as contracts see it.
pub struct InstallationView {
    pub pending: Seq<StepView>,
    pub phase: Phase,
}

impl View for Installation {
    type V = InstallationView;

    open spec fn view(&self) -> InstallationView {
        InstallationView { pending: self.pending.deep_view(), phase: self.phase }
    }
}

/// How an installation ends.
pub type Verdict = Result<(), FailureView>;

/// What an installation hands back, as contracts see it.
pub open spec fn install_next_view(n: Next<Installation, Result<(), Failure>>) -> Planned<
    InstallationView,
    Verdict,
> {
    match n {
        Next::Perform(m, a) => Planned::Perform(m@, a@),
        Next::Finish(r) => Planned::Finish(verdict_of(r)),
    }
}

/// What is reported where nothing is at a place that a step requires.
pub open spec fn missing(path: Seq<char>) -> FailureView {
    FailureView::Archive { message: "Not found after unpacking: "@ + path }
}

/// True for a status that reports success: 200 to 299.
pub open spec fn is_success(code: u16) -> bool {
    200 <= code <= 299
}

/// Takes up the first of the steps that are left: the host is asked to
/// carry it out, or to look where the step looks first. With no step left
/// the installation has succeeded; a `Fail` step ends it with its failure.
pub open spec fn proceed(pending: Seq<StepView>) -> Planned<InstallationView, Verdict> {
    if pending.len() == 0 {
        Planned::Finish(Ok(()))
    } else {
        match pending[0] {
            StepView::Fail { failure } => Planned::Finish(Err(failure)),
            step => Planned::Perform(
                InstallationView {
                    pending,
                    phase: if step.is_guarded() {
                        Phase::Probing
                    } else {
                        Phase::Acting
                    },
                },
                step.request()->Some_0,
            ),
        }
    }
}

/// After an operation on the file system: on with the rest, or the failure
/// that names the operation, the place and the host's message.
pub open spec fn settled(
    e: EventView,
    rest: Seq<StepView>,
    operation: FsOp,
    path: Seq<char>,
) -> Planned<InstallationView, Verdict> {
    match e {
        EventView::Done => proceed(rest),
        EventView::Failed { message } => Planned::Finish(
            Err(FailureView::Filesystem { operation, path, message }),
        ),
        _ => Planned::Finish(Err(FailureView::Protocol)),
    }
}

/// After the host has looked for a step that looks before it acts.
pub open spec fn probed(step: StepView, present: bool, rest: Seq<StepView>) -> Planned<
    InstallationView,
    Verdict,
> {
    match step {
        StepView::ClearTree { path } => if present {
            proceed(seq![StepView::RemoveTree { path }] + rest)
        } else {
            proceed(rest)
        },
        StepView::EnsureDirs { path } => if present {
            proceed(rest)
        } else {
            proceed(seq![StepView::CreateDirs { path }] + rest)
        },
        StepView::EnsureFile { path } => if present {
            proceed(rest)
        } else {
            proceed(seq![StepView::CreateFile { path }] + rest)
        },
        StepView::Require { path } => if present {
            proceed(rest)
        } else {
            Planned::Finish(Err(missing(path)))
        },
        _ => Planned::Finish(Err(FailureView::Protocol)),
    }
}

/// After the host has carried a step out, or has failed to.
///
/// - A failed operation on the file system ends the installation with a
///   `Filesystem` failure; only the removal of the archive may fail.
/// - A proxy that cannot be used ends it with `Configuration`.
/// - A status that is no success, or no answer at all, ends it with `Network`.
/// - An archive that was read is unpacked: the steps that put its entries
///   in place come before the steps that were left.
/// - An archive that cannot be read ends it with `Archive`.
pub open spec fn acted(step: StepView, e: EventView, rest: Seq<StepView>) -> Planned<
    InstallationView,
    Verdict,
> {
    match step {
        StepView::RemoveTree { path } => settled(e, rest, FsOp::RemoveTree, path),
        StepView::CreateDirs { path } => settled(e, rest, FsOp::CreateDirs, path),
        StepView::CreateFile { path } => settled(e, rest, FsOp::CreateFile, path),
        StepView::WriteFile { path, data } => settled(e, rest, FsOp::WriteFile, path),
        StepView::Rename { from, to } => settled(e, rest, FsOp::Rename, from),
        StepView::SaveBody { path } => settled(e, rest, FsOp::SaveBody, path),
        StepView::Pause { seconds } => match e {
            EventView::Done => proceed(rest),
            _ => Planned::Finish(Err(FailureView::Protocol)),
        },
        StepView::Connect { proxy } => match e {
            EventView::Done => proceed(rest),
            EventView::Failed { message } => Planned::Finish(
                Err(FailureView::Configuration { message }),
            ),
            _ => Planned::Finish(Err(FailureView::Protocol)),
        },
        StepView::Request { url } => match e {
            EventView::Status { code } => if is_success(code) {
                proceed(rest)
            } else {
                Planned::Finish(
                    Err(FailureView::Network { status: Some(code), message: Seq::empty() }),
                )
            },
            EventView::Failed { message } => Planned::Finish(
                Err(FailureView::Network { status: None, message }),
            ),
            _ => Planned::Finish(Err(FailureView::Protocol)),
        },
        StepView::Unpack { archive, dest } => match e {
            EventView::Bytes { data } => proceed(unpacking(dest, archive_listing(data)) + rest),
            EventView::Failed { message } => Planned::Finish(
                Err(FailureView::Archive { message }),
            ),
            _ => Planned::Finish(Err(FailureView::Protocol)),
        },
        StepView::Discard { path } => match e {
            EventView::Done => proceed(rest),
            EventView::Failed { message } => proceed(rest),
            _ => Planned::Finish(Err(FailureView::Protocol)),
        },
        _ => Planned::Finish(Err(FailureView::Protocol)),
    }
}

/// What an installation does with the host's answer. An interpreter that
/// is found to be there ends it with success at once. An answer that the
/// pending request cannot have ends it with `Protocol`.
pub open spec fn install_step(s: InstallationView, e: EventView) -> Planned<
    InstallationView,
    Verdict,
> {
    match s.phase {
        Phase::Checking => match e {
            EventView::Probed { present } => if present {
                Planned::Finish(Ok(()))
            } else {
                proceed(s.pending)
            },
            _ => Planned::Finish(Err(FailureView::Protocol)),
        },
        Phase::Probing => if s.pending.len() == 0 {
            Planned::Finish(Err(FailureView::Protocol))
        } else {
            match e {
                EventView::Probed { present } => probed(
                    s.pending[0],
                    present,
                    s.pending.drop_first(),
                ),
                _ => Planned::Finish(Err(FailureView::Protocol)),
            }
        },
        Phase::Acting => if s.pending.len() == 0 {
            Planned::Finish(Err(FailureView::Protocol))
        } else {
            acted(s.pending[0], e, s.pending.drop_first())
        },
    }
}

/// How the installation of an interpreter begins. Unless it is forced, the
/// host is asked first whether the interpreter is there.
pub open spec fn install_start(
    runtime: Runtime,
    config: ScriptConfigView,
    force: bool,
    platform: Platform,
    arch: Arch,
    delay: u64,
) -> Planned<InstallationView, Verdict> {
    let pending = plan_of(runtime, config, force, platform, arch, delay);
    if force {
        proceed(pending)
    } else {
        Planned::Perform(
            InstallationView { pending, phase: Phase::Checking },
            ActionView::Probe { path: binary_path(runtime, config) },
        )
    }
}

/// The steps of `first`, then those of `rest`.
pub fn queue_before(first: Vec<Step>, rest: VecDeque<Step>) -> (r: VecDeque<Step>)
    ensures
        r.deep_view() == first.deep_view() + rest.deep_view(),
{
    let mut steps = first;
    let mut queue = rest;
    let ghost all = first.deep_view() + rest.deep_view();
    assert(steps.deep_view() + queue.deep_view() =~= all);
    while steps.len() > 0
        invariant
            steps.deep_view() + queue.deep_view() == all,
        decreases steps.len(),
    {
        let ghost before = steps.deep_view();
        let ghost after = queue.deep_view();
        match steps.pop() {
            Some(step) => {
                queue.push_front(step);
                assert(steps.deep_view() =~= before.drop_last());
                assert(queue.deep_view() =~= seq![before.last()] + after);
                assert(steps.deep_view() + queue.deep_view() =~= before + after);
            },
            None => {},
        }
    }
    assert(steps.deep_view() + queue.deep_view() =~= queue.deep_view());
    queue
}

/// Takes up the first of the steps that are left.
pub fn take_up(pending: VecDeque<Step>) -> (r: Next<Installation, Result<(), Failure>>)
    ensures
        install_next_view(r) == proceed(pending.deep_view()),
{
    let mut queue = pending;
    if queue.len() == 0 {
        return Next::Finish(Ok(()));
    }
    let request = queue[0].request();
    let guarded = match &queue[0] {
        Step::ClearTree { .. } => true,
        Step::EnsureDirs { .. } => true,
        Step::EnsureFile { .. } => true,
        Step::Require { .. } => true,
        _ => false,
    };
    assert(queue.deep_view()[0] == queue@[0]@);
    match request {
        Some(action) => {
            let phase = if guarded {
                Phase::Probing
            } else {
                Phase::Acting
            };
            Next::Perform(Installation { pending: queue, phase }, action)
        },
        None => match queue.pop_front() {
            Some(Step::Fail { failure }) => Next::Finish(Err(failure)),
            _ => Next::Finish(Err(Failure::Protocol)),
        },
    }
}

fn put_first(step: Step, rest: VecDeque<Step>) -> (r: VecDeque<Step>)
    ensures
        r.deep_view() == seq![step@] + rest.deep_view(),
{
    let mut queue = rest;
    queue.push_front(step);
    assert(queue.deep_view() =~= seq![step@] + rest.deep_view());
    queue
}

fn after_fs(event: Event, rest: VecDeque<Step>, operation: FsOp, path: String) -> (r: Next<
    Installation,
    Result<(), Failure>,
>)
    ensures
        install_next_view(r) == settled(event@, rest.deep_view(), operation, path@),
{
    match event {
        Event::Done => take_up(rest),
        Event::Failed { message } => Next::Finish(
            Err(Failure::Filesystem { operation, path, message }),
        ),
        _ => Next::Finish(Err(Failure::Protocol)),
    }
}

fn after_probe(step: Step, present: bool, rest: VecDeque<Step>) -> (r: Next<
    Installation,
    Result<(), Failure>,
>)
    ensures
        install_next_view(r) == probed(step@, present, rest.deep_view()),
{
    match step {
        Step::ClearTree { path } => if present {
            take_up(put_first(Step::RemoveTree { path }, rest))
        } else {
            take_up(rest)
        },
        Step::EnsureDirs { path } => if present {
            take_up(rest)
        } else {
            take_up(put_first(Step::CreateDirs { path }, rest))
        },
        Step::EnsureFile { path } => if present {
            take_up(rest)
        } else {
            take_up(put_first(Step::CreateFile { path }, rest))
        },
        Step::Require { path } => if present {
            take_up(rest)
        } else {
            Next::Finish(
                Err(
                    Failure::Archive {
                        message: chain("Not found after unpacking: ", path.as_str()),
                    },
                ),
            )
        },
        _ => Next::Finish(Err(Failure::Protocol)),
    }
}

fn after_action(step: Step, event: Event, rest: VecDeque<Step>) -> (r: Next<
    Installation,
    Result<(), Failure>,
>)
    ensures
        install_next_view(r) == acted(step@, event@, rest.deep_view()),
{
    match step {
        Step::RemoveTree { path } => after_fs(event, rest, FsOp::RemoveTree, path),
        Step::CreateDirs { path } => after_fs(event, rest, FsOp::CreateDirs, path),
        Step::CreateFile { path } => after_fs(event, rest, FsOp::CreateFile, path),
        Step::WriteFile { path, data } => after_fs(event, rest, FsOp::WriteFile, path),
        Step::Rename { from, to } => after_fs(event, rest, FsOp::Rename, from),
        Step::SaveBody { path } => after_fs(event, rest, FsOp::SaveBody, path),
        Step::Pause { seconds } => match event {
            Event::Done => take_up(rest),
            _ => Next::Finish(Err(Failure::Protocol)),
        },
        Step::Connect { proxy } => match event {
            Event::Done => take_up(rest),
            Event::Failed { message } => Next::Finish(Err(Failure::Configuration { message })),
            _ => Next::Finish(Err(Failure::Protocol)),
        },
        Step::Request { url } => match event {
            Event::Status { code } => if 200 <= code && code <= 299 {
                take_up(rest)
            } else {
                Next::Finish(Err(Failure::Network { status: Some(code), message: String::new() }))
            },
            Event::Failed { message } => Next::Finish(
                Err(Failure::Network { status: None, message }),
            ),
            _ => Next::Finish(Err(Failure::Protocol)),
        },
        Step::Unpack { archive, dest } => match event {
            Event::Bytes { data } => take_up(queue_before(unpack(data, dest.as_str()), rest)),
            Event::Failed { message } => Next::Finish(Err(Failure::Archive { message })),
            _ => Next::Finish(Err(Failure::Protocol)),
        },
        Step::Discard { path } => match event {
            Event::Done => take_up(rest),
            Event::Failed { message } => take_up(rest),
            _ => Next::Finish(Err(Failure::Protocol)),
        },
        _ => Next::Finish(Err(Failure::Protocol)),
    }
}

impl Installation {
    /// Takes the host's answer to the last request and decides what is next.
    pub fn advance(self, event: Event) -> (r: Next<Installation, Result<(), Failure>>)
        ensures
            install_next_view(r) == install_step(self@, event@),
    {
        let mut pending = self.pending;
        match self.phase {
            Phase::Checking => match event {
                Event::Probed { present } => if present {
                    Next::Finish(Ok(()))
                } else {
                    take_up(pending)
                },
                _ => Next::Finish(Err(Failure::Protocol)),
            },
            Phase::Probing => {
                let ghost before = pending.deep_view();
                match pending.pop_front() {
                    Some(step) => {
                        assert(pending.deep_view() =~= before.drop_first());
                        assert(step@ == before[0]);
                        match event {
                            Event::Probed { present } => after_probe(step, present, pending),
                            _ => Next::Finish(Err(Failure::Protocol)),
                        }
                    },
                    None => Next::Finish(Err(Failure::Protocol)),
                }
            },
            Phase::Acting => {
                let ghost before = pending.deep_view();
                match pending.pop_front() {
                    Some(step) => {
                        assert(pending.deep_view() =~= before.drop_first());
                        assert(step@ == before[0]);
                        after_action(step, event, pending)
                    },
                    None => Next::Finish(Err(Failure::Protocol)),
                }
            },
        }
    }
}

/// Begins the installation of `runtime`, which waits `delay` seconds before
/// it downloads: the host carries out what is handed back and gives its
/// answer to `Installation::advance`, until that hands back how it ended.
pub fn provision(
    runtime: Runtime,
    config: &ScriptConfig,
    force: bool,
    platform: Platform,
    arch: Arch,
    delay: u64,
) -> (r: Next<Installation, Result<(), Failure>>)
    ensures
        install_next_view(r) == install_start(runtime, config@, force, platform, arch, delay),
{
    let steps = plan(runtime, config, force, platform, arch, delay);
    let pending = queue_before(steps, VecDeque::new());
    assert(pending.deep_view() =~= steps.deep_view());
    if force {
        take_up(pending)
    } else {
        Next::Perform(
            Installation { pending, phase: Phase::Checking },
            Action::Probe { path: binary_of(runtime, config).clone() },
        )
    }
}

/// An interpreter that is there is left alone: an installation that is not
/// forced asks only whether the interpreter is there, and where it is, ends
/// with success without another request. Nothing is removed and nothing is
/// fetched, however often this is repeated.
pub proof fn lemma_present_interpreter_is_left_alone(
    runtime: Runtime,
    config: ScriptConfigView,
    platform: Platform,
    arch: Arch,
    delay: u64,
)
    ensures
        install_start(runtime, config, false, platform, arch, delay) matches Planned::Perform(
            state,
            action,
        ) && action == (ActionView::Probe { path: binary_path(runtime, config) }) && install_step(
            state,
            EventView::Probed { present: true },
        ) == Planned::<InstallationView, Verdict>::Finish(Ok(())),
{
}

/// A forced installation begins by looking at the directory of the
/// interpreter. Where something is there, it is removed with all it holds
/// before anything is created or fetched, and where that fails the
/// installation ends at once with the failure. Where nothing is there,
/// nothing is removed and the installation goes on with the next step: a
/// forced installation also installs what was never installed.
pub proof fn lemma_forced_install_clears_first(
    runtime: Runtime,
    config: ScriptConfigView,
    platform: Platform,
    arch: Arch,
    delay: u64,
    message: Seq<char>,
)
    requires
        parent_of(binary_path(runtime, config)) is Some,
    ensures
        install_start(runtime, config, true, platform, arch, delay) matches Planned::Perform(
            looking,
            look,
        ) && look == (ActionView::Probe { path: parent_of(binary_path(runtime, config))->Some_0 })
            && install_step(looking, EventView::Probed { present: false }) == proceed(
            plan_of(runtime, config, true, platform, arch, delay).drop_first(),
        ) && (install_step(looking, EventView::Probed { present: true }) matches Planned::Perform(
            removing,
            removal,
        ) && removal == (ActionView::RemoveTree {
            path: parent_of(binary_path(runtime, config))->Some_0,
        }) && install_step(removing, EventView::Failed { message }) == Planned::<
            InstallationView,
            Verdict,
        >::Finish(
            Err(
                FailureView::Filesystem {
                    operation: FsOp::RemoveTree,
                    path: parent_of(binary_path(runtime, config))->Some_0,
                    message,
                },
            ),
        )),
{
    let install_dir = parent_of(binary_path(runtime, config))->Some_0;
    let pending = plan_of(runtime, config, true, platform, arch, delay);
    assert(pending[0] == StepView::ClearTree { path: install_dir });
    let rest = pending.drop_first();
    let removing = seq![StepView::RemoveTree { path: install_dir }] + rest;
    assert(removing[0] == StepView::RemoveTree { path: install_dir });
    assert(removing.drop_first() =~= rest);
}

/// An installation that downloads has succeeded only where the interpreter
/// is at its configured path in the end. The last step of its plan looks
/// there: where the interpreter is, the installation ends with success;
/// where it is not, whatever the archive held, it ends with an `Archive`
/// failure that names the path.
pub proof fn lemma_success_finds_the_interpreter(
    runtime: Runtime,
    config: ScriptConfigView,
    force: bool,
    platform: Platform,
    arch: Arch,
    delay: u64,
)
    requires
        parent_of(binary_path(runtime, config)) matches Some(dir) && parent_of(dir) is Some,
        asset_of(runtime, platform, arch) is Some,
    ensures
        plan_of(runtime, config, force, platform, arch, delay).last() == (StepView::Require {
            path: binary_path(runtime, config),
        }),
        proceed(seq![StepView::Require { path: binary_path(runtime, config) }])
            matches Planned::Perform(looking, look) && look == (ActionView::Probe {
            path: binary_path(runtime, config),
        }) && install_step(looking, EventView::Probed { present: true }) == Planned::<
            InstallationView,
            Verdict,
        >::Finish(Ok(())) && install_step(looking, EventView::Probed { present: false })
            == Planned::<InstallationView, Verdict>::Finish(
            Err(missing(binary_path(runtime, config))),
        ),
{
    let last = seq![StepView::Require { path: binary_path(runtime, config) }];
    assert(last[0] == StepView::Require { path: binary_path(runtime, config) });
    assert(last.drop_first() =~= Seq::<StepView>::empty());
}

/// Where no archive is published for the machine, no step of the plan
/// touches the network, and the plan ends in `UnsupportedPlatform` where
/// the interpreter's path lies two directories deep at least.
pub proof fn lemma_unsupported_machine_never_downloads(
    runtime: Runtime,
    config: ScriptConfigView,
    force: bool,
    platform: Platform,
    arch: Arch,
    delay: u64,
)
    requires
        asset_of(runtime, platform, arch) is None,
    ensures
        forall|i: int|
            0 <= i < plan_of(runtime, config, force, platform, arch, delay).len() ==> !(
            #[trigger] plan_of(runtime, config, force, platform, arch, delay)[i]).uses_network(),
        parent_of(binary_path(runtime, config)) matches Some(dir) && parent_of(dir) is Some
            ==> plan_of(runtime, config, force, platform, arch, delay).last() == (StepView::Fail {
            failure: FailureView::UnsupportedPlatform { runtime, platform, arch },
        }),
{
}

/// Only a success status lets a download go on: any other ends the
/// installation with a `Network` failure that gives the status.
pub proof fn lemma_refused_download_ends_installation(s: InstallationView, code: u16)
    requires
        s.phase == Phase::Acting,
        s.pending.len() > 0,
        s.pending[0] is Request,
    ensures
        is_success(code) ==> install_step(s, EventView::Status { code }) == proceed(
            s.pending.drop_first(),
        ),
        !is_success(code) ==> install_step(s, EventView::Status { code }) == Planned::<
            InstallationView,
            Verdict,
        >::Finish(Err(FailureView::Network { status: Some(code), message: Seq::empty() })),
{
}

/// An archive that cannot be removed after it was unpacked does not make
/// the installation fail.
pub proof fn lemma_archive_may_stay(s: InstallationView, message: Seq<char>)
    requires
        s.phase == Phase::Acting,
        s.pending.len() > 0,
        s.pending[0] is Discard,
    ensures
        install_step(s, EventView::Failed { message }) == proceed(s.pending.drop_first()),
        install_step(s, EventView::Done) == proceed(s.pending.drop_first()),
{
}

/// How many of the steps unpack an archive.
pub open spec fn unpacks(pending: Seq<StepView>) -> nat
    decreases pending.len(),
{
    if pending.len() == 0 {
        0
    } else {
        let first: nat = if pending[0] is Unpack {
            1
        } else {
            0
        };
        first + unpacks(pending.drop_first())
    }
}

/// How many requests the steps make at most, apart from what unpacking
/// adds: two for a step that looks before it acts, one for any other.
pub open spec fn requests(pending: Seq<StepView>) -> nat
    decreases pending.len(),
{
    if pending.len() == 0 {
        0
    } else {
        let first: nat = if pending[0].is_guarded() {
            2
        } else {
            1
        };
        first + requests(pending.drop_first())
    }
}

/// What an installation still has before it: the archives to unpack, and
/// the requests of its steps, with one more while it asks whether the
/// interpreter is there.
pub open spec fn effort(s: InstallationView) -> (nat, nat) {
    let checking: nat = if s.phase == Phase::Checking {
        1
    } else {
        0
    };
    (unpacks(s.pending), requests(s.pending) + checking)
}

/// True when `a` is less than `b`: fewer archives to unpack, or as many
/// and fewer requests.
pub open spec fn less_effort(a: (nat, nat), b: (nat, nat)) -> bool {
    a.0 < b.0 || (a.0 == b.0 && a.1 < b.1)
}

proof fn lemma_counts_add(a: Seq<StepView>, b: Seq<StepView>)
    ensures
        unpacks(a + b) == unpacks(a) + unpacks(b),
        requests(a + b) == requests(a) + requests(b),
    decreases a.len(),
{
    if a.len() == 0 {
        assert(a + b == b);
    } else {
        assert((a + b)[0] == a[0]);
        assert((a + b).drop_first() == a.drop_first() + b);
        lemma_counts_add(a.drop_first(), b);
    }
}

proof fn lemma_one_step(step: StepView, rest: Seq<StepView>)
    ensures
        unpacks(seq![step] + rest) == unpacks(rest) + if step is Unpack {
            1nat
        } else {
            0nat
        },
        requests(seq![step] + rest) == requests(rest) + if step.is_guarded() {
            2nat
        } else {
            1nat
        },
{
    let all = seq![step] + rest;
    assert(all[0] == step);
    assert(all.drop_first() == rest);
}

/// Unpacking brings no archive to unpack.
proof fn lemma_extraction_unpacks_nothing(
    dest: Seq<char>,
    entries: Seq<(Seq<char>, Result<Seq<u8>, Seq<char>>)>,
)
    ensures
        unpacks(extraction(dest, entries)) == 0,
    decreases entries.len(),
{
    if entries.len() > 0 {
        match entries[0].1 {
            Ok(data) => {
                let first = entry_steps(dest, entries[0].0, data);
                lemma_extraction_unpacks_nothing(dest, entries.drop_first());
                lemma_counts_add(first, extraction(dest, entries.drop_first()));
                if first.len() == 2 {
                    lemma_one_step(first[0], seq![first[1]]);
                    assert(seq![first[0]] + seq![first[1]] == first);
                    lemma_one_step(first[1], Seq::empty());
                    assert(seq![first[1]] + Seq::<StepView>::empty() == seq![first[1]]);
                } else {
                    lemma_one_step(first[0], Seq::empty());
                    assert(seq![first[0]] + Seq::<StepView>::empty() == first);
                }
            },
            Err(message) => {
                lemma_one_step(unreadable(message), Seq::empty());
                assert(seq![unreadable(message)] + Seq::<StepView>::empty() == seq![
                    unreadable(message),
                ]);
            },
        }
    }
}

proof fn lemma_proceed_keeps_steps(pending: Seq<StepView>)
    ensures
        proceed(pending) matches Planned::Perform(next, _) ==> next.pending == pending
            && next.phase != Phase::Checking,
{
}

/// Every installation ends. With each answer of the host an installation
/// either ends or has less before it: fewer archives to unpack, or as many
/// and fewer requests to make.
pub proof fn lemma_installation_gets_nearer_its_end(s: InstallationView, e: EventView)
    ensures
        install_step(s, e) matches Planned::Perform(next, _) ==> less_effort(
            effort(next),
            effort(s),
        ),
{
    if install_step(s, e) is Perform {
        if s.phase == Phase::Checking {
            lemma_proceed_keeps_steps(s.pending);
        } else {
            let step = s.pending[0];
            let rest = s.pending.drop_first();
            assert(s.pending == seq![step] + rest);
            lemma_one_step(step, rest);
            lemma_proceed_keeps_steps(rest);
            if s.phase == Phase::Probing {
                match step {
                    StepView::ClearTree { path } => {
                        lemma_one_step(StepView::RemoveTree { path }, rest);
                        lemma_proceed_keeps_steps(seq![StepView::RemoveTree { path }] + rest);
                    },
                    StepView::EnsureDirs { path } => {
                        lemma_one_step(StepView::CreateDirs { path }, rest);
                        lemma_proceed_keeps_steps(seq![StepView::CreateDirs { path }] + rest);
                    },
                    StepView::EnsureFile { path } => {
                        lemma_one_step(StepView::CreateFile { path }, rest);
                        lemma_proceed_keeps_steps(seq![StepView::CreateFile { path }] + rest);
                    },
                    _ => {},
                }
            } else {
                match (step, e) {
                    (StepView::Unpack { archive, dest }, EventView::Bytes { data }) => {
                        let added = unpacking(dest, archive_listing(data));
                        match archive_listing(data) {
                            Ok(entries) => {
                                lemma_extraction_unpacks_nothing(dest, entries);
                            },
                            Err(message) => {
                                lemma_one_step(unreadable(message), Seq::empty());
                                assert(seq![unreadable(message)] + Seq::<StepView>::empty()
                                    == added);
                            },
                        }
                        lemma_counts_add(added, rest);
                        lemma_proceed_keeps_steps(added + rest);
                    },
                    _ => {},
                }
            }
        }
    }
}

} // verus!
