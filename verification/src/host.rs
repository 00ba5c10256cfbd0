//! The protocol between the library and the program that hosts it. The
//! library decides; the host touches the file system, the network and child
//! processes. A decision procedure hands the host one `Action` at a time and
//! is told what came of it by an `Event`, until it hands back a result.

use vstd::prelude::*;
use vstd::string::*;
use crate::agent_config::text_of;

verus! {

/// What the host is asked to do next.
#[derive(Debug, Clone, PartialEq, Eq)]
pub enum Action {
    /// Say whether anything exists at `path`. Answer: `Probed`.
    Probe { path: String },
    /// Remove a directory with all it holds. Answer: `Done` or `Failed`.
    RemoveTree { path: String },
    /// Remove one file. Answer: `Done` or `Failed`.
    RemoveFile { path: String },
    /// Create a directory and the directories above it. Answer: `Done` or `Failed`.
    CreateDirs { path: String },
    /// Create an empty file. Answer: `Done` or `Failed`.
    CreateFile { path: String },
    /// Create or replace a file with the given bytes. Answer: `Done` or `Failed`.
    WriteFile { path: String, data: Vec<u8> },
    /// Move a file or directory. Answer: `Done` or `Failed`.
    Rename { from: String, to: String },
    /// Wait for so many seconds. Answer: `Done`.
    Pause { seconds: u64 },
    /// Prepare an HTTP client that sends through `proxy` where there is one.
    /// Answer: `Done`, or `Failed` where the proxy address is not usable.
    Connect { proxy: Option<String> },
    /// Send a GET request. Answer: `Status`, or `Failed` where no response came.
    Request { url: String },
    /// Store the body of the last response in a file. Answer: `Done` or `Failed`.
    SaveBody { path: String },
    /// Read the body of the last response as text. Answer: `Text` or `Failed`.
    ReadBody,
    /// Read a whole file. Answer: `Bytes` or `Failed`.
    ReadFile { path: String },
    /// Create a file with a name of its own in `dir`, which starts with
    /// `prefix` and ends with `suffix`, and write `content` to it.
    /// Answer: `Created` with the file's path, or `Failed`.
    CreateScript { dir: String, prefix: String, suffix: String, content: Vec<u8> },
    /// Start a child process with its output captured and wait for it, for
    /// `limit` seconds at most where there is a limit; when the limit passes,
    /// kill it and every process that descends from it. Answer: `Exited`, `TimedOut`, `NotStarted`, or `Failed`
    /// where waiting or reading went wrong.
    Run { executable: String, args: Vec<String>, env: Vec<(String, String)>, limit: Option<u64> },
}

/// What came of the last action.
#[derive(Debug, Clone, PartialEq, Eq)]
pub enum Event {
    Done,
    Failed { message: String },
    Probed { present: bool },
    Status { code: u16 },
    Text { body: String },
    Bytes { data: Vec<u8> },
    Created { path: String },
    /// The child ended by itself; `exit_code` is absent where a signal ended it.
    Exited { exit_code: Option<i32>, stdout: String, stderr: String },
    /// The limit passed and the child was killed.
    TimedOut,
    /// The child could not be started.
    NotStarted { message: String },
}

/// `Action` as contracts see it.
pub enum ActionView {
    Probe { path: Seq<char> },
    RemoveTree { path: Seq<char> },
    RemoveFile { path: Seq<char> },
    CreateDirs { path: Seq<char> },
    CreateFile { path: Seq<char> },
    WriteFile { path: Seq<char>, data: Seq<u8> },
    Rename { from: Seq<char>, to: Seq<char> },
    Pause { seconds: u64 },
    Connect { proxy: Option<Seq<char>> },
    Request { url: Seq<char> },
    SaveBody { path: Seq<char> },
    ReadBody,
    ReadFile { path: Seq<char> },
    CreateScript { dir: Seq<char>, prefix: Seq<char>, suffix: Seq<char>, content: Seq<u8> },
    Run {
        executable: Seq<char>,
        args: Seq<Seq<char>>,
        env: Seq<(Seq<char>, Seq<char>)>,
        limit: Option<u64>,
    },
}

/// `Event` as contracts see it.
pub enum EventView {
    Done,
    Failed { message: Seq<char> },
    Probed { present: bool },
    Status { code: u16 },
    Text { body: Seq<char> },
    Bytes { data: Seq<u8> },
    Created { path: Seq<char> },
    Exited { exit_code: Option<i32>, stdout: Seq<char>, stderr: Seq<char> },
    TimedOut,
    NotStarted { message: Seq<char> },
}

impl View for Action {
    type V = ActionView;

    open spec fn view(&self) -> ActionView {
        match *self {
            Action::Probe { path } => ActionView::Probe { path: path@ },
            Action::RemoveTree { path } => ActionView::RemoveTree { path: path@ },
            Action::RemoveFile { path } => ActionView::RemoveFile { path: path@ },
            Action::CreateDirs { path } => ActionView::CreateDirs { path: path@ },
            Action::CreateFile { path } => ActionView::CreateFile { path: path@ },
            Action::WriteFile { path, data } => ActionView::WriteFile { path: path@, data: data@ },
            Action::Rename { from, to } => ActionView::Rename { from: from@, to: to@ },
            Action::Pause { seconds } => ActionView::Pause { seconds },
            Action::Connect { proxy } => ActionView::Connect { proxy: text_of(proxy) },
            Action::Request { url } => ActionView::Request { url: url@ },
            Action::SaveBody { path } => ActionView::SaveBody { path: path@ },
            Action::ReadBody => ActionView::ReadBody,
            Action::ReadFile { path } => ActionView::ReadFile { path: path@ },
            Action::CreateScript { dir, prefix, suffix, content } => ActionView::CreateScript {
                dir: dir@,
                prefix: prefix@,
                suffix: suffix@,
                content: content@,
            },
            Action::Run { executable, args, env, limit } => ActionView::Run {
                executable: executable@,
                args: args.deep_view(),
                env: env.deep_view(),
                limit,
            },
        }
    }
}

impl DeepView for Action {
    type V = ActionView;

    open spec fn deep_view(&self) -> ActionView {
        self@
    }
}

impl View for Event {
    type V = EventView;

    open spec fn view(&self) -> EventView {
        match *self {
            Event::Done => EventView::Done,
            Event::Failed { message } => EventView::Failed { message: message@ },
            Event::Probed { present } => EventView::Probed { present },
            Event::Status { code } => EventView::Status { code },
            Event::Text { body } => EventView::Text { body: body@ },
            Event::Bytes { data } => EventView::Bytes { data: data@ },
            Event::Created { path } => EventView::Created { path: path@ },
            Event::Exited { exit_code, stdout, stderr } => EventView::Exited {
                exit_code,
                stdout: stdout@,
                stderr: stderr@,
            },
            Event::TimedOut => EventView::TimedOut,
            Event::NotStarted { message } => EventView::NotStarted { message: message@ },
        }
    }
}

/// What a decision procedure hands back: itself, further on, with one more
/// action for the host; or its result.
#[derive(Debug)]
pub enum Next<M, T> {
    Perform(M, Action),
    Finish(T),
}

/// `Next` as contracts see it.
pub enum Planned<M, T> {
    Perform(M, ActionView),
    Finish(T),
}

} // verus!
