//! The steps an installation is made of.

use vstd::prelude::*;
use vstd::string::*;
use crate::agent_config::{copy_text, text_of};
use crate::failure::{Failure, FailureView};
use crate::host::{Action, ActionView};

verus! {

/// One step of an installation. The steps of a plan are taken in order; the
/// first that fails ends the installation.
#[derive(Debug, Clone, PartialEq, Eq)]
pub enum Step {
    /// Remove a directory with all it holds. It has to be there.
    RemoveTree { path: String },
    /// Remove a directory with all it holds, where it is there.
    ClearTree { path: String },
    /// Create a directory and those above it.
    CreateDirs { path: String },
    /// Create a directory and those above it, where nothing is there.
    EnsureDirs { path: String },
    /// Create an empty file, where nothing is there.
    EnsureFile { path: String },
    /// Create an empty file.
    CreateFile { path: String },
    WriteFile { path: String, data: Vec<u8> },
    Pause { seconds: u64 },
    /// Prepare the HTTP client, with the proxy where one is configured.
    Connect { proxy: Option<String> },
    /// Ask for what is at `url`; any status but a success ends the installation.
    Request { url: String },
    /// Store what the server sent at `path`.
    SaveBody { path: String },
    /// Unpack the archive at `archive` into the directory `dest`.
    Unpack { archive: String, dest: String },
    /// Remove a file; it does not matter whether that succeeds.
    Discard { path: String },
    /// End the installation unless something is at `path`.
    Require { path: String },
    Rename { from: String, to: String },
    /// End the installation with this failure.
    Fail { failure: Failure },
}

/// `Step` as contracts see it.
pub enum StepView {
    RemoveTree { path: Seq<char> },
    ClearTree { path: Seq<char> },
    CreateDirs { path: Seq<char> },
    EnsureDirs { path: Seq<char> },
    EnsureFile { path: Seq<char> },
    CreateFile { path: Seq<char> },
    WriteFile { path: Seq<char>, data: Seq<u8> },
    Pause { seconds: u64 },
    Connect { proxy: Option<Seq<char>> },
    Request { url: Seq<char> },
    SaveBody { path: Seq<char> },
    Unpack { archive: Seq<char>, dest: Seq<char> },
    Discard { path: Seq<char> },
    Require { path: Seq<char> },
    Rename { from: Seq<char>, to: Seq<char> },
    Fail { failure: FailureView },
}

impl View for Step {
    type V = StepView;

    open spec fn view(&self) -> StepView {
        match *self {
            Step::RemoveTree { path } => StepView::RemoveTree { path: path@ },
            Step::ClearTree { path } => StepView::ClearTree { path: path@ },
            Step::CreateDirs { path } => StepView::CreateDirs { path: path@ },
            Step::EnsureDirs { path } => StepView::EnsureDirs { path: path@ },
            Step::EnsureFile { path } => StepView::EnsureFile { path: path@ },
            Step::CreateFile { path } => StepView::CreateFile { path: path@ },
            Step::WriteFile { path, data } => StepView::WriteFile { path: path@, data: data@ },
            Step::Pause { seconds } => StepView::Pause { seconds },
            Step::Connect { proxy } => StepView::Connect { proxy: text_of(proxy) },
            Step::Request { url } => StepView::Request { url: url@ },
            Step::SaveBody { path } => StepView::SaveBody { path: path@ },
            Step::Unpack { archive, dest } => StepView::Unpack { archive: archive@, dest: dest@ },
            Step::Discard { path } => StepView::Discard { path: path@ },
            Step::Require { path } => StepView::Require { path: path@ },
            Step::Rename { from, to } => StepView::Rename { from: from@, to: to@ },
            Step::Fail { failure } => StepView::Fail { failure: failure@ },
        }
    }
}

impl DeepView for Step {
    type V = StepView;

    open spec fn deep_view(&self) -> StepView {
        self@
    }
}

impl StepView {
    /// True for a step that looks before it acts.
    pub open spec fn is_guarded(self) -> bool {
        self is ClearTree || self is EnsureDirs || self is EnsureFile || self is Require
    }

    /// The request that carries the step out; for a step that looks before
    /// it acts, the request to look. `Fail` asks for nothing.
    pub open spec fn request(self) -> Option<ActionView> {
        match self {
            StepView::RemoveTree { path } => Some(ActionView::RemoveTree { path }),
            StepView::ClearTree { path } => Some(ActionView::Probe { path }),
            StepView::CreateDirs { path } => Some(ActionView::CreateDirs { path }),
            StepView::EnsureDirs { path } => Some(ActionView::Probe { path }),
            StepView::EnsureFile { path } => Some(ActionView::Probe { path }),
            StepView::CreateFile { path } => Some(ActionView::CreateFile { path }),
            StepView::WriteFile { path, data } => Some(ActionView::WriteFile { path, data }),
            StepView::Pause { seconds } => Some(ActionView::Pause { seconds }),
            StepView::Connect { proxy } => Some(ActionView::Connect { proxy }),
            StepView::Request { url } => Some(ActionView::Request { url }),
            StepView::SaveBody { path } => Some(ActionView::SaveBody { path }),
            StepView::Unpack { archive, dest } => Some(ActionView::ReadFile { path: archive }),
            StepView::Discard { path } => Some(ActionView::RemoveFile { path }),
            StepView::Require { path } => Some(ActionView::Probe { path }),
            StepView::Rename { from, to } => Some(ActionView::Rename { from, to }),
            StepView::Fail { failure } => None,
        }
    }

    /// True for a step that asks the host to send or fetch over the network.
    pub open spec fn uses_network(self) -> bool {
        self is Connect || self is Request || self is SaveBody
    }
}

/// A copy of some bytes.
pub fn copy_bytes(data: &Vec<u8>) -> (r: Vec<u8>)
    ensures
        r@ == data@,
{
    let n = data.len();
    let mut out: Vec<u8> = Vec::with_capacity(n);
    let mut i: usize = 0;
    while i < n
        invariant
            i <= n,
            n == data@.len(),
            out@ == data@.take(i as int),
        decreases n - i,
    {
        out.push(data[i]);
        assert(out@ =~= data@.take(i + 1));
        i += 1;
    }
    assert(data@.take(n as int) =~= data@);
    out
}

impl Step {
    /// The request that carries the step out.
    pub fn request(&self) -> (r: Option<Action>)
        ensures
            r.deep_view() == self@.request(),
    {
        match self {
            Step::RemoveTree { path } => Some(Action::RemoveTree { path: path.clone() }),
            Step::ClearTree { path } => Some(Action::Probe { path: path.clone() }),
            Step::CreateDirs { path } => Some(Action::CreateDirs { path: path.clone() }),
            Step::EnsureDirs { path } => Some(Action::Probe { path: path.clone() }),
            Step::EnsureFile { path } => Some(Action::Probe { path: path.clone() }),
            Step::CreateFile { path } => Some(Action::CreateFile { path: path.clone() }),
            Step::WriteFile { path, data } => Some(
                Action::WriteFile { path: path.clone(), data: copy_bytes(data) },
            ),
            Step::Pause { seconds } => Some(Action::Pause { seconds: *seconds }),
            Step::Connect { proxy } => Some(Action::Connect { proxy: copy_text(proxy) }),
            Step::Request { url } => Some(Action::Request { url: url.clone() }),
            Step::SaveBody { path } => Some(Action::SaveBody { path: path.clone() }),
            Step::Unpack { archive, dest } => Some(Action::ReadFile { path: archive.clone() }),
            Step::Discard { path } => Some(Action::RemoveFile { path: path.clone() }),
            Step::Require { path } => Some(Action::Probe { path: path.clone() }),
            Step::Rename { from, to } => Some(
                Action::Rename { from: from.clone(), to: to.clone() },
            ),
            Step::Fail { failure } => None,
        }
    }
}

} // verus!
