//! What can go wrong, and how it is reported.

use vstd::prelude::*;
use vstd::string::*;
use crate::shell::ShellKind;
use crate::text::{chain, decimal, format_i64, format_u64, signed_decimal};

verus! {

/// An interpreter that the agent installs.
#[derive(Clone, Copy, Debug, PartialEq, Eq, Structural)]
pub enum Runtime {
    Python,
    Nushell,
    Deno,
}

/// An operating system.
#[derive(Clone, Copy, Debug, PartialEq, Eq, Structural)]
pub enum Platform {
    Windows,
    Linux,
    MacOs,
    Other,
}

/// A kind of processor.
#[derive(Clone, Copy, Debug, PartialEq, Eq, Structural)]
pub enum Arch {
    X86_64,
    Aarch64,
    Other,
}

/// An operation on the file system.
#[derive(Clone, Copy, Debug, PartialEq, Eq, Structural)]
pub enum FsOp {
    RemoveTree,
    CreateDirs,
    CreateFile,
    WriteFile,
    Rename,
    SaveBody,
    CreateScript,
}

/// Why an operation did not give its result.
#[derive(Debug, Clone, PartialEq, Eq)]
pub enum Failure {
    /// The configuration cannot be used as it is: a proxy address that is
    /// none, an interpreter path without a directory above it.
    Configuration { message: String },
    /// No download exists for this interpreter on this machine.
    UnsupportedPlatform { runtime: Runtime, platform: Platform, arch: Arch },
    /// The server answered with `status`, which is no success; or, where
    /// `status` is absent, no answer came.
    Network { status: Option<u16>, message: String },
    /// The archive cannot be read, or lacks what it should hold.
    Archive { message: String },
    Filesystem { operation: FsOp, path: String, message: String },
    /// The interpreter of a script is not there yet.
    InterpreterNotInstalled { kind: ShellKind },
    UnsupportedShellKind { name: String },
    ProcessSpawn { message: String },
    ProcessWait { message: String },
    /// An installer script ran and ended with a code other than 0.
    InstallerFailed { exit_code: i32 },
    /// The host answered with an event that the action it was given cannot
    /// produce.
    Protocol,
}

/// `Failure` as contracts see it.
pub enum FailureView {
    Configuration { message: Seq<char> },
    UnsupportedPlatform { runtime: Runtime, platform: Platform, arch: Arch },
    Network { status: Option<u16>, message: Seq<char> },
    Archive { message: Seq<char> },
    Filesystem { operation: FsOp, path: Seq<char>, message: Seq<char> },
    InterpreterNotInstalled { kind: ShellKind },
    UnsupportedShellKind { name: Seq<char> },
    ProcessSpawn { message: Seq<char> },
    ProcessWait { message: Seq<char> },
    InstallerFailed { exit_code: i32 },
    Protocol,
}

impl View for Failure {
    type V = FailureView;

    open spec fn view(&self) -> FailureView {
        match *self {
            Failure::Configuration { message } => FailureView::Configuration { message: message@ },
            Failure::UnsupportedPlatform { runtime, platform, arch } => {
                FailureView::UnsupportedPlatform { runtime, platform, arch }
            },
            Failure::Network { status, message } => FailureView::Network {
                status,
                message: message@,
            },
            Failure::Archive { message } => FailureView::Archive { message: message@ },
            Failure::Filesystem { operation, path, message } => FailureView::Filesystem {
                operation,
                path: path@,
                message: message@,
            },
            Failure::InterpreterNotInstalled { kind } => FailureView::InterpreterNotInstalled {
                kind,
            },
            Failure::UnsupportedShellKind { name } => FailureView::UnsupportedShellKind {
                name: name@,
            },
            Failure::ProcessSpawn { message } => FailureView::ProcessSpawn { message: message@ },
            Failure::ProcessWait { message } => FailureView::ProcessWait { message: message@ },
            Failure::InstallerFailed { exit_code } => FailureView::InstallerFailed { exit_code },
            Failure::Protocol => FailureView::Protocol,
        }
    }
}

/// The view of a result whose error is a `Failure`.
pub open spec fn outcome_of<T: View>(r: Result<T, Failure>) -> Result<T::V, FailureView> {
    match r {
        Ok(v) => Ok(v@),
        Err(e) => Err(e@),
    }
}

/// The view of a result without a value.
pub open spec fn verdict_of(r: Result<(), Failure>) -> Result<(), FailureView> {
    match r {
        Ok(_) => Ok(()),
        Err(e) => Err(e@),
    }
}

impl Runtime {
    pub open spec fn spec_name(self) -> Seq<char> {
        match self {
            Runtime::Python => "python"@,
            Runtime::Nushell => "nushell"@,
            Runtime::Deno => "deno"@,
        }
    }

    pub fn name(self) -> (r: &'static str)
        ensures
            r@ == self.spec_name(),
    {
        match self {
            Runtime::Python => "python",
            Runtime::Nushell => "nushell",
            Runtime::Deno => "deno",
        }
    }

    /// The interpreter that runs scripts of the given kind, where the agent
    /// installs it.
    pub open spec fn spec_of_shell(kind: ShellKind) -> Option<Runtime> {
        match kind {
            ShellKind::Python => Some(Runtime::Python),
            ShellKind::Nushell => Some(Runtime::Nushell),
            ShellKind::Deno => Some(Runtime::Deno),
            ShellKind::PowerShell => None,
            ShellKind::Cmd => None,
        }
    }

    pub fn of_shell(kind: ShellKind) -> (r: Option<Runtime>)
        ensures
            r == Self::spec_of_shell(kind),
            r is Some <==> kind.spec_needs_provisioning(),
    {
        match kind {
            ShellKind::Python => Some(Runtime::Python),
            ShellKind::Nushell => Some(Runtime::Nushell),
            ShellKind::Deno => Some(Runtime::Deno),
            ShellKind::PowerShell => None,
            ShellKind::Cmd => None,
        }
    }
}

impl Platform {
    pub open spec fn spec_name(self) -> Seq<char> {
        match self {
            Platform::Windows => "windows"@,
            Platform::Linux => "linux"@,
            Platform::MacOs => "macos"@,
            Platform::Other => "other"@,
        }
    }

    pub fn name(self) -> (r: &'static str)
        ensures
            r@ == self.spec_name(),
    {
        match self {
            Platform::Windows => "windows",
            Platform::Linux => "linux",
            Platform::MacOs => "macos",
            Platform::Other => "other",
        }
    }
}

impl Arch {
    pub open spec fn spec_name(self) -> Seq<char> {
        match self {
            Arch::X86_64 => "x86_64"@,
            Arch::Aarch64 => "aarch64"@,
            Arch::Other => "other"@,
        }
    }

    pub fn name(self) -> (r: &'static str)
        ensures
            r@ == self.spec_name(),
    {
        match self {
            Arch::X86_64 => "x86_64",
            Arch::Aarch64 => "aarch64",
            Arch::Other => "other",
        }
    }
}

impl FsOp {
    /// What is said of an operation that failed.
    pub open spec fn spec_label(self) -> Seq<char> {
        match self {
            FsOp::RemoveTree => "Failed to remove directory"@,
            FsOp::CreateDirs => "Failed to create directory"@,
            FsOp::CreateFile => "Failed to create file"@,
            FsOp::WriteFile => "Failed to write file"@,
            FsOp::Rename => "Failed to rename"@,
            FsOp::SaveBody => "Failed to save file"@,
            FsOp::CreateScript => "Failed to create temporary file"@,
        }
    }

    pub fn label(self) -> (r: &'static str)
        ensures
            r@ == self.spec_label(),
    {
        match self {
            FsOp::RemoveTree => "Failed to remove directory",
            FsOp::CreateDirs => "Failed to create directory",
            FsOp::CreateFile => "Failed to create file",
            FsOp::WriteFile => "Failed to write file",
            FsOp::Rename => "Failed to rename",
            FsOp::SaveBody => "Failed to save file",
            FsOp::CreateScript => "Failed to create temporary file",
        }
    }
}

/// What is said where the interpreter of a script is missing. For the three
/// that the agent installs, the sentence names the call that installs it.
pub open spec fn missing_interpreter(kind: ShellKind) -> Seq<char> {
    match kind {
        ShellKind::Python => "Python is not installed, please run install_python()"@,
        ShellKind::Nushell => "Nushell is not installed, please run install_nu_shell()"@,
        ShellKind::Deno => "Deno is not installed, please run install_deno()"@,
        ShellKind::PowerShell => "PowerShell not found"@,
        ShellKind::Cmd => "CMD not found"@,
    }
}

/// The sentence that reports a failure.
pub open spec fn description(f: FailureView) -> Seq<char> {
    match f {
        FailureView::Configuration { message } => "Configuration error: "@ + message,
        FailureView::UnsupportedPlatform { runtime, platform, arch } => "No download of "@
            + runtime.spec_name() + " for "@ + platform.spec_name() + " on "@ + arch.spec_name(),
        FailureView::Network { status, message } => match status {
            Some(code) => "Download failed with status: "@ + decimal(code as nat),
            None => "Download failed: "@ + message,
        },
        FailureView::Archive { message } => "Archive error: "@ + message,
        FailureView::Filesystem { operation, path, message } => operation.spec_label() + " "@
            + path + ": "@ + message,
        FailureView::InterpreterNotInstalled { kind } => missing_interpreter(kind),
        FailureView::UnsupportedShellKind { name } => "Unsupported script type: "@ + name,
        FailureView::ProcessSpawn { message } => "Failed to start process: "@ + message,
        FailureView::ProcessWait { message } => "Failed to wait for process: "@ + message,
        FailureView::InstallerFailed { exit_code } => "Installation failed with exit code: "@
            + signed_decimal(exit_code as int),
        FailureView::Protocol => "Unexpected answer from the host"@,
    }
}

impl Failure {
    pub fn describe(&self) -> (r: String)
        ensures
            r@ == description(self@),
    {
        match self {
            Failure::Configuration { message } => chain("Configuration error: ", message.as_str()),
            Failure::UnsupportedPlatform { runtime, platform, arch } => {
                let mut out = String::from_str("No download of ");
                out.append(runtime.name());
                out.append(" for ");
                out.append(platform.name());
                out.append(" on ");
                out.append(arch.name());
                out
            },
            Failure::Network { status, message } => match status {
                Some(code) => {
                    let digits = format_u64(*code as u64);
                    chain("Download failed with status: ", digits.as_str())
                },
                None => chain("Download failed: ", message.as_str()),
            },
            Failure::Archive { message } => chain("Archive error: ", message.as_str()),
            Failure::Filesystem { operation, path, message } => {
                let mut out = String::from_str(operation.label());
                out.append(" ");
                out.append(path.as_str());
                out.append(": ");
                out.append(message.as_str());
                out
            },
            Failure::InterpreterNotInstalled { kind } => match kind {
                ShellKind::Python => String::from_str(
                    "Python is not installed, please run install_python()",
                ),
                ShellKind::Nushell => String::from_str(
                    "Nushell is not installed, please run install_nu_shell()",
                ),
                ShellKind::Deno => String::from_str(
                    "Deno is not installed, please run install_deno()",
                ),
                ShellKind::PowerShell => String::from_str("PowerShell not found"),
                ShellKind::Cmd => String::from_str("CMD not found"),
            },
            Failure::UnsupportedShellKind { name } => chain(
                "Unsupported script type: ",
                name.as_str(),
            ),
            Failure::ProcessSpawn { message } => chain(
                "Failed to start process: ",
                message.as_str(),
            ),
            Failure::ProcessWait { message } => chain(
                "Failed to wait for process: ",
                message.as_str(),
            ),
            Failure::InstallerFailed { exit_code } => {
                let digits = format_i64(*exit_code as i64);
                chain("Installation failed with exit code: ", digits.as_str())
            },
            Failure::Protocol => String::from_str("Unexpected answer from the host"),
        }
    }
}

} // verus!
