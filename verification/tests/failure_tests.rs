use nextrmm_agent::failure::{Arch, Failure, FsOp, Platform, Runtime};
use nextrmm_agent::shell::ShellKind;

#[test]
fn configuration_failure_is_described() {
    let failure = Failure::Configuration { message: "bad proxy".to_string() };
    assert_eq!(failure.describe(), "Configuration error: bad proxy");
}

#[test]
fn unsupported_platform_is_described() {
    let failure = Failure::UnsupportedPlatform {
        runtime: Runtime::Nushell,
        platform: Platform::Linux,
        arch: Arch::Aarch64,
    };
    assert_eq!(failure.describe(), "No download of nushell for linux on aarch64");
}

#[test]
fn network_failure_is_described() {
    let refused = Failure::Network { status: Some(404), message: String::new() };
    assert_eq!(refused.describe(), "Download failed with status: 404");
    let unreachable = Failure::Network { status: None, message: "timed out".to_string() };
    assert_eq!(unreachable.describe(), "Download failed: timed out");
}

#[test]
fn archive_failure_is_described() {
    let failure = Failure::Archive { message: "invalid Zip archive".to_string() };
    assert_eq!(failure.describe(), "Archive error: invalid Zip archive");
}

#[test]
fn filesystem_failure_is_described() {
    let failure = Failure::Filesystem {
        operation: FsOp::RemoveTree,
        path: "C:\\agent\\runtime\\python".to_string(),
        message: "access denied".to_string(),
    };
    assert_eq!(
        failure.describe(),
        "Failed to remove directory C:\\agent\\runtime\\python: access denied"
    );
}

#[test]
fn every_file_operation_has_its_label() {
    assert_eq!(FsOp::RemoveTree.label(), "Failed to remove directory");
    assert_eq!(FsOp::CreateDirs.label(), "Failed to create directory");
    assert_eq!(FsOp::CreateFile.label(), "Failed to create file");
    assert_eq!(FsOp::WriteFile.label(), "Failed to write file");
    assert_eq!(FsOp::Rename.label(), "Failed to rename");
    assert_eq!(FsOp::SaveBody.label(), "Failed to save file");
    assert_eq!(FsOp::CreateScript.label(), "Failed to create temporary file");
}

#[test]
fn missing_interpreter_names_the_call_that_installs_it() {
    assert_eq!(
        Failure::InterpreterNotInstalled { kind: ShellKind::Python }.describe(),
        "Python is not installed, please run install_python()"
    );
    assert_eq!(
        Failure::InterpreterNotInstalled { kind: ShellKind::Nushell }.describe(),
        "Nushell is not installed, please run install_nu_shell()"
    );
    assert_eq!(
        Failure::InterpreterNotInstalled { kind: ShellKind::Deno }.describe(),
        "Deno is not installed, please run install_deno()"
    );
    assert_eq!(
        Failure::InterpreterNotInstalled { kind: ShellKind::PowerShell }.describe(),
        "PowerShell not found"
    );
    assert_eq!(
        Failure::InterpreterNotInstalled { kind: ShellKind::Cmd }.describe(),
        "CMD not found"
    );
}

#[test]
fn unsupported_shell_kind_names_the_kind() {
    let failure = Failure::UnsupportedShellKind { name: "invalid".to_string() };
    assert_eq!(failure.describe(), "Unsupported script type: invalid");
}

#[test]
fn process_failures_are_described() {
    assert_eq!(
        Failure::ProcessSpawn { message: "not found".to_string() }.describe(),
        "Failed to start process: not found"
    );
    assert_eq!(
        Failure::ProcessWait { message: "interrupted".to_string() }.describe(),
        "Failed to wait for process: interrupted"
    );
}

#[test]
fn installer_failure_gives_the_exit_code() {
    assert_eq!(
        Failure::InstallerFailed { exit_code: 3 }.describe(),
        "Installation failed with exit code: 3"
    );
    assert_eq!(
        Failure::InstallerFailed { exit_code: -1 }.describe(),
        "Installation failed with exit code: -1"
    );
}

#[test]
fn protocol_failure_is_described() {
    assert_eq!(Failure::Protocol.describe(), "Unexpected answer from the host");
}

#[test]
fn names_of_runtimes_platforms_and_architectures() {
    assert_eq!(Runtime::Python.name(), "python");
    assert_eq!(Runtime::Nushell.name(), "nushell");
    assert_eq!(Runtime::Deno.name(), "deno");
    assert_eq!(Platform::Windows.name(), "windows");
    assert_eq!(Platform::Linux.name(), "linux");
    assert_eq!(Platform::MacOs.name(), "macos");
    assert_eq!(Platform::Other.name(), "other");
    assert_eq!(Arch::X86_64.name(), "x86_64");
    assert_eq!(Arch::Aarch64.name(), "aarch64");
    assert_eq!(Arch::Other.name(), "other");
}
