use nextrmm_agent::agent_config::ScriptConfig;
use nextrmm_agent::dispatch::{
    build_command, check_script_environment, deno_permissions, required_binary, DispatchOptions,
};
use nextrmm_agent::failure::Failure;
use nextrmm_agent::shell::ShellKind;

fn config() -> ScriptConfig {
    ScriptConfig::for_install_dir("C:\\agent")
}

fn texts(items: &[&str]) -> Vec<String> {
    items.iter().map(|s| s.to_string()).collect()
}

#[test]
fn powershell_command_line() {
    let command = build_command(
        ShellKind::PowerShell,
        "C:\\t\\script_1.ps1",
        &texts(&["ignored"]),
        &DispatchOptions::defaults(),
        &config(),
    );
    assert_eq!(command.executable, "powershell.exe");
    assert_eq!(
        command.args,
        texts(&[
            "-NonInteractive",
            "-NoProfile",
            "-ExecutionPolicy",
            "Bypass",
            "-File",
            "C:\\t\\script_1.ps1"
        ])
    );
}

#[test]
fn python_command_line() {
    let command = build_command(
        ShellKind::Python,
        "C:\\t\\script_1.py",
        &texts(&["ignored"]),
        &DispatchOptions::defaults(),
        &config(),
    );
    assert_eq!(command.executable, "C:\\agent\\runtime\\python\\python.exe");
    assert_eq!(command.args, texts(&["C:\\t\\script_1.py"]));
}

#[test]
fn cmd_runs_the_script_itself() {
    let command = build_command(
        ShellKind::Cmd,
        "C:\\t\\script_1.bat",
        &texts(&["ignored"]),
        &DispatchOptions::defaults(),
        &config(),
    );
    assert_eq!(command.executable, "C:\\t\\script_1.bat");
    assert_eq!(command.args, Vec::<String>::new());
}

#[test]
fn nushell_without_user_configuration() {
    let command = build_command(
        ShellKind::Nushell,
        "C:\\t\\script_1.nu",
        &texts(&["ignored"]),
        &DispatchOptions::defaults(),
        &config(),
    );
    assert_eq!(command.executable, "C:\\agent\\runtime\\nushell\\nu.exe");
    assert_eq!(command.args, texts(&["C:\\t\\script_1.nu"]));
}

#[test]
fn nushell_with_user_configuration() {
    let options = DispatchOptions { enable_user_config: true, permissions: vec![] };
    let command =
        build_command(ShellKind::Nushell, "C:\\t\\script_1.nu", &vec![], &options, &config());
    assert_eq!(command.executable, "C:\\agent\\runtime\\nushell\\nu.exe");
    assert_eq!(
        command.args,
        texts(&[
            "--config",
            "C:\\agent/etc/nushell/config.nu",
            "--env-config",
            "C:\\agent/etc/nushell/env.nu",
            "C:\\t\\script_1.nu"
        ])
    );
}

#[test]
fn deno_command_line_with_extra_arguments() {
    let command = build_command(
        ShellKind::Deno,
        "C:\\t\\script_1.ts",
        &texts(&["--flag", "value"]),
        &DispatchOptions::defaults(),
        &config(),
    );
    assert_eq!(command.executable, "C:\\agent\\runtime\\deno\\deno.exe");
    assert_eq!(
        command.args,
        texts(&["run", "--no-prompt", "--allow-all", "C:\\t\\script_1.ts", "--flag", "value"])
    );
}

#[test]
fn deno_command_line_with_chosen_permissions() {
    let options = DispatchOptions {
        enable_user_config: false,
        permissions: texts(&["--allow-read", "--allow-net"]),
    };
    let command =
        build_command(ShellKind::Deno, "C:\\t\\script_1.ts", &vec![], &options, &config());
    assert_eq!(
        command.args,
        texts(&["run", "--no-prompt", "--allow-read", "--allow-net", "C:\\t\\script_1.ts"])
    );
}

#[test]
fn default_options() {
    let options = DispatchOptions::defaults();
    assert!(!options.enable_user_config);
    assert_eq!(options.permissions, texts(&["--allow-all"]));
}

#[test]
fn deno_permissions_come_from_the_environment_entries() {
    assert_eq!(deno_permissions(&vec![]), texts(&["--allow-all"]));
    assert_eq!(deno_permissions(&texts(&["A=1", "B"])), texts(&["--allow-all"]));
    assert_eq!(
        deno_permissions(&texts(&["A=1", "DENO_PERMISSIONS=--allow-read  --allow-env=HOME"])),
        texts(&["--allow-read", "--allow-env=HOME"])
    );
    assert_eq!(
        deno_permissions(&texts(&["DENO_PERMISSIONS=--allow-net", "DENO_PERMISSIONS=--allow-all"])),
        texts(&["--allow-net"])
    );
    assert_eq!(deno_permissions(&texts(&["DENO_PERMISSIONS="])), Vec::<String>::new());
    assert_eq!(deno_permissions(&texts(&["DENO_PERMISSIONS"])), texts(&["--allow-all"]));
}

#[test]
fn required_binary_of_each_kind() {
    let c = config();
    assert_eq!(required_binary(ShellKind::Python, &c), Some(c.py_bin.clone()));
    assert_eq!(required_binary(ShellKind::Nushell, &c), Some(c.nu_bin.clone()));
    assert_eq!(required_binary(ShellKind::Deno, &c), Some(c.deno_bin.clone()));
    assert_eq!(required_binary(ShellKind::PowerShell, &c), None);
    assert_eq!(required_binary(ShellKind::Cmd, &c), None);
}

#[test]
fn environment_check_asks_for_installed_interpreters_only() {
    assert_eq!(check_script_environment(ShellKind::Python, true), Ok(()));
    assert_eq!(
        check_script_environment(ShellKind::Python, false),
        Err(Failure::InterpreterNotInstalled { kind: ShellKind::Python })
    );
    assert_eq!(
        check_script_environment(ShellKind::Nushell, false),
        Err(Failure::InterpreterNotInstalled { kind: ShellKind::Nushell })
    );
    assert_eq!(
        check_script_environment(ShellKind::Deno, false),
        Err(Failure::InterpreterNotInstalled { kind: ShellKind::Deno })
    );
    assert_eq!(check_script_environment(ShellKind::PowerShell, false), Ok(()));
    assert_eq!(check_script_environment(ShellKind::Cmd, false), Ok(()));
}
