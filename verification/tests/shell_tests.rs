use nextrmm_agent::failure::Runtime;
use nextrmm_agent::shell::ShellKind;

const KINDS: [ShellKind; 5] = [
    ShellKind::PowerShell,
    ShellKind::Python,
    ShellKind::Cmd,
    ShellKind::Nushell,
    ShellKind::Deno,
];

#[test]
fn every_kind_is_selected_by_its_name() {
    for kind in KINDS {
        assert_eq!(ShellKind::parse(kind.name()), Some(kind));
    }
}

#[test]
fn names_of_the_kinds() {
    assert_eq!(ShellKind::PowerShell.name(), "powershell");
    assert_eq!(ShellKind::Python.name(), "python");
    assert_eq!(ShellKind::Cmd.name(), "cmd");
    assert_eq!(ShellKind::Nushell.name(), "nushell");
    assert_eq!(ShellKind::Deno.name(), "deno");
}

#[test]
fn other_names_select_nothing() {
    assert_eq!(ShellKind::parse("invalid"), None);
    assert_eq!(ShellKind::parse(""), None);
    assert_eq!(ShellKind::parse("Python"), None);
    assert_eq!(ShellKind::parse("python "), None);
    assert_eq!(ShellKind::parse("bash"), None);
}

#[test]
fn extensions_of_the_kinds() {
    assert_eq!(ShellKind::PowerShell.extension(), ".ps1");
    assert_eq!(ShellKind::Python.extension(), ".py");
    assert_eq!(ShellKind::Cmd.extension(), ".bat");
    assert_eq!(ShellKind::Nushell.extension(), ".nu");
    assert_eq!(ShellKind::Deno.extension(), ".ts");
}

#[test]
fn no_two_kinds_share_an_extension() {
    for a in KINDS {
        for b in KINDS {
            assert_eq!(a.extension() == b.extension(), a == b);
        }
    }
}

#[test]
fn the_agent_installs_python_nushell_and_deno() {
    assert!(!ShellKind::PowerShell.needs_provisioning());
    assert!(ShellKind::Python.needs_provisioning());
    assert!(!ShellKind::Cmd.needs_provisioning());
    assert!(ShellKind::Nushell.needs_provisioning());
    assert!(ShellKind::Deno.needs_provisioning());
    assert_eq!(Runtime::of_shell(ShellKind::Python), Some(Runtime::Python));
    assert_eq!(Runtime::of_shell(ShellKind::Nushell), Some(Runtime::Nushell));
    assert_eq!(Runtime::of_shell(ShellKind::Deno), Some(Runtime::Deno));
    assert_eq!(Runtime::of_shell(ShellKind::PowerShell), None);
    assert_eq!(Runtime::of_shell(ShellKind::Cmd), None);
}
