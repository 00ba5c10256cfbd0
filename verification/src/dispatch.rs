//! From an interpreter and a script file to the command line that runs it.

use vstd::prelude::*;
use vstd::string::*;
use crate::agent_config::{ScriptConfig, ScriptConfigView};
use crate::failure::{Failure, FailureView, verdict_of};
use crate::runner::{assignment_of, parse_assignment};
use crate::shell::ShellKind;
use crate::text::{chain, same_text, split_words, words};

verus! {

/// A program and the arguments it is started with.
#[derive(Debug, Clone, PartialEq, Eq)]
pub struct CommandLine {
    pub executable: String,
    pub args: Vec<String>,
}

/// `CommandLine` as contracts see it.
pub struct CommandLineView {
    pub executable: Seq<char>,
    pub args: Seq<Seq<char>>,
}

impl View for CommandLine {
    type V = CommandLineView;

    open spec fn view(&self) -> CommandLineView {
        CommandLineView { executable: self.executable@, args: self.args.deep_view() }
    }
}

/// What a request may choose about the command line.
#[derive(Debug)]
pub struct DispatchOptions {
    /// Nushell: load the agent's `config.nu` and `env.nu`.
    pub enable_user_config: bool,
    /// Deno: the permission flags, each an argument of its own.
    pub permissions: Vec<String>,
}

/// The permission flags Deno gets where a request names none.
pub open spec fn default_permissions() -> Seq<Seq<char>> {
    seq!["--allow-all"@]
}

/// The arguments that make Nushell load the agent's configuration files.
pub open spec fn nushell_config_args(program_dir: Seq<char>) -> Seq<Seq<char>> {
    seq![
        "--config"@,
        program_dir + "/etc/nushell/config.nu"@,
        "--env-config"@,
        program_dir + "/etc/nushell/env.nu"@,
    ]
}

/// The command line for a script of the given kind:
///
/// | kind       | program          | arguments                                                        |
/// |------------|------------------|------------------------------------------------------------------|
/// | PowerShell | `powershell.exe` | `-NonInteractive -NoProfile -ExecutionPolicy Bypass -File <path>` |
/// | Python     | `py_bin`         | `<path>`                                                         |
/// | Cmd        | `<path>`         | none                                                             |
/// | Nushell    | `nu_bin`         | the configuration arguments where enabled, then `<path>`         |
/// | Deno       | `deno_bin`       | `run --no-prompt <permissions> <path>`, then the extra arguments |
pub open spec fn command_for(
    kind: ShellKind,
    script_path: Seq<char>,
    extra: Seq<Seq<char>>,
    user_config: bool,
    permissions: Seq<Seq<char>>,
    config: ScriptConfigView,
) -> CommandLineView {
    match kind {
        ShellKind::PowerShell => CommandLineView {
            executable: "powershell.exe"@,
            args: seq![
                "-NonInteractive"@,
                "-NoProfile"@,
                "-ExecutionPolicy"@,
                "Bypass"@,
                "-File"@,
                script_path,
            ],
        },
        ShellKind::Python => CommandLineView { executable: config.py_bin, args: seq![script_path] },
        ShellKind::Cmd => CommandLineView { executable: script_path, args: Seq::empty() },
        ShellKind::Nushell => CommandLineView {
            executable: config.nu_bin,
            args: if user_config {
                nushell_config_args(config.program_dir).push(script_path)
            } else {
                seq![script_path]
            },
        },
        ShellKind::Deno => CommandLineView {
            executable: config.deno_bin,
            args: seq!["run"@, "--no-prompt"@] + permissions + seq![script_path] + extra,
        },
    }
}

impl DispatchOptions {
    /// No user configuration for Nushell, every permission for Deno.
    pub fn defaults() -> (r: DispatchOptions)
        ensures
            !r.enable_user_config,
            r.permissions.deep_view() == default_permissions(),
    {
        let mut permissions: Vec<String> = Vec::new();
        permissions.push(String::from_str("--allow-all"));
        assert(permissions.deep_view() =~= default_permissions());
        DispatchOptions { enable_user_config: false, permissions }
    }
}

/// Appends a copy of every text of `more` to `args`.
pub fn extend_with(args: &mut Vec<String>, more: &Vec<String>)
    ensures
        final(args).deep_view() == old(args).deep_view() + more.deep_view(),
{
    let n = more.len();
    let mut i: usize = 0;
    assert(more.deep_view().take(0) =~= Seq::<Seq<char>>::empty());
    assert(args.deep_view() + Seq::<Seq<char>>::empty() =~= args.deep_view());
    while i < n
        invariant
            i <= n,
            n == more@.len(),
            args.deep_view() == old(args).deep_view() + more.deep_view().take(i as int),
        decreases n - i,
    {
        let ghost before = args.deep_view();
        args.push(more[i].clone());
        assert(args.deep_view() =~= before.push(more@[i as int]@));
        assert(more.deep_view().take(i + 1) =~= more.deep_view().take(i as int).push(
            more@[i as int]@,
        ));
        i += 1;
    }
    assert(more.deep_view().take(n as int) =~= more.deep_view());
}

/// The command line that runs the script at `script_path`.
pub fn build_command(
    kind: ShellKind,
    script_path: &str,
    extra_args: &Vec<String>,
    options: &DispatchOptions,
    config: &ScriptConfig,
) -> (r: CommandLine)
    ensures
        r@ == command_for(
            kind,
            script_path@,
            extra_args.deep_view(),
            options.enable_user_config,
            options.permissions.deep_view(),
            config@,
        ),
{
    let mut args: Vec<String> = Vec::new();
    let ghost want = command_for(
        kind,
        script_path@,
        extra_args.deep_view(),
        options.enable_user_config,
        options.permissions.deep_view(),
        config@,
    );
    match kind {
        ShellKind::PowerShell => {
            args.push(String::from_str("-NonInteractive"));
            args.push(String::from_str("-NoProfile"));
            args.push(String::from_str("-ExecutionPolicy"));
            args.push(String::from_str("Bypass"));
            args.push(String::from_str("-File"));
            args.push(String::from_str(script_path));
            assert(args.deep_view() =~= want.args);
            CommandLine { executable: String::from_str("powershell.exe"), args }
        },
        ShellKind::Python => {
            args.push(String::from_str(script_path));
            assert(args.deep_view() =~= want.args);
            CommandLine { executable: config.py_bin.clone(), args }
        },
        ShellKind::Cmd => {
            assert(args.deep_view() =~= want.args);
            CommandLine { executable: String::from_str(script_path), args }
        },
        ShellKind::Nushell => {
            if options.enable_user_config {
                args.push(String::from_str("--config"));
                args.push(chain(config.program_dir.as_str(), "/etc/nushell/config.nu"));
                args.push(String::from_str("--env-config"));
                args.push(chain(config.program_dir.as_str(), "/etc/nushell/env.nu"));
            }
            args.push(String::from_str(script_path));
            assert(args.deep_view() =~= want.args);
            CommandLine { executable: config.nu_bin.clone(), args }
        },
        ShellKind::Deno => {
            args.push(String::from_str("run"));
            args.push(String::from_str("--no-prompt"));
            assert(args.deep_view() =~= seq!["run"@, "--no-prompt"@]);
            extend_with(&mut args, &options.permissions);
            let ghost head = args.deep_view();
            args.push(String::from_str(script_path));
            assert(args.deep_view() =~= head + seq![script_path@]);
            extend_with(&mut args, extra_args);
            CommandLine { executable: config.deno_bin.clone(), args }
        },
    }
}

/// The interpreter a script of the given kind needs at its configured
/// place before it can run. PowerShell and Cmd are taken to be there.
pub open spec fn binary_of(kind: ShellKind, config: ScriptConfigView) -> Option<Seq<char>> {
    match kind {
        ShellKind::Python => Some(config.py_bin),
        ShellKind::Nushell => Some(config.nu_bin),
        ShellKind::Deno => Some(config.deno_bin),
        ShellKind::PowerShell => None,
        ShellKind::Cmd => None,
    }
}

pub fn required_binary(kind: ShellKind, config: &ScriptConfig) -> (r: Option<String>)
    ensures
        r.deep_view() == binary_of(kind, config@),
        r is Some <==> kind.spec_needs_provisioning(),
{
    match kind {
        ShellKind::Python => Some(config.py_bin.clone()),
        ShellKind::Nushell => Some(config.nu_bin.clone()),
        ShellKind::Deno => Some(config.deno_bin.clone()),
        ShellKind::PowerShell => None,
        ShellKind::Cmd => None,
    }
}

/// Whether a script of the given kind can run: it cannot where its
/// interpreter is one that the agent installs and is not there.
pub open spec fn environment_verdict(kind: ShellKind, present: bool) -> Result<(), FailureView> {
    if kind.spec_needs_provisioning() && !present {
        Err(FailureView::InterpreterNotInstalled { kind })
    } else {
        Ok(())
    }
}

pub fn check_script_environment(kind: ShellKind, present: bool) -> (r: Result<(), Failure>)
    ensures
        verdict_of(r) == environment_verdict(kind, present),
{
    if kind.needs_provisioning() && !present {
        Err(Failure::InterpreterNotInstalled { kind })
    } else {
        Ok(())
    }
}

/// The value of the first entry that assigns to `DENO_PERMISSIONS`.
pub open spec fn permission_request(entries: Seq<Seq<char>>) -> Option<Seq<char>>
    decreases entries.len(),
{
    if entries.len() == 0 {
        None
    } else {
        match assignment_of(entries[0]) {
            Some(pair) => if pair.0 == "DENO_PERMISSIONS"@ {
                Some(pair.1)
            } else {
                permission_request(entries.drop_first())
            },
            None => permission_request(entries.drop_first()),
        }
    }
}

/// Deno's permission flags for a request with the given environment
/// entries: the words of what the entries assign to `DENO_PERMISSIONS`, or
/// `--allow-all` where none of them does.
pub open spec fn permissions_of(entries: Seq<Seq<char>>) -> Seq<Seq<char>> {
    match permission_request(entries) {
        Some(flags) => words(flags),
        None => default_permissions(),
    }
}

pub fn deno_permissions(entries: &Vec<String>) -> (r: Vec<String>)
    ensures
        r.deep_view() == permissions_of(entries.deep_view()),
{
    let n = entries.len();
    let ghost all = entries.deep_view();
    let mut i: usize = 0;
    assert(all.skip(0) == all);
    while i < n
        invariant
            i <= n,
            n == entries@.len(),
            all == entries.deep_view(),
            permission_request(all.skip(i as int)) == permission_request(all),
        decreases n - i,
    {
        assert(all.skip(i as int)[0] == entries@[i as int]@);
        assert(all.skip(i as int).drop_first() == all.skip(i + 1));
        match parse_assignment(entries[i].as_str()) {
            Some(pair) => {
                if same_text(pair.0.as_str(), "DENO_PERMISSIONS") {
                    return split_words(pair.1.as_str());
                }
            },
            None => {},
        }
        i += 1;
    }
    assert(all.skip(n as int).len() == 0);
    DispatchOptions::defaults().permissions
}

/// Where no environment entry asks for other permissions, Deno runs a script
/// with `run --no-prompt --allow-all`, the script's path and the extra
/// arguments.
pub proof fn lemma_deno_default_command(
    script_path: Seq<char>,
    extra: Seq<Seq<char>>,
    user_config: bool,
    entries: Seq<Seq<char>>,
    config: ScriptConfigView,
)
    requires
        permission_request(entries) is None,
    ensures
        command_for(
            ShellKind::Deno,
            script_path,
            extra,
            user_config,
            permissions_of(entries),
            config,
        ) == (CommandLineView {
            executable: config.deno_bin,
            args: seq!["run"@, "--no-prompt"@, "--allow-all"@, script_path] + extra,
        }),
{
    let head = seq!["run"@, "--no-prompt"@] + default_permissions() + seq![script_path];
    assert(head =~= seq!["run"@, "--no-prompt"@, "--allow-all"@, script_path]);
}

/// Entries that assign nothing to `DENO_PERMISSIONS` ask for no other
/// permissions.
pub proof fn lemma_no_permission_request(entries: Seq<Seq<char>>)
    requires
        forall|i: int|
            0 <= i < entries.len() ==> (#[trigger] assignment_of(entries[i]) matches Some(pair)
                ==> pair.0 != "DENO_PERMISSIONS"@),
    ensures
        permission_request(entries) is None,
    decreases entries.len(),
{
    if entries.len() > 0 {
        let rest = entries.drop_first();
        assert forall|i: int| 0 <= i < rest.len() implies (#[trigger] assignment_of(
            rest[i],
        ) matches Some(pair) ==> pair.0 != "DENO_PERMISSIONS"@) by {
            assert(rest[i] == entries[i + 1]);
        }
        lemma_no_permission_request(rest);
    }
}

} // verus!
