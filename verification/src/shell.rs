//! The interpreters a script can target.

use vstd::prelude::*;
use vstd::string::*;
use crate::text::same_text;

verus! {

/// The interpreter a script is written for.
#[derive(Clone, Copy, Debug, PartialEq, Eq, Structural)]
pub enum ShellKind {
    PowerShell,
    Python,
    Cmd,
    Nushell,
    Deno,
}

impl ShellKind {
    /// The name by which a request selects this interpreter.
    pub open spec fn spec_name(self) -> Seq<char> {
        match self {
            ShellKind::PowerShell => "powershell"@,
            ShellKind::Python => "python"@,
            ShellKind::Cmd => "cmd"@,
            ShellKind::Nushell => "nushell"@,
            ShellKind::Deno => "deno"@,
        }
    }

    pub fn name(self) -> (r: &'static str)
        ensures
            r@ == self.spec_name(),
    {
        match self {
            ShellKind::PowerShell => "powershell",
            ShellKind::Python => "python",
            ShellKind::Cmd => "cmd",
            ShellKind::Nushell => "nushell",
            ShellKind::Deno => "deno",
        }
    }

    /// The interpreter that a name selects, if any.
    pub open spec fn spec_parse(name: Seq<char>) -> Option<ShellKind> {
        if name == "powershell"@ {
            Some(ShellKind::PowerShell)
        } else if name == "python"@ {
            Some(ShellKind::Python)
        } else if name == "cmd"@ {
            Some(ShellKind::Cmd)
        } else if name == "nushell"@ {
            Some(ShellKind::Nushell)
        } else if name == "deno"@ {
            Some(ShellKind::Deno)
        } else {
            None
        }
    }

    pub fn parse(name: &str) -> (r: Option<ShellKind>)
        ensures
            r == Self::spec_parse(name@),
    {
        if same_text(name, "powershell") {
            Some(ShellKind::PowerShell)
        } else if same_text(name, "python") {
            Some(ShellKind::Python)
        } else if same_text(name, "cmd") {
            Some(ShellKind::Cmd)
        } else if same_text(name, "nushell") {
            Some(ShellKind::Nushell)
        } else if same_text(name, "deno") {
            Some(ShellKind::Deno)
        } else {
            None
        }
    }

    /// The extension of a script file for this interpreter, with its dot.
    pub open spec fn spec_extension(self) -> Seq<char> {
        match self {
            ShellKind::PowerShell => ".ps1"@,
            ShellKind::Python => ".py"@,
            ShellKind::Cmd => ".bat"@,
            ShellKind::Nushell => ".nu"@,
            ShellKind::Deno => ".ts"@,
        }
    }

    pub fn extension(self) -> (r: &'static str)
        ensures
            r@ == self.spec_extension(),
    {
        match self {
            ShellKind::PowerShell => ".ps1",
            ShellKind::Python => ".py",
            ShellKind::Cmd => ".bat",
            ShellKind::Nushell => ".nu",
            ShellKind::Deno => ".ts",
        }
    }

    /// True for the interpreters that the agent installs itself. PowerShell
    /// and Cmd come with the operating system.
    pub open spec fn spec_needs_provisioning(self) -> bool {
        self == ShellKind::Python || self == ShellKind::Nushell || self == ShellKind::Deno
    }

    #[verifier::when_used_as_spec(spec_needs_provisioning)]
    pub fn needs_provisioning(self) -> (r: bool)
        ensures
            r == self.spec_needs_provisioning(),
    {
        match self {
            ShellKind::PowerShell => false,
            ShellKind::Python => true,
            ShellKind::Cmd => false,
            ShellKind::Nushell => true,
            ShellKind::Deno => true,
        }
    }
}

/// What the five names and extensions hold, character by character.
pub proof fn lemma_shell_literals()
    ensures
        "powershell"@ == seq!['p', 'o', 'w', 'e', 'r', 's', 'h', 'e', 'l', 'l'],
        "python"@ == seq!['p', 'y', 't', 'h', 'o', 'n'],
        "cmd"@ == seq!['c', 'm', 'd'],
        "nushell"@ == seq!['n', 'u', 's', 'h', 'e', 'l', 'l'],
        "deno"@ == seq!['d', 'e', 'n', 'o'],
        ".ps1"@ == seq!['.', 'p', 's', '1'],
        ".py"@ == seq!['.', 'p', 'y'],
        ".bat"@ == seq!['.', 'b', 'a', 't'],
        ".nu"@ == seq!['.', 'n', 'u'],
        ".ts"@ == seq!['.', 't', 's'],
{
    reveal_strlit("powershell");
    reveal_strlit("python");
    reveal_strlit("cmd");
    reveal_strlit("nushell");
    reveal_strlit("deno");
    reveal_strlit(".ps1");
    reveal_strlit(".py");
    reveal_strlit(".bat");
    reveal_strlit(".nu");
    reveal_strlit(".ts");
    assert("powershell"@ =~= seq!['p', 'o', 'w', 'e', 'r', 's', 'h', 'e', 'l', 'l']);
    assert("python"@ =~= seq!['p', 'y', 't', 'h', 'o', 'n']);
    assert("cmd"@ =~= seq!['c', 'm', 'd']);
    assert("nushell"@ =~= seq!['n', 'u', 's', 'h', 'e', 'l', 'l']);
    assert("deno"@ =~= seq!['d', 'e', 'n', 'o']);
    assert(".ps1"@ =~= seq!['.', 'p', 's', '1']);
    assert(".py"@ =~= seq!['.', 'p', 'y']);
    assert(".bat"@ =~= seq!['.', 'b', 'a', 't']);
    assert(".nu"@ =~= seq!['.', 'n', 'u']);
    assert(".ts"@ =~= seq!['.', 't', 's']);
}

/// Every interpreter is selected by its own name, and by no other's.
pub proof fn lemma_parse_inverts_name(kind: ShellKind)
    ensures
        ShellKind::spec_parse(kind.spec_name()) == Some(kind),
{
    lemma_shell_literals();
    assert("powershell"@.len() == 10);
    assert("python"@.len() == 6);
    assert("cmd"@.len() == 3);
    assert("nushell"@.len() == 7);
    assert("deno"@.len() == 4);
}

/// A name that selects an interpreter is that interpreter's name.
pub proof fn lemma_parsed_name(name: Seq<char>, kind: ShellKind)
    requires
        ShellKind::spec_parse(name) == Some(kind),
    ensures
        kind.spec_name() == name,
{
}

/// No two interpreters share a file extension.
pub proof fn lemma_extension_identifies_kind(a: ShellKind, b: ShellKind)
    requires
        a.spec_extension() == b.spec_extension(),
    ensures
        a == b,
{
    lemma_shell_literals();
    assert(".ps1"@[1] == 'p' && ".ps1"@.len() == 4);
    assert(".py"@[1] == 'p' && ".py"@.len() == 3);
    assert(".bat"@[1] == 'b' && ".bat"@.len() == 4);
    assert(".nu"@[1] == 'n' && ".nu"@.len() == 3);
    assert(".ts"@[1] == 't' && ".ts"@.len() == 3);
}

} // verus!
