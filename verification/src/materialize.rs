//! From a script's text to the file an interpreter reads.
//!
//! What is written to the file is the script's text in UTF-8, after a prefix
//! that an `EncodingPolicy` chooses. The standard policy writes a UTF-8
//! byte-order mark first and, for Nushell only, the line `#!nushell`. Either
//! part can be switched off; nothing else depends on the interpreter.

use vstd::prelude::*;
use vstd::string::*;
use vstd::utf8::*;
use crate::agent_config::{ScriptConfig, ScriptConfigView};
use crate::host::{Action, ActionView};
use crate::shell::ShellKind;

verus! {

/// What precedes a script's text in its file.
#[derive(Clone, Copy, Debug, PartialEq, Eq, Structural)]
pub struct EncodingPolicy {
    /// Start the file with the bytes EF BB BF.
    pub byte_order_mark: bool,
    /// Start a Nushell script with the line `#!nushell`.
    pub nushell_marker: bool,
}

/// The UTF-8 byte-order mark.
pub open spec fn byte_order_mark() -> Seq<u8> {
    seq![0xEFu8, 0xBBu8, 0xBFu8]
}

/// The line that marks a Nushell script.
pub open spec fn marker_line() -> Seq<char> {
    "#!nushell\n"@
}

/// The bytes that precede the script's text.
pub open spec fn prefix_of(kind: ShellKind, policy: EncodingPolicy) -> Seq<u8> {
    let mark = if policy.byte_order_mark {
        byte_order_mark()
    } else {
        Seq::<u8>::empty()
    };
    let marker = if policy.nushell_marker && kind == ShellKind::Nushell {
        encode_utf8(marker_line())
    } else {
        Seq::<u8>::empty()
    };
    mark + marker
}

/// The bytes of a script file.
pub open spec fn content_of(body: Seq<char>, kind: ShellKind, policy: EncodingPolicy) -> Seq<u8> {
    prefix_of(kind, policy) + encode_utf8(body)
}

/// What follows the prefix in a file's bytes, where they start with it.
pub open spec fn body_of(content: Seq<u8>, kind: ShellKind, policy: EncodingPolicy) -> Option<
    Seq<u8>,
> {
    let prefix = prefix_of(kind, policy);
    if prefix.is_prefix_of(content) {
        Some(content.skip(prefix.len() as int))
    } else {
        None
    }
}

/// The directory for script files: the one for scripts that run as the
/// logged-in user, or the ordinary one.
pub open spec fn temp_dir_of(config: ScriptConfigView, run_as_user: bool) -> Seq<char> {
    if run_as_user {
        config.win_run_as_user_tmp_dir
    } else {
        config.win_tmp_dir
    }
}

/// The request to create the file of a script.
pub open spec fn script_file(
    body: Seq<char>,
    kind: ShellKind,
    temp_dir: Seq<char>,
    policy: EncodingPolicy,
) -> ActionView {
    ActionView::CreateScript {
        dir: temp_dir,
        prefix: "script_"@,
        suffix: kind.spec_extension(),
        content: content_of(body, kind, policy),
    }
}

impl EncodingPolicy {
    /// Byte-order mark and Nushell marker both on.
    pub fn standard() -> (r: EncodingPolicy)
        ensures
            r.byte_order_mark,
            r.nushell_marker,
    {
        EncodingPolicy { byte_order_mark: true, nushell_marker: true }
    }

    /// The script's text and nothing else.
    pub fn verbatim() -> (r: EncodingPolicy)
        ensures
            !r.byte_order_mark,
            !r.nushell_marker,
    {
        EncodingPolicy { byte_order_mark: false, nushell_marker: false }
    }
}

pub fn prefix(kind: ShellKind, policy: EncodingPolicy) -> (r: Vec<u8>)
    ensures
        r@ == prefix_of(kind, policy),
{
    let mut out: Vec<u8> = Vec::new();
    if policy.byte_order_mark {
        out.push(0xEF);
        out.push(0xBB);
        out.push(0xBF);
    }
    if policy.nushell_marker {
        match kind {
            ShellKind::Nushell => {
                let mut marker = "#!nushell\n".as_bytes_vec();
                out.append(&mut marker);
            },
            _ => {},
        }
    }
    assert(out@ =~= prefix_of(kind, policy));
    out
}

pub fn script_content(body: &str, kind: ShellKind, policy: EncodingPolicy) -> (r: Vec<u8>)
    ensures
        r@ == content_of(body@, kind, policy),
{
    let mut out = prefix(kind, policy);
    let mut text = body.as_bytes_vec();
    out.append(&mut text);
    out
}

/// The bytes of the script's text in a file written under `policy`, or
/// nothing where the file does not start with the prefix.
pub fn stored_body(content: &Vec<u8>, kind: ShellKind, policy: EncodingPolicy) -> (r: Option<
    Vec<u8>,
>)
    ensures
        match body_of(content@, kind, policy) {
            Some(b) => r is Some && r->Some_0@ == b,
            None => r is None,
        },
{
    let lead = prefix(kind, policy);
    let n = lead.len();
    let total = content.len();
    if total < n {
        return None;
    }
    let mut i: usize = 0;
    while i < n
        invariant
            i <= n,
            n == lead@.len(),
            n <= total,
            total == content@.len(),
            lead@ == prefix_of(kind, policy),
            forall|j: int| 0 <= j < i ==> content@[j] == lead@[j],
        decreases n - i,
    {
        if content[i] != lead[i] {
            assert(content@.subrange(0, n as int)[i as int] != lead@[i as int]);
            return None;
        }
        i += 1;
    }
    assert(content@.subrange(0, n as int) =~= lead@);
    let mut out: Vec<u8> = Vec::new();
    let mut k: usize = n;
    while k < total
        invariant
            n <= k <= total,
            total == content@.len(),
            out@ == content@.subrange(n as int, k as int),
        decreases total - k,
    {
        out.push(content[k]);
        assert(out@ =~= content@.subrange(n as int, k + 1));
        k += 1;
    }
    assert(out@ =~= content@.skip(n as int));
    Some(out)
}

pub fn temp_dir(config: &ScriptConfig, run_as_user: bool) -> (r: &String)
    ensures
        r@ == temp_dir_of(config@, run_as_user),
{
    if run_as_user {
        &config.win_run_as_user_tmp_dir
    } else {
        &config.win_tmp_dir
    }
}

/// The request that makes the host write the script to a file of its own in
/// `temp_dir`, named `script_`, then what the host adds, then the extension of
/// the interpreter.
pub fn materialize(body: &str, kind: ShellKind, temp_dir: &str, policy: EncodingPolicy) -> (r:
    Action)
    ensures
        r@ == script_file(body@, kind, temp_dir@, policy),
{
    Action::CreateScript {
        dir: String::from_str(temp_dir),
        prefix: String::from_str("script_"),
        suffix: String::from_str(kind.extension()),
        content: script_content(body, kind, policy),
    }
}

/// A script that is written and read back is the script: the bytes after
/// the prefix are its text in UTF-8, and they decode to that text.
pub proof fn lemma_round_trip(body: Seq<char>, kind: ShellKind, policy: EncodingPolicy)
    ensures
        body_of(content_of(body, kind, policy), kind, policy) == Some(encode_utf8(body)),
        decode_utf8(encode_utf8(body)) == body,
{
    let prefix = prefix_of(kind, policy);
    let content = content_of(body, kind, policy);
    assert(content.subrange(0, prefix.len() as int) =~= prefix);
    assert(content.skip(prefix.len() as int) =~= encode_utf8(body));
    encode_utf8_decode_utf8(body);
}

/// Under the verbatim policy the file holds the script's text and no more.
pub proof fn lemma_verbatim_is_text(body: Seq<char>, kind: ShellKind, policy: EncodingPolicy)
    requires
        !policy.byte_order_mark,
        !policy.nushell_marker,
    ensures
        content_of(body, kind, policy) == encode_utf8(body),
{
    assert(content_of(body, kind, policy) =~= encode_utf8(body));
}

} // verus!
