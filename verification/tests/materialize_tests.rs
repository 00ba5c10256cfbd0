use nextrmm_agent::agent_config::ScriptConfig;
use nextrmm_agent::host::Action;
use nextrmm_agent::materialize::{
    materialize, prefix, script_content, stored_body, temp_dir, EncodingPolicy,
};
use nextrmm_agent::shell::ShellKind;

const KINDS: [ShellKind; 5] = [
    ShellKind::PowerShell,
    ShellKind::Python,
    ShellKind::Cmd,
    ShellKind::Nushell,
    ShellKind::Deno,
];

fn policies() -> Vec<EncodingPolicy> {
    vec![
        EncodingPolicy::standard(),
        EncodingPolicy::verbatim(),
        EncodingPolicy { byte_order_mark: true, nushell_marker: false },
        EncodingPolicy { byte_order_mark: false, nushell_marker: true },
    ]
}

#[test]
fn standard_policy_writes_the_byte_order_mark() {
    let content = script_content("print('hi')", ShellKind::Python, EncodingPolicy::standard());
    let mut expected = vec![0xEF, 0xBB, 0xBF];
    expected.extend_from_slice(b"print('hi')");
    assert_eq!(content, expected);
}

#[test]
fn standard_policy_marks_nushell_scripts() {
    let content = script_content("echo 1", ShellKind::Nushell, EncodingPolicy::standard());
    let mut expected = vec![0xEF, 0xBB, 0xBF];
    expected.extend_from_slice(b"#!nushell\necho 1");
    assert_eq!(content, expected);
}

#[test]
fn verbatim_policy_writes_the_text_only() {
    for kind in KINDS {
        let content = script_content("écho 1", kind, EncodingPolicy::verbatim());
        assert_eq!(content, "écho 1".as_bytes().to_vec());
        assert_eq!(prefix(kind, EncodingPolicy::verbatim()), Vec::<u8>::new());
    }
}

#[test]
fn the_two_parts_of_the_prefix_are_independent() {
    let mark_only = EncodingPolicy { byte_order_mark: true, nushell_marker: false };
    let marker_only = EncodingPolicy { byte_order_mark: false, nushell_marker: true };
    assert_eq!(prefix(ShellKind::Nushell, mark_only), vec![0xEF, 0xBB, 0xBF]);
    assert_eq!(prefix(ShellKind::Nushell, marker_only), b"#!nushell\n".to_vec());
    assert_eq!(prefix(ShellKind::Python, marker_only), Vec::<u8>::new());
}

#[test]
fn what_is_written_is_read_back() {
    let bodies = ["", "print('hi')", "Write-Host \"ü\"\r\n", "#!nushell\n", "\u{feff}x"];
    for kind in KINDS {
        for policy in policies() {
            for body in bodies {
                let content = script_content(body, kind, policy);
                let stored = stored_body(&content, kind, policy);
                assert_eq!(stored, Some(body.as_bytes().to_vec()));
                assert_eq!(String::from_utf8(stored.unwrap()).unwrap(), body);
            }
        }
    }
}

#[test]
fn a_file_without_the_prefix_has_no_stored_body() {
    let policy = EncodingPolicy::standard();
    assert_eq!(stored_body(&b"print('hi')".to_vec(), ShellKind::Python, policy), None);
    assert_eq!(stored_body(&vec![0xEF, 0xBB], ShellKind::Python, policy), None);
    assert_eq!(stored_body(&vec![], ShellKind::Python, policy), None);
    assert_eq!(
        stored_body(&vec![0xEF, 0xBB, 0xBF, b'x'], ShellKind::Nushell, policy),
        None
    );
    assert_eq!(stored_body(&vec![0xEF, 0xBB, 0xBF], ShellKind::Python, policy), Some(vec![]));
}

#[test]
fn temp_dir_follows_the_run_as_user_flag() {
    let config = ScriptConfig::for_install_dir("C:\\agent");
    assert_eq!(temp_dir(&config, false), "C:\\agent\\temp");
    assert_eq!(temp_dir(&config, true), "C:\\agent\\temp\\user");
}

#[test]
fn materialize_names_directory_prefix_suffix_and_content() {
    let action = materialize("echo 1", ShellKind::Cmd, "C:\\agent\\temp", EncodingPolicy::verbatim());
    assert_eq!(
        action,
        Action::CreateScript {
            dir: "C:\\agent\\temp".to_string(),
            prefix: "script_".to_string(),
            suffix: ".bat".to_string(),
            content: b"echo 1".to_vec(),
        }
    );
}
