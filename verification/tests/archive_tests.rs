use nextrmm_agent::archive::{extract_entry, is_directory_name, unpack};
use nextrmm_agent::failure::Failure;
use nextrmm_agent::plan::Step;
use std::io::Write;

fn archive(entries: &[(&str, Option<&[u8]>)], method: zip::CompressionMethod) -> Vec<u8> {
    let mut writer = zip::ZipWriter::new(std::io::Cursor::new(Vec::new()));
    let options = zip::write::FileOptions::default().compression_method(method);
    for (name, data) in entries {
        match data {
            Some(bytes) => {
                writer.start_file(*name, options).unwrap();
                writer.write_all(bytes).unwrap();
            }
            None => writer.add_directory(*name, options).unwrap(),
        }
    }
    writer.finish().unwrap().into_inner()
}

fn ensure(path: &str) -> Step {
    Step::EnsureDirs { path: path.to_string() }
}

fn write(path: &str, data: &[u8]) -> Step {
    Step::WriteFile { path: path.to_string(), data: data.to_vec() }
}

#[test]
fn names_that_end_in_a_slash_name_directories() {
    assert!(is_directory_name("py/"));
    assert!(is_directory_name("/"));
    assert!(!is_directory_name("py"));
    assert!(!is_directory_name("py/python.exe"));
    assert!(!is_directory_name("py\\"));
    assert!(!is_directory_name(""));
}

#[test]
fn a_file_entry_gets_its_directory_and_its_bytes() {
    let mut steps = vec![Step::Pause { seconds: 1 }];
    extract_entry(&mut steps, "C:\\agent\\runtime", "py/Lib/os.py", b"import sys".to_vec());
    assert_eq!(
        steps,
        vec![
            Step::Pause { seconds: 1 },
            ensure("C:\\agent\\runtime\\py/Lib"),
            write("C:\\agent\\runtime\\py/Lib/os.py", b"import sys"),
        ]
    );
}

#[test]
fn a_directory_entry_is_created_as_a_directory() {
    let mut steps = Vec::new();
    extract_entry(&mut steps, "C:\\agent\\runtime", "py/", Vec::new());
    assert_eq!(
        steps,
        vec![
            ensure("C:\\agent\\runtime"),
            Step::CreateDirs { path: "C:\\agent\\runtime\\py/".to_string() },
        ]
    );
}

#[test]
fn an_entry_without_a_directory_above_it_is_only_written() {
    let mut steps = Vec::new();
    extract_entry(&mut steps, "", "deno.exe", vec![1, 2, 3]);
    assert_eq!(steps, vec![write("deno.exe", &[1, 2, 3])]);
}

#[test]
fn unpack_lists_the_entries_in_the_order_of_the_archive() {
    let bytes = archive(
        &[
            ("py/python.exe", Some(b"binary")),
            ("py/", None),
            ("py/Lib/os.py", Some(b"import sys")),
            ("empty.txt", Some(b"")),
        ],
        zip::CompressionMethod::Stored,
    );
    assert_eq!(
        unpack(bytes, "C:\\agent\\runtime"),
        vec![
            ensure("C:\\agent\\runtime\\py"),
            write("C:\\agent\\runtime\\py/python.exe", b"binary"),
            ensure("C:\\agent\\runtime"),
            Step::CreateDirs { path: "C:\\agent\\runtime\\py/".to_string() },
            ensure("C:\\agent\\runtime\\py/Lib"),
            write("C:\\agent\\runtime\\py/Lib/os.py", b"import sys"),
            ensure("C:\\agent\\runtime"),
            write("C:\\agent\\runtime\\empty.txt", b""),
        ]
    );
}

#[test]
fn unpack_inflates_compressed_entries() {
    let text = "print('hello')\n".repeat(200);
    let bytes = archive(&[("deno.exe", Some(text.as_bytes()))], zip::CompressionMethod::Deflated);
    assert!(bytes.len() < text.len());
    assert_eq!(
        unpack(bytes, "C:\\agent\\runtime\\deno"),
        vec![
            ensure("C:\\agent\\runtime\\deno"),
            write("C:\\agent\\runtime\\deno\\deno.exe", text.as_bytes()),
        ]
    );
}

#[test]
fn an_empty_archive_has_no_steps() {
    let bytes = archive(&[], zip::CompressionMethod::Stored);
    assert_eq!(unpack(bytes, "C:\\agent"), Vec::<Step>::new());
}

#[test]
fn bytes_that_are_no_archive_give_a_failure() {
    let steps = unpack(b"this is not a zip archive".to_vec(), "C:\\agent");
    assert_eq!(steps.len(), 1);
    assert!(matches!(&steps[0], Step::Fail { failure: Failure::Archive { message } } if !message.is_empty()));
    let steps = unpack(Vec::new(), "C:\\agent");
    assert_eq!(steps.len(), 1);
    assert!(matches!(&steps[0], Step::Fail { failure: Failure::Archive { .. } }));
}

#[test]
fn an_entry_that_cannot_be_read_ends_the_unpacking() {
    let mut bytes = archive(
        &[("a.txt", Some(b"first file")), ("b.txt", Some(b"second file")), ("c.txt", Some(b"third"))],
        zip::CompressionMethod::Stored,
    );
    let at = bytes.windows(11).position(|w| w == b"second file").unwrap();
    bytes[at] = b'S';
    let steps = unpack(bytes, "C:\\x");
    assert_eq!(steps.len(), 3);
    assert_eq!(steps[0], ensure("C:\\x"));
    assert_eq!(steps[1], write("C:\\x\\a.txt", b"first file"));
    assert!(matches!(&steps[2], Step::Fail { failure: Failure::Archive { message } } if !message.is_empty()));
}
