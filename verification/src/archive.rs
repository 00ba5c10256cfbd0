//! Unpacking a zip archive: from the bytes of the archive to the steps that
//! put its entries below a directory. The archive is read by the `zip`
//! crate; what is done with each entry is decided here.

use std::io::Cursor;
use std::io::Read;
use vstd::prelude::*;
use vstd::string::*;
use zip::read::ZipArchive;
use crate::failure::{Failure, FailureView};
use crate::paths::{join, joined, parent, parent_of};
use crate::plan::{Step, StepView};
use crate::text::chars_of;

verus! {

/// `zip::read::ZipArchive`, a zip archive that is open for reading. What it
/// holds is known through `entries_of` only.
#[verifier::external_type_specification]
#[verifier::external_body]
#[verifier::reject_recursive_types(R)]
pub struct ExZipArchive<R>(ZipArchive<R>);

/// `std::io::Cursor`, which lets bytes in memory be read like a file. It is
/// only handed to the archive reader.
#[verifier::external_type_specification]
#[verifier::external_body]
#[verifier::reject_recursive_types(T)]
pub struct ExCursor<T>(Cursor<T>);

/// An archive held in memory.
pub type Archive = ZipArchive<Cursor<Vec<u8>>>;

/// The entries of an open archive, in the order of its central directory:
/// the name of each, and what reading it gives, which is its bytes, or the
/// reader's message where it cannot be read.
pub uninterp spec fn entries_of(archive: Archive) -> Seq<(Seq<char>, Result<Seq<u8>, Seq<char>>)>;

/// What opening a file of these bytes as a zip archive gives: its entries,
/// or the reader's message where the bytes are no archive that it can read.
pub uninterp spec fn archive_listing(bytes: Seq<u8>) -> Result<
    Seq<(Seq<char>, Result<Seq<u8>, Seq<char>>)>,
    Seq<char>,
>;

/// `ZipArchive::new` on the bytes. The archive it gives holds the entries
/// that `archive_listing` names for these bytes; where it gives an error, the
/// error's text is the message that `archive_listing` names.
#[verifier::external_body]
fn open_archive(bytes: Vec<u8>) -> (r: Result<Archive, String>)
    ensures
        match r {
            Ok(archive) => archive_listing(bytes@) == Ok::<
                Seq<(Seq<char>, Result<Seq<u8>, Seq<char>>)>,
                Seq<char>,
            >(entries_of(archive)),
            Err(message) => archive_listing(bytes@) == Err::<
                Seq<(Seq<char>, Result<Seq<u8>, Seq<char>>)>,
                Seq<char>,
            >(message@),
        },
{
    match ZipArchive::new(Cursor::new(bytes)) {
        Ok(archive) => Ok(archive),
        Err(e) => Err(e.to_string()),
    }
}

/// `ZipArchive::len`: the number of entries.
#[verifier::external_body]
fn entry_count(archive: &Archive) -> (n: usize)
    ensures
        n == entries_of(*archive).len(),
{
    archive.len()
}

/// `ZipArchive::by_index_decrypt` with an empty password, then the entry's
/// name and all its bytes. Reading leaves the entries as they are. For an
/// index below the number of entries the result is what `entries_of` holds
/// there: name and bytes, or the message of the error that opening or reading
/// the entry gave. (`by_index` is not used: it panics on an entry
/// that carries an AES field without being marked as encrypted.)
#[verifier::external_body]
fn read_entry(archive: &mut Archive, index: usize) -> (r: Result<(String, Vec<u8>), String>)
    ensures
        entries_of(*final(archive)) == entries_of(*old(archive)),
        index < entries_of(*old(archive)).len() ==> match r {
            Ok(entry) => entries_of(*old(archive))[index as int] == (
                entry.0@,
                Ok::<Seq<u8>, Seq<char>>(entry.1@),
            ),
            Err(message) => entries_of(*old(archive))[index as int].1 == Err::<
                Seq<u8>,
                Seq<char>,
            >(message@),
        },
{
    let mut file = match archive.by_index_decrypt(index, &[]) {
        Ok(Ok(file)) => file,
        Ok(Err(e)) => return Err(e.to_string()),
        Err(e) => return Err(e.to_string()),
    };
    let name = file.name().to_string();
    let mut data = Vec::new();
    match file.read_to_end(&mut data) {
        Ok(_) => Ok((name, data)),
        Err(e) => Err(e.to_string()),
    }
}

/// True for the name of a directory entry: it ends in a slash.
pub open spec fn names_directory(name: Seq<char>) -> bool {
    name.len() > 0 && name.last() == '/'
}

/// The steps that put one entry below `dest`: first the directory above the
/// entry's place is made sure of, so that entries can come in any order;
/// then the entry is created, a directory where its name ends in a slash,
/// else a file with the entry's bytes.
pub open spec fn entry_steps(dest: Seq<char>, name: Seq<char>, data: Seq<u8>) -> Seq<StepView> {
    let place = joined(dest, name);
    let above = match parent_of(place) {
        Some(dir) => seq![StepView::EnsureDirs { path: dir }],
        None => Seq::empty(),
    };
    if names_directory(name) {
        above.push(StepView::CreateDirs { path: place })
    } else {
        above.push(StepView::WriteFile { path: place, data })
    }
}

/// The failure that ends an unpacking.
pub open spec fn unreadable(message: Seq<char>) -> StepView {
    StepView::Fail { failure: FailureView::Archive { message } }
}

/// The steps that put the entries below `dest`, up to the first entry that
/// cannot be read, where the unpacking fails.
pub open spec fn extraction(
    dest: Seq<char>,
    entries: Seq<(Seq<char>, Result<Seq<u8>, Seq<char>>)>,
) -> Seq<StepView>
    decreases entries.len(),
{
    if entries.len() == 0 {
        Seq::empty()
    } else {
        match entries[0].1 {
            Ok(data) => entry_steps(dest, entries[0].0, data) + extraction(
                dest,
                entries.drop_first(),
            ),
            Err(message) => seq![unreadable(message)],
        }
    }
}

/// The steps that unpack an archive below `dest`; a failure alone where
/// the archive cannot be opened.
pub open spec fn unpacking(
    dest: Seq<char>,
    listing: Result<Seq<(Seq<char>, Result<Seq<u8>, Seq<char>>)>, Seq<char>>,
) -> Seq<StepView> {
    match listing {
        Ok(entries) => extraction(dest, entries),
        Err(message) => seq![unreadable(message)],
    }
}

/// True when `name` ends in a slash.
pub fn is_directory_name(name: &str) -> (r: bool)
    ensures
        r == names_directory(name@),
{
    let chars = chars_of(name);
    let n = chars.len();
    n > 0 && chars[n - 1] == '/'
}

/// Appends the steps for one entry to `steps`.
pub fn extract_entry(steps: &mut Vec<Step>, dest: &str, name: &str, data: Vec<u8>)
    ensures
        final(steps).deep_view() == old(steps).deep_view() + entry_steps(dest@, name@, data@),
{
    let ghost before = steps.deep_view();
    let place = join(dest, name);
    match parent(place.as_str()) {
        Some(dir) => {
            steps.push(Step::EnsureDirs { path: dir });
        },
        None => {},
    }
    if is_directory_name(name) {
        steps.push(Step::CreateDirs { path: place });
    } else {
        steps.push(Step::WriteFile { path: place, data });
    }
    assert(steps.deep_view() =~= before + entry_steps(dest@, name@, data@));
}

/// The steps that unpack the archive of the given bytes below `dest`.
pub fn unpack(bytes: Vec<u8>, dest: &str) -> (r: Vec<Step>)
    ensures
        r.deep_view() == unpacking(dest@, archive_listing(bytes@)),
{
    let mut steps: Vec<Step> = Vec::new();
    let ghost listing = archive_listing(bytes@);
    let mut archive = match open_archive(bytes) {
        Ok(archive) => archive,
        Err(message) => {
            steps.push(Step::Fail { failure: Failure::Archive { message } });
            assert(steps.deep_view() =~= seq![unreadable(message@)]);
            return steps;
        },
    };
    let ghost entries = entries_of(archive);
    let n = entry_count(&archive);
    let mut i: usize = 0;
    assert(entries.skip(0) == entries);
    assert(steps.deep_view() + extraction(dest@, entries) =~= extraction(dest@, entries));
    while i < n
        invariant
            i <= n,
            n == entries.len(),
            entries == entries_of(archive),
            listing == Ok::<Seq<(Seq<char>, Result<Seq<u8>, Seq<char>>)>, Seq<char>>(entries),
            listing == archive_listing(bytes@),
            steps.deep_view() + extraction(dest@, entries.skip(i as int)) == extraction(
                dest@,
                entries,
            ),
        decreases n - i,
    {
        let ghost rest = entries.skip(i as int);
        let ghost before = steps.deep_view();
        assert(rest[0] == entries[i as int]);
        assert(rest.drop_first() == entries.skip(i + 1));
        match read_entry(&mut archive, i) {
            Ok(entry) => {
                extract_entry(&mut steps, dest, entry.0.as_str(), entry.1);
                assert(steps.deep_view() + extraction(dest@, entries.skip(i + 1)) =~= before
                    + extraction(dest@, rest));
            },
            Err(message) => {
                assert(rest[0].1 == Err::<Seq<u8>, Seq<char>>(message@));
                assert(extraction(dest@, rest) == seq![unreadable(message@)]);
                steps.push(Step::Fail { failure: Failure::Archive { message } });
                assert(steps.deep_view() =~= before + seq![unreadable(message@)]);
                return steps;
            },
        }
        i += 1;
    }
    assert(entries.skip(n as int).len() == 0);
    assert(steps.deep_view() + Seq::<StepView>::empty() =~= steps.deep_view());
    steps
}

/// Entries can come in any order: whatever came before it, an entry whose
/// place has a directory above it is created only after that directory was
/// made sure of.
pub proof fn lemma_entry_has_its_directory(dest: Seq<char>, name: Seq<char>, data: Seq<u8>)
    ensures
        match parent_of(joined(dest, name)) {
            Some(dir) => entry_steps(dest, name, data).len() == 2 && entry_steps(
                dest,
                name,
                data,
            )[0] == (StepView::EnsureDirs { path: dir }),
            None => entry_steps(dest, name, data).len() == 1,
        },
        names_directory(name) ==> entry_steps(dest, name, data).last() == (StepView::CreateDirs {
            path: joined(dest, name),
        }),
        !names_directory(name) ==> entry_steps(dest, name, data).last() == (StepView::WriteFile {
            path: joined(dest, name),
            data,
        }),
{
}

/// The steps of an unpacking are those of its entries in the order of the
/// archive: the steps that the first entries have given stay as they are
/// when more entries follow.
pub proof fn lemma_extraction_goes_entry_by_entry(
    dest: Seq<char>,
    name: Seq<char>,
    data: Seq<u8>,
    rest: Seq<(Seq<char>, Result<Seq<u8>, Seq<char>>)>,
)
    ensures
        extraction(dest, seq![(name, Ok::<Seq<u8>, Seq<char>>(data))] + rest) == entry_steps(
            dest,
            name,
            data,
        ) + extraction(dest, rest),
{
    let entries = seq![(name, Ok::<Seq<u8>, Seq<char>>(data))] + rest;
    assert(entries[0] == (name, Ok::<Seq<u8>, Seq<char>>(data)));
    assert(entries.drop_first() =~= rest);
}

} // verus!
