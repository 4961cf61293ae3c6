use vstd::prelude::*;
use vstd::string::*;

use crate::size::{get_file_size, size_tier, unreadable_size, DisplaySize};

verus! {

/// What an entry of a directory is.
#[derive(Clone, Copy, Debug, PartialEq, Eq, Structural)]
pub enum EntryKind {
    Directory,
    RegularFile,
    /// Its metadata could not be read.
    Unreadable,
}

/// Why the metadata of an entry could not be read.
#[derive(Clone, Copy, Debug, PartialEq, Eq, Structural)]
pub enum ErrorCause {
    PermissionDenied,
    /// The entry is in use by another process.
    ResourceBusy,
    Other,
}

/// The failure of a whole scan: the directory could not be listed.
#[derive(Clone, Copy, Debug, PartialEq, Eq, Structural)]
pub enum ScanError {
    DirectoryNotFound,
}

/// The metadata of one entry, as read from the file system.
#[derive(Clone, Debug)]
pub struct EntryMeta {
    /// The entry's base file name.
    pub name: String,
    pub is_dir: bool,
    /// Its length in bytes.
    pub len: usize,
}

/// What reading the metadata of one entry gave.
pub type EntryProbe = Result<EntryMeta, ErrorCause>;

/// One classified entry of a directory.
#[derive(Clone, Debug)]
pub struct FileInfo {
    /// The base file name, or for an unreadable entry a description of why.
    pub name: String,
    pub size: DisplaySize,
    pub kind: EntryKind,
}

/// The plain values of a `FileInfo`.
pub struct FileInfoView {
    pub name: Seq<char>,
    pub size: DisplaySize,
    pub kind: EntryKind,
}

impl View for FileInfo {
    type V = FileInfoView;

    open spec fn view(&self) -> FileInfoView {
        FileInfoView { name: self.name@, size: self.size, kind: self.kind }
    }
}

/// The kind of a readable entry.
pub open spec fn kind_of(is_dir: bool) -> EntryKind {
    if is_dir {
        EntryKind::Directory
    } else {
        EntryKind::RegularFile
    }
}

/// The description that stands in for the name of an unreadable entry.
pub open spec fn cause_message(c: ErrorCause) -> Seq<char> {
    match c {
        ErrorCause::PermissionDenied => "Access is denied"@,
        ErrorCause::ResourceBusy => "File in use"@,
        ErrorCause::Other => "some unknown error"@,
    }
}

/// The record that an entry's probe yields.
pub open spec fn record_of(p: EntryProbe) -> FileInfoView {
    match p {
        Ok(m) => FileInfoView { name: m.name@, size: size_tier(m.len as nat), kind: kind_of(m.is_dir) },
        Err(c) => FileInfoView {
            name: cause_message(c),
            size: unreadable_size(),
            kind: EntryKind::Unreadable,
        },
    }
}

/// The records that a listing yields, one per entry and in its order.
pub open spec fn records_of(listing: Seq<EntryProbe>) -> Seq<FileInfoView> {
    listing.map_values(|p: EntryProbe| record_of(p))
}

/// The views of a sequence of records.
pub open spec fn views_of(v: Seq<FileInfo>) -> Seq<FileInfoView> {
    v.map_values(|f: FileInfo| f@)
}

/// The kind of an entry from its is-directory flag.
pub fn get_file_type(is_dir: bool) -> (r: EntryKind)
    ensures
        r == kind_of(is_dir),
{
    match is_dir {
        true => EntryKind::Directory,
        false => EntryKind::RegularFile,
    }
}

/// The description of why an entry's metadata could not be read.
pub fn handle_error(kind: ErrorCause) -> (r: String)
    ensures
        r@ == cause_message(kind),
{
    match kind {
        ErrorCause::PermissionDenied => String::from_str("Access is denied"),
        ErrorCause::ResourceBusy => String::from_str("File in use"),
        ErrorCause::Other => String::from_str("some unknown error"),
    }
}

/// Classifies one entry from what reading its metadata gave.
pub fn classify_entry(probe: &EntryProbe) -> (r: FileInfo)
    ensures
        r@ == record_of(*probe),
{
    match probe {
        Ok(meta) => FileInfo {
            name: meta.name.clone(),
            size: get_file_size(meta.len),
            kind: get_file_type(meta.is_dir),
        },
        Err(cause) => FileInfo {
            name: handle_error(*cause),
            size: DisplaySize::Bytes(-1),
            kind: EntryKind::Unreadable,
        },
    }
}

/// Builds the records of a scan from the directory's listing: `None` when the
/// directory could not be listed, else one probe per entry in listing order.
/// An unreadable entry becomes a record of its own and never stops the scan.
pub fn run(listing: Option<Vec<EntryProbe>>) -> (r: Result<Vec<FileInfo>, ScanError>)
    ensures
        listing is None ==> r == Err::<Vec<FileInfo>, ScanError>(ScanError::DirectoryNotFound),
        listing matches Some(v) ==> r matches Ok(out) && out@.len() == v@.len()
            && views_of(out@) == records_of(v@)
            && forall|i: int| 0 <= i < v@.len() ==> #[trigger] out@[i]@ == record_of(v@[i]),
{
    match listing {
        None => Err(ScanError::DirectoryNotFound),
        Some(probes) => {
            let mut out: Vec<FileInfo> = Vec::new();
            let mut i: usize = 0;
            while i < probes.len()
                invariant
                    i <= probes.len(),
                    out@.len() == i,
                    forall|j: int| 0 <= j < i ==> #[trigger] out@[j]@ == record_of(probes@[j]),
                decreases probes.len() - i,
            {
                let rec = classify_entry(&probes[i]);
                out.push(rec);
                i = i + 1;
            }
            assert(views_of(out@) =~= records_of(probes@));
            Ok(out)
        },
    }
}

/// Mapping two sequences that hold the same elements, each as often, gives
/// two sequences that again hold the same elements, each as often.
proof fn lemma_map_keeps_multiset<A, B>(a: Seq<A>, b: Seq<A>, f: spec_fn(A) -> B)
    requires
        a.to_multiset() == b.to_multiset(),
    ensures
        a.map_values(f).to_multiset() == b.map_values(f).to_multiset(),
    decreases a.len(),
{
    broadcast use vstd::seq_lib::group_to_multiset_ensures;

    if a.len() == 0 {
        assert(b.to_multiset().len() == 0);
        assert(a.map_values(f) =~= Seq::<B>::empty());
        assert(b.map_values(f) =~= Seq::<B>::empty());
    } else {
        let x = a.last();
        let rest_a = a.drop_last();
        assert(rest_a.push(x) =~= a);
        assert(a.contains(x));
        assert(b.to_multiset().count(x) > 0);
        assert(b.contains(x));
        let i = choose|i: int| 0 <= i < b.len() && b[i] == x;
        let rest_b = b.remove(i);
        assert(rest_a.to_multiset() =~= a.to_multiset().remove(x));
        assert(rest_b.to_multiset() =~= b.to_multiset().remove(x));
        lemma_map_keeps_multiset(rest_a, rest_b, f);
        let ma = a.map_values(f);
        let mb = b.map_values(f);
        assert(rest_a.map_values(f).push(f(x)) =~= ma);
        assert(mb.remove(i) =~= rest_b.map_values(f));
        assert(mb.to_multiset().count(f(x)) > 0) by {
            assert(mb[i] == f(x));
            assert(mb.contains(f(x)));
        }
        assert(mb.to_multiset() =~= mb.remove(i).to_multiset().insert(f(x)));
    }
}

/// Scanning an unchanged directory again yields the same records: whatever
/// order the second listing gives the entries in, each record (kind, size and
/// name) comes out as often as in the first scan.
pub proof fn lemma_rescan_same_records(first: Seq<EntryProbe>, second: Seq<EntryProbe>)
    requires
        first.to_multiset() == second.to_multiset(),
    ensures
        records_of(first).to_multiset() == records_of(second).to_multiset(),
{
    lemma_map_keeps_multiset(first, second, |p: EntryProbe| record_of(p));
}

} // verus!
