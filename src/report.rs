use vstd::prelude::*;
use vstd::string::*;

use crate::entry::{EntryKind, FileInfo, FileInfoView};
use crate::paint::{paint, painted, Tint};
use crate::text::{decimal, pad_right, padded, push_decimal};

verus! {

/// Width of the size column.
pub const SIZE_WIDTH: usize = 8;

/// Width of the name column.
pub const NAME_WIDTH: usize = 50;

/// Width of the column that marks directories.
pub const MARK_WIDTH: usize = 5;

/// How a name is shown: a directory's in cyan, an unreadable entry's
/// description in red, a file's as it is.
pub open spec fn styled_name(name: Seq<char>, kind: EntryKind) -> Seq<char> {
    match kind {
        EntryKind::Directory => painted(Tint::Cyan, name),
        EntryKind::RegularFile => name,
        EntryKind::Unreadable => painted(Tint::Red, name),
    }
}

/// The report line of one record: the directory mark or a blank column, the
/// size and the name, each column padded; an unreadable entry shows its
/// description alone.
pub open spec fn row_text(f: FileInfoView) -> Seq<char> {
    let size = padded(f.size.rendered(), SIZE_WIDTH as nat);
    let name = padded(styled_name(f.name, f.kind), NAME_WIDTH as nat);
    match f.kind {
        EntryKind::Directory => "(Dir) "@ + size + " "@ + name,
        EntryKind::RegularFile => padded(" "@, MARK_WIDTH as nat) + " "@ + size + " "@ + name,
        EntryKind::Unreadable => styled_name(f.name, f.kind),
    }
}

/// The first line of a report on `n` records.
pub open spec fn total_text(n: nat) -> Seq<char> {
    "total "@ + decimal(n)
}

/// The name of an entry as shown in the report.
pub fn get_file_name(ent: &str, typ: &EntryKind) -> (r: String)
    ensures
        r@ == styled_name(ent@, *typ),
{
    match typ {
        EntryKind::Directory => paint(Tint::Cyan, ent),
        EntryKind::RegularFile => String::from_str(ent),
        EntryKind::Unreadable => paint(Tint::Red, ent),
    }
}

/// The report line of one record.
pub fn format_row(f: &FileInfo) -> (r: String)
    ensures
        r@ == row_text(f@),
{
    let name = get_file_name(f.name.as_str(), &f.kind);
    match f.kind {
        EntryKind::Unreadable => name,
        _ => {
            let mut line = match f.kind {
                EntryKind::Directory => String::from_str("(Dir) "),
                _ => {
                    let mut blank = pad_right(" ", MARK_WIDTH);
                    blank.append(" ");
                    blank
                },
            };
            let size = f.size.render();
            line.append(pad_right(size.as_str(), SIZE_WIDTH).as_str());
            line.append(" ");
            line.append(pad_right(name.as_str(), NAME_WIDTH).as_str());
            line
        },
    }
}

/// The whole report: a line with the number of records, then one line per
/// record in order.
pub fn report_lines(entries: &Vec<FileInfo>) -> (r: Vec<String>)
    ensures
        r@.len() == entries@.len() + 1,
        r@[0]@ == total_text(entries@.len()),
        forall|i: int| 0 <= i < entries@.len() ==> #[trigger] r@[i + 1]@ == row_text(entries@[i]@),
{
    let mut header = String::from_str("total ");
    push_decimal(&mut header, entries.len() as u128);
    let mut r: Vec<String> = Vec::new();
    r.push(header);
    let mut i: usize = 0;
    while i < entries.len()
        invariant
            i <= entries@.len(),
            r@.len() == i + 1,
            r@[0]@ == total_text(entries@.len()),
            forall|j: int| 0 <= j < i ==> #[trigger] r@[j + 1]@ == row_text(entries@[j]@),
        decreases entries@.len() - i,
    {
        let line = format_row(&entries[i]);
        r.push(line);
        i = i + 1;
    }
    r
}

} // verus!
