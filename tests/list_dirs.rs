use list_dirs::entry::{
    classify_entry, get_file_type, handle_error, run, EntryKind, EntryMeta, EntryProbe,
    ErrorCause, FileInfo, ScanError,
};
use list_dirs::report::{format_row, get_file_name, report_lines};
use list_dirs::size::{get_file_size, DisplaySize};

fn file(name: &str, len: usize) -> EntryProbe {
    Ok(EntryMeta { name: String::from(name), is_dir: false, len })
}

fn dir(name: &str, len: usize) -> EntryProbe {
    Ok(EntryMeta { name: String::from(name), is_dir: true, len })
}

fn scan(listing: Vec<EntryProbe>) -> Vec<FileInfo> {
    match run(Some(listing)) {
        Ok(v) => v,
        Err(_) => panic!("a listed directory must scan"),
    }
}

#[test]
fn bytes_below_one_kilobyte() {
    for n in [0usize, 1, 500, 1023] {
        assert_eq!(get_file_size(n), DisplaySize::Bytes(n as isize));
    }
}

#[test]
fn kilobyte_tier() {
    for n in [1025usize, 1536, 4096, 1048574] {
        assert_eq!(get_file_size(n), DisplaySize::Kilobytes { bytes: n });
    }
    assert_eq!(get_file_size(1536).render(), "1.50 KB");
    assert_eq!(get_file_size(1025).render(), "1.00 KB");
    assert_eq!(get_file_size(4096).render(), "4.00 KB");
    assert_eq!(get_file_size(1048574).render(), "1024.00 KB");
}

#[test]
fn megabyte_tier() {
    for n in [1048577usize, 5767168, 1073741824] {
        assert_eq!(get_file_size(n), DisplaySize::Megabytes { bytes: n });
    }
    assert_eq!(get_file_size(1048577).render(), "1.00 MB");
    assert_eq!(get_file_size(5767168).render(), "5.50 MB");
    assert_eq!(get_file_size(1073741824).render(), "1024.00 MB");
}

#[test]
fn tier_boundaries_give_unknown_size() {
    for n in [1024usize, 1048575, 1048576] {
        assert_eq!(get_file_size(n), DisplaySize::Bytes(-1));
    }
    assert_eq!(get_file_size(1024).render(), "-1 B");
}

#[test]
fn render_rounds_to_hundredths() {
    assert_eq!(DisplaySize::Bytes(500).render(), "500 B");
    assert_eq!(DisplaySize::Bytes(0).render(), "0 B");
    // 1.125 is a tie: it goes to the even neighbour.
    assert_eq!(DisplaySize::Kilobytes { bytes: 1152 }.render(), "1.12 KB");
    // 1.375 goes up to the even neighbour.
    assert_eq!(DisplaySize::Kilobytes { bytes: 1408 }.render(), "1.38 KB");
    // 1.0048828125 rounds down.
    assert_eq!(DisplaySize::Kilobytes { bytes: 1029 }.render(), "1.00 KB");
    // 1.0107421875 rounds up.
    assert_eq!(DisplaySize::Kilobytes { bytes: 1035 }.render(), "1.01 KB");
    assert_eq!(DisplaySize::Megabytes { bytes: 10485760 }.render(), "10.00 MB");
}

#[test]
fn default_size_is_zero_bytes() {
    assert_eq!(DisplaySize::default(), DisplaySize::Bytes(0));
}

#[test]
fn file_type_from_flag() {
    assert_eq!(get_file_type(true), EntryKind::Directory);
    assert_eq!(get_file_type(false), EntryKind::RegularFile);
}

#[test]
fn error_descriptions() {
    assert_eq!(handle_error(ErrorCause::PermissionDenied), "Access is denied");
    assert_eq!(handle_error(ErrorCause::ResourceBusy), "File in use");
    assert_eq!(handle_error(ErrorCause::Other), "some unknown error");
}

#[test]
fn empty_directory_scans_to_no_records() {
    let records = scan(Vec::new());
    assert!(records.is_empty());
    let lines = report_lines(&records);
    assert_eq!(lines, vec![String::from("total 0")]);
}

#[test]
fn missing_directory_is_one_error() {
    assert!(matches!(run(None), Err(ScanError::DirectoryNotFound)));
}

#[test]
fn file_and_subdirectory() {
    let records = scan(vec![file("notes.txt", 500), dir("sub", 4096)]);
    assert_eq!(records.len(), 2);
    assert_eq!(records[0].kind, EntryKind::RegularFile);
    assert_eq!(records[0].size, DisplaySize::Bytes(500));
    assert_eq!(records[0].name, "notes.txt");
    assert_eq!(records[1].kind, EntryKind::Directory);
    assert_eq!(records[1].size, DisplaySize::Kilobytes { bytes: 4096 });
    assert_eq!(records[1].name, "sub");
    let lines = report_lines(&records);
    assert_eq!(lines.len(), 3);
    assert_eq!(lines[0], "total 2");
}

#[test]
fn permission_error_does_not_stop_scan() {
    let records = scan(vec![
        file("a.txt", 10),
        Err(ErrorCause::PermissionDenied),
        dir("b", 2000),
    ]);
    assert_eq!(records.len(), 3);
    assert_eq!(records[0].kind, EntryKind::RegularFile);
    assert_eq!(records[0].size, DisplaySize::Bytes(10));
    assert_eq!(records[1].kind, EntryKind::Unreadable);
    assert_eq!(records[1].name, "Access is denied");
    assert_eq!(records[1].size, DisplaySize::Bytes(-1));
    assert_eq!(records[2].kind, EntryKind::Directory);
    assert_eq!(records[2].size, DisplaySize::Kilobytes { bytes: 2000 });
    assert_eq!(records[2].name, "b");
}

#[test]
fn busy_and_other_errors_are_unreadable() {
    let busy = classify_entry(&Err(ErrorCause::ResourceBusy));
    assert_eq!(busy.kind, EntryKind::Unreadable);
    assert_eq!(busy.name, "File in use");
    assert_eq!(busy.size, DisplaySize::Bytes(-1));
    let other = classify_entry(&Err(ErrorCause::Other));
    assert_eq!(other.name, "some unknown error");
}

#[test]
fn rescan_in_another_order_gives_same_records() {
    let listing = || vec![file("x", 1), dir("y", 2048), Err(ErrorCause::Other), file("z", 3000000)];
    let first = scan(listing());
    let mut reversed = listing();
    reversed.reverse();
    let second = scan(reversed);
    assert_eq!(first.len(), second.len());
    for (i, a) in first.iter().enumerate() {
        let b = &second[second.len() - 1 - i];
        assert_eq!(a.kind, b.kind);
        assert_eq!(a.size, b.size);
        assert_eq!(a.name, b.name);
    }
    let again = scan(listing());
    for (a, b) in first.iter().zip(again.iter()) {
        assert_eq!(a.kind, b.kind);
        assert_eq!(a.size, b.size);
    }
}

#[test]
fn names_are_coloured_by_kind() {
    assert_eq!(get_file_name("sub", &EntryKind::Directory), "\u{1b}[36msub\u{1b}[0m");
    assert_eq!(get_file_name("a.txt", &EntryKind::RegularFile), "a.txt");
    assert_eq!(
        get_file_name("Access is denied", &EntryKind::Unreadable),
        "\u{1b}[31mAccess is denied\u{1b}[0m"
    );
}

#[test]
fn rows_are_column_aligned() {
    let f = classify_entry(&file("a.txt", 500));
    let expected_file = format!("{:<5} {:<8} {:<50}", ' ', "500 B", "a.txt");
    assert_eq!(format_row(&f), expected_file);
    let d = classify_entry(&dir("sub", 1536));
    let expected_dir = format!("(Dir) {:<8} {:<50}", "1.50 KB", "\u{1b}[36msub\u{1b}[0m");
    assert_eq!(format_row(&d), expected_dir);
    let u = classify_entry(&Err(ErrorCause::PermissionDenied));
    assert_eq!(format_row(&u), "\u{1b}[31mAccess is denied\u{1b}[0m");
}
