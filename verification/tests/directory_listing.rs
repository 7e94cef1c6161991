// Directory-entry classification, listing collection, and the facade's
// post-processing, on concrete values.

use ion::KIND_DIRECTORY;
use ion::KIND_FILE;
use ion::KIND_SYMLINK;
use ion::KIND_UNKNOWN;
use ion::facade::recursive_from_option;
use ion::facade::zip_entries;
use ion::kind::DT_DIRECTORY;
use ion::kind::DT_REGULAR;
use ion::kind::DT_SYMLINK;
use ion::kind::kind_label;
use ion::kind::kind_of_dtype;
use ion::read_dir::RawEntry;
use ion::read_dir::ReadDirResult;
use ion::read_dir::collect_entries;
use ion::read_dir::is_skipped_name;

fn raw(name: &str, dtype: u32) -> RawEntry {
    RawEntry { name: String::from(name), dtype }
}

#[test]
fn dtype_flags_map_to_kind_codes() {
    assert_eq!(kind_of_dtype(DT_REGULAR), KIND_FILE);
    assert_eq!(kind_of_dtype(DT_DIRECTORY), KIND_DIRECTORY);
    assert_eq!(kind_of_dtype(DT_SYMLINK), KIND_SYMLINK);
    assert_eq!(kind_of_dtype(0), KIND_UNKNOWN);
    assert_eq!(kind_of_dtype(6), KIND_UNKNOWN);
    assert_eq!(kind_of_dtype(12), KIND_UNKNOWN);
}

#[test]
fn kind_labels_name_each_code() {
    assert_eq!(kind_label(KIND_UNKNOWN), "unknown");
    assert_eq!(kind_label(KIND_FILE), "file");
    assert_eq!(kind_label(KIND_DIRECTORY), "directory");
    assert_eq!(kind_label(KIND_SYMLINK), "symlink");
    assert_eq!(kind_label(9), "unknown");
}

#[test]
fn dot_entries_are_skipped() {
    assert!(is_skipped_name(&String::from(".")));
    assert!(is_skipped_name(&String::from("..")));
    assert!(is_skipped_name(&String::from("")));
    assert!(!is_skipped_name(&String::from("a.txt")));
    assert!(!is_skipped_name(&String::from("...")));
}

#[test]
fn listing_drops_dots_and_classifies_the_rest() {
    let entries = vec![
        raw(".", DT_DIRECTORY),
        raw("..", DT_DIRECTORY),
        raw("a.txt", DT_REGULAR),
        raw("b.txt", DT_REGULAR),
        raw("sub", DT_DIRECTORY),
    ];
    let r = collect_entries(entries);
    assert_eq!(r.names, vec!["a.txt", "b.txt", "sub"]);
    assert_eq!(r.kinds, vec![KIND_FILE, KIND_FILE, KIND_DIRECTORY]);
}

#[test]
fn listing_of_no_entries_is_empty() {
    let r = collect_entries(Vec::new());
    assert!(r.names.is_empty());
    assert!(r.kinds.is_empty());
}

#[test]
fn empty_listing_stands_for_an_unreadable_directory() {
    let r = ReadDirResult::empty();
    assert_eq!(r.len(), 0);
}

#[test]
fn listing_keeps_stream_order_and_unknown_flags() {
    let entries = vec![
        raw("z", DT_SYMLINK),
        raw("", DT_REGULAR),
        raw("a", 7),
        raw(".", DT_REGULAR),
        raw("m", DT_REGULAR),
    ];
    let r = collect_entries(entries);
    assert_eq!(r.names, vec!["z", "a", "m"]);
    assert_eq!(r.kinds, vec![KIND_SYMLINK, KIND_UNKNOWN, KIND_FILE]);
}

#[test]
fn zipped_records_pair_names_with_labels() {
    let entries = vec![
        raw("a.txt", DT_REGULAR),
        raw("b.txt", DT_REGULAR),
        raw("sub", DT_DIRECTORY),
    ];
    let r = collect_entries(entries);
    let records = zip_entries(&r);
    assert_eq!(records.len(), 3);
    let pairs: Vec<(String, String)> =
        records.into_iter().map(|e| (e.name, e.kind)).collect();
    assert!(pairs.contains(&(String::from("a.txt"), String::from("file"))));
    assert!(pairs.contains(&(String::from("b.txt"), String::from("file"))));
    assert!(pairs.contains(&(String::from("sub"), String::from("directory"))));
}

#[test]
fn zipped_records_label_every_kind() {
    let entries = vec![raw("u", 0), raw("f", DT_REGULAR), raw("d", DT_DIRECTORY), raw("s", DT_SYMLINK)];
    let r = collect_entries(entries);
    let records = zip_entries(&r);
    let labels: Vec<String> = records.into_iter().map(|e| e.kind).collect();
    assert_eq!(labels, vec!["unknown", "file", "directory", "symlink"]);
}

#[test]
fn recursive_option_defaults_to_false() {
    assert!(!recursive_from_option(None));
    assert!(recursive_from_option(Some(true)));
    assert!(!recursive_from_option(Some(false)));
}
