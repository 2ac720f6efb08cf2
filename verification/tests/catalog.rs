use tealdeer::cache::Cache;
use tealdeer::catalog::{EntryKind, WalkEntry};
use tealdeer::error::TealdeerError;
use tealdeer::types::OsType;

fn entry(parents: &[&str], name: &str, kind: EntryKind) -> WalkEntry {
    WalkEntry {
        parents: parents.iter().map(|s| s.to_string()).collect(),
        file_name: Some(name.to_string()),
        kind,
    }
}

fn file(parents: &[&str], name: &str) -> WalkEntry {
    entry(parents, name, EntryKind::File)
}

fn dir(parents: &[&str], name: &str) -> WalkEntry {
    entry(parents, name, EntryKind::Directory)
}

fn list(os: OsType, entries: Vec<WalkEntry>) -> Vec<String> {
    let located: Result<&str, TealdeerError> = Ok("/cache");
    Cache::new("u", os).list_pages(located, &entries).unwrap()
}

fn names(names: &[&str]) -> Vec<String> {
    names.iter().map(|s| s.to_string()).collect()
}

#[test]
fn walk_descends_into_common_and_platform_only() {
    let cache = Cache::new("u", OsType::Linux);
    assert!(cache.should_walk(Some("common"), EntryKind::Directory));
    assert!(cache.should_walk(Some("linux"), EntryKind::Directory));
    assert!(!cache.should_walk(Some("osx"), EntryKind::Directory));
    assert!(!cache.should_walk(Some("windows"), EntryKind::Directory));
    assert!(!cache.should_walk(Some("sunos"), EntryKind::Directory));
    assert!(!cache.should_walk(Some("Common"), EntryKind::Directory));
    assert!(!cache.should_walk(Some(""), EntryKind::Directory));
}

#[test]
fn walk_for_a_platform_without_directory() {
    let cache = Cache::new("u", OsType::Other);
    assert!(cache.should_walk(Some("common"), EntryKind::Directory));
    assert!(!cache.should_walk(Some("linux"), EntryKind::Directory));
    assert!(!cache.should_walk(Some("osx"), EntryKind::Directory));
    let cache = Cache::new("u", OsType::SunOs);
    assert!(!cache.should_walk(Some("sunos"), EntryKind::Directory));
}

#[test]
fn walk_keeps_files_and_nothing_else() {
    let cache = Cache::new("u", OsType::OsX);
    assert!(cache.should_walk(Some("tar.md"), EntryKind::File));
    assert!(cache.should_walk(Some("README"), EntryKind::File));
    assert!(cache.should_walk(Some("osx"), EntryKind::Directory));
    assert!(!cache.should_walk(Some("tar.md"), EntryKind::Other));
    assert!(!cache.should_walk(Some("common"), EntryKind::Other));
    assert!(!cache.should_walk(None, EntryKind::File));
    assert!(!cache.should_walk(None, EntryKind::Directory));
    assert!(!cache.should_walk(None, EntryKind::Other));
}

#[test]
fn page_of_an_entry() {
    let cache = Cache::new("u", OsType::Linux);
    assert_eq!(cache.entry_page(&file(&["common"], "tar.md")), Some("tar".to_string()));
    assert_eq!(cache.entry_page(&file(&["linux"], "apt.md")), Some("apt".to_string()));
    assert_eq!(cache.entry_page(&file(&[], "top.md")), None);
    assert_eq!(cache.entry_page(&file(&["common", "linux"], "deep.md")), Some("deep".to_string()));
    assert_eq!(cache.entry_page(&file(&["osx"], "brew.md")), None);
    assert_eq!(cache.entry_page(&file(&["common", "more"], "x.md")), None);
    assert_eq!(cache.entry_page(&file(&["more", "common"], "x.md")), None);
    assert_eq!(cache.entry_page(&file(&["common"], "tar.txt")), None);
    assert_eq!(cache.entry_page(&file(&["common"], ".md")), None);
    assert_eq!(cache.entry_page(&dir(&["common"], "dir.md")), None);
    assert_eq!(cache.entry_page(&entry(&["common"], "link.md", EntryKind::Other)), None);
    let nameless = WalkEntry { parents: vec![], file_name: None, kind: EntryKind::File };
    assert_eq!(cache.entry_page(&nameless), None);
}

#[test]
fn catalog_is_sorted_and_holds_each_name_once() {
    let listed = list(
        OsType::Linux,
        vec![
            dir(&[], "common"),
            file(&["common"], "tar.md"),
            file(&["common"], "ls.md"),
            file(&["common"], "cat.md"),
            dir(&[], "linux"),
            file(&["linux"], "tar.md"),
            file(&["linux"], "apt.md"),
            file(&["linux"], "ls.md"),
        ],
    );
    assert_eq!(listed, names(&["apt", "cat", "ls", "tar"]));
}

#[test]
fn catalog_leaves_out_other_platforms() {
    let entries = || {
        vec![
            file(&["common"], "tar.md"),
            file(&["linux"], "apt.md"),
            file(&["osx"], "brew.md"),
            file(&["windows"], "dir.md"),
            file(&["sunos"], "pkg.md"),
            file(&["osx"], "tar.md"),
        ]
    };
    assert_eq!(list(OsType::Linux, entries()), names(&["apt", "tar"]));
    assert_eq!(list(OsType::OsX, entries()), names(&["brew", "tar"]));
    assert_eq!(list(OsType::Windows, entries()), names(&["dir", "tar"]));
    assert_eq!(list(OsType::SunOs, entries()), names(&["tar"]));
    assert_eq!(list(OsType::Other, entries()), names(&["tar"]));
}

#[test]
fn catalog_leaves_out_files_in_no_directory() {
    let listed = list(
        OsType::Linux,
        vec![file(&[], "index.md"), file(&["common"], "tar.md"), file(&[], "linux.md")],
    );
    assert_eq!(listed, names(&["tar"]));
}

#[test]
fn catalog_follows_walked_directories_to_any_depth() {
    let listed = list(
        OsType::Linux,
        vec![
            file(&["common", "linux"], "deep.md"),
            file(&["linux", "common", "common"], "deeper.md"),
            file(&["common", "extra"], "hidden.md"),
            file(&["osx", "common"], "other.md"),
        ],
    );
    assert_eq!(listed, names(&["deep", "deeper"]));
}

#[test]
fn catalog_holds_page_files_only() {
    let listed = list(
        OsType::Linux,
        vec![
            file(&["common"], "tar.md"),
            file(&["common"], "README"),
            file(&["common"], "notes.txt"),
            file(&["common"], ".md"),
            file(&["common"], "a.b.md"),
            file(&["common"], "upper.MD"),
            dir(&["common"], "folder.md"),
            entry(&["common"], "socket.md", EntryKind::Other),
            WalkEntry { parents: vec!["common".to_string()], file_name: None, kind: EntryKind::File },
        ],
    );
    assert_eq!(listed, names(&["a.b", "tar"]));
}

#[test]
fn catalog_order_is_that_of_strings() {
    let stems = ["b", "A", "é", "a", "tar-x", "tar", "7z", "日本", "a", "Z", "tar"];
    let entries = stems.iter().map(|s| file(&["common"], &format!("{}.md", s))).collect();
    let listed = list(OsType::Linux, entries);
    let mut expected = names(&stems);
    expected.sort();
    expected.dedup();
    assert_eq!(listed, expected);
    assert_eq!(listed, names(&["7z", "A", "Z", "a", "b", "tar", "tar-x", "é", "日本"]));
}

#[test]
fn catalog_is_the_same_in_whatever_order_the_entries_come() {
    let stems = ["m", "c", "x", "a", "m", "z", "c", "b", ""];
    let forward = stems.iter().map(|s| file(&["common"], &format!("{}.md", s))).collect();
    let backward = stems.iter().rev().map(|s| file(&["linux"], &format!("{}.md", s))).collect();
    let expected = names(&["a", "b", "c", "m", "x", "z"]);
    assert_eq!(list(OsType::Linux, forward), expected);
    assert_eq!(list(OsType::Linux, backward), expected);
}

#[test]
fn catalog_of_no_entries_is_empty() {
    assert_eq!(list(OsType::Linux, vec![]), Vec::<String>::new());
}

#[test]
fn catalog_fails_without_a_cache() {
    let error = TealdeerError::CacheError("override path missing or not a directory".to_string());
    let located: Result<&str, TealdeerError> = Err(error.clone());
    let entries = vec![file(&["common"], "tar.md")];
    assert_eq!(Cache::new("u", OsType::Linux).list_pages(located, &entries), Err(error));
}
