use python_manager::cmd::registry::{list_names, DirEntry, EntryKind};
use python_manager::cmd::venvmgr::{effective_packages, is_valid_name, Venv};
use python_manager::notice::{Notice, Tone};

fn strings(items: &[&str]) -> Vec<String> {
    items.iter().map(|s| s.to_string()).collect()
}

fn entry(name: &str, kind: EntryKind) -> DirEntry {
    DirEntry { name: Some(name.to_string()), kind }
}

#[test]
fn test_venv() {
    let venv = Venv::new("test_venv".to_string(), "3.8".to_string(), vec![], false);
    assert_eq!(venv.name(), "test_venv");
    assert_eq!(venv.python_version(), "3.8");
}

#[test]
fn test_venv_clean() {
    let venv = Venv::new(
        "test_venv_clean".to_string(),
        "3.9".to_string(),
        vec!["numpy".to_string(), "pandas".to_string()],
        false,
    );
    assert_eq!(venv.name(), "test_venv_clean");
    assert_eq!(venv.python_version(), "3.9");
    assert_eq![venv.packages(), &["numpy", "pandas"]]
}

#[test]
fn a_descriptor_keeps_what_it_was_given() {
    let venv = Venv::new("data".to_string(), "3.12".to_string(), strings(&["polars"]), true);
    assert_eq!(venv.name(), "data");
    assert_eq!(venv.python_version(), "3.12");
    assert_eq!(venv.packages(), &strings(&["polars"]));
    assert!(venv.uses_defaults());
    let plain = Venv::new("plain".to_string(), "3.10".to_string(), vec![], false);
    assert!(!plain.uses_defaults());
}

#[test]
fn effective_packages_appends_the_defaults_when_asked() {
    let requested = strings(&["requests", "flask"]);
    let defaults = strings(&["pip", "wheel"]);
    assert_eq!(
        effective_packages(&requested, &defaults, true),
        strings(&["requests", "flask", "pip", "wheel"])
    );
    assert_eq!(
        effective_packages(&requested, &defaults, false),
        strings(&["requests", "flask"])
    );
}

#[test]
fn effective_packages_keeps_order_and_duplicates() {
    let requested = strings(&["b", "a", "b"]);
    let defaults = strings(&["a", "c"]);
    assert_eq!(
        effective_packages(&requested, &defaults, true),
        strings(&["b", "a", "b", "a", "c"])
    );
    assert_eq!(effective_packages(&defaults, &requested, true), strings(&["a", "c", "b", "a", "b"]));
}

#[test]
fn effective_packages_of_empty_lists() {
    let none: Vec<String> = Vec::new();
    let some = strings(&["x"]);
    assert_eq!(effective_packages(&none, &none, true), none);
    assert_eq!(effective_packages(&none, &some, true), some);
    assert_eq!(effective_packages(&none, &some, false), none);
    assert_eq!(effective_packages(&some, &none, true), some);
}

#[test]
fn valid_names_are_single_path_components() {
    assert!(is_valid_name("demo"));
    assert!(is_valid_name("test_venv"));
    assert!(is_valid_name("py3.11"));
    assert!(is_valid_name("..."));
    assert!(is_valid_name(".hidden"));
    assert!(is_valid_name("with space"));
    assert!(!is_valid_name(""));
    assert!(!is_valid_name("."));
    assert!(!is_valid_name(".."));
    assert!(!is_valid_name("a/b"));
    assert!(!is_valid_name("/"));
    assert!(!is_valid_name("a\\b"));
    assert!(!is_valid_name("../other"));
    assert!(!is_valid_name("nul\0"));
}

#[test]
fn list_names_keeps_directories_only() {
    let entries = vec![
        entry("a", EntryKind::Directory),
        entry("b", EntryKind::Directory),
        entry("c.txt", EntryKind::Other),
    ];
    let mut names = list_names(&entries);
    names.sort();
    assert_eq!(names, strings(&["a", "b"]));
}

#[test]
fn list_names_keeps_the_order_of_the_entries() {
    let entries = vec![
        entry("zeta", EntryKind::Directory),
        entry("notes.md", EntryKind::Other),
        entry("alpha", EntryKind::Directory),
        entry("mid", EntryKind::Directory),
    ];
    assert_eq!(list_names(&entries), strings(&["zeta", "alpha", "mid"]));
}

#[test]
fn list_names_skips_what_could_not_be_read() {
    let entries = vec![
        DirEntry { name: None, kind: EntryKind::Directory },
        entry("unknown", EntryKind::Unknown),
        DirEntry { name: None, kind: EntryKind::Unknown },
        entry("kept", EntryKind::Directory),
    ];
    assert_eq!(list_names(&entries), strings(&["kept"]));
    assert!(list_names(&Vec::new()).is_empty());
}

#[test]
fn list_of_an_unreadable_root_is_empty() {
    let listing = Venv::list(None, &None);
    assert!(listing.names.is_empty());
    assert_eq!(
        listing.notices,
        vec![
            Notice { tone: Tone::Info, text: "Listing virtual environments".to_string() },
            Notice {
                tone: Tone::Failure,
                text: "Error reading virtual environments directory".to_string(),
            },
        ]
    );
    let quiet = Venv::list(Some(false), &None);
    assert!(quiet.names.is_empty());
    assert!(quiet.notices.is_empty());
}

#[test]
fn list_shows_one_line_per_environment() {
    let read = Some(vec![
        entry("a", EntryKind::Directory),
        entry("c.txt", EntryKind::Other),
        entry("b", EntryKind::Directory),
    ]);
    let listing = Venv::list(Some(true), &read);
    assert_eq!(listing.names, strings(&["a", "b"]));
    assert_eq!(
        listing.notices,
        vec![
            Notice { tone: Tone::Info, text: "Listing virtual environments".to_string() },
            Notice { tone: Tone::Success, text: "a".to_string() },
            Notice { tone: Tone::Success, text: "b".to_string() },
        ]
    );
    let by_default = Venv::list(None, &read);
    assert_eq!(by_default, listing);
}

#[test]
fn list_says_when_nothing_is_there() {
    let read = Some(vec![entry("c.txt", EntryKind::Other)]);
    let listing = Venv::list(Some(true), &read);
    assert!(listing.names.is_empty());
    assert_eq!(
        listing.notices,
        vec![
            Notice { tone: Tone::Info, text: "Listing virtual environments".to_string() },
            Notice { tone: Tone::Warning, text: "No virtual environments found".to_string() },
        ]
    );
}

#[test]
fn a_quiet_list_still_gives_the_names() {
    let read = Some(vec![entry("a", EntryKind::Directory)]);
    let listing = Venv::list(Some(false), &read);
    assert_eq!(listing.names, strings(&["a"]));
    assert!(listing.notices.is_empty());
}
