use home_services::registry::DirScan;
use home_services::registry::cfg_dir_path;
use home_services::registry::EntryOutcome;
use home_services::registry::LoadWarning;
use home_services::registry::load_registry;

fn text_entry(name: &str, url: &str, description: &str) -> EntryOutcome {
    EntryOutcome::Text {
        content: format!(
            "name = \"{}\"\nurl = \"{}\"\ndescription = \"{}\"\n",
            name, url, description
        ),
    }
}

#[test]
fn all_valid_entries_load_in_order() {
    let entries = vec![text_entry("a", "u1", "d1"), text_entry("b", "u2", "d2")];
    let rep = load_registry(DirScan::Entries { entries }).unwrap();
    assert_eq!(rep.services.len(), 2);
    assert_eq!(rep.services.services[0].name, "a");
    assert_eq!(rep.services.services[0].url, "u1");
    assert_eq!(rep.services.services[1].name, "b");
    assert_eq!(rep.services.services[1].description, "d2");
    assert_eq!(rep.warnings.len(), 0);
}

#[test]
fn single_invalid_entry_costs_one_record_and_one_warning() {
    let entries = vec![
        text_entry("a", "u1", "d1"),
        EntryOutcome::Text { content: "name = ".to_string() },
        text_entry("c", "u3", "d3"),
    ];
    let rep = load_registry(DirScan::Entries { entries }).unwrap();
    assert_eq!(rep.services.services.len(), 2);
    assert_eq!(rep.services.services[0].name, "a");
    assert_eq!(rep.services.services[1].name, "c");
    assert_eq!(rep.warnings.len(), 1);
    assert!(matches!(
        rep.warnings[0],
        LoadWarning::InvalidDescriptor { index: 1, .. }
    ));
}

#[test]
fn empty_entry_list_loads_to_empty_registry() {
    let rep = load_registry(DirScan::Entries { entries: vec![] }).unwrap();
    assert_eq!(rep.services.services.len(), 0);
    assert_eq!(rep.warnings.len(), 0);
}

#[test]
fn freshly_created_directory_loads_to_empty_registry() {
    let rep = load_registry(DirScan::CreatedEmpty).unwrap();
    assert_eq!(rep.services.services.len(), 0);
    assert_eq!(rep.warnings.len(), 0);
}

#[test]
fn unreadable_directory_degrades_to_empty_registry_with_warning() {
    let rep = load_registry(DirScan::OpenFailed { cause: "denied".to_string() }).unwrap();
    assert_eq!(rep.services.services.len(), 0);
    assert_eq!(rep.warnings.len(), 1);
    match &rep.warnings[0] {
        LoadWarning::DirectoryUnreadable { cause } => assert_eq!(cause, "denied"),
        other => panic!("expected a directory warning, got {:?}", other),
    }
}

#[test]
fn uncreatable_directory_is_an_error_naming_the_cause() {
    let r = load_registry(DirScan::CreateFailed { cause: "no parent".to_string() });
    assert_eq!(r.unwrap_err(), "Error creating cfg dir: no parent");
}

#[test]
fn non_files_are_skipped_silently() {
    let entries = vec![EntryOutcome::NotFile, text_entry("a", "u", "d"), EntryOutcome::NotFile];
    let rep = load_registry(DirScan::Entries { entries }).unwrap();
    assert_eq!(rep.services.services.len(), 1);
    assert_eq!(rep.services.services[0].name, "a");
    assert_eq!(rep.warnings.len(), 0);
}

#[test]
fn unreadable_entry_is_skipped_with_indexed_warning() {
    let entries = vec![
        text_entry("a", "u", "d"),
        EntryOutcome::Unreadable { cause: "io oops".to_string() },
    ];
    let rep = load_registry(DirScan::Entries { entries }).unwrap();
    assert_eq!(rep.services.services.len(), 1);
    assert_eq!(rep.warnings.len(), 1);
    match &rep.warnings[0] {
        LoadWarning::EntryUnreadable { index, cause } => {
            assert_eq!(*index, 1);
            assert_eq!(cause, "io oops");
        }
        other => panic!("expected an unreadable-entry warning, got {:?}", other),
    }
}

#[test]
fn cfg_dir_path_prefers_the_environment_override() {
    assert_eq!(cfg_dir_path(Some("/etc/dashboard".to_string())), "/etc/dashboard");
}

#[test]
fn cfg_dir_path_falls_back_to_the_default() {
    assert_eq!(cfg_dir_path(None), "./cfg");
}
