use temp_master::{
    report, Kind, ListTemps, Listing, Op, Source, Store, StoreError,
};

fn s(x: &str) -> String {
    x.to_string()
}

fn dir_source(name: &str) -> Option<Source> {
    Some(Source { file_name: Some(s(name)), kind: Kind::Dir })
}

fn file_source(name: &str) -> Option<Source> {
    Some(Source { file_name: Some(s(name)), kind: Kind::File })
}

fn empty_store() -> Store {
    Store::from_listing(Listing::new())
}

#[test]
fn scenario_add_dir_renamed_list_and_clone() {
    let mut store = empty_store();
    let ing = store.add(dir_source("proj-template"), Some(s("api"))).unwrap();
    assert_eq!(ing.name, "api");
    assert_eq!(ing.kind, Kind::Dir);
    assert!(store.has_template(&s("api")));
    assert!(!store.has_template(&s("proj-template")));
    assert_eq!(store.list_temps(), " - api");
    let mut cwd = Listing::new();
    let mat = store.clone_into(&s("api"), &mut cwd).unwrap();
    assert_eq!(mat.name, "api");
    assert_eq!(mat.kind, Kind::Dir);
    assert_eq!(cwd.kind_of(&s("api")), Some(Kind::Dir));
    assert_eq!(report(Op::Added, &s("api")), "Template api added");
    assert_eq!(report(Op::Cloned, &s("api")), "Template api cloned");
}

#[test]
fn add_takes_file_name_without_rename() {
    let mut store = empty_store();
    let ing = store.add(file_source("notes.md"), None).unwrap();
    assert_eq!(ing.name, "notes.md");
    assert_eq!(ing.kind, Kind::File);
    assert!(store.has_template(&s("notes.md")));
}

#[test]
fn add_then_clone_round_trip() {
    let mut store = empty_store();
    store.add(file_source("main.rs"), Some(s("rs"))).unwrap();
    let mut cwd = Listing::new();
    let mat = store.clone_into(&s("rs"), &mut cwd).unwrap();
    assert_eq!(mat.name, "rs");
    assert_eq!(mat.kind, Kind::File);
    assert_eq!(cwd.kind_of(&s("rs")), Some(Kind::File));
    assert_eq!(cwd.names_vec(), vec![s("rs")]);
}

#[test]
fn add_existing_name_is_conflict() {
    let mut store = empty_store();
    store.add(dir_source("a"), Some(s("n"))).unwrap();
    let err = store.add(file_source("b"), Some(s("n"))).unwrap_err();
    assert_eq!(err, StoreError::Conflict);
    assert_eq!(store.list_temps(), " - n");
    let mut cwd = Listing::new();
    let mat = store.clone_into(&s("n"), &mut cwd).unwrap();
    assert_eq!(mat.kind, Kind::Dir);
}

#[test]
fn add_missing_source_is_not_found() {
    let mut store = empty_store();
    assert_eq!(store.add(None, Some(s("x"))).unwrap_err(), StoreError::NotFound);
    assert_eq!(store.list_temps(), "");
}

#[test]
fn add_without_any_name_is_refused() {
    let mut store = empty_store();
    let src = Some(Source { file_name: None, kind: Kind::Dir });
    assert_eq!(store.add(src, None).unwrap_err(), StoreError::NoName);
    assert_eq!(store.list_temps(), "");
}

#[test]
fn clone_onto_existing_file_is_conflict() {
    let mut store = empty_store();
    store.add(file_source("n"), None).unwrap();
    let mut cwd = Listing::new();
    assert!(cwd.insert(s("n"), Kind::File));
    assert!(cwd.insert(s("other"), Kind::Dir));
    let err = store.clone_into(&s("n"), &mut cwd).unwrap_err();
    assert_eq!(err, StoreError::Conflict);
    assert_eq!(cwd.names_vec(), vec![s("n"), s("other")]);
    assert_eq!(cwd.kind_of(&s("n")), Some(Kind::File));
}

#[test]
fn clone_dir_onto_existing_entry_is_conflict() {
    let mut store = empty_store();
    store.add(dir_source("d"), None).unwrap();
    let mut cwd = Listing::new();
    assert!(cwd.insert(s("d"), Kind::Dir));
    assert_eq!(store.clone_into(&s("d"), &mut cwd).unwrap_err(), StoreError::Conflict);
}

#[test]
fn clone_unknown_is_not_found() {
    let store = empty_store();
    let mut cwd = Listing::new();
    assert_eq!(store.clone_into(&s("nope"), &mut cwd).unwrap_err(), StoreError::NotFound);
    assert_eq!(cwd.names_vec(), Vec::<String>::new());
}

#[test]
fn remove_is_total() {
    let mut store = empty_store();
    store.add(dir_source("n"), None).unwrap();
    let rem = store.remove(&s("n")).unwrap();
    assert_eq!(rem.name, "n");
    assert_eq!(rem.kind, Kind::Dir);
    assert!(!store.has_template(&s("n")));
    assert_eq!(store.remove(&s("n")).unwrap_err(), StoreError::NotFound);
    let mut cwd = Listing::new();
    assert_eq!(store.clone_into(&s("n"), &mut cwd).unwrap_err(), StoreError::NotFound);
    assert_eq!(report(Op::Removed, &s("n")), "Template n removed");
}

#[test]
fn list_has_exactly_the_added_templates() {
    let mut store = empty_store();
    store.add(file_source("a.txt"), Some(s("A"))).unwrap();
    store.add(dir_source("b"), Some(s("B"))).unwrap();
    store.add(file_source("C"), None).unwrap();
    let text = store.list_temps();
    let mut lines: Vec<&str> = text.split('\n').collect();
    lines.sort();
    assert_eq!(lines, vec![" - A", " - B", " - C"]);
}

#[test]
fn update_replaces_template() {
    let mut store = empty_store();
    store.add(file_source("old"), Some(s("t"))).unwrap();
    let up = store.update(dir_source("new"), &s("t"), Some(s("t")));
    let rem = up.removed.unwrap();
    assert_eq!(rem.name, "t");
    assert_eq!(rem.kind, Kind::File);
    let ing = up.added.unwrap();
    assert_eq!(ing.name, "t");
    assert_eq!(ing.kind, Kind::Dir);
    assert_eq!(store.list_temps(), " - t");
    assert_eq!(report(Op::Updated, &s("t")), "Template t updated");
}

#[test]
fn update_with_missing_source_loses_template() {
    let mut store = empty_store();
    store.add(file_source("x"), Some(s("t"))).unwrap();
    let up = store.update(None, &s("t"), None);
    assert_eq!(up.removed.unwrap().name, "t");
    assert_eq!(up.added.unwrap_err(), StoreError::NotFound);
    assert!(!store.has_template(&s("t")));
    assert_eq!(store.list_temps(), "");
}

#[test]
fn update_unknown_name_is_not_found() {
    let mut store = empty_store();
    store.add(file_source("x"), None).unwrap();
    let up = store.update(file_source("y"), &s("missing"), None);
    assert!(up.removed.is_none());
    assert_eq!(up.added.unwrap_err(), StoreError::NotFound);
    assert_eq!(store.list_temps(), " - x");
}

#[test]
fn update_into_other_taken_name_is_conflict_after_removal() {
    let mut store = empty_store();
    store.add(file_source("a"), None).unwrap();
    store.add(file_source("b"), None).unwrap();
    let up = store.update(file_source("b"), &s("a"), None);
    assert!(up.removed.is_some());
    assert_eq!(up.added.unwrap_err(), StoreError::Conflict);
    assert_eq!(store.list_temps(), " - b");
}

#[test]
fn list_text_bullets_in_order() {
    let mut list = ListTemps::new();
    assert_eq!(list.get_list_for_print(), "");
    list.push_template(s("one"));
    list.push_template(s("two"));
    assert_eq!(list.get_list_for_print(), " - one\n - two");
}

#[test]
fn list_text_trims_trailing_white_space() {
    let list = ListTemps::from_names(vec![s("a"), s("b \t")]);
    assert_eq!(list.get_list_for_print(), " - a\n - b");
    let blank = ListTemps::from_names(vec![s(" ")]);
    assert_eq!(blank.get_list_for_print(), " -");
}

#[test]
fn listing_refuses_duplicate_entry() {
    let mut l = Listing::new();
    assert!(l.insert(s("x"), Kind::File));
    assert!(!l.insert(s("x"), Kind::Dir));
    assert_eq!(l.kind_of(&s("x")), Some(Kind::File));
    assert!(l.contains(&s("x")));
    assert_eq!(l.remove(&s("x")), Some(Kind::File));
    assert_eq!(l.remove(&s("x")), None);
    assert!(!l.contains(&s("x")));
}
