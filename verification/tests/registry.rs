use projector::gallery::{gallery_from_projects, gallery_line, open_gallery, GalleryError};
use projector::languages::ProgrammingLanguage;
use projector::project::{Project, ProjectRecord};
use projector::registry::{
    add_project, add_record, get_all_projects, open_memory_database, records_to_projects,
    StorageError,
};
use projector::selector::WrapPolicy;

fn record(language: &str, name: &str) -> ProjectRecord {
    ProjectRecord {
        language: language.to_string(),
        name: name.to_string(),
        path: format!("/p/{}", name),
        last_opened: None,
        created_on: 1,
    }
}

#[test]
fn fresh_store_lists_nothing() {
    let conn = open_memory_database().unwrap();
    let projects = get_all_projects(&conn).unwrap();
    assert!(projects.is_empty());
}

#[test]
fn insert_then_list_returns_the_record() {
    let mut conn = open_memory_database().unwrap();
    let project = Project::new(
        ProgrammingLanguage::Rust,
        "demo".to_string(),
        "/home/user/demo".to_string(),
    );
    add_project(&mut conn, &project).unwrap();
    let listed = get_all_projects(&conn).unwrap();
    assert_eq!(listed.len(), 1);
    assert_eq!(listed[0].name, "demo");
    assert_eq!(listed[0].path, "/home/user/demo");
    assert_eq!(listed[0].type_lang, ProgrammingLanguage::Rust);
    assert_eq!(listed[0].last_opened, None);
    assert_eq!(listed[0].created_on, project.created_on);
}

#[test]
fn insert_keeps_earlier_records() {
    let mut conn = open_memory_database().unwrap();
    let first = Project::new(ProgrammingLanguage::C, "one".to_string(), "/p/one".to_string());
    let second = Project::new(ProgrammingLanguage::Go, "two".to_string(), "/p/two".to_string());
    first.insert(&mut conn).unwrap();
    second.insert(&mut conn).unwrap();
    let listed = get_all_projects(&conn).unwrap();
    assert_eq!(listed.len(), 2);
    assert!(listed.iter().any(|p| p.name == "one" && p.type_lang == ProgrammingLanguage::C));
    assert!(listed.iter().any(|p| p.name == "two" && p.type_lang == ProgrammingLanguage::Go));
}

#[test]
fn unknown_language_is_rejected() {
    let mut conn = open_memory_database().unwrap();
    let record = ProjectRecord {
        language: "Cobol".to_string(),
        name: "legacy".to_string(),
        path: "/p/legacy".to_string(),
        last_opened: None,
        created_on: 0,
    };
    assert_eq!(add_record(&mut conn, &record), Err(StorageError::UnknownLanguage));
    assert!(get_all_projects(&conn).unwrap().is_empty());
}

#[test]
fn recognized_raw_record_is_stored() {
    let mut conn = open_memory_database().unwrap();
    let record = ProjectRecord {
        language: "Swift".to_string(),
        name: "app".to_string(),
        path: "/p/app".to_string(),
        last_opened: Some(7),
        created_on: 3,
    };
    add_record(&mut conn, &record).unwrap();
    let listed = get_all_projects(&conn).unwrap();
    assert_eq!(listed.len(), 1);
    assert_eq!(listed[0].type_lang, ProgrammingLanguage::Swift);
    assert_eq!(listed[0].last_opened, Some(7));
    assert_eq!(listed[0].created_on, 3);
}

#[test]
fn decoding_recognized_rows_succeeds() {
    let rows = vec![record("Rust", "one"), record("Go", "two")];
    let projects = records_to_projects(&rows).unwrap();
    assert_eq!(projects.len(), 2);
    assert_eq!(projects[0].type_lang, ProgrammingLanguage::Rust);
    assert_eq!(projects[0].name, "one");
    assert_eq!(projects[1].type_lang, ProgrammingLanguage::Go);
    assert_eq!(projects[1].path, "/p/two");
}

#[test]
fn decoding_no_rows_succeeds_with_nothing() {
    assert_eq!(records_to_projects(&Vec::new()).unwrap().len(), 0);
}

#[test]
fn one_unrecognized_row_refuses_the_batch() {
    let rows = vec![record("Rust", "one"), record("Cobol", "two")];
    assert_eq!(records_to_projects(&rows).unwrap_err(), StorageError::UnknownLanguage);
}

#[test]
fn gallery_from_no_projects_is_the_precondition_failure() {
    assert_eq!(
        gallery_from_projects(Vec::new()).unwrap_err(),
        GalleryError::EmptyCollection
    );
}

#[test]
fn gallery_from_projects_builds_the_clamped_selector() {
    let projects = vec![
        Project::new(ProgrammingLanguage::C, "lib".to_string(), "/p/lib".to_string()),
        Project::new(ProgrammingLanguage::Go, "cli".to_string(), "/p/cli".to_string()),
    ];
    let (back, selector) = gallery_from_projects(projects).unwrap();
    assert_eq!(back.len(), 2);
    assert_eq!(
        selector.items,
        vec!["lib - /p/lib".to_string(), "cli - /p/cli".to_string()]
    );
    assert_eq!(selector.cursor, 0);
    assert_eq!(selector.policy, WrapPolicy::Clamped);
}

#[test]
fn gallery_on_empty_registry_is_a_precondition_failure() {
    let conn = open_memory_database().unwrap();
    assert_eq!(open_gallery(&conn).unwrap_err(), GalleryError::EmptyCollection);
}

#[test]
fn gallery_lists_every_project_clamped() {
    let mut conn = open_memory_database().unwrap();
    let project = Project::new(
        ProgrammingLanguage::Python,
        "toolbox".to_string(),
        "/srv/toolbox".to_string(),
    );
    add_project(&mut conn, &project).unwrap();
    let (projects, selector) = open_gallery(&conn).unwrap();
    assert_eq!(projects.len(), 1);
    assert_eq!(selector.items, vec!["toolbox - /srv/toolbox".to_string()]);
    assert_eq!(selector.cursor, 0);
    assert_eq!(selector.policy, WrapPolicy::Clamped);
}

#[test]
fn gallery_line_joins_name_and_path() {
    let project = Project::new(
        ProgrammingLanguage::Java,
        "svc".to_string(),
        "/opt/svc".to_string(),
    );
    assert_eq!(gallery_line(&project), "svc - /opt/svc");
}

#[test]
fn language_names_round_trip() {
    for lang in ProgrammingLanguage::all_langs() {
        assert_eq!(ProgrammingLanguage::from_name(lang.name()), Some(lang));
    }
}

#[test]
fn unrecognized_language_name_decodes_to_nothing() {
    assert_eq!(ProgrammingLanguage::from_name("Cobol"), None);
    assert_eq!(ProgrammingLanguage::from_name("rust"), None);
    assert_eq!(ProgrammingLanguage::from_name(""), None);
}

#[test]
fn all_langs_lists_the_ten_languages_in_order() {
    let langs = ProgrammingLanguage::all_langs();
    assert_eq!(langs.len(), 10);
    assert_eq!(langs[0], ProgrammingLanguage::Rust);
    assert_eq!(langs[9], ProgrammingLanguage::Kotlin);
}
