use command_gateway::gateway::decoded_file_names;
use command_gateway::gateway::enumerate_documents_plan;
use command_gateway::gateway::persist_document_plan;
use command_gateway::gateway::probe_response;
use command_gateway::gateway::retrieve_document_plan;

#[test]
fn persist_plan_resolves_container_and_file() {
    let plan = persist_document_plan(Some("/Users/dev"), "notes.txt").unwrap();
    assert_eq!(
        plan.directory,
        "/Users/dev/Library/Mobile Documents/iCloud~com~zfsdev/Documents"
    );
    assert_eq!(
        plan.file_path,
        "/Users/dev/Library/Mobile Documents/iCloud~com~zfsdev/Documents/notes.txt"
    );
}

#[test]
fn persist_and_retrieve_agree_on_the_path() {
    let plan = persist_document_plan(Some("/home/u"), "a.txt").unwrap();
    let read = retrieve_document_plan(Some("/home/u"), "a.txt").unwrap();
    assert_eq!(plan.file_path, read);
}

#[test]
fn enumerate_lists_the_directory_persist_writes_into() {
    let plan = persist_document_plan(Some("/home/u"), "a.txt").unwrap();
    let dir = enumerate_documents_plan(Some("/home/u")).unwrap();
    assert_eq!(plan.directory, dir);
    assert!(plan.file_path.starts_with(dir.as_str()));
}

#[test]
fn missing_home_fails_each_folder_command() {
    assert_eq!(
        persist_document_plan(None, "x").unwrap_err(),
        "environment variable not found"
    );
    assert_eq!(
        retrieve_document_plan(None, "x").unwrap_err(),
        "environment variable not found"
    );
    assert_eq!(
        enumerate_documents_plan(None).unwrap_err(),
        "environment variable not found"
    );
}

#[test]
fn undecodable_names_are_dropped_in_order() {
    let entries = vec![
        Some("a.txt".to_string()),
        None,
        Some("b.txt".to_string()),
        None,
    ];
    let names = decoded_file_names(&entries);
    assert_eq!(names, vec!["a.txt".to_string(), "b.txt".to_string()]);
}

#[test]
fn empty_listing_enumerates_to_nothing() {
    let names = decoded_file_names(&Vec::new());
    assert!(names.is_empty());
}

#[test]
fn probe_success_returns_the_url() {
    let r = probe_response("http://10.0.0.5:8080".to_string(), Ok(()));
    assert_eq!(r.unwrap(), "http://10.0.0.5:8080");
}

#[test]
fn probe_transport_failure_is_reported() {
    let r = probe_response(
        "http://10.255.255.1:9".to_string(),
        Err("connect timeout".to_string()),
    );
    assert_eq!(r.unwrap_err(), "Connection failed: connect timeout");
}
