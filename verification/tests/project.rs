use gke_pullup::project_from_gcloud_output;

#[test]
fn project_is_the_trimmed_output() {
    assert_eq!(project_from_gcloud_output("my-project\n"), Some("my-project".to_string()));
    assert_eq!(project_from_gcloud_output("\t my project \u{3000}"), Some("my project".to_string()));
}

#[test]
fn blank_output_names_no_project() {
    assert_eq!(project_from_gcloud_output(""), None);
    assert_eq!(project_from_gcloud_output(" \n\t"), None);
}
