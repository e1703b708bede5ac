use file_graph::paths::file_name_of;

#[test]
fn file_name_is_the_final_component() {
    assert_eq!(file_name_of("/a/b/c.txt"), Some("c.txt".to_string()));
    assert_eq!(file_name_of("/note"), Some("note".to_string()));
    assert_eq!(file_name_of("plain"), Some("plain".to_string()));
}

#[test]
fn paths_without_a_final_component_have_no_name() {
    assert_eq!(file_name_of("/"), None);
    assert_eq!(file_name_of(""), None);
    assert_eq!(file_name_of("/a/b/"), None);
}
