use photoproof_desktop::folders::{ancestor_dirs, build_tree, folder_prefix, folder_tree, text_less};

#[test]
fn folder_tree_builds_nested_dirs() {
    let rels = vec![
        "photos/2026/iceland/a.jpg".to_string(),
        "photos/2026/harbor/b.jpg".to_string(),
    ];
    let tree = folder_tree(&rels, "photos");
    assert_eq!(tree.len(), 1);
    assert_eq!(tree[0].name, "2026");
    assert_eq!(tree[0].rel_path, "2026");
    let names: Vec<&str> = tree[0].children.iter().map(|c| c.name.as_str()).collect();
    assert_eq!(names, vec!["harbor", "iceland"]);
    assert_eq!(tree[0].children[1].rel_path, "2026/iceland");
}

#[test]
fn ancestors_are_sorted_and_unique() {
    let rels = vec![
        "b/x/1.jpg".to_string(),
        "a/2.jpg".to_string(),
        "b/3.jpg".to_string(),
        "top.jpg".to_string(),
        "b/x/y/4.jpg".to_string(),
    ];
    assert_eq!(ancestor_dirs(&rels, ""), vec!["a", "b", "b/x", "b/x/y"]);
    let tree = build_tree(&ancestor_dirs(&rels, ""));
    assert_eq!(tree.len(), 2);
    assert_eq!(tree[1].children[0].children[0].rel_path, "b/x/y");
}

#[test]
fn paths_shorter_than_the_root_contribute_nothing() {
    let rels = vec!["ph".to_string(), "photos/a/b.jpg".to_string()];
    assert_eq!(ancestor_dirs(&rels, "photos"), vec!["a"]);
    assert!(folder_tree(&Vec::new(), "photos").is_empty());
}

#[test]
fn path_order_is_by_code_point_with_prefixes_first() {
    assert!(text_less("a", "b"));
    assert!(text_less("a", "a/b"));
    assert!(text_less("Z", "a"));
    assert!(!text_less("b", "a"));
    assert!(!text_less("a", "a"));
}

#[test]
fn folder_prefixes_join_root_and_folder() {
    assert_eq!(folder_prefix("photos", "2026"), "photos/2026/");
    assert_eq!(folder_prefix("", "2026"), "2026/");
    assert_eq!(folder_prefix("photos", ""), "photos/");
    assert_eq!(folder_prefix("", ""), "");
}
