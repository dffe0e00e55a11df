use photoproof_desktop::os::{
    editor_spec, image_paths, join_mount, offline_volume_error, online_abs, open_spec, parent_dir, reveal_spec,
    BestPath, CmdError, Platform,
};

#[test]
fn join_mount_handles_the_volume_root() {
    assert_eq!(join_mount("/mnt/vol", ""), "/mnt/vol");
    assert_eq!(join_mount("/mnt/vol", "shoot/IMG_0001.jpg"), "/mnt/vol/shoot/IMG_0001.jpg");
}

#[test]
fn linux_specs_are_the_xdg_open_class() {
    let (program, args) = reveal_spec(Platform::Linux, "/mnt/vol/shoot/IMG_0001.jpg").unwrap();
    assert_eq!(program, "xdg-open");
    assert_eq!(args, vec!["/mnt/vol/shoot".to_string()]);

    let (program, args) = open_spec(Platform::Linux, "/mnt/vol/shoot/IMG_0001.jpg");
    assert_eq!(program, "xdg-open");
    assert_eq!(args, vec!["/mnt/vol/shoot/IMG_0001.jpg".to_string()]);
}

#[test]
fn macos_editor_spec_keeps_editor_and_path_distinct_argv() {
    let evil = "evil; rm -rf ~ #";
    let (program, args) = editor_spec(Platform::MacOs, evil, "/mnt/vol/shoot/IMG_0001.jpg");
    assert_eq!(program, "open");
    assert_eq!(
        args,
        vec!["-a".to_string(), evil.to_string(), "/mnt/vol/shoot/IMG_0001.jpg".to_string()]
    );
    assert_eq!(args[1], evil);
}

#[test]
fn non_macos_editor_spec_keeps_editor_and_path_distinct_argv() {
    let evil = "evil; rm -rf ~ #";
    let (program, args) = editor_spec(Platform::Linux, evil, "/mnt/vol/shoot/IMG_0001.jpg");
    assert_eq!(program, evil);
    assert_eq!(args, vec!["/mnt/vol/shoot/IMG_0001.jpg".to_string()]);
}

#[test]
fn reveal_verbs_differ_by_platform() {
    let (program, args) = reveal_spec(Platform::MacOs, "/Volumes/A/x.jpg").unwrap();
    assert_eq!(program, "open");
    assert_eq!(args, vec!["-R".to_string(), "/Volumes/A/x.jpg".to_string()]);
    let (program, args) = reveal_spec(Platform::Windows, "D:\\x.jpg").unwrap();
    assert_eq!(program, "explorer");
    assert_eq!(args, vec!["/select,D:\\x.jpg".to_string()]);
    assert_eq!(
        reveal_spec(Platform::Linux, "/"),
        Err(CmdError::Invalid("path has no parent directory".to_string()))
    );
    let (_, args) = reveal_spec(Platform::Linux, "x.jpg").unwrap();
    assert_eq!(args, vec![String::new()]);
}

#[test]
fn parent_of_a_top_level_path_is_the_root() {
    assert_eq!(parent_dir("/x.jpg").as_deref(), Some("/"));
    assert_eq!(parent_dir("/a/b/c").as_deref(), Some("/a/b"));
    assert_eq!(parent_dir("/"), None);
}

#[test]
fn offline_refusals_name_the_volume() {
    let err = offline_volume_error(Some("ShootDisk")).message();
    assert!(err.contains("offline"), "got: {err}");
    assert!(err.contains("ShootDisk"), "got: {err}");
    assert_eq!(offline_volume_error(None).message(), "image is on an offline volume");
    assert_eq!(CmdError::Io("gone".into()).message(), "io error: gone");
    assert_eq!(CmdError::Unavailable("busy".into()).message(), "temporarily unavailable: busy");
}

#[test]
fn image_paths_resolves_the_best_online_path() {
    let dto = image_paths(
        Some(BestPath {
            rel_path: "shoot/IMG_0001.jpg".into(),
            online: true,
            mount_point: Some("/mnt/vol".into()),
        }),
        Some("ShootDisk".into()),
    )
    .unwrap();
    assert!(dto.online);
    assert_eq!(dto.abs_path.as_deref(), Some("/mnt/vol/shoot/IMG_0001.jpg"));
    assert_eq!(dto.rel_path, "shoot/IMG_0001.jpg");
    assert_eq!(dto.volume_label.as_deref(), Some("ShootDisk"));
    assert_eq!(online_abs(dto).unwrap(), "/mnt/vol/shoot/IMG_0001.jpg");
}

#[test]
fn offline_volume_keeps_identity_but_yields_no_abs_path() {
    let dto = image_paths(
        Some(BestPath {
            rel_path: "shoot/IMG_0001.jpg".into(),
            online: false,
            mount_point: Some("/mnt/vol".into()),
        }),
        Some("ShootDisk".into()),
    )
    .unwrap();
    assert!(!dto.online);
    assert_eq!(dto.abs_path, None);
    assert_eq!(dto.rel_path, "shoot/IMG_0001.jpg");
    let err = online_abs(dto).unwrap_err().message();
    assert!(err.contains("offline"), "got: {err}");
    assert!(err.contains("ShootDisk"), "got: {err}");
}

#[test]
fn an_image_without_any_path_is_invalid() {
    assert_eq!(
        image_paths(None, None).unwrap_err(),
        CmdError::Invalid("image has no known path".into())
    );
}
