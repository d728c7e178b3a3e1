use sealtask::attachment::{
    resolve_attachment_output_path, sanitize_attachment_file_name, validate_working_directory_relative_output_path,
    PathComponent,
};

#[test]
fn default_attachment_file_names_are_cross_platform_safe() {
    assert_eq!(sanitize_attachment_file_name("dir\\report:<bad>?*\n.txt"), "report__bad____.txt");
    assert_eq!(sanitize_attachment_file_name("NUL.txt"), "_NUL.txt");
    assert_eq!(sanitize_attachment_file_name("com9.LOG"), "_com9.LOG");
    assert_eq!(sanitize_attachment_file_name("con .txt"), "_con .txt");
    assert_eq!(sanitize_attachment_file_name("ordinary. "), "ordinary_");
    assert_eq!(sanitize_attachment_file_name("COM0.txt"), "COM0.txt");
}

#[test]
fn attachment_output_paths_must_stay_below_the_working_directory() {
    let absolute = vec![PathComponent::RootDir, PathComponent::Normal("tmp".to_string()), PathComponent::Normal("a.txt".to_string())];
    assert!(validate_working_directory_relative_output_path(false, &absolute).is_err());
    let parent = vec![PathComponent::ParentDir, PathComponent::Normal("outside.txt".to_string())];
    assert!(validate_working_directory_relative_output_path(false, &parent).is_err());
    assert!(validate_working_directory_relative_output_path(true, &Vec::new()).is_err());
    assert!(validate_working_directory_relative_output_path(false, &vec![PathComponent::CurDir]).is_err());
    let ok = vec![PathComponent::CurDir, PathComponent::Normal("out".to_string()), PathComponent::Normal("a.txt".to_string())];
    assert!(validate_working_directory_relative_output_path(false, &ok).is_ok());
}

#[test]
fn attachment_output_defaults_to_the_sanitized_file_name() {
    assert_eq!(resolve_attachment_output_path("report.pdf", Some("out/file.bin".to_string())), "out/file.bin");
    assert_eq!(resolve_attachment_output_path("report.pdf", None), sanitize_attachment_file_name("report.pdf"));
    assert_eq!(resolve_attachment_output_path("CON.txt", None), "_CON.txt");
}

#[test]
fn sanitized_attachment_names_are_fixed_points() {
    for name in ["../con.txt. ", "dir\\report:<bad>?*\n.txt", "NUL.txt", "  ..  ", "LPT1", "a\u{2003}.", "safe.bin"] {
        let once = sanitize_attachment_file_name(name);
        assert_eq!(sanitize_attachment_file_name(&once), once);
        assert!(!once.is_empty());
        assert!(!once.ends_with('.') && !once.ends_with(' '));
        assert!(!once.contains('/') && !once.contains('\\'));
    }
    assert_eq!(sanitize_attachment_file_name("../con.txt. "), "_con.txt_");
}
