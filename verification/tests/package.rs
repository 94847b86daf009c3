use railtube::decision::{decide_action, determine_package_installation, Action};

#[test]
fn test_determine_install_not_installed_no_version() {
    let result = determine_package_installation("testpkg", &None, None, "Test");
    assert!(result);
}

#[test]
fn test_determine_install_not_installed_with_version() {
    let result = determine_package_installation("testpkg", &Some("1.0".to_string()), None, "Test");
    assert!(result);
}

#[test]
fn test_determine_skip_installed_no_desired() {
    let installed = "1.0".to_string();
    let result = determine_package_installation("testpkg", &None, Some(&installed), "Test");
    assert!(!result);
}

#[test]
fn test_determine_skip_installed_matching_version() {
    let installed = "1.0".to_string();
    let result = determine_package_installation(
        "testpkg",
        &Some("1.0".to_string()),
        Some(&installed),
        "Test",
    );
    assert!(!result);
}

#[test]
fn test_determine_install_installed_mismatching_version() {
    let installed = "1.0".to_string();
    let result = determine_package_installation(
        "testpkg",
        &Some("2.0".to_string()),
        Some(&installed),
        "Test",
    );
    assert!(result);
}

#[test]
fn decision_table_all_cases() {
    let v1 = "1.0".to_string();
    let v2 = "2.0".to_string();
    assert_eq!(decide_action(&None, None), Action::Install);
    assert_eq!(decide_action(&None, Some(&v1)), Action::Skip);
    assert_eq!(decide_action(&Some(v1.clone()), None), Action::Install);
    assert_eq!(decide_action(&Some(v1.clone()), Some(&v1)), Action::Skip);
    assert_eq!(decide_action(&Some(v2.clone()), Some(&v1)), Action::Reinstall);
}

#[test]
fn reinstall_is_mutating_skip_is_not() {
    let v1 = "1.0".to_string();
    let v2 = "2.0".to_string();
    assert!(determine_package_installation("p", &Some(v2), Some(&v1), "APT"));
    assert!(!determine_package_installation("p", &Some("1.0".to_string()), Some(&v1), "APT"));
}
