use railtube::listing::{
    cargo_list_contains, lookup_version, parse_apt_package_map, parse_apt_version_output,
    parse_cargo_package_map, parse_cargo_package_names, parse_package_lines, parse_snap_list,
};
use railtube::text::{
    base_name, eq_ignore_ascii_case, first_token, i32_to_string, join_spaces, last_segment,
    split_lines, split_package_spec, strip_leading_char, strip_trailing_char, trim_spaces,
    u64_to_string,
};

fn svec(items: &[&str]) -> Vec<String> {
    items.iter().map(|s| s.to_string()).collect()
}

#[test]
fn split_spec_with_version() {
    let (name, version) = split_package_spec("htop=3.2.1");
    assert_eq!(name, "htop");
    assert_eq!(version, Some("3.2.1".to_string()));
}

#[test]
fn split_spec_without_version() {
    let (name, version) = split_package_spec("htop");
    assert_eq!(name, "htop");
    assert_eq!(version, None);
}

#[test]
fn split_spec_keeps_rest_after_first_equals() {
    let (name, version) = split_package_spec("pkg=1.0=beta");
    assert_eq!(name, "pkg");
    assert_eq!(version, Some("1.0=beta".to_string()));
}

#[test]
fn base_name_strips_snap_flags() {
    assert_eq!(base_name("code --classic"), "code");
    assert_eq!(base_name("plain"), "plain");
    assert_eq!(base_name("   spaced   name"), "spaced");
}

#[test]
fn first_token_of_blank_line_is_none() {
    assert_eq!(first_token("   \t  "), None);
    assert_eq!(first_token(""), None);
    assert_eq!(first_token(" a b"), Some("a".to_string()));
}

#[test]
fn last_segment_of_url() {
    assert_eq!(last_segment("https://example.com/pool/app_1.0.deb"), "app_1.0.deb");
    assert_eq!(last_segment("no-slash.deb"), "no-slash.deb");
    assert_eq!(last_segment("dir/"), "");
}

#[test]
fn trim_and_strip_helpers() {
    assert_eq!(trim_spaces("  x y  "), "x y");
    assert_eq!(strip_trailing_char("name::", ':'), "name");
    assert_eq!(strip_leading_char("vv1.0", 'v'), "1.0");
}

#[test]
fn case_insensitive_comparison() {
    assert!(eq_ignore_ascii_case("APT", "apt"));
    assert!(eq_ignore_ascii_case("FlatPak", "flatpak"));
    assert!(!eq_ignore_ascii_case("apt", "snap"));
}

#[test]
fn join_spaces_renders_args() {
    assert_eq!(join_spaces(&svec(&["apt", "install", "-y", "x"])), "apt install -y x");
    assert_eq!(join_spaces(&svec(&[])), "");
    assert_eq!(join_spaces(&svec(&["one"])), "one");
}

#[test]
fn number_rendering() {
    assert_eq!(u64_to_string(0), "0");
    assert_eq!(u64_to_string(90210), "90210");
    assert_eq!(i32_to_string(-17), "-17");
    assert_eq!(i32_to_string(i32::MIN), "-2147483648");
}

#[test]
fn split_lines_handles_endings() {
    assert_eq!(split_lines("a\nb\nc"), svec(&["a", "b", "c"]));
    assert_eq!(split_lines("a\nb\n"), svec(&["a", "b"]));
    assert_eq!(split_lines("a\r\nb\r\n"), svec(&["a", "b"]));
    assert_eq!(split_lines(""), Vec::<String>::new());
}

#[test]
fn package_lines_drop_empties() {
    assert_eq!(parse_package_lines("htop\n\ncurl\n"), svec(&["htop", "curl"]));
}

#[test]
fn snap_list_skips_header() {
    let out = "Name  Version  Rev\ncore  16-2.58  14784\nfirefox  111  240\n";
    assert_eq!(parse_snap_list(out), svec(&["core", "firefox"]));
    assert_eq!(parse_snap_list(""), Vec::<String>::new());
}

#[test]
fn cargo_names_take_first_token_of_every_line() {
    let out = "ripgrep v13.0.0:\n    rg\n";
    assert_eq!(parse_cargo_package_names(out), svec(&["ripgrep", "rg"]));
}

#[test]
fn apt_map_splits_at_first_space() {
    let map = parse_apt_package_map("htop 3.2.1\ncurl 7.88.1-10\nnospace\n");
    assert_eq!(
        map,
        vec![
            ("htop".to_string(), "3.2.1".to_string()),
            ("curl".to_string(), "7.88.1-10".to_string()),
        ]
    );
}

#[test]
fn cargo_map_strips_colon_and_v() {
    let map = parse_cargo_package_map("ripgrep: v13.0.0\n    rg\nbat v0.23.0:\n");
    assert_eq!(map[0], ("ripgrep".to_string(), "13.0.0".to_string()));
    assert_eq!(map[1], ("bat".to_string(), "0.23.0:".to_string()));
}

#[test]
fn cargo_listing_probe_by_name() {
    let out = "ripgrep v13.0.0:\n    rg\n";
    assert!(cargo_list_contains(out, "ripgrep"));
    assert!(!cargo_list_contains(out, "rg"));
    assert!(!cargo_list_contains(out, "rip"));
}

#[test]
fn apt_version_output_unquoted() {
    assert_eq!(parse_apt_version_output(" '3.2.1' \n"), "3.2.1");
    assert_eq!(parse_apt_version_output("3.2.1"), "3.2.1");
}

#[test]
fn lookup_takes_last_entry_for_repeated_key() {
    let map = vec![
        ("a".to_string(), "1".to_string()),
        ("b".to_string(), "2".to_string()),
        ("a".to_string(), "3".to_string()),
    ];
    assert_eq!(lookup_version(&map, "a"), Some("3".to_string()));
    assert_eq!(lookup_version(&map, "b"), Some("2".to_string()));
    assert_eq!(lookup_version(&map, "c"), None);
}
