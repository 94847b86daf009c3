use railtube::config::{Config, ScriptsSection, Section};
use railtube::doctor::{check_package_discrepancies, doctor_command, DoctorState};
use railtube::errors::{AppError, CommandError};
use railtube::export::export_current_environment;
use railtube::scripts::{run_scripts, script_should_run, source_is_remote};

fn svec(items: &[&str]) -> Vec<String> {
    items.iter().map(|s| s.to_string()).collect()
}

#[test]
fn diff_reports_missing_and_extra() {
    let declared = svec(&["a", "b", "c"]);
    let installed = svec(&["b", "c", "d"]);
    let diff = check_package_discrepancies("APT", &declared, &installed);
    assert_eq!(diff.label, "APT");
    assert_eq!(diff.missing, svec(&["a"]));
    assert_eq!(diff.extra, svec(&["d"]));
}

#[test]
fn diff_of_equal_sets_is_empty() {
    let declared = svec(&["x", "y"]);
    let installed = svec(&["y", "x"]);
    let diff = check_package_discrepancies("Cargo", &declared, &installed);
    assert!(diff.missing.is_empty());
    assert!(diff.extra.is_empty());
}

#[test]
fn diff_drops_duplicates() {
    let declared = svec(&["a", "a", "b"]);
    let installed = svec(&["c", "c"]);
    let diff = check_package_discrepancies("Snap", &declared, &installed);
    assert_eq!(diff.missing, svec(&["a", "b"]));
    assert_eq!(diff.extra, svec(&["c"]));
}

#[test]
fn doctor_strips_version_pins_for_apt() {
    let config = Config {
        system: None,
        apt: Some(Section { list: svec(&["htop=3.2.1", "curl"]) }),
        snap: None,
        flatpak: None,
        cargo: None,
        deb: None,
        scripts: None,
    };
    let state = DoctorState {
        apt: Some(svec(&["htop", "wget"])),
        snap: None,
        flatpak: None,
        cargo: None,
    };
    let report = doctor_command(&config, &state);
    assert_eq!(report.entries.len(), 1);
    let entry = &report.entries[0];
    assert_eq!(entry.label, "APT");
    assert_eq!(entry.missing, svec(&["curl"]));
    assert_eq!(entry.extra, svec(&["wget"]));
}

#[test]
fn doctor_skips_backends_without_listing() {
    let config = Config {
        system: None,
        apt: Some(Section { list: svec(&["a"]) }),
        snap: Some(Section { list: svec(&["b"]) }),
        flatpak: None,
        cargo: None,
        deb: None,
        scripts: None,
    };
    let state = DoctorState { apt: None, snap: Some(svec(&["b"])), flatpak: None, cargo: None };
    let report = doctor_command(&config, &state);
    assert_eq!(report.entries.len(), 1);
    assert_eq!(report.entries[0].label, "Snap");
}

#[test]
fn export_then_doctor_reports_no_drift() {
    let apt = svec(&["htop", "curl"]);
    let snap = svec(&["core", "firefox"]);
    let flatpak = svec(&["org.gnome.Maps"]);
    let cargo = svec(&["ripgrep"]);
    let exported =
        export_current_environment(apt.clone(), snap.clone(), flatpak.clone(), cargo.clone());
    let state = DoctorState {
        apt: Some(apt),
        snap: Some(snap),
        flatpak: Some(flatpak),
        cargo: Some(cargo),
    };
    let report = doctor_command(&exported, &state);
    assert_eq!(report.entries.len(), 4);
    for entry in &report.entries {
        assert!(entry.missing.is_empty(), "missing not empty for {}", entry.label);
        assert!(entry.extra.is_empty(), "extra not empty for {}", entry.label);
    }
}

#[test]
fn export_shape() {
    let exported = export_current_environment(svec(&["a"]), svec(&[]), svec(&[]), svec(&["b"]));
    assert!(exported.system.is_none());
    assert_eq!(exported.apt.as_ref().unwrap().list, svec(&["a"]));
    assert_eq!(exported.cargo.as_ref().unwrap().list, svec(&["b"]));
    assert!(exported.deb.is_none());
    assert!(exported.scripts.is_none());
}

fn config_with_scripts(pairs: &[(&str, &str)]) -> Config {
    Config {
        system: None,
        apt: None,
        snap: None,
        flatpak: None,
        cargo: None,
        deb: None,
        scripts: Some(ScriptsSection {
            commands: pairs.iter().map(|(k, v)| (k.to_string(), v.to_string())).collect(),
        }),
    }
}

#[test]
fn run_scripts_resolves_command() {
    let config = config_with_scripts(&[("hello", "echo hi")]);
    let run = run_scripts(&config, "hello", false).unwrap();
    assert_eq!(run.name, "hello");
    assert_eq!(run.command_text, "echo hi");
    assert!(!run.needs_confirmation);
    assert_eq!(run.command.render(), "sh -c echo hi");
}

#[test]
fn run_scripts_confirms_remote_source() {
    let config = config_with_scripts(&[("hello", "echo hi")]);
    let run = run_scripts(&config, "hello", true).unwrap();
    assert!(run.needs_confirmation);
    assert!(!script_should_run(run.needs_confirmation, false));
    assert!(script_should_run(run.needs_confirmation, true));
    assert!(script_should_run(false, false));
}

#[test]
fn run_scripts_unknown_name_fails() {
    let config = config_with_scripts(&[("hello", "echo hi")]);
    match run_scripts(&config, "missing", false) {
        Err(AppError::UnknownScript(m)) => assert_eq!(m, "Script 'missing' not found."),
        _ => panic!("expected an unknown-script error"),
    }
}

#[test]
fn run_scripts_without_section_fails() {
    let config = Config {
        system: None,
        apt: None,
        snap: None,
        flatpak: None,
        cargo: None,
        deb: None,
        scripts: None,
    };
    match run_scripts(&config, "any", false) {
        Err(AppError::Other(m)) => assert_eq!(m, "No [scripts] section found."),
        _ => panic!("expected a missing-section error"),
    }
}

#[test]
fn remote_source_detection() {
    assert!(source_is_remote("http://example.com/env.toml"));
    assert!(source_is_remote("https://example.com/env.toml"));
    assert!(!source_is_remote("/home/user/env.toml"));
    assert!(!source_is_remote("httpx://nope"));
}

#[test]
fn command_error_message_renders_all_parts() {
    let err = CommandError {
        command: "sudo".to_string(),
        args: svec(&["apt", "update"]),
        exit_code: Some(100),
        stdout: "partial".to_string(),
        stderr: "lock held".to_string(),
    };
    let expected = "Command failed: sudo apt update\nExit code: 100\nStdout: partial\nStderr: lock held\n";
    assert_eq!(err.message(), expected);
}

#[test]
fn command_error_message_omits_empty_parts() {
    let err = CommandError {
        command: "sh".to_string(),
        args: svec(&["-c", "true"]),
        exit_code: None,
        stdout: String::new(),
        stderr: String::new(),
    };
    assert_eq!(err.message(), "Command failed: sh -c true\n");
}

#[test]
fn app_error_messages() {
    assert_eq!(AppError::Io("gone".to_string()).message(), "IO Error: gone");
    assert_eq!(AppError::Fetch("404".to_string()).message(), "Fetch Error: 404");
    assert_eq!(
        AppError::TomlDe("bad key".to_string()).message(),
        "TOML Deserialization Error: bad key"
    );
    assert_eq!(AppError::Other("misc".to_string()).message(), "Other Error: misc");
    assert_eq!(
        AppError::UnknownScript("Script 'x' not found.".to_string()).message(),
        "Unknown Script Error: Script 'x' not found."
    );
    let inner = CommandError {
        command: "x".to_string(),
        args: vec![],
        exit_code: None,
        stdout: String::new(),
        stderr: String::new(),
    };
    assert_eq!(
        AppError::Command(inner).message(),
        "Command Error: Command failed: x \n"
    );
}

#[test]
fn doctor_strips_version_pins_for_cargo() {
    let config = Config {
        system: None,
        apt: None,
        snap: None,
        flatpak: None,
        cargo: Some(Section { list: svec(&["ripgrep=13.0.0"]) }),
        deb: None,
        scripts: None,
    };
    let state = DoctorState {
        apt: None,
        snap: None,
        flatpak: None,
        cargo: Some(svec(&["ripgrep"])),
    };
    let report = doctor_command(&config, &state);
    assert_eq!(report.entries.len(), 1);
    assert!(report.entries[0].missing.is_empty());
    assert!(report.entries[0].extra.is_empty());
}

#[test]
fn doctor_snap_uses_base_names() {
    let config = Config {
        system: None,
        apt: None,
        snap: Some(Section { list: svec(&["code --classic"]) }),
        flatpak: None,
        cargo: None,
        deb: None,
        scripts: None,
    };
    let state = DoctorState {
        apt: None,
        snap: Some(svec(&["code"])),
        flatpak: None,
        cargo: None,
    };
    let report = doctor_command(&config, &state);
    assert!(report.entries[0].missing.is_empty());
    assert!(report.entries[0].extra.is_empty());
}
