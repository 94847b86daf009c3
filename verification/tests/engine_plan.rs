use railtube::config::{Config, DebSection, Section, SystemSection};
use railtube::decision::Action;
use railtube::engine::{
    apply_config, directive_for, execution_strategy, failure_policy, item_outcome, mode_of,
    runs_parallel, section_selected, Backend, Directive, ExecStrategy, ExecutionMode,
    FailurePolicy, ItemOutcome, SystemState,
};

fn svec(items: &[&str]) -> Vec<String> {
    items.iter().map(|s| s.to_string()).collect()
}

fn empty_state() -> SystemState {
    SystemState { apt: vec![], cargo: vec![], snap_present: vec![], flatpak_present: vec![] }
}

fn manifest_with(
    apt: Option<&[&str]>,
    snap: Option<&[&str]>,
    flatpak: Option<&[&str]>,
    cargo: Option<&[&str]>,
) -> Config {
    Config {
        system: None,
        apt: apt.map(|l| Section { list: svec(l) }),
        snap: snap.map(|l| Section { list: svec(l) }),
        flatpak: flatpak.map(|l| Section { list: svec(l) }),
        cargo: cargo.map(|l| Section { list: svec(l) }),
        deb: None,
        scripts: None,
    }
}

#[test]
fn mode_selection() {
    assert_eq!(mode_of(true, true), ExecutionMode::DryRun);
    assert_eq!(mode_of(true, false), ExecutionMode::DryRun);
    assert_eq!(mode_of(false, true), ExecutionMode::Unattended);
    assert_eq!(mode_of(false, false), ExecutionMode::Interactive);
}

#[test]
fn strategy_descriptors() {
    assert_eq!(execution_strategy(Backend::System), ExecStrategy::Sequential);
    assert_eq!(execution_strategy(Backend::Apt), ExecStrategy::Sequential);
    assert_eq!(execution_strategy(Backend::Deb), ExecStrategy::Sequential);
    assert_eq!(execution_strategy(Backend::Snap), ExecStrategy::ParallelWhenUnattended);
    assert_eq!(execution_strategy(Backend::Flatpak), ExecStrategy::ParallelWhenUnattended);
    assert_eq!(execution_strategy(Backend::Cargo), ExecStrategy::ParallelWhenUnattended);
    assert!(runs_parallel(Backend::Snap, ExecutionMode::Unattended));
    assert!(!runs_parallel(Backend::Snap, ExecutionMode::Interactive));
    assert!(!runs_parallel(Backend::Apt, ExecutionMode::Unattended));
}

#[test]
fn failure_policies() {
    assert_eq!(failure_policy(Backend::Apt, ExecutionMode::Unattended), FailurePolicy::AbortBackend);
    assert_eq!(failure_policy(Backend::Deb, ExecutionMode::Interactive), FailurePolicy::AbortBackend);
    assert_eq!(failure_policy(Backend::Cargo, ExecutionMode::Unattended), FailurePolicy::AbortBatch);
    assert_eq!(
        failure_policy(Backend::Flatpak, ExecutionMode::Interactive),
        FailurePolicy::ContinueNext
    );
}

#[test]
fn dry_run_previews_apt_install() {
    let config = manifest_with(Some(&["fake-pkg"]), None, None, None);
    let plan = apply_config(&config, true, false, &None, &empty_state(), "/tmp/scratch");
    assert_eq!(plan.mode, ExecutionMode::DryRun);
    assert_eq!(plan.sections.len(), 1);
    let section = &plan.sections[0];
    assert_eq!(section.backend, Backend::Apt);
    assert_eq!(section.items.len(), 1);
    let item = &section.items[0];
    assert_eq!(item.action, Action::Install);
    assert_eq!(item.commands.len(), 1);
    assert_eq!(item.commands[0].preview(), "Would run: sudo apt install -y fake-pkg");
    assert_eq!(directive_for(plan.mode, item.action), Directive::Preview);
}

#[test]
fn dry_run_issues_no_commands() {
    let config = Config {
        system: Some(SystemSection { update: true }),
        apt: Some(Section { list: svec(&["a", "b=2.0"]) }),
        snap: Some(Section { list: svec(&["c"]) }),
        flatpak: Some(Section { list: svec(&["d"]) }),
        cargo: Some(Section { list: svec(&["e"]) }),
        deb: Some(DebSection { urls: svec(&["http://x/y.deb"]) }),
        scripts: None,
    };
    let plan = apply_config(&config, true, true, &None, &empty_state(), "/tmp/scratch");
    for section in &plan.sections {
        for item in &section.items {
            let d = directive_for(plan.mode, item.action);
            assert!(d == Directive::Notice || d == Directive::Preview);
            let outcome = item_outcome(plan.mode, item.action, true);
            assert!(outcome != ItemOutcome::Executed);
        }
    }
}

#[test]
fn selector_restricts_to_named_sections() {
    let config = manifest_with(Some(&["a"]), None, None, Some(&["b"]));
    let plan = apply_config(
        &config,
        false,
        true,
        &Some(svec(&["apt"])),
        &empty_state(),
        "/tmp/scratch",
    );
    assert_eq!(plan.sections.len(), 1);
    assert_eq!(plan.sections[0].backend, Backend::Apt);
}

#[test]
fn selector_matches_case_insensitively() {
    assert!(section_selected(&Some(svec(&["APT", "Cargo"])), "apt"));
    assert!(section_selected(&Some(svec(&["APT", "Cargo"])), "cargo"));
    assert!(!section_selected(&Some(svec(&["APT"])), "snap"));
    assert!(section_selected(&None, "snap"));
}

#[test]
fn decline_every_confirmation_executes_nothing() {
    let config = manifest_with(Some(&["a"]), Some(&["b"]), None, None);
    let plan = apply_config(&config, false, false, &None, &empty_state(), "/tmp/scratch");
    assert_eq!(plan.mode, ExecutionMode::Interactive);
    let mut mutating = 0;
    for section in &plan.sections {
        for item in &section.items {
            let outcome = item_outcome(plan.mode, item.action, false);
            assert!(outcome != ItemOutcome::Executed);
            if item.action != Action::Skip {
                mutating += 1;
                assert_eq!(outcome, ItemOutcome::Declined);
            }
        }
    }
    assert_eq!(mutating, 2);
}

#[test]
fn apt_version_pin_drives_reinstall() {
    let state = SystemState {
        apt: vec![
            ("pinned".to_string(), "1.0".to_string()),
            ("same".to_string(), "2.0".to_string()),
            ("free".to_string(), "9.9".to_string()),
        ],
        cargo: vec![],
        snap_present: vec![],
        flatpak_present: vec![],
    };
    let config = manifest_with(Some(&["pinned=2.0", "same=2.0", "free", "absent"]), None, None, None);
    let plan = apply_config(&config, false, true, &None, &state, "/tmp/scratch");
    let items = &plan.sections[0].items;
    assert_eq!(items[0].action, Action::Reinstall);
    assert_eq!(
        items[0].notice,
        "APT package 'pinned' installed with version '1.0', but '2.0' is requested. Reinstalling."
    );
    assert_eq!(items[1].action, Action::Skip);
    assert_eq!(
        items[1].notice,
        "APT package 'same' version '2.0' already installed, skipping."
    );
    assert_eq!(items[2].action, Action::Skip);
    assert_eq!(items[2].notice, "APT package 'free' already installed, skipping.");
    assert_eq!(items[3].action, Action::Install);
    assert_eq!(items[3].notice, "APT package 'absent' not installed. Installing.");
    assert_eq!(items[0].commands[0].render(), "sudo apt install -y pinned=2.0");
}

#[test]
fn snap_presence_uses_base_name() {
    let state = SystemState {
        apt: vec![],
        cargo: vec![],
        snap_present: svec(&["code"]),
        flatpak_present: vec![],
    };
    let config = manifest_with(None, Some(&["code --classic", "hx"]), None, None);
    let plan = apply_config(&config, false, true, &None, &state, "/tmp/scratch");
    let items = &plan.sections[0].items;
    assert_eq!(items[0].action, Action::Skip);
    assert_eq!(items[0].notice, "Snap package 'code' already installed, skipping.");
    assert_eq!(items[1].action, Action::Install);
    assert_eq!(items[1].commands[0].render(), "sudo snap install hx");
}

#[test]
fn flatpak_and_cargo_commands() {
    let state = SystemState {
        apt: vec![],
        cargo: vec![("bat".to_string(), "0.23.0".to_string())],
        snap_present: vec![],
        flatpak_present: svec(&["org.gnome.Maps"]),
    };
    let config = manifest_with(
        None,
        None,
        Some(&["org.gnome.Maps", "org.gimp.GIMP"]),
        Some(&["bat", "ripgrep"]),
    );
    let plan = apply_config(&config, false, true, &None, &state, "/tmp/scratch");
    let flatpak = &plan.sections[0];
    assert_eq!(flatpak.backend, Backend::Flatpak);
    assert_eq!(flatpak.items[0].action, Action::Skip);
    assert_eq!(flatpak.items[1].commands[0].render(), "flatpak install -y org.gimp.GIMP");
    let cargo = &plan.sections[1];
    assert_eq!(cargo.backend, Backend::Cargo);
    assert_eq!(cargo.items[0].action, Action::Skip);
    assert_eq!(cargo.items[1].commands[0].render(), "cargo install --locked --force ripgrep");
}

#[test]
fn system_and_deb_sections() {
    let config = Config {
        system: Some(SystemSection { update: true }),
        apt: None,
        snap: None,
        flatpak: None,
        cargo: None,
        deb: Some(DebSection { urls: svec(&["https://example.com/pool/app_1.0.deb"]) }),
        scripts: None,
    };
    let plan = apply_config(&config, false, true, &None, &empty_state(), "/tmp/scratch");
    assert_eq!(plan.sections.len(), 2);
    let system = &plan.sections[0];
    assert_eq!(system.backend, Backend::System);
    assert_eq!(system.items[0].commands[0].render(), "sudo apt update");
    let deb = &plan.sections[1];
    assert_eq!(deb.backend, Backend::Deb);
    let item = &deb.items[0];
    assert_eq!(item.action, Action::Install);
    assert_eq!(item.commands.len(), 2);
    assert_eq!(item.commands[0].render(), "sudo dpkg -i /tmp/scratch/app_1.0.deb");
    assert_eq!(item.commands[1].render(), "sudo apt --fix-broken install -y");
    assert_eq!(item.prompt, "Do you want to install deb package 'https://example.com/pool/app_1.0.deb'?");
}

#[test]
fn system_update_off_plans_nothing() {
    let config = Config {
        system: Some(SystemSection { update: false }),
        apt: None,
        snap: None,
        flatpak: None,
        cargo: None,
        deb: None,
        scripts: None,
    };
    let plan = apply_config(&config, false, true, &None, &empty_state(), "/tmp/scratch");
    assert_eq!(plan.sections.len(), 1);
    assert_eq!(plan.sections[0].items.len(), 0);
}

#[test]
fn directive_table_is_total() {
    for mode in [ExecutionMode::DryRun, ExecutionMode::Interactive, ExecutionMode::Unattended] {
        assert_eq!(directive_for(mode, Action::Skip), Directive::Notice);
    }
    assert_eq!(directive_for(ExecutionMode::DryRun, Action::Install), Directive::Preview);
    assert_eq!(directive_for(ExecutionMode::DryRun, Action::Reinstall), Directive::Preview);
    assert_eq!(
        directive_for(ExecutionMode::Interactive, Action::Install),
        Directive::ConfirmThenRun
    );
    assert_eq!(
        directive_for(ExecutionMode::Interactive, Action::Reinstall),
        Directive::ConfirmThenRun
    );
    assert_eq!(directive_for(ExecutionMode::Unattended, Action::Install), Directive::Run);
    assert_eq!(directive_for(ExecutionMode::Unattended, Action::Reinstall), Directive::Run);
}

#[test]
fn outcome_table() {
    assert_eq!(
        item_outcome(ExecutionMode::DryRun, Action::Install, true),
        ItemOutcome::Previewed
    );
    assert_eq!(
        item_outcome(ExecutionMode::Unattended, Action::Install, false),
        ItemOutcome::Executed
    );
    assert_eq!(
        item_outcome(ExecutionMode::Interactive, Action::Install, true),
        ItemOutcome::Executed
    );
    assert_eq!(
        item_outcome(ExecutionMode::Interactive, Action::Install, false),
        ItemOutcome::Declined
    );
    assert_eq!(item_outcome(ExecutionMode::Unattended, Action::Skip, true), ItemOutcome::Skipped);
}

#[test]
fn sections_come_in_fixed_backend_order() {
    let config = Config {
        system: Some(SystemSection { update: true }),
        apt: Some(Section { list: svec(&["a"]) }),
        snap: Some(Section { list: svec(&["b"]) }),
        flatpak: Some(Section { list: svec(&["c"]) }),
        cargo: Some(Section { list: svec(&["d"]) }),
        deb: Some(DebSection { urls: svec(&["http://x/y.deb"]) }),
        scripts: None,
    };
    let plan = apply_config(&config, true, false, &None, &empty_state(), "/tmp/scratch");
    let backends: Vec<Backend> = plan.sections.iter().map(|s| s.backend).collect();
    assert_eq!(
        backends,
        vec![
            Backend::System,
            Backend::Apt,
            Backend::Snap,
            Backend::Flatpak,
            Backend::Cargo,
            Backend::Deb,
        ]
    );
}
