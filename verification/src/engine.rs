//! The reconciliation engine: from the manifest, the section selector,
//! the interaction mode and the queried installed state, compute the
//! complete plan of a run — per backend, per declared item, the action,
//! the notice to print, the confirmation prompt and the exact commands —
//! together with the per-backend execution-strategy and failure-policy
//! descriptors the surrounding binary consults when it carries the plan
//! out.

use vstd::prelude::*;
use crate::command::{
    apt_install_command, cargo_install_command, deb_install_command, fix_broken_command,
    flatpak_install_command, scratch_path, snap_install_command, spec_apt_install_command,
    spec_cargo_install_command, spec_deb_install_command, spec_fix_broken_command,
    spec_flatpak_install_command, spec_scratch_path, spec_snap_install_command,
    spec_system_update_command, system_update_command, CommandLine, CommandModel,
};
use crate::config::Config;
use crate::decision::{action_for, decide_action, opt_ref_view, opt_view, Action};
use crate::listing::lookup_version;
use crate::text::{
    base_name, contains_str, eq_ignore_ascii_case, lower_seq, spec_assoc, spec_base_name,
    spec_name_of, spec_version_of, split_package_spec, str_eq,
};

verus! {

/// The interaction mode of a run.  Exactly one is active per
/// invocation.
#[derive(Clone, Copy, Debug, PartialEq, Eq, Structural)]
pub enum ExecutionMode {
    /// Compute and report the plan; execute nothing.
    DryRun,
    /// One blocking confirmation per mutating action.
    Interactive,
    /// No confirmations.
    Unattended,
}

/// The mode selected by the two command-line switches; a requested dry
/// run wins over a skip-confirmations request.
pub open spec fn spec_mode_of(dry_run: bool, yes: bool) -> ExecutionMode {
    if dry_run {
        ExecutionMode::DryRun
    } else if yes {
        ExecutionMode::Unattended
    } else {
        ExecutionMode::Interactive
    }
}

/// Maps the two command-line switches to the active mode.
pub fn mode_of(dry_run: bool, yes: bool) -> (r: ExecutionMode)
    ensures
        r == spec_mode_of(dry_run, yes),
{
    if dry_run {
        ExecutionMode::DryRun
    } else if yes {
        ExecutionMode::Unattended
    } else {
        ExecutionMode::Interactive
    }
}

/// One package-management backend.
#[derive(Clone, Copy, Debug, PartialEq, Eq, Structural)]
pub enum Backend {
    System,
    Apt,
    Snap,
    Flatpak,
    Cargo,
    Deb,
}

/// The name under which a backend's section is selected.
pub open spec fn spec_backend_label(b: Backend) -> Seq<char> {
    match b {
        Backend::System => "system"@,
        Backend::Apt => "apt"@,
        Backend::Snap => "snap"@,
        Backend::Flatpak => "flatpak"@,
        Backend::Cargo => "cargo"@,
        Backend::Deb => "deb"@,
    }
}

/// The view of an optional selector list.
pub open spec fn opt_vec_view(o: Option<Vec<String>>) -> Option<Seq<Seq<char>>> {
    match o {
        Option::None => Option::None,
        Option::Some(v) => Option::Some(v.deep_view()),
    }
}

/// Whether one of the selector's names is `name`, compared without
/// regard to ASCII case.
pub open spec fn spec_name_selected(sel: Seq<Seq<char>>, name: Seq<char>) -> bool
    decreases sel.len(),
{
    if sel.len() == 0 {
        false
    } else {
        lower_seq(sel.last()) == lower_seq(name) || spec_name_selected(sel.drop_last(), name)
    }
}

/// Whether a section name is selected: every section is when no
/// selector was given, and otherwise exactly the named ones, compared
/// without regard to ASCII case.
pub open spec fn spec_selected(only: Option<Seq<Seq<char>>>, name: Seq<char>) -> bool {
    match only {
        Option::None => true,
        Option::Some(sel) => spec_name_selected(sel, name),
    }
}

/// Decides whether a section is processed under the given selector.
pub fn section_selected(only: &Option<Vec<String>>, name: &str) -> (r: bool)
    ensures
        r == spec_selected(opt_vec_view(*only), name@),
{
    match only {
        None => true,
        Some(sel) => {
            let ghost dv = sel.deep_view();
            let mut found = false;
            let mut i: usize = 0;
            while i < sel.len()
                invariant
                    dv == sel.deep_view(),
                    i <= sel.len(),
                    found == spec_name_selected(dv.take(i as int), name@),
                decreases sel.len() - i,
            {
                if eq_ignore_ascii_case(sel[i].as_str(), name) {
                    found = true;
                }
                proof {
                    assert(dv.take(i + 1).drop_last() =~= dv.take(i as int));
                    assert(dv.take(i + 1).last() == dv[i as int]);
                }
                i += 1;
            }
            proof {
                assert(dv.take(sel.len() as int) =~= dv);
            }
            found
        },
    }
}

/// How a backend's items are executed: the two strategies of the fixed
/// per-backend descriptor.
#[derive(Clone, Copy, Debug, PartialEq, Eq, Structural)]
pub enum ExecStrategy {
    /// Items run strictly in manifest order, one at a time.
    Sequential,
    /// Items may run concurrently, but only in the unattended mode.
    ParallelWhenUnattended,
}

/// The fixed per-backend strategy: the backends that take elevated
/// privilege or contend on a system lock (and the inherently
/// sequential archive path) are sequential; the rest may parallelise
/// when unattended.
pub open spec fn spec_execution_strategy(b: Backend) -> ExecStrategy {
    match b {
        Backend::System => ExecStrategy::Sequential,
        Backend::Apt => ExecStrategy::Sequential,
        Backend::Deb => ExecStrategy::Sequential,
        Backend::Snap => ExecStrategy::ParallelWhenUnattended,
        Backend::Flatpak => ExecStrategy::ParallelWhenUnattended,
        Backend::Cargo => ExecStrategy::ParallelWhenUnattended,
    }
}

/// Reads a backend's execution-strategy descriptor.
pub fn execution_strategy(b: Backend) -> (r: ExecStrategy)
    ensures
        r == spec_execution_strategy(b),
{
    match b {
        Backend::System => ExecStrategy::Sequential,
        Backend::Apt => ExecStrategy::Sequential,
        Backend::Deb => ExecStrategy::Sequential,
        Backend::Snap => ExecStrategy::ParallelWhenUnattended,
        Backend::Flatpak => ExecStrategy::ParallelWhenUnattended,
        Backend::Cargo => ExecStrategy::ParallelWhenUnattended,
    }
}

/// Whether a backend's items are dispatched concurrently under the
/// given mode: only a parallel-capable backend, and only unattended —
/// interactive runs are forced sequential because every mutating
/// action blocks on a confirmation, and a dry run has nothing to
/// dispatch.
pub fn runs_parallel(b: Backend, mode: ExecutionMode) -> (r: bool)
    ensures
        r == (spec_execution_strategy(b) == ExecStrategy::ParallelWhenUnattended && mode
            == ExecutionMode::Unattended),
{
    let strategy = execution_strategy(b);
    strategy == ExecStrategy::ParallelWhenUnattended && mode == ExecutionMode::Unattended
}

/// What a failed action means for the rest of its backend's work.
#[derive(Clone, Copy, Debug, PartialEq, Eq, Structural)]
pub enum FailurePolicy {
    /// Abandon the backend's remaining items: continuing after an
    /// unknown system or lock state is unsafe.
    AbortBackend,
    /// Withhold the next dispatch of the parallel batch; items already
    /// started run to completion.
    AbortBatch,
    /// Report and continue with the next item.
    ContinueNext,
}

/// The failure policy per backend and mode: sequential backends fail
/// fast; parallel-capable backends abort the batch when unattended and
/// continue past failures when a human decision stands before each item.
pub open spec fn spec_failure_policy(b: Backend, mode: ExecutionMode) -> FailurePolicy {
    if spec_execution_strategy(b) == ExecStrategy::Sequential {
        FailurePolicy::AbortBackend
    } else if mode == ExecutionMode::Unattended {
        FailurePolicy::AbortBatch
    } else {
        FailurePolicy::ContinueNext
    }
}

/// Reads the failure policy for a backend under the given mode.
pub fn failure_policy(b: Backend, mode: ExecutionMode) -> (r: FailurePolicy)
    ensures
        r == spec_failure_policy(b, mode),
{
    let strategy = execution_strategy(b);
    if strategy == ExecStrategy::Sequential {
        FailurePolicy::AbortBackend
    } else if mode == ExecutionMode::Unattended {
        FailurePolicy::AbortBatch
    } else {
        FailurePolicy::ContinueNext
    }
}

/// The notice accompanying a per-item decision, worded by case: skip
/// for an already-installed package (with the version when one was
/// compared), the reinstall transition when the pin differs, and the
/// install announcement otherwise.
pub open spec fn spec_decision_notice(
    kind: Seq<char>,
    name: Seq<char>,
    desired: Option<Seq<char>>,
    installed: Option<Seq<char>>,
) -> Seq<char> {
    match installed {
        Option::Some(iv) => match desired {
            Option::Some(dv) => if iv == dv {
                kind + " package '"@ + name + "' version '"@ + iv
                    + "' already installed, skipping."@
            } else {
                kind + " package '"@ + name + "' installed with version '"@ + iv + "', but '"@
                    + dv + "' is requested. Reinstalling."@
            },
            Option::None => kind + " package '"@ + name + "' already installed, skipping."@,
        },
        Option::None => match desired {
            Option::Some(dv) => kind + " package '"@ + name + "' version '"@ + dv
                + "' not installed. Installing."@,
            Option::None => kind + " package '"@ + name + "' not installed. Installing."@,
        },
    }
}

/// Builds the notice accompanying a per-item decision.
pub fn decision_notice(
    kind: &str,
    name: &str,
    desired: &Option<String>,
    installed: Option<&String>,
) -> (r: String)
    ensures
        r@ == spec_decision_notice(kind@, name@, opt_view(*desired), opt_ref_view(installed)),
{
    let mut r = String::from_str(kind);
    match installed {
        Some(iv) => match desired {
            Some(dv) => {
                if str_eq(iv.as_str(), dv.as_str()) {
                    r.append(" package '");
                    r.append(name);
                    r.append("' version '");
                    r.append(iv.as_str());
                    r.append("' already installed, skipping.");
                } else {
                    r.append(" package '");
                    r.append(name);
                    r.append("' installed with version '");
                    r.append(iv.as_str());
                    r.append("', but '");
                    r.append(dv.as_str());
                    r.append("' is requested. Reinstalling.");
                }
            },
            None => {
                r.append(" package '");
                r.append(name);
                r.append("' already installed, skipping.");
            },
        },
        None => match desired {
            Some(dv) => {
                r.append(" package '");
                r.append(name);
                r.append("' version '");
                r.append(dv.as_str());
                r.append("' not installed. Installing.");
            },
            None => {
                r.append(" package '");
                r.append(name);
                r.append("' not installed. Installing.");
            },
        },
    }
    r
}

/// The confirmation prompt for one APT spec.
pub open spec fn spec_plain_prompt(spec_str: Seq<char>) -> Seq<char> {
    "Do you want to install '"@ + spec_str + "'?"@
}

/// The confirmation prompt for one item of a named backend.
pub open spec fn spec_kind_prompt(kind: Seq<char>, spec_str: Seq<char>) -> Seq<char> {
    "Do you want to install "@ + kind + " package '"@ + spec_str + "'?"@
}

/// Builds the APT confirmation prompt.
fn plain_prompt(spec_str: &str) -> (r: String)
    ensures
        r@ == spec_plain_prompt(spec_str@),
{
    let mut r = String::from_str("Do you want to install '");
    r.append(spec_str);
    r.append("'?");
    r
}

/// Builds the confirmation prompt of a named backend.
fn kind_prompt(kind: &str, spec_str: &str) -> (r: String)
    ensures
        r@ == spec_kind_prompt(kind@, spec_str@),
{
    let mut r = String::from_str("Do you want to install ");
    r.append(kind);
    r.append(" package '");
    r.append(spec_str);
    r.append("'?");
    r
}

/// The mathematical model of one planned item.
#[verifier::ext_equal]
pub struct ItemModel {
    pub backend: Backend,
    pub spec_str: Seq<char>,
    pub action: Action,
    pub notice: Seq<char>,
    pub prompt: Seq<char>,
    pub commands: Seq<CommandModel>,
}

/// One planned item: the declared spec, the decided action, the notice
/// and prompt texts, and the commands that realise the action (none
/// for a skip).
pub struct ItemPlan {
    pub backend: Backend,
    pub spec_str: String,
    pub action: Action,
    pub notice: String,
    pub prompt: String,
    pub commands: Vec<CommandLine>,
}

impl View for ItemPlan {
    type V = ItemModel;

    open spec fn view(&self) -> ItemModel {
        ItemModel {
            backend: self.backend,
            spec_str: self.spec_str@,
            action: self.action,
            notice: self.notice@,
            prompt: self.prompt@,
            commands: self.commands@.map_values(|c: CommandLine| c@),
        }
    }
}

/// The planned item for the system-update request.
pub open spec fn spec_system_item() -> ItemModel {
    ItemModel {
        backend: Backend::System,
        spec_str: "update"@,
        action: Action::Install,
        notice: Seq::empty(),
        prompt: "Do you want to run the system update?"@,
        commands: seq![spec_system_update_command()],
    }
}

/// The planned item for one APT spec against the installed map.
pub open spec fn spec_apt_item(spec_str: Seq<char>, apt: Seq<(Seq<char>, Seq<char>)>) -> ItemModel {
    let name = spec_name_of(spec_str);
    let desired = spec_version_of(spec_str);
    let installed = spec_assoc(apt, name);
    let action = action_for(desired, installed);
    ItemModel {
        backend: Backend::Apt,
        spec_str: spec_str,
        action: action,
        notice: spec_decision_notice("APT"@, name, desired, installed),
        prompt: spec_plain_prompt(spec_str),
        commands: if action is Skip {
            Seq::empty()
        } else {
            seq![spec_apt_install_command(spec_str)]
        },
    }
}

/// The planned item for one Cargo spec against the installed map.
pub open spec fn spec_cargo_item(
    spec_str: Seq<char>,
    cargo: Seq<(Seq<char>, Seq<char>)>,
) -> ItemModel {
    let name = spec_name_of(spec_str);
    let desired = spec_version_of(spec_str);
    let installed = spec_assoc(cargo, name);
    let action = action_for(desired, installed);
    ItemModel {
        backend: Backend::Cargo,
        spec_str: spec_str,
        action: action,
        notice: spec_decision_notice("Cargo"@, name, desired, installed),
        prompt: spec_kind_prompt("cargo"@, spec_str),
        commands: if action is Skip {
            Seq::empty()
        } else {
            seq![spec_cargo_install_command(spec_str)]
        },
    }
}

/// The planned item for one Snap spec against the presence probes:
/// presence alone drives the decision, looked up by the spec's first
/// whitespace token.
pub open spec fn spec_snap_item(spec_str: Seq<char>, present: Seq<Seq<char>>) -> ItemModel {
    let name = spec_base_name(spec_str);
    let installed = if present.contains(name) {
        Option::Some(name)
    } else {
        Option::<Seq<char>>::None
    };
    let action = action_for(Option::None, installed);
    ItemModel {
        backend: Backend::Snap,
        spec_str: spec_str,
        action: action,
        notice: spec_decision_notice("Snap"@, name, Option::None, installed),
        prompt: spec_kind_prompt("snap"@, spec_str),
        commands: if action is Skip {
            Seq::empty()
        } else {
            seq![spec_snap_install_command(spec_str)]
        },
    }
}

/// The planned item for one Flatpak name against the presence probes.
pub open spec fn spec_flatpak_item(spec_str: Seq<char>, present: Seq<Seq<char>>) -> ItemModel {
    let installed = if present.contains(spec_str) {
        Option::Some(spec_str)
    } else {
        Option::<Seq<char>>::None
    };
    let action = action_for(Option::None, installed);
    ItemModel {
        backend: Backend::Flatpak,
        spec_str: spec_str,
        action: action,
        notice: spec_decision_notice("Flatpak"@, spec_str, Option::None, installed),
        prompt: spec_kind_prompt("flatpak"@, spec_str),
        commands: if action is Skip {
            Seq::empty()
        } else {
            seq![spec_flatpak_install_command(spec_str)]
        },
    }
}

/// The planned item for one archive URL: no pre-check at all — the
/// archive is downloaded to its scratch path, installed, and the
/// broken-dependency repair is run after it.
pub open spec fn spec_deb_item(url: Seq<char>, scratch_dir: Seq<char>) -> ItemModel {
    let path = spec_scratch_path(scratch_dir, url);
    ItemModel {
        backend: Backend::Deb,
        spec_str: url,
        action: Action::Install,
        notice: Seq::empty(),
        prompt: spec_kind_prompt("deb"@, url),
        commands: seq![spec_deb_install_command(path), spec_fix_broken_command()],
    }
}

/// Builds the system-update item.
fn system_item() -> (r: ItemPlan)
    ensures
        r@ == spec_system_item(),
{
    let mut commands: Vec<CommandLine> = Vec::new();
    commands.push(system_update_command());
    let r = ItemPlan {
        backend: Backend::System,
        spec_str: String::from_str("update"),
        action: Action::Install,
        notice: String::new(),
        prompt: String::from_str("Do you want to run the system update?"),
        commands,
    };
    proof {
        assert(r@.commands =~= seq![spec_system_update_command()]);
        assert(r@ =~= spec_system_item());
    }
    r
}

/// Builds the item for one APT spec.
fn apt_item(spec_str: &str, apt: &Vec<(String, String)>) -> (r: ItemPlan)
    ensures
        r@ == spec_apt_item(spec_str@, apt.deep_view()),
{
    let (name, desired) = split_package_spec(spec_str);
    let installed = lookup_version(apt, name.as_str());
    let action = decide_action(&desired, installed.as_ref());
    let notice = decision_notice("APT", name.as_str(), &desired, installed.as_ref());
    let mut commands: Vec<CommandLine> = Vec::new();
    if !matches!(action, Action::Skip) {
        commands.push(apt_install_command(spec_str));
    }
    let r = ItemPlan {
        backend: Backend::Apt,
        spec_str: String::from_str(spec_str),
        action,
        notice,
        prompt: plain_prompt(spec_str),
        commands,
    };
    proof {
        if action is Skip {
            assert(r@.commands =~= Seq::<CommandModel>::empty());
        } else {
            assert(r@.commands =~= seq![spec_apt_install_command(spec_str@)]);
        }
        assert(r@ =~= spec_apt_item(spec_str@, apt.deep_view()));
    }
    r
}

/// Builds the item for one Cargo spec.
fn cargo_item(spec_str: &str, cargo: &Vec<(String, String)>) -> (r: ItemPlan)
    ensures
        r@ == spec_cargo_item(spec_str@, cargo.deep_view()),
{
    let (name, desired) = split_package_spec(spec_str);
    let installed = lookup_version(cargo, name.as_str());
    let action = decide_action(&desired, installed.as_ref());
    let notice = decision_notice("Cargo", name.as_str(), &desired, installed.as_ref());
    let mut commands: Vec<CommandLine> = Vec::new();
    if !matches!(action, Action::Skip) {
        commands.push(cargo_install_command(spec_str));
    }
    let r = ItemPlan {
        backend: Backend::Cargo,
        spec_str: String::from_str(spec_str),
        action,
        notice,
        prompt: kind_prompt("cargo", spec_str),
        commands,
    };
    proof {
        if action is Skip {
            assert(r@.commands =~= Seq::<CommandModel>::empty());
        } else {
            assert(r@.commands =~= seq![spec_cargo_install_command(spec_str@)]);
        }
        assert(r@ =~= spec_cargo_item(spec_str@, cargo.deep_view()));
    }
    r
}

/// Builds the item for one Snap spec.
fn snap_item(spec_str: &str, present: &Vec<String>) -> (r: ItemPlan)
    ensures
        r@ == spec_snap_item(spec_str@, present.deep_view()),
{
    let name = base_name(spec_str);
    let is_present = contains_str(present, name.as_str());
    let installed: Option<String> = if is_present {
        Some(name.clone())
    } else {
        None
    };
    let action = decide_action(&None, installed.as_ref());
    let notice = decision_notice("Snap", name.as_str(), &None, installed.as_ref());
    let mut commands: Vec<CommandLine> = Vec::new();
    if !matches!(action, Action::Skip) {
        commands.push(snap_install_command(spec_str));
    }
    let r = ItemPlan {
        backend: Backend::Snap,
        spec_str: String::from_str(spec_str),
        action,
        notice,
        prompt: kind_prompt("snap", spec_str),
        commands,
    };
    proof {
        if action is Skip {
            assert(r@.commands =~= Seq::<CommandModel>::empty());
        } else {
            assert(r@.commands =~= seq![spec_snap_install_command(spec_str@)]);
        }
        assert(r@ =~= spec_snap_item(spec_str@, present.deep_view()));
    }
    r
}

/// Builds the item for one Flatpak name.
fn flatpak_item(spec_str: &str, present: &Vec<String>) -> (r: ItemPlan)
    ensures
        r@ == spec_flatpak_item(spec_str@, present.deep_view()),
{
    let is_present = contains_str(present, spec_str);
    let installed: Option<String> = if is_present {
        Some(String::from_str(spec_str))
    } else {
        None
    };
    let action = decide_action(&None, installed.as_ref());
    let notice = decision_notice("Flatpak", spec_str, &None, installed.as_ref());
    let mut commands: Vec<CommandLine> = Vec::new();
    if !matches!(action, Action::Skip) {
        commands.push(flatpak_install_command(spec_str));
    }
    let r = ItemPlan {
        backend: Backend::Flatpak,
        spec_str: String::from_str(spec_str),
        action,
        notice,
        prompt: kind_prompt("flatpak", spec_str),
        commands,
    };
    proof {
        if action is Skip {
            assert(r@.commands =~= Seq::<CommandModel>::empty());
        } else {
            assert(r@.commands =~= seq![spec_flatpak_install_command(spec_str@)]);
        }
        assert(r@ =~= spec_flatpak_item(spec_str@, present.deep_view()));
    }
    r
}

/// Builds the item for one archive URL.
fn deb_item(url: &str, scratch_dir: &str) -> (r: ItemPlan)
    ensures
        r@ == spec_deb_item(url@, scratch_dir@),
{
    let path = scratch_path(scratch_dir, url);
    let mut commands: Vec<CommandLine> = Vec::new();
    commands.push(deb_install_command(path.as_str()));
    commands.push(fix_broken_command());
    let r = ItemPlan {
        backend: Backend::Deb,
        spec_str: String::from_str(url),
        action: Action::Install,
        notice: String::new(),
        prompt: kind_prompt("deb", url),
        commands,
    };
    proof {
        assert(r@.commands =~= seq![
            spec_deb_install_command(spec_scratch_path(scratch_dir@, url@)),
            spec_fix_broken_command(),
        ]);
        assert(r@ =~= spec_deb_item(url@, scratch_dir@));
    }
    r
}


/// The mathematical model of the queried installed state.
#[verifier::ext_equal]
pub struct StateModel {
    pub apt: Seq<(Seq<char>, Seq<char>)>,
    pub cargo: Seq<(Seq<char>, Seq<char>)>,
    pub snap_present: Seq<Seq<char>>,
    pub flatpak_present: Seq<Seq<char>>,
}

/// The installed state the plan is computed against: the bulk
/// name-to-version maps of the version-aware backends, and the names
/// whose presence probes answered yes for the presence-only backends.
/// A failed query degrades to an empty map or an absent name: the
/// engine then plans an install, favouring convergence.
pub struct SystemState {
    pub apt: Vec<(String, String)>,
    pub cargo: Vec<(String, String)>,
    pub snap_present: Vec<String>,
    pub flatpak_present: Vec<String>,
}

impl View for SystemState {
    type V = StateModel;

    open spec fn view(&self) -> StateModel {
        StateModel {
            apt: self.apt.deep_view(),
            cargo: self.cargo.deep_view(),
            snap_present: self.snap_present.deep_view(),
            flatpak_present: self.flatpak_present.deep_view(),
        }
    }
}

/// The mathematical model of one section's plan.
#[verifier::ext_equal]
pub struct SectionModel {
    pub backend: Backend,
    pub items: Seq<ItemModel>,
}

/// One selected, present section's planned items, in manifest order.
pub struct SectionPlan {
    pub backend: Backend,
    pub items: Vec<ItemPlan>,
}

impl View for SectionPlan {
    type V = SectionModel;

    open spec fn view(&self) -> SectionModel {
        SectionModel {
            backend: self.backend,
            items: self.items@.map_values(|it: ItemPlan| it@),
        }
    }
}

/// The mathematical model of a whole run's plan.
#[verifier::ext_equal]
pub struct PlanModel {
    pub mode: ExecutionMode,
    pub sections: Seq<SectionModel>,
}

/// The complete plan of one run: the active mode and the planned
/// sections, in the fixed backend order.
pub struct RunPlan {
    pub mode: ExecutionMode,
    pub sections: Vec<SectionPlan>,
}

impl View for RunPlan {
    type V = PlanModel;

    open spec fn view(&self) -> PlanModel {
        PlanModel {
            mode: self.mode,
            sections: self.sections@.map_values(|s: SectionPlan| s@),
        }
    }
}

/// The planned items of an APT section.
pub open spec fn spec_apt_items(
    list: Seq<Seq<char>>,
    apt: Seq<(Seq<char>, Seq<char>)>,
) -> Seq<ItemModel> {
    list.map_values(|s: Seq<char>| spec_apt_item(s, apt))
}

/// The planned items of a Cargo section.
pub open spec fn spec_cargo_items(
    list: Seq<Seq<char>>,
    cargo: Seq<(Seq<char>, Seq<char>)>,
) -> Seq<ItemModel> {
    list.map_values(|s: Seq<char>| spec_cargo_item(s, cargo))
}

/// The planned items of a Snap section.
pub open spec fn spec_snap_items(list: Seq<Seq<char>>, present: Seq<Seq<char>>) -> Seq<ItemModel> {
    list.map_values(|s: Seq<char>| spec_snap_item(s, present))
}

/// The planned items of a Flatpak section.
pub open spec fn spec_flatpak_items(
    list: Seq<Seq<char>>,
    present: Seq<Seq<char>>,
) -> Seq<ItemModel> {
    list.map_values(|s: Seq<char>| spec_flatpak_item(s, present))
}

/// The planned items of the archive section.
pub open spec fn spec_deb_items(urls: Seq<Seq<char>>, scratch: Seq<char>) -> Seq<ItemModel> {
    urls.map_values(|u: Seq<char>| spec_deb_item(u, scratch))
}

/// Builds the items of an APT section.
fn apt_items(list: &Vec<String>, apt: &Vec<(String, String)>) -> (r: Vec<ItemPlan>)
    ensures
        r@.map_values(|it: ItemPlan| it@) == spec_apt_items(list.deep_view(), apt.deep_view()),
{
    let ghost dv = list.deep_view();
    let ghost m = apt.deep_view();
    let ghost f = |s: Seq<char>| spec_apt_item(s, m);
    let mut r: Vec<ItemPlan> = Vec::new();
    proof {
        assert(r@.map_values(|it: ItemPlan| it@) =~= dv.take(0).map_values(f));
    }
    let mut i: usize = 0;
    while i < list.len()
        invariant
            dv == list.deep_view(),
            m == apt.deep_view(),
            f == (|s: Seq<char>| spec_apt_item(s, m)),
            i <= list.len(),
            r@.map_values(|it: ItemPlan| it@) == dv.take(i as int).map_values(f),
        decreases list.len() - i,
    {
        let ghost prev = r@.map_values(|it: ItemPlan| it@);
        let item = apt_item(list[i].as_str(), apt);
        r.push(item);
        proof {
            assert(r@.map_values(|it: ItemPlan| it@) =~= prev.push(f(dv[i as int])));
            assert(dv.take(i + 1).map_values(f) =~= dv.take(i as int).map_values(f).push(
                f(dv[i as int]),
            ));
        }
        i += 1;
    }
    proof {
        assert(dv.take(list.len() as int) =~= dv);
    }
    r
}

/// Builds the items of a Cargo section.
fn cargo_items(list: &Vec<String>, cargo: &Vec<(String, String)>) -> (r: Vec<ItemPlan>)
    ensures
        r@.map_values(|it: ItemPlan| it@) == spec_cargo_items(
            list.deep_view(),
            cargo.deep_view(),
        ),
{
    let ghost dv = list.deep_view();
    let ghost m = cargo.deep_view();
    let ghost f = |s: Seq<char>| spec_cargo_item(s, m);
    let mut r: Vec<ItemPlan> = Vec::new();
    proof {
        assert(r@.map_values(|it: ItemPlan| it@) =~= dv.take(0).map_values(f));
    }
    let mut i: usize = 0;
    while i < list.len()
        invariant
            dv == list.deep_view(),
            m == cargo.deep_view(),
            f == (|s: Seq<char>| spec_cargo_item(s, m)),
            i <= list.len(),
            r@.map_values(|it: ItemPlan| it@) == dv.take(i as int).map_values(f),
        decreases list.len() - i,
    {
        let ghost prev = r@.map_values(|it: ItemPlan| it@);
        let item = cargo_item(list[i].as_str(), cargo);
        r.push(item);
        proof {
            assert(r@.map_values(|it: ItemPlan| it@) =~= prev.push(f(dv[i as int])));
            assert(dv.take(i + 1).map_values(f) =~= dv.take(i as int).map_values(f).push(
                f(dv[i as int]),
            ));
        }
        i += 1;
    }
    proof {
        assert(dv.take(list.len() as int) =~= dv);
    }
    r
}

/// Builds the items of a Snap section.
fn snap_items(list: &Vec<String>, present: &Vec<String>) -> (r: Vec<ItemPlan>)
    ensures
        r@.map_values(|it: ItemPlan| it@) == spec_snap_items(
            list.deep_view(),
            present.deep_view(),
        ),
{
    let ghost dv = list.deep_view();
    let ghost m = present.deep_view();
    let ghost f = |s: Seq<char>| spec_snap_item(s, m);
    let mut r: Vec<ItemPlan> = Vec::new();
    proof {
        assert(r@.map_values(|it: ItemPlan| it@) =~= dv.take(0).map_values(f));
    }
    let mut i: usize = 0;
    while i < list.len()
        invariant
            dv == list.deep_view(),
            m == present.deep_view(),
            f == (|s: Seq<char>| spec_snap_item(s, m)),
            i <= list.len(),
            r@.map_values(|it: ItemPlan| it@) == dv.take(i as int).map_values(f),
        decreases list.len() - i,
    {
        let ghost prev = r@.map_values(|it: ItemPlan| it@);
        let item = snap_item(list[i].as_str(), present);
        r.push(item);
        proof {
            assert(r@.map_values(|it: ItemPlan| it@) =~= prev.push(f(dv[i as int])));
            assert(dv.take(i + 1).map_values(f) =~= dv.take(i as int).map_values(f).push(
                f(dv[i as int]),
            ));
        }
        i += 1;
    }
    proof {
        assert(dv.take(list.len() as int) =~= dv);
    }
    r
}

/// Builds the items of a Flatpak section.
fn flatpak_items(list: &Vec<String>, present: &Vec<String>) -> (r: Vec<ItemPlan>)
    ensures
        r@.map_values(|it: ItemPlan| it@) == spec_flatpak_items(
            list.deep_view(),
            present.deep_view(),
        ),
{
    let ghost dv = list.deep_view();
    let ghost m = present.deep_view();
    let ghost f = |s: Seq<char>| spec_flatpak_item(s, m);
    let mut r: Vec<ItemPlan> = Vec::new();
    proof {
        assert(r@.map_values(|it: ItemPlan| it@) =~= dv.take(0).map_values(f));
    }
    let mut i: usize = 0;
    while i < list.len()
        invariant
            dv == list.deep_view(),
            m == present.deep_view(),
            f == (|s: Seq<char>| spec_flatpak_item(s, m)),
            i <= list.len(),
            r@.map_values(|it: ItemPlan| it@) == dv.take(i as int).map_values(f),
        decreases list.len() - i,
    {
        let ghost prev = r@.map_values(|it: ItemPlan| it@);
        let item = flatpak_item(list[i].as_str(), present);
        r.push(item);
        proof {
            assert(r@.map_values(|it: ItemPlan| it@) =~= prev.push(f(dv[i as int])));
            assert(dv.take(i + 1).map_values(f) =~= dv.take(i as int).map_values(f).push(
                f(dv[i as int]),
            ));
        }
        i += 1;
    }
    proof {
        assert(dv.take(list.len() as int) =~= dv);
    }
    r
}

/// Builds the items of the archive section.
fn deb_items(urls: &Vec<String>, scratch_dir: &str) -> (r: Vec<ItemPlan>)
    ensures
        r@.map_values(|it: ItemPlan| it@) == spec_deb_items(urls.deep_view(), scratch_dir@),
{
    let ghost dv = urls.deep_view();
    let ghost sd = scratch_dir@;
    let ghost f = |u: Seq<char>| spec_deb_item(u, sd);
    let mut r: Vec<ItemPlan> = Vec::new();
    proof {
        assert(r@.map_values(|it: ItemPlan| it@) =~= dv.take(0).map_values(f));
    }
    let mut i: usize = 0;
    while i < urls.len()
        invariant
            dv == urls.deep_view(),
            sd == scratch_dir@,
            f == (|u: Seq<char>| spec_deb_item(u, sd)),
            i <= urls.len(),
            r@.map_values(|it: ItemPlan| it@) == dv.take(i as int).map_values(f),
        decreases urls.len() - i,
    {
        let ghost prev = r@.map_values(|it: ItemPlan| it@);
        let item = deb_item(urls[i].as_str(), scratch_dir);
        r.push(item);
        proof {
            assert(r@.map_values(|it: ItemPlan| it@) =~= prev.push(f(dv[i as int])));
            assert(dv.take(i + 1).map_values(f) =~= dv.take(i as int).map_values(f).push(
                f(dv[i as int]),
            ));
        }
        i += 1;
    }
    proof {
        assert(dv.take(urls.len() as int) =~= dv);
    }
    r
}

/// The system part of a plan: one section when selected and present,
/// holding the single update item exactly when the update was
/// requested.
pub open spec fn spec_sys_part(c: Config, only: Option<Seq<Seq<char>>>) -> Seq<SectionModel> {
    if spec_selected(only, "system"@) && c.system is Some {
        seq![
            SectionModel {
                backend: Backend::System,
                items: if c.system->0.update {
                    seq![spec_system_item()]
                } else {
                    Seq::empty()
                },
            },
        ]
    } else {
        Seq::empty()
    }
}

/// The APT part of a plan.
pub open spec fn spec_apt_part(
    c: Config,
    only: Option<Seq<Seq<char>>>,
    st: StateModel,
) -> Seq<SectionModel> {
    if spec_selected(only, "apt"@) && c.apt is Some {
        seq![
            SectionModel {
                backend: Backend::Apt,
                items: spec_apt_items(c.apt->0.list.deep_view(), st.apt),
            },
        ]
    } else {
        Seq::empty()
    }
}

/// The Snap part of a plan.
pub open spec fn spec_snap_part(
    c: Config,
    only: Option<Seq<Seq<char>>>,
    st: StateModel,
) -> Seq<SectionModel> {
    if spec_selected(only, "snap"@) && c.snap is Some {
        seq![
            SectionModel {
                backend: Backend::Snap,
                items: spec_snap_items(c.snap->0.list.deep_view(), st.snap_present),
            },
        ]
    } else {
        Seq::empty()
    }
}

/// The Flatpak part of a plan.
pub open spec fn spec_flatpak_part(
    c: Config,
    only: Option<Seq<Seq<char>>>,
    st: StateModel,
) -> Seq<SectionModel> {
    if spec_selected(only, "flatpak"@) && c.flatpak is Some {
        seq![
            SectionModel {
                backend: Backend::Flatpak,
                items: spec_flatpak_items(c.flatpak->0.list.deep_view(), st.flatpak_present),
            },
        ]
    } else {
        Seq::empty()
    }
}

/// The Cargo part of a plan.
pub open spec fn spec_cargo_part(
    c: Config,
    only: Option<Seq<Seq<char>>>,
    st: StateModel,
) -> Seq<SectionModel> {
    if spec_selected(only, "cargo"@) && c.cargo is Some {
        seq![
            SectionModel {
                backend: Backend::Cargo,
                items: spec_cargo_items(c.cargo->0.list.deep_view(), st.cargo),
            },
        ]
    } else {
        Seq::empty()
    }
}

/// The archive part of a plan.
pub open spec fn spec_deb_part(
    c: Config,
    only: Option<Seq<Seq<char>>>,
    scratch: Seq<char>,
) -> Seq<SectionModel> {
    if spec_selected(only, "deb"@) && c.deb is Some {
        seq![
            SectionModel {
                backend: Backend::Deb,
                items: spec_deb_items(c.deb->0.urls.deep_view(), scratch),
            },
        ]
    } else {
        Seq::empty()
    }
}

/// The sections of a run's plan, in the fixed backend order: one per
/// backend whose section both stands in the manifest and is selected.
/// An unselected or absent section contributes nothing at all.
pub open spec fn spec_plan_sections(
    c: Config,
    only: Option<Seq<Seq<char>>>,
    st: StateModel,
    scratch: Seq<char>,
) -> Seq<SectionModel> {
    spec_sys_part(c, only) + spec_apt_part(c, only, st) + spec_snap_part(c, only, st)
        + spec_flatpak_part(c, only, st) + spec_cargo_part(c, only, st) + spec_deb_part(
        c,
        only,
        scratch,
    )
}

/// Computes the complete plan of one run: for every selected section
/// of the manifest, the per-item decisions against the queried
/// installed state, with the commands, notices and prompts that carry
/// them out under the mode the two switches select.
#[verifier::rlimit(60)]
pub fn apply_config(
    config: &Config,
    dry_run: bool,
    yes: bool,
    only: &Option<Vec<String>>,
    state: &SystemState,
    scratch_dir: &str,
) -> (plan: RunPlan)
    ensures
        plan@.mode == spec_mode_of(dry_run, yes),
        plan@.sections == spec_plan_sections(*config, opt_vec_view(*only), state@, scratch_dir@),
{
    let ghost ov = opt_vec_view(*only);
    let ghost st = state@;
    let ghost sview = |s: SectionPlan| s@;
    let mode = mode_of(dry_run, yes);
    let mut sections: Vec<SectionPlan> = Vec::new();
    proof {
        assert(sections@.map_values(sview) =~= Seq::<SectionModel>::empty());
    }

    let sel_sys = section_selected(only, "system");
    if sel_sys {
        match &config.system {
            Some(sys) => {
                let ghost prev = sections@.map_values(sview);
                let mut items: Vec<ItemPlan> = Vec::new();
                if sys.update {
                    items.push(system_item());
                }
                let sec = SectionPlan { backend: Backend::System, items };
                proof {
                    if sys.update {
                        assert(sec@.items =~= seq![spec_system_item()]);
                    } else {
                        assert(sec@.items =~= Seq::<ItemModel>::empty());
                    }
                }
                sections.push(sec);
                proof {
                    assert(sections@.map_values(sview) =~= prev.push(sec@));
                }
            },
            None => {},
        }
    }
    proof {
        assert(sections@.map_values(sview) =~= spec_sys_part(*config, ov));
    }

    let sel_apt = section_selected(only, "apt");
    if sel_apt {
        match &config.apt {
            Some(sec_cfg) => {
                let ghost prev = sections@.map_values(sview);
                let items = apt_items(&sec_cfg.list, &state.apt);
                let sec = SectionPlan { backend: Backend::Apt, items };
                sections.push(sec);
                proof {
                    assert(sections@.map_values(sview) =~= prev.push(sec@));
                }
            },
            None => {},
        }
    }

    proof {
        assert(sections@.map_values(sview) =~= spec_sys_part(*config, ov) + spec_apt_part(
            *config,
            ov,
            st,
        ));
    }
    let sel_snap = section_selected(only, "snap");
    if sel_snap {
        match &config.snap {
            Some(sec_cfg) => {
                let ghost prev = sections@.map_values(sview);
                let items = snap_items(&sec_cfg.list, &state.snap_present);
                let sec = SectionPlan { backend: Backend::Snap, items };
                sections.push(sec);
                proof {
                    assert(sections@.map_values(sview) =~= prev.push(sec@));
                }
            },
            None => {},
        }
    }

    proof {
        assert(sections@.map_values(sview) =~= spec_sys_part(*config, ov) + spec_apt_part(
            *config,
            ov,
            st,
        ) + spec_snap_part(*config, ov, st));
    }
    let sel_flatpak = section_selected(only, "flatpak");
    if sel_flatpak {
        match &config.flatpak {
            Some(sec_cfg) => {
                let ghost prev = sections@.map_values(sview);
                let items = flatpak_items(&sec_cfg.list, &state.flatpak_present);
                let sec = SectionPlan { backend: Backend::Flatpak, items };
                sections.push(sec);
                proof {
                    assert(sections@.map_values(sview) =~= prev.push(sec@));
                }
            },
            None => {},
        }
    }

    proof {
        assert(sections@.map_values(sview) =~= spec_sys_part(*config, ov) + spec_apt_part(
            *config,
            ov,
            st,
        ) + spec_snap_part(*config, ov, st) + spec_flatpak_part(*config, ov, st));
    }
    let sel_cargo = section_selected(only, "cargo");
    if sel_cargo {
        match &config.cargo {
            Some(sec_cfg) => {
                let ghost prev = sections@.map_values(sview);
                let items = cargo_items(&sec_cfg.list, &state.cargo);
                let sec = SectionPlan { backend: Backend::Cargo, items };
                sections.push(sec);
                proof {
                    assert(sections@.map_values(sview) =~= prev.push(sec@));
                }
            },
            None => {},
        }
    }

    proof {
        assert(sections@.map_values(sview) =~= spec_sys_part(*config, ov) + spec_apt_part(
            *config,
            ov,
            st,
        ) + spec_snap_part(*config, ov, st) + spec_flatpak_part(*config, ov, st)
            + spec_cargo_part(*config, ov, st));
    }
    let sel_deb = section_selected(only, "deb");
    if sel_deb {
        match &config.deb {
            Some(sec_cfg) => {
                let ghost prev = sections@.map_values(sview);
                let items = deb_items(&sec_cfg.urls, scratch_dir);
                let sec = SectionPlan { backend: Backend::Deb, items };
                sections.push(sec);
                proof {
                    assert(sections@.map_values(sview) =~= prev.push(sec@));
                }
            },
            None => {},
        }
    }

    proof {
        assert(sections@.map_values(sview) =~= spec_sys_part(*config, ov) + spec_apt_part(
            *config,
            ov,
            st,
        ) + spec_snap_part(*config, ov, st) + spec_flatpak_part(*config, ov, st)
            + spec_cargo_part(*config, ov, st) + spec_deb_part(*config, ov, scratch_dir@));
    }
    let plan = RunPlan { mode, sections };
    proof {
        assert(plan@.sections =~= spec_plan_sections(*config, ov, st, scratch_dir@));
    }
    plan
}


/// What the active mode makes of one planned item.
#[derive(Clone, Copy, Debug, PartialEq, Eq, Structural)]
pub enum Directive {
    /// Nothing to execute: print the item's notice.
    Notice,
    /// Print the preview lines; execute nothing.
    Preview,
    /// Ask the item's prompt, and run its commands only on a yes.
    ConfirmThenRun,
    /// Run the item's commands without asking.
    Run,
}

/// The directive table: a skip never executes whatever the mode; a
/// mutating action is previewed under a dry run, held for one
/// confirmation under the interactive mode, and run outright when
/// unattended.
pub open spec fn spec_directive_for(mode: ExecutionMode, action: Action) -> Directive {
    if action is Skip {
        Directive::Notice
    } else {
        match mode {
            ExecutionMode::DryRun => Directive::Preview,
            ExecutionMode::Interactive => Directive::ConfirmThenRun,
            ExecutionMode::Unattended => Directive::Run,
        }
    }
}

/// Reads the directive for one planned item under the active mode.
pub fn directive_for(mode: ExecutionMode, action: Action) -> (r: Directive)
    ensures
        r == spec_directive_for(mode, action),
{
    match action {
        Action::Skip => Directive::Notice,
        _ => match mode {
            ExecutionMode::DryRun => Directive::Preview,
            ExecutionMode::Interactive => Directive::ConfirmThenRun,
            ExecutionMode::Unattended => Directive::Run,
        },
    }
}

/// How one planned item ends.  A decline is a deliberate no-op
/// outcome, not a failure.
#[derive(Clone, Copy, Debug, PartialEq, Eq, Structural)]
pub enum ItemOutcome {
    /// The item was already in the desired state.
    Skipped,
    /// The dry run printed what would have run.
    Previewed,
    /// The user said no; the item was left alone with an explicit
    /// aborted-by-user notice.
    Declined,
    /// The item's commands were issued.
    Executed,
}

/// The outcome of one item under the active mode and the answer the
/// confirmation received (ignored except under the interactive mode).
pub open spec fn spec_item_outcome(
    mode: ExecutionMode,
    action: Action,
    confirmed: bool,
) -> ItemOutcome {
    match spec_directive_for(mode, action) {
        Directive::Notice => ItemOutcome::Skipped,
        Directive::Preview => ItemOutcome::Previewed,
        Directive::ConfirmThenRun => if confirmed {
            ItemOutcome::Executed
        } else {
            ItemOutcome::Declined
        },
        Directive::Run => ItemOutcome::Executed,
    }
}

/// Computes the outcome of one item.
pub fn item_outcome(mode: ExecutionMode, action: Action, confirmed: bool) -> (r: ItemOutcome)
    ensures
        r == spec_item_outcome(mode, action, confirmed),
{
    match directive_for(mode, action) {
        Directive::Notice => ItemOutcome::Skipped,
        Directive::Preview => ItemOutcome::Previewed,
        Directive::ConfirmThenRun => if confirmed {
            ItemOutcome::Executed
        } else {
            ItemOutcome::Declined
        },
        Directive::Run => ItemOutcome::Executed,
    }
}

/// The answer the item at `i` received; an item nobody was asked about
/// counts as declined.
pub open spec fn spec_answer_at(answers: Seq<bool>, i: int) -> bool {
    if 0 <= i < answers.len() {
        answers[i]
    } else {
        false
    }
}

/// The answers a section's items received.
pub open spec fn spec_answers_at(answers: Seq<Seq<bool>>, k: int) -> Seq<bool> {
    if 0 <= k < answers.len() {
        answers[k]
    } else {
        Seq::empty()
    }
}

/// The commands one item causes to be issued: its command list when it
/// executes, and nothing otherwise.
pub open spec fn spec_issued_for_item(
    mode: ExecutionMode,
    it: ItemModel,
    confirmed: bool,
) -> Seq<CommandModel> {
    if spec_item_outcome(mode, it.action, confirmed) is Executed {
        it.commands
    } else {
        Seq::empty()
    }
}

/// The commands a section's items cause to be issued, in item order.
pub open spec fn spec_issued_for_items(
    mode: ExecutionMode,
    items: Seq<ItemModel>,
    answers: Seq<bool>,
) -> Seq<CommandModel> {
    Seq::new(
        items.len(),
        |i: int| spec_issued_for_item(mode, items[i], spec_answer_at(answers, i)),
    ).flatten()
}

/// The mutating commands a whole run issues, given the per-section
/// confirmation answers.
pub open spec fn spec_issued_for_plan(p: PlanModel, answers: Seq<Seq<bool>>) -> Seq<CommandModel> {
    Seq::new(
        p.sections.len(),
        |k: int| spec_issued_for_items(p.mode, p.sections[k].items, spec_answers_at(answers, k)),
    ).flatten()
}

/// Flattening a sequence of empty sequences yields nothing.
proof fn lemma_flatten_of_empties<A>(s: Seq<Seq<A>>)
    requires
        forall|i: int| 0 <= i < s.len() ==> (#[trigger] s[i]).len() == 0,
    ensures
        s.flatten() =~= Seq::<A>::empty(),
    decreases s.len(),
{
    if s.len() > 0 {
        assert(s.first().len() == 0);
        assert(forall|i: int|
            0 <= i < s.drop_first().len() ==> (#[trigger] s.drop_first()[i]).len() == 0);
        lemma_flatten_of_empties(s.drop_first());
        assert(s.first() =~= Seq::<A>::empty());
    }
}

/// A dry run is pure: whatever the manifest, the installed state and
/// the confirmation answers, a plan computed for the dry-run mode
/// issues zero mutating commands — only notices and previews are
/// produced.
pub proof fn lemma_dry_run_purity(p: PlanModel, answers: Seq<Seq<bool>>)
    requires
        p.mode == ExecutionMode::DryRun,
    ensures
        spec_issued_for_plan(p, answers) =~= Seq::<CommandModel>::empty(),
{
    let outer = Seq::new(
        p.sections.len(),
        |k: int| spec_issued_for_items(p.mode, p.sections[k].items, spec_answers_at(answers, k)),
    );
    assert forall|k: int| 0 <= k < outer.len() implies (#[trigger] outer[k]).len() == 0 by {
        let items = p.sections[k].items;
        let ans = spec_answers_at(answers, k);
        let inner = Seq::new(
            items.len(),
            |i: int| spec_issued_for_item(p.mode, items[i], spec_answer_at(ans, i)),
        );
        assert forall|i: int| 0 <= i < inner.len() implies (#[trigger] inner[i]).len() == 0 by {
            assert(spec_item_outcome(p.mode, items[i].action, spec_answer_at(ans, i))
                != ItemOutcome::Executed);
        }
        lemma_flatten_of_empties(inner);
    }
    lemma_flatten_of_empties(outer);
}

/// Declining every confirmation is not a failure: under the
/// interactive mode with every answer no, zero mutating commands are
/// issued and no item executes — each one is skipped or ends in the
/// deliberate declined outcome — so the run completes with overall
/// success.
pub proof fn lemma_decline_is_not_failure(p: PlanModel, answers: Seq<Seq<bool>>)
    requires
        p.mode == ExecutionMode::Interactive,
        forall|k: int, i: int|
            0 <= k < answers.len() && 0 <= i < answers[k].len() ==> !(#[trigger] answers[k][i]),
    ensures
        spec_issued_for_plan(p, answers) =~= Seq::<CommandModel>::empty(),
        forall|k: int, i: int|
            0 <= k < p.sections.len() && 0 <= i < p.sections[k].items.len()
                ==> spec_item_outcome(
                p.mode,
                (#[trigger] p.sections[k].items[i]).action,
                spec_answer_at(spec_answers_at(answers, k), i),
            ) != ItemOutcome::Executed,
{
    assert forall|k: int, i: int|
        0 <= k < p.sections.len() && 0 <= i < p.sections[k].items.len() implies spec_item_outcome(
        p.mode,
        (#[trigger] p.sections[k].items[i]).action,
        spec_answer_at(spec_answers_at(answers, k), i),
    ) != ItemOutcome::Executed by {
        assert(!spec_answer_at(spec_answers_at(answers, k), i));
    }
    let outer = Seq::new(
        p.sections.len(),
        |k: int| spec_issued_for_items(p.mode, p.sections[k].items, spec_answers_at(answers, k)),
    );
    assert forall|k: int| 0 <= k < outer.len() implies (#[trigger] outer[k]).len() == 0 by {
        let items = p.sections[k].items;
        let ans = spec_answers_at(answers, k);
        let inner = Seq::new(
            items.len(),
            |i: int| spec_issued_for_item(p.mode, items[i], spec_answer_at(ans, i)),
        );
        assert forall|i: int| 0 <= i < inner.len() implies (#[trigger] inner[i]).len() == 0 by {
            assert(!spec_answer_at(ans, i));
            assert(spec_item_outcome(p.mode, items[i].action, spec_answer_at(ans, i))
                != ItemOutcome::Executed);
        }
        lemma_flatten_of_empties(inner);
    }
    lemma_flatten_of_empties(outer);
}

/// Selector isolation: a backend whose section name the selector does
/// not name contributes no section to the plan at all — zero actions
/// are computed for it, let alone executed.
pub proof fn lemma_selector_isolation(
    c: Config,
    only: Option<Seq<Seq<char>>>,
    st: StateModel,
    scratch: Seq<char>,
    b: Backend,
)
    requires
        !spec_selected(only, spec_backend_label(b)),
    ensures
        forall|k: int|
            0 <= k < spec_plan_sections(c, only, st, scratch).len() ==> (
            #[trigger] spec_plan_sections(c, only, st, scratch)[k]).backend != b,
{
    let p1 = spec_sys_part(c, only);
    let p2 = spec_apt_part(c, only, st);
    let p3 = spec_snap_part(c, only, st);
    let p4 = spec_flatpak_part(c, only, st);
    let p5x = spec_cargo_part(c, only, st);
    let p6 = spec_deb_part(c, only, scratch);
    assert(forall|j: int| 0 <= j < p1.len() ==> (#[trigger] p1[j]).backend == Backend::System);
    assert(forall|j: int| 0 <= j < p2.len() ==> (#[trigger] p2[j]).backend == Backend::Apt);
    assert(forall|j: int| 0 <= j < p3.len() ==> (#[trigger] p3[j]).backend == Backend::Snap);
    assert(forall|j: int| 0 <= j < p4.len() ==> (#[trigger] p4[j]).backend == Backend::Flatpak);
    assert(forall|j: int| 0 <= j < p5x.len() ==> (#[trigger] p5x[j]).backend == Backend::Cargo);
    assert(forall|j: int| 0 <= j < p6.len() ==> (#[trigger] p6[j]).backend == Backend::Deb);
    match b {
        Backend::System => assert(p1.len() == 0),
        Backend::Apt => assert(p2.len() == 0),
        Backend::Snap => assert(p3.len() == 0),
        Backend::Flatpak => assert(p4.len() == 0),
        Backend::Cargo => assert(p5x.len() == 0),
        Backend::Deb => assert(p6.len() == 0),
    }
}

} // verus!
