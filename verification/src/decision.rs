//! The per-item decision table: what to do about one declared package,
//! given the desired version (if any) and the installed version (if any).

use vstd::prelude::*;

verus! {

/// The action the engine takes for one declared package.  Actions are
/// recomputed on every run and never persisted.
#[derive(Clone, Copy, Debug, PartialEq, Eq, Structural)]
pub enum Action {
    /// The package is already in the desired state; nothing is run.
    Skip,
    /// The package is absent and will be installed.
    Install,
    /// The package is present with a different version than requested;
    /// it is logged as a transition and executed as an install.
    Reinstall,
}

impl Action {
    /// An action is mutating when realising it issues a command.
    pub open spec fn is_mutating(self) -> bool {
        self != Action::Skip
    }
}

/// The decision table, applied per declared package.  Version strings are
/// compared verbatim; the engine never inspects their contents.  For
/// presence-only backends the `installed` argument degenerates to
/// `Some`/`None` with no version to mismatch.
pub open spec fn action_for(desired: Option<Seq<char>>, installed: Option<Seq<char>>) -> Action {
    match installed {
        Option::None => Action::Install,
        Option::Some(iv) => match desired {
            Option::None => Action::Skip,
            Option::Some(dv) => if iv == dv {
                Action::Skip
            } else {
                Action::Reinstall
            },
        },
    }
}

/// The view of an optional owned version string.
pub open spec fn opt_view(o: Option<String>) -> Option<Seq<char>> {
    match o {
        Option::None => Option::None,
        Option::Some(s) => Option::Some(s@),
    }
}

/// The view of an optional borrowed version string.
pub open spec fn opt_ref_view(o: Option<&String>) -> Option<Seq<char>> {
    match o {
        Option::None => Option::None,
        Option::Some(s) => Option::Some(s@),
    }
}

/// Computes the decision table on concrete values.
pub fn decide_action(desired: &Option<String>, installed: Option<&String>) -> (r: Action)
    ensures
        r == action_for(opt_view(*desired), opt_ref_view(installed)),
{
    match installed {
        None => Action::Install,
        Some(iv) => match desired {
            None => Action::Skip,
            Some(dv) => {
                if *iv == *dv {
                    Action::Skip
                } else {
                    Action::Reinstall
                }
            },
        },
    }
}

/// Whether the package must be (re)installed: the boolean form of the
/// decision table used by callers that only need install-or-skip.  The
/// name and type arguments identify the package in the caller's report
/// and do not influence the decision.
#[allow(unused_variables)]
pub fn determine_package_installation(
    pkg_name: &str,
    desired_version: &Option<String>,
    installed_version: Option<&String>,
    package_type: &str,
) -> (r: bool)
    ensures
        r == action_for(opt_view(*desired_version), opt_ref_view(installed_version)).is_mutating(),
{
    let action = decide_action(desired_version, installed_version);
    match action {
        Action::Skip => false,
        Action::Install => true,
        Action::Reinstall => true,
    }
}

/// The decision table is total and matches its statement case by case:
/// absent packages are installed whether or not a version is pinned,
/// present packages are skipped when no version is pinned or the pin
/// matches, and reinstalled exactly when the pin differs.
pub proof fn lemma_decision_table_total(desired: Option<Seq<char>>, installed: Option<Seq<char>>)
    ensures
        installed is None ==> action_for(desired, installed) == Action::Install,
        desired is None && installed is Some ==> action_for(desired, installed) == Action::Skip,
        desired is Some && installed is Some && desired->0 == installed->0 ==> action_for(
            desired,
            installed,
        ) == Action::Skip,
        desired is Some && installed is Some && desired->0 != installed->0 ==> action_for(
            desired,
            installed,
        ) == Action::Reinstall,
{
}

} // verus!
