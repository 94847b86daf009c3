//! The drift report: a pure, read-only comparison of the declared
//! manifest against the live installed state, per backend, by name
//! only.  Version pins are stripped before diffing even though the
//! reconciliation path is version-aware; that asymmetry is deliberate.

use vstd::prelude::*;
use crate::config::Config;
use crate::text::{contains_str, spec_base_name, spec_name_of, base_name, split_package_spec};

verus! {

/// One backend's drift: names declared but not installed, and names
/// installed but not declared.  Both lists are duplicate-free and
/// carry no meaningful order.
pub struct BackendDiff {
    pub label: String,
    pub missing: Vec<String>,
    pub extra: Vec<String>,
}

/// The mathematical model of one backend's drift entry.
#[verifier::ext_equal]
pub struct DiffModel {
    pub label: Seq<char>,
    pub missing: Set<Seq<char>>,
    pub extra: Set<Seq<char>>,
}

impl View for BackendDiff {
    type V = DiffModel;

    open spec fn view(&self) -> DiffModel {
        DiffModel {
            label: self.label@,
            missing: self.missing.deep_view().to_set(),
            extra: self.extra.deep_view().to_set(),
        }
    }
}

impl BackendDiff {
    /// Both directions of the drift entry are duplicate-free.
    pub open spec fn duplicate_free(self) -> bool {
        self.missing.deep_view().no_duplicates() && self.extra.deep_view().no_duplicates()
    }
}

/// The elements of `from` that are not in `avoid`, first occurrence
/// order, duplicates dropped.
fn set_difference_list(from: &Vec<String>, avoid: &Vec<String>) -> (r: Vec<String>)
    ensures
        r.deep_view().to_set() == from.deep_view().to_set().difference(
            avoid.deep_view().to_set(),
        ),
        r.deep_view().no_duplicates(),
{
    let ghost d = from.deep_view();
    let ghost b = avoid.deep_view().to_set();
    let mut acc: Vec<String> = Vec::new();
    proof {
        assert(acc.deep_view() =~= Seq::<Seq<char>>::empty());
        assert(acc.deep_view().to_set() =~= d.take(0).to_set().difference(b));
    }
    let mut i: usize = 0;
    while i < from.len()
        invariant
            d == from.deep_view(),
            b == avoid.deep_view().to_set(),
            i <= from.len(),
            acc.deep_view().to_set() == d.take(i as int).to_set().difference(b),
            acc.deep_view().no_duplicates(),
        decreases from.len() - i,
    {
        let ghost prev = acc.deep_view();
        if !contains_str(avoid, from[i].as_str()) && !contains_str(&acc, from[i].as_str()) {
            acc.push(from[i].clone());
            proof {
                assert(acc.deep_view() =~= prev.push(d[i as int]));
                assert(acc.deep_view().no_duplicates()) by {
                    assert(forall|k: int|
                        0 <= k < prev.len() ==> prev[k] == #[trigger] acc.deep_view()[k]);
                    assert(forall|k: int| 0 <= k < prev.len() ==> prev[k] != d[i as int]);
                }
                Seq::lemma_to_set_insert_commutes(prev, d[i as int]);
                assert(acc.deep_view() =~= prev + seq![d[i as int]]);
                assert(acc.deep_view().to_set() =~= prev.to_set().insert(d[i as int]));
            }
        }
        proof {
            Seq::lemma_to_set_insert_commutes(d.take(i as int), d[i as int]);
            assert(d.take(i + 1) =~= d.take(i as int) + seq![d[i as int]]);
            assert(d.take(i + 1).to_set() =~= d.take(i as int).to_set().insert(d[i as int]));
            assert(acc.deep_view().to_set() =~= d.take(i + 1).to_set().difference(b));
        }
        i += 1;
    }
    proof {
        assert(d.take(from.len() as int) =~= d);
    }
    acc
}

/// Computes one backend's drift entry from its declared and installed
/// name lists: `missing` holds the declared names not installed, and
/// `extra` the installed names not declared, each as a duplicate-free
/// unordered list.
pub fn check_package_discrepancies(
    package_manager_name: &str,
    toml_packages: &Vec<String>,
    installed_packages: &Vec<String>,
) -> (r: BackendDiff)
    ensures
        r@.label == package_manager_name@,
        r@.missing == toml_packages.deep_view().to_set().difference(
            installed_packages.deep_view().to_set(),
        ),
        r@.extra == installed_packages.deep_view().to_set().difference(
            toml_packages.deep_view().to_set(),
        ),
        r.duplicate_free(),
{
    BackendDiff {
        label: String::from_str(package_manager_name),
        missing: set_difference_list(toml_packages, installed_packages),
        extra: set_difference_list(installed_packages, toml_packages),
    }
}

/// The live installed-name listings the drift report compares against,
/// one per backend the host could be queried for.  `None` records a
/// failed listing query: that backend is reported as unavailable and
/// the checks of the other backends go on.
pub struct DoctorState {
    pub apt: Option<Vec<String>>,
    pub snap: Option<Vec<String>>,
    pub flatpak: Option<Vec<String>>,
    pub cargo: Option<Vec<String>>,
}

/// The drift report: one entry per backend that is both declared in
/// the manifest and answerable from the live system.
pub struct DoctorReport {
    pub entries: Vec<BackendDiff>,
}

/// One backend's drift entry, as sets over the stripped declared names
/// and the installed names.
pub open spec fn spec_diff_entry(
    label: Seq<char>,
    declared: Seq<Seq<char>>,
    installed: Seq<Seq<char>>,
) -> DiffModel {
    DiffModel {
        label: label,
        missing: declared.to_set().difference(installed.to_set()),
        extra: installed.to_set().difference(declared.to_set()),
    }
}

/// The entries of the drift report, in backend order.  Declared names
/// are stripped to what the backend reports: the part before `=` for
/// the version-aware backends, the first whitespace token for Snap,
/// and the name as written for Flatpak.
pub open spec fn spec_doctor_entries(c: Config, st: DoctorState) -> Seq<DiffModel> {
    let apt_part = match (c.apt, st.apt) {
        (Option::Some(sec), Option::Some(inst)) => seq![
            spec_diff_entry(
                "APT"@,
                sec.list.deep_view().map_values(|s: Seq<char>| spec_name_of(s)),
                inst.deep_view(),
            ),
        ],
        _ => Seq::empty(),
    };
    let snap_part = match (c.snap, st.snap) {
        (Option::Some(sec), Option::Some(inst)) => seq![
            spec_diff_entry(
                "Snap"@,
                sec.list.deep_view().map_values(|s: Seq<char>| spec_base_name(s)),
                inst.deep_view(),
            ),
        ],
        _ => Seq::empty(),
    };
    let flatpak_part = match (c.flatpak, st.flatpak) {
        (Option::Some(sec), Option::Some(inst)) => seq![
            spec_diff_entry("Flatpak"@, sec.list.deep_view(), inst.deep_view()),
        ],
        _ => Seq::empty(),
    };
    let cargo_part = match (c.cargo, st.cargo) {
        (Option::Some(sec), Option::Some(inst)) => seq![
            spec_diff_entry(
                "Cargo"@,
                sec.list.deep_view().map_values(|s: Seq<char>| spec_name_of(s)),
                inst.deep_view(),
            ),
        ],
        _ => Seq::empty(),
    };
    apt_part + snap_part + flatpak_part + cargo_part
}

/// The declared specs reduced to bare names: what stands before the
/// first `=` of each.
pub fn stripped_names_eq(list: &Vec<String>) -> (r: Vec<String>)
    ensures
        r.deep_view() == list.deep_view().map_values(|s: Seq<char>| spec_name_of(s)),
{
    let ghost dv = list.deep_view();
    let mut acc: Vec<String> = Vec::new();
    let mut i: usize = 0;
    while i < list.len()
        invariant
            dv == list.deep_view(),
            i <= list.len(),
            acc.deep_view() =~= dv.take(i as int).map_values(|s: Seq<char>| spec_name_of(s)),
        decreases list.len() - i,
    {
        let ghost prev = acc.deep_view();
        let (name, _) = split_package_spec(list[i].as_str());
        acc.push(name);
        proof {
            assert(acc.deep_view() =~= prev.push(spec_name_of(dv[i as int])));
            assert(acc.deep_view() =~= dv.take(i + 1).map_values(
                |s: Seq<char>| spec_name_of(s),
            ));
        }
        i += 1;
    }
    proof {
        assert(dv.take(list.len() as int) =~= dv);
    }
    acc
}

/// The declared specs reduced to lookup names: the first whitespace
/// token of each.
pub fn stripped_names_ws(list: &Vec<String>) -> (r: Vec<String>)
    ensures
        r.deep_view() == list.deep_view().map_values(|s: Seq<char>| spec_base_name(s)),
{
    let ghost dv = list.deep_view();
    let mut acc: Vec<String> = Vec::new();
    let mut i: usize = 0;
    while i < list.len()
        invariant
            dv == list.deep_view(),
            i <= list.len(),
            acc.deep_view() =~= dv.take(i as int).map_values(|s: Seq<char>| spec_base_name(s)),
        decreases list.len() - i,
    {
        let ghost prev = acc.deep_view();
        let name = base_name(list[i].as_str());
        acc.push(name);
        proof {
            assert(acc.deep_view() =~= prev.push(spec_base_name(dv[i as int])));
            assert(acc.deep_view() =~= dv.take(i + 1).map_values(
                |s: Seq<char>| spec_base_name(s),
            ));
        }
        i += 1;
    }
    proof {
        assert(dv.take(list.len() as int) =~= dv);
    }
    acc
}

/// Builds the read-only drift report: for each backend declared in the
/// manifest whose live listing is available, the names missing from
/// the host and the names extra on it.  Nothing is mutated.
pub fn doctor_command(config: &Config, state: &DoctorState) -> (r: DoctorReport)
    ensures
        r.entries@.map_values(|d: BackendDiff| d@) == spec_doctor_entries(*config, *state),
        forall|k: int| 0 <= k < r.entries@.len() ==> (#[trigger] r.entries@[k]).duplicate_free(),
{
    let ghost dview = |d: BackendDiff| d@;
    let mut entries: Vec<BackendDiff> = Vec::new();
    proof {
        assert(entries@.map_values(dview) =~= Seq::<DiffModel>::empty());
    }
    match (&config.apt, &state.apt) {
        (Some(sec), Some(inst)) => {
            let ghost prev = entries@.map_values(dview);
            let declared = stripped_names_eq(&sec.list);
            let entry = check_package_discrepancies("APT", &declared, inst);
            proof {
                assert(entry@ =~= spec_diff_entry(
                    "APT"@,
                    sec.list.deep_view().map_values(|s: Seq<char>| spec_name_of(s)),
                    inst.deep_view(),
                ));
            }
            entries.push(entry);
            proof {
                assert(entries@.map_values(dview) =~= prev.push(entry@));
            }
        },
        _ => {},
    }
    match (&config.snap, &state.snap) {
        (Some(sec), Some(inst)) => {
            let ghost prev = entries@.map_values(dview);
            let declared = stripped_names_ws(&sec.list);
            let entry = check_package_discrepancies("Snap", &declared, inst);
            proof {
                assert(entry@ =~= spec_diff_entry(
                    "Snap"@,
                    sec.list.deep_view().map_values(|s: Seq<char>| spec_base_name(s)),
                    inst.deep_view(),
                ));
            }
            entries.push(entry);
            proof {
                assert(entries@.map_values(dview) =~= prev.push(entry@));
            }
        },
        _ => {},
    }
    match (&config.flatpak, &state.flatpak) {
        (Some(sec), Some(inst)) => {
            let ghost prev = entries@.map_values(dview);
            let entry = check_package_discrepancies("Flatpak", &sec.list, inst);
            proof {
                assert(entry@ =~= spec_diff_entry(
                    "Flatpak"@,
                    sec.list.deep_view(),
                    inst.deep_view(),
                ));
            }
            entries.push(entry);
            proof {
                assert(entries@.map_values(dview) =~= prev.push(entry@));
            }
        },
        _ => {},
    }
    match (&config.cargo, &state.cargo) {
        (Some(sec), Some(inst)) => {
            let ghost prev = entries@.map_values(dview);
            let declared = stripped_names_eq(&sec.list);
            let entry = check_package_discrepancies("Cargo", &declared, inst);
            proof {
                assert(entry@ =~= spec_diff_entry(
                    "Cargo"@,
                    sec.list.deep_view().map_values(|s: Seq<char>| spec_name_of(s)),
                    inst.deep_view(),
                ));
            }
            entries.push(entry);
            proof {
                assert(entries@.map_values(dview) =~= prev.push(entry@));
            }
        },
        _ => {},
    }
    proof {
        assert(entries@.map_values(dview) =~= spec_doctor_entries(*config, *state));
    }
    DoctorReport { entries }
}

/// When the declared and installed name sets coincide, both directions
/// of a drift entry computed from them are empty lists, not merely
/// empty sets.
pub proof fn lemma_diff_of_equal_sets_empty(
    declared: Seq<Seq<char>>,
    installed: Seq<Seq<char>>,
    missing: Seq<Seq<char>>,
    extra: Seq<Seq<char>>,
)
    requires
        missing.to_set() == declared.to_set().difference(installed.to_set()),
        extra.to_set() == installed.to_set().difference(declared.to_set()),
        declared.to_set() == installed.to_set(),
    ensures
        missing =~= Seq::<Seq<char>>::empty(),
        extra =~= Seq::<Seq<char>>::empty(),
{
    assert(missing.to_set() =~= Set::<Seq<char>>::empty());
    assert(extra.to_set() =~= Set::<Seq<char>>::empty());
    if missing.len() > 0 {
        assert(missing.to_set().contains(missing[0]));
    }
    if extra.len() > 0 {
        assert(extra.to_set().contains(extra[0]));
    }
}

} // verus!
