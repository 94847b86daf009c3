//! State capture: the inverse of reconciliation.  The live installed
//! listings are reshaped into a manifest that declares exactly the
//! currently installed world.
//!
//! The system, archive and script sections are omitted on purpose: an
//! update is an action rather than a state, archive URLs are not
//! tracked as a queryable list, and scripts are definitions, not
//! installed state.  None of the three can be reconstructed from what
//! is on the host.

use vstd::prelude::*;
use crate::config::{Config, Section};
use crate::doctor::{spec_doctor_entries, DoctorState};
use crate::text::{
    has_no_char, has_no_space, lemma_base_name_identity, lemma_name_of_identity, spec_base_name,
    spec_name_of,
};

verus! {

/// Shapes the queried installed listings into a manifest describing the
/// current environment: every queryable backend section is populated
/// verbatim, and the system, archive and script sections are absent.
pub fn export_current_environment(
    apt: Vec<String>,
    snap: Vec<String>,
    flatpak: Vec<String>,
    cargo: Vec<String>,
) -> (r: Config)
    ensures
        r.system is None,
        r.apt matches Some(sec) && sec.list == apt,
        r.snap matches Some(sec) && sec.list == snap,
        r.flatpak matches Some(sec) && sec.list == flatpak,
        r.cargo matches Some(sec) && sec.list == cargo,
        r.deb is None,
        r.scripts is None,
{
    Config {
        system: None,
        apt: Some(Section { list: apt }),
        snap: Some(Section { list: snap }),
        flatpak: Some(Section { list: flatpak }),
        cargo: Some(Section { list: cargo }),
        deb: None,
        scripts: None,
    }
}

/// Running the drift report against a manifest captured from the very
/// listings the report queries yields no drift: every entry's missing
/// and extra sets are empty.  The version-aware names must not carry a
/// `=` and the Snap names no whitespace, since the report strips
/// declared names at those separators.
pub proof fn lemma_export_doctor_round_trip(c: Config, st: DoctorState)
    requires
        c.apt is Some && st.apt is Some && c.apt->0.list.deep_view() == st.apt->0.deep_view(),
        c.snap is Some && st.snap is Some && c.snap->0.list.deep_view() == st.snap->0.deep_view(),
        c.flatpak is Some && st.flatpak is Some && c.flatpak->0.list.deep_view()
            == st.flatpak->0.deep_view(),
        c.cargo is Some && st.cargo is Some && c.cargo->0.list.deep_view()
            == st.cargo->0.deep_view(),
        forall|i: int|
            0 <= i < c.apt->0.list.deep_view().len() ==> has_no_char(
                #[trigger] c.apt->0.list.deep_view()[i],
                '=',
            ),
        forall|i: int|
            0 <= i < c.cargo->0.list.deep_view().len() ==> has_no_char(
                #[trigger] c.cargo->0.list.deep_view()[i],
                '=',
            ),
        forall|i: int|
            0 <= i < c.snap->0.list.deep_view().len() ==> has_no_space(
                #[trigger] c.snap->0.list.deep_view()[i],
            ),
    ensures
        forall|k: int|
            0 <= k < spec_doctor_entries(c, st).len() ==> (#[trigger] spec_doctor_entries(
                c,
                st,
            )[k]).missing =~= Set::<Seq<char>>::empty() && spec_doctor_entries(c, st)[k].extra
                =~= Set::<Seq<char>>::empty(),
{
    let apt = c.apt->0.list.deep_view();
    let snap = c.snap->0.list.deep_view();
    let cargo = c.cargo->0.list.deep_view();
    let apt_m = apt.map_values(|s: Seq<char>| spec_name_of(s));
    let cargo_m = cargo.map_values(|s: Seq<char>| spec_name_of(s));
    let snap_m = snap.map_values(|s: Seq<char>| spec_base_name(s));
    assert(apt_m =~= apt) by {
        assert forall|i: int| 0 <= i < apt.len() implies #[trigger] apt_m[i] == apt[i] by {
            lemma_name_of_identity(apt[i]);
        }
    }
    assert(cargo_m =~= cargo) by {
        assert forall|i: int| 0 <= i < cargo.len() implies #[trigger] cargo_m[i] == cargo[i] by {
            lemma_name_of_identity(cargo[i]);
        }
    }
    assert(snap_m =~= snap) by {
        assert forall|i: int| 0 <= i < snap.len() implies #[trigger] snap_m[i] == snap[i] by {
            lemma_base_name_identity(snap[i]);
        }
    }
}

} // verus!
