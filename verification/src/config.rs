//! The manifest model: the desired-state document the engine reconciles
//! the host against.  Every section is optional; an absent section means
//! "do not touch this backend".

use vstd::prelude::*;
use crate::text::{str_eq, opt_string_view, spec_assoc};

verus! {

/// The system-update section: whether the platform update command runs.
pub struct SystemSection {
    pub update: bool,
}

/// A package-list section, shared by the APT, Snap, Flatpak and Cargo
/// backends.  Each entry is a declared spec: `name`, `name=version`,
/// or (for Snap) `name` followed by whitespace-separated install flags.
pub struct Section {
    pub list: Vec<String>,
}

/// The installer-archive section: URLs downloaded and installed
/// unconditionally.
pub struct DebSection {
    pub urls: Vec<String>,
}

/// The named-script section: a mapping from script name to the shell
/// command it runs.  Insertion order carries no meaning.
pub struct ScriptsSection {
    pub commands: Vec<(String, String)>,
}

/// The desired-state document.
pub struct Config {
    pub system: Option<SystemSection>,
    pub apt: Option<Section>,
    pub snap: Option<Section>,
    pub flatpak: Option<Section>,
    pub cargo: Option<Section>,
    pub deb: Option<DebSection>,
    pub scripts: Option<ScriptsSection>,
}

impl ScriptsSection {
    /// The command mapped to `name`, with a later entry for the same
    /// name overriding an earlier one.
    pub open spec fn spec_command_of(self, name: Seq<char>) -> Option<Seq<char>> {
        spec_assoc(self.commands.deep_view(), name)
    }

    /// Looks a script name up among the defined commands.
    pub fn command_of(&self, name: &str) -> (r: Option<String>)
        ensures
            opt_string_view(r) == self.spec_command_of(name@),
    {
        let ghost dv = self.commands.deep_view();
        let mut r: Option<String> = None;
        proof {
            assert(dv.take(0) =~= Seq::<(Seq<char>, Seq<char>)>::empty());
        }
        let mut i: usize = 0;
        while i < self.commands.len()
            invariant
                dv == self.commands.deep_view(),
                i <= self.commands.len(),
                opt_string_view(r) == spec_assoc(dv.take(i as int), name@),
            decreases self.commands.len() - i,
        {
            if str_eq(self.commands[i].0.as_str(), name) {
                r = Some(self.commands[i].1.clone());
            }
            proof {
                assert(dv.take(i + 1).drop_last() =~= dv.take(i as int));
                assert(dv.take(i + 1).last() == dv[i as int]);
            }
            i += 1;
        }
        proof {
            assert(dv.take(self.commands.len() as int) =~= dv);
        }
        r
    }
}

} // verus!
