//! The script runner's decision path: look a named script up in the
//! manifest and say what must run, and whether an explicit warning
//! confirmation stands before it.  That confirmation is unconditional
//! for a manifest loaded from the network, independent of any
//! skip-confirmation setting: executing a remote script is a
//! categorically higher-risk action than installing a package.

use vstd::prelude::*;
use crate::command::{shell_command, spec_shell_command, CommandLine};
use crate::config::Config;
use crate::errors::AppError;
use crate::text::str_starts_with;

verus! {

/// Whether a manifest source names a network location rather than a
/// local path.
pub fn source_is_remote(source: &str) -> (r: bool)
    ensures
        r == ("http://"@.is_prefix_of(source@) || "https://"@.is_prefix_of(source@)),
{
    str_starts_with(source, "http://") || str_starts_with(source, "https://")
}

/// What a script invocation must do: run `command` (the shell
/// invocation of `command_text`), after an explicit confirmation when
/// `needs_confirmation` is set.
pub struct ScriptRun {
    pub name: String,
    pub command_text: String,
    pub needs_confirmation: bool,
    pub command: CommandLine,
}

/// Resolves a named script against the manifest: an error when the
/// manifest has no script section or no script of that name, and
/// otherwise the shell invocation to run, held for a confirmation
/// exactly when the manifest came from a remote source.
pub fn run_scripts(config: &Config, script_name: &str, is_remote_source: bool) -> (r: Result<
    ScriptRun,
    AppError,
>)
    ensures
        config.scripts is None ==> (r matches Err(AppError::Other(m)) && m@
            == "No [scripts] section found."@),
        config.scripts matches Some(scripts) ==> (scripts.spec_command_of(script_name@) is None
            ==> (r matches Err(AppError::UnknownScript(m)) && m@ == "Script '"@ + script_name@
            + "' not found."@)),
        config.scripts matches Some(scripts) ==> (scripts.spec_command_of(script_name@)
            matches Some(text) ==> (r matches Ok(run) && run.name@ == script_name@
            && run.command_text@ == text && run.needs_confirmation == is_remote_source
            && run.command@ == spec_shell_command(text))),
{
    match &config.scripts {
        None => Err(AppError::Other(String::from_str("No [scripts] section found."))),
        Some(scripts) => match scripts.command_of(script_name) {
            None => {
                let mut m = String::from_str("Script '");
                m.append(script_name);
                m.append("' not found.");
                Err(AppError::UnknownScript(m))
            },
            Some(text) => {
                let command = shell_command(text.as_str());
                Ok(
                    ScriptRun {
                        name: String::from_str(script_name),
                        command_text: text,
                        needs_confirmation: is_remote_source,
                        command,
                    },
                )
            },
        },
    }
}

/// Whether a resolved script may run now: always when no warning
/// stands before it, and otherwise only on an explicit confirmation.
pub fn script_should_run(needs_confirmation: bool, confirmed: bool) -> (r: bool)
    ensures
        r == (!needs_confirmation || confirmed),
{
    !needs_confirmation || confirmed
}

} // verus!
