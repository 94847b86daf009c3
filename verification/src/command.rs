//! The command lines the engine issues: one constructor per backend
//! action, each pinned to the exact program and argument list, and the
//! renderings used for progress and dry-run preview output.

use vstd::prelude::*;
use crate::text::{join_spaces, spec_join_spaces, spec_last_segment, last_segment};

verus! {

/// The mathematical model of a command line.
#[verifier::ext_equal]
pub struct CommandModel {
    pub program: Seq<char>,
    pub args: Seq<Seq<char>>,
}

/// An external command to issue: a program and its arguments.
pub struct CommandLine {
    pub program: String,
    pub args: Vec<String>,
}

impl View for CommandLine {
    type V = CommandModel;

    open spec fn view(&self) -> CommandModel {
        CommandModel { program: self.program@, args: self.args.deep_view() }
    }
}

/// A command line as it is echoed: the program, a space, then the
/// arguments joined with spaces.
pub open spec fn spec_render(c: CommandModel) -> Seq<char> {
    c.program + " "@ + spec_join_spaces(c.args)
}

/// The dry-run preview of a command line.
pub open spec fn spec_preview(c: CommandModel) -> Seq<char> {
    "Would run: "@ + spec_render(c)
}

impl CommandLine {
    /// Renders the command line for an `Executing:` progress line.
    pub fn render(&self) -> (r: String)
        ensures
            r@ == spec_render(self@),
    {
        let mut r = self.program.clone();
        r.append(" ");
        r.append(join_spaces(&self.args).as_str());
        r
    }

    /// Renders the `Would run:` preview of the command line.
    pub fn preview(&self) -> (r: String)
        ensures
            r@ == spec_preview(self@),
    {
        let mut r = String::from_str("Would run: ");
        r.append(self.render().as_str());
        r
    }
}

/// The platform update command.
pub open spec fn spec_system_update_command() -> CommandModel {
    CommandModel { program: "sudo"@, args: seq!["apt"@, "update"@] }
}

/// The install command for one APT spec, the pinned version suffix
/// passed through verbatim.
pub open spec fn spec_apt_install_command(spec_str: Seq<char>) -> CommandModel {
    CommandModel { program: "sudo"@, args: seq!["apt"@, "install"@, "-y"@, spec_str] }
}

/// The install command for one Snap spec, flags included.
pub open spec fn spec_snap_install_command(spec_str: Seq<char>) -> CommandModel {
    CommandModel { program: "sudo"@, args: seq!["snap"@, "install"@, spec_str] }
}

/// The install command for one Flatpak application.
pub open spec fn spec_flatpak_install_command(spec_str: Seq<char>) -> CommandModel {
    CommandModel { program: "flatpak"@, args: seq!["install"@, "-y"@, spec_str] }
}

/// The install command for one Cargo crate.
pub open spec fn spec_cargo_install_command(spec_str: Seq<char>) -> CommandModel {
    CommandModel {
        program: "cargo"@,
        args: seq!["install"@, "--locked"@, "--force"@, spec_str],
    }
}

/// The install command for a downloaded archive.
pub open spec fn spec_deb_install_command(path: Seq<char>) -> CommandModel {
    CommandModel { program: "sudo"@, args: seq!["dpkg"@, "-i"@, path] }
}

/// The broken-dependency repair command run after an archive install.
pub open spec fn spec_fix_broken_command() -> CommandModel {
    CommandModel {
        program: "sudo"@,
        args: seq!["apt"@, "--fix-broken"@, "install"@, "-y"@],
    }
}

/// The shell invocation of one named script's command string.
pub open spec fn spec_shell_command(text: Seq<char>) -> CommandModel {
    CommandModel { program: "sh"@, args: seq!["-c"@, text] }
}

/// The scratch file an archive URL is downloaded to: the URL's final
/// path segment under the scratch directory.
pub open spec fn spec_scratch_path(dir: Seq<char>, url: Seq<char>) -> Seq<char> {
    dir + "/"@ + spec_last_segment(url)
}

/// Builds the scratch path for one archive URL.
pub fn scratch_path(dir: &str, url: &str) -> (r: String)
    ensures
        r@ == spec_scratch_path(dir@, url@),
{
    let mut r = String::from_str(dir);
    r.append("/");
    r.append(last_segment(url).as_str());
    r
}

/// Builds a command line from its program and two arguments.
fn command2(program: &str, a0: &str, a1: &str) -> (r: CommandLine)
    ensures
        r@.program == program@,
        r@.args =~= seq![a0@, a1@],
{
    let mut args: Vec<String> = Vec::new();
    args.push(String::from_str(a0));
    args.push(String::from_str(a1));
    CommandLine { program: String::from_str(program), args }
}

/// Builds a command line from its program and three arguments.
fn command3(program: &str, a0: &str, a1: &str, a2: &str) -> (r: CommandLine)
    ensures
        r@.program == program@,
        r@.args =~= seq![a0@, a1@, a2@],
{
    let mut args: Vec<String> = Vec::new();
    args.push(String::from_str(a0));
    args.push(String::from_str(a1));
    args.push(String::from_str(a2));
    CommandLine { program: String::from_str(program), args }
}

/// Builds a command line from its program and four arguments.
fn command4(program: &str, a0: &str, a1: &str, a2: &str, a3: &str) -> (r: CommandLine)
    ensures
        r@.program == program@,
        r@.args =~= seq![a0@, a1@, a2@, a3@],
{
    let mut args: Vec<String> = Vec::new();
    args.push(String::from_str(a0));
    args.push(String::from_str(a1));
    args.push(String::from_str(a2));
    args.push(String::from_str(a3));
    CommandLine { program: String::from_str(program), args }
}

/// Builds the platform update command.
pub fn system_update_command() -> (r: CommandLine)
    ensures
        r@ == spec_system_update_command(),
{
    let r = command2("sudo", "apt", "update");
    proof {
        assert(r@ =~= spec_system_update_command());
    }
    r
}

/// Builds the install command for one APT spec.
pub fn apt_install_command(spec_str: &str) -> (r: CommandLine)
    ensures
        r@ == spec_apt_install_command(spec_str@),
{
    let r = command4("sudo", "apt", "install", "-y", spec_str);
    proof {
        assert(r@ =~= spec_apt_install_command(spec_str@));
    }
    r
}

/// Builds the install command for one Snap spec.
pub fn snap_install_command(spec_str: &str) -> (r: CommandLine)
    ensures
        r@ == spec_snap_install_command(spec_str@),
{
    let r = command3("sudo", "snap", "install", spec_str);
    proof {
        assert(r@ =~= spec_snap_install_command(spec_str@));
    }
    r
}

/// Builds the install command for one Flatpak application.
pub fn flatpak_install_command(spec_str: &str) -> (r: CommandLine)
    ensures
        r@ == spec_flatpak_install_command(spec_str@),
{
    let r = command3("flatpak", "install", "-y", spec_str);
    proof {
        assert(r@ =~= spec_flatpak_install_command(spec_str@));
    }
    r
}

/// Builds the install command for one Cargo crate.
pub fn cargo_install_command(spec_str: &str) -> (r: CommandLine)
    ensures
        r@ == spec_cargo_install_command(spec_str@),
{
    let r = command4("cargo", "install", "--locked", "--force", spec_str);
    proof {
        assert(r@ =~= spec_cargo_install_command(spec_str@));
    }
    r
}

/// Builds the install command for a downloaded archive.
pub fn deb_install_command(path: &str) -> (r: CommandLine)
    ensures
        r@ == spec_deb_install_command(path@),
{
    let r = command3("sudo", "dpkg", "-i", path);
    proof {
        assert(r@ =~= spec_deb_install_command(path@));
    }
    r
}

/// Builds the broken-dependency repair command.
pub fn fix_broken_command() -> (r: CommandLine)
    ensures
        r@ == spec_fix_broken_command(),
{
    let r = command4("sudo", "apt", "--fix-broken", "install", "-y");
    proof {
        assert(r@ =~= spec_fix_broken_command());
    }
    r
}

/// Builds the shell invocation of one script's command string.
pub fn shell_command(text: &str) -> (r: CommandLine)
    ensures
        r@ == spec_shell_command(text@),
{
    let r = command2("sh", "-c", text);
    proof {
        assert(r@ =~= spec_shell_command(text@));
    }
    r
}

} // verus!
