//! How a session's shell is launched: path joining, the working directory
//! and the search path the shell starts with.
use vstd::prelude::*;

use crate::pty::{default_shell, home_directory, set_command_cwd, set_command_env, no_overrides, ShellCommand};

verus! {

/// A path with `part` joined to `base`, as a Unix path push does it: an
/// absolute `part` replaces `base`, and a separator goes between the two
/// unless `base` is empty or already ends in one.
pub open spec fn joined(base: Seq<char>, part: Seq<char>) -> Seq<char> {
    if part.len() > 0 && part[0] == '/' {
        part
    } else if base.len() == 0 || base.last() == '/' {
        base + part
    } else {
        base + seq!['/'] + part
    }
}

/// Joins `part` to the path `base`.
pub fn join_path(base: &str, part: &str) -> (r: String)
    ensures
        r@ == joined(base@, part@),
{
    proof {
        reveal_strlit("/");
    }
    let part_len = part.unicode_len();
    if part_len > 0 && part.get_char(0) == '/' {
        return part.to_string();
    }
    let base_len = base.unicode_len();
    let mut r = base.to_string();
    if base_len > 0 && base.get_char(base_len - 1) != '/' {
        r.append("/");
    }
    r.append(part);
    r
}

/// The text of an optional string.
pub open spec fn opt_text(o: Option<String>) -> Option<Seq<char>> {
    match o {
        Some(s) => Some(s@),
        None => None,
    }
}

/// The user-local binary directory under a home directory.
pub open spec fn local_bin(home: Seq<char>) -> Seq<char> {
    joined(home, ".local/bin"@)
}

/// The search path a shell starts with: the user-local binary directory in
/// front of the inherited one, when both the home directory and an inherited
/// search path are known; otherwise it is left alone.
pub open spec fn planned_search_path(home: Option<Seq<char>>, inherited: Option<Seq<char>>) -> Option<Seq<char>> {
    match (home, inherited) {
        (Some(h), Some(p)) => Some(local_bin(h) + seq![':'] + p),
        _ => None,
    }
}

/// The working directory a shell starts in: the one asked for, else the
/// home directory, else none.
pub open spec fn planned_cwd(cwd: Option<Seq<char>>, home: Option<Seq<char>>) -> Option<Seq<char>> {
    match cwd {
        Some(c) => Some(c),
        None => home,
    }
}

/// What a session's shell is started with beyond the inherited environment.
pub struct LaunchPlan {
    /// A replacement for the `PATH` variable, if any.
    pub search_path: Option<String>,
    /// The working directory, if any.
    pub cwd: Option<String>,
}

/// The plan for a shell, from the directory asked for, the home directory
/// and the inherited search path.
pub fn launch_plan(cwd: Option<String>, home: Option<String>, inherited: Option<String>) -> (r: LaunchPlan)
    ensures
        opt_text(r.search_path) == planned_search_path(opt_text(home), opt_text(inherited)),
        opt_text(r.cwd) == planned_cwd(opt_text(cwd), opt_text(home)),
{
    proof {
        reveal_strlit(":");
    }
    let search_path = match (&home, &inherited) {
        (Some(h), Some(p)) => {
            let mut s = join_path(h.as_str(), ".local/bin");
            s.append(":");
            s.append(p.as_str());
            Some(s)
        },
        _ => None,
    };
    let cwd = match cwd {
        Some(c) => Some(c),
        None => home,
    };
    LaunchPlan { search_path, cwd }
}

/// The plan for a shell, with the current user's home directory looked up.
pub fn session_launch_plan(cwd: Option<String>, inherited: Option<String>) -> (r: LaunchPlan)
    ensures
        exists|home: Option<String>|
            opt_text(r.search_path) == planned_search_path(opt_text(home), opt_text(inherited))
            && opt_text(r.cwd) == planned_cwd(opt_text(cwd), opt_text(home)),
{
    let home = home_directory();
    let ghost h = home;
    let r = launch_plan(cwd, home, inherited);
    assert(opt_text(r.search_path) == planned_search_path(opt_text(h), opt_text(inherited)));
    r
}

/// The environment overrides a plan asks for: `PATH`, when it gives one.
pub open spec fn planned_env(search_path: Option<Seq<char>>) -> Map<Seq<char>, Seq<char>> {
    match search_path {
        Some(p) => no_overrides().insert("PATH"@, p),
        None => no_overrides(),
    }
}

/// The user's default shell, set up as the plan says.
pub fn shell_command(plan: &LaunchPlan) -> (r: ShellCommand)
    ensures
        r.env_overrides() == planned_env(opt_text(plan.search_path)),
        r.cwd() == opt_text(plan.cwd),
{
    let mut cmd = default_shell();
    if let Some(p) = &plan.search_path {
        set_command_env(&mut cmd, "PATH", p.as_str());
    }
    if let Some(d) = &plan.cwd {
        set_command_cwd(&mut cmd, d.as_str());
    }
    cmd
}

} // verus!
