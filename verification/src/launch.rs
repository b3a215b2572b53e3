//! The package ensure-step decision and the process-launch descriptor.
//!
//! The extension keeps a fixed npm package up to date and asks the editor to
//! spawn its entry script under the host's Node.js runtime, handing it the
//! resolved MCP endpoint URL. This module holds the pure parts of that: the
//! install decision and the construction of the launch descriptor.

use vstd::prelude::*;
use crate::text::str_eq;

verus! {

/// A process-launch descriptor: the executable to spawn, its positional
/// arguments, and its environment variables.
pub struct LaunchCommand {
    pub command: String,
    pub args: Vec<String>,
    pub env: Vec<(String, String)>,
}

/// Whether the ensure-step must (re)install the package: exactly when no
/// version is installed, or the installed version differs from the latest.
pub open spec fn spec_needs_install(installed: Option<Seq<char>>, latest: Seq<char>) -> bool {
    match installed {
        None => true,
        Some(v) => v != latest,
    }
}

/// Decide whether the proxy package must be installed or updated, given the
/// installed version (if any) and the latest published version.
pub fn needs_install(installed: Option<&str>, latest: &str) -> (b: bool)
    ensures
        b == spec_needs_install(
            match installed {
                Some(v) => Some(v@),
                None => None,
            },
            latest@,
        ),
{
    match installed {
        None => true,
        Some(v) => !str_eq(v, latest),
    }
}

/// Build the launch descriptor: the given runtime executable, followed by
/// exactly two positional arguments — the package's entry script path and
/// the resolved endpoint URL — and an empty environment.
pub fn build_launch_command(runtime_path: String, entry_script_path: String, url: String) -> (c:
    LaunchCommand)
    ensures
        c.command@ == runtime_path@,
        c.args@.len() == 2,
        c.args@[0]@ == entry_script_path@,
        c.args@[1]@ == url@,
        c.env@.len() == 0,
{
    let mut args: Vec<String> = Vec::new();
    args.push(entry_script_path);
    args.push(url);
    LaunchCommand { command: runtime_path, args, env: Vec::new() }
}

/// The name of the npm package that bridges the editor's context-server
/// protocol to the hosted MCP endpoint.
pub fn package_name() -> (s: String)
    ensures
        s@ == "mcp-remote"@,
{
    String::from_str("mcp-remote")
}

/// The path of the package's entry script, relative to the extension's
/// working directory after installation.
pub fn package_entry_script() -> (s: String)
    ensures
        s@ == "node_modules/mcp-remote/dist/proxy.js"@,
{
    String::from_str("node_modules/mcp-remote/dist/proxy.js")
}

} // verus!
