//! The host-facing launch description: once a binary is provisioned, the
//! host receives the binary's path, exactly one argument — the fixed endpoint
//! URL the helper should connect to — and an empty environment.

use vstd::prelude::*;
use vstd::string::StringExecFns;

verus! {

/// A ready-to-launch command line for the host.
pub struct LaunchCommand {
    pub command: String,
    pub args: Vec<String>,
    pub env: Vec<(String, String)>,
}

/// The fixed endpoint URL handed to the launched helper.
pub open spec fn spec_endpoint_url() -> Seq<char> {
    "https://font.emtech.cc/mcp"@
}

pub fn endpoint_url() -> (r: &'static str)
    ensures
        r@ == spec_endpoint_url(),
{
    "https://font.emtech.cc/mcp"
}

/// Composes the launch description for a provisioned binary: the command is
/// the binary path unchanged, the argument list is exactly the endpoint URL,
/// and the environment is empty.
pub fn server_command(binary_path: String) -> (r: LaunchCommand)
    ensures
        r.command@ == binary_path@,
        r.args@.len() == 1,
        r.args@[0]@ == spec_endpoint_url(),
        r.env@.len() == 0,
{
    let mut args: Vec<String> = Vec::new();
    args.push(String::from_str(endpoint_url()));
    LaunchCommand { command: binary_path, args, env: Vec::new() }
}

} // verus!
