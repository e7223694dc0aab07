//! The invocation handed to the host once a binary is provisioned.

use vstd::prelude::*;
use vstd::string::StringExecFns;

verus! {

/// How the host must start the provisioned binary.
pub struct CommandSpec {
    /// Path of the executable to start.
    pub command: String,
    /// Arguments handed to the executable.
    pub args: Vec<String>,
    /// Environment variables handed to the executable.
    pub env: Vec<(String, String)>,
}

/// Builds the language-server invocation for a provisioned binary: the
/// binary itself, started with the single argument `lsp` and an empty
/// environment.
pub fn language_server_command(binary_path: String) -> (r: CommandSpec)
    ensures
        r.command@ == binary_path@,
        r.args@.len() == 1,
        r.args@[0]@ == "lsp"@,
        r.env@.len() == 0,
{
    let mut args: Vec<String> = Vec::new();
    args.push(String::from_str("lsp"));
    CommandSpec { command: binary_path, args, env: Vec::new() }
}

} // verus!
