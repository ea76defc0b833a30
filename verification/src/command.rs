//! The command handed upward to the host to spawn the language-server
//! process: the resolved runtime binary, a fixed argument list, and no
//! environment overrides.

use vstd::prelude::*;
use vstd::string::*;

verus! {

/// What the host should execute: a program, its arguments, and environment
/// overrides.
pub struct Command {
    pub command: String,
    pub args: Vec<String>,
    pub env: Vec<(String, String)>,
}

/// Builds the language-server invocation for a resolved runtime binary: the
/// runtime as the program, the server script followed by `--stdio` as the
/// arguments, and no environment overrides.
pub fn language_server_command(node_path: String, script_path: String) -> (c: Command)
    ensures
        c.command@ == node_path@,
        c.args@.len() == 2,
        c.args@[0]@ == script_path@,
        c.args@[1]@ == "--stdio"@,
        c.env@ == Seq::<(String, String)>::empty(),
{
    let mut args: Vec<String> = Vec::new();
    args.push(script_path);
    args.push(String::from_str("--stdio"));
    Command { command: node_path, args, env: Vec::new() }
}

} // verus!
