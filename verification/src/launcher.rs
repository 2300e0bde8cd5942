//! Builds the command line for the server child process.
//!
//! The launcher is a pure function of the configuration: interpreter binary
//! as the executable, the entry script as its sole positional argument, the
//! two helper binaries injected through named environment variables, and a
//! platform flag that suppresses any subprocess console window.  Spawning
//! the process and capturing its standard output is the caller's job; the
//! caller must pipe standard output (the sentinel line is read from it) and
//! leave standard error to inherit.

use vstd::prelude::*;
use vstd::string::StringExecFns;

verus! {

/// A complete description of the child process to spawn.
pub struct CommandSpec {
    /// The executable: the runtime interpreter binary.
    pub program: String,
    /// Positional arguments: exactly the server entry script.
    pub args: Vec<String>,
    /// Environment variables to set, in order.
    pub env: Vec<(String, String)>,
    /// Whether the spawn must suppress a console window (Windows only).
    pub hide_console: bool,
}

/// Builds the child process command for the given configuration.
/// `windows` says whether the host needs the console-suppression flag.
pub fn build_command(config: &crate::config::ServerConfig, windows: bool) -> (r: CommandSpec)
    ensures
        r.program@ == config.node@,
        r.args@.len() == 1,
        r.args@[0]@ == config.server@,
        r.env@.len() == (if config.no_cors {
            3int
        } else {
            2int
        }),
        r.env@[0].0@ == "FFMPEG_BIN"@ && r.env@[0].1@ == config.ffmpeg@,
        r.env@[1].0@ == "FFPROBE_BIN"@ && r.env@[1].1@ == config.ffprobe@,
        config.no_cors ==> r.env@[2].0@ == "NO_CORS"@ && r.env@[2].1@ == "1"@,
        r.hide_console == windows,
{
    let mut args: Vec<String> = Vec::new();
    args.push(config.server.clone());

    let mut env: Vec<(String, String)> = Vec::new();
    env.push((String::from_str("FFMPEG_BIN"), config.ffmpeg.clone()));
    env.push((String::from_str("FFPROBE_BIN"), config.ffprobe.clone()));
    if config.no_cors {
        env.push((String::from_str("NO_CORS"), String::from_str("1")));
    }

    CommandSpec { program: config.node.clone(), args, env, hide_console: windows }
}

} // verus!
