//! Command-line front matter: which top-level argument was given, and the
//! connection data an instance invocation needs.  Printing help and talking
//! to the server are outside work.

use crate::config::Config;
use crate::instance::Instance;
use crate::strutil;
use vstd::prelude::*;

verus! {

/// What the first command-line argument asks for.
#[derive(Debug, Clone, Copy, PartialEq, Eq, Structural)]
pub enum CliCommand {
    /// `h`, `-h` or `--help`: print the usage text.
    Help,
    /// `i` or `instance`: forward the remaining arguments to a running
    /// instance.
    Instance,
    /// Anything else: reject with a diagnostic.
    Invalid,
}

/// The command a top-level argument stands for.
pub open spec fn cli_command(s: Seq<char>) -> CliCommand {
    if s == "h"@ || s == "-h"@ || s == "--help"@ {
        CliCommand::Help
    } else if s == "i"@ || s == "instance"@ {
        CliCommand::Instance
    } else {
        CliCommand::Invalid
    }
}

/// Classifies the first command-line argument.
pub fn classify_arg(arg: &str) -> (r: CliCommand)
    ensures
        r == cli_command(arg@),
{
    if strutil::str_eq(arg, "h") || strutil::str_eq(arg, "-h") || strutil::str_eq(arg, "--help") {
        CliCommand::Help
    } else if strutil::str_eq(arg, "i") || strutil::str_eq(arg, "instance") {
        CliCommand::Instance
    } else {
        CliCommand::Invalid
    }
}

/// The command-line front end: where the control server lives, and the
/// instance parser for forwarded actions.
pub struct Cli {
    /// Server address to submit instance actions to.
    pub ip: String,
    /// Server port to submit instance actions to.
    pub port: String,
    /// Collects the parsed instance actions.
    pub instance: Instance,
}

impl Cli {
    pub fn new(config: &Config) -> (r: Cli)
        ensures
            r.ip@ == config.server_ip@,
            r.port@ == config.server_port@,
            r.instance.actions@ == Seq::<crate::msg::Msg>::empty(),
            !r.instance.invalid,
    {
        Cli { ip: config.server_ip.clone(), port: config.server_port.clone(), instance: Instance::new() }
    }
}

} // verus!
