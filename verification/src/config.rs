//! What runs inside the sandbox.

use vstd::prelude::*;

verus! {

/// A program to run and its arguments.
#[derive(Debug)]
pub struct CommandSpec {
    pub program: String,
    pub args: Vec<String>,
}

/// The command that the terminal helper runs on its terminal: the Java
/// shell, started from its jar.
pub fn get_command() -> (cmd: CommandSpec)
    ensures
        cmd.program@ == "/usr/local/openjdk-11/bin/java"@,
        cmd.args@.len() == 2,
        cmd.args@[0]@ == "-jar"@,
        cmd.args@[1]@ == "/tmp/jsh.jar"@,
{
    let mut args: Vec<String> = Vec::new();
    args.push(String::from_str("-jar"));
    args.push(String::from_str("/tmp/jsh.jar"));
    CommandSpec { program: String::from_str("/usr/local/openjdk-11/bin/java"), args }
}

} // verus!
