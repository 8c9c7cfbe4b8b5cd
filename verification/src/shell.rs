//! The shell-selection policy: which command an accepted session launches.

use vstd::prelude::*;

verus! {

/// A command to spawn, as plain values: the program, its arguments, the
/// environment entries to set, and the working directory.
#[derive(Debug)]
pub struct CommandSpec {
    pub program: String,
    pub args: Vec<String>,
    pub env: Vec<(String, String)>,
    pub cwd: String,
}

/// Why no command could be built.
#[derive(Clone, Copy, PartialEq, Eq, Structural, Debug)]
pub enum LaunchError {
    /// No login shell is configured on a POSIX-like host.
    ShellUnset,
}

/// Builds the shell command for a session working in `cwd`.
///
/// On the native command-interpreter platform the system interpreter `cmd`
/// runs with its prompt format set to end in a space, so the prompt can be
/// told apart from what is typed after it. On POSIX-like platforms the
/// user's configured login shell runs interactively with the terminal type
/// fixed to an xterm-compatible value; a host without a configured shell
/// cannot launch a session.
pub fn shell_command(windows: bool, login_shell: Option<String>, cwd: String) -> (r: Result<
    CommandSpec,
    LaunchError,
>)
    ensures
        windows ==> (r matches Ok(c) && c.program@ == "cmd"@ && c.args@.len() == 0 && c.env@.len()
            == 1 && c.env@[0].0@ == "PROMPT"@ && c.env@[0].1@ == "$P$G "@ && c.cwd@ == cwd@),
        !windows ==> (login_shell matches Some(sh) ==> (r matches Ok(c) && c.program@ == sh@
            && c.args@.len() == 1 && c.args@[0]@ == "-i"@ && c.env@.len() == 1 && c.env@[0].0@
            == "TERM"@ && c.env@[0].1@ == "xterm-256color"@ && c.cwd@ == cwd@)),
        !windows && login_shell is None ==> (r matches Err(e) && e == LaunchError::ShellUnset),
{
    if windows {
        let mut env: Vec<(String, String)> = Vec::new();
        env.push(("PROMPT".to_owned(), "$P$G ".to_owned()));
        Ok(CommandSpec { program: "cmd".to_owned(), args: Vec::new(), env, cwd })
    } else {
        match login_shell {
            Some(sh) => {
                let mut args: Vec<String> = Vec::new();
                args.push("-i".to_owned());
                let mut env: Vec<(String, String)> = Vec::new();
                env.push(("TERM".to_owned(), "xterm-256color".to_owned()));
                Ok(CommandSpec { program: sh, args, env, cwd })
            },
            None => Err(LaunchError::ShellUnset),
        }
    }
}

} // verus!
