//! The command that starts the language server.

use vstd::prelude::*;
use crate::install::SERVER_PATH;
use crate::path::{ends_with, join_path, join_spec, lemma_join_ends_with_path};

verus! {

/// The flag that makes the server speak over its standard streams.
pub const STDIO_FLAG: &'static str = "--stdio";

/// A process for the host to start: the executable, its arguments in order,
/// and the environment variables to set.
#[derive(Clone, Debug)]
pub struct CommandSpec {
    pub command: String,
    pub args: Vec<String>,
    pub env: Vec<(String, String)>,
}

/// A [`CommandSpec`] as mathematical values.
pub struct CommandSpecView {
    pub command: Seq<char>,
    pub args: Seq<Seq<char>>,
    pub env: Seq<(Seq<char>, Seq<char>)>,
}

impl View for CommandSpec {
    type V = CommandSpecView;

    open spec fn view(&self) -> CommandSpecView {
        CommandSpecView {
            command: self.command@,
            args: self.args@.map_values(|arg: String| arg@),
            env: self.env@.map_values(|var: (String, String)| (var.0@, var.1@)),
        }
    }
}

/// The path of the installed server below the working directory `cwd`.
pub open spec fn server_path_in(cwd: Seq<char>) -> Seq<char> {
    join_spec(cwd, SERVER_PATH@)
}

/// The command that runs the installed server with the script runtime at
/// `runtime`: the path of the server, then the stdio flag, and an empty
/// environment.
pub open spec fn server_command(cwd: Seq<char>, runtime: Seq<char>) -> CommandSpecView {
    CommandSpecView {
        command: runtime,
        args: seq![server_path_in(cwd), STDIO_FLAG@],
        env: Seq::empty(),
    }
}

/// The command has two arguments: the first ends with the install path of
/// the server, the second is the stdio flag. Its environment is empty.
pub proof fn lemma_server_command_arguments(cwd: Seq<char>, runtime: Seq<char>)
    ensures
        server_command(cwd, runtime).command == runtime,
        server_command(cwd, runtime).args.len() == 2,
        ends_with(server_command(cwd, runtime).args[0], SERVER_PATH@),
        server_command(cwd, runtime).args[1] == STDIO_FLAG@,
        server_command(cwd, runtime).env.len() == 0,
{
    lemma_join_ends_with_path(cwd, SERVER_PATH@);
}

/// The path of the installed server below the working directory `cwd`.
pub fn resolve_server_path(cwd: &str) -> (server_path: String)
    ensures
        server_path@ == server_path_in(cwd@),
        ends_with(server_path@, SERVER_PATH@),
{
    proof {
        lemma_join_ends_with_path(cwd@, SERVER_PATH@);
    }
    join_path(cwd, SERVER_PATH)
}

/// Builds the command that starts the language server. `cwd` is the working
/// directory of the extension and `runtime` what the host answered when
/// asked for its script runtime. The command can be built exactly when the
/// host found the runtime; otherwise the host's message is handed on.
pub fn build_command(cwd: &str, runtime: Result<String, String>) -> (built: Result<
    CommandSpec,
    String,
>)
    ensures
        match runtime {
            Ok(executable) => built matches Ok(command) && command@ == server_command(
                cwd@,
                executable@,
            ),
            Err(message) => built matches Err(reason) && reason == message,
        },
        built matches Ok(command) ==> command.args@.len() == 2 && ends_with(
            command.args@[0]@,
            SERVER_PATH@,
        ) && command.args@[1]@ == STDIO_FLAG@ && command.env@.len() == 0,
{
    match runtime {
        Ok(executable) => {
            let mut args: Vec<String> = Vec::new();
            args.push(resolve_server_path(cwd));
            args.push(STDIO_FLAG.to_owned());
            let command = CommandSpec { command: executable, args, env: Vec::new() };
            assert(command@.args =~= seq![server_path_in(cwd@), STDIO_FLAG@]);
            assert(command@.env =~= Seq::empty());
            Ok(command)
        },
        Err(message) => Err(message),
    }
}

} // verus!
