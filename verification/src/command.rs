//! The command line that starts the backend.

use vstd::prelude::*;
use vstd::string::*;

verus! {

/// A program, its arguments in order, and the directory to start it in.
#[derive(Debug)]
pub struct LaunchCommand {
    pub program: String,
    pub args: Vec<String>,
    pub working_dir: String,
}

/// The arguments handed to the interpreter: run the server module on the
/// application object, listening on port 8000 of the loopback address.
pub open spec fn backend_args() -> Seq<Seq<char>> {
    seq![
        "-m"@,
        "uvicorn"@,
        "app.main:app"@,
        "--port"@,
        "8000"@,
        "--host"@,
        "127.0.0.1"@,
    ]
}

impl LaunchCommand {
    /// The arguments as plain character sequences.
    pub open spec fn args_view(&self) -> Seq<Seq<char>> {
        Seq::new(self.args@.len(), |i: int| self.args@[i]@)
    }
}

/// The backend's command line. It is fixed: the interpreter `python`, the
/// arguments of `backend_args`, and the directory `../backend`, relative to
/// the directory the application runs in.
pub fn backend_command() -> (command: LaunchCommand)
    ensures
        command.program@ == "python"@,
        command.args@.len() == 7,
        command.args_view() == backend_args(),
        command.working_dir@ == "../backend"@,
{
    let mut args: Vec<String> = Vec::new();
    args.push(String::from_str("-m"));
    args.push(String::from_str("uvicorn"));
    args.push(String::from_str("app.main:app"));
    args.push(String::from_str("--port"));
    args.push(String::from_str("8000"));
    args.push(String::from_str("--host"));
    args.push(String::from_str("127.0.0.1"));
    let command = LaunchCommand {
        program: String::from_str("python"),
        args,
        working_dir: String::from_str("../backend"),
    };
    assert(command.args_view() =~= backend_args());
    command
}

} // verus!
