use vstd::prelude::*;
use crate::supervisor::LaunchOutcome;

verus! {

/// A process to start: the program, its arguments, and the directory it runs
/// in (`None`: the shell's own).
pub struct LaunchCommand {
    pub program: String,
    pub args: Vec<String>,
    pub working_dir: Option<String>,
}

/// The views of a command's arguments.
pub open spec fn arg_views(args: Seq<String>) -> Seq<Seq<char>> {
    args.map_values(|a: String| a@)
}

/// The relative path of the backend's working directory.
pub fn backend_directory() -> (r: String)
    ensures
        r@ == "../server"@,
{
    String::from_str("../server")
}

/// The runtime's version command, whose start alone tells that the runtime is there.
pub fn runtime_probe_command() -> (r: LaunchCommand)
    ensures
        r.program@ == "go"@,
        arg_views(r.args@) == seq!["version"@],
        r.working_dir is None,
{
    let mut args: Vec<String> = Vec::new();
    args.push(String::from_str("version"));
    proof {
        assert(arg_views(args@) =~= seq!["version"@]);
    }
    LaunchCommand { program: String::from_str("go"), args, working_dir: None }
}

/// `<runtime> run <entrypoint>`, run in the backend directory.
pub fn backend_launch_command() -> (r: LaunchCommand)
    ensures
        r.program@ == "go"@,
        arg_views(r.args@) == seq!["run"@, "cmd/main.go"@],
        r.working_dir matches Some(d) && d@ == "../server"@,
{
    let mut args: Vec<String> = Vec::new();
    args.push(String::from_str("run"));
    args.push(String::from_str("cmd/main.go"));
    proof {
        assert(arg_views(args@) =~= seq!["run"@, "cmd/main.go"@]);
    }
    LaunchCommand { program: String::from_str("go"), args, working_dir: Some(backend_directory()) }
}

/// The diagnostic line for each outcome; a failed spawn carries its reason.
pub open spec fn outcome_message(o: LaunchOutcome) -> Seq<char> {
    match o {
        LaunchOutcome::Started => "Go backend server started"@,
        LaunchOutcome::RuntimeMissing =>
            "Warning: Go is not installed or not in PATH. Backend server will not start."@,
        LaunchOutcome::DirectoryMissing =>
            "Warning: Server directory not found. Backend server will not start."@,
        LaunchOutcome::SpawnFailed(reason) => "Failed to start Go backend server: "@ + reason@,
    }
}

impl LaunchOutcome {
    /// The diagnostic line that reports this outcome.
    pub fn message(&self) -> (r: String)
        ensures
            r@ == outcome_message(*self),
    {
        match self {
            LaunchOutcome::Started => String::from_str("Go backend server started"),
            LaunchOutcome::RuntimeMissing => String::from_str(
                "Warning: Go is not installed or not in PATH. Backend server will not start.",
            ),
            LaunchOutcome::DirectoryMissing => String::from_str(
                "Warning: Server directory not found. Backend server will not start.",
            ),
            LaunchOutcome::SpawnFailed(reason) => {
                String::from_str("Failed to start Go backend server: ").concat(reason.as_str())
            },
        }
    }
}

} // verus!
