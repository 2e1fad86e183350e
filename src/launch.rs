//! Launch plans: which executable the shell starts, with which arguments and
//! which environment overrides.
use vstd::prelude::*;

verus! {

/// A process to start: the sidecar's name, its arguments in order, and the
/// environment variables to set, as (name, value) pairs in order.
pub struct LaunchPlan {
    pub program: String,
    pub args: Vec<String>,
    pub env: Vec<(String, String)>,
}

/// The name the server's executable is bundled under.
pub open spec fn sidecar_name() -> Seq<char> {
    "silverscreen-server"@
}

/// The variable that tells the server which port to bind.
pub open spec fn port_var() -> Seq<char> {
    "PORT"@
}

/// The port value that lets the operating system choose a free port.
pub open spec fn any_port() -> Seq<char> {
    "0"@
}

/// The variable that tells the server where to keep its data.
pub open spec fn data_dir_var() -> Seq<char> {
    "SILVERSCREEN_DATA_DIR"@
}

/// The argument that starts the server in its installation mode.
pub open spec fn install_flag() -> Seq<char> {
    "--install-browsers"@
}

/// The long-lived server: no arguments; it binds a port of the system's
/// choosing and keeps its data under `data_dir`.
pub fn server_launch(data_dir: &str) -> (r: LaunchPlan)
    ensures
        r.program@ == sidecar_name(),
        r.args@.len() == 0,
        r.env@.len() == 2,
        r.env@[0].0@ == port_var(),
        r.env@[0].1@ == any_port(),
        r.env@[1].0@ == data_dir_var(),
        r.env@[1].1@ == data_dir@,
{
    let mut env: Vec<(String, String)> = Vec::new();
    env.push(("PORT".to_owned(), "0".to_owned()));
    env.push(("SILVERSCREEN_DATA_DIR".to_owned(), data_dir.to_owned()));
    LaunchPlan { program: "silverscreen-server".to_owned(), args: Vec::new(), env }
}

/// The installation run: the same executable with the installation flag and
/// no environment overrides.
pub fn install_launch() -> (r: LaunchPlan)
    ensures
        r.program@ == sidecar_name(),
        r.args@.len() == 1,
        r.args@[0]@ == install_flag(),
        r.env@.len() == 0,
{
    let mut args: Vec<String> = Vec::new();
    args.push("--install-browsers".to_owned());
    LaunchPlan { program: "silverscreen-server".to_owned(), args, env: Vec::new() }
}

} // verus!
