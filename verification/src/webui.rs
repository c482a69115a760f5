//! Opening the web interface.
use vstd::prelude::*;
use crate::autostart::{slashed, with_slashes};
use crate::shell::{CommandModel, ShellCommand};
use crate::text::texts;

verus! {

/// How long to try to reach the web interface, in milliseconds.
pub const CONNECT_TIMEOUT_MS: u64 = 500;

/// How long the server takes to be ready, in milliseconds.
pub const STARTUP_MS: u64 = 2000;

/// One step of opening the web interface.
pub enum LaunchStep {
    /// Start a program and leave it running.
    Start(ShellCommand),
    /// Wait for so many milliseconds.
    Wait(u64),
}

/// What a step holds.
pub enum LaunchModel {
    Start(CommandModel),
    Wait(u64),
}

impl View for LaunchStep {
    type V = LaunchModel;

    open spec fn view(&self) -> LaunchModel {
        match self {
            LaunchStep::Start(command) => LaunchModel::Start(command@),
            LaunchStep::Wait(ms) => LaunchModel::Wait(*ms),
        }
    }
}

/// What each step holds.
pub open spec fn steps_view(v: Seq<LaunchStep>) -> Seq<LaunchModel> {
    v.map_values(|s: LaunchStep| s@)
}

/// The script of the server, in the assistant's directory under the user's.
pub open spec fn server_script(home: Seq<char>, assistant_dir: Seq<char>) -> Seq<char> {
    slashed(home) + "/"@ + assistant_dir + "/webui/server.py"@
}

/// The command that starts the server in the background.
pub open spec fn server_command(home: Seq<char>, assistant_dir: Seq<char>) -> CommandModel {
    CommandModel {
        program: "pythonw"@,
        args: seq!["-u"@, server_script(home, assistant_dir), "--no-browser"@],
        creation_flags: 0,
    }
}

/// The command that opens the browser.
pub open spec fn browser_command() -> CommandModel {
    CommandModel {
        program: "cmd"@,
        args: seq!["/c"@, "start"@, ""@, "http://127.0.0.1:19876"@],
        creation_flags: 0,
    }
}

/// The steps that open the web interface: the server first, unless it runs already, then the
/// browser.
pub open spec fn launch_plan(
    already_running: bool,
    home: Seq<char>,
    assistant_dir: Seq<char>,
) -> Seq<LaunchModel> {
    if already_running {
        seq![LaunchModel::Start(browser_command())]
    } else {
        seq![
            LaunchModel::Start(server_command(home, assistant_dir)),
            LaunchModel::Wait(STARTUP_MS),
            LaunchModel::Start(browser_command()),
        ]
    }
}

/// Gives the address at which the web interface listens.
pub fn webui_address() -> (r: &'static str)
    ensures
        r@ == "127.0.0.1:19876"@,
{
    "127.0.0.1:19876"
}

fn start_server(home: &str, assistant_dir: &str) -> (r: ShellCommand)
    ensures
        r@ == server_command(home@, assistant_dir@),
{
    let mut script = with_slashes(home);
    script.append("/");
    script.append(assistant_dir);
    script.append("/webui/server.py");
    let mut args: Vec<String> = Vec::new();
    args.push("-u".to_owned());
    args.push(script);
    args.push("--no-browser".to_owned());
    assert(texts(args@) =~= server_command(home@, assistant_dir@).args);
    ShellCommand { program: "pythonw".to_owned(), args, creation_flags: 0 }
}

fn start_browser() -> (r: ShellCommand)
    ensures
        r@ == browser_command(),
{
    let mut args: Vec<String> = Vec::new();
    args.push("/c".to_owned());
    args.push("start".to_owned());
    args.push("".to_owned());
    args.push("http://127.0.0.1:19876".to_owned());
    assert(texts(args@) =~= browser_command().args);
    ShellCommand { program: "cmd".to_owned(), args, creation_flags: 0 }
}

/// Lists the steps that open the web interface.
pub fn launch_steps(already_running: bool, home: &str, assistant_dir: &str) -> (r: Vec<LaunchStep>)
    ensures
        steps_view(r@) == launch_plan(already_running, home@, assistant_dir@),
{
    let mut steps: Vec<LaunchStep> = Vec::new();
    if !already_running {
        steps.push(LaunchStep::Start(start_server(home, assistant_dir)));
        steps.push(LaunchStep::Wait(STARTUP_MS));
    }
    steps.push(LaunchStep::Start(start_browser()));
    assert(steps_view(steps@) =~= launch_plan(already_running, home@, assistant_dir@));
    steps
}

/// The browser is opened in any case, and last.
pub proof fn law_browser_opens_last(
    already_running: bool,
    home: Seq<char>,
    assistant_dir: Seq<char>,
)
    ensures
        launch_plan(already_running, home, assistant_dir).last() == LaunchModel::Start(
            browser_command(),
        ),
{
}

/// The browser is pointed at the address that was tried.
pub proof fn law_browser_opens_address()
    ensures
        browser_command().args.last() == "http://"@ + "127.0.0.1:19876"@,
{
    reveal_strlit("http://127.0.0.1:19876");
    reveal_strlit("http://");
    reveal_strlit("127.0.0.1:19876");
    assert("http://127.0.0.1:19876"@ =~= "http://"@ + "127.0.0.1:19876"@);
}

/// The server's script stands in the assistant's directory under the user's.
pub proof fn law_server_script(home: Seq<char>, assistant_dir: Seq<char>)
    ensures
        server_script(home, assistant_dir) == slashed(home) + ("/"@ + (assistant_dir
            + "/webui/server.py"@)),
{
    assert(server_script(home, assistant_dir) =~= slashed(home) + ("/"@ + (assistant_dir
        + "/webui/server.py"@)));
}

/// The server is started exactly where it does not run yet: first of all, by its script, and with
/// the time to be ready before the browser opens.
pub proof fn law_server_started_where_needed(
    already_running: bool,
    home: Seq<char>,
    assistant_dir: Seq<char>,
)
    ensures
        ({
            let plan = launch_plan(already_running, home, assistant_dir);
            &&& already_running ==> plan.len() == 1
            &&& !already_running ==> {
                &&& plan.len() == 3
                &&& plan[0] matches LaunchModel::Start(c) && c.program == "pythonw"@ && c.args.len() == 3
                    && c.args[0] == "-u"@ && c.args[1] == server_script(home, assistant_dir) && c.args[2]
                    == "--no-browser"@ && c.creation_flags == 0
                &&& plan[1] == LaunchModel::Wait(2000)
            }
            &&& plan.last() matches LaunchModel::Start(b) && b.program == "cmd"@ && b.args.len() == 4
                && b.args[0] == "/c"@ && b.args[1] == "start"@ && b.args[2] == ""@ && b.args[3]
                == "http://127.0.0.1:19876"@ && b.creation_flags == 0
        }),
{
}

/// The steps are told one by one, each with all it holds.
pub proof fn law_steps_view(step: LaunchStep, v: Seq<LaunchStep>)
    ensures
        step matches LaunchStep::Start(c) ==> step@ == LaunchModel::Start(c@),
        step matches LaunchStep::Wait(ms) ==> step@ == LaunchModel::Wait(ms),
        steps_view(v).len() == v.len(),
        forall|i: int| 0 <= i < v.len() ==> #[trigger] steps_view(v)[i] == v[i]@,
{
}

} // verus!
