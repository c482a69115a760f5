//! Starting with the user's session, by a link in the start-up directory.
use vstd::prelude::*;
use crate::shell::{powershell, powershell_command, CommandModel, ShellCommand};
use crate::text::{replace_char, replaced};

verus! {

/// A path with slashes in place of backslashes.
pub open spec fn slashed(path: Seq<char>) -> Seq<char> {
    replaced(path, '\\', "/"@)
}

/// The directory of what starts with the user's session.
pub open spec fn startup_dir(appdata: Seq<char>) -> Seq<char> {
    slashed(appdata) + "/Microsoft/Windows/Start Menu/Programs/Startup"@
}

/// The link that starts the pet.
pub open spec fn startup_link(appdata: Seq<char>) -> Seq<char> {
    startup_dir(appdata) + "/Aemeath.lnk"@
}

/// Writes a path with slashes.
pub fn with_slashes(path: &str) -> (r: String)
    ensures
        r@ == slashed(path@),
{
    replace_char(path, '\\', "/")
}

/// Finds the link whose presence tells that the pet starts with the session.
pub fn check_autostart(appdata: &str) -> (r: String)
    ensures
        r@ == slashed(appdata@) + "/Microsoft/Windows/Start Menu/Programs/Startup/Aemeath.lnk"@,
        r@ == startup_link(appdata@),
{
    let mut link = with_slashes(appdata);
    link.append("/Microsoft/Windows/Start Menu/Programs/Startup/Aemeath.lnk");
    proof {
        law_checked_link_is_toggled(appdata@);
    }
    link
}

/// The script that makes a link to a program.
pub open spec fn link_script(link: Seq<char>, exe: Seq<char>, dir: Seq<char>) -> Seq<char> {
    "$ws=New-Object -ComObject WScript.Shell;$s=$ws.CreateShortcut('"@ + link
        + "');$s.TargetPath='"@ + exe + "';$s.WorkingDirectory='"@ + dir + "';$s.Save()"@
}

/// What to do so that the pet starts with the session, or no more.
pub enum TogglePlan {
    /// Remove the link.
    TurnOff { link: String },
    /// Make the directory, then the link.
    TurnOn { dir: String, command: ShellCommand },
}

/// What a plan holds.
pub enum ToggleModel {
    TurnOff { link: Seq<char> },
    TurnOn { dir: Seq<char>, command: CommandModel },
}

impl View for TogglePlan {
    type V = ToggleModel;

    open spec fn view(&self) -> ToggleModel {
        match self {
            TogglePlan::TurnOff { link } => ToggleModel::TurnOff { link: link@ },
            TogglePlan::TurnOn { dir, command } => ToggleModel::TurnOn {
                dir: dir@,
                command: command@,
            },
        }
    }
}

/// Finds the link that a toggle removes or makes.
pub fn toggle_link(appdata: &str) -> (r: String)
    ensures
        r@ == startup_link(appdata@),
{
    let mut link = toggle_dir(appdata);
    link.append("/Aemeath.lnk");
    link
}

fn toggle_dir(appdata: &str) -> (r: String)
    ensures
        r@ == startup_dir(appdata@),
{
    let mut dir = with_slashes(appdata);
    dir.append("/Microsoft/Windows/Start Menu/Programs/Startup");
    dir
}

/// Plans a toggle, and tells whether the pet starts with the session afterwards.
pub fn toggle_autostart(link_exists: bool, appdata: &str, exe: &str, current_dir: &str) -> (r: (
    TogglePlan,
    bool,
))
    ensures
        r.1 == !link_exists,
        r.0@ == if link_exists {
            ToggleModel::TurnOff { link: startup_link(appdata@) }
        } else {
            ToggleModel::TurnOn {
                dir: startup_dir(appdata@),
                command: powershell(
                    link_script(startup_link(appdata@), exe@, current_dir@),
                    0,
                ),
            }
        },
{
    let link = toggle_link(appdata);
    if link_exists {
        return (TogglePlan::TurnOff { link }, false);
    }
    let mut script = String::new();
    script.append("$ws=New-Object -ComObject WScript.Shell;$s=$ws.CreateShortcut('");
    script.append(link.as_str());
    script.append("');$s.TargetPath='");
    script.append(exe);
    script.append("';$s.WorkingDirectory='");
    script.append(current_dir);
    script.append("';$s.Save()");
    assert(script@ =~= link_script(link@, exe@, current_dir@));
    let command = powershell_command(script, 0);
    (TogglePlan::TurnOn { dir: toggle_dir(appdata), command }, true)
}

/// The link that is looked for is the link that is made and removed.
pub proof fn law_checked_link_is_toggled(appdata: Seq<char>)
    ensures
        slashed(appdata) + "/Microsoft/Windows/Start Menu/Programs/Startup/Aemeath.lnk"@
            == startup_link(appdata),
{
    reveal_strlit("/Microsoft/Windows/Start Menu/Programs/Startup/Aemeath.lnk");
    reveal_strlit("/Microsoft/Windows/Start Menu/Programs/Startup");
    reveal_strlit("/Aemeath.lnk");
    assert("/Microsoft/Windows/Start Menu/Programs/Startup/Aemeath.lnk"@
        =~= "/Microsoft/Windows/Start Menu/Programs/Startup"@ + "/Aemeath.lnk"@);
    assert(slashed(appdata) + ("/Microsoft/Windows/Start Menu/Programs/Startup"@ + "/Aemeath.lnk"@)
        =~= startup_link(appdata));
}

/// A path that is written with slashes holds no backslash.
pub proof fn law_no_backslash(path: Seq<char>)
    ensures
        !slashed(path).contains('\\'),
        slashed(path).len() == path.len(),
    decreases path.len(),
{
    reveal_strlit("/");
    if path.len() > 0 {
        law_no_backslash(path.drop_last());
        let before = slashed(path.drop_last());
        assert forall|i: int| 0 <= i < slashed(path).len() implies slashed(path)[i] != '\\' by {
            if i < before.len() {
                assert(before[i] == slashed(path)[i]);
                assert(before.contains(before[i]));
            }
        }
    }
}

/// Every backslash becomes a slash in its place, and nothing else changes.
pub proof fn law_slashed(path: Seq<char>, i: int)
    requires
        0 <= i < path.len(),
    ensures
        slashed(path).len() == path.len(),
        path[i] == '\\' ==> slashed(path)[i] == '/',
        path[i] != '\\' ==> slashed(path)[i] == path[i],
    decreases path.len(),
{
    reveal_strlit("/");
    law_no_backslash(path);
    law_no_backslash(path.drop_last());
    if i < path.len() - 1 {
        law_slashed(path.drop_last(), i);
    }
}

/// The link stands in the start-up directory under the application data, under its own name.
pub proof fn law_startup_paths(appdata: Seq<char>)
    ensures
        startup_dir(appdata) == slashed(appdata) + "/Microsoft/Windows/Start Menu/Programs/Startup"@,
        startup_link(appdata) == slashed(appdata)
            + "/Microsoft/Windows/Start Menu/Programs/Startup/Aemeath.lnk"@,
        startup_link(appdata) == startup_dir(appdata) + "/Aemeath.lnk"@,
{
    law_checked_link_is_toggled(appdata);
}

/// The script makes the link at its path, to the program, with the directory to work in; each is
/// written as it is.
pub proof fn law_link_script(link: Seq<char>, exe: Seq<char>, dir: Seq<char>)
    ensures
        link_script(link, exe, dir) == "$ws=New-Object -ComObject WScript.Shell;$s=$ws.CreateShortcut('"@
            + (link + ("');$s.TargetPath='"@ + (exe + ("';$s.WorkingDirectory='"@ + (dir
            + "';$s.Save()"@))))),
{
    assert(link_script(link, exe, dir)
        =~= "$ws=New-Object -ComObject WScript.Shell;$s=$ws.CreateShortcut('"@ + (link + (
    "');$s.TargetPath='"@ + (exe + ("';$s.WorkingDirectory='"@ + (dir + "';$s.Save()"@))))));
}

/// A plan is told with all it holds.
pub proof fn law_toggle_view(plan: TogglePlan)
    ensures
        plan matches TogglePlan::TurnOff { link } ==> plan@ == (ToggleModel::TurnOff { link: link@ }),
        plan matches TogglePlan::TurnOn { dir, command } ==> plan@ == (ToggleModel::TurnOn {
            dir: dir@,
            command: command@,
        }),
{
}

} // verus!
