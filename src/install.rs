use vstd::prelude::*;
use crate::host::HostOs;

verus! {

/// Where an installation stands between two commands.
#[derive(Clone, Copy, Debug, PartialEq, Eq, Structural)]
pub enum InstallStage {
    /// The artifact is being downloaded.
    Download,
    /// The launcher is being written (Windows) or the file made executable (elsewhere).
    Finalize,
    /// Nothing more is run.
    Finished,
}

/// Everything an installation needs between two commands.
pub struct InstallState {
    pub windows: bool,
    pub version: String,
    pub install_dir: String,
    pub stage: InstallStage,
}

/// A command for the host to run, with its arguments.
pub struct ExecCommand {
    pub command: String,
    pub args: Vec<String>,
}

/// What a command is, as text.
pub struct CommandView {
    pub command: Seq<char>,
    pub args: Seq<Seq<char>>,
}

impl View for ExecCommand {
    type V = CommandView;

    open spec fn view(&self) -> CommandView {
        CommandView { command: self.command@, args: self.args@.map_values(|a: String| a@) }
    }
}

/// The end result of one installation attempt.
pub struct InstallOutcome {
    pub installed: bool,
    pub error: Option<String>,
}

/// An outcome, with its message as text.
pub struct OutcomeView {
    pub installed: bool,
    pub error: Option<Seq<char>>,
}

impl View for InstallOutcome {
    type V = OutcomeView;

    open spec fn view(&self) -> OutcomeView {
        OutcomeView {
            installed: self.installed,
            error: match self.error {
                Some(e) => Some(e@),
                None => None,
            },
        }
    }
}

/// What the host is asked to do next.
pub enum InstallAction {
    Run(ExecCommand),
    Finish(InstallOutcome),
}

/// An action, with its command or outcome as text.
pub enum ActionView {
    Run(CommandView),
    Finish(OutcomeView),
}

impl View for InstallAction {
    type V = ActionView;

    open spec fn view(&self) -> ActionView {
        match self {
            InstallAction::Run(c) => ActionView::Run(c@),
            InstallAction::Finish(o) => ActionView::Finish(o@),
        }
    }
}

/// Where the artifact of a version is downloaded from.
pub open spec fn phar_url(version: Seq<char>) -> Seq<char> {
    "https://getcomposer.org/download/"@ + version + "/composer.phar"@
}

/// The downloaded archive on Windows.
pub open spec fn windows_phar_path(dir: Seq<char>) -> Seq<char> {
    dir + "\\composer.phar"@
}

/// The launcher script on Windows.
pub open spec fn windows_bat_path(dir: Seq<char>) -> Seq<char> {
    dir + "\\composer.bat"@
}

/// The downloaded executable elsewhere.
pub open spec fn unix_exe_path(dir: Seq<char>) -> Seq<char> {
    dir + "/composer"@
}

/// The command that downloads the artifact.
pub open spec fn download_command(windows: bool, version: Seq<char>, dir: Seq<char>) -> CommandView {
    if windows {
        CommandView {
            command: "powershell"@,
            args: seq![
                "-Command"@,
                "Invoke-WebRequest -Uri '"@ + phar_url(version) + "' -OutFile '"@
                    + windows_phar_path(dir) + "'"@,
            ],
        }
    } else {
        CommandView {
            command: "curl"@,
            args: seq!["-sSL"@, "-o"@, unix_exe_path(dir), phar_url(version)],
        }
    }
}

/// The command that makes the download runnable: a launcher on Windows, `chmod` elsewhere.
pub open spec fn finalize_command(windows: bool, dir: Seq<char>) -> CommandView {
    if windows {
        CommandView {
            command: "cmd"@,
            args: seq![
                "/c"@,
                "echo @php \"%~dp0composer.phar\" %*> \""@ + windows_bat_path(dir) + "\""@,
            ],
        }
    } else {
        CommandView { command: "chmod"@, args: seq!["+x"@, unix_exe_path(dir)] }
    }
}

/// The start of the error message when the command of a stage fails.
pub open spec fn failure_prefix(windows: bool, stage: InstallStage) -> Seq<char> {
    match stage {
        InstallStage::Download => "Failed to download composer.phar: "@,
        _ => if windows {
            "Failed to create composer.bat: "@
        } else {
            "Failed to chmod composer: "@
        },
    }
}

/// The stage after a command of `stage` exits with `exit_code`.
pub open spec fn next_stage(stage: InstallStage, exit_code: i32) -> InstallStage {
    if exit_code != 0 {
        InstallStage::Finished
    } else {
        match stage {
            InstallStage::Download => InstallStage::Finalize,
            _ => InstallStage::Finished,
        }
    }
}

/// What follows when the command of the state's stage exits with `exit_code`.
pub open spec fn next_action(s: InstallState, exit_code: i32, stderr: Seq<char>) -> ActionView {
    if exit_code != 0 {
        ActionView::Finish(
            OutcomeView {
                installed: false,
                error: Some(failure_prefix(s.windows, s.stage) + stderr),
            },
        )
    } else if s.stage == InstallStage::Download {
        ActionView::Run(finalize_command(s.windows, s.install_dir@))
    } else {
        ActionView::Finish(OutcomeView { installed: true, error: None })
    }
}

fn text(s: &str) -> (r: String)
    ensures
        r@ == s@,
{
    String::from_str(s)
}

fn download(windows: bool, version: &String, dir: &String) -> (r: ExecCommand)
    ensures
        r@ == download_command(windows, version@, dir@),
{
    let mut url = text("https://getcomposer.org/download/");
    url.append(version.as_str());
    url.append("/composer.phar");
    let mut args: Vec<String> = Vec::new();
    if windows {
        let mut fetch = text("Invoke-WebRequest -Uri '");
        fetch.append(url.as_str());
        fetch.append("' -OutFile '");
        let mut phar = text(dir.as_str());
        phar.append("\\composer.phar");
        fetch.append(phar.as_str());
        fetch.append("'");
        args.push(text("-Command"));
        args.push(fetch);
        let r = ExecCommand { command: text("powershell"), args };
        assert(r@.args =~= download_command(windows, version@, dir@).args);
        r
    } else {
        let mut target = text(dir.as_str());
        target.append("/composer");
        args.push(text("-sSL"));
        args.push(text("-o"));
        args.push(target);
        args.push(url);
        let r = ExecCommand { command: text("curl"), args };
        assert(r@.args =~= download_command(windows, version@, dir@).args);
        r
    }
}

fn finalize(windows: bool, dir: &String) -> (r: ExecCommand)
    ensures
        r@ == finalize_command(windows, dir@),
{
    let mut args: Vec<String> = Vec::new();
    if windows {
        let mut echo = text("echo @php \"%~dp0composer.phar\" %*> \"");
        let mut bat = text(dir.as_str());
        bat.append("\\composer.bat");
        echo.append(bat.as_str());
        echo.append("\"");
        args.push(text("/c"));
        args.push(echo);
        let r = ExecCommand { command: text("cmd"), args };
        assert(r@.args =~= finalize_command(windows, dir@).args);
        r
    } else {
        let mut target = text(dir.as_str());
        target.append("/composer");
        args.push(text("+x"));
        args.push(target);
        let r = ExecCommand { command: text("chmod"), args };
        assert(r@.args =~= finalize_command(windows, dir@).args);
        r
    }
}

/// Starts installing `version` into `install_dir`: the state to keep, and the
/// download command to run first.
pub fn native_install(os: HostOs, version: String, install_dir: String) -> (r: (
    InstallState,
    ExecCommand,
))
    ensures
        r.0.windows == (os == HostOs::Windows),
        r.0.version@ == version@,
        r.0.install_dir@ == install_dir@,
        r.0.stage == InstallStage::Download,
        r.1@ == download_command(os == HostOs::Windows, version@, install_dir@),
{
    let windows = os.is_windows();
    let command = download(windows, &version, &install_dir);
    (InstallState { windows, version, install_dir, stage: InstallStage::Download }, command)
}

/// Takes the exit code and error output of the command that the state's stage
/// ran, and gives the next state and what to do next. A failed command ends the
/// installation at once.
pub fn on_command_exit(state: InstallState, exit_code: i32, stderr: &str) -> (r: (
    InstallState,
    InstallAction,
))
    requires
        state.stage != InstallStage::Finished,
    ensures
        r.0.windows == state.windows,
        r.0.version@ == state.version@,
        r.0.install_dir@ == state.install_dir@,
        r.0.stage == next_stage(state.stage, exit_code),
        r.1@ == next_action(state, exit_code, stderr@),
        r.1 is Run <==> r.0.stage != InstallStage::Finished,
{
    if exit_code != 0 {
        let mut message = match state.stage {
            InstallStage::Download => text("Failed to download composer.phar: "),
            _ => if state.windows {
                text("Failed to create composer.bat: ")
            } else {
                text("Failed to chmod composer: ")
            },
        };
        message.append(stderr);
        let outcome = InstallOutcome { installed: false, error: Some(message) };
        (InstallState { stage: InstallStage::Finished, ..state }, InstallAction::Finish(outcome))
    } else {
        match state.stage {
            InstallStage::Download => {
                let command = finalize(state.windows, &state.install_dir);
                (
                    InstallState { stage: InstallStage::Finalize, ..state },
                    InstallAction::Run(command),
                )
            },
            _ => {
                let outcome = InstallOutcome { installed: true, error: None };
                (
                    InstallState { stage: InstallStage::Finished, ..state },
                    InstallAction::Finish(outcome),
                )
            },
        }
    }
}

/// A download that exits with a failure ends the installation: the next state
/// runs nothing more, and the outcome says that nothing was installed, with the
/// command's error output in its message.
pub proof fn lemma_failed_download_ends_install(s: InstallState, exit_code: i32, stderr: Seq<char>)
    requires
        s.stage == InstallStage::Download,
        exit_code != 0,
    ensures
        next_stage(s.stage, exit_code) == InstallStage::Finished,
        next_action(s, exit_code, stderr) == ActionView::Finish(
            OutcomeView {
                installed: false,
                error: Some("Failed to download composer.phar: "@ + stderr),
            },
        ),
{
}

} // verus!
