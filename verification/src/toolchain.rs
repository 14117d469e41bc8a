//! Installing the toolchains.
//!
//! The installation runs programs, talks to a release server and writes below the home
//! directory, none of which happens here. What is decided here is what to do next: a step
//! and the outcome of the step before it go in, the next action comes out. Whoever drives
//! the installation carries the action out and comes back with its outcome.

use vstd::prelude::*;
use vstd::string::StringExecFns;

verus! {

/// A program to run, with its arguments and, if it matters, the directory to run it in.
#[derive(Clone, Debug, PartialEq, Eq)]
pub struct Command {
    pub program: String,
    pub args: Vec<String>,
    pub directory: Option<String>,
}

/// The steps of the installation, in their order.
#[derive(Clone, Copy, Debug, PartialEq, Eq, Structural)]
pub enum InstallStep {
    /// Nothing has been done yet.
    Start,
    /// The bare-metal target is being added to the stock toolchain.
    AddTarget,
    /// The newest release of the toolchain is being looked up.
    FindRelease,
    /// The toolchain is being downloaded.
    Download,
    /// The download is being unpacked.
    Unpack,
    /// The unpacked toolchain is being linked.
    Link,
    /// The welcome is being shown.
    Welcome,
    /// Nothing is left to do.
    Done,
}

/// What came of the action that a step asked for.
#[derive(Clone, Debug, PartialEq, Eq)]
pub enum InstallEvent {
    /// The installation begins.
    Begun,
    /// A program has run: whether it succeeded, and what it wrote to its error stream.
    Ran { success: bool, errors: String },
    /// The release server has named its newest release.
    Release { tag: String },
    /// The download is on disk.
    Downloaded,
    /// The welcome has been shown.
    Shown,
}

/// What to do next.
#[derive(Clone, Debug, PartialEq, Eq)]
pub enum InstallAction {
    /// Run a program and come back with `InstallEvent::Ran`.
    Run(Command),
    /// Ask the release server at `url` for its newest release, as `user_agent`, and come
    /// back with the tag it names.
    FindRelease { url: String, user_agent: String },
    /// Fetch `url`, make sure `directory` exists, and write what was fetched to `file`.
    Download { url: String, directory: String, file: String },
    /// Show the welcome.
    Welcome,
    /// Stop: the installation is over.
    Finish,
}

/// The answer to one outcome: what to tell the user, if anything, what to do next, and the
/// step that this begins.
#[derive(Clone, Debug, PartialEq, Eq)]
pub struct InstallTurn {
    pub report: Option<String>,
    pub action: InstallAction,
    pub next: InstallStep,
}

/// The target that the guest is compiled for.
pub const NO_STD_TARGET: &'static str = "riscv32i-unknown-none-elf";

/// The name under which the toolchain is linked.
pub const TOOLCHAIN_NAME: &'static str = "riscv32i-jolt-zkvm-elf";

/// Where the release server tells of its newest release.
pub const RELEASES_URL: &'static str = "https://api.github.com/repos/a16z/rust/releases/latest";

/// The name under which the release server is asked.
pub const USER_AGENT: &'static str = "Mozilla/5.0";

/// The file that the toolchain is downloaded to, below the toolchain directory.
pub const ARCHIVE: &'static str = "rust-toolchain.tar.gz";

/// `head` followed by `tail`.
fn concat(head: &str, tail: &str) -> (whole: String)
    ensures
        whole@ == head@ + tail@,
{
    let mut whole = String::from_str(head);
    whole.append(tail);
    whole
}

/// Whether `command` runs `program` on the arguments `args` in `directory`.
pub open spec fn is_command(
    command: Command,
    program: Seq<char>,
    args: Seq<Seq<char>>,
    directory: Option<Seq<char>>,
) -> bool {
    &&& command.program@ == program
    &&& command.args@.len() == args.len()
    &&& forall|i: int| 0 <= i < args.len() ==> (#[trigger] command.args@[i])@ == args[i]
    &&& match (command.directory, directory) {
        (Some(have), Some(want)) => have@ == want,
        (None, None) => true,
        _ => false,
    }
}

/// The directory below `home` that the toolchain lives in.
pub open spec fn jolt_directory(home: Seq<char>) -> Seq<char> {
    home + "/.jolt"@
}

/// Adds the bare-metal target to the stock toolchain.
pub fn install_no_std_toolchain() -> (command: Command)
    ensures
        is_command(command, "rustup"@, seq!["target"@, "add"@, NO_STD_TARGET@], None),
{
    let mut args: Vec<String> = Vec::new();
    args.push(String::from_str("target"));
    args.push(String::from_str("add"));
    args.push(String::from_str(NO_STD_TARGET));
    Command { program: String::from_str("rustup"), args, directory: None }
}

/// Where the release `tag` of the toolchain for the machine `target` is downloaded from.
pub fn get_jolt_toolchain_url(tag: &str, target: &str) -> (url: String)
    ensures
        url@ == "https://github.com/a16z/rust/releases/download/"@ + tag@ + "/rust-toolchain-"@
            + target@ + ".tar.gz"@,
{
    let mut url = String::from_str("https://github.com/a16z/rust/releases/download/");
    url.append(tag);
    url.append("/rust-toolchain-");
    url.append(target);
    url.append(".tar.gz");
    url
}

/// Downloads the toolchain from `url` into the toolchain directory below `home`.
pub fn download_jolt_toolchain(home: &str, url: &str) -> (action: InstallAction)
    ensures
        action matches InstallAction::Download { url: from, directory, file } && from@ == url@
            && directory@ == jolt_directory(home@) && file@ == jolt_directory(home@) + "/"@
            + ARCHIVE@,
{
    let directory = concat(home, "/.jolt");
    let mut file = concat(home, "/.jolt");
    file.append("/");
    file.append(ARCHIVE);
    InstallAction::Download { url: String::from_str(url), directory, file }
}

/// Unpacks the downloaded toolchain, in the toolchain directory below `home`.
pub fn unpack_toolchain(home: &str) -> (command: Command)
    ensures
        is_command(command, "tar"@, seq!["-xzf"@, ARCHIVE@], Some(jolt_directory(home@))),
{
    let mut args: Vec<String> = Vec::new();
    args.push(String::from_str("-xzf"));
    args.push(String::from_str(ARCHIVE));
    Command { program: String::from_str("tar"), args, directory: Some(concat(home, "/.jolt")) }
}

/// Links the unpacked toolchain below `home` under its name.
pub fn link_toolchain(home: &str) -> (command: Command)
    ensures
        is_command(
            command,
            "rustup"@,
            seq![
                "toolchain"@,
                "link"@,
                TOOLCHAIN_NAME@,
                home@ + "/.jolt/rust/build/host/stage2"@,
            ],
            None,
        ),
{
    let mut args: Vec<String> = Vec::new();
    args.push(String::from_str("toolchain"));
    args.push(String::from_str("link"));
    args.push(String::from_str(TOOLCHAIN_NAME));
    args.push(concat(home, "/.jolt/rust/build/host/stage2"));
    Command { program: String::from_str("rustup"), args, directory: None }
}

/// Whether `report` is what the user is told of a program that has run: nothing if it
/// succeeded, and what it wrote to its error stream if it failed.
pub open spec fn is_failure_report(report: Option<String>, success: bool, errors: Seq<char>) -> bool {
    match report {
        None => success,
        Some(text) => !success && text@ == errors,
    }
}

/// What to tell the user of a program that has run: its error stream if it failed, and
/// nothing if it succeeded.
pub fn failure_report(success: bool, errors: &str) -> (report: Option<String>)
    ensures
        is_failure_report(report, success, errors@),
{
    if success {
        None
    } else {
        Some(String::from_str(errors))
    }
}

/// Whether `event` is an outcome that the step `step` can end in.
pub open spec fn answers(step: InstallStep, event: InstallEvent) -> bool {
    match step {
        InstallStep::Start => event is Begun,
        InstallStep::AddTarget => event is Ran,
        InstallStep::FindRelease => event is Release,
        InstallStep::Download => event is Downloaded,
        InstallStep::Unpack => event is Ran,
        InstallStep::Link => event is Ran,
        InstallStep::Welcome => event is Shown,
        InstallStep::Done => false,
    }
}

/// The step that follows `step`.
pub open spec fn following(step: InstallStep) -> InstallStep {
    match step {
        InstallStep::Start => InstallStep::AddTarget,
        InstallStep::AddTarget => InstallStep::FindRelease,
        InstallStep::FindRelease => InstallStep::Download,
        InstallStep::Download => InstallStep::Unpack,
        InstallStep::Unpack => InstallStep::Link,
        InstallStep::Link => InstallStep::Welcome,
        InstallStep::Welcome => InstallStep::Done,
        InstallStep::Done => InstallStep::Done,
    }
}

/// Whether the turn `turn` is the right answer to the outcome `event` of the step `step`,
/// for the home directory `home` on the machine `target`.
pub open spec fn is_turn(
    turn: InstallTurn,
    step: InstallStep,
    event: InstallEvent,
    home: Seq<char>,
    target: Seq<char>,
) -> bool {
    &&& turn.next == following(step)
    &&& match step {
        InstallStep::Start => {
            &&& turn.report is None
            &&& turn.action matches InstallAction::Run(command)
            &&& is_command(command, "rustup"@, seq!["target"@, "add"@, NO_STD_TARGET@], None)
        },
        InstallStep::AddTarget => {
            &&& turn.report is None
            &&& turn.action matches InstallAction::FindRelease { url, user_agent }
            &&& url@ == RELEASES_URL@
            &&& user_agent@ == USER_AGENT@
        },
        InstallStep::FindRelease => {
            &&& event matches InstallEvent::Release { tag }
            &&& turn.report matches Some(text)
            &&& text@ == "downloading toolchain..."@
            &&& turn.action matches InstallAction::Download { url, directory, file }
            &&& url@ == "https://github.com/a16z/rust/releases/download/"@ + tag@
                + "/rust-toolchain-"@ + target + ".tar.gz"@
            &&& directory@ == jolt_directory(home)
            &&& file@ == jolt_directory(home) + "/"@ + ARCHIVE@
        },
        InstallStep::Download => {
            &&& turn.report is None
            &&& turn.action matches InstallAction::Run(command)
            &&& is_command(command, "tar"@, seq!["-xzf"@, ARCHIVE@], Some(jolt_directory(home)))
        },
        InstallStep::Unpack => {
            &&& event matches InstallEvent::Ran { success, errors }
            &&& is_failure_report(turn.report, success, errors@)
            &&& turn.action matches InstallAction::Run(command)
            &&& is_command(
                command,
                "rustup"@,
                seq![
                    "toolchain"@,
                    "link"@,
                    TOOLCHAIN_NAME@,
                    home + "/.jolt/rust/build/host/stage2"@,
                ],
                None,
            )
        },
        InstallStep::Link => {
            &&& event matches InstallEvent::Ran { success, errors }
            &&& is_failure_report(turn.report, success, errors@)
            &&& turn.action is Welcome
        },
        InstallStep::Welcome => turn.report is None && turn.action is Finish,
        InstallStep::Done => turn.report is None && turn.action is Finish,
    }
}

/// One turn of the installation: given the step that has ended and how it ended, what to
/// do next. The steps run in one fixed order; a program that fails at unpacking or linking
/// is reported and the installation goes on, as it does when adding the target fails.
pub fn install_toolchains(step: InstallStep, event: &InstallEvent, home: &str, target: &str) -> (turn:
    InstallTurn)
    requires
        answers(step, *event),
    ensures
        is_turn(turn, step, *event, home@, target@),
{
    match step {
        InstallStep::Start => InstallTurn {
            report: None,
            action: InstallAction::Run(install_no_std_toolchain()),
            next: InstallStep::AddTarget,
        },
        InstallStep::AddTarget => InstallTurn {
            report: None,
            action: InstallAction::FindRelease {
                url: String::from_str(RELEASES_URL),
                user_agent: String::from_str(USER_AGENT),
            },
            next: InstallStep::FindRelease,
        },
        InstallStep::FindRelease => {
            match event {
                InstallEvent::Release { tag } => {
                    let url = get_jolt_toolchain_url(tag.as_str(), target);
                    InstallTurn {
                        report: Some(String::from_str("downloading toolchain...")),
                        action: download_jolt_toolchain(home, url.as_str()),
                        next: InstallStep::Download,
                    }
                },
                _ => InstallTurn {
                    report: None,
                    action: InstallAction::Finish,
                    next: InstallStep::Done,
                },
            }
        },
        InstallStep::Download => InstallTurn {
            report: None,
            action: InstallAction::Run(unpack_toolchain(home)),
            next: InstallStep::Unpack,
        },
        InstallStep::Unpack => {
            match event {
                InstallEvent::Ran { success, errors } => InstallTurn {
                    report: failure_report(*success, errors.as_str()),
                    action: InstallAction::Run(link_toolchain(home)),
                    next: InstallStep::Link,
                },
                _ => InstallTurn {
                    report: None,
                    action: InstallAction::Finish,
                    next: InstallStep::Done,
                },
            }
        },
        InstallStep::Link => {
            match event {
                InstallEvent::Ran { success, errors } => InstallTurn {
                    report: failure_report(*success, errors.as_str()),
                    action: InstallAction::Welcome,
                    next: InstallStep::Welcome,
                },
                _ => InstallTurn {
                    report: None,
                    action: InstallAction::Finish,
                    next: InstallStep::Done,
                },
            }
        },
        InstallStep::Welcome => InstallTurn {
            report: None,
            action: InstallAction::Finish,
            next: InstallStep::Done,
        },
        InstallStep::Done => InstallTurn {
            report: None,
            action: InstallAction::Finish,
            next: InstallStep::Done,
        },
    }
}

} // verus!
