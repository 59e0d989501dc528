//! The process locator: where the browser and the script runner are looked
//! for, how the browser is started, and how a browser that is in the way is
//! found and closed.

use vstd::prelude::*;
use crate::bridge::home_dir;
use crate::errors::{LaunchError, LaunchErrorView};
use crate::files::{contains_path, first_present};
use crate::text::{
    chars_of, contains, contains_text, decimal_digits, decimal_of_u64, is_path_separator,
    string_of, string_views,
};

verus! {

/// The families of operating system that the tool runs on.
#[derive(Clone, Copy, Debug, PartialEq, Eq, Structural)]
pub enum Platform {
    Windows,
    MacOs,
    Linux,
}

// ---------------------------------------------------------------------------
// The browser
// ---------------------------------------------------------------------------

/// Chrome on Windows, installed for all users.
pub const CHROME_WINDOWS: &'static str =
    "C:\\Program Files\\Google\\Chrome\\Application\\chrome.exe";

/// Chrome on Windows, as a 32-bit program.
pub const CHROME_WINDOWS_X86: &'static str =
    "C:\\Program Files (x86)\\Google\\Chrome\\Application\\chrome.exe";

/// Chrome on macOS.
pub const CHROME_MACOS: &'static str =
    "/Applications/Google Chrome.app/Contents/MacOS/Google Chrome";

/// Chrome on Linux.
pub const CHROME_LINUX: &'static str = "/usr/bin/google-chrome";

/// Chrome on Linux, under the name of its stable channel.
pub const CHROME_LINUX_STABLE: &'static str = "/usr/bin/google-chrome-stable";

/// The install locations of the browser on a platform, in the order in which
/// they are tried.
pub open spec fn chrome_candidates_of(platform: Platform) -> Seq<Seq<char>> {
    match platform {
        Platform::Windows => seq![CHROME_WINDOWS@, CHROME_WINDOWS_X86@],
        Platform::MacOs => seq![CHROME_MACOS@],
        Platform::Linux => seq![CHROME_LINUX@, CHROME_LINUX_STABLE@],
    }
}

/// The install locations of the browser on a platform.
pub fn chrome_candidates(platform: Platform) -> (candidates: Vec<String>)
    ensures
        string_views(candidates@) == chrome_candidates_of(platform),
{
    let mut candidates: Vec<String> = Vec::new();
    match platform {
        Platform::Windows => {
            candidates.push(String::from_str(CHROME_WINDOWS));
            candidates.push(String::from_str(CHROME_WINDOWS_X86));
        },
        Platform::MacOs => {
            candidates.push(String::from_str(CHROME_MACOS));
        },
        Platform::Linux => {
            candidates.push(String::from_str(CHROME_LINUX));
            candidates.push(String::from_str(CHROME_LINUX_STABLE));
        },
    }
    assert(string_views(candidates@) =~= chrome_candidates_of(platform));
    candidates
}

/// The first of `candidates` that is among `present`.
pub fn first_existing(candidates: &Vec<String>, present: &Vec<String>) -> (r: Option<String>)
    ensures
        crate::models::opt_text(r) == first_present(
            string_views(candidates@),
            string_views(present@),
        ),
{
    let mut i: usize = 0;
    assert(string_views(candidates@).skip(0) =~= string_views(candidates@));
    while i < candidates.len()
        invariant
            i <= candidates.len(),
            first_present(string_views(candidates@), string_views(present@)) == first_present(
                string_views(candidates@).skip(i as int),
                string_views(present@),
            ),
        decreases candidates.len() - i,
    {
        proof {
            let rest = string_views(candidates@).skip(i as int);
            assert(rest[0] == candidates@[i as int]@);
            assert(rest.drop_first() =~= string_views(candidates@).skip(i + 1));
        }
        if contains_path(present, &candidates[i]) {
            return Some(candidates[i].clone());
        }
        i = i + 1;
    }
    None
}

/// The browser to start: the first install location that exists.
pub open spec fn chrome_executable_of(platform: Platform, present: Seq<Seq<char>>) -> Result<
    Seq<char>,
    LaunchErrorView,
> {
    match first_present(chrome_candidates_of(platform), present) {
        Some(path) => Ok(path),
        None => Err(LaunchErrorView::BrowserNotFound),
    }
}

/// Picks the browser to start. `present` holds the install locations that
/// were found to exist.
pub fn find_chrome_executable(platform: Platform, present: &Vec<String>) -> (r: Result<
    String,
    LaunchError,
>)
    ensures
        match r {
            Ok(path) => chrome_executable_of(platform, string_views(present@)) == Ok::<
                Seq<char>,
                LaunchErrorView,
            >(path@),
            Err(e) => chrome_executable_of(platform, string_views(present@)) == Err::<
                Seq<char>,
                LaunchErrorView,
            >(e@),
        },
{
    match first_existing(&chrome_candidates(platform), present) {
        Some(path) => Ok(path),
        None => Err(LaunchError::BrowserNotFound),
    }
}

// ---------------------------------------------------------------------------
// The script runner
// ---------------------------------------------------------------------------

/// The script runner on Windows.
pub const NPX_WINDOWS: &'static str = "C:\\Program Files\\nodejs\\npx.cmd";

/// The script runner on Windows, as a 32-bit program.
pub const NPX_WINDOWS_X86: &'static str = "C:\\Program Files (x86)\\nodejs\\npx.cmd";

/// The script runner as the search path gives it.
pub const NPX_ON_PATH: &'static str = "npx";

/// The option with which the script runner tells its version.
pub const NPX_VERSION_OPTION: &'static str = "--version";

/// The install locations of the script runner on a platform.
pub open spec fn npx_candidates_of(platform: Platform) -> Seq<Seq<char>> {
    match platform {
        Platform::Windows => seq![NPX_WINDOWS@, NPX_WINDOWS_X86@],
        _ => Seq::empty(),
    }
}

/// The install locations of the script runner on a platform.
pub fn npx_candidates(platform: Platform) -> (candidates: Vec<String>)
    ensures
        string_views(candidates@) == npx_candidates_of(platform),
{
    let mut candidates: Vec<String> = Vec::new();
    match platform {
        Platform::Windows => {
            candidates.push(String::from_str(NPX_WINDOWS));
            candidates.push(String::from_str(NPX_WINDOWS_X86));
        },
        _ => {},
    }
    assert(string_views(candidates@) =~= npx_candidates_of(platform));
    candidates
}

/// The script runner to call: the first install location that exists, else
/// the one on the search path where it answers, else none.
pub open spec fn npx_executable_of(
    platform: Platform,
    present: Seq<Seq<char>>,
    answers_on_path: bool,
) -> Option<Seq<char>> {
    match first_present(npx_candidates_of(platform), present) {
        Some(path) => Some(path),
        None => if answers_on_path {
            Some(NPX_ON_PATH@)
        } else {
            None
        },
    }
}

/// Picks the script runner to call. `present` holds the install locations
/// that were found to exist, and `answers_on_path` says whether the runner on
/// the search path told its version.
pub fn find_npx_executable(platform: Platform, present: &Vec<String>, answers_on_path: bool) -> (r:
    Option<String>)
    ensures
        crate::models::opt_text(r) == npx_executable_of(
            platform,
            string_views(present@),
            answers_on_path,
        ),
{
    match first_existing(&npx_candidates(platform), present) {
        Some(path) => Some(path),
        None => if answers_on_path {
            Some(String::from_str(NPX_ON_PATH))
        } else {
            None
        },
    }
}

// ---------------------------------------------------------------------------
// The profile directory
// ---------------------------------------------------------------------------

/// Where the browser keeps the profile of this tool on Windows, below the
/// home directory.
pub const PROFILE_DIR_WINDOWS: &'static str = "AppData\\Local\\RightsGuard\\ChromeProfile";

/// Where the browser keeps the profile of this tool on macOS.
pub const PROFILE_DIR_MACOS: &'static str =
    "Library/Application Support/RightsGuard/ChromeProfile";

/// Where the browser keeps the profile of this tool on Linux.
pub const PROFILE_DIR_LINUX: &'static str = ".config/rights-guard/chrome-profile";

impl Platform {
    /// What separates the components of a path on the platform.
    pub open spec fn separator(self) -> char {
        match self {
            Platform::Windows => '\\',
            _ => '/',
        }
    }

    /// The profile directory of this tool, relative to the home directory.
    pub open spec fn profile_dir(self) -> Seq<char> {
        match self {
            Platform::Windows => PROFILE_DIR_WINDOWS@,
            Platform::MacOs => PROFILE_DIR_MACOS@,
            Platform::Linux => PROFILE_DIR_LINUX@,
        }
    }

    /// The profile directory of this tool, relative to the home directory.
    pub fn profile_dir_text(self) -> (dir: &'static str)
        ensures
            dir@ == self.profile_dir(),
    {
        match self {
            Platform::Windows => PROFILE_DIR_WINDOWS,
            Platform::MacOs => PROFILE_DIR_MACOS,
            Platform::Linux => PROFILE_DIR_LINUX,
        }
    }
}

/// The profile directory of this tool for a user whose home is `home`: a
/// directory of its own, not the one that the user's browser works in.
pub open spec fn chrome_user_data_dir_of(home: Seq<char>, platform: Platform) -> Seq<char> {
    if home.len() == 0 || is_path_separator(home.last()) {
        home + platform.profile_dir()
    } else {
        home + seq![platform.separator()] + platform.profile_dir()
    }
}

/// The profile directory of this tool for a user whose home is `home`.
pub fn chrome_user_data_dir_under(home: &str, platform: Platform) -> (dir: String)
    ensures
        dir@ == chrome_user_data_dir_of(home@, platform),
{
    let chars = chars_of(home);
    let mut dir = String::from_str(home);
    if chars.len() > 0 && !(chars[chars.len() - 1] == '/' || chars[chars.len() - 1] == '\\') {
        match platform {
            Platform::Windows => dir.push('\\'),
            _ => dir.push('/'),
        }
        assert(dir@ =~= home@ + seq![platform.separator()]);
    }
    dir.append(platform.profile_dir_text());
    dir
}

/// The profile directory of this tool for the current user. Whether there
/// is a home directory is decided by the system; where there is one, the
/// result lies below it as `chrome_user_data_dir_of` says.
pub fn get_chrome_user_data_dir(platform: Platform) -> (r: Result<String, LaunchError>)
    ensures
        match r {
            Ok(dir) => exists|home: Seq<char>| dir@ == chrome_user_data_dir_of(home, platform),
            Err(e) => e@ == LaunchErrorView::NoHomeDirectory,
        },
{
    match home_dir() {
        Some(home) => {
            let dir = chrome_user_data_dir_under(home.as_str(), platform);
            assert(dir@ == chrome_user_data_dir_of(home@, platform));
            Ok(dir)
        },
        None => Err(LaunchError::NoHomeDirectory),
    }
}

// ---------------------------------------------------------------------------
// Starting the browser
// ---------------------------------------------------------------------------

/// The option that opens the debug endpoint, up to the port.
pub const OPTION_DEBUG_PORT: &'static str = "--remote-debugging-port=";

/// The option that names the profile directory, up to the directory.
pub const OPTION_USER_DATA_DIR: &'static str = "--user-data-dir=";

/// The option that skips the welcome of a new profile.
pub const OPTION_NO_FIRST_RUN: &'static str = "--no-first-run";

/// The option that skips the question about the default browser.
pub const OPTION_NO_DEFAULT_CHECK: &'static str = "--no-default-browser-check";

/// The arguments with which the browser is started: the debug port, the
/// profile directory of this tool, and no questions.
pub open spec fn browser_arguments_of(user_data_dir: Seq<char>, debug_port: u16) -> Seq<Seq<char>> {
    seq![
        OPTION_DEBUG_PORT@ + decimal_digits(debug_port as nat),
        OPTION_USER_DATA_DIR@ + user_data_dir,
        OPTION_NO_FIRST_RUN@,
        OPTION_NO_DEFAULT_CHECK@,
    ]
}

/// The arguments with which the browser is started.
pub fn browser_arguments(user_data_dir: &str, debug_port: u16) -> (arguments: Vec<String>)
    ensures
        string_views(arguments@) == browser_arguments_of(user_data_dir@, debug_port),
{
    let mut port = String::from_str(OPTION_DEBUG_PORT);
    port.append(string_of(&decimal_of_u64(debug_port as u64)).as_str());
    let mut dir = String::from_str(OPTION_USER_DATA_DIR);
    dir.append(user_data_dir);
    let mut arguments: Vec<String> = Vec::new();
    arguments.push(port);
    arguments.push(dir);
    arguments.push(String::from_str(OPTION_NO_FIRST_RUN));
    arguments.push(String::from_str(OPTION_NO_DEFAULT_CHECK));
    assert(string_views(arguments@) =~= browser_arguments_of(user_data_dir@, debug_port));
    arguments
}

/// The browser as a user calls it on Windows.
pub const LAUNCHER_WINDOWS: &'static str = "chrome.exe";

/// The browser as a user calls it on macOS, written for a shell.
pub const LAUNCHER_MACOS: &'static str =
    "/Applications/Google\\ Chrome.app/Contents/MacOS/Google\\ Chrome";

/// The browser as a user calls it on Linux.
pub const LAUNCHER_LINUX: &'static str = "google-chrome";

/// What follows the browser in the command that a user types, up to the port.
pub const LAUNCH_PORT: &'static str = " --remote-debugging-port=";

/// What follows the port in the command that a user types, up to the
/// profile directory.
pub const LAUNCH_DIR: &'static str = " --user-data-dir=\"";

/// The end of the command that a user types.
pub const LAUNCH_CLOSE: &'static str = "\"";

impl Platform {
    /// The browser as a user calls it.
    pub open spec fn launcher(self) -> Seq<char> {
        match self {
            Platform::Windows => LAUNCHER_WINDOWS@,
            Platform::MacOs => LAUNCHER_MACOS@,
            Platform::Linux => LAUNCHER_LINUX@,
        }
    }

    /// The browser as a user calls it.
    pub fn launcher_text(self) -> (launcher: &'static str)
        ensures
            launcher@ == self.launcher(),
    {
        match self {
            Platform::Windows => LAUNCHER_WINDOWS,
            Platform::MacOs => LAUNCHER_MACOS,
            Platform::Linux => LAUNCHER_LINUX,
        }
    }
}

/// The command with which a user starts the browser by hand.
pub open spec fn browser_launch_command_of(
    platform: Platform,
    user_data_dir: Seq<char>,
    debug_port: u16,
) -> Seq<char> {
    platform.launcher() + LAUNCH_PORT@ + decimal_digits(debug_port as nat) + LAUNCH_DIR@
        + user_data_dir + LAUNCH_CLOSE@
}

/// The command with which a user starts the browser by hand.
pub fn get_browser_launch_command(platform: Platform, user_data_dir: &str, debug_port: u16) -> (command:
    String)
    ensures
        command@ == browser_launch_command_of(platform, user_data_dir@, debug_port),
{
    let mut command = String::from_str(platform.launcher_text());
    command.append(LAUNCH_PORT);
    command.append(string_of(&decimal_of_u64(debug_port as u64)).as_str());
    command.append(LAUNCH_DIR);
    command.append(user_data_dir);
    command.append(LAUNCH_CLOSE);
    command
}

// ---------------------------------------------------------------------------
// The debug endpoint
// ---------------------------------------------------------------------------

/// The address of the debug endpoint, up to the port.
pub const DEBUG_HOST: &'static str = "127.0.0.1:";

/// The scheme of the debug endpoint.
pub const DEBUG_SCHEME: &'static str = "http://";

/// The page of the debug endpoint that tells the version of the browser.
pub const DEBUG_VERSION_PATH: &'static str = "/json/version";

/// The socket address of the debug endpoint.
pub open spec fn debug_address_of(debug_port: u16) -> Seq<char> {
    DEBUG_HOST@ + decimal_digits(debug_port as nat)
}

/// The address of the page that tells the version of the browser.
pub open spec fn debug_version_url_of(debug_port: u16) -> Seq<char> {
    DEBUG_SCHEME@ + debug_address_of(debug_port) + DEBUG_VERSION_PATH@
}

/// The socket address of the debug endpoint.
pub fn debug_address(debug_port: u16) -> (address: String)
    ensures
        address@ == debug_address_of(debug_port),
{
    let mut address = String::from_str(DEBUG_HOST);
    address.append(string_of(&decimal_of_u64(debug_port as u64)).as_str());
    address
}

/// The address of the page that tells the version of the browser.
pub fn debug_version_url(debug_port: u16) -> (url: String)
    ensures
        url@ == debug_version_url_of(debug_port),
{
    let mut url = String::from_str(DEBUG_SCHEME);
    url.append(debug_address(debug_port).as_str());
    url.append(DEBUG_VERSION_PATH);
    url
}

/// The debug endpoint counts as reachable where the port takes a connection
/// and the version page answers with success.
pub fn endpoint_reachable(port_connects: bool, version_page_answers: bool) -> (reachable: bool)
    ensures
        reachable == (port_connects && version_page_answers),
{
    port_connects && version_page_answers
}

// ---------------------------------------------------------------------------
// A browser that is in the way
// ---------------------------------------------------------------------------

/// The name of the browser among the processes of Windows.
pub const CHROME_IMAGE: &'static str = "chrome.exe";

/// The name of the browser among the processes of the other platforms.
pub const CHROME_PROCESS: &'static str = "chrome";

/// What the listing of processes said about the browser.
#[derive(Clone, Debug, PartialEq, Eq)]
pub struct ProcessListing {
    /// Whether the listing could be run at all.
    pub ran: bool,
    /// Whether the listing ended with success.
    pub succeeded: bool,
    /// What the listing wrote.
    pub output: String,
}

/// A browser runs: on Windows where the listing names its image, elsewhere
/// where the search for its process ended with success.
pub open spec fn chrome_is_running_by(platform: Platform, ran: bool, succeeded: bool, output: Seq<char>)
    -> bool {
    ran && match platform {
        Platform::Windows => contains_text(output, CHROME_IMAGE@),
        _ => succeeded,
    }
}

/// Tells from a listing of processes whether a browser runs.
pub fn is_chrome_running(platform: Platform, listing: &ProcessListing) -> (running: bool)
    ensures
        running == chrome_is_running_by(
            platform,
            listing.ran,
            listing.succeeded,
            listing.output@,
        ),
{
    if !listing.ran {
        return false;
    }
    match platform {
        Platform::Windows => contains(
            &chars_of(listing.output.as_str()),
            &chars_of(CHROME_IMAGE),
        ),
        _ => listing.succeeded,
    }
}

/// A program and the arguments with which it is called.
#[derive(Clone, Debug, PartialEq, Eq)]
pub struct CommandLine {
    pub program: String,
    pub arguments: Vec<String>,
}

/// A `CommandLine` as plain values.
pub struct CommandLineView {
    pub program: Seq<char>,
    pub arguments: Seq<Seq<char>>,
}

impl View for CommandLine {
    type V = CommandLineView;

    open spec fn view(&self) -> CommandLineView {
        CommandLineView { program: self.program@, arguments: string_views(self.arguments@) }
    }
}

/// The program that lists the processes of Windows.
pub const TASKLIST: &'static str = "tasklist";

/// The option of that program that filters the list.
pub const TASKLIST_FILTER: &'static str = "/FI";

/// The filter that keeps the browser.
pub const TASKLIST_CHROME: &'static str = "IMAGENAME eq chrome.exe";

/// The program that looks for a process by name.
pub const PGREP: &'static str = "pgrep";

/// The program that ends processes on Windows.
pub const TASKKILL: &'static str = "taskkill";

/// The option of that program that uses force.
pub const TASKKILL_FORCE: &'static str = "/F";

/// The option of that program that names the image.
pub const TASKKILL_IMAGE: &'static str = "/IM";

/// The program that ends processes by name.
pub const PKILL: &'static str = "pkill";

/// The signal that ends a process at once.
pub const SIGNAL_KILL: &'static str = "-KILL";

/// The signal that asks a process to end.
pub const SIGNAL_TERM: &'static str = "-TERM";

/// The command that tells whether a browser runs.
pub open spec fn chrome_listing_command_of(platform: Platform) -> CommandLineView {
    match platform {
        Platform::Windows => CommandLineView {
            program: TASKLIST@,
            arguments: seq![TASKLIST_FILTER@, TASKLIST_CHROME@],
        },
        _ => CommandLineView { program: PGREP@, arguments: seq![CHROME_PROCESS@] },
    }
}

/// The command that closes every browser, by force or by request.
pub open spec fn chrome_kill_command_of(platform: Platform, force: bool) -> CommandLineView {
    match platform {
        Platform::Windows => CommandLineView {
            program: TASKKILL@,
            arguments: if force {
                seq![TASKKILL_FORCE@, TASKKILL_IMAGE@, CHROME_IMAGE@]
            } else {
                seq![TASKKILL_IMAGE@, CHROME_IMAGE@]
            },
        },
        _ => CommandLineView {
            program: PKILL@,
            arguments: seq![
                if force {
                    SIGNAL_KILL@
                } else {
                    SIGNAL_TERM@
                },
                CHROME_PROCESS@,
            ],
        },
    }
}

/// The command that tells whether a browser runs.
pub fn chrome_listing_command(platform: Platform) -> (command: CommandLine)
    ensures
        command@ == chrome_listing_command_of(platform),
{
    let mut arguments: Vec<String> = Vec::new();
    let program = match platform {
        Platform::Windows => {
            arguments.push(String::from_str(TASKLIST_FILTER));
            arguments.push(String::from_str(TASKLIST_CHROME));
            String::from_str(TASKLIST)
        },
        _ => {
            arguments.push(String::from_str(CHROME_PROCESS));
            String::from_str(PGREP)
        },
    };
    let command = CommandLine { program, arguments };
    assert(command@.arguments =~= chrome_listing_command_of(platform).arguments);
    command
}

/// The command that closes every browser, by force or by request.
pub fn chrome_kill_command(platform: Platform, force: bool) -> (command: CommandLine)
    ensures
        command@ == chrome_kill_command_of(platform, force),
{
    let mut arguments: Vec<String> = Vec::new();
    let program = match platform {
        Platform::Windows => {
            if force {
                arguments.push(String::from_str(TASKKILL_FORCE));
            }
            arguments.push(String::from_str(TASKKILL_IMAGE));
            arguments.push(String::from_str(CHROME_IMAGE));
            String::from_str(TASKKILL)
        },
        _ => {
            if force {
                arguments.push(String::from_str(SIGNAL_KILL));
            } else {
                arguments.push(String::from_str(SIGNAL_TERM));
            }
            arguments.push(String::from_str(CHROME_PROCESS));
            String::from_str(PKILL)
        },
    };
    let command = CommandLine { program, arguments };
    assert(command@.arguments =~= chrome_kill_command_of(platform, force).arguments);
    command
}

/// What the browser is to the caller.
#[derive(Clone, Copy, Debug, PartialEq, Eq, Structural)]
pub enum ConnectionStatus {
    /// The debug endpoint answers.
    Connected,
    /// A browser runs, without a debug endpoint.
    RunningNoDebug,
    /// No browser runs.
    Disconnected,
}

/// The word for a browser whose debug endpoint answers.
pub const STATUS_CONNECTED: &'static str = "connected";

/// The word for a browser that runs without a debug endpoint.
pub const STATUS_RUNNING_NO_DEBUG: &'static str = "running_no_debug";

/// The word for no browser at all.
pub const STATUS_DISCONNECTED: &'static str = "disconnected";

impl ConnectionStatus {
    /// The word under which the status is reported.
    pub open spec fn label(self) -> Seq<char> {
        match self {
            ConnectionStatus::Connected => STATUS_CONNECTED@,
            ConnectionStatus::RunningNoDebug => STATUS_RUNNING_NO_DEBUG@,
            ConnectionStatus::Disconnected => STATUS_DISCONNECTED@,
        }
    }

    /// The word under which the status is reported.
    pub fn label_text(self) -> (label: &'static str)
        ensures
            label@ == self.label(),
    {
        match self {
            ConnectionStatus::Connected => STATUS_CONNECTED,
            ConnectionStatus::RunningNoDebug => STATUS_RUNNING_NO_DEBUG,
            ConnectionStatus::Disconnected => STATUS_DISCONNECTED,
        }
    }
}

/// What the browser is to the caller: an endpoint that answers decides; else
/// it counts whether a browser runs.
pub fn check_browser_connection_status(debug_endpoint_answers: bool, chrome_running: bool) -> (status:
    ConnectionStatus)
    ensures
        status == if debug_endpoint_answers {
            ConnectionStatus::Connected
        } else if chrome_running {
            ConnectionStatus::RunningNoDebug
        } else {
            ConnectionStatus::Disconnected
        },
{
    if debug_endpoint_answers {
        ConnectionStatus::Connected
    } else if chrome_running {
        ConnectionStatus::RunningNoDebug
    } else {
        ConnectionStatus::Disconnected
    }
}

} // verus!
