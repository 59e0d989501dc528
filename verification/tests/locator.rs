use rights_guard::errors::LaunchError;
use rights_guard::locator::{
    browser_arguments, check_browser_connection_status, chrome_candidates, chrome_kill_command,
    chrome_listing_command, chrome_user_data_dir_under, debug_address, debug_version_url,
    endpoint_reachable, find_chrome_executable, find_npx_executable, first_existing,
    get_browser_launch_command, get_chrome_user_data_dir, is_chrome_running, npx_candidates,
    CommandLine, ConnectionStatus, Platform, ProcessListing,
};

fn strings(items: &[&str]) -> Vec<String> {
    items.iter().map(|s| s.to_string()).collect()
}

const WIN: &str = "C:\\Program Files\\Google\\Chrome\\Application\\chrome.exe";
const WIN_X86: &str = "C:\\Program Files (x86)\\Google\\Chrome\\Application\\chrome.exe";

#[test]
fn each_platform_has_its_install_locations() {
    assert_eq!(chrome_candidates(Platform::Windows), strings(&[WIN, WIN_X86]));
    assert_eq!(
        chrome_candidates(Platform::MacOs),
        strings(&["/Applications/Google Chrome.app/Contents/MacOS/Google Chrome"])
    );
    assert_eq!(
        chrome_candidates(Platform::Linux),
        strings(&["/usr/bin/google-chrome", "/usr/bin/google-chrome-stable"])
    );
    assert_eq!(
        npx_candidates(Platform::Windows),
        strings(&["C:\\Program Files\\nodejs\\npx.cmd", "C:\\Program Files (x86)\\nodejs\\npx.cmd"])
    );
    assert!(npx_candidates(Platform::Linux).is_empty());
}

#[test]
fn the_first_install_location_that_exists_is_taken() {
    assert_eq!(find_chrome_executable(Platform::Windows, &strings(&[WIN_X86, WIN])), Ok(WIN.to_string()));
    assert_eq!(find_chrome_executable(Platform::Windows, &strings(&[WIN_X86])), Ok(WIN_X86.to_string()));
    assert_eq!(
        find_chrome_executable(Platform::Windows, &strings(&["/usr/bin/google-chrome"])),
        Err(LaunchError::BrowserNotFound)
    );
    assert_eq!(find_chrome_executable(Platform::Linux, &Vec::new()), Err(LaunchError::BrowserNotFound));
    assert_eq!(first_existing(&strings(&["a", "b"]), &strings(&["b", "a"])), Some("a".to_string()));
    assert_eq!(first_existing(&strings(&["a", "b"]), &strings(&["c"])), None);
}

#[test]
fn the_script_runner_falls_back_to_the_search_path() {
    let installed = strings(&["C:\\Program Files (x86)\\nodejs\\npx.cmd"]);
    assert_eq!(
        find_npx_executable(Platform::Windows, &installed, true),
        Some("C:\\Program Files (x86)\\nodejs\\npx.cmd".to_string())
    );
    assert_eq!(find_npx_executable(Platform::Windows, &Vec::new(), true), Some("npx".to_string()));
    assert_eq!(find_npx_executable(Platform::Windows, &Vec::new(), false), None);
    assert_eq!(find_npx_executable(Platform::Linux, &installed, true), Some("npx".to_string()));
    assert_eq!(find_npx_executable(Platform::Linux, &installed, false), None);
}

#[test]
fn the_profile_directory_lies_below_the_home_directory() {
    assert_eq!(
        chrome_user_data_dir_under("C:\\Users\\me", Platform::Windows),
        "C:\\Users\\me\\AppData\\Local\\RightsGuard\\ChromeProfile"
    );
    assert_eq!(
        chrome_user_data_dir_under("C:\\Users\\me\\", Platform::Windows),
        "C:\\Users\\me\\AppData\\Local\\RightsGuard\\ChromeProfile"
    );
    assert_eq!(
        chrome_user_data_dir_under("/Users/me", Platform::MacOs),
        "/Users/me/Library/Application Support/RightsGuard/ChromeProfile"
    );
    assert_eq!(
        chrome_user_data_dir_under("/home/me", Platform::Linux),
        "/home/me/.config/rights-guard/chrome-profile"
    );
    assert_eq!(
        chrome_user_data_dir_under("", Platform::Linux),
        ".config/rights-guard/chrome-profile"
    );
}

#[test]
fn the_profile_directory_of_the_current_user_ends_as_the_platform_says() {
    match get_chrome_user_data_dir(Platform::Linux) {
        Ok(dir) => {
            assert!(dir.ends_with(".config/rights-guard/chrome-profile"));
            assert!(dir.len() > ".config/rights-guard/chrome-profile".len());
        }
        Err(e) => assert_eq!(e, LaunchError::NoHomeDirectory),
    }
}

#[test]
fn the_browser_is_started_with_four_arguments() {
    assert_eq!(
        browser_arguments("/home/me/profile dir", 9222),
        strings(&[
            "--remote-debugging-port=9222",
            "--user-data-dir=/home/me/profile dir",
            "--no-first-run",
            "--no-default-browser-check",
        ])
    );
    assert_eq!(browser_arguments("d", 1)[0], "--remote-debugging-port=1");
    assert_eq!(browser_arguments("d", u16::MAX)[0], "--remote-debugging-port=65535");
}

#[test]
fn the_command_for_the_user_quotes_the_profile_directory() {
    assert_eq!(
        get_browser_launch_command(Platform::Windows, "C:\\p", 9222),
        "chrome.exe --remote-debugging-port=9222 --user-data-dir=\"C:\\p\""
    );
    assert_eq!(
        get_browser_launch_command(Platform::MacOs, "/p", 9222),
        "/Applications/Google\\ Chrome.app/Contents/MacOS/Google\\ Chrome --remote-debugging-port=9222 --user-data-dir=\"/p\""
    );
    assert_eq!(
        get_browser_launch_command(Platform::Linux, "/p", 9333),
        "google-chrome --remote-debugging-port=9333 --user-data-dir=\"/p\""
    );
}

#[test]
fn the_debug_endpoint_has_its_address() {
    assert_eq!(debug_address(9222), "127.0.0.1:9222");
    assert_eq!(debug_version_url(9222), "http://127.0.0.1:9222/json/version");
    assert!(endpoint_reachable(true, true));
    assert!(!endpoint_reachable(true, false));
    assert!(!endpoint_reachable(false, true));
    assert!(!endpoint_reachable(false, false));
}

#[test]
fn a_running_browser_is_told_from_the_listing() {
    let listing = |ran, succeeded, output: &str| ProcessListing { ran, succeeded, output: output.to_string() };
    assert!(is_chrome_running(Platform::Windows, &listing(true, true, "chrome.exe   1234 Console")));
    assert!(!is_chrome_running(Platform::Windows, &listing(true, true, "INFO: No tasks are running")));
    assert!(!is_chrome_running(Platform::Windows, &listing(false, true, "chrome.exe")));
    assert!(is_chrome_running(Platform::Linux, &listing(true, true, "")));
    assert!(!is_chrome_running(Platform::Linux, &listing(true, false, "chrome.exe")));
    assert!(!is_chrome_running(Platform::MacOs, &listing(false, true, "")));
}

#[test]
fn the_commands_for_listing_and_closing_follow_the_platform() {
    assert_eq!(
        chrome_listing_command(Platform::Windows),
        CommandLine { program: "tasklist".to_string(), arguments: strings(&["/FI", "IMAGENAME eq chrome.exe"]) }
    );
    assert_eq!(
        chrome_listing_command(Platform::Linux),
        CommandLine { program: "pgrep".to_string(), arguments: strings(&["chrome"]) }
    );
    assert_eq!(
        chrome_kill_command(Platform::Windows, true),
        CommandLine { program: "taskkill".to_string(), arguments: strings(&["/F", "/IM", "chrome.exe"]) }
    );
    assert_eq!(
        chrome_kill_command(Platform::Windows, false),
        CommandLine { program: "taskkill".to_string(), arguments: strings(&["/IM", "chrome.exe"]) }
    );
    assert_eq!(
        chrome_kill_command(Platform::MacOs, true),
        CommandLine { program: "pkill".to_string(), arguments: strings(&["-KILL", "chrome"]) }
    );
    assert_eq!(
        chrome_kill_command(Platform::Linux, false),
        CommandLine { program: "pkill".to_string(), arguments: strings(&["-TERM", "chrome"]) }
    );
}

#[test]
fn the_connection_status_has_three_values() {
    assert_eq!(check_browser_connection_status(true, true), ConnectionStatus::Connected);
    assert_eq!(check_browser_connection_status(true, false), ConnectionStatus::Connected);
    assert_eq!(check_browser_connection_status(false, true), ConnectionStatus::RunningNoDebug);
    assert_eq!(check_browser_connection_status(false, false), ConnectionStatus::Disconnected);
    assert_eq!(ConnectionStatus::Connected.label_text(), "connected");
    assert_eq!(ConnectionStatus::RunningNoDebug.label_text(), "running_no_debug");
    assert_eq!(ConnectionStatus::Disconnected.label_text(), "disconnected");
}
