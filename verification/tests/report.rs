use rights_guard::errors::{LaunchError, ValidationError};
use rights_guard::files::{
    find_extension_dot, get_app_file_path, relative_storage_path, stored_file_name,
    unique_file_name,
};
use rights_guard::locator::Platform;
use rights_guard::report::{
    check_automation_environment_public, force_needed, force_restart_report, CloseOutcome,
    ListingOutcome, Report, RestartObservations,
};
use rights_guard::text::chars_of;

#[test]
fn a_report_marks_its_lines() {
    let mut report = Report::new();
    assert_eq!(report.render(), "");
    report.ok("Database connection successful");
    report.failed("Basic query failed", "no such table");
    report.warning("slow disk");
    report.info("Database file does not exist yet");
    report.line(String::new());
    report.line("done".to_string());
    assert_eq!(
        report.render(),
        "✓ Database connection successful\n✗ Basic query failed: no such table\n⚠ slow disk\nℹ Database file does not exist yet\n\ndone"
    );
    assert_eq!(report.lines.len(), 6);
}

#[test]
fn on_windows_force_is_used_only_on_a_browser_that_still_runs() {
    assert!(force_needed(Platform::Windows, true));
    assert!(!force_needed(Platform::Windows, false));
    assert!(force_needed(Platform::Linux, false));
    assert!(force_needed(Platform::MacOs, true));
}

#[test]
fn the_restart_report_tells_what_was_seen() {
    let seen = RestartObservations {
        gentle: CloseOutcome::Succeeded,
        still_running: ListingOutcome::NotRunning,
        forced: None,
        running_at_end: false,
    };
    assert_eq!(
        force_restart_report(&seen, "chrome.exe --remote-debugging-port=9222"),
        "✓ Chrome was asked to close and did\n✓ all Chrome processes are closed\n✓ confirmed: no Chrome process runs\n\nChrome is closed. Start it again with this command:\n\nchrome.exe --remote-debugging-port=9222\n\nAfter the command has run, the connection is detected by itself."
    );
    let seen = RestartObservations {
        gentle: CloseOutcome::Rejected,
        still_running: ListingOutcome::Running,
        forced: Some(CloseOutcome::Unavailable("no taskkill".to_string())),
        running_at_end: true,
    };
    assert_eq!(
        force_restart_report(&seen, "c"),
        "⚠ Chrome did not close when asked; closing it by force\n✗ Chrome could not be closed by force: no taskkill\n⚠ some Chrome processes may still run\n\nChrome is closed. Start it again with this command:\n\nc\n\nAfter the command has run, the connection is detected by itself."
    );
    let seen = RestartObservations {
        gentle: CloseOutcome::Unavailable("x".to_string()),
        still_running: ListingOutcome::Unknown("no tasklist".to_string()),
        forced: Some(CloseOutcome::Succeeded),
        running_at_end: false,
    };
    let report = force_restart_report(&seen, "c");
    assert!(report.starts_with(
        "⚠ Chrome could not be asked to close; closing it by force\n✗ the Chrome processes could not be listed: no tasklist\n✓ all Chrome processes were closed by force\n✓ confirmed"
    ));
    let seen = RestartObservations {
        gentle: CloseOutcome::Succeeded,
        still_running: ListingOutcome::Running,
        forced: Some(CloseOutcome::Rejected),
        running_at_end: true,
    };
    assert!(force_restart_report(&seen, "c").contains("\n✗ Chrome could not be closed by force: \n"));
}

#[test]
fn the_environment_check_reports_ready() {
    assert_eq!(check_automation_environment_public(), "The environment check is ready.");
    assert_eq!(rights_guard::report::CACHE_CLEARED, "Database cache cleared successfully");
}

#[test]
fn a_taken_name_gets_the_instant_before_its_extension() {
    assert_eq!(unique_file_name("card.png", 1704164645), "card_1704164645.png");
    assert_eq!(unique_file_name("archive.tar.gz", 7), "archive.tar_7.gz");
    assert_eq!(unique_file_name("README", 7), "README_7");
    assert_eq!(unique_file_name(".hidden", 7), ".hidden_7");
    assert_eq!(unique_file_name("trailing.", 7), "trailing_7.");
    assert_eq!(unique_file_name("", 0), "_0");
    assert_eq!(unique_file_name("身份证.正面.jpg", 12), "身份证.正面_12.jpg");
    assert_eq!(stored_file_name("card.png", false, 5), "card.png");
    assert_eq!(stored_file_name("card.png", true, 5), "card_5.png");
}

#[test]
fn the_extension_dot_is_the_last_dot_that_is_not_the_first_character() {
    assert_eq!(find_extension_dot(&chars_of("a.b")), 1);
    assert_eq!(find_extension_dot(&chars_of("ab")), 2);
    assert_eq!(find_extension_dot(&chars_of(".ab")), 3);
    assert_eq!(find_extension_dot(&chars_of(".a.b")), 2);
    assert_eq!(find_extension_dot(&chars_of("a.b.c")), 3);
    assert_eq!(find_extension_dot(&chars_of("a")), 1);
    assert_eq!(find_extension_dot(&chars_of(".")), 1);
    assert_eq!(find_extension_dot(&chars_of("")), 0);
    for name in ["a.b", "ab", ".ab", ".a.b", "a.b.c", "noext", "x.tar.gz", "a."] {
        let dot = find_extension_dot(&chars_of(name));
        let path = std::path::Path::new(name);
        let stem = path.file_stem().unwrap().to_str().unwrap();
        assert_eq!(&name[..dot], stem);
    }
}

#[test]
fn a_copy_is_stored_below_files() {
    assert_eq!(
        relative_storage_path("profiles", "id_cards", "front.png"),
        "files/profiles/id_cards/front.png"
    );
    assert_eq!(
        get_app_file_path("C:\\data", "files/profiles/id_cards/front.png"),
        "C:\\data/files/profiles/id_cards/front.png"
    );
}

#[test]
fn every_error_has_its_message() {
    assert_eq!(
        ValidationError::MalformedFileList("EOF".to_string()).message(),
        "failed to parse the stored file list: EOF"
    );
    assert_eq!(
        ValidationError::NoIdentityDocuments.message(),
        "the profile holds no identity document; add the identity card photos to the profile first"
    );
    assert_eq!(
        ValidationError::MissingInfringingUrl.message(),
        "the request names no infringing address"
    );
    assert_eq!(
        LaunchError::NoHomeDirectory.message(),
        "the home directory of the user cannot be determined"
    );
    assert_eq!(
        LaunchError::BrowserNotFound.message(),
        "no Chrome executable was found in the usual install locations"
    );
    assert_eq!(
        LaunchError::KillFailed("denied".to_string()).message(),
        "the running Chrome could not be closed: denied"
    );
    assert_eq!(
        LaunchError::SpawnFailed("no exec".to_string()).message(),
        "Chrome could not be started: no exec"
    );
    assert_eq!(
        LaunchError::DebugPortTimeout(30).message(),
        "timeout: the debug port of Chrome did not open within 30 seconds"
    );
    assert_eq!(
        LaunchError::OutOfTurn.message(),
        "the browser session was told something out of turn"
    );
    let e = LaunchError::SpawnFailed("x".to_string());
    assert_eq!(e.duplicate(), e);
}
