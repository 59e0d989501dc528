use rights_guard::executor::{
    classify, engine_arguments, judge, EngineOutcome, ExecutionError, ExitReport, FailureCause,
    Strategy,
};
use rights_guard::settings::Settings;

fn exited(code: Option<i32>, stdout: &str, stderr: &str) -> EngineOutcome {
    EngineOutcome::Exited(ExitReport {
        exit_code: code,
        stdout: stdout.to_string(),
        stderr: stderr.to_string(),
    })
}

#[test]
fn the_ladder_goes_down_one_rung_at_a_time_and_ends() {
    assert_eq!(Strategy::first(), Strategy::Primary);
    assert_eq!(Strategy::Primary.next(), Some(Strategy::Simplified));
    assert_eq!(Strategy::Simplified.next(), Some(Strategy::ManualGuide));
    assert_eq!(Strategy::ManualGuide.next(), None);
    let mut seen = vec![Strategy::first()];
    while let Some(next) = seen.last().unwrap().next() {
        assert!(!seen.contains(&next));
        seen.push(next);
    }
    assert_eq!(seen.len(), 3);
}

#[test]
fn only_the_scripts_run_the_engine_and_only_the_full_one_uploads() {
    assert!(Strategy::Primary.runs_engine());
    assert!(Strategy::Simplified.runs_engine());
    assert!(!Strategy::ManualGuide.runs_engine());
    assert!(Strategy::Primary.uploads_files());
    assert!(!Strategy::Simplified.uploads_files());
    assert!(!Strategy::ManualGuide.uploads_files());
}

#[test]
fn classify_maps_the_signs_to_causes() {
    assert_eq!(classify("'npx' is not recognized as a command"), FailureCause::ToolNotFound);
    assert_eq!(classify("sh: npx: command not found"), FailureCause::ToolNotFound);
    assert_eq!(classify("spawn npx ENOENT"), FailureCause::ToolNotFound);
    assert_eq!(classify("Test timeout of 300000ms exceeded."), FailureCause::Timeout);
    assert_eq!(classify("page.goto: Timeout 60000ms exceeded"), FailureCause::Timeout);
    assert_eq!(classify("the operation timed out"), FailureCause::Timeout);
    assert_eq!(classify("EACCES: permission denied, open 'x'"), FailureCause::Permission);
    assert_eq!(classify("Access is denied."), FailureCause::Permission);
    assert_eq!(classify("connect ECONNREFUSED 127.0.0.1:9222"), FailureCause::Network);
    assert_eq!(classify("net::ERR_NAME_NOT_RESOLVED"), FailureCause::Network);
    assert_eq!(classify("Network is unreachable"), FailureCause::Network);
    assert_eq!(classify("TypeError: x is undefined"), FailureCause::Unknown);
    assert_eq!(classify(""), FailureCause::Unknown);
}

#[test]
fn classify_takes_the_first_cause_where_several_signs_occur() {
    assert_eq!(classify("network timeout"), FailureCause::Timeout);
    assert_eq!(classify("permission denied: file not found"), FailureCause::ToolNotFound);
    assert_eq!(classify("network: permission"), FailureCause::Permission);
}

#[test]
fn a_timeout_wins_over_the_words_of_a_search_that_found_nothing() {
    let stderr = "Error: Timed out 5000ms waiting for expect(locator).toBeVisible()\n  Expected: visible\n  Received: <element(s) not found>\n  Test timeout of 300000ms exceeded.";
    assert_eq!(classify(stderr), FailureCause::Timeout);
    assert_eq!(classify("TIMEOUT: 'npx' is not recognized"), FailureCause::Timeout);
    assert_eq!(classify("spawn ENOENT after timeout"), FailureCause::Timeout);
    assert_eq!(classify("Timed out; permission denied; network down"), FailureCause::Timeout);
    let e = judge(&exited(Some(1), "", stderr)).unwrap_err();
    assert_eq!(e.cause, FailureCause::Timeout);
    assert_eq!(e.exit_code, Some(1));
    assert_eq!(e.diagnostic, stderr);
    assert!(e.message().starts_with(
        "the automation ran into a timeout; check the network connection and complete the verification in time (exit code: 1): Error: Timed out 5000ms"
    ));
    assert!(!e.message().contains("install Node.js"));
}

#[test]
fn exit_code_zero_is_success_and_nothing_else_is() {
    assert_eq!(judge(&exited(Some(0), "ok", "warning: timeout soon")), Ok(()));
    assert!(judge(&exited(Some(1), "", "")).is_err());
    assert!(judge(&exited(Some(-1), "", "")).is_err());
    assert!(judge(&exited(None, "", "")).is_err());
    assert!(judge(&EngineOutcome::SpawnFailed("no such file".to_string())).is_err());
}

#[test]
fn a_failure_carries_the_error_stream_or_else_the_output() {
    assert_eq!(
        judge(&exited(Some(2), "some output", "boom")),
        Err(ExecutionError {
            cause: FailureCause::Unknown,
            exit_code: Some(2),
            diagnostic: "boom".to_string()
        })
    );
    assert_eq!(
        judge(&exited(Some(2), "Timeout in output", "  \n")),
        Err(ExecutionError {
            cause: FailureCause::Timeout,
            exit_code: Some(2),
            diagnostic: "Timeout in output".to_string()
        })
    );
    assert_eq!(
        judge(&EngineOutcome::SpawnFailed("program is missing".to_string())),
        Err(ExecutionError {
            cause: FailureCause::ToolNotFound,
            exit_code: None,
            diagnostic: "program is missing".to_string()
        })
    );
}

#[test]
fn a_timeout_in_the_error_stream_gives_a_message_about_network_and_timeout() {
    let e = judge(&exited(Some(1), "", "Error: page.goto: timeout 60000ms exceeded")).unwrap_err();
    assert_eq!(e.cause, FailureCause::Timeout);
    let message = e.message();
    assert_eq!(
        message,
        "the automation ran into a timeout; check the network connection and complete the verification in time (exit code: 1): Error: page.goto: timeout 60000ms exceeded"
    );
    assert!(message.contains("timeout"));
    assert!(message.contains("network"));
}

#[test]
fn every_cause_has_its_message() {
    let message = |cause: FailureCause, code: Option<i32>| {
        ExecutionError { cause, exit_code: code, diagnostic: "d".to_string() }.message()
    };
    assert_eq!(
        message(FailureCause::ToolNotFound, None),
        "the automation engine was not found; install Node.js and Playwright (exit code: none): d"
    );
    assert_eq!(
        message(FailureCause::Permission, Some(-13)),
        "the automation was denied permission; check the access rights of the files and of the browser (exit code: -13): d"
    );
    assert_eq!(
        message(FailureCause::Network, Some(255)),
        "the automation lost the network; check the connection and the debug port of the browser (exit code: 255): d"
    );
    assert_eq!(
        message(FailureCause::Unknown, Some(i32::MIN)),
        "the automation engine failed (exit code: -2147483648): d"
    );
    assert_eq!(FailureCause::Timeout.advice_text(), rights_guard::executor::ADVICE_TIMEOUT);
}

#[test]
fn the_engine_is_called_with_the_script_and_the_limit() {
    assert_eq!(
        engine_arguments("tests/temp_connect_script.spec.js", &Settings::default()),
        vec!["playwright", "test", "tests/temp_connect_script.spec.js", "--timeout=900000"]
    );
    let settings = Settings { engine_timeout_secs: u32::MAX, ..Settings::default() };
    assert_eq!(engine_arguments("s.js", &settings)[3], "--timeout=4294967295000");
}
