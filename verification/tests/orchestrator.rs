use rights_guard::executor::{EngineOutcome, ExitReport, Strategy};
use rights_guard::gate::{GatePhase, WaitOutcome};
use rights_guard::locator::Platform;
use rights_guard::models::{AutomationRequest, AutomationStatus, IpAsset, Profile, Timestamp};
use rights_guard::orchestrator::{
    case_record, continue_after_verification, get_automation_status, start_automation,
    stop_automation, Orchestrator, RunAction, RunEvent, RunPhase, StartError, StopAction,
};
use rights_guard::script::render_script;
use rights_guard::session::{SessionAction, SessionEvent, SessionPhase};
use rights_guard::settings::Settings;

fn strings(items: &[&str]) -> Vec<String> {
    items.iter().map(|s| s.to_string()).collect()
}

fn now() -> Timestamp {
    Timestamp { seconds: 1_704_164_645, nanos: 7 }
}

fn orchestrator() -> Orchestrator {
    Orchestrator::new(Platform::Windows, Settings::default(), Some("C:\\data".to_string()))
}

fn profile(files: Option<&str>) -> Profile {
    Profile {
        name: "Wei".to_string(),
        phone: "138".to_string(),
        email: "w@example.com".to_string(),
        id_card_number: "1101".to_string(),
        id_card_files: files.map(|f| f.to_string()),
        ..Profile::default()
    }
}

fn request(asset: Option<u128>) -> AutomationRequest {
    AutomationRequest {
        infringing_url: "https://example.com/clip/1".to_string(),
        original_url: Some("https://example.com/mine".to_string()),
        ip_asset_id: asset,
    }
}

fn failed(stderr: &str) -> RunEvent {
    RunEvent::StrategyFinished(EngineOutcome::Exited(ExitReport {
        exit_code: Some(1),
        stdout: String::new(),
        stderr: stderr.to_string(),
    }))
}

fn succeeded() -> RunEvent {
    RunEvent::StrategyFinished(EngineOutcome::Exited(ExitReport {
        exit_code: Some(0),
        stdout: "1 passed".to_string(),
        stderr: String::new(),
    }))
}

/// Drives a run up to the first strategy, over a browser whose debug port
/// answers at once.
fn at_primary(o: &mut Orchestrator) -> (u64, RunAction) {
    let ticket = o.start(request(None), now()).unwrap();
    let run = ticket.run;
    assert_eq!(ticket.action, RunAction::LoadProfile);
    let probe = o.advance(run, RunEvent::ProfileLoaded(Some(profile(Some("files/id/front.png")))));
    assert_eq!(probe, RunAction::ProbeFiles(strings(&["C:\\data/files/id/front.png"])));
    let session =
        o.advance(run, RunEvent::FilesProbed(strings(&["C:\\data/files/id/front.png"])));
    assert_eq!(session, RunAction::Session(SessionAction::Probe { delay_ms: 0 }));
    let engine = o.advance(run, RunEvent::Session(SessionEvent::Reachable(true)));
    (run, engine)
}

#[test]
fn a_new_orchestrator_is_idle() {
    let o = orchestrator();
    assert_eq!(o.status(), AutomationStatus::idle());
    assert!(!o.is_running());
    assert_eq!(o.phase(), RunPhase::Idle);
    assert_eq!(o.gate().phase, GatePhase::Reset);
    assert_eq!(o.session().phase, SessionPhase::Idle);
    assert_eq!(o.current_run(), 0);
}

#[test]
fn start_sets_the_status_to_initializing() {
    let mut o = orchestrator();
    let ticket = o.start(request(None), now()).unwrap();
    assert_eq!(ticket.run, 1);
    assert_eq!(ticket.action, RunAction::LoadProfile);
    assert_eq!(
        o.status(),
        AutomationStatus {
            is_running: true,
            current_step: Some("initializing".to_string()),
            progress: Some(0),
            error: None,
            started_at: Some(now()),
        }
    );
    assert_eq!(o.phase(), RunPhase::LoadingProfile);
}

#[test]
fn a_second_start_is_turned_down_and_changes_nothing() {
    let mut o = orchestrator();
    let (run, _) = at_primary(&mut o);
    let status = o.status();
    let phase = o.phase();
    let session = o.session();
    let later = Timestamp { seconds: 2_000_000_000, nanos: 0 };
    assert_eq!(o.start(request(Some(5)), later), Err(StartError::AlreadyRunning));
    assert_eq!(o.start(request(None), later), Err(StartError::AlreadyRunning));
    assert_eq!(o.status(), status);
    assert_eq!(o.phase(), phase);
    assert_eq!(o.session(), session);
    assert_eq!(o.current_run(), run);
    assert_eq!(StartError::AlreadyRunning.message(), "an automation run is in progress already");
    assert_eq!(o.advance(run, succeeded()), RunAction::RecordCase(case_record(&request(None))));
}

#[test]
fn a_run_goes_from_the_profile_to_the_record() {
    let mut o = orchestrator();
    let (run, engine) = at_primary(&mut o);
    match &engine {
        RunAction::RunEngine { strategy, script, arguments } => {
            assert_eq!(*strategy, Strategy::Primary);
            assert!(script.contains("const idCardFiles = [\"C:\\\\data\\\\files\\\\id\\\\front.png\"];"));
            assert!(script.contains(".fill(\"https://example.com/clip/1\");"));
            assert_eq!(
                arguments,
                &strings(&["playwright", "test", "tests/temp_connect_script.spec.js", "--timeout=900000"])
            );
        }
        other => panic!("unexpected: {:?}", other),
    }
    assert_eq!(o.phase(), RunPhase::Engine(Strategy::Primary));
    assert_eq!(o.status().current_step, Some("running workflow".to_string()));
    assert_eq!(o.status().progress, Some(35));
    let record = o.advance(run, succeeded());
    match &record {
        RunAction::RecordCase(case) => {
            assert_eq!(case.infringing_url, "https://example.com/clip/1");
            assert_eq!(case.original_url, Some("https://example.com/mine".to_string()));
            assert_eq!(case.associated_ip_id, None);
            assert_eq!(case.status, "已提交");
        }
        other => panic!("unexpected: {:?}", other),
    }
    assert_eq!(o.status().progress, Some(90));
    assert!(o.is_running());
    let finish = o.advance(run, RunEvent::CaseRecorded(None));
    assert_eq!(finish, RunAction::Finish { release_browser: false });
    assert_eq!(
        o.status(),
        AutomationStatus {
            is_running: false,
            current_step: Some("completed".to_string()),
            progress: Some(100),
            error: None,
            started_at: Some(now()),
        }
    );
    assert_eq!(o.phase(), RunPhase::Idle);
}

#[test]
fn a_run_with_an_asset_loads_it_and_generates_four_stages() {
    let mut o = orchestrator();
    let ticket = o.start(request(Some(42)), now()).unwrap();
    let run = ticket.run;
    assert_eq!(
        o.advance(run, RunEvent::ProfileLoaded(Some(profile(Some("C:\\id\\front.png"))))),
        RunAction::LoadAsset(42)
    );
    let asset = IpAsset {
        owner: "Studio".to_string(),
        auth_files: Some("files/auth.pdf".to_string()),
        ..IpAsset::default()
    };
    let probe = o.advance(run, RunEvent::AssetLoaded(Some(asset)));
    assert_eq!(
        probe,
        RunAction::ProbeFiles(strings(&[
            "C:\\id\\front.png",
            "C:\\data/files/ip_assets/auth_docs/front.png",
            "C:\\data/files/ip_assets/proof_docs/front.png",
            "C:\\data/files/profiles/id_cards/front.png",
            "C:\\data/files/auth.pdf",
        ]))
    );
    assert_eq!(o.status().current_step, Some("generating workflow".to_string()));
    assert_eq!(o.status().progress, Some(10));
    let present = strings(&["C:\\id\\front.png", "C:\\data/files/auth.pdf"]);
    assert_eq!(
        o.advance(run, RunEvent::FilesProbed(present)),
        RunAction::Session(SessionAction::Probe { delay_ms: 0 })
    );
    assert_eq!(o.status().current_step, Some("starting browser".to_string()));
    assert_eq!(o.status().progress, Some(25));
    match o.advance(run, RunEvent::Session(SessionEvent::Reachable(true))) {
        RunAction::RunEngine { script, .. } => {
            assert!(script.contains("fill(\"Studio\");"));
            assert!(script.contains("const authFiles = [\"C:\\\\data\\\\files\\\\auth.pdf\"];"));
        }
        other => panic!("unexpected: {:?}", other),
    }
}

#[test]
fn a_missing_profile_ends_the_run() {
    let mut o = orchestrator();
    let run = o.start(request(None), now()).unwrap().run;
    assert_eq!(
        o.advance(run, RunEvent::ProfileLoaded(None)),
        RunAction::Finish { release_browser: false }
    );
    let status = o.status();
    assert!(!status.is_running);
    assert_eq!(status.current_step, Some("failed".to_string()));
    assert_eq!(status.error, Some("the run failed: no profile is configured".to_string()));
    assert_eq!(status.progress, Some(0));
}

#[test]
fn a_missing_asset_ends_the_run() {
    let mut o = orchestrator();
    let run = o.start(request(Some(9)), now()).unwrap().run;
    o.advance(run, RunEvent::ProfileLoaded(Some(profile(Some("files/a.png")))));
    assert_eq!(
        o.advance(run, RunEvent::AssetLoaded(None)),
        RunAction::Finish { release_browser: false }
    );
    assert_eq!(
        o.status().error,
        Some("the run failed: the asset that the request names was not found".to_string())
    );
}

#[test]
fn a_profile_without_identity_documents_fails_before_the_browser_is_touched() {
    for files in [None, Some(""), Some("files/id/front.png")] {
        let mut o = orchestrator();
        let run = o.start(request(None), now()).unwrap().run;
        let mut actions = Vec::new();
        actions.push(o.advance(run, RunEvent::ProfileLoaded(Some(profile(files)))));
        actions.push(o.advance(run, RunEvent::FilesProbed(Vec::new())));
        assert_eq!(actions[1], RunAction::Finish { release_browser: false });
        for action in &actions {
            assert!(!matches!(
                action,
                RunAction::Session(_) | RunAction::RunEngine { .. } | RunAction::ShowGuide { .. }
            ));
        }
        assert_eq!(o.session().phase, SessionPhase::Idle);
        assert!(!o.session().owns_process);
        assert_eq!(
            o.status().error,
            Some(
                "the run failed: the profile holds no identity document; add the identity card photos to the profile first"
                    .to_string()
            )
        );
    }
}

#[test]
fn a_malformed_file_list_fails_before_the_files_are_looked_at() {
    let mut o = orchestrator();
    let run = o.start(request(None), now()).unwrap().run;
    assert_eq!(
        o.advance(run, RunEvent::ProfileLoaded(Some(profile(Some("[\"a\""))))),
        RunAction::Finish { release_browser: false }
    );
    let error = o.status().error.unwrap();
    assert!(error.starts_with("the run failed: failed to parse the stored file list: "));
}

#[test]
fn a_failed_primary_strategy_with_a_timeout_tries_the_next_rung_once() {
    let mut o = orchestrator();
    let (run, _) = at_primary(&mut o);
    let next = o.advance(run, failed("Error: Test timeout of 300000ms exceeded."));
    match &next {
        RunAction::RunEngine { strategy, script, .. } => {
            assert_eq!(*strategy, Strategy::Simplified);
            assert!(!script.contains("setInputFiles"));
        }
        other => panic!("unexpected: {:?}", other),
    }
    assert_eq!(o.phase(), RunPhase::Engine(Strategy::Simplified));
    assert_eq!(o.status().current_step, Some("running simplified workflow".to_string()));
    assert_eq!(o.status().progress, Some(50));
    assert!(o.is_running());
    let next = o.advance(run, failed("Error: Test timeout of 300000ms exceeded."));
    match &next {
        RunAction::ShowGuide { url, guide } => {
            assert_eq!(url, "https://www.bilibili.com/v/copyright/apply?origin=home");
            assert!(guide.contains("- Real name: Wei\n"));
        }
        other => panic!("unexpected: {:?}", other),
    }
    assert_eq!(o.phase(), RunPhase::Engine(Strategy::ManualGuide));
    let end = o.advance(run, failed("Error: Test timeout of 300000ms exceeded."));
    assert_eq!(end, RunAction::Finish { release_browser: false });
    let status = o.status();
    assert!(!status.is_running);
    assert_eq!(status.current_step, Some("failed".to_string()));
    assert_eq!(
        status.error,
        Some(
            "the run failed: the automation ran into a timeout; check the network connection and complete the verification in time (exit code: 1): Error: Test timeout of 300000ms exceeded."
                .to_string()
        )
    );
    assert_eq!(status.progress, Some(65));
}

#[test]
fn a_lower_rung_that_succeeds_completes_the_run() {
    let mut o = orchestrator();
    let (run, _) = at_primary(&mut o);
    o.advance(run, failed("boom"));
    assert!(matches!(o.advance(run, succeeded()), RunAction::RecordCase(_)));
    assert_eq!(o.advance(run, RunEvent::CaseRecorded(None)), RunAction::Finish { release_browser: false });
    assert_eq!(o.status().progress, Some(100));
    assert_eq!(o.status().error, None);
}

#[test]
fn an_engine_that_cannot_be_started_counts_as_a_failure_of_the_rung() {
    let mut o = orchestrator();
    let (run, _) = at_primary(&mut o);
    let next = o.advance(
        run,
        RunEvent::StrategyFinished(EngineOutcome::SpawnFailed("npx missing".to_string())),
    );
    assert!(matches!(next, RunAction::RunEngine { strategy: Strategy::Simplified, .. }));
}

#[test]
fn a_browser_that_was_started_is_handed_out_when_the_run_ends() {
    let mut o = orchestrator();
    let run = o.start(request(None), now()).unwrap().run;
    o.advance(run, RunEvent::ProfileLoaded(Some(profile(Some("C:\\id\\front.png")))));
    o.advance(run, RunEvent::FilesProbed(strings(&["C:\\id\\front.png"])));
    assert_eq!(
        o.advance(run, RunEvent::Session(SessionEvent::Reachable(false))),
        RunAction::Session(SessionAction::CheckStray)
    );
    assert!(matches!(
        o.advance(run, RunEvent::Session(SessionEvent::StrayBrowser(false))),
        RunAction::Session(SessionAction::Locate { .. })
    ));
    assert!(matches!(
        o.advance(
            run,
            RunEvent::Session(SessionEvent::Located {
                program: Some("C:\\chrome.exe".to_string()),
                user_data_dir: Some("C:\\profile".to_string())
            })
        ),
        RunAction::Session(SessionAction::Spawn { .. })
    ));
    assert_eq!(
        o.advance(run, RunEvent::Session(SessionEvent::Spawned(None))),
        RunAction::Session(SessionAction::Probe { delay_ms: 0 })
    );
    assert!(o.session().owns_process);
    assert!(matches!(
        o.advance(run, RunEvent::Session(SessionEvent::Reachable(true))),
        RunAction::RunEngine { .. }
    ));
    o.advance(run, succeeded());
    assert_eq!(
        o.advance(run, RunEvent::CaseRecorded(None)),
        RunAction::Finish { release_browser: true }
    );
    assert!(!o.session().owns_process);
}

#[test]
fn a_debug_port_that_never_opens_ends_the_run_and_hands_the_browser_out() {
    let mut o = orchestrator();
    let run = o.start(request(None), now()).unwrap().run;
    o.advance(run, RunEvent::ProfileLoaded(Some(profile(Some("C:\\id\\front.png")))));
    o.advance(run, RunEvent::FilesProbed(strings(&["C:\\id\\front.png"])));
    o.advance(run, RunEvent::Session(SessionEvent::Reachable(false)));
    o.advance(run, RunEvent::Session(SessionEvent::StrayBrowser(false)));
    o.advance(
        run,
        RunEvent::Session(SessionEvent::Located {
            program: Some("C:\\chrome.exe".to_string()),
            user_data_dir: Some("C:\\profile".to_string()),
        }),
    );
    o.advance(run, RunEvent::Session(SessionEvent::Spawned(None)));
    let mut last = RunAction::Stale;
    for _ in 0..61 {
        last = o.advance(run, RunEvent::Session(SessionEvent::Reachable(false)));
    }
    assert_eq!(last, RunAction::Finish { release_browser: true });
    assert_eq!(
        o.status().error,
        Some(
            "the run failed: no browser session with a debug port: timeout: the debug port of Chrome did not open within 30 seconds"
                .to_string()
        )
    );
    assert!(!o.is_running());
    assert!(!o.session().owns_process);
}

#[test]
fn a_missing_browser_ends_the_run() {
    let mut o = orchestrator();
    let run = o.start(request(None), now()).unwrap().run;
    o.advance(run, RunEvent::ProfileLoaded(Some(profile(Some("C:\\id\\front.png")))));
    o.advance(run, RunEvent::FilesProbed(strings(&["C:\\id\\front.png"])));
    o.advance(run, RunEvent::Session(SessionEvent::Reachable(false)));
    o.advance(run, RunEvent::Session(SessionEvent::StrayBrowser(false)));
    let end = o.advance(
        run,
        RunEvent::Session(SessionEvent::Located {
            program: None,
            user_data_dir: Some("C:\\profile".to_string()),
        }),
    );
    assert_eq!(end, RunAction::Finish { release_browser: false });
    assert_eq!(
        o.status().error,
        Some(
            "the run failed: no browser session with a debug port: no Chrome executable was found in the usual install locations"
                .to_string()
        )
    );
}

#[test]
fn a_fault_ends_the_run_wherever_it_stands() {
    let mut o = orchestrator();
    let run = o.start(request(None), now()).unwrap().run;
    assert_eq!(
        o.advance(run, RunEvent::Fault("the task panicked".to_string())),
        RunAction::Finish { release_browser: false }
    );
    assert_eq!(o.status().error, Some("the run failed: the task panicked".to_string()));
    let mut o = orchestrator();
    let (run, _) = at_primary(&mut o);
    assert_eq!(
        o.advance(run, RunEvent::Fault(String::new())),
        RunAction::Finish { release_browser: false }
    );
    let status = o.status();
    assert!(!status.is_running);
    assert!(!status.error.unwrap().is_empty());
}

#[test]
fn an_answer_out_of_turn_ends_the_run() {
    let mut o = orchestrator();
    let run = o.start(request(None), now()).unwrap().run;
    assert_eq!(o.advance(run, succeeded()), RunAction::Finish { release_browser: false });
    assert_eq!(
        o.status().error,
        Some("the run failed: an answer came that does not fit the question".to_string())
    );
}

#[test]
fn a_record_that_cannot_be_written_ends_the_run_badly() {
    let mut o = orchestrator();
    let (run, _) = at_primary(&mut o);
    o.advance(run, succeeded());
    assert_eq!(
        o.advance(run, RunEvent::CaseRecorded(Some("disk full".to_string()))),
        RunAction::Finish { release_browser: false }
    );
    assert_eq!(
        o.status().error,
        Some("the run failed: the case could not be put on record: disk full".to_string())
    );
    assert_eq!(o.status().progress, Some(90));
}

#[test]
fn every_run_ends_whatever_the_answers_are() {
    let answers: Vec<RunEvent> = vec![
        RunEvent::ProfileLoaded(Some(profile(Some("C:\\id\\front.png")))),
        RunEvent::FilesProbed(strings(&["C:\\id\\front.png"])),
        RunEvent::Session(SessionEvent::Reachable(false)),
        RunEvent::Session(SessionEvent::StrayBrowser(true)),
        RunEvent::Session(SessionEvent::Killed(None)),
        RunEvent::Session(SessionEvent::Settled),
        RunEvent::Session(SessionEvent::Located {
            program: Some("C:\\chrome.exe".to_string()),
            user_data_dir: Some("C:\\profile".to_string()),
        }),
        RunEvent::Session(SessionEvent::Spawned(None)),
    ];
    let mut o = orchestrator();
    let run = o.start(request(None), now()).unwrap().run;
    let mut steps = 0;
    for answer in answers {
        o.advance(run, answer);
        steps += 1;
    }
    while o.is_running() {
        let answer = match o.phase() {
            RunPhase::Session => RunEvent::Session(SessionEvent::Reachable(o.session().polls_left == 3)),
            RunPhase::Engine(_) => failed("x"),
            _ => RunEvent::CaseRecorded(None),
        };
        o.advance(run, answer);
        steps += 1;
        assert!(steps <= 8 + 67);
    }
    assert!(!o.is_running());
    assert_eq!(o.phase(), RunPhase::Idle);
}

#[test]
fn stop_hands_out_the_browser_that_is_held() {
    let mut o = orchestrator();
    let run = o.start(request(None), now()).unwrap().run;
    o.advance(run, RunEvent::ProfileLoaded(Some(profile(Some("C:\\id\\front.png")))));
    o.advance(run, RunEvent::FilesProbed(strings(&["C:\\id\\front.png"])));
    o.advance(run, RunEvent::Session(SessionEvent::Reachable(false)));
    o.advance(run, RunEvent::Session(SessionEvent::StrayBrowser(false)));
    o.advance(
        run,
        RunEvent::Session(SessionEvent::Located {
            program: Some("C:\\chrome.exe".to_string()),
            user_data_dir: Some("C:\\profile".to_string()),
        }),
    );
    o.advance(run, RunEvent::Session(SessionEvent::Spawned(None)));
    assert!(o.session().owns_process);
    assert_eq!(o.stop(), StopAction { release_browser: true });
    assert!(!o.session().owns_process);
    let status = o.status();
    assert!(!status.is_running);
    assert_eq!(status.current_step, Some("stopped".to_string()));
    assert_eq!(status.error, Some("stopped by the user".to_string()));
    assert_eq!(o.stop(), StopAction { release_browser: false });
    assert_eq!(o.status().current_step, Some("stopped".to_string()));
}

#[test]
fn stop_without_a_run_only_changes_the_step() {
    let mut o = orchestrator();
    assert_eq!(o.stop(), StopAction { release_browser: false });
    assert_eq!(
        o.status(),
        AutomationStatus {
            is_running: false,
            current_step: Some("stopped".to_string()),
            progress: None,
            error: None,
            started_at: None,
        }
    );
}

#[test]
fn answers_of_a_run_that_was_stopped_are_dropped() {
    let mut o = orchestrator();
    let (first, _) = at_primary(&mut o);
    o.stop();
    let stopped = o.status();
    assert_eq!(o.advance(first, succeeded()), RunAction::Stale);
    assert_eq!(o.status(), stopped);
    let second = o.start(request(None), now()).unwrap().run;
    assert_ne!(first, second);
    let status = o.status();
    assert_eq!(o.advance(first, RunEvent::Fault("late".to_string())), RunAction::Stale);
    assert_eq!(o.advance(first, RunEvent::ProfileLoaded(None)), RunAction::Stale);
    assert_eq!(o.status(), status);
    assert_eq!(o.phase(), RunPhase::LoadingProfile);
    assert!(matches!(
        o.advance(second, RunEvent::ProfileLoaded(Some(profile(Some("files/a.png"))))),
        RunAction::ProbeFiles(_)
    ));
}

#[test]
fn a_signal_of_one_run_does_not_reach_the_next() {
    let mut o = orchestrator();
    let (run, _) = at_primary(&mut o);
    o.note_verification_reached();
    assert_eq!(o.gate().phase, GatePhase::WaitingForHuman);
    assert_eq!(o.gate().wait_outcome(10, 600), WaitOutcome::KeepWaiting);
    o.signal_verification_complete();
    o.signal_verification_complete();
    assert_eq!(o.gate().phase, GatePhase::Completed);
    assert_eq!(o.gate().wait_outcome(10, 600), WaitOutcome::Proceed);
    o.advance(run, succeeded());
    o.advance(run, RunEvent::CaseRecorded(None));
    assert_eq!(o.gate().phase, GatePhase::Completed);

    let (_, _) = at_primary(&mut o);
    assert_eq!(o.gate().phase, GatePhase::Reset);
    assert!(!o.gate().is_completed());
    assert_eq!(o.gate().wait_outcome(10, 600), WaitOutcome::KeepWaiting);
    o.signal_verification_complete();
    assert_eq!(o.gate().wait_outcome(10, 600), WaitOutcome::Proceed);
}

#[test]
fn a_signal_before_any_run_is_cleared_by_the_start() {
    let mut o = orchestrator();
    continue_after_verification(&mut o);
    assert!(o.gate().is_completed());
    o.start(request(None), now()).unwrap();
    assert_eq!(o.gate().phase, GatePhase::Reset);
}

#[test]
fn the_free_functions_do_what_the_methods_do() {
    let mut o = orchestrator();
    let ticket = start_automation(&mut o, request(None), now()).unwrap();
    assert_eq!(ticket.action, RunAction::LoadProfile);
    let status = get_automation_status(&o);
    assert!(status.is_running);
    assert_eq!(status.current_step, Some("initializing".to_string()));
    assert_eq!(status.progress, Some(0));
    assert_eq!(status.started_at, Some(now()));
    let later = Timestamp { seconds: 2_000_000_000, nanos: 1 };
    assert_eq!(start_automation(&mut o, request(None), later), Err(StartError::AlreadyRunning));
    assert_eq!(get_automation_status(&o), status);
    assert_eq!(stop_automation(&mut o), StopAction { release_browser: false });
    assert!(!get_automation_status(&o).is_running);
}

#[test]
fn the_script_of_the_run_is_the_script_of_its_workflow() {
    let mut o = orchestrator();
    let (_, engine) = at_primary(&mut o);
    let disk = rights_guard::files::FileSnapshot {
        platform: Platform::Windows,
        app_data_dir: Some("C:\\data".to_string()),
        present: strings(&["C:\\data/files/id/front.png"]),
    };
    let workflow = rights_guard::workflow::generate(
        &profile(Some("files/id/front.png")),
        None,
        &request(None),
        &disk,
        &Settings::default(),
    )
    .unwrap();
    match engine {
        RunAction::RunEngine { script, .. } => assert_eq!(script, render_script(&workflow, 9222, true)),
        other => panic!("unexpected: {:?}", other),
    }
}

#[test]
fn each_start_takes_the_next_run_number() {
    let mut o = orchestrator();
    let mut last = 0;
    for _ in 0..3 {
        last = o.start(request(None), now()).unwrap().run;
        o.stop();
    }
    assert_eq!(last, 3);
}

#[test]
fn on_linux_the_script_names_the_files_as_they_were_found() {
    let mut o = Orchestrator::new(Platform::Linux, Settings::default(), Some("/data".to_string()));
    let run = o.start(request(None), now()).unwrap().run;
    assert_eq!(
        o.advance(run, RunEvent::ProfileLoaded(Some(profile(Some("files/id/front.png"))))),
        RunAction::ProbeFiles(strings(&["/data/files/id/front.png"]))
    );
    o.advance(run, RunEvent::FilesProbed(strings(&["/data/files/id/front.png"])));
    match o.advance(run, RunEvent::Session(SessionEvent::Reachable(true))) {
        RunAction::RunEngine { script, .. } => {
            assert!(script.contains("const idCardFiles = [\"/data/files/id/front.png\"];"));
            assert!(!script.contains("\\\\data"));
        }
        other => panic!("unexpected: {:?}", other),
    }
}

#[test]
fn a_timeout_beside_the_words_of_a_missing_element_still_reads_as_a_timeout() {
    let mut o = orchestrator();
    let (run, _) = at_primary(&mut o);
    let stderr = "Timed out 5000ms waiting for expect(locator).toBeVisible() - Received: <element(s) not found>; Test timeout of 300000ms exceeded.";
    assert!(matches!(
        o.advance(run, failed(stderr)),
        RunAction::RunEngine { strategy: Strategy::Simplified, .. }
    ));
    o.advance(run, failed(stderr));
    assert_eq!(o.advance(run, failed(stderr)), RunAction::Finish { release_browser: false });
    let error = o.status().error.unwrap();
    assert!(error.starts_with(
        "the run failed: the automation ran into a timeout; check the network connection and complete the verification in time (exit code: 1): Timed out 5000ms"
    ));
}
