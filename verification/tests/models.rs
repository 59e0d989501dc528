use rights_guard::models::{
    clone_opt_text, AutomationRequest, AutomationStatus, Case, FileSelection, IpAsset, Profile,
    Timestamp,
};
use rights_guard::settings::Settings;
use rights_guard::status::{
    STEP_COMPLETED, STEP_FAILED, STEP_INITIALIZING, STEP_STOPPED, STOPPED_BY_USER,
};

#[test]
fn a_default_profile_is_blank() {
    assert_eq!(
        Profile::default(),
        Profile {
            id: None,
            name: String::new(),
            phone: String::new(),
            email: String::new(),
            id_card_number: String::new(),
            id_card_files: None,
            created_at: None,
            updated_at: None,
        }
    );
}

#[test]
fn a_default_asset_has_its_region_right_and_status() {
    let asset = IpAsset::default();
    assert_eq!(asset.region, "中国大陆");
    assert_eq!(asset.equity_type, "著作权");
    assert_eq!(asset.status, "待认证");
    assert!(!asset.is_agent);
    assert_eq!(asset.id, None);
    assert_eq!(asset.work_name, "");
    assert_eq!(asset.auth_files, None);
    assert_eq!(asset.work_proof_files, None);
    assert_eq!(asset.auth_start_date, None);
}

#[test]
fn a_default_case_is_new() {
    let case = Case::default();
    assert_eq!(case.status, "新建");
    assert_eq!(case.infringing_url, "");
    assert_eq!(case.associated_ip_id, None);
    assert_eq!(case.submission_date, None);
}

#[test]
fn copies_equal_what_they_copy() {
    let request = AutomationRequest {
        infringing_url: "u".to_string(),
        original_url: Some("o".to_string()),
        ip_asset_id: Some(7),
    };
    assert_eq!(request.duplicate(), request);
    assert_eq!(clone_opt_text(&Some("x".to_string())), Some("x".to_string()));
    assert_eq!(clone_opt_text(&None), None);
    let mut status = AutomationStatus::idle();
    status.begin(Timestamp { seconds: 5, nanos: 6 });
    assert_eq!(status.snapshot(), status);
}

#[test]
fn a_file_selection_holds_what_was_picked() {
    assert_eq!(FileSelection::none().paths, Vec::<String>::new());
    assert_eq!(FileSelection::from_choice(None).paths, Vec::<String>::new());
    assert_eq!(FileSelection::from_choice(Some("/a.png".to_string())).paths, vec!["/a.png"]);
    assert_eq!(FileSelection::from_choices(None).paths, Vec::<String>::new());
    assert_eq!(
        FileSelection::from_choices(Some(vec!["/a".to_string(), "/b".to_string()])).paths,
        vec!["/a", "/b"]
    );
}

#[test]
fn the_status_goes_through_a_run() {
    let at = Timestamp { seconds: 100, nanos: 0 };
    let mut status = AutomationStatus::idle();
    assert!(!status.is_running);
    status.begin(at);
    assert_eq!(
        status,
        AutomationStatus {
            is_running: true,
            current_step: Some(STEP_INITIALIZING.to_string()),
            progress: Some(0),
            error: None,
            started_at: Some(at),
        }
    );
    status.update_status("filling in", 40);
    assert_eq!(status.current_step, Some("filling in".to_string()));
    assert_eq!(status.progress, Some(40));
    assert!(status.is_running);
    status.update_status("over the top", 250);
    assert_eq!(status.progress, Some(100));
    status.update_status("back", 40);
    let mut done = status.snapshot();
    done.complete();
    assert_eq!(
        done,
        AutomationStatus {
            is_running: false,
            current_step: Some(STEP_COMPLETED.to_string()),
            progress: Some(100),
            error: None,
            started_at: Some(at),
        }
    );
    let mut failed = status.snapshot();
    failed.fail("no luck");
    assert_eq!(
        failed,
        AutomationStatus {
            is_running: false,
            current_step: Some(STEP_FAILED.to_string()),
            progress: Some(40),
            error: Some("the run failed: no luck".to_string()),
            started_at: Some(at),
        }
    );
    let mut stopped = status.snapshot();
    stopped.stop();
    assert_eq!(
        stopped,
        AutomationStatus {
            is_running: false,
            current_step: Some(STEP_STOPPED.to_string()),
            progress: Some(40),
            error: Some(STOPPED_BY_USER.to_string()),
            started_at: Some(at),
        }
    );
    failed.stop();
    assert_eq!(failed.error, Some("the run failed: no luck".to_string()));
    assert_eq!(failed.current_step, Some("stopped".to_string()));
}

#[test]
fn a_run_that_ends_short_of_100_always_says_why() {
    let at = Timestamp { seconds: 100, nanos: 0 };
    for why in ["", "x"] {
        let mut status = AutomationStatus::idle();
        status.begin(at);
        status.fail(why);
        assert!(!status.is_running);
        assert!(!status.error.unwrap().is_empty());
    }
    let mut status = AutomationStatus::idle();
    status.begin(at);
    status.stop();
    assert!(!status.error.unwrap().is_empty());
}

#[test]
fn the_default_settings_are_ten_minutes_and_thirty_seconds() {
    let settings = Settings::default();
    assert_eq!(settings.verification_timeout_secs, 600);
    assert_eq!(settings.debug_port_timeout_secs, 30);
    assert_eq!(settings.poll_interval_ms, 500);
    assert_eq!(settings.settle_ms, 2000);
    assert_eq!(settings.engine_timeout_secs, 900);
    assert_eq!(settings.debug_port, 9222);
    assert!(settings.is_valid());
}

#[test]
fn settings_without_a_bound_are_not_valid() {
    let ok = Settings::default();
    assert!(!Settings { verification_timeout_secs: 0, ..ok }.is_valid());
    assert!(!Settings { debug_port_timeout_secs: 0, ..ok }.is_valid());
    assert!(!Settings { poll_interval_ms: 0, ..ok }.is_valid());
    assert!(!Settings { engine_timeout_secs: 600, ..ok }.is_valid());
    assert!(!Settings { debug_port: 0, ..ok }.is_valid());
    assert!(Settings { settle_ms: 0, ..ok }.is_valid());
}
