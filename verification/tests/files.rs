use rights_guard::errors::ValidationError;
use rights_guard::files::{
    candidates, contains_path, get_absolute_file_paths, join, lookup_candidates,
    parse_declared_paths, present_among, resolve_path, to_native, FileSnapshot,
};
use rights_guard::locator::Platform;
use rights_guard::text::{chars_of, string_of};

fn strings(items: &[&str]) -> Vec<String> {
    items.iter().map(|s| s.to_string()).collect()
}

fn snapshot(dir: Option<&str>, present: &[&str]) -> FileSnapshot {
    on(Platform::Windows, dir, present)
}

fn on(platform: Platform, dir: Option<&str>, present: &[&str]) -> FileSnapshot {
    FileSnapshot {
        platform,
        app_data_dir: dir.map(|d| d.to_string()),
        present: strings(present),
    }
}

#[test]
fn join_adds_one_separator_where_none_is_there() {
    let joined = join(&chars_of("/data/app"), &chars_of("files/a.png"));
    assert_eq!(string_of(&joined), "/data/app/files/a.png");
    let joined = join(&chars_of("C:\\data\\"), &chars_of("files/a.png"));
    assert_eq!(string_of(&joined), "C:\\data\\files/a.png");
    let joined = join(&chars_of(""), &chars_of("files/a.png"));
    assert_eq!(string_of(&joined), "files/a.png");
}

#[test]
fn contains_path_compares_whole_paths() {
    let list = strings(&["/a/b", "/a/c"]);
    assert!(contains_path(&list, &"/a/c".to_string()));
    assert!(!contains_path(&list, &"/a".to_string()));
    assert!(!contains_path(&Vec::new(), &"/a".to_string()));
}

#[test]
fn an_absent_or_blank_list_names_no_path() {
    assert_eq!(parse_declared_paths(&None), Ok(Vec::new()));
    assert_eq!(parse_declared_paths(&Some("".to_string())), Ok(Vec::new()));
    assert_eq!(parse_declared_paths(&Some("  \n ".to_string())), Ok(Vec::new()));
}

#[test]
fn a_json_list_is_read_as_json() {
    let stored = Some(" [\"files/a.png\", \"C:\\\\docs\\\\b c.png\"] ".to_string());
    assert_eq!(
        parse_declared_paths(&stored),
        Ok(strings(&["files/a.png", "C:\\docs\\b c.png"]))
    );
    assert_eq!(parse_declared_paths(&Some("[]".to_string())), Ok(Vec::new()));
}

#[test]
fn a_list_that_is_no_json_array_is_an_error() {
    match parse_declared_paths(&Some("[\"files/a.png\"".to_string())) {
        Err(ValidationError::MalformedFileList(detail)) => assert!(!detail.is_empty()),
        other => panic!("unexpected: {:?}", other),
    }
    match parse_declared_paths(&Some("[1, 2]".to_string())) {
        Err(ValidationError::MalformedFileList(detail)) => {
            assert!(detail.contains("expected a string"))
        }
        other => panic!("unexpected: {:?}", other),
    }
}

#[test]
fn a_comma_list_is_split_and_trimmed() {
    let stored = Some("files/a.png , files/b.png,,  /abs/c.png".to_string());
    assert_eq!(
        parse_declared_paths(&stored),
        Ok(strings(&["files/a.png", "files/b.png", "", "/abs/c.png"]))
    );
}

#[test]
fn a_relative_path_resolves_below_the_data_directory() {
    let snap = snapshot(Some("C:\\Users\\me\\AppData"), &["C:\\Users\\me\\AppData/files/a.png"]);
    assert_eq!(
        resolve_path("files/a.png", &snap),
        Some("C:\\Users\\me\\AppData\\files\\a.png".to_string())
    );
    assert_eq!(resolve_path("files/missing.png", &snap), None);
    assert_eq!(resolve_path("files/a.png", &snapshot(None, &["files/a.png"])), None);
}

#[test]
fn an_absolute_path_must_exist() {
    let snap = snapshot(None, &["/home/me/card.png"]);
    assert_eq!(resolve_path("/home/me/card.png", &snap), Some("\\home\\me\\card.png".to_string()));
    assert_eq!(resolve_path("/home/me/other.png", &snap), None);
}

#[test]
fn a_filed_copy_is_preferred_over_an_outside_path() {
    let snap = snapshot(
        Some("/data"),
        &["/home/me/card.png", "/data/files/profiles/id_cards/card.png"],
    );
    assert_eq!(
        resolve_path("/home/me/card.png", &snap),
        Some("\\data\\files\\profiles\\id_cards\\card.png".to_string())
    );
    let snap = snapshot(
        Some("/data"),
        &[
            "/home/me/card.png",
            "/data/files/profiles/id_cards/card.png",
            "/data/files/ip_assets/proof_docs/card.png",
        ],
    );
    assert_eq!(
        resolve_path("/home/me/card.png", &snap),
        Some("\\data\\files\\ip_assets\\proof_docs\\card.png".to_string())
    );
}

#[test]
fn a_path_inside_the_data_directory_is_taken_as_it_stands() {
    let snap = snapshot(
        Some("/data"),
        &["/data/old/card.png", "/data/files/profiles/id_cards/card.png"],
    );
    assert_eq!(resolve_path("/data/old/card.png", &snap), Some("\\data\\old\\card.png".to_string()));
}

#[test]
fn a_path_that_ends_in_a_separator_has_no_filed_copy() {
    let snap = snapshot(Some("/data"), &["/home/me/dir/", "/data/files/ip_assets/auth_docs/"]);
    assert_eq!(resolve_path("/home/me/dir/", &snap), Some("\\home\\me\\dir\\".to_string()));
    assert_eq!(candidates("/home/me/dir/", &Some("/data".to_string())), strings(&["/home/me/dir/"]));
}

#[test]
fn candidates_list_what_resolution_looks_at() {
    let dir = Some("/data".to_string());
    assert_eq!(candidates("files/a.png", &dir), strings(&["/data/files/a.png"]));
    assert_eq!(candidates("files/a.png", &None), Vec::<String>::new());
    assert_eq!(
        candidates("/home/me/a.png", &dir),
        strings(&[
            "/home/me/a.png",
            "/data/files/ip_assets/auth_docs/a.png",
            "/data/files/ip_assets/proof_docs/a.png",
            "/data/files/profiles/id_cards/a.png",
        ])
    );
    assert_eq!(candidates("/home/me/a.png", &None), strings(&["/home/me/a.png"]));
    assert_eq!(candidates("/data/x/a.png", &dir), strings(&["/data/x/a.png"]));
}

#[test]
fn lookup_candidates_skips_blank_entries() {
    let stored = Some("files/a.png, ,/abs/b.png".to_string());
    assert_eq!(
        lookup_candidates(&stored, &None),
        Ok(strings(&["/abs/b.png"]))
    );
    assert_eq!(
        lookup_candidates(&stored, &Some("/data".to_string())),
        Ok(strings(&[
            "/data/files/a.png",
            "/abs/b.png",
            "/data/files/ip_assets/auth_docs/b.png",
            "/data/files/ip_assets/proof_docs/b.png",
            "/data/files/profiles/id_cards/b.png",
        ]))
    );
    assert!(matches!(
        lookup_candidates(&Some("[oops".to_string()), &None),
        Err(ValidationError::MalformedFileList(_))
    ));
}

#[test]
fn get_absolute_file_paths_keeps_the_order_and_drops_what_is_missing() {
    let stored = Some("[\"files/front.png\", \"files/gone.png\", \" \", \"/abs/back.png\"]".to_string());
    let snap = snapshot(Some("/data"), &["/abs/back.png", "/data/files/front.png"]);
    assert_eq!(
        get_absolute_file_paths(&stored, &snap),
        Ok(strings(&["\\data\\files\\front.png", "\\abs\\back.png"]))
    );
    assert_eq!(get_absolute_file_paths(&None, &snap), Ok(Vec::new()));
    assert_eq!(get_absolute_file_paths(&Some("   ".to_string()), &snap), Ok(Vec::new()));
    assert!(matches!(
        get_absolute_file_paths(&Some("[\"a\",]".to_string()), &snap),
        Err(ValidationError::MalformedFileList(_))
    ));
}

#[test]
fn resolution_reads_the_disk_through_the_candidates_only() {
    let dir = Some("/data".to_string());
    let wanted = candidates("/home/me/a.png", &dir);
    let full = snapshot(Some("/data"), &["/home/me/a.png", "/unrelated", "/data/files/x"]);
    let narrowed = FileSnapshot {
        platform: Platform::Windows,
        app_data_dir: dir.clone(),
        present: full.present.iter().filter(|p| wanted.contains(p)).cloned().collect(),
    };
    assert_eq!(resolve_path("/home/me/a.png", &full), resolve_path("/home/me/a.png", &narrowed));
}

#[test]
fn present_among_keeps_what_was_found() {
    let candidates = strings(&["/a", "/b", "/c"]);
    assert_eq!(present_among(&candidates, &vec![true, false, true]), strings(&["/a", "/c"]));
    assert_eq!(present_among(&candidates, &vec![false, false, false]), Vec::<String>::new());
    assert_eq!(present_among(&candidates, &vec![true]), strings(&["/a"]));
    assert_eq!(present_among(&candidates, &vec![true, true, true, true]), candidates);
    assert_eq!(present_among(&Vec::new(), &vec![true]), Vec::<String>::new());
}

#[test]
fn looking_at_the_candidates_gives_what_the_whole_disk_gives() {
    let stored = Some("files/front.png,/home/me/back.png, /gone.png".to_string());
    let dir = Some("/data".to_string());
    let disk = strings(&[
        "/data/files/front.png",
        "/home/me/back.png",
        "/data/files/profiles/id_cards/back.png",
        "/data/other",
        "/etc/passwd",
    ]);
    let asked = lookup_candidates(&stored, &dir).unwrap();
    let found: Vec<bool> = asked.iter().map(|p| disk.contains(p)).collect();
    let probed = FileSnapshot {
        platform: Platform::Windows,
        app_data_dir: dir.clone(),
        present: present_among(&asked, &found),
    };
    let whole = FileSnapshot { platform: Platform::Windows, app_data_dir: dir, present: disk };
    assert_eq!(get_absolute_file_paths(&stored, &probed), get_absolute_file_paths(&stored, &whole));
    assert_eq!(
        get_absolute_file_paths(&stored, &probed),
        Ok(strings(&["\\data\\files\\front.png", "\\data\\files\\profiles\\id_cards\\back.png"]))
    );
}

#[test]
fn on_linux_and_macos_a_resolved_path_is_the_path_that_was_found() {
    for platform in [Platform::Linux, Platform::MacOs] {
        let snap = on(
            platform,
            Some("/data"),
            &[
                "/data/files/front.png",
                "/home/me/back.png",
                "/data/files/profiles/id_cards/back.png",
                "/data/old/x.png",
            ],
        );
        assert_eq!(resolve_path("files/front.png", &snap), Some("/data/files/front.png".to_string()));
        assert_eq!(
            resolve_path("/home/me/back.png", &snap),
            Some("/data/files/profiles/id_cards/back.png".to_string())
        );
        assert_eq!(resolve_path("/data/old/x.png", &snap), Some("/data/old/x.png".to_string()));
        assert_eq!(resolve_path("/gone.png", &snap), None);
        let stored = Some("files/front.png, /home/me/back.png, /gone.png".to_string());
        let resolved = get_absolute_file_paths(&stored, &snap).unwrap();
        assert_eq!(
            resolved,
            strings(&["/data/files/front.png", "/data/files/profiles/id_cards/back.png"])
        );
        for path in &resolved {
            assert!(snap.present.contains(path));
        }
    }
}

#[test]
fn only_windows_turns_slashes_into_backslashes() {
    both_forms("C:/Users/me/card.png", "C:\\Users\\me\\card.png");
}

fn both_forms(found: &str, on_windows: &str) {
    let windows = on(Platform::Windows, None, &[found]);
    let linux = on(Platform::Linux, None, &[found]);
    assert_eq!(resolve_path(found, &windows), Some(on_windows.to_string()));
    assert_eq!(resolve_path(found, &linux), Some(found.to_string()));
    assert_eq!(to_native(&chars_of(found), Platform::Windows), on_windows);
    assert_eq!(to_native(&chars_of(found), Platform::MacOs), found);
}
