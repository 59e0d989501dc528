use rights_guard::models::{Case, IpAsset, Profile, Timestamp};
use rights_guard::rows::{
    decode_id, decode_instant, CaseRow, ColumnDecodeError, IpAssetRow, ProfileRow,
};

fn text(s: &str) -> Option<String> {
    Some(s.to_string())
}

fn profile_row() -> ProfileRow {
    ProfileRow {
        id: text("550e8400-e29b-41d4-a716-446655440000"),
        name: "Wei".to_string(),
        phone: "138".to_string(),
        email: "w@example.com".to_string(),
        id_card_number: "1101".to_string(),
        id_card_files: text("[\"files/a.png\"]"),
        created_at: text("1996-12-19T16:39:57-08:00"),
        updated_at: text("2024-01-02T03:04:05.000000006+00:00"),
    }
}

fn asset_row() -> IpAssetRow {
    IpAssetRow {
        id: text("00000000-0000-0000-0000-000000000002"),
        work_name: "Work".to_string(),
        work_type: "视频".to_string(),
        owner: "Owner".to_string(),
        region: "中国大陆".to_string(),
        work_start_date: "2020-01-01".to_string(),
        work_end_date: "2030-01-01".to_string(),
        equity_type: "著作权".to_string(),
        is_agent: true,
        auth_start_date: text("2021-01-01"),
        auth_end_date: None,
        auth_files: text("files/auth.pdf"),
        work_proof_files: None,
        status: "已认证".to_string(),
        created_at: text("2024-01-02T03:04:05Z"),
        updated_at: None,
    }
}

fn case_row() -> CaseRow {
    CaseRow {
        id: text("00000000-0000-0000-0000-000000000003"),
        infringing_url: "https://example.com/clip/1".to_string(),
        original_url: text("https://example.com/mine"),
        associated_ip_id: text("00000000-0000-0000-0000-000000000002"),
        status: "已提交".to_string(),
        submission_date: text("2024-01-02T03:04:05+00:00"),
        created_at: text("2024-01-02T03:04:05+00:00"),
        updated_at: text("2024-01-02T04:04:05+01:00"),
    }
}

#[test]
fn an_instant_is_read_as_seconds_and_nanoseconds() {
    assert_eq!(
        decode_instant(&text("1996-12-19T16:39:57-08:00"), "created_at"),
        Ok(Some(Timestamp { seconds: 851042397, nanos: 0 }))
    );
    assert_eq!(
        decode_instant(&text("2024-01-02T03:04:05.5Z"), "created_at"),
        Ok(Some(Timestamp { seconds: 1704164645, nanos: 500_000_000 }))
    );
    assert_eq!(decode_instant(&None, "created_at"), Ok(None));
}

#[test]
fn an_unreadable_instant_names_its_column() {
    match decode_instant(&text("yesterday"), "updated_at") {
        Err(ColumnDecodeError { index, detail }) => {
            assert_eq!(index, "updated_at");
            assert!(!detail.is_empty());
        }
        other => panic!("unexpected: {:?}", other),
    }
    assert!(decode_instant(&text("2024-01-02 03:04:05"), "c").is_err());
    assert!(decode_instant(&text(""), "c").is_err());
}

#[test]
fn an_identifier_is_read_as_an_integer() {
    assert_eq!(
        decode_id(&text("550e8400-e29b-41d4-a716-446655440000"), "id"),
        Ok(Some(0x550e8400e29b41d4a716446655440000))
    );
    assert_eq!(decode_id(&None, "id"), Ok(None));
    match decode_id(&text("nope"), "associated_ip_id") {
        Err(e) => assert_eq!(e.index, "associated_ip_id"),
        other => panic!("unexpected: {:?}", other),
    }
}

#[test]
fn a_profile_is_read_from_its_row() {
    assert_eq!(
        Profile::from_row(&profile_row()),
        Ok(Profile {
            id: Some(0x550e8400e29b41d4a716446655440000),
            name: "Wei".to_string(),
            phone: "138".to_string(),
            email: "w@example.com".to_string(),
            id_card_number: "1101".to_string(),
            id_card_files: text("[\"files/a.png\"]"),
            created_at: Some(Timestamp { seconds: 851042397, nanos: 0 }),
            updated_at: Some(Timestamp { seconds: 1704164645, nanos: 6 }),
        })
    );
}

#[test]
fn the_first_unreadable_column_of_a_profile_is_reported() {
    let mut row = profile_row();
    row.id = text("x");
    row.created_at = text("y");
    assert_eq!(Profile::from_row(&row).unwrap_err().index, "id");
    row.id = None;
    row.updated_at = text("z");
    assert_eq!(Profile::from_row(&row).unwrap_err().index, "created_at");
    row.created_at = None;
    assert_eq!(Profile::from_row(&row).unwrap_err().index, "updated_at");
    row.updated_at = None;
    assert_eq!(Profile::from_row(&row).unwrap().id, None);
}

#[test]
fn an_asset_is_read_from_its_row() {
    let asset = IpAsset::from_row(&asset_row()).unwrap();
    assert_eq!(
        asset,
        IpAsset {
            id: Some(2),
            work_name: "Work".to_string(),
            work_type: "视频".to_string(),
            owner: "Owner".to_string(),
            region: "中国大陆".to_string(),
            work_start_date: "2020-01-01".to_string(),
            work_end_date: "2030-01-01".to_string(),
            equity_type: "著作权".to_string(),
            is_agent: true,
            auth_start_date: text("2021-01-01"),
            auth_end_date: None,
            auth_files: text("files/auth.pdf"),
            work_proof_files: None,
            status: "已认证".to_string(),
            created_at: Some(Timestamp { seconds: 1704164645, nanos: 0 }),
            updated_at: None,
        }
    );
    let mut row = asset_row();
    row.updated_at = text("never");
    assert_eq!(IpAsset::from_row(&row).unwrap_err().index, "updated_at");
    row.id = text("");
    assert_eq!(IpAsset::from_row(&row).unwrap_err().index, "id");
}

#[test]
fn a_case_is_read_from_its_row() {
    assert_eq!(
        Case::from_row(&case_row()),
        Ok(Case {
            id: Some(3),
            infringing_url: "https://example.com/clip/1".to_string(),
            original_url: text("https://example.com/mine"),
            associated_ip_id: Some(2),
            status: "已提交".to_string(),
            submission_date: Some(Timestamp { seconds: 1704164645, nanos: 0 }),
            created_at: Some(Timestamp { seconds: 1704164645, nanos: 0 }),
            updated_at: Some(Timestamp { seconds: 1704164645, nanos: 0 }),
        })
    );
}

#[test]
fn the_first_unreadable_column_of_a_case_is_reported() {
    let mut row = case_row();
    row.updated_at = text("u");
    assert_eq!(Case::from_row(&row).unwrap_err().index, "updated_at");
    row.created_at = text("c");
    assert_eq!(Case::from_row(&row).unwrap_err().index, "created_at");
    row.submission_date = text("s");
    assert_eq!(Case::from_row(&row).unwrap_err().index, "submission_date");
    row.associated_ip_id = text("a");
    assert_eq!(Case::from_row(&row).unwrap_err().index, "associated_ip_id");
    row.id = text("i");
    assert_eq!(Case::from_row(&row).unwrap_err().index, "id");
}
