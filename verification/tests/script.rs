use rights_guard::files::FileSnapshot;
use rights_guard::locator::Platform;
use rights_guard::models::{AutomationRequest, IpAsset, Profile};
use rights_guard::script::{
    escape_file_path_for_js_array, generate_auth_files_upload_code, generate_connect_script,
    generate_id_card_files_upload_code, generate_work_proof_files_upload_code, render_appeal,
    render_file_list, render_guide, render_identity, render_rights_holder, render_script,
    render_verification, APPEAL_PAGE_URL, AUTH_UPLOAD_HEAD, AUTH_UPLOAD_TAIL, ID_CARD_UPLOAD_HEAD,
    ID_CARD_UPLOAD_TAIL, SCRIPT_CLOSE, SCRIPT_OPEN, WORK_PROOF_UPLOAD_HEAD,
    WORK_PROOF_UPLOAD_TAIL,
};
use rights_guard::settings::Settings;
use rights_guard::workflow::{
    AppealStage, GeneratedWorkflow, IdentityStage, Period, RightsHolderStage, TextField,
    VerificationStage,
};

fn strings(items: &[&str]) -> Vec<String> {
    items.iter().map(|s| s.to_string()).collect()
}

fn field(text: &str) -> TextField {
    TextField { text: text.to_string(), literal: serde_json::to_string(text).unwrap() }
}

fn workflow(with_asset: bool) -> GeneratedWorkflow {
    GeneratedWorkflow {
        identity: IdentityStage {
            name: field("A \"B\""),
            phone: field("123"),
            email: field("a@b.c"),
            id_card_number: field("X1"),
            documents: strings(&["C:\\id\\front.png", "C:\\id\\back.png"]),
        },
        verification: VerificationStage { timeout_secs: 600 },
        rights_holder: if with_asset {
            Some(RightsHolderStage {
                owner: field("Owner"),
                work_type: field("视频"),
                work_name: field("Work"),
                authorization_period: Some(Period {
                    start: field("2021-01-01"),
                    end: field("2022-01-01"),
                }),
                work_period: None,
                authorization_files: strings(&["C:\\auth.pdf"]),
                ownership_files: Vec::new(),
            })
        } else {
            None
        },
        appeal: AppealStage { infringing_url: field("https://example.com/v/1"), statement: field("S") },
    }
}

#[test]
fn a_path_is_embedded_with_its_backslashes_doubled() {
    assert_eq!(escape_file_path_for_js_array("C:\\id\\front.png"), "\"C:\\\\id\\\\front.png\"");
    assert_eq!(escape_file_path_for_js_array("a\"b"), "\"a\\\"b\"");
    assert_eq!(escape_file_path_for_js_array(""), "\"\"");
}

#[test]
fn a_file_list_separates_its_entries_with_comma_and_blank() {
    assert_eq!(
        render_file_list(&strings(&["C:\\a.png", "/b c.png"])),
        "\"C:\\\\a.png\", \"/b c.png\""
    );
    assert_eq!(render_file_list(&strings(&["one"])), "\"one\"");
    assert_eq!(render_file_list(&[]), "");
}

#[test]
fn an_upload_without_files_only_says_so() {
    assert_eq!(generate_auth_files_upload_code(&[]), "console.log('ℹ️ 无授权证明文件需要上传');");
    assert_eq!(
        generate_work_proof_files_upload_code(&[]),
        "console.log('ℹ️ 无作品证明文件需要上传');"
    );
    assert_eq!(
        generate_id_card_files_upload_code(&[]),
        "        console.log('ℹ️ 无身份证文件需要上传');"
    );
}

#[test]
fn an_upload_holds_the_file_list_between_head_and_tail() {
    let files = strings(&["C:\\auth 1.pdf", "C:\\auth2.pdf"]);
    let code = generate_auth_files_upload_code(&files);
    assert_eq!(
        code,
        format!(
            "{}{}{}",
            AUTH_UPLOAD_HEAD, "\"C:\\\\auth 1.pdf\", \"C:\\\\auth2.pdf\"", AUTH_UPLOAD_TAIL
        )
    );
    assert!(code.contains("const authFiles = [\"C:\\\\auth 1.pdf\", \"C:\\\\auth2.pdf\"];"));
    assert!(code.contains("await authUploadArea.first().setInputFiles(authFiles);"));
    assert!(code.starts_with("\n        console.log('📋 开始上传授权证明文件...');\n        try {"));
    assert!(code.ends_with("console.error('❌ 授权证明文件上传失败:', error);\n        }"));

    let code = generate_work_proof_files_upload_code(&files);
    assert_eq!(
        code,
        format!(
            "{}{}{}",
            WORK_PROOF_UPLOAD_HEAD,
            "\"C:\\\\auth 1.pdf\", \"C:\\\\auth2.pdf\"",
            WORK_PROOF_UPLOAD_TAIL
        )
    );
    assert!(code.contains("const workProofFiles = [\"C:\\\\auth 1.pdf\", \"C:\\\\auth2.pdf\"];"));
    assert!(code.contains("await backupSelector.setInputFiles(workProofFiles);"));

    let code = generate_id_card_files_upload_code(&files);
    assert_eq!(
        code,
        format!(
            "{}{}{}",
            ID_CARD_UPLOAD_HEAD, "\"C:\\\\auth 1.pdf\", \"C:\\\\auth2.pdf\"", ID_CARD_UPLOAD_TAIL
        )
    );
    assert!(code.contains("const idCardFiles = [\"C:\\\\auth 1.pdf\", \"C:\\\\auth2.pdf\"];"));
}

#[test]
fn the_identity_stage_fills_the_four_fields() {
    let w = workflow(false);
    let code = render_identity(&w.identity, true);
    assert!(code.contains(
        "await page.locator('input[placeholder=\"真实姓名\"].el-input__inner').first().fill(\"A \\\"B\\\"\");\n"
    ));
    assert!(code.contains(
        "await page.locator('input[placeholder=\"手机号\"].el-input__inner').first().fill(\"123\");\n"
    ));
    assert!(code.contains(
        "await page.locator('.el-form-item:has-text(\"邮箱\") input.el-input__inner').first().fill(\"a@b.c\");\n"
    ));
    assert!(code.contains(
        "await page.locator('input[placeholder=\"证件号码\"].el-input__inner').first().fill(\"X1\");\n"
    ));
    assert!(code.contains("const idCardFiles = [\"C:\\\\id\\\\front.png\", \"C:\\\\id\\\\back.png\"];"));
    let bare = render_identity(&w.identity, false);
    assert!(!bare.contains("idCardFiles"));
    assert!(code.starts_with(&bare));
}

#[test]
fn the_verification_stage_waits_for_the_marker_within_the_limit() {
    let code = render_verification(&VerificationStage { timeout_secs: 600 });
    assert_eq!(
        code,
        "\n\n        console.log('⏳ 等待用户完成验证码...');\n        fs.writeFileSync('waiting_for_verification.txt', 'waiting');\n        const verificationDeadline = Date.now() + 1000 * 600;\n        while (!fs.existsSync('verification_completed.txt')) {\n            if (Date.now() > verificationDeadline) {\n                throw new Error('verification timeout: no completion signal within the limit');\n            }\n            await page.waitForTimeout(1000);\n        }\n        console.log('✅ 验证已完成，继续填写...');\n"
    );
    let short = render_verification(&VerificationStage { timeout_secs: 5 });
    assert!(short.contains("Date.now() + 1000 * 5;"));
}

#[test]
fn the_rights_holder_stage_fills_what_the_asset_gives() {
    let w = workflow(true);
    let stage = w.rights_holder.unwrap();
    let code = render_rights_holder(&stage, true);
    assert!(code.contains("input[type=\"text\"]').first().fill(\"Owner\");\n"));
    assert!(code.contains("getByPlaceholder('起始时间').click();\n        await page.waitForTimeout(500);\n        await page.keyboard.type(\"2021-01-01\");"));
    assert!(code.contains("await page.keyboard.type(\"2022-01-01\");\n        await page.keyboard.press('Tab');\n"));
    assert!(code.contains("filter({ hasText: \"视频\" }).click();\n"));
    assert!(code.contains("fill(\"Work\");\n"));
    assert!(!code.contains("/^期限/"));
    assert!(code.contains("const authFiles = [\"C:\\\\auth.pdf\"];"));
    assert!(code.contains("        console.log('ℹ️ 无作品证明文件需要上传');\n"));
    assert!(code.ends_with("await page.getByRole('button', { name: '下一步' }).click();\n        await page.waitForTimeout(2000);\n"));
    let bare = render_rights_holder(&stage, false);
    assert!(!bare.contains("authFiles"));
    assert!(!bare.contains("无作品证明文件"));
}

#[test]
fn the_appeal_stage_fills_the_address_and_the_statement() {
    let w = workflow(false);
    let code = render_appeal(&w.appeal);
    assert_eq!(
        code,
        "\n        console.log('📝 填写申诉详情...');\n        await page.locator('input[placeholder*=\"他人发布的B站侵权链接\"]').first().fill(\"https://example.com/v/1\");\n        await page.locator('textarea[placeholder*=\"该链接内容全部\"]').first().fill(\"S\");\n        await page.locator('.el-checkbox__label:has-text(\"本人保证\")').first().click();\n        console.log('✓ 申诉详情填写完成');\n"
    );
}

#[test]
fn the_script_runs_the_stages_in_their_order() {
    let w = workflow(true);
    let script = render_script(&w, 9222, true);
    assert!(script.starts_with(SCRIPT_OPEN));
    assert!(script.ends_with(SCRIPT_CLOSE));
    assert!(script.contains("chromium.connectOverCDP('http://127.0.0.1:9222', { timeout: 15000 });"));
    assert!(script.contains(&format!("await page.goto('{}', {{ timeout: 60000", APPEAL_PAGE_URL)));
    let identity = script.find("真实姓名").unwrap();
    let wait = script.find("verificationDeadline").unwrap();
    let rights = script.find("权利人").unwrap();
    let appeal = script.find("他人发布的B站侵权链接").unwrap();
    assert!(identity < wait && wait < rights && rights < appeal);
    let expected = format!(
        "{}9222', {{ timeout: 15000 }});\n        const context = browser.contexts()[0];\n        const page = context.pages()[0] || await context.newPage();\n\n        console.log('📄 导航到B站版权申诉页面...');\n        await page.goto('{}', {{ timeout: 60000, waitUntil: 'networkidle' }});\n{}{}{}{}{}",
        SCRIPT_OPEN,
        APPEAL_PAGE_URL,
        render_identity(&w.identity, true),
        render_verification(&w.verification),
        render_rights_holder(w.rights_holder.as_ref().unwrap(), true),
        render_appeal(&w.appeal),
        SCRIPT_CLOSE
    );
    assert_eq!(script, expected);
}

#[test]
fn a_script_without_asset_has_no_rights_holder_code() {
    let script = render_script(&workflow(false), 9333, true);
    assert!(!script.contains("权利人"));
    assert!(!script.contains("authFiles"));
    assert!(script.contains("http://127.0.0.1:9333'"));
    assert!(script.contains("idCardFiles"));
}

#[test]
fn a_script_without_uploads_leaves_the_files_out() {
    let script = render_script(&workflow(true), 9222, false);
    assert!(!script.contains("setInputFiles"));
    assert!(script.contains("权利人"));
    assert!(script.contains("verificationDeadline"));
}

#[test]
fn the_guide_lists_every_field_as_it_was_given() {
    let guide = render_guide(&workflow(true));
    assert_eq!(
        guide,
        "Open https://www.bilibili.com/v/copyright/apply?origin=home in the browser and fill in the form by hand.\n- Real name: A \"B\"\n- Phone: 123\n- E-mail: a@b.c\n- Identity card number: X1\n- Upload the identity documents: C:\\id\\front.png, C:\\id\\back.png\n- Complete the verification on the page and go to the next step.\n- Rights holder: Owner\n- Kind of work: 视频\n- Title of the work: Work\n- Upload the authorization documents: C:\\auth.pdf\n- Upload the proofs of ownership: \n- Infringing address: https://example.com/v/1\n- Statement: S\n- Tick the declaration and submit the appeal.\n"
    );
    let guide = render_guide(&workflow(false));
    assert!(!guide.contains("Rights holder"));
}

#[test]
fn generate_connect_script_is_the_full_script_of_the_generated_workflow() {
    let profile = Profile {
        name: "N".to_string(),
        phone: "P".to_string(),
        email: "E".to_string(),
        id_card_number: "I".to_string(),
        id_card_files: Some("/id/front.png".to_string()),
        ..Profile::default()
    };
    let request = AutomationRequest {
        infringing_url: "https://example.com/clip/1".to_string(),
        original_url: None,
        ip_asset_id: None,
    };
    let disk = FileSnapshot {
        platform: Platform::Windows,
        app_data_dir: None,
        present: strings(&["/id/front.png"]),
    };
    let settings = Settings::default();
    let script = generate_connect_script(&profile, None, &request, &disk, &settings).unwrap();
    let workflow =
        rights_guard::workflow::generate(&profile, None, &request, &disk, &settings).unwrap();
    assert_eq!(script, render_script(&workflow, 9222, true));
    assert!(script.contains("const idCardFiles = [\"\\\\id\\\\front.png\"];"));

    let asset = IpAsset { auth_files: Some("[bad".to_string()), ..IpAsset::default() };
    assert!(generate_connect_script(&profile, Some(&asset), &request, &disk, &settings).is_err());
    let none = FileSnapshot { platform: Platform::Linux, app_data_dir: None, present: Vec::new() };
    assert_eq!(
        generate_connect_script(&profile, None, &request, &none, &settings),
        Err(rights_guard::errors::ValidationError::NoIdentityDocuments)
    );
}
