//! The workflow as a script for the automation engine, and as a guide for a
//! person who fills in the form by hand.

use vstd::prelude::*;
use crate::json::{json_literal, json_string_literal};
use crate::errors::{ValidationError, ValidationErrorView};
use crate::files::{FileSnapshot, FileSnapshotView};
use crate::gate::{COMPLETED_MARKER, WAITING_MARKER};
use crate::models::{
    AutomationRequest, AutomationRequestView, IpAsset, IpAssetView, Profile, ProfileView,
};
use crate::settings::Settings;
use crate::text::{decimal_digits, decimal_of_u64, join, joined, string_of, string_views};
use crate::workflow::{
    generate, generated_workflow, opt_asset, AppealStage, AppealStageView, GeneratedWorkflow,
    IdentityStage, IdentityStageView, Period, PeriodView, RightsHolderStage,
    RightsHolderStageView, VerificationStage, WorkflowView,
};

verus! {

/// The page on which the appeal is filed.
pub const APPEAL_PAGE_URL: &'static str = "https://www.bilibili.com/v/copyright/apply?origin=home";

// ---------------------------------------------------------------------------
// File lists
// ---------------------------------------------------------------------------

/// What separates the entries of a file list.
pub const LIST_SEPARATOR: &'static str = ", ";

/// The literal that stands for `path` in a file list of the script.
pub open spec fn path_literal(path: Seq<char>) -> Seq<char> {
    json_string_literal(path)
}

/// The literals of `paths`.
pub open spec fn path_literals(paths: Seq<Seq<char>>) -> Seq<Seq<char>> {
    Seq::new(paths.len(), |i: int| path_literal(paths[i]))
}

/// The entries of a file list of the script: the literals of `paths`, with
/// a comma and a blank between neighbours.
pub open spec fn file_list(paths: Seq<Seq<char>>) -> Seq<char> {
    joined(path_literals(paths), LIST_SEPARATOR@)
}

/// Embeds a path for a file list of the script.
pub fn escape_file_path_for_js_array(path: &str) -> (literal: String)
    ensures
        literal@ == path_literal(path@),
{
    json_literal(path)
}

/// Writes the entries of a file list of the script.
pub fn render_file_list(paths: &[String]) -> (list: String)
    ensures
        list@ == file_list(string_views(paths@)),
{
    let mut literals: Vec<String> = Vec::new();
    let mut i: usize = 0;
    while i < paths.len()
        invariant
            i <= paths.len(),
            string_views(literals@) == path_literals(string_views(paths@)).take(i as int),
        decreases paths.len() - i,
    {
        let literal = escape_file_path_for_js_array(paths[i].as_str());
        proof {
            let all = path_literals(string_views(paths@));
            assert(string_views(literals@.push(literal)) =~= string_views(literals@).push(
                literal@,
            ));
            assert(all.take(i as int).push(all[i as int]) =~= all.take(i + 1));
        }
        literals.push(literal);
        i = i + 1;
    }
    proof {
        let all = path_literals(string_views(paths@));
        assert(all.take(paths.len() as int) =~= all);
    }
    join(&literals, LIST_SEPARATOR)
}

// ---------------------------------------------------------------------------
// Uploads
// ---------------------------------------------------------------------------

/// What the script says where there is no authorization document.
pub const NO_AUTH_FILES: &'static str = "console.log('ℹ️ 无授权证明文件需要上传');";

/// The upload of the authorization documents, up to the file list.
pub const AUTH_UPLOAD_HEAD: &'static str = r#"
        console.log('📋 开始上传授权证明文件...');
        try {
            const authFiles = ["#;

/// The upload of the authorization documents, from the file list on.
pub const AUTH_UPLOAD_TAIL: &'static str = r#"];
            console.log('📁 授权证明文件数量:', authFiles.length);
            
            // 使用更精确的选择器，基于用户录制的操作
            const authUploadArea = page.locator('div:nth-child(3) > .el-form-item__content > .inline-form-item > .copyright-img-upload > div > .el-upload');
            const uploadExists = await authUploadArea.count();
            console.log('🔍 授权证明上传区域数量:', uploadExists);
            
            if (uploadExists > 0) {
                await authUploadArea.first().setInputFiles(authFiles);
                console.log('✅ 授权证明文件上传完成');
                await page.waitForTimeout(2000); // 等待处理完成
            } else {
                console.log('⚠️ 未找到授权证明上传区域，尝试备用方法');
                const backupSelector = page.locator('.el-form-item:has-text("授权证明") input[type="file"]');
                const backupExists = await backupSelector.count();
                if (backupExists > 0) {
                    await backupSelector.first().setInputFiles(authFiles);
                    console.log('✅ 授权证明文件上传完成 (备用方法)');
                    await page.waitForTimeout(2000);
                }
            }
        } catch (error) {
            console.error('❌ 授权证明文件上传失败:', error);
        }"#;

/// What the script says where there is no proof of ownership.
pub const NO_WORK_PROOF_FILES: &'static str = "console.log('ℹ️ 无作品证明文件需要上传');";

/// The upload of the proofs of ownership, up to the file list.
pub const WORK_PROOF_UPLOAD_HEAD: &'static str = r#"
        console.log('🏆 开始上传作品证明文件...');
        try {
            const workProofFiles = ["#;

/// The upload of the proofs of ownership, from the file list on.
pub const WORK_PROOF_UPLOAD_TAIL: &'static str = r#"];
            console.log('📁 作品证明文件数量:', workProofFiles.length);
            
            // 使用更精确的选择器，基于用户录制的操作
            const workProofUploadArea = page.locator('.el-form-item.default-item > .el-form-item__content > .inline-form-item > .copyright-img-upload > div > .el-upload');
            const uploadExists = await workProofUploadArea.count();
            console.log('🔍 作品证明上传区域数量:', uploadExists);
            
            if (uploadExists > 0) {
                await workProofUploadArea.first().setInputFiles(workProofFiles);
                console.log('✅ 作品证明文件上传完成');
                await page.waitForTimeout(2000); // 等待处理完成
            } else {
                console.log('⚠️ 未找到作品证明上传区域，尝试备用方法');
                const backupSelector = page.locator('.el-form-item:has-text("证明")').last().locator('input[type="file"]');
                const backupExists = await backupSelector.count();
                if (backupExists > 0) {
                    await backupSelector.setInputFiles(workProofFiles);
                    console.log('✅ 作品证明文件上传完成 (备用方法)');
                    await page.waitForTimeout(2000);
                }
            }
        } catch (error) {
            console.error('❌ 作品证明文件上传失败:', error);
        }"#;

/// What the script says where there is no identity document.
pub const NO_ID_CARD_FILES: &'static str = "        console.log('ℹ️ 无身份证文件需要上传');";

/// The upload of the identity documents, up to the file list.
pub const ID_CARD_UPLOAD_HEAD: &'static str = r#"
        console.log('🆔 开始上传身份证文件...');
        try {
            const idCardFiles = ["#;

/// The upload of the identity documents, from the file list on.
pub const ID_CARD_UPLOAD_TAIL: &'static str = r#"];
            console.log('📊 文件数量:', idCardFiles.length);
            const idCardInput = page.locator('.el-upload__input').first();
            for (const filePath of idCardFiles) {
                await idCardInput.setInputFiles([filePath]);
                await page.waitForTimeout(2000);
            }
            console.log('✅ 身份证文件上传完成');
        } catch (error) {
            console.error('❌ 身份证文件上传整体失败: ', error);
        }"#;

/// The code of one upload: `none` where there is no file, else the file
/// list between `head` and `tail`.
pub open spec fn upload_code(
    files: Seq<Seq<char>>,
    none: Seq<char>,
    head: Seq<char>,
    tail: Seq<char>,
) -> Seq<char> {
    if files.len() == 0 {
        none
    } else {
        head + file_list(files) + tail
    }
}

/// The code that uploads the authorization documents.
pub open spec fn auth_files_upload_code(files: Seq<Seq<char>>) -> Seq<char> {
    upload_code(files, NO_AUTH_FILES@, AUTH_UPLOAD_HEAD@, AUTH_UPLOAD_TAIL@)
}

/// The code that uploads the proofs of ownership.
pub open spec fn work_proof_files_upload_code(files: Seq<Seq<char>>) -> Seq<char> {
    upload_code(files, NO_WORK_PROOF_FILES@, WORK_PROOF_UPLOAD_HEAD@, WORK_PROOF_UPLOAD_TAIL@)
}

/// The code that uploads the identity documents.
pub open spec fn id_card_files_upload_code(files: Seq<Seq<char>>) -> Seq<char> {
    upload_code(files, NO_ID_CARD_FILES@, ID_CARD_UPLOAD_HEAD@, ID_CARD_UPLOAD_TAIL@)
}

/// Writes the code of one upload.
fn render_upload(files: &[String], none: &str, head: &str, tail: &str) -> (code: String)
    ensures
        code@ == upload_code(string_views(files@), none@, head@, tail@),
{
    if files.len() == 0 {
        return String::from_str(none);
    }
    let list = render_file_list(files);
    let mut code = String::from_str(head);
    code.append(list.as_str());
    code.append(tail);
    code
}

/// Writes the code that uploads the authorization documents.
pub fn generate_auth_files_upload_code(auth_files: &[String]) -> (code: String)
    ensures
        code@ == auth_files_upload_code(string_views(auth_files@)),
{
    render_upload(auth_files, NO_AUTH_FILES, AUTH_UPLOAD_HEAD, AUTH_UPLOAD_TAIL)
}

/// Writes the code that uploads the proofs of ownership.
pub fn generate_work_proof_files_upload_code(work_proof_files: &[String]) -> (code: String)
    ensures
        code@ == work_proof_files_upload_code(string_views(work_proof_files@)),
{
    render_upload(
        work_proof_files,
        NO_WORK_PROOF_FILES,
        WORK_PROOF_UPLOAD_HEAD,
        WORK_PROOF_UPLOAD_TAIL,
    )
}

/// Writes the code that uploads the identity documents.
pub fn generate_id_card_files_upload_code(id_card_files: &[String]) -> (code: String)
    ensures
        code@ == id_card_files_upload_code(string_views(id_card_files@)),
{
    render_upload(id_card_files, NO_ID_CARD_FILES, ID_CARD_UPLOAD_HEAD, ID_CARD_UPLOAD_TAIL)
}

// ---------------------------------------------------------------------------
// The pieces of the script
// ---------------------------------------------------------------------------

/// The script up to the port of the debug endpoint.
pub const SCRIPT_OPEN: &'static str = r#"
const { test, chromium } = require('@playwright/test');
const fs = require('fs');

test('Bilibili Appeal - Connect Mode with File Upload', async () => {
    try {
        console.log('🚀 开始自动化申诉流程...');
        const browser = await chromium.connectOverCDP('http://127.0.0.1:"#;

/// The script from the port to the address of the page.
pub const SCRIPT_CONNECTED: &'static str = r#"', { timeout: 15000 });
        const context = browser.contexts()[0];
        const page = context.pages()[0] || await context.newPage();

        console.log('📄 导航到B站版权申诉页面...');
        await page.goto('"#;

/// The script from the address of the page to the first stage.
pub const SCRIPT_LOADED: &'static str = r#"', { timeout: 60000, waitUntil: 'networkidle' });
"#;

/// The end of the script.
pub const SCRIPT_CLOSE: &'static str = r#"
        console.log('🎉 自动化申诉流程准备就绪，页面保持打开供用户最终确认');
    } catch (error) {
        console.error('❌ 自动化申诉流程失败:', error);
        throw error;
    }
});
"#;

/// The end of a call that takes one literal.
pub const END_CALL: &'static str = ");\n";

/// The start of the identity stage, up to the name.
pub const FILL_NAME: &'static str = r#"
        console.log('✏️ 开始填写个人信息...');
        await page.locator('input[placeholder="真实姓名"].el-input__inner').first().fill("#;

/// The call that fills in the phone number.
pub const FILL_PHONE: &'static str =
    r#"        await page.locator('input[placeholder="手机号"].el-input__inner').first().fill("#;

/// The call that fills in the e-mail address.
pub const FILL_EMAIL: &'static str =
    r#"        await page.locator('.el-form-item:has-text("邮箱") input.el-input__inner').first().fill("#;

/// The call that fills in the number of the identity card.
pub const FILL_ID_NUMBER: &'static str =
    r#"        await page.locator('input[placeholder="证件号码"].el-input__inner').first().fill("#;

/// The wait for the human, up to the name of the file that says so.
pub const WAIT_OPEN: &'static str = r#"

        console.log('⏳ 等待用户完成验证码...');
        fs.writeFileSync('"#;

/// The wait for the human, up to the limit in seconds.
pub const WAIT_LIMIT: &'static str = r#"', 'waiting');
        const verificationDeadline = Date.now() + 1000 * "#;

/// The wait for the human, up to the name of the file that ends it.
pub const WAIT_LOOP: &'static str = r#";
        while (!fs.existsSync('"#;

/// The end of the wait for the human.
pub const WAIT_CLOSE: &'static str = r#"')) {
            if (Date.now() > verificationDeadline) {
                throw new Error('verification timeout: no completion signal within the limit');
            }
            await page.waitForTimeout(1000);
        }
        console.log('✅ 验证已完成，继续填写...');
"#;

/// The start of the rights-holder stage, up to the holder.
pub const FILL_OWNER: &'static str = r#"
        console.log('📋 开始填写IP资产信息...');
        await page.locator('.el-form-item:has-text("权利人") input[type="text"]').first().fill("#;

/// The start of the term of the authorization, up to its first day.
pub const AUTH_PERIOD_START: &'static str = r#"        await page.locator('div').filter({ hasText: /^授权期限/ }).getByPlaceholder('起始时间').click();
        await page.waitForTimeout(500);
        await page.keyboard.type("#;

/// The term of the authorization between its two days.
pub const AUTH_PERIOD_END: &'static str = r#");
        await page.keyboard.press('Tab');
        await page.locator('div').filter({ hasText: /^授权期限/ }).getByPlaceholder('结束时间').click();
        await page.waitForTimeout(500);
        await page.keyboard.type("#;

/// The start of the term of the work, up to its first day.
pub const WORK_PERIOD_START: &'static str = r#"        await page.locator('div').filter({ hasText: /^期限/ }).getByPlaceholder('起始时间').click();
        await page.waitForTimeout(500);
        await page.keyboard.type("#;

/// The term of the work between its two days.
pub const WORK_PERIOD_END: &'static str = r#");
        await page.keyboard.press('Tab');
        await page.locator('div').filter({ hasText: /^期限/ }).getByPlaceholder('结束时间').click();
        await page.waitForTimeout(500);
        await page.keyboard.type("#;

/// The end of a term.
pub const PERIOD_CLOSE: &'static str = r#");
        await page.keyboard.press('Tab');
"#;

/// The choice of the kind of work, up to the kind.
pub const SELECT_WORK_TYPE: &'static str = r#"        await page.locator('div').filter({ hasText: /^著作类型/ }).getByPlaceholder('请选择').click();
        await page.waitForTimeout(500);
        await page.getByRole('listitem').filter({ hasText: "#;

/// The end of the choice of the kind of work.
pub const SELECT_WORK_TYPE_CLOSE: &'static str = r#" }).click();
"#;

/// The call that fills in the title of the work.
pub const FILL_WORK_NAME: &'static str =
    r#"        await page.locator('.el-form-item:has-text("著作名称") input[type="text"]').first().fill("#;

/// The choice of the region.
pub const SELECT_REGION: &'static str = r#"        await page.locator('.el-form-item:has-text("地区") .el-select').first().click();
        await page.waitForTimeout(500);
        await page.getByRole('listitem').filter({ hasText: '中国大陆' }).first().click();
"#;

/// What stands before each upload of the rights-holder stage.
pub const UPLOAD_INDENT: &'static str = "        ";

/// What stands behind each upload of the rights-holder stage.
pub const UPLOAD_CLOSE: &'static str = "\n";

/// The end of the rights-holder stage.
pub const NEXT_PAGE: &'static str = r#"        console.log('✅ IP资产信息填写完成');
        await page.getByRole('button', { name: '下一步' }).click();
        await page.waitForTimeout(2000);
"#;

/// The start of the appeal stage, up to the infringing address.
pub const FILL_INFRINGING_URL: &'static str = r#"
        console.log('📝 填写申诉详情...');
        await page.locator('input[placeholder*="他人发布的B站侵权链接"]').first().fill("#;

/// The call that fills in the statement.
pub const FILL_STATEMENT: &'static str =
    r#"        await page.locator('textarea[placeholder*="该链接内容全部"]').first().fill("#;

/// The end of the appeal stage.
pub const CONFIRM_APPEAL: &'static str = r#"        await page.locator('.el-checkbox__label:has-text("本人保证")').first().click();
        console.log('✓ 申诉详情填写完成');
"#;

// ---------------------------------------------------------------------------
// The script: the model
// ---------------------------------------------------------------------------

/// The identity stage as code; the upload is left out of a script without
/// uploads.
pub open spec fn identity_code(stage: IdentityStageView, with_uploads: bool) -> Seq<char> {
    FILL_NAME@ + stage.name.literal + END_CALL@ + FILL_PHONE@ + stage.phone.literal + END_CALL@
        + FILL_EMAIL@ + stage.email.literal + END_CALL@ + FILL_ID_NUMBER@
        + stage.id_card_number.literal + END_CALL@ + if with_uploads {
        id_card_files_upload_code(stage.documents)
    } else {
        Seq::empty()
    }
}

/// The wait for the human as code.
pub open spec fn verification_code(stage: VerificationStage) -> Seq<char> {
    WAIT_OPEN@ + WAITING_MARKER@ + WAIT_LIMIT@ + decimal_digits(stage.timeout_secs as nat)
        + WAIT_LOOP@ + COMPLETED_MARKER@ + WAIT_CLOSE@
}

/// A term as code, between the pieces that enter its two days.
pub open spec fn period_code(period: Option<PeriodView>, start: Seq<char>, end: Seq<char>) -> Seq<
    char,
> {
    match period {
        Some(p) => start + p.start.literal + end + p.end.literal + PERIOD_CLOSE@,
        None => Seq::empty(),
    }
}

/// The two uploads of the rights-holder stage as code.
pub open spec fn rights_uploads_code(stage: RightsHolderStageView) -> Seq<char> {
    UPLOAD_INDENT@ + auth_files_upload_code(stage.authorization_files) + UPLOAD_CLOSE@
        + UPLOAD_INDENT@ + work_proof_files_upload_code(stage.ownership_files) + UPLOAD_CLOSE@
}

/// The rights-holder stage as code.
pub open spec fn rights_holder_code(stage: RightsHolderStageView, with_uploads: bool) -> Seq<
    char,
> {
    FILL_OWNER@ + stage.owner.literal + END_CALL@ + period_code(
        stage.authorization_period,
        AUTH_PERIOD_START@,
        AUTH_PERIOD_END@,
    ) + SELECT_WORK_TYPE@ + stage.work_type.literal + SELECT_WORK_TYPE_CLOSE@ + FILL_WORK_NAME@
        + stage.work_name.literal + END_CALL@ + SELECT_REGION@ + period_code(
        stage.work_period,
        WORK_PERIOD_START@,
        WORK_PERIOD_END@,
    ) + (if with_uploads {
        rights_uploads_code(stage)
    } else {
        Seq::empty()
    }) + NEXT_PAGE@
}

/// The rights-holder stage as code, where there is one.
pub open spec fn optional_rights_holder_code(
    stage: Option<RightsHolderStageView>,
    with_uploads: bool,
) -> Seq<char> {
    match stage {
        Some(stage) => rights_holder_code(stage, with_uploads),
        None => Seq::empty(),
    }
}

/// The appeal stage as code.
pub open spec fn appeal_code(stage: AppealStageView) -> Seq<char> {
    FILL_INFRINGING_URL@ + stage.infringing_url.literal + END_CALL@ + FILL_STATEMENT@
        + stage.statement.literal + END_CALL@ + CONFIRM_APPEAL@
}

/// The script that runs `workflow` against the browser that listens on
/// `debug_port`: the stages in their order, between the opening that
/// attaches to the browser and the closing that reports a failure.
pub open spec fn script_text(workflow: WorkflowView, debug_port: u16, with_uploads: bool) -> Seq<
    char,
> {
    SCRIPT_OPEN@ + decimal_digits(debug_port as nat) + SCRIPT_CONNECTED@ + APPEAL_PAGE_URL@
        + SCRIPT_LOADED@ + identity_code(workflow.identity, with_uploads) + verification_code(
        workflow.verification,
    ) + optional_rights_holder_code(workflow.rights_holder, with_uploads) + appeal_code(
        workflow.appeal,
    ) + SCRIPT_CLOSE@
}

// ---------------------------------------------------------------------------
// The script: the code
// ---------------------------------------------------------------------------

/// Writes the identity stage.
pub fn render_identity(stage: &IdentityStage, with_uploads: bool) -> (code: String)
    ensures
        code@ == identity_code(stage@, with_uploads),
{
    let mut code = String::from_str(FILL_NAME);
    code.append(stage.name.literal.as_str());
    code.append(END_CALL);
    code.append(FILL_PHONE);
    code.append(stage.phone.literal.as_str());
    code.append(END_CALL);
    code.append(FILL_EMAIL);
    code.append(stage.email.literal.as_str());
    code.append(END_CALL);
    code.append(FILL_ID_NUMBER);
    code.append(stage.id_card_number.literal.as_str());
    code.append(END_CALL);
    if with_uploads {
        let upload = generate_id_card_files_upload_code(stage.documents.as_slice());
        code.append(upload.as_str());
    }
    assert(code@ =~= identity_code(stage@, with_uploads));
    code
}

/// Writes the wait for the human.
pub fn render_verification(stage: &VerificationStage) -> (code: String)
    ensures
        code@ == verification_code(*stage),
{
    let limit = string_of(&decimal_of_u64(stage.timeout_secs as u64));
    let mut code = String::from_str(WAIT_OPEN);
    code.append(WAITING_MARKER);
    code.append(WAIT_LIMIT);
    code.append(limit.as_str());
    code.append(WAIT_LOOP);
    code.append(COMPLETED_MARKER);
    code.append(WAIT_CLOSE);
    code
}

/// Writes a term between the pieces that enter its two days.
fn render_period(period: &Option<Period>, start: &str, end: &str) -> (code: String)
    ensures
        code@ == period_code(crate::workflow::opt_period(*period), start@, end@),
{
    match period {
        Some(p) => {
            let mut code = String::from_str(start);
            code.append(p.start.literal.as_str());
            code.append(end);
            code.append(p.end.literal.as_str());
            code.append(PERIOD_CLOSE);
            code
        },
        None => String::new(),
    }
}

/// Writes the rights-holder stage.
pub fn render_rights_holder(stage: &RightsHolderStage, with_uploads: bool) -> (code: String)
    ensures
        code@ == rights_holder_code(stage@, with_uploads),
{
    let auth_period = render_period(&stage.authorization_period, AUTH_PERIOD_START, AUTH_PERIOD_END);
    let work_period = render_period(&stage.work_period, WORK_PERIOD_START, WORK_PERIOD_END);
    let mut code = String::from_str(FILL_OWNER);
    code.append(stage.owner.literal.as_str());
    code.append(END_CALL);
    code.append(auth_period.as_str());
    code.append(SELECT_WORK_TYPE);
    code.append(stage.work_type.literal.as_str());
    code.append(SELECT_WORK_TYPE_CLOSE);
    code.append(FILL_WORK_NAME);
    code.append(stage.work_name.literal.as_str());
    code.append(END_CALL);
    code.append(SELECT_REGION);
    code.append(work_period.as_str());
    if with_uploads {
        let auth = generate_auth_files_upload_code(stage.authorization_files.as_slice());
        let ownership = generate_work_proof_files_upload_code(stage.ownership_files.as_slice());
        let mut uploads = String::from_str(UPLOAD_INDENT);
        uploads.append(auth.as_str());
        uploads.append(UPLOAD_CLOSE);
        uploads.append(UPLOAD_INDENT);
        uploads.append(ownership.as_str());
        uploads.append(UPLOAD_CLOSE);
        assert(uploads@ =~= rights_uploads_code(stage@));
        code.append(uploads.as_str());
    }
    code.append(NEXT_PAGE);
    assert(code@ =~= rights_holder_code(stage@, with_uploads));
    code
}

/// Writes the appeal stage.
pub fn render_appeal(stage: &AppealStage) -> (code: String)
    ensures
        code@ == appeal_code(stage@),
{
    let mut code = String::from_str(FILL_INFRINGING_URL);
    code.append(stage.infringing_url.literal.as_str());
    code.append(END_CALL);
    code.append(FILL_STATEMENT);
    code.append(stage.statement.literal.as_str());
    code.append(END_CALL);
    code.append(CONFIRM_APPEAL);
    code
}

/// Writes the script that runs `workflow`; one without uploads fills in the
/// fields and leaves the files to the human.
pub fn render_script(workflow: &GeneratedWorkflow, debug_port: u16, with_uploads: bool) -> (script:
    String)
    ensures
        script@ == script_text(workflow@, debug_port, with_uploads),
{
    let port = string_of(&decimal_of_u64(debug_port as u64));
    let identity = render_identity(&workflow.identity, with_uploads);
    let verification = render_verification(&workflow.verification);
    let rights_holder = match &workflow.rights_holder {
        Some(stage) => render_rights_holder(stage, with_uploads),
        None => String::new(),
    };
    let appeal = render_appeal(&workflow.appeal);
    let mut script = String::from_str(SCRIPT_OPEN);
    script.append(port.as_str());
    script.append(SCRIPT_CONNECTED);
    script.append(APPEAL_PAGE_URL);
    script.append(SCRIPT_LOADED);
    script.append(identity.as_str());
    script.append(verification.as_str());
    script.append(rights_holder.as_str());
    script.append(appeal.as_str());
    script.append(SCRIPT_CLOSE);
    script
}

/// The script for a profile, an asset where there is one, and a request, or
/// the reason why there is none.
pub open spec fn connect_script(
    profile: ProfileView,
    asset: Option<IpAssetView>,
    request: AutomationRequestView,
    snapshot: FileSnapshotView,
    settings: Settings,
) -> Result<Seq<char>, ValidationErrorView> {
    match generated_workflow(profile, asset, request, snapshot, settings) {
        Ok(workflow) => Ok(script_text(workflow, settings.debug_port, true)),
        Err(e) => Err(e),
    }
}

/// Generates the workflow and writes it as the full script.
pub fn generate_connect_script(
    profile: &Profile,
    ip_asset: Option<&IpAsset>,
    request: &AutomationRequest,
    snapshot: &FileSnapshot,
    settings: &Settings,
) -> (r: Result<String, ValidationError>)
    ensures
        match r {
            Ok(script) => connect_script(
                profile@,
                opt_asset(ip_asset),
                request@,
                snapshot@,
                *settings,
            ) == Ok::<Seq<char>, ValidationErrorView>(script@),
            Err(e) => connect_script(profile@, opt_asset(ip_asset), request@, snapshot@, *settings)
                == Err::<Seq<char>, ValidationErrorView>(e@),
        },
{
    match generate(profile, ip_asset, request, snapshot, settings) {
        Ok(workflow) => Ok(render_script(&workflow, settings.debug_port, true)),
        Err(e) => Err(e),
    }
}

// ---------------------------------------------------------------------------
// The guide
// ---------------------------------------------------------------------------

/// The guide up to the address of the page.
pub const GUIDE_OPEN: &'static str = "Open ";

/// The guide from the address of the page to the name.
pub const GUIDE_NAME: &'static str = " in the browser and fill in the form by hand.\n- Real name: ";

/// The line of the guide for the phone number.
pub const GUIDE_PHONE: &'static str = "\n- Phone: ";

/// The line of the guide for the e-mail address.
pub const GUIDE_EMAIL: &'static str = "\n- E-mail: ";

/// The line of the guide for the number of the identity card.
pub const GUIDE_ID_NUMBER: &'static str = "\n- Identity card number: ";

/// The line of the guide for the identity documents.
pub const GUIDE_DOCUMENTS: &'static str = "\n- Upload the identity documents: ";

/// The line of the guide for the verification.
pub const GUIDE_VERIFY: &'static str =
    "\n- Complete the verification on the page and go to the next step.";

/// The line of the guide for the holder of the rights.
pub const GUIDE_OWNER: &'static str = "\n- Rights holder: ";

/// The line of the guide for the kind of work.
pub const GUIDE_WORK_TYPE: &'static str = "\n- Kind of work: ";

/// The line of the guide for the title of the work.
pub const GUIDE_WORK_NAME: &'static str = "\n- Title of the work: ";

/// The line of the guide for the authorization documents.
pub const GUIDE_AUTH_FILES: &'static str = "\n- Upload the authorization documents: ";

/// The line of the guide for the proofs of ownership.
pub const GUIDE_OWNERSHIP_FILES: &'static str = "\n- Upload the proofs of ownership: ";

/// The line of the guide for the infringing address.
pub const GUIDE_INFRINGING_URL: &'static str = "\n- Infringing address: ";

/// The line of the guide for the statement.
pub const GUIDE_STATEMENT: &'static str = "\n- Statement: ";

/// The end of the guide.
pub const GUIDE_CLOSE: &'static str = "\n- Tick the declaration and submit the appeal.\n";

/// The lines of the guide for the rights-holder stage.
pub open spec fn rights_holder_guide(stage: Option<RightsHolderStageView>) -> Seq<char> {
    match stage {
        Some(stage) => GUIDE_OWNER@ + stage.owner.text + GUIDE_WORK_TYPE@ + stage.work_type.text
            + GUIDE_WORK_NAME@ + stage.work_name.text + GUIDE_AUTH_FILES@ + joined(
            stage.authorization_files,
            LIST_SEPARATOR@,
        ) + GUIDE_OWNERSHIP_FILES@ + joined(stage.ownership_files, LIST_SEPARATOR@),
        None => Seq::empty(),
    }
}

/// The guide for a person who fills in the form by hand: every field with
/// the text as the user gave it, stage by stage.
pub open spec fn guide_text(workflow: WorkflowView) -> Seq<char> {
    GUIDE_OPEN@ + APPEAL_PAGE_URL@ + GUIDE_NAME@ + workflow.identity.name.text + GUIDE_PHONE@
        + workflow.identity.phone.text + GUIDE_EMAIL@ + workflow.identity.email.text
        + GUIDE_ID_NUMBER@ + workflow.identity.id_card_number.text + GUIDE_DOCUMENTS@ + joined(
        workflow.identity.documents,
        LIST_SEPARATOR@,
    ) + GUIDE_VERIFY@ + rights_holder_guide(workflow.rights_holder) + GUIDE_INFRINGING_URL@
        + workflow.appeal.infringing_url.text + GUIDE_STATEMENT@ + workflow.appeal.statement.text
        + GUIDE_CLOSE@
}

/// Writes the lines of the guide for the rights-holder stage.
fn render_rights_holder_guide(stage: &Option<RightsHolderStage>) -> (guide: String)
    ensures
        guide@ == rights_holder_guide(crate::workflow::opt_rights_holder(*stage)),
{
    match stage {
        Some(stage) => {
            let auth = join(&stage.authorization_files, LIST_SEPARATOR);
            let ownership = join(&stage.ownership_files, LIST_SEPARATOR);
            let mut guide = String::from_str(GUIDE_OWNER);
            guide.append(stage.owner.text.as_str());
            guide.append(GUIDE_WORK_TYPE);
            guide.append(stage.work_type.text.as_str());
            guide.append(GUIDE_WORK_NAME);
            guide.append(stage.work_name.text.as_str());
            guide.append(GUIDE_AUTH_FILES);
            guide.append(auth.as_str());
            guide.append(GUIDE_OWNERSHIP_FILES);
            guide.append(ownership.as_str());
            guide
        },
        None => String::new(),
    }
}

/// Writes the guide for a person who fills in the form by hand.
pub fn render_guide(workflow: &GeneratedWorkflow) -> (guide: String)
    ensures
        guide@ == guide_text(workflow@),
{
    let documents = join(&workflow.identity.documents, LIST_SEPARATOR);
    let rights_holder = render_rights_holder_guide(&workflow.rights_holder);
    let mut guide = String::from_str(GUIDE_OPEN);
    guide.append(APPEAL_PAGE_URL);
    guide.append(GUIDE_NAME);
    guide.append(workflow.identity.name.text.as_str());
    guide.append(GUIDE_PHONE);
    guide.append(workflow.identity.phone.text.as_str());
    guide.append(GUIDE_EMAIL);
    guide.append(workflow.identity.email.text.as_str());
    guide.append(GUIDE_ID_NUMBER);
    guide.append(workflow.identity.id_card_number.text.as_str());
    guide.append(GUIDE_DOCUMENTS);
    guide.append(documents.as_str());
    guide.append(GUIDE_VERIFY);
    guide.append(rights_holder.as_str());
    guide.append(GUIDE_INFRINGING_URL);
    guide.append(workflow.appeal.infringing_url.text.as_str());
    guide.append(GUIDE_STATEMENT);
    guide.append(workflow.appeal.statement.text.as_str());
    guide.append(GUIDE_CLOSE);
    guide
}

} // verus!
