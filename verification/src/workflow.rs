//! The workflow of one appeal: what is filled in, what is uploaded, and where
//! the run waits for the human.
//!
//! A workflow has three stages that are always there (identity, the wait for
//! verification, the appeal) and one that is there exactly when an asset is
//! given (the rights holder).

use vstd::prelude::*;
use crate::json::{
    closing_quote, json_literal, json_string_literal, lemma_literal_embeds_the_text, text_of,
};
use crate::errors::{ValidationError, ValidationErrorView};
use crate::files::{
    absolute_file_paths, agree_on, get_absolute_file_paths, lemma_agree_on_parts,
    lemma_lookup_candidates_suffice, lookup_candidates, lookup_candidates_of, FileSnapshot,
    FileSnapshotView,
};
use crate::models::opt_text;
use crate::models::{
    AutomationRequest, AutomationRequestView, IpAsset, IpAssetView, Profile, ProfileView,
};
use crate::settings::Settings;
use crate::text::{append_all, blank, chars_of, is_blank, string_views};

verus! {

/// What the appeal says of the address it is filed against.
pub const APPEAL_STATEMENT: &'static str = "该链接内容侵犯了我的版权，要求立即删除。";

// ---------------------------------------------------------------------------
// Text fields
// ---------------------------------------------------------------------------

/// A text as the user gave it, and the JSON string literal that embeds it.
#[derive(Clone, Debug, PartialEq, Eq)]
pub struct TextField {
    pub text: String,
    pub literal: String,
}

/// A `TextField` as plain values.
pub struct TextFieldView {
    pub text: Seq<char>,
    pub literal: Seq<char>,
}

impl View for TextField {
    type V = TextFieldView;

    open spec fn view(&self) -> TextFieldView {
        TextFieldView { text: self.text@, literal: self.literal@ }
    }
}

impl TextFieldView {
    /// The literal is the JSON form of the text.
    pub open spec fn well_formed(self) -> bool {
        self.literal == json_string_literal(self.text)
    }
}

/// The literal of `field` is one string literal, closed at its last
/// character, and a reader takes `text` from it.
pub open spec fn reads_back(field: TextFieldView, text: Seq<char>) -> bool {
    &&& field.text == text
    &&& field.literal.len() >= 2
    &&& field.literal[0] == '"'
    &&& closing_quote(field.literal, 1) == field.literal.len() - 1
    &&& text_of(field.literal, 1) == text
}

/// The field for `text`: the text, and its JSON string literal.
pub open spec fn embedded(text: Seq<char>) -> TextFieldView {
    TextFieldView { text, literal: json_string_literal(text) }
}

/// Embeds `text`: every text has its literal.
pub fn embed(text: &str) -> (field: TextField)
    ensures
        field@ == embedded(text@),
        field@.well_formed(),
{
    TextField { text: String::from_str(text), literal: json_literal(text) }
}

/// A period: the day it starts and the day it ends.
#[derive(Clone, Debug, PartialEq, Eq)]
pub struct Period {
    pub start: TextField,
    pub end: TextField,
}

/// A `Period` as plain values.
pub struct PeriodView {
    pub start: TextFieldView,
    pub end: TextFieldView,
}

impl View for Period {
    type V = PeriodView;

    open spec fn view(&self) -> PeriodView {
        PeriodView { start: self.start@, end: self.end@ }
    }
}

/// The view of an optional period.
pub open spec fn opt_period(o: Option<Period>) -> Option<PeriodView> {
    match o {
        Some(p) => Some(p@),
        None => None,
    }
}

// ---------------------------------------------------------------------------
// Stages
// ---------------------------------------------------------------------------

/// The kinds of stage, in the order in which a workflow runs them.
#[derive(Clone, Copy, Debug, PartialEq, Eq, Structural)]
pub enum StageKind {
    Identity,
    VerificationWait,
    RightsHolder,
    Appeal,
}

/// Who files: the identity fields and the identity documents.
#[derive(Clone, Debug, PartialEq, Eq)]
pub struct IdentityStage {
    pub name: TextField,
    pub phone: TextField,
    pub email: TextField,
    pub id_card_number: TextField,
    /// Absolute paths of the identity documents; never empty in a workflow
    /// that was generated.
    pub documents: Vec<String>,
}

/// An `IdentityStage` as plain values.
pub struct IdentityStageView {
    pub name: TextFieldView,
    pub phone: TextFieldView,
    pub email: TextFieldView,
    pub id_card_number: TextFieldView,
    pub documents: Seq<Seq<char>>,
}

impl View for IdentityStage {
    type V = IdentityStageView;

    open spec fn view(&self) -> IdentityStageView {
        IdentityStageView {
            name: self.name@,
            phone: self.phone@,
            email: self.email@,
            id_card_number: self.id_card_number@,
            documents: string_views(self.documents@),
        }
    }
}

/// The wait for the human: the workflow goes on when the verification is
/// signalled as completed, and fails when that takes longer than the limit.
#[derive(Clone, Copy, Debug, PartialEq, Eq, Structural)]
pub struct VerificationStage {
    pub timeout_secs: u32,
}

/// Whose rights: the fields of the asset and its two sets of documents.
#[derive(Clone, Debug, PartialEq, Eq)]
pub struct RightsHolderStage {
    pub owner: TextField,
    pub work_type: TextField,
    pub work_name: TextField,
    /// The term of the authorization, where the asset gives both ends.
    pub authorization_period: Option<Period>,
    /// The term of the work, where the asset gives both ends.
    pub work_period: Option<Period>,
    /// Absolute paths of the documents that prove the authorization.
    pub authorization_files: Vec<String>,
    /// Absolute paths of the documents that prove ownership of the work.
    pub ownership_files: Vec<String>,
}

/// A `RightsHolderStage` as plain values.
pub struct RightsHolderStageView {
    pub owner: TextFieldView,
    pub work_type: TextFieldView,
    pub work_name: TextFieldView,
    pub authorization_period: Option<PeriodView>,
    pub work_period: Option<PeriodView>,
    pub authorization_files: Seq<Seq<char>>,
    pub ownership_files: Seq<Seq<char>>,
}

impl View for RightsHolderStage {
    type V = RightsHolderStageView;

    open spec fn view(&self) -> RightsHolderStageView {
        RightsHolderStageView {
            owner: self.owner@,
            work_type: self.work_type@,
            work_name: self.work_name@,
            authorization_period: opt_period(self.authorization_period),
            work_period: opt_period(self.work_period),
            authorization_files: string_views(self.authorization_files@),
            ownership_files: string_views(self.ownership_files@),
        }
    }
}

/// The view of an optional rights-holder stage.
pub open spec fn opt_rights_holder(o: Option<RightsHolderStage>) -> Option<RightsHolderStageView> {
    match o {
        Some(stage) => Some(stage@),
        None => None,
    }
}

/// What is appealed against, and in which words.
#[derive(Clone, Debug, PartialEq, Eq)]
pub struct AppealStage {
    pub infringing_url: TextField,
    pub statement: TextField,
}

/// An `AppealStage` as plain values.
pub struct AppealStageView {
    pub infringing_url: TextFieldView,
    pub statement: TextFieldView,
}

impl View for AppealStage {
    type V = AppealStageView;

    open spec fn view(&self) -> AppealStageView {
        AppealStageView { infringing_url: self.infringing_url@, statement: self.statement@ }
    }
}

// ---------------------------------------------------------------------------
// The workflow
// ---------------------------------------------------------------------------

/// The workflow of one run.
#[derive(Clone, Debug, PartialEq, Eq)]
pub struct GeneratedWorkflow {
    pub identity: IdentityStage,
    pub verification: VerificationStage,
    pub rights_holder: Option<RightsHolderStage>,
    pub appeal: AppealStage,
}

/// A `GeneratedWorkflow` as plain values.
pub struct WorkflowView {
    pub identity: IdentityStageView,
    pub verification: VerificationStage,
    pub rights_holder: Option<RightsHolderStageView>,
    pub appeal: AppealStageView,
}

impl View for GeneratedWorkflow {
    type V = WorkflowView;

    open spec fn view(&self) -> WorkflowView {
        WorkflowView {
            identity: self.identity@,
            verification: self.verification,
            rights_holder: opt_rights_holder(self.rights_holder),
            appeal: self.appeal@,
        }
    }
}

impl WorkflowView {
    /// The kinds of the stages, in the order in which they run.
    pub open spec fn stage_kinds(self) -> Seq<StageKind> {
        if self.rights_holder is Some {
            seq![
                StageKind::Identity,
                StageKind::VerificationWait,
                StageKind::RightsHolder,
                StageKind::Appeal,
            ]
        } else {
            seq![StageKind::Identity, StageKind::VerificationWait, StageKind::Appeal]
        }
    }

    /// The files that the workflow uploads, stage by stage.
    pub open spec fn uploads(self) -> Seq<Seq<char>> {
        match self.rights_holder {
            Some(stage) => self.identity.documents + stage.authorization_files
                + stage.ownership_files,
            None => self.identity.documents,
        }
    }

    /// Every literal is the JSON form of its text.
    pub open spec fn well_formed(self) -> bool {
        &&& self.identity.name.well_formed()
        &&& self.identity.phone.well_formed()
        &&& self.identity.email.well_formed()
        &&& self.identity.id_card_number.well_formed()
        &&& self.appeal.infringing_url.well_formed()
        &&& self.appeal.statement.well_formed()
        &&& self.rights_holder matches Some(stage) ==> {
            &&& stage.owner.well_formed()
            &&& stage.work_type.well_formed()
            &&& stage.work_name.well_formed()
            &&& stage.authorization_period matches Some(p) ==> p.start.well_formed()
                && p.end.well_formed()
            &&& stage.work_period matches Some(p) ==> p.start.well_formed() && p.end.well_formed()
        }
    }
}

impl GeneratedWorkflow {
    /// The kinds of the stages, in the order in which they run.
    pub fn stage_kinds(&self) -> (kinds: Vec<StageKind>)
        ensures
            kinds@ == self@.stage_kinds(),
    {
        let mut kinds: Vec<StageKind> = Vec::new();
        kinds.push(StageKind::Identity);
        kinds.push(StageKind::VerificationWait);
        if self.rights_holder.is_some() {
            kinds.push(StageKind::RightsHolder);
        }
        kinds.push(StageKind::Appeal);
        assert(kinds@ =~= self@.stage_kinds());
        kinds
    }

    /// Tests whether the workflow has a rights-holder stage.
    pub fn has_rights_holder_stage(&self) -> (b: bool)
        ensures
            b == self@.stage_kinds().contains(StageKind::RightsHolder),
            b == (self@.rights_holder is Some),
    {
        proof {
            let kinds = self@.stage_kinds();
            if self@.rights_holder is Some {
                assert(kinds[2] == StageKind::RightsHolder);
            }
        }
        self.rights_holder.is_some()
    }
}

// ---------------------------------------------------------------------------
// Generation: the model
// ---------------------------------------------------------------------------

/// The identity stage for a profile whose documents resolved to `documents`.
pub open spec fn identity_stage_of(profile: ProfileView, documents: Seq<Seq<char>>)
    -> IdentityStageView {
    IdentityStageView {
        name: embedded(profile.name),
        phone: embedded(profile.phone),
        email: embedded(profile.email),
        id_card_number: embedded(profile.id_card_number),
        documents,
    }
}

/// The period between two days.
pub open spec fn period_of(start: Seq<char>, end: Seq<char>) -> PeriodView {
    PeriodView { start: embedded(start), end: embedded(end) }
}

/// The term of the authorization: there where the asset gives both ends.
pub open spec fn authorization_period_of(asset: IpAssetView) -> Option<PeriodView> {
    if asset.auth_start_date is Some && asset.auth_end_date is Some {
        Some(period_of(asset.auth_start_date->0, asset.auth_end_date->0))
    } else {
        None
    }
}

/// The term of the work: there where neither end is empty.
pub open spec fn work_period_of(asset: IpAssetView) -> Option<PeriodView> {
    if asset.work_start_date.len() > 0 && asset.work_end_date.len() > 0 {
        Some(period_of(asset.work_start_date, asset.work_end_date))
    } else {
        None
    }
}

/// The rights-holder stage for an asset, or the error of the first of its
/// two stored file lists that cannot be read.
pub open spec fn rights_holder_stage_of(asset: IpAssetView, snapshot: FileSnapshotView) -> Result<
    RightsHolderStageView,
    ValidationErrorView,
> {
    match absolute_file_paths(asset.auth_files, snapshot) {
        Err(e) => Err(e),
        Ok(authorization_files) => match absolute_file_paths(asset.work_proof_files, snapshot) {
            Err(e) => Err(e),
            Ok(ownership_files) => Ok(
                RightsHolderStageView {
                    owner: embedded(asset.owner),
                    work_type: embedded(asset.work_type),
                    work_name: embedded(asset.work_name),
                    authorization_period: authorization_period_of(asset),
                    work_period: work_period_of(asset),
                    authorization_files,
                    ownership_files,
                },
            ),
        },
    }
}

/// The rights-holder stage: there exactly where an asset is given.
pub open spec fn optional_rights_holder_stage_of(
    asset: Option<IpAssetView>,
    snapshot: FileSnapshotView,
) -> Result<Option<RightsHolderStageView>, ValidationErrorView> {
    match asset {
        None => Ok(None),
        Some(asset) => match rights_holder_stage_of(asset, snapshot) {
            Ok(stage) => Ok(Some(stage)),
            Err(e) => Err(e),
        },
    }
}

/// The appeal stage for a request.
pub open spec fn appeal_stage_of(request: AutomationRequestView) -> AppealStageView {
    AppealStageView {
        infringing_url: embedded(request.infringing_url),
        statement: embedded(APPEAL_STATEMENT@),
    }
}

/// The workflow for a profile, an asset where there is one, and a request,
/// against what is known of the disk.
///
/// Generation fails where the request names no address, where a stored file
/// list cannot be read, and where no identity document of the profile
/// exists; the checks are made in this order, the lists of the profile
/// before those of the asset. On every other input there is a workflow.
pub open spec fn generated_workflow(
    profile: ProfileView,
    asset: Option<IpAssetView>,
    request: AutomationRequestView,
    snapshot: FileSnapshotView,
    settings: Settings,
) -> Result<WorkflowView, ValidationErrorView> {
    if is_blank(request.infringing_url) {
        Err(ValidationErrorView::MissingInfringingUrl)
    } else {
        match absolute_file_paths(profile.id_card_files, snapshot) {
            Err(e) => Err(e),
            Ok(documents) => if documents.len() == 0 {
                Err(ValidationErrorView::NoIdentityDocuments)
            } else {
                match optional_rights_holder_stage_of(asset, snapshot) {
                    Err(e) => Err(e),
                    Ok(rights_holder) => Ok(
                        WorkflowView {
                            identity: identity_stage_of(profile, documents),
                            verification: VerificationStage {
                                timeout_secs: settings.verification_timeout_secs,
                            },
                            rights_holder,
                            appeal: appeal_stage_of(request),
                        },
                    ),
                }
            },
        }
    }
}

/// The locations that have to be looked at before the workflow of a profile
/// and an asset can be generated: those of the identity documents, then
/// those of the two sets of documents of the asset.
pub open spec fn workflow_candidates_of(
    profile: ProfileView,
    asset: Option<IpAssetView>,
    app_data_dir: Option<Seq<char>>,
) -> Result<Seq<Seq<char>>, ValidationErrorView> {
    match lookup_candidates_of(profile.id_card_files, app_data_dir) {
        Err(e) => Err(e),
        Ok(documents) => match asset {
            None => Ok(documents),
            Some(asset) => match lookup_candidates_of(asset.auth_files, app_data_dir) {
                Err(e) => Err(e),
                Ok(authorization) => match lookup_candidates_of(
                    asset.work_proof_files,
                    app_data_dir,
                ) {
                    Err(e) => Err(e),
                    Ok(ownership) => Ok(documents + authorization + ownership),
                },
            },
        },
    }
}

/// The view of an optional asset.
pub open spec fn opt_asset(o: Option<&IpAsset>) -> Option<IpAssetView> {
    match o {
        Some(asset) => Some(asset@),
        None => None,
    }
}

// ---------------------------------------------------------------------------
// Generation: the code
// ---------------------------------------------------------------------------

/// Builds the identity stage.
pub fn identity_stage(profile: &Profile, documents: Vec<String>) -> (stage: IdentityStage)
    ensures
        stage@ == identity_stage_of(profile@, string_views(documents@)),
{
    IdentityStage {
        name: embed(profile.name.as_str()),
        phone: embed(profile.phone.as_str()),
        email: embed(profile.email.as_str()),
        id_card_number: embed(profile.id_card_number.as_str()),
        documents,
    }
}

/// Builds a period from two days.
pub fn period(start: &str, end: &str) -> (p: Period)
    ensures
        p@ == period_of(start@, end@),
{
    Period { start: embed(start), end: embed(end) }
}

/// Builds the rights-holder stage.
pub fn rights_holder_stage(asset: &IpAsset, snapshot: &FileSnapshot) -> (r: Result<
    RightsHolderStage,
    ValidationError,
>)
    ensures
        match r {
            Ok(stage) => rights_holder_stage_of(asset@, snapshot@) == Ok::<
                RightsHolderStageView,
                ValidationErrorView,
            >(stage@),
            Err(e) => rights_holder_stage_of(asset@, snapshot@) == Err::<
                RightsHolderStageView,
                ValidationErrorView,
            >(e@),
        },
{
    let authorization_files = match get_absolute_file_paths(&asset.auth_files, snapshot) {
        Ok(paths) => paths,
        Err(e) => {
            return Err(e);
        },
    };
    let ownership_files = match get_absolute_file_paths(&asset.work_proof_files, snapshot) {
        Ok(paths) => paths,
        Err(e) => {
            return Err(e);
        },
    };
    let authorization_period = match (&asset.auth_start_date, &asset.auth_end_date) {
        (Some(start), Some(end)) => Some(period(start.as_str(), end.as_str())),
        _ => None,
    };
    let work_period = if !asset.work_start_date.as_str().is_empty()
        && !asset.work_end_date.as_str().is_empty() {
        Some(period(asset.work_start_date.as_str(), asset.work_end_date.as_str()))
    } else {
        None
    };
    Ok(
        RightsHolderStage {
            owner: embed(asset.owner.as_str()),
            work_type: embed(asset.work_type.as_str()),
            work_name: embed(asset.work_name.as_str()),
            authorization_period,
            work_period,
            authorization_files,
            ownership_files,
        },
    )
}

/// Builds the appeal stage.
pub fn appeal_stage(request: &AutomationRequest) -> (stage: AppealStage)
    ensures
        stage@ == appeal_stage_of(request@),
{
    AppealStage {
        infringing_url: embed(request.infringing_url.as_str()),
        statement: embed(APPEAL_STATEMENT),
    }
}

/// Lists the locations that have to be looked at before the workflow can be
/// generated.
pub fn workflow_candidates(
    profile: &Profile,
    asset: Option<&IpAsset>,
    app_data_dir: &Option<String>,
) -> (r: Result<Vec<String>, ValidationError>)
    ensures
        match r {
            Ok(paths) => workflow_candidates_of(profile@, opt_asset(asset), opt_text(*app_data_dir))
                == Ok::<Seq<Seq<char>>, ValidationErrorView>(string_views(paths@)),
            Err(e) => workflow_candidates_of(profile@, opt_asset(asset), opt_text(*app_data_dir))
                == Err::<Seq<Seq<char>>, ValidationErrorView>(e@),
        },
{
    let mut paths = match lookup_candidates(&profile.id_card_files, app_data_dir) {
        Ok(paths) => paths,
        Err(e) => {
            return Err(e);
        },
    };
    if let Some(asset) = asset {
        let authorization = match lookup_candidates(&asset.auth_files, app_data_dir) {
            Ok(paths) => paths,
            Err(e) => {
                return Err(e);
            },
        };
        let ownership = match lookup_candidates(&asset.work_proof_files, app_data_dir) {
            Ok(paths) => paths,
            Err(e) => {
                return Err(e);
            },
        };
        append_all(&mut paths, authorization);
        append_all(&mut paths, ownership);
    }
    Ok(paths)
}

/// Generates the workflow of one run.
///
/// The result is a function of the arguments alone. It is an error where the
/// request names no address, where a stored file list cannot be read, and
/// where none of the profile's identity documents exists; on every other
/// input a workflow is returned. The rights-holder stage is there exactly
/// where `asset` is.
pub fn generate(
    profile: &Profile,
    asset: Option<&IpAsset>,
    request: &AutomationRequest,
    snapshot: &FileSnapshot,
    settings: &Settings,
) -> (r: Result<GeneratedWorkflow, ValidationError>)
    ensures
        match r {
            Ok(workflow) => generated_workflow(
                profile@,
                opt_asset(asset),
                request@,
                snapshot@,
                *settings,
            ) == Ok::<WorkflowView, ValidationErrorView>(workflow@),
            Err(e) => generated_workflow(profile@, opt_asset(asset), request@, snapshot@, *settings)
                == Err::<WorkflowView, ValidationErrorView>(e@),
        },
{
    if blank(&chars_of(request.infringing_url.as_str())) {
        return Err(ValidationError::MissingInfringingUrl);
    }
    let documents = match get_absolute_file_paths(&profile.id_card_files, snapshot) {
        Ok(paths) => paths,
        Err(e) => {
            return Err(e);
        },
    };
    if documents.len() == 0 {
        return Err(ValidationError::NoIdentityDocuments);
    }
    let rights_holder = match asset {
        Some(asset) => match rights_holder_stage(asset, snapshot) {
            Ok(stage) => Some(stage),
            Err(e) => {
                return Err(e);
            },
        },
        None => None,
    };
    Ok(
        GeneratedWorkflow {
            identity: identity_stage(profile, documents),
            verification: VerificationStage { timeout_secs: settings.verification_timeout_secs },
            rights_holder,
            appeal: appeal_stage(request),
        },
    )
}

// ---------------------------------------------------------------------------
// Laws
// ---------------------------------------------------------------------------

/// Generation is a function of its inputs: the same profile, asset, request
/// and files give the same workflow, or the same error.
pub proof fn lemma_generation_is_a_function(
    profile: ProfileView,
    asset: Option<IpAssetView>,
    request: AutomationRequestView,
    snapshot: FileSnapshotView,
    settings: Settings,
    profile2: ProfileView,
    asset2: Option<IpAssetView>,
    request2: AutomationRequestView,
    snapshot2: FileSnapshotView,
    settings2: Settings,
)
    requires
        profile == profile2,
        asset == asset2,
        request == request2,
        snapshot == snapshot2,
        settings == settings2,
    ensures
        generated_workflow(profile, asset, request, snapshot, settings) == generated_workflow(
            profile2,
            asset2,
            request2,
            snapshot2,
            settings2,
        ),
{
}

/// The rights-holder stage is there exactly where an asset is given: with
/// an asset the workflow has the four stages in their order, without one it
/// has the three others.
pub proof fn lemma_rights_holder_stage_iff_asset(
    profile: ProfileView,
    asset: Option<IpAssetView>,
    request: AutomationRequestView,
    snapshot: FileSnapshotView,
    settings: Settings,
)
    requires
        generated_workflow(profile, asset, request, snapshot, settings) is Ok,
    ensures
        ({
            let workflow = generated_workflow(profile, asset, request, snapshot, settings)->Ok_0;
            &&& workflow.rights_holder is Some <==> asset is Some
            &&& workflow.stage_kinds().contains(StageKind::RightsHolder) <==> asset is Some
            &&& asset is Some ==> workflow.stage_kinds() == seq![
                StageKind::Identity,
                StageKind::VerificationWait,
                StageKind::RightsHolder,
                StageKind::Appeal,
            ]
            &&& asset is None ==> workflow.stage_kinds() == seq![
                StageKind::Identity,
                StageKind::VerificationWait,
                StageKind::Appeal,
            ]
        }),
{
    let workflow = generated_workflow(profile, asset, request, snapshot, settings)->Ok_0;
    let kinds = workflow.stage_kinds();
    if asset is Some {
        assert(kinds[2] == StageKind::RightsHolder);
    } else {
        assert forall|i: int| 0 <= i < kinds.len() implies kinds[i] != StageKind::RightsHolder by {}
    }
}

/// A workflow that was generated holds the texts as they were given, each
/// with the literal that embeds it; it uploads the files that the stored
/// lists resolve to, of which the identity documents are at least one; and
/// it waits for the human as long as the settings say.
pub proof fn lemma_generated_workflow_holds_the_inputs(
    profile: ProfileView,
    asset: Option<IpAssetView>,
    request: AutomationRequestView,
    snapshot: FileSnapshotView,
    settings: Settings,
)
    requires
        generated_workflow(profile, asset, request, snapshot, settings) is Ok,
    ensures
        ({
            let workflow = generated_workflow(profile, asset, request, snapshot, settings)->Ok_0;
            &&& workflow.well_formed()
            &&& workflow.identity.name.text == profile.name
            &&& workflow.identity.phone.text == profile.phone
            &&& workflow.identity.email.text == profile.email
            &&& workflow.identity.id_card_number.text == profile.id_card_number
            &&& workflow.appeal.infringing_url.text == request.infringing_url
            &&& workflow.appeal.statement.text == APPEAL_STATEMENT@
            &&& workflow.verification.timeout_secs == settings.verification_timeout_secs
            &&& workflow.identity.documents.len() > 0
            &&& absolute_file_paths(profile.id_card_files, snapshot) == Ok::<
                Seq<Seq<char>>,
                ValidationErrorView,
            >(workflow.identity.documents)
            &&& asset matches Some(a) ==> {
                let stage = workflow.rights_holder->0;
                &&& stage.owner.text == a.owner
                &&& stage.work_type.text == a.work_type
                &&& stage.work_name.text == a.work_name
                &&& absolute_file_paths(a.auth_files, snapshot) == Ok::<
                    Seq<Seq<char>>,
                    ValidationErrorView,
                >(stage.authorization_files)
                &&& absolute_file_paths(a.work_proof_files, snapshot) == Ok::<
                    Seq<Seq<char>>,
                    ValidationErrorView,
                >(stage.ownership_files)
                &&& workflow.uploads() == workflow.identity.documents + stage.authorization_files
                    + stage.ownership_files
            }
            &&& asset is None ==> workflow.uploads() == workflow.identity.documents
        }),
{
}

/// Generation reads the disk through the locations that
/// `workflow_candidates` names: two snapshots with the same data directory
/// that agree on those locations give the same workflow, or the same error.
pub proof fn lemma_workflow_candidates_suffice(
    profile: ProfileView,
    asset: Option<IpAssetView>,
    request: AutomationRequestView,
    first: FileSnapshotView,
    second: FileSnapshotView,
    settings: Settings,
)
    requires
        first.platform == second.platform,
        first.app_data_dir == second.app_data_dir,
        workflow_candidates_of(profile, asset, first.app_data_dir) is Ok,
        agree_on(
            first.present,
            second.present,
            workflow_candidates_of(profile, asset, first.app_data_dir)->Ok_0,
        ),
    ensures
        generated_workflow(profile, asset, request, first, settings) == generated_workflow(
            profile,
            asset,
            request,
            second,
            settings,
        ),
{
    let dir = first.app_data_dir;
    let documents = lookup_candidates_of(profile.id_card_files, dir)->Ok_0;
    match asset {
        None => {
            lemma_lookup_candidates_suffice(profile.id_card_files, first, second);
        },
        Some(a) => {
            let authorization = lookup_candidates_of(a.auth_files, dir)->Ok_0;
            let ownership = lookup_candidates_of(a.work_proof_files, dir)->Ok_0;
            lemma_agree_on_parts(
                first.present,
                second.present,
                documents + authorization,
                ownership,
            );
            lemma_agree_on_parts(first.present, second.present, documents, authorization);
            lemma_lookup_candidates_suffice(profile.id_card_files, first, second);
            lemma_lookup_candidates_suffice(a.auth_files, first, second);
            lemma_lookup_candidates_suffice(a.work_proof_files, first, second);
        },
    }
}

/// The texts of a workflow that was generated are embedded safely: each
/// literal is one string literal, which a reader leaves at its last
/// character and nowhere before, and from which the reader takes the text as
/// it was given, character by character.
pub proof fn lemma_generated_texts_read_back(
    profile: ProfileView,
    asset: Option<IpAssetView>,
    request: AutomationRequestView,
    snapshot: FileSnapshotView,
    settings: Settings,
)
    requires
        generated_workflow(profile, asset, request, snapshot, settings) is Ok,
    ensures
        ({
            let workflow = generated_workflow(profile, asset, request, snapshot, settings)->Ok_0;
            &&& reads_back(workflow.identity.name, profile.name)
            &&& reads_back(workflow.identity.phone, profile.phone)
            &&& reads_back(workflow.identity.email, profile.email)
            &&& reads_back(workflow.identity.id_card_number, profile.id_card_number)
            &&& reads_back(workflow.appeal.infringing_url, request.infringing_url)
            &&& asset matches Some(a) ==> {
                &&& reads_back(workflow.rights_holder->0.owner, a.owner)
                &&& reads_back(workflow.rights_holder->0.work_type, a.work_type)
                &&& reads_back(workflow.rights_holder->0.work_name, a.work_name)
            }
        }),
{
    lemma_literal_embeds_the_text(profile.name);
    lemma_literal_embeds_the_text(profile.phone);
    lemma_literal_embeds_the_text(profile.email);
    lemma_literal_embeds_the_text(profile.id_card_number);
    lemma_literal_embeds_the_text(request.infringing_url);
    if let Some(a) = asset {
        lemma_literal_embeds_the_text(a.owner);
        lemma_literal_embeds_the_text(a.work_type);
        lemma_literal_embeds_the_text(a.work_name);
    }
}

/// A profile without identity documents gets no workflow: where the stored
/// list is absent or blank, or none of the listed files exists, generation
/// fails for that reason, whatever the asset is.
pub proof fn lemma_no_identity_documents_no_workflow(
    profile: ProfileView,
    asset: Option<IpAssetView>,
    request: AutomationRequestView,
    snapshot: FileSnapshotView,
    settings: Settings,
)
    requires
        !is_blank(request.infringing_url),
        profile.id_card_files is None || is_blank(profile.id_card_files->0) || absolute_file_paths(
            profile.id_card_files,
            snapshot,
        ) == Ok::<Seq<Seq<char>>, ValidationErrorView>(Seq::empty()),
    ensures
        generated_workflow(profile, asset, request, snapshot, settings) == Err::<
            WorkflowView,
            ValidationErrorView,
        >(ValidationErrorView::NoIdentityDocuments),
{
    assert(crate::files::resolve_all(Seq::<Seq<char>>::empty(), snapshot) =~= Seq::<
        Seq<char>,
    >::empty());
}

} // verus!
