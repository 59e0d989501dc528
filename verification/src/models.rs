//! The records that the orchestration core reads and reports.

use vstd::prelude::*;
use crate::text::string_views;

verus! {

/// An instant: seconds since the Unix epoch and nanoseconds within the
/// second.
#[derive(Clone, Copy, Debug, PartialEq, Eq, Structural)]
pub struct Timestamp {
    pub seconds: i64,
    pub nanos: u32,
}

/// The view of an optional string.
pub open spec fn opt_text(o: Option<String>) -> Option<Seq<char>> {
    match o {
        Some(s) => Some(s@),
        None => None,
    }
}

/// A copy of an optional string.
pub fn clone_opt_text(o: &Option<String>) -> (r: Option<String>)
    ensures
        opt_text(r) == opt_text(*o),
{
    match o {
        Some(s) => Some(s.clone()),
        None => None,
    }
}

// ---------------------------------------------------------------------------
// Profile
// ---------------------------------------------------------------------------

/// The identity of the person who files the appeal.
#[derive(Clone, Debug, PartialEq, Eq)]
pub struct Profile {
    pub id: Option<u128>,
    pub name: String,
    pub phone: String,
    pub email: String,
    pub id_card_number: String,
    /// The stored list of identity-document files: a JSON array of strings,
    /// or names separated by commas.
    pub id_card_files: Option<String>,
    pub created_at: Option<Timestamp>,
    pub updated_at: Option<Timestamp>,
}

/// A `Profile` as plain values.
pub struct ProfileView {
    pub id: Option<u128>,
    pub name: Seq<char>,
    pub phone: Seq<char>,
    pub email: Seq<char>,
    pub id_card_number: Seq<char>,
    pub id_card_files: Option<Seq<char>>,
    pub created_at: Option<Timestamp>,
    pub updated_at: Option<Timestamp>,
}

impl View for Profile {
    type V = ProfileView;

    open spec fn view(&self) -> ProfileView {
        ProfileView {
            id: self.id,
            name: self.name@,
            phone: self.phone@,
            email: self.email@,
            id_card_number: self.id_card_number@,
            id_card_files: opt_text(self.id_card_files),
            created_at: self.created_at,
            updated_at: self.updated_at,
        }
    }
}

impl ProfileView {
    /// The profile in which nothing is filled in.
    pub open spec fn blank() -> ProfileView {
        ProfileView {
            id: None,
            name: Seq::empty(),
            phone: Seq::empty(),
            email: Seq::empty(),
            id_card_number: Seq::empty(),
            id_card_files: None,
            created_at: None,
            updated_at: None,
        }
    }
}

impl Default for Profile {
    fn default() -> (r: Self)
        ensures
            r@ == ProfileView::blank(),
    {
        Profile {
            id: None,
            name: String::new(),
            phone: String::new(),
            email: String::new(),
            id_card_number: String::new(),
            id_card_files: None,
            created_at: None,
            updated_at: None,
        }
    }
}

// ---------------------------------------------------------------------------
// IpAsset
// ---------------------------------------------------------------------------

/// The region that a new asset is registered for.
pub const DEFAULT_REGION: &'static str = "中国大陆";

/// The kind of right that a new asset claims.
pub const DEFAULT_EQUITY_TYPE: &'static str = "著作权";

/// The status of an asset that has not been certified yet.
pub const DEFAULT_ASSET_STATUS: &'static str = "待认证";

/// The status of a case that has just been opened.
pub const DEFAULT_CASE_STATUS: &'static str = "新建";

/// A work and the rights held in it.
#[derive(Clone, Debug, PartialEq, Eq)]
pub struct IpAsset {
    pub id: Option<u128>,
    pub work_name: String,
    pub work_type: String,
    pub owner: String,
    pub region: String,
    pub work_start_date: String,
    pub work_end_date: String,
    pub equity_type: String,
    pub is_agent: bool,
    pub auth_start_date: Option<String>,
    pub auth_end_date: Option<String>,
    /// The stored list of authorization documents.
    pub auth_files: Option<String>,
    /// The stored list of documents that prove ownership of the work.
    pub work_proof_files: Option<String>,
    pub status: String,
    pub created_at: Option<Timestamp>,
    pub updated_at: Option<Timestamp>,
}

/// An `IpAsset` as plain values.
pub struct IpAssetView {
    pub id: Option<u128>,
    pub work_name: Seq<char>,
    pub work_type: Seq<char>,
    pub owner: Seq<char>,
    pub region: Seq<char>,
    pub work_start_date: Seq<char>,
    pub work_end_date: Seq<char>,
    pub equity_type: Seq<char>,
    pub is_agent: bool,
    pub auth_start_date: Option<Seq<char>>,
    pub auth_end_date: Option<Seq<char>>,
    pub auth_files: Option<Seq<char>>,
    pub work_proof_files: Option<Seq<char>>,
    pub status: Seq<char>,
    pub created_at: Option<Timestamp>,
    pub updated_at: Option<Timestamp>,
}

impl View for IpAsset {
    type V = IpAssetView;

    open spec fn view(&self) -> IpAssetView {
        IpAssetView {
            id: self.id,
            work_name: self.work_name@,
            work_type: self.work_type@,
            owner: self.owner@,
            region: self.region@,
            work_start_date: self.work_start_date@,
            work_end_date: self.work_end_date@,
            equity_type: self.equity_type@,
            is_agent: self.is_agent,
            auth_start_date: opt_text(self.auth_start_date),
            auth_end_date: opt_text(self.auth_end_date),
            auth_files: opt_text(self.auth_files),
            work_proof_files: opt_text(self.work_proof_files),
            status: self.status@,
            created_at: self.created_at,
            updated_at: self.updated_at,
        }
    }
}

impl IpAssetView {
    /// The asset in which only the region, the kind of right and the status
    /// are filled in.
    pub open spec fn blank() -> IpAssetView {
        IpAssetView {
            id: None,
            work_name: Seq::empty(),
            work_type: Seq::empty(),
            owner: Seq::empty(),
            region: DEFAULT_REGION@,
            work_start_date: Seq::empty(),
            work_end_date: Seq::empty(),
            equity_type: DEFAULT_EQUITY_TYPE@,
            is_agent: false,
            auth_start_date: None,
            auth_end_date: None,
            auth_files: None,
            work_proof_files: None,
            status: DEFAULT_ASSET_STATUS@,
            created_at: None,
            updated_at: None,
        }
    }
}

impl Default for IpAsset {
    fn default() -> (r: Self)
        ensures
            r@ == IpAssetView::blank(),
    {
        IpAsset {
            id: None,
            work_name: String::new(),
            work_type: String::new(),
            owner: String::new(),
            region: String::from_str(DEFAULT_REGION),
            work_start_date: String::new(),
            work_end_date: String::new(),
            equity_type: String::from_str(DEFAULT_EQUITY_TYPE),
            is_agent: false,
            auth_start_date: None,
            auth_end_date: None,
            auth_files: None,
            work_proof_files: None,
            status: String::from_str(DEFAULT_ASSET_STATUS),
            created_at: None,
            updated_at: None,
        }
    }
}

// ---------------------------------------------------------------------------
// Case
// ---------------------------------------------------------------------------

/// One appeal on record.
#[derive(Clone, Debug, PartialEq, Eq)]
pub struct Case {
    pub id: Option<u128>,
    pub infringing_url: String,
    pub original_url: Option<String>,
    pub associated_ip_id: Option<u128>,
    pub status: String,
    pub submission_date: Option<Timestamp>,
    pub created_at: Option<Timestamp>,
    pub updated_at: Option<Timestamp>,
}

/// A `Case` as plain values.
pub struct CaseView {
    pub id: Option<u128>,
    pub infringing_url: Seq<char>,
    pub original_url: Option<Seq<char>>,
    pub associated_ip_id: Option<u128>,
    pub status: Seq<char>,
    pub submission_date: Option<Timestamp>,
    pub created_at: Option<Timestamp>,
    pub updated_at: Option<Timestamp>,
}

impl View for Case {
    type V = CaseView;

    open spec fn view(&self) -> CaseView {
        CaseView {
            id: self.id,
            infringing_url: self.infringing_url@,
            original_url: opt_text(self.original_url),
            associated_ip_id: self.associated_ip_id,
            status: self.status@,
            submission_date: self.submission_date,
            created_at: self.created_at,
            updated_at: self.updated_at,
        }
    }
}

impl CaseView {
    /// The case in which only the status is filled in.
    pub open spec fn blank() -> CaseView {
        CaseView {
            id: None,
            infringing_url: Seq::empty(),
            original_url: None,
            associated_ip_id: None,
            status: DEFAULT_CASE_STATUS@,
            submission_date: None,
            created_at: None,
            updated_at: None,
        }
    }
}

impl Default for Case {
    fn default() -> (r: Self)
        ensures
            r@ == CaseView::blank(),
    {
        Case {
            id: None,
            infringing_url: String::new(),
            original_url: None,
            associated_ip_id: None,
            status: String::from_str(DEFAULT_CASE_STATUS),
            submission_date: None,
            created_at: None,
            updated_at: None,
        }
    }
}

// ---------------------------------------------------------------------------
// Requests, status, file selections
// ---------------------------------------------------------------------------

/// What the caller asks for: an appeal against one address.
#[derive(Clone, Debug, PartialEq, Eq)]
pub struct AutomationRequest {
    pub infringing_url: String,
    pub original_url: Option<String>,
    pub ip_asset_id: Option<u128>,
}

/// An `AutomationRequest` as plain values.
pub struct AutomationRequestView {
    pub infringing_url: Seq<char>,
    pub original_url: Option<Seq<char>>,
    pub ip_asset_id: Option<u128>,
}

impl View for AutomationRequest {
    type V = AutomationRequestView;

    open spec fn view(&self) -> AutomationRequestView {
        AutomationRequestView {
            infringing_url: self.infringing_url@,
            original_url: opt_text(self.original_url),
            ip_asset_id: self.ip_asset_id,
        }
    }
}

impl AutomationRequest {
    /// A copy of the request.
    pub fn duplicate(&self) -> (r: AutomationRequest)
        ensures
            r@ == self@,
    {
        AutomationRequest {
            infringing_url: self.infringing_url.clone(),
            original_url: clone_opt_text(&self.original_url),
            ip_asset_id: self.ip_asset_id,
        }
    }
}

/// The snapshot that a polling caller sees of a run.
#[derive(Clone, Debug, PartialEq, Eq)]
pub struct AutomationStatus {
    pub is_running: bool,
    pub current_step: Option<String>,
    /// Percent done, 0 to 100.
    pub progress: Option<u8>,
    pub error: Option<String>,
    pub started_at: Option<Timestamp>,
}

/// An `AutomationStatus` as plain values.
pub struct AutomationStatusView {
    pub is_running: bool,
    pub current_step: Option<Seq<char>>,
    pub progress: Option<u8>,
    pub error: Option<Seq<char>>,
    pub started_at: Option<Timestamp>,
}

impl View for AutomationStatus {
    type V = AutomationStatusView;

    open spec fn view(&self) -> AutomationStatusView {
        AutomationStatusView {
            is_running: self.is_running,
            current_step: opt_text(self.current_step),
            progress: self.progress,
            error: opt_text(self.error),
            started_at: self.started_at,
        }
    }
}

impl AutomationStatusView {
    /// The status before any run: not running, and nothing else known.
    pub open spec fn idle() -> AutomationStatusView {
        AutomationStatusView {
            is_running: false,
            current_step: None,
            progress: None,
            error: None,
            started_at: None,
        }
    }

    /// The progress stays within 0 to 100, and a run that is over without
    /// having reached 100 says why.
    pub open spec fn well_formed(self) -> bool {
        &&& self.progress matches Some(p) ==> p <= 100
        &&& (!self.is_running && self.started_at is Some && self.progress != Some(100u8))
            ==> (self.error matches Some(e) && e.len() > 0)
    }
}

impl AutomationStatus {
    /// The status before any run.
    pub fn idle() -> (r: AutomationStatus)
        ensures
            r@ == AutomationStatusView::idle(),
            r@.well_formed(),
    {
        AutomationStatus {
            is_running: false,
            current_step: None,
            progress: None,
            error: None,
            started_at: None,
        }
    }

    /// Tests whether the status is well formed.
    pub fn is_well_formed(&self) -> (ok: bool)
        ensures
            ok == self@.well_formed(),
    {
        let in_range = match self.progress {
            Some(p) => p <= 100,
            None => true,
        };
        let complete = match self.progress {
            Some(p) => p == 100,
            None => false,
        };
        let says_why = match &self.error {
            Some(e) => !e.as_str().is_empty(),
            None => false,
        };
        in_range && (self.is_running || self.started_at.is_none() || complete || says_why)
    }

    /// A copy of the status, which shares nothing with this one.
    pub fn snapshot(&self) -> (r: AutomationStatus)
        ensures
            r@ == self@,
    {
        AutomationStatus {
            is_running: self.is_running,
            current_step: clone_opt_text(&self.current_step),
            progress: self.progress,
            error: clone_opt_text(&self.error),
            started_at: self.started_at,
        }
    }
}

/// The files that the user picked in a dialog.
#[derive(Clone, Debug, PartialEq, Eq)]
pub struct FileSelection {
    pub paths: Vec<String>,
}

impl View for FileSelection {
    type V = Seq<Seq<char>>;

    open spec fn view(&self) -> Seq<Seq<char>> {
        string_views(self.paths@)
    }
}

impl FileSelection {
    /// The selection of a dialog that was closed without a choice.
    pub fn none() -> (r: FileSelection)
        ensures
            r@ == Seq::<Seq<char>>::empty(),
    {
        let r = FileSelection { paths: Vec::new() };
        assert(r@ =~= Seq::<Seq<char>>::empty());
        r
    }

    /// The selection of a dialog in which zero or one file was picked.
    pub fn from_choice(choice: Option<String>) -> (r: FileSelection)
        ensures
            r@ == match choice {
                Some(path) => seq![path@],
                None => Seq::<Seq<char>>::empty(),
            },
    {
        let mut paths: Vec<String> = Vec::new();
        if let Some(path) = choice {
            paths.push(path);
        }
        let r = FileSelection { paths };
        assert(r@ =~= match choice {
            Some(path) => seq![path@],
            None => Seq::<Seq<char>>::empty(),
        });
        r
    }

    /// The selection of a dialog in which any number of files was picked.
    pub fn from_choices(choices: Option<Vec<String>>) -> (r: FileSelection)
        ensures
            r@ == match choices {
                Some(paths) => string_views(paths@),
                None => Seq::<Seq<char>>::empty(),
            },
    {
        match choices {
            Some(paths) => FileSelection { paths },
            None => FileSelection::none(),
        }
    }
}

} // verus!
