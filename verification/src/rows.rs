//! From the rows of the database to the records: identifiers and instants
//! are stored as text and are read back here.

use vstd::prelude::*;
use crate::bridge::{parse_rfc3339, parse_uuid, rfc3339_instant, uuid_from_text};
use crate::models::{
    clone_opt_text, opt_text, Case, CaseView, IpAsset, IpAssetView, Profile, ProfileView,
    Timestamp,
};

verus! {

/// The column of the identifier.
pub const COLUMN_ID: &'static str = "id";

/// The column of the instant of creation.
pub const COLUMN_CREATED_AT: &'static str = "created_at";

/// The column of the instant of the last change.
pub const COLUMN_UPDATED_AT: &'static str = "updated_at";

/// The column of the asset that a case is about.
pub const COLUMN_ASSOCIATED_IP_ID: &'static str = "associated_ip_id";

/// The column of the instant at which a case was filed.
pub const COLUMN_SUBMISSION_DATE: &'static str = "submission_date";

/// A column whose text cannot be read.
#[derive(Clone, Debug, PartialEq, Eq)]
pub struct ColumnDecodeError {
    /// The name of the column.
    pub index: String,
    /// What the parser said.
    pub detail: String,
}

/// A `ColumnDecodeError` as plain values.
pub struct ColumnDecodeErrorView {
    pub index: Seq<char>,
    pub detail: Seq<char>,
}

impl View for ColumnDecodeError {
    type V = ColumnDecodeErrorView;

    open spec fn view(&self) -> ColumnDecodeErrorView {
        ColumnDecodeErrorView { index: self.index@, detail: self.detail@ }
    }
}

/// The identifier that a column holds: none where the column is empty.
pub open spec fn decoded_id(text: Option<Seq<char>>, column: Seq<char>) -> Result<
    Option<u128>,
    ColumnDecodeErrorView,
> {
    match text {
        None => Ok(None),
        Some(text) => match uuid_from_text(text) {
            Ok(id) => Ok(Some(id)),
            Err(detail) => Err(ColumnDecodeErrorView { index: column, detail }),
        },
    }
}

/// The instant that a column holds: none where the column is empty.
pub open spec fn decoded_instant(text: Option<Seq<char>>, column: Seq<char>) -> Result<
    Option<Timestamp>,
    ColumnDecodeErrorView,
> {
    match text {
        None => Ok(None),
        Some(text) => match rfc3339_instant(text) {
            Ok((seconds, nanos)) => Ok(Some(Timestamp { seconds, nanos })),
            Err(detail) => Err(ColumnDecodeErrorView { index: column, detail }),
        },
    }
}

/// Reads the identifier of a column.
pub fn decode_id(text: &Option<String>, column: &str) -> (r: Result<
    Option<u128>,
    ColumnDecodeError,
>)
    ensures
        match r {
            Ok(id) => decoded_id(opt_text(*text), column@) == Ok::<
                Option<u128>,
                ColumnDecodeErrorView,
            >(id),
            Err(e) => decoded_id(opt_text(*text), column@) == Err::<
                Option<u128>,
                ColumnDecodeErrorView,
            >(e@),
        },
{
    match text {
        None => Ok(None),
        Some(text) => match parse_uuid(text.as_str()) {
            Ok(id) => Ok(Some(id)),
            Err(detail) => Err(ColumnDecodeError { index: String::from_str(column), detail }),
        },
    }
}

/// Reads the instant of a column.
pub fn decode_instant(text: &Option<String>, column: &str) -> (r: Result<
    Option<Timestamp>,
    ColumnDecodeError,
>)
    ensures
        match r {
            Ok(at) => decoded_instant(opt_text(*text), column@) == Ok::<
                Option<Timestamp>,
                ColumnDecodeErrorView,
            >(at),
            Err(e) => decoded_instant(opt_text(*text), column@) == Err::<
                Option<Timestamp>,
                ColumnDecodeErrorView,
            >(e@),
        },
{
    match text {
        None => Ok(None),
        Some(text) => match parse_rfc3339(text.as_str()) {
            Ok(at) => Ok(Some(at)),
            Err(detail) => Err(ColumnDecodeError { index: String::from_str(column), detail }),
        },
    }
}

// ---------------------------------------------------------------------------
// Profile
// ---------------------------------------------------------------------------

/// A row of the table of profiles, column by column.
#[derive(Clone, Debug, PartialEq, Eq)]
pub struct ProfileRow {
    pub id: Option<String>,
    pub name: String,
    pub phone: String,
    pub email: String,
    pub id_card_number: String,
    pub id_card_files: Option<String>,
    pub created_at: Option<String>,
    pub updated_at: Option<String>,
}

/// A `ProfileRow` as plain values.
pub struct ProfileRowView {
    pub id: Option<Seq<char>>,
    pub name: Seq<char>,
    pub phone: Seq<char>,
    pub email: Seq<char>,
    pub id_card_number: Seq<char>,
    pub id_card_files: Option<Seq<char>>,
    pub created_at: Option<Seq<char>>,
    pub updated_at: Option<Seq<char>>,
}

impl View for ProfileRow {
    type V = ProfileRowView;

    open spec fn view(&self) -> ProfileRowView {
        ProfileRowView {
            id: opt_text(self.id),
            name: self.name@,
            phone: self.phone@,
            email: self.email@,
            id_card_number: self.id_card_number@,
            id_card_files: opt_text(self.id_card_files),
            created_at: opt_text(self.created_at),
            updated_at: opt_text(self.updated_at),
        }
    }
}

impl ProfileRowView {
    /// The profile that the row holds. The first column that cannot be read
    /// is the error: the identifier, the instant of creation, the instant of
    /// the last change.
    pub open spec fn profile(self) -> Result<ProfileView, ColumnDecodeErrorView> {
        match decoded_id(self.id, COLUMN_ID@) {
            Err(e) => Err(e),
            Ok(id) => match decoded_instant(self.created_at, COLUMN_CREATED_AT@) {
                Err(e) => Err(e),
                Ok(created_at) => match decoded_instant(self.updated_at, COLUMN_UPDATED_AT@) {
                    Err(e) => Err(e),
                    Ok(updated_at) => Ok(
                        ProfileView {
                            id,
                            name: self.name,
                            phone: self.phone,
                            email: self.email,
                            id_card_number: self.id_card_number,
                            id_card_files: self.id_card_files,
                            created_at,
                            updated_at,
                        },
                    ),
                },
            },
        }
    }
}

impl Profile {
    /// Reads a profile from its row.
    pub fn from_row(row: &ProfileRow) -> (r: Result<Profile, ColumnDecodeError>)
        ensures
            match r {
                Ok(profile) => row@.profile() == Ok::<ProfileView, ColumnDecodeErrorView>(
                    profile@,
                ),
                Err(e) => row@.profile() == Err::<ProfileView, ColumnDecodeErrorView>(e@),
            },
    {
        let id = match decode_id(&row.id, COLUMN_ID) {
            Ok(id) => id,
            Err(e) => {
                return Err(e);
            },
        };
        let created_at = match decode_instant(&row.created_at, COLUMN_CREATED_AT) {
            Ok(at) => at,
            Err(e) => {
                return Err(e);
            },
        };
        let updated_at = match decode_instant(&row.updated_at, COLUMN_UPDATED_AT) {
            Ok(at) => at,
            Err(e) => {
                return Err(e);
            },
        };
        Ok(
            Profile {
                id,
                name: row.name.clone(),
                phone: row.phone.clone(),
                email: row.email.clone(),
                id_card_number: row.id_card_number.clone(),
                id_card_files: clone_opt_text(&row.id_card_files),
                created_at,
                updated_at,
            },
        )
    }
}

// ---------------------------------------------------------------------------
// IpAsset
// ---------------------------------------------------------------------------

/// A row of the table of assets, column by column.
#[derive(Clone, Debug, PartialEq, Eq)]
pub struct IpAssetRow {
    pub id: Option<String>,
    pub work_name: String,
    pub work_type: String,
    pub owner: String,
    pub region: String,
    pub work_start_date: String,
    pub work_end_date: String,
    pub equity_type: String,
    pub is_agent: bool,
    pub auth_start_date: Option<String>,
    pub auth_end_date: Option<String>,
    pub auth_files: Option<String>,
    pub work_proof_files: Option<String>,
    pub status: String,
    pub created_at: Option<String>,
    pub updated_at: Option<String>,
}

/// An `IpAssetRow` as plain values.
pub struct IpAssetRowView {
    pub id: Option<Seq<char>>,
    pub work_name: Seq<char>,
    pub work_type: Seq<char>,
    pub owner: Seq<char>,
    pub region: Seq<char>,
    pub work_start_date: Seq<char>,
    pub work_end_date: Seq<char>,
    pub equity_type: Seq<char>,
    pub is_agent: bool,
    pub auth_start_date: Option<Seq<char>>,
    pub auth_end_date: Option<Seq<char>>,
    pub auth_files: Option<Seq<char>>,
    pub work_proof_files: Option<Seq<char>>,
    pub status: Seq<char>,
    pub created_at: Option<Seq<char>>,
    pub updated_at: Option<Seq<char>>,
}

impl View for IpAssetRow {
    type V = IpAssetRowView;

    open spec fn view(&self) -> IpAssetRowView {
        IpAssetRowView {
            id: opt_text(self.id),
            work_name: self.work_name@,
            work_type: self.work_type@,
            owner: self.owner@,
            region: self.region@,
            work_start_date: self.work_start_date@,
            work_end_date: self.work_end_date@,
            equity_type: self.equity_type@,
            is_agent: self.is_agent,
            auth_start_date: opt_text(self.auth_start_date),
            auth_end_date: opt_text(self.auth_end_date),
            auth_files: opt_text(self.auth_files),
            work_proof_files: opt_text(self.work_proof_files),
            status: self.status@,
            created_at: opt_text(self.created_at),
            updated_at: opt_text(self.updated_at),
        }
    }
}

impl IpAssetRowView {
    /// The asset that the row holds. The first column that cannot be read
    /// is the error: the identifier, the instant of creation, the instant of
    /// the last change.
    pub open spec fn asset(self) -> Result<IpAssetView, ColumnDecodeErrorView> {
        match decoded_id(self.id, COLUMN_ID@) {
            Err(e) => Err(e),
            Ok(id) => match decoded_instant(self.created_at, COLUMN_CREATED_AT@) {
                Err(e) => Err(e),
                Ok(created_at) => match decoded_instant(self.updated_at, COLUMN_UPDATED_AT@) {
                    Err(e) => Err(e),
                    Ok(updated_at) => Ok(
                        IpAssetView {
                            id,
                            work_name: self.work_name,
                            work_type: self.work_type,
                            owner: self.owner,
                            region: self.region,
                            work_start_date: self.work_start_date,
                            work_end_date: self.work_end_date,
                            equity_type: self.equity_type,
                            is_agent: self.is_agent,
                            auth_start_date: self.auth_start_date,
                            auth_end_date: self.auth_end_date,
                            auth_files: self.auth_files,
                            work_proof_files: self.work_proof_files,
                            status: self.status,
                            created_at,
                            updated_at,
                        },
                    ),
                },
            },
        }
    }
}

impl IpAsset {
    /// Reads an asset from its row.
    pub fn from_row(row: &IpAssetRow) -> (r: Result<IpAsset, ColumnDecodeError>)
        ensures
            match r {
                Ok(asset) => row@.asset() == Ok::<IpAssetView, ColumnDecodeErrorView>(asset@),
                Err(e) => row@.asset() == Err::<IpAssetView, ColumnDecodeErrorView>(e@),
            },
    {
        let id = match decode_id(&row.id, COLUMN_ID) {
            Ok(id) => id,
            Err(e) => {
                return Err(e);
            },
        };
        let created_at = match decode_instant(&row.created_at, COLUMN_CREATED_AT) {
            Ok(at) => at,
            Err(e) => {
                return Err(e);
            },
        };
        let updated_at = match decode_instant(&row.updated_at, COLUMN_UPDATED_AT) {
            Ok(at) => at,
            Err(e) => {
                return Err(e);
            },
        };
        Ok(
            IpAsset {
                id,
                work_name: row.work_name.clone(),
                work_type: row.work_type.clone(),
                owner: row.owner.clone(),
                region: row.region.clone(),
                work_start_date: row.work_start_date.clone(),
                work_end_date: row.work_end_date.clone(),
                equity_type: row.equity_type.clone(),
                is_agent: row.is_agent,
                auth_start_date: clone_opt_text(&row.auth_start_date),
                auth_end_date: clone_opt_text(&row.auth_end_date),
                auth_files: clone_opt_text(&row.auth_files),
                work_proof_files: clone_opt_text(&row.work_proof_files),
                status: row.status.clone(),
                created_at,
                updated_at,
            },
        )
    }
}

// ---------------------------------------------------------------------------
// Case
// ---------------------------------------------------------------------------

/// A row of the table of cases, column by column.
#[derive(Clone, Debug, PartialEq, Eq)]
pub struct CaseRow {
    pub id: Option<String>,
    pub infringing_url: String,
    pub original_url: Option<String>,
    pub associated_ip_id: Option<String>,
    pub status: String,
    pub submission_date: Option<String>,
    pub created_at: Option<String>,
    pub updated_at: Option<String>,
}

/// A `CaseRow` as plain values.
pub struct CaseRowView {
    pub id: Option<Seq<char>>,
    pub infringing_url: Seq<char>,
    pub original_url: Option<Seq<char>>,
    pub associated_ip_id: Option<Seq<char>>,
    pub status: Seq<char>,
    pub submission_date: Option<Seq<char>>,
    pub created_at: Option<Seq<char>>,
    pub updated_at: Option<Seq<char>>,
}

impl View for CaseRow {
    type V = CaseRowView;

    open spec fn view(&self) -> CaseRowView {
        CaseRowView {
            id: opt_text(self.id),
            infringing_url: self.infringing_url@,
            original_url: opt_text(self.original_url),
            associated_ip_id: opt_text(self.associated_ip_id),
            status: self.status@,
            submission_date: opt_text(self.submission_date),
            created_at: opt_text(self.created_at),
            updated_at: opt_text(self.updated_at),
        }
    }
}

impl CaseRowView {
    /// The instants of the row, in the order in which they are read.
    pub open spec fn instants(self) -> Result<
        (Option<Timestamp>, Option<Timestamp>, Option<Timestamp>),
        ColumnDecodeErrorView,
    > {
        match decoded_instant(self.submission_date, COLUMN_SUBMISSION_DATE@) {
            Err(e) => Err(e),
            Ok(submission_date) => match decoded_instant(self.created_at, COLUMN_CREATED_AT@) {
                Err(e) => Err(e),
                Ok(created_at) => match decoded_instant(self.updated_at, COLUMN_UPDATED_AT@) {
                    Err(e) => Err(e),
                    Ok(updated_at) => Ok((submission_date, created_at, updated_at)),
                },
            },
        }
    }

    /// The case that the row holds. The first column that cannot be read is
    /// the error: the identifier, the asset, then the three instants.
    pub open spec fn case(self) -> Result<CaseView, ColumnDecodeErrorView> {
        match decoded_id(self.id, COLUMN_ID@) {
            Err(e) => Err(e),
            Ok(id) => match decoded_id(self.associated_ip_id, COLUMN_ASSOCIATED_IP_ID@) {
                Err(e) => Err(e),
                Ok(associated_ip_id) => match self.instants() {
                    Err(e) => Err(e),
                    Ok((submission_date, created_at, updated_at)) => Ok(
                        CaseView {
                            id,
                            infringing_url: self.infringing_url,
                            original_url: self.original_url,
                            associated_ip_id,
                            status: self.status,
                            submission_date,
                            created_at,
                            updated_at,
                        },
                    ),
                },
            },
        }
    }
}

impl Case {
    /// Reads a case from its row.
    pub fn from_row(row: &CaseRow) -> (r: Result<Case, ColumnDecodeError>)
        ensures
            match r {
                Ok(case) => row@.case() == Ok::<CaseView, ColumnDecodeErrorView>(case@),
                Err(e) => row@.case() == Err::<CaseView, ColumnDecodeErrorView>(e@),
            },
    {
        let id = match decode_id(&row.id, COLUMN_ID) {
            Ok(id) => id,
            Err(e) => {
                return Err(e);
            },
        };
        let associated_ip_id = match decode_id(&row.associated_ip_id, COLUMN_ASSOCIATED_IP_ID) {
            Ok(id) => id,
            Err(e) => {
                return Err(e);
            },
        };
        let submission_date = match decode_instant(&row.submission_date, COLUMN_SUBMISSION_DATE) {
            Ok(at) => at,
            Err(e) => {
                return Err(e);
            },
        };
        let created_at = match decode_instant(&row.created_at, COLUMN_CREATED_AT) {
            Ok(at) => at,
            Err(e) => {
                return Err(e);
            },
        };
        let updated_at = match decode_instant(&row.updated_at, COLUMN_UPDATED_AT) {
            Ok(at) => at,
            Err(e) => {
                return Err(e);
            },
        };
        Ok(
            Case {
                id,
                infringing_url: row.infringing_url.clone(),
                original_url: clone_opt_text(&row.original_url),
                associated_ip_id,
                status: row.status.clone(),
                submission_date,
                created_at,
                updated_at,
            },
        )
    }
}

} // verus!
