//! What the command layer decides before it calls the collaborators: how a
//! start request is read, and how an error is worded.

use vstd::prelude::*;
use crate::bridge::{parse_uuid, uuid_from_text};
use crate::models::{clone_opt_text, opt_text, AutomationRequest, AutomationRequestView};
use crate::text::concat2;

verus! {

/// The start of the message of an error of the database.
pub const DATABASE_ERROR: &'static str = "Database error: ";

/// The start of the message of an error of the automation.
pub const AUTOMATION_ERROR: &'static str = "Automation error: ";

/// The start of the message of an identifier that cannot be read.
pub const UUID_ERROR: &'static str = "UUID parsing error: ";

/// An error as a command hands it to the user interface.
#[derive(Clone, Debug, PartialEq, Eq)]
pub enum CommandError {
    Database(String),
    Automation(String),
    Uuid(String),
}

/// A `CommandError` as plain values.
pub enum CommandErrorView {
    Database(Seq<char>),
    Automation(Seq<char>),
    Uuid(Seq<char>),
}

impl View for CommandError {
    type V = CommandErrorView;

    open spec fn view(&self) -> CommandErrorView {
        match self {
            CommandError::Database(detail) => CommandErrorView::Database(detail@),
            CommandError::Automation(detail) => CommandErrorView::Automation(detail@),
            CommandError::Uuid(detail) => CommandErrorView::Uuid(detail@),
        }
    }
}

impl CommandErrorView {
    /// The message that a person reads.
    pub open spec fn message(self) -> Seq<char> {
        match self {
            CommandErrorView::Database(detail) => DATABASE_ERROR@ + detail,
            CommandErrorView::Automation(detail) => AUTOMATION_ERROR@ + detail,
            CommandErrorView::Uuid(detail) => UUID_ERROR@ + detail,
        }
    }
}

impl CommandError {
    /// The message that a person reads.
    pub fn message(&self) -> (m: String)
        ensures
            m@ == self@.message(),
    {
        match self {
            CommandError::Database(detail) => concat2(DATABASE_ERROR, detail.as_str()),
            CommandError::Automation(detail) => concat2(AUTOMATION_ERROR, detail.as_str()),
            CommandError::Uuid(detail) => concat2(UUID_ERROR, detail.as_str()),
        }
    }
}

/// The identifier that a text stands for, or the error of a command that
/// was given a text which stands for none.
pub open spec fn identifier_of(text: Seq<char>) -> Result<u128, CommandErrorView> {
    match uuid_from_text(text) {
        Ok(id) => Ok(id),
        Err(detail) => Err(CommandErrorView::Uuid(detail)),
    }
}

/// Reads the identifier of a record from the text of a command.
pub fn parse_identifier(text: &str) -> (r: Result<u128, CommandError>)
    ensures
        match r {
            Ok(id) => identifier_of(text@) == Ok::<u128, CommandErrorView>(id),
            Err(e) => identifier_of(text@) == Err::<u128, CommandErrorView>(e@),
        },
{
    match parse_uuid(text) {
        Ok(id) => Ok(id),
        Err(detail) => Err(CommandError::Uuid(detail)),
    }
}

/// What the user interface sends to start a run.
#[derive(Clone, Debug, PartialEq, Eq)]
pub struct StartAutomationParams {
    pub infringing_url: String,
    pub original_url: Option<String>,
    /// The identifier of the asset, as text.
    pub ip_asset_id: Option<String>,
}

/// `StartAutomationParams` as plain values.
pub struct StartAutomationParamsView {
    pub infringing_url: Seq<char>,
    pub original_url: Option<Seq<char>>,
    pub ip_asset_id: Option<Seq<char>>,
}

impl View for StartAutomationParams {
    type V = StartAutomationParamsView;

    open spec fn view(&self) -> StartAutomationParamsView {
        StartAutomationParamsView {
            infringing_url: self.infringing_url@,
            original_url: opt_text(self.original_url),
            ip_asset_id: opt_text(self.ip_asset_id),
        }
    }
}

impl StartAutomationParamsView {
    /// The request that the parameters stand for: the same addresses, and
    /// the asset by its identifier. Parameters whose asset cannot be read
    /// stand for no request.
    pub open spec fn request(self) -> Result<AutomationRequestView, CommandErrorView> {
        match self.ip_asset_id {
            None => Ok(
                AutomationRequestView {
                    infringing_url: self.infringing_url,
                    original_url: self.original_url,
                    ip_asset_id: None,
                },
            ),
            Some(text) => match identifier_of(text) {
                Ok(id) => Ok(
                    AutomationRequestView {
                        infringing_url: self.infringing_url,
                        original_url: self.original_url,
                        ip_asset_id: Some(id),
                    },
                ),
                Err(e) => Err(e),
            },
        }
    }
}

impl StartAutomationParams {
    /// Turns the parameters into a request.
    pub fn to_request(&self) -> (r: Result<AutomationRequest, CommandError>)
        ensures
            match r {
                Ok(request) => self@.request() == Ok::<AutomationRequestView, CommandErrorView>(
                    request@,
                ),
                Err(e) => self@.request() == Err::<AutomationRequestView, CommandErrorView>(e@),
            },
    {
        let ip_asset_id = match &self.ip_asset_id {
            Some(text) => match parse_identifier(text.as_str()) {
                Ok(id) => Some(id),
                Err(e) => {
                    return Err(e);
                },
            },
            None => None,
        };
        Ok(
            AutomationRequest {
                infringing_url: self.infringing_url.clone(),
                original_url: clone_opt_text(&self.original_url),
                ip_asset_id,
            },
        )
    }
}

} // verus!
