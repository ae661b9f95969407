//! What can go wrong with an import.

use crate::api_structures::{Error, ErrorView};
use vstd::prelude::*;

verus! {

/// Why a call failed, or why the import stopped.
#[derive(Debug, PartialEq, Eq)]
pub enum ImportError {
    /// An answer did not have the expected shape. The text says what was wrong.
    Schema(String),
    /// The network or the protocol below failed. The text says how.
    Transport(String),
    /// The knowledge base rejected the call.
    Api(Error),
    /// No label was found for the producer that is named.
    NotFound(String),
}

/// An `ImportError` as a mathematical value.
pub enum ImportErrorView {
    Schema(Seq<char>),
    Transport(Seq<char>),
    Api(ErrorView),
    NotFound(Seq<char>),
}

impl View for ImportError {
    type V = ImportErrorView;

    open spec fn view(&self) -> ImportErrorView {
        match self {
            ImportError::Schema(detail) => ImportErrorView::Schema(detail@),
            ImportError::Transport(detail) => ImportErrorView::Transport(detail@),
            ImportError::Api(error) => ImportErrorView::Api(error@),
            ImportError::NotFound(producer) => ImportErrorView::NotFound(producer@),
        }
    }
}

/// What an `ImportError` says of an answer that came in place of the expected one.
pub open spec fn unexpected_reply() -> Seq<char> {
    "not the answer to the call that was made"@
}

impl ImportErrorView {
    /// What the error says to a human.
    pub open spec fn message(self) -> Seq<char> {
        match self {
            ImportErrorView::Schema(detail) => "malformed answer: "@ + detail,
            ImportErrorView::Transport(detail) => "transport failure: "@ + detail,
            ImportErrorView::Api(error) => "rejected by the knowledge base: "@ + error.code + ": "@
                + error.info,
            ImportErrorView::NotFound(producer) => "no producer found for "@ + producer,
        }
    }
}

impl ImportError {
    /// What the error says to a human. A rejection is given with the code and
    /// the words of the knowledge base.
    pub fn message(&self) -> (text: String)
        ensures
            text@ == self@.message(),
    {
        match self {
            ImportError::Schema(detail) => {
                let mut text = String::from_str("malformed answer: ");
                text.append(detail.as_str());
                text
            },
            ImportError::Transport(detail) => {
                let mut text = String::from_str("transport failure: ");
                text.append(detail.as_str());
                text
            },
            ImportError::Api(error) => {
                let mut text = String::from_str("rejected by the knowledge base: ");
                text.append(error.code.as_str());
                text.append(": ");
                text.append(error.info.as_str());
                text
            },
            ImportError::NotFound(producer) => {
                let mut text = String::from_str("no producer found for ");
                text.append(producer.as_str());
                text
            },
        }
    }

    /// The error for an answer that came in place of the expected one.
    pub fn unexpected() -> (error: ImportError)
        ensures
            error@ == ImportErrorView::Schema(unexpected_reply()),
    {
        ImportError::Schema(String::from_str("not the answer to the call that was made"))
    }
}

} // verus!
