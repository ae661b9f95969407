//! The calls that an import makes to the knowledge base, and the answers that
//! it reads. Whoever runs the import performs each call and hands the answer
//! back.

use crate::api_structures::{
    ApiResponse, ApiResponseContentView, SearchResponse, SearchResultItemView, TokenResponse,
};
use crate::client::{LineQuery, LineQueryView, NewEntity, NewEntityView, SparqlClient};
use crate::error::{unexpected_reply, ImportError, ImportErrorView};
use crate::identifiers::{is_item_id, is_item_id_text};
use crate::views::views;
use vstd::prelude::*;

verus! {

/// A call to the knowledge base.
#[derive(Debug, PartialEq, Eq)]
pub enum Request {
    /// Ask the query service for the label of the item `item`. The answer
    /// binds `label`.
    ProducerLabel { item: String },
    /// Search the entities by name.
    Search { text: String },
    /// Ask for a token that authorises writing.
    Token,
    /// Ask the query service which entities stand for a line.
    Lines(LineQuery),
    /// Create an entity, under the authority of `token`.
    Create { token: String, entity: NewEntity },
}

/// A `Request` as a mathematical value.
pub enum RequestView {
    ProducerLabel { item: Seq<char> },
    Search { text: Seq<char> },
    Token,
    Lines(LineQueryView),
    Create { token: Seq<char>, entity: NewEntityView },
}

impl View for Request {
    type V = RequestView;

    open spec fn view(&self) -> RequestView {
        match self {
            Request::ProducerLabel { item } => RequestView::ProducerLabel { item: item@ },
            Request::Search { text } => RequestView::Search { text: text@ },
            Request::Token => RequestView::Token,
            Request::Lines(query) => RequestView::Lines(query@),
            Request::Create { token, entity } => RequestView::Create {
                token: token@,
                entity: entity@,
            },
        }
    }
}

/// The answer to a call, or the news that the call failed.
#[derive(Debug, PartialEq, Eq)]
pub enum Reply {
    /// What the answer to `Request::ProducerLabel` binds `label` to, row by row.
    Labels(Vec<String>),
    /// The answer to `Request::Search`.
    Search(SearchResponse),
    /// The answer to `Request::Token`.
    Token(TokenResponse),
    /// What the answer to `Request::Lines` binds `line` to, row by row.
    Lines(Vec<String>),
    /// The answer to `Request::Create`.
    Created(ApiResponse),
    /// The call failed: the network did, or the answer could not be read, or
    /// the knowledge base rejected a call that creates nothing.
    Failed(ImportError),
}

/// A `Reply` as a mathematical value.
pub enum ReplyView {
    Labels(Seq<Seq<char>>),
    Search(Seq<SearchResultItemView>),
    Token(Seq<char>),
    Lines(Seq<Seq<char>>),
    Created(ApiResponseContentView),
    Failed(ImportErrorView),
}

impl View for Reply {
    type V = ReplyView;

    open spec fn view(&self) -> ReplyView {
        match self {
            Reply::Labels(rows) => ReplyView::Labels(views(rows@)),
            Reply::Search(response) => ReplyView::Search(response@),
            Reply::Token(response) => ReplyView::Token(response@),
            Reply::Lines(rows) => ReplyView::Lines(views(rows@)),
            Reply::Created(response) => ReplyView::Created(response@),
            Reply::Failed(error) => ReplyView::Failed(error@),
        }
    }
}

/// The call that finds the label of `producer`: by its identifier where
/// `producer` has the form of one, by a search for its name where not.
pub open spec fn producer_lookup(producer: Seq<char>) -> RequestView {
    if is_item_id_text(producer) {
        RequestView::ProducerLabel { item: producer }
    } else {
        RequestView::Search { text: producer }
    }
}

/// What `reply` says of the label of `producer`, as the answer to
/// `producer_lookup(producer)`. Of several labels or search results the first
/// counts. Without any, the producer is not found.
pub open spec fn producer_label(producer: Seq<char>, reply: ReplyView) -> Result<
    Seq<char>,
    ImportErrorView,
> {
    match reply {
        ReplyView::Failed(error) => Err(error),
        ReplyView::Labels(rows) => if !is_item_id_text(producer) {
            Err(ImportErrorView::Schema(unexpected_reply()))
        } else if rows.len() > 0 {
            Ok(rows[0])
        } else {
            Err(ImportErrorView::NotFound(producer))
        },
        ReplyView::Search(results) => if is_item_id_text(producer) {
            Err(ImportErrorView::Schema(unexpected_reply()))
        } else if results.len() > 0 {
            Ok(results[0].label)
        } else {
            Err(ImportErrorView::NotFound(producer))
        },
        _ => Err(ImportErrorView::Schema(unexpected_reply())),
    }
}

impl SparqlClient {
    /// The call that finds the label of `producer`.
    pub fn get_producer_label(&self, producer: &str) -> (request: Request)
        ensures
            request@ == producer_lookup(producer@),
    {
        if is_item_id(producer) {
            Request::ProducerLabel { item: String::from_str(producer) }
        } else {
            Request::Search { text: String::from_str(producer) }
        }
    }

    /// The label of `producer` that `reply` gives, where `reply` answers the
    /// call of `get_producer_label`.
    pub fn read_producer_label(&self, producer: &str, reply: Reply) -> (label: Result<
        String,
        ImportError,
    >)
        ensures
            match producer_label(producer@, reply@) {
                Ok(text) => label is Ok && label->Ok_0@ == text,
                Err(error) => label is Err && label->Err_0@ == error,
            },
    {
        let direct = is_item_id(producer);
        match reply {
            Reply::Failed(error) => Err(error),
            Reply::Labels(rows) => {
                if !direct {
                    Err(ImportError::unexpected())
                } else if rows.len() > 0 {
                    Ok(rows[0].clone())
                } else {
                    Err(ImportError::NotFound(String::from_str(producer)))
                }
            },
            Reply::Search(response) => {
                if direct {
                    Err(ImportError::unexpected())
                } else {
                    match response.first() {
                        Some(item) => Ok(item.label.clone()),
                        None => Err(ImportError::NotFound(String::from_str(producer))),
                    }
                }
            },
            _ => Err(ImportError::unexpected()),
        }
    }
}

} // verus!
