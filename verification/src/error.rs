//! The error taxonomy shared by every stage of the pipeline.

use vstd::prelude::*;

verus! {

/// What can go wrong while harvesting, extracting or persisting a record.
#[derive(Debug)]
pub enum Error {
    /// A transport failure while talking to the roster site.
    NetworkError,
    /// A document lacks a signal that extraction requires.
    ParseError,
    /// The caller handed in something invalid.
    ArgumentError,
    /// A broken internal contract, with an explanation.
    InternalError(String),
    /// A failure of the relational store, with an explanation.
    PostgresError(String),
    /// A failure of the object store, with an explanation.
    S3Error(String),
}

/// What an error is, with its explanation as a sequence of characters.
pub ghost enum ErrorModel {
    NetworkError,
    ParseError,
    ArgumentError,
    InternalError(Seq<char>),
    PostgresError(Seq<char>),
    S3Error(Seq<char>),
}

impl View for Error {
    type V = ErrorModel;

    open spec fn view(&self) -> ErrorModel {
        match self {
            Error::NetworkError => ErrorModel::NetworkError,
            Error::ParseError => ErrorModel::ParseError,
            Error::ArgumentError => ErrorModel::ArgumentError,
            Error::InternalError(explanation) => ErrorModel::InternalError(explanation@),
            Error::PostgresError(explanation) => ErrorModel::PostgresError(explanation@),
            Error::S3Error(explanation) => ErrorModel::S3Error(explanation@),
        }
    }
}

impl Error {
    /// The text a person reads for this error.
    pub open spec fn message_text(self) -> Seq<char> {
        match self {
            Error::NetworkError => "Network error"@,
            Error::ParseError => "Parse error"@,
            Error::ArgumentError => "Argument error"@,
            Error::InternalError(explanation) => "Internal error: "@ + explanation@,
            Error::PostgresError(explanation) => "Internal Postgres error: "@ + explanation@,
            Error::S3Error(explanation) => "S3 error: "@ + explanation@,
        }
    }

    /// Renders the error for display.
    pub fn message(&self) -> (text: String)
        ensures
            text@ == self.message_text(),
    {
        match self {
            Error::NetworkError => String::from_str("Network error"),
            Error::ParseError => String::from_str("Parse error"),
            Error::ArgumentError => String::from_str("Argument error"),
            Error::InternalError(explanation) => String::from_str("Internal error: ").concat(
                explanation.as_str(),
            ),
            Error::PostgresError(explanation) => String::from_str(
                "Internal Postgres error: ",
            ).concat(explanation.as_str()),
            Error::S3Error(explanation) => String::from_str("S3 error: ").concat(
                explanation.as_str(),
            ),
        }
    }
}

} // verus!
