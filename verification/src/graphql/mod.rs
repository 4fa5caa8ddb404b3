//! What the mutations of the API answer, given what the services answered.
//!
//! A service error becomes either a structured error, which the API hands
//! out as data, or a standard error, which ends the request.

pub mod outbound_shipment;
pub mod outbound_shipment_line;
pub mod stocktake_line;

use vstd::prelude::*;

verus! {

/// An error that ends the request. The text is for the log of the caller.
#[derive(Debug, Clone, PartialEq)]
pub enum StandardGraphqlError {
    /// The request asks for what the caller could have known to be refused.
    BadUserInput(String),
    /// The server failed.
    InternalError(String),
}

pub enum StandardGraphqlErrorView {
    BadUserInput(Seq<char>),
    InternalError(Seq<char>),
}

impl View for StandardGraphqlError {
    type V = StandardGraphqlErrorView;

    open spec fn view(&self) -> StandardGraphqlErrorView {
        match self {
            StandardGraphqlError::BadUserInput(text) => StandardGraphqlErrorView::BadUserInput(
                text@,
            ),
            StandardGraphqlError::InternalError(text) => StandardGraphqlErrorView::InternalError(
                text@,
            ),
        }
    }
}

/// The standard error for a service error: a failure of the server where
/// `internal` holds, and bad input where it does not.
pub open spec fn standard_error(internal: bool, text: Seq<char>) -> StandardGraphqlErrorView {
    if internal {
        StandardGraphqlErrorView::InternalError(text)
    } else {
        StandardGraphqlErrorView::BadUserInput(text)
    }
}

/// The outcome of sorting a service error, as a value of specifications.
pub open spec fn sorted<T>(r: Result<T, StandardGraphqlError>) -> Result<
    T,
    StandardGraphqlErrorView,
> {
    match r {
        Ok(structured) => Ok(structured),
        Err(error) => Err(error@),
    }
}

impl StandardGraphqlError {
    /// The message that the caller of the API sees.
    pub fn message(&self) -> (r: &'static str)
        ensures
            r@ == match self {
                StandardGraphqlError::BadUserInput(_) => "Bad user input"@,
                StandardGraphqlError::InternalError(_) => "Internal error"@,
            },
    {
        match self {
            StandardGraphqlError::BadUserInput(_) => "Bad user input",
            StandardGraphqlError::InternalError(_) => "Internal error",
        }
    }
}

#[derive(Debug, Clone, Copy, PartialEq, Eq)]
pub struct RecordNotFound;

#[derive(Debug, Clone, Copy, PartialEq, Eq)]
pub struct CannotEditInvoice;

#[derive(Debug, Clone, Copy, PartialEq, Eq)]
pub struct CannotEditStocktake;

/// The reference of a request that leads nowhere.
#[derive(Debug, Clone, Copy, PartialEq, Eq, Structural)]
pub enum ForeignKey {
    InvoiceId,
    StockLineId,
    LocationId,
}

#[derive(Debug, Clone, Copy, PartialEq, Eq)]
pub struct ForeignKeyError(pub ForeignKey);

} // verus!
