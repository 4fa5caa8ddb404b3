//! Adding a line to a stocktake.

use crate::graphql::{
    sorted, standard_error, CannotEditStocktake, StandardGraphqlError, StandardGraphqlErrorView,
};
use crate::repository::repository_error::RepositoryError;
use vstd::prelude::*;

verus! {

/// Why the service refused.
#[derive(Debug, Clone, PartialEq)]
pub enum InsertStocktakeLineError {
    DatabaseError(RepositoryError),
    InternalError(String),
    InvalidStore,
    StocktakeDoesNotExist,
    StocktakeLineAlreadyExists,
    StockLineDoesNotExist,
    StockLineAlreadyExistsInStocktake,
    LocationDoesNotExist,
    CannotEditFinalised,
    /// Either stock line xor item must be set (not both)
    StockLineXOrItem,
    ItemDoesNotExist,
    StocktakeIsLocked,
}

/// The answer of the mutation: a structured error, or the line that was
/// added, in the form `T` in which the API hands it out.
#[derive(Debug, Clone, PartialEq)]
pub enum InsertResponse<T> {
    Error(InsertError),
    Response(T),
}

#[derive(Debug, Clone, Copy, PartialEq, Eq)]
pub enum InsertErrorInterface {
    CannotEditStocktake(CannotEditStocktake),
}

#[derive(Debug, Clone, Copy, PartialEq, Eq)]
pub struct InsertError {
    pub error: InsertErrorInterface,
}

/// The text that the formatter of `std` writes for an error with `{:#?}`.
pub uninterp spec fn insert_stocktake_line_error_text(error: InsertStocktakeLineError) -> Seq<
    char,
>;

/// Formats an error with `{:#?}`, through the `Debug` that is derived for
/// it. The text depends on the error alone.
#[verifier::external_body]
fn formatted(error: &InsertStocktakeLineError) -> (r: String)
    ensures
        r@ == insert_stocktake_line_error_text(*error),
{
    format!("{:#?}", error)
}

/// The text of the standard error that a service error becomes, given the
/// text `formatted_error` of the service error: that text, but for an
/// internal error, which speaks for itself, and for the error of the stock
/// line and the item, which is explained.
pub open spec fn standard_error_text(
    error: InsertStocktakeLineError,
    formatted_error: Seq<char>,
) -> Seq<char> {
    match error {
        InsertStocktakeLineError::StockLineXOrItem => {
            "Either a stock line id or item id must be set (not both), "@ + formatted_error
        },
        InsertStocktakeLineError::InternalError(text) => text@,
        _ => formatted_error,
    }
}

/// Whether a service error is a failure of the server.
pub open spec fn is_internal(error: InsertStocktakeLineError) -> bool {
    error is InternalError || error is DatabaseError
}

/// What a service error is sorted as, given its text.
pub open spec fn sorted_error(
    error: InsertStocktakeLineError,
    formatted_error: Seq<char>,
) -> Result<InsertErrorInterface, StandardGraphqlErrorView> {
    if error is CannotEditFinalised {
        Ok(InsertErrorInterface::CannotEditStocktake(CannotEditStocktake {  }))
    } else {
        Err(standard_error(is_internal(error), standard_error_text(error, formatted_error)))
    }
}

/// Sorts a service error, given its text: that the stocktake cannot be
/// edited is a structured error; the rest are failures of the server or bad
/// input.
pub fn map_error_with(error: InsertStocktakeLineError, formatted_error: String) -> (r: Result<
    InsertErrorInterface,
    StandardGraphqlError,
>)
    ensures
        sorted(r) == sorted_error(error, formatted_error@),
{
    let graphql_error = match error {
        // Structured Errors
        InsertStocktakeLineError::CannotEditFinalised => {
            return Ok(InsertErrorInterface::CannotEditStocktake(CannotEditStocktake {  }))
        },
        // Standard Graphql Errors
        InsertStocktakeLineError::InvalidStore => StandardGraphqlError::BadUserInput(
            formatted_error,
        ),
        InsertStocktakeLineError::StocktakeDoesNotExist => StandardGraphqlError::BadUserInput(
            formatted_error,
        ),
        InsertStocktakeLineError::StocktakeLineAlreadyExists => {
            StandardGraphqlError::BadUserInput(formatted_error)
        },
        InsertStocktakeLineError::StockLineDoesNotExist => StandardGraphqlError::BadUserInput(
            formatted_error,
        ),
        InsertStocktakeLineError::StockLineAlreadyExistsInStocktake => {
            StandardGraphqlError::BadUserInput(formatted_error)
        },
        InsertStocktakeLineError::LocationDoesNotExist => StandardGraphqlError::BadUserInput(
            formatted_error,
        ),
        InsertStocktakeLineError::StocktakeIsLocked => StandardGraphqlError::BadUserInput(
            formatted_error,
        ),
        InsertStocktakeLineError::StockLineXOrItem => StandardGraphqlError::BadUserInput(
            String::from_str("Either a stock line id or item id must be set (not both), ").concat(
                formatted_error.as_str(),
            ),
        ),
        InsertStocktakeLineError::ItemDoesNotExist => StandardGraphqlError::BadUserInput(
            formatted_error,
        ),
        InsertStocktakeLineError::DatabaseError(_) => StandardGraphqlError::InternalError(
            formatted_error,
        ),
        InsertStocktakeLineError::InternalError(err) => StandardGraphqlError::InternalError(err),
    };

    Err(graphql_error)
}

/// Sorts a service error. A standard error carries the error as `{:#?}`
/// writes it, or the text that [`standard_error_text`] makes of that.
pub fn map_error(error: InsertStocktakeLineError) -> (r: Result<
    InsertErrorInterface,
    StandardGraphqlError,
>)
    ensures
        sorted(r) == sorted_error(error, insert_stocktake_line_error_text(error)),
{
    let formatted_error = formatted(&error);
    map_error_with(error, formatted_error)
}

/// What the mutation answers, given what the service answered: the line,
/// put into the form of the API by the caller, or the service error sorted
/// by [`map_error`].
pub fn map_response<T>(from: Result<T, InsertStocktakeLineError>) -> (r: Result<
    InsertResponse<T>,
    StandardGraphqlError,
>)
    ensures
        match from {
            Ok(line) => r == Ok::<InsertResponse<T>, StandardGraphqlError>(
                InsertResponse::Response(line),
            ),
            Err(error) => match sorted_error(error, insert_stocktake_line_error_text(error)) {
                Ok(structured) => r == Ok::<InsertResponse<T>, StandardGraphqlError>(
                    InsertResponse::Error(InsertError { error: structured }),
                ),
                Err(standard) => sorted(r) == Err::<InsertResponse<T>, StandardGraphqlErrorView>(
                    standard,
                ),
            },
        },
{
    let result = match from {
        Ok(line) => InsertResponse::Response(line),
        Err(error) => match map_error(error) {
            Ok(error) => InsertResponse::Error(InsertError { error }),
            Err(error) => {
                return Err(error);
            },
        },
    };

    Ok(result)
}

} // verus!
