//! Updating a line of an outbound shipment.

use crate::graphql::{
    sorted, standard_error, CannotEditInvoice, ForeignKey, ForeignKeyError, RecordNotFound,
    StandardGraphqlError, StandardGraphqlErrorView,
};
use crate::graphql::outbound_shipment_line::{
    LocationIsOnHold, LocationNotFound, NotEnoughStockForReduction, StockLineAlreadyExistsInInvoice,
    StockLineIsOnHold,
};
use crate::repository::repository_error::RepositoryError;
use vstd::prelude::*;

verus! {

/// Why the service refused.
#[derive(Debug, Clone, PartialEq)]
pub enum UpdateOutboundShipmentLineError {
    LineDoesNotExist,
    DatabaseError(RepositoryError),
    InvoiceDoesNotExist,
    NotAnOutboundShipment,
    NotThisStoreInvoice,
    NotThisInvoiceLine(String),
    CannotEditFinalised,
    ItemNotFound,
    NumberOfPacksBelowOne,
    StockLineNotFound,
    ItemDoesNotMatchStockLine,
    LineDoesNotReferenceStockLine,
    BatchIsOnHold,
    UpdatedLineDoesNotExist,
    LocationIsOnHold,
    LocationNotFound,
    StockLineAlreadyExistsInInvoice(String),
    ReductionBelowZero { stock_line_id: String, line_id: String },
}

#[derive(Debug, Clone, PartialEq)]
pub struct UpdateError {
    pub error: UpdateErrorInterface,
}

/// The answer of the mutation: a structured error, or the line after the
/// update, in the form `T` in which the API hands it out.
#[derive(Debug, Clone, PartialEq)]
pub enum UpdateResponse<T> {
    Error(UpdateError),
    Response(T),
}

#[derive(Debug, Clone, PartialEq)]
pub enum UpdateErrorInterface {
    ForeignKeyError(ForeignKeyError),
    RecordNotFound(RecordNotFound),
    CannotEditInvoice(CannotEditInvoice),
    StockLineAlreadyExistsInInvoice(StockLineAlreadyExistsInInvoice),
    LocationIsOnHold(LocationIsOnHold),
    LocationNotFound(LocationNotFound),
    StockLineIsOnHold(StockLineIsOnHold),
    NotEnoughStockForReduction(NotEnoughStockForReduction),
}

/// The text that the formatter of `std` writes for an error with `{:#?}`.
pub uninterp spec fn update_outbound_shipment_line_error_text(
    error: UpdateOutboundShipmentLineError,
) -> Seq<char>;

/// Formats an error with `{:#?}`, through the `Debug` that is derived for
/// it. The text depends on the error alone.
#[verifier::external_body]
fn formatted(error: &UpdateOutboundShipmentLineError) -> (r: String)
    ensures
        r@ == update_outbound_shipment_line_error_text(*error),
{
    format!("{:#?}", error)
}

/// The structured error that a service error is handed out as, if it is
/// handed out as one. A reference that leads nowhere is a foreign key
/// error, whether it is to the invoice, the stock line or the location.
pub open spec fn structured_error(error: UpdateOutboundShipmentLineError) -> Option<
    UpdateErrorInterface,
> {
    match error {
        UpdateOutboundShipmentLineError::InvoiceDoesNotExist => Some(
            UpdateErrorInterface::ForeignKeyError(ForeignKeyError(ForeignKey::InvoiceId)),
        ),
        UpdateOutboundShipmentLineError::CannotEditFinalised => Some(
            UpdateErrorInterface::CannotEditInvoice(CannotEditInvoice {  }),
        ),
        UpdateOutboundShipmentLineError::StockLineNotFound => Some(
            UpdateErrorInterface::ForeignKeyError(ForeignKeyError(ForeignKey::StockLineId)),
        ),
        UpdateOutboundShipmentLineError::LocationIsOnHold => Some(
            UpdateErrorInterface::LocationIsOnHold(LocationIsOnHold {  }),
        ),
        UpdateOutboundShipmentLineError::LocationNotFound => Some(
            UpdateErrorInterface::ForeignKeyError(ForeignKeyError(ForeignKey::LocationId)),
        ),
        UpdateOutboundShipmentLineError::StockLineAlreadyExistsInInvoice(line_id) => Some(
            UpdateErrorInterface::StockLineAlreadyExistsInInvoice(
                StockLineAlreadyExistsInInvoice(line_id),
            ),
        ),
        UpdateOutboundShipmentLineError::BatchIsOnHold => Some(
            UpdateErrorInterface::StockLineIsOnHold(StockLineIsOnHold {  }),
        ),
        UpdateOutboundShipmentLineError::LineDoesNotExist => Some(
            UpdateErrorInterface::RecordNotFound(RecordNotFound {  }),
        ),
        UpdateOutboundShipmentLineError::ReductionBelowZero { stock_line_id, line_id } => Some(
            UpdateErrorInterface::NotEnoughStockForReduction(
                NotEnoughStockForReduction { stock_line_id, line_id: Some(line_id) },
            ),
        ),
        _ => None,
    }
}

/// Whether a service error is a failure of the server: a failure of
/// storage, or an updated line that is not there afterwards.
pub open spec fn is_internal(error: UpdateOutboundShipmentLineError) -> bool {
    error is UpdatedLineDoesNotExist || error is DatabaseError
}

/// Sorts a service error, given its text: a structured error where there
/// is one for it, a failure of the server, or bad input.
pub fn map_error_with(error: UpdateOutboundShipmentLineError, formatted_error: String) -> (r:
    Result<UpdateErrorInterface, StandardGraphqlError>)
    ensures
        r == match structured_error(error) {
            Some(structured) => Ok::<UpdateErrorInterface, StandardGraphqlError>(structured),
            None => Err(
                if is_internal(error) {
                    StandardGraphqlError::InternalError(formatted_error)
                } else {
                    StandardGraphqlError::BadUserInput(formatted_error)
                },
            ),
        },
{
    let graphql_error = match error {
        // Structured Errors
        UpdateOutboundShipmentLineError::InvoiceDoesNotExist => {
            return Ok(
                UpdateErrorInterface::ForeignKeyError(ForeignKeyError(ForeignKey::InvoiceId)),
            )
        },
        UpdateOutboundShipmentLineError::CannotEditFinalised => {
            return Ok(UpdateErrorInterface::CannotEditInvoice(CannotEditInvoice {  }))
        },
        UpdateOutboundShipmentLineError::StockLineNotFound => {
            return Ok(
                UpdateErrorInterface::ForeignKeyError(ForeignKeyError(ForeignKey::StockLineId)),
            )
        },
        UpdateOutboundShipmentLineError::LocationIsOnHold => {
            return Ok(UpdateErrorInterface::LocationIsOnHold(LocationIsOnHold {  }))
        },
        UpdateOutboundShipmentLineError::LocationNotFound => {
            return Ok(
                UpdateErrorInterface::ForeignKeyError(ForeignKeyError(ForeignKey::LocationId)),
            )
        },
        UpdateOutboundShipmentLineError::StockLineAlreadyExistsInInvoice(line_id) => {
            return Ok(
                UpdateErrorInterface::StockLineAlreadyExistsInInvoice(
                    StockLineAlreadyExistsInInvoice(line_id),
                ),
            )
        },
        UpdateOutboundShipmentLineError::BatchIsOnHold => {
            return Ok(UpdateErrorInterface::StockLineIsOnHold(StockLineIsOnHold {  }))
        },
        UpdateOutboundShipmentLineError::LineDoesNotExist => {
            return Ok(UpdateErrorInterface::RecordNotFound(RecordNotFound {  }))
        },
        UpdateOutboundShipmentLineError::ReductionBelowZero { stock_line_id, line_id } => {
            return Ok(
                UpdateErrorInterface::NotEnoughStockForReduction(
                    NotEnoughStockForReduction { stock_line_id, line_id: Some(line_id) },
                ),
            )
        },
        // Standard Graphql Errors
        UpdateOutboundShipmentLineError::NotThisStoreInvoice => StandardGraphqlError::BadUserInput(
            formatted_error,
        ),
        UpdateOutboundShipmentLineError::NotAnOutboundShipment => {
            StandardGraphqlError::BadUserInput(formatted_error)
        },
        UpdateOutboundShipmentLineError::NumberOfPacksBelowOne => {
            StandardGraphqlError::BadUserInput(formatted_error)
        },
        UpdateOutboundShipmentLineError::ItemNotFound => StandardGraphqlError::BadUserInput(
            formatted_error,
        ),
        UpdateOutboundShipmentLineError::ItemDoesNotMatchStockLine => {
            StandardGraphqlError::BadUserInput(formatted_error)
        },
        UpdateOutboundShipmentLineError::NotThisInvoiceLine(_) => {
            StandardGraphqlError::BadUserInput(formatted_error)
        },
        UpdateOutboundShipmentLineError::LineDoesNotReferenceStockLine => {
            StandardGraphqlError::BadUserInput(formatted_error)
        },
        UpdateOutboundShipmentLineError::UpdatedLineDoesNotExist => {
            StandardGraphqlError::InternalError(formatted_error)
        },
        UpdateOutboundShipmentLineError::DatabaseError(_) => StandardGraphqlError::InternalError(
            formatted_error,
        ),
    };

    Err(graphql_error)
}

/// Sorts a service error. A standard error carries the error as `{:#?}`
/// writes it.
pub fn map_error(error: UpdateOutboundShipmentLineError) -> (r: Result<
    UpdateErrorInterface,
    StandardGraphqlError,
>)
    ensures
        sorted(r) == match structured_error(error) {
            Some(structured) => Ok::<UpdateErrorInterface, StandardGraphqlErrorView>(structured),
            None => Err(
                standard_error(
                    is_internal(error),
                    update_outbound_shipment_line_error_text(error),
                ),
            ),
        },
{
    let formatted_error = formatted(&error);
    map_error_with(error, formatted_error)
}

/// What the mutation answers, given what the service answered: the line,
/// put into the form of the API by the caller, or the service error sorted
/// by [`map_error`].
pub fn map_response<T>(from: Result<T, UpdateOutboundShipmentLineError>) -> (r: Result<
    UpdateResponse<T>,
    StandardGraphqlError,
>)
    ensures
        match from {
            Ok(line) => r == Ok::<UpdateResponse<T>, StandardGraphqlError>(
                UpdateResponse::Response(line),
            ),
            Err(error) => match structured_error(error) {
                Some(structured) => r == Ok::<UpdateResponse<T>, StandardGraphqlError>(
                    UpdateResponse::Error(UpdateError { error: structured }),
                ),
                None => sorted(r) == Err::<UpdateResponse<T>, StandardGraphqlErrorView>(
                    standard_error(
                        is_internal(error),
                        update_outbound_shipment_line_error_text(error),
                    ),
                ),
            },
        },
{
    let result = match from {
        Ok(invoice_line) => UpdateResponse::Response(invoice_line),
        Err(error) => match map_error(error) {
            Ok(error) => UpdateResponse::Error(UpdateError { error }),
            Err(error) => {
                return Err(error);
            },
        },
    };

    Ok(result)
}

} // verus!
