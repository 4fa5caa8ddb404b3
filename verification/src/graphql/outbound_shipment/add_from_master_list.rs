//! Adding the items of a master list to an outbound shipment.

use crate::graphql::{
    sorted, standard_error, CannotEditInvoice, RecordNotFound, StandardGraphqlError,
    StandardGraphqlErrorView,
};
use crate::repository::repository_error::RepositoryError;
use vstd::prelude::*;

verus! {

#[derive(Debug, Clone, PartialEq)]
pub struct AddToShipmentFromMasterListInput {
    pub outbound_shipment_id: String,
    pub master_list_id: String,
}

/// The request as the service takes it.
#[derive(Debug, Clone, PartialEq)]
pub struct AddFromMasterList {
    pub outbound_shipment_id: String,
    pub master_list_id: String,
}

/// Why the service refused.
#[derive(Debug, Clone, PartialEq)]
pub enum AddToShipmentFromMasterListError {
    ShipmentDoesNotExist,
    NotThisStoreShipment,
    CannotEditShipment,
    MasterListNotFoundForThisName,
    NotAnOutboundShipment,
    DatabaseError(RepositoryError),
}

#[derive(Debug, Clone, Copy, PartialEq, Eq)]
pub struct MasterListNotFoundForThisName;

impl MasterListNotFoundForThisName {
    pub fn description(&self) -> (r: &'static str)
        ensures
            r@ == "Master list not found (might not be visible to this name)"@,
    {
        "Master list not found (might not be visible to this name)"
    }
}

#[derive(Debug, Clone, Copy, PartialEq, Eq)]
pub enum DeleteErrorInterface {
    RecordNotFound(RecordNotFound),
    MasterListNotFoundForThisName(MasterListNotFoundForThisName),
    CannotEditInvoice(CannotEditInvoice),
}

#[derive(Debug, Clone, Copy, PartialEq, Eq)]
pub struct DeleteError {
    pub error: DeleteErrorInterface,
}

/// The answer of the mutation: a structured error, or the lines that were
/// added, in the form `T` in which the API hands them out.
#[derive(Debug, Clone, PartialEq)]
pub enum AddFromMasterListResponse<T> {
    Error(DeleteError),
    Response(T),
}

impl AddToShipmentFromMasterListInput {
    pub fn to_domain(self) -> (r: AddFromMasterList)
        ensures
            r.outbound_shipment_id == self.outbound_shipment_id,
            r.master_list_id == self.master_list_id,
    {
        let AddToShipmentFromMasterListInput { outbound_shipment_id, master_list_id } = self;
        AddFromMasterList { outbound_shipment_id, master_list_id }
    }
}

/// The text that the formatter of `std` writes for an error with `{:#?}`.
pub uninterp spec fn add_from_master_list_error_text(
    error: AddToShipmentFromMasterListError,
) -> Seq<char>;

/// Formats an error with `{:#?}`, through the `Debug` that is derived for
/// it. The text depends on the error alone.
#[verifier::external_body]
fn formatted(error: &AddToShipmentFromMasterListError) -> (r: String)
    ensures
        r@ == add_from_master_list_error_text(*error),
{
    format!("{:#?}", error)
}

/// The structured error that a service error is handed out as, if it is
/// handed out as one.
pub open spec fn structured_error(error: AddToShipmentFromMasterListError) -> Option<
    DeleteErrorInterface,
> {
    match error {
        AddToShipmentFromMasterListError::ShipmentDoesNotExist => Some(
            DeleteErrorInterface::RecordNotFound(RecordNotFound {  }),
        ),
        AddToShipmentFromMasterListError::CannotEditShipment => Some(
            DeleteErrorInterface::CannotEditInvoice(CannotEditInvoice {  }),
        ),
        AddToShipmentFromMasterListError::MasterListNotFoundForThisName => Some(
            DeleteErrorInterface::MasterListNotFoundForThisName(MasterListNotFoundForThisName {  }),
        ),
        _ => None,
    }
}

/// Sorts a service error, given its text: a structured error where there
/// is one for it, a failure of the server for a failure of storage, and bad
/// input for the rest.
pub fn map_error_with(error: AddToShipmentFromMasterListError, formatted_error: String) -> (r:
    Result<DeleteErrorInterface, StandardGraphqlError>)
    ensures
        r == match structured_error(error) {
            Some(structured) => Ok::<DeleteErrorInterface, StandardGraphqlError>(structured),
            None => Err(
                if error is DatabaseError {
                    StandardGraphqlError::InternalError(formatted_error)
                } else {
                    StandardGraphqlError::BadUserInput(formatted_error)
                },
            ),
        },
{
    let graphql_error = match error {
        // Structured Errors
        AddToShipmentFromMasterListError::ShipmentDoesNotExist => {
            return Ok(DeleteErrorInterface::RecordNotFound(RecordNotFound {  }))
        },
        AddToShipmentFromMasterListError::CannotEditShipment => {
            return Ok(DeleteErrorInterface::CannotEditInvoice(CannotEditInvoice {  }))
        },
        AddToShipmentFromMasterListError::MasterListNotFoundForThisName => {
            return Ok(
                DeleteErrorInterface::MasterListNotFoundForThisName(
                    MasterListNotFoundForThisName {  },
                ),
            )
        },
        // Standard Graphql Errors
        AddToShipmentFromMasterListError::NotThisStoreShipment => {
            StandardGraphqlError::BadUserInput(formatted_error)
        },
        AddToShipmentFromMasterListError::NotAnOutboundShipment => {
            StandardGraphqlError::BadUserInput(formatted_error)
        },
        AddToShipmentFromMasterListError::DatabaseError(_) => StandardGraphqlError::InternalError(
            formatted_error,
        ),
    };

    Err(graphql_error)
}

/// Sorts a service error. A standard error carries the error as `{:#?}`
/// writes it.
pub fn map_error(error: AddToShipmentFromMasterListError) -> (r: Result<
    DeleteErrorInterface,
    StandardGraphqlError,
>)
    ensures
        sorted(r) == match structured_error(error) {
            Some(structured) => Ok::<DeleteErrorInterface, StandardGraphqlErrorView>(structured),
            None => Err(
                standard_error(error is DatabaseError, add_from_master_list_error_text(error)),
            ),
        },
{
    let formatted_error = formatted(&error);
    map_error_with(error, formatted_error)
}

/// What the mutation answers, given what the service answered: the lines,
/// put into the form of the API by the caller, or the service error sorted
/// by [`map_error`].
pub fn add_from_master_list<T>(from: Result<T, AddToShipmentFromMasterListError>) -> (r: Result<
    AddFromMasterListResponse<T>,
    StandardGraphqlError,
>)
    ensures
        match from {
            Ok(lines) => r == Ok::<AddFromMasterListResponse<T>, StandardGraphqlError>(
                AddFromMasterListResponse::Response(lines),
            ),
            Err(error) => match structured_error(error) {
                Some(structured) => r == Ok::<AddFromMasterListResponse<T>, StandardGraphqlError>(
                    AddFromMasterListResponse::Error(DeleteError { error: structured }),
                ),
                None => sorted(r) == Err::<AddFromMasterListResponse<T>, StandardGraphqlErrorView>(
                    standard_error(
                        error is DatabaseError,
                        add_from_master_list_error_text(error),
                    ),
                ),
            },
        },
{
    let response = match from {
        Ok(invoice_lines) => AddFromMasterListResponse::Response(invoice_lines),
        Err(error) => match map_error(error) {
            Ok(error) => AddFromMasterListResponse::Error(DeleteError { error }),
            Err(error) => {
                return Err(error);
            },
        },
    };

    Ok(response)
}

} // verus!
