//! Checks on one invoice.

use crate::invoice::WithDBError;
use crate::repository::invoice::{InvoiceLineRow, InvoiceRow, InvoiceRowStatus, InvoiceRowType};
use crate::repository::repository_error::RepositoryError;
use vstd::prelude::*;

verus! {

/// The kinds of invoice, as the callers of the checks name them.
#[derive(Debug, Clone, Copy, PartialEq, Eq, Structural)]
pub enum InvoiceType {
    OutboundShipment,
    InboundShipment,
}

impl InvoiceType {
    /// The kind as storage names it.
    pub open spec fn row_type(self) -> InvoiceRowType {
        match self {
            InvoiceType::OutboundShipment => InvoiceRowType::OutboundShipment,
            InvoiceType::InboundShipment => InvoiceRowType::InboundShipment,
        }
    }

    /// The kind as storage names it.
    pub fn to_row_type(self) -> (r: InvoiceRowType)
        ensures
            r == self.row_type(),
    {
        match self {
            InvoiceType::OutboundShipment => InvoiceRowType::OutboundShipment,
            InvoiceType::InboundShipment => InvoiceRowType::InboundShipment,
        }
    }
}

/// The states of an invoice, as the callers of the checks name them.
#[derive(Debug, Clone, Copy, PartialEq, Eq, Structural)]
pub enum InvoiceStatus {
    New,
    Allocated,
    Picked,
    Shipped,
    Delivered,
    Verified,
}

impl InvoiceStatus {
    /// The place of a state in the order in which an invoice passes them.
    pub open spec fn spec_index(&self) -> u8 {
        match *self {
            InvoiceStatus::New => 1,
            InvoiceStatus::Allocated => 2,
            InvoiceStatus::Picked => 3,
            InvoiceStatus::Shipped => 4,
            InvoiceStatus::Delivered => 5,
            InvoiceStatus::Verified => 6,
        }
    }

    /// The state that storage names `status`.
    pub open spec fn of_row(status: InvoiceRowStatus) -> InvoiceStatus {
        match status {
            InvoiceRowStatus::New => InvoiceStatus::New,
            InvoiceRowStatus::Allocated => InvoiceStatus::Allocated,
            InvoiceRowStatus::Picked => InvoiceStatus::Picked,
            InvoiceRowStatus::Shipped => InvoiceStatus::Shipped,
            InvoiceRowStatus::Delivered => InvoiceStatus::Delivered,
            InvoiceRowStatus::Verified => InvoiceStatus::Verified,
        }
    }

    /// The place of a state in the order in which an invoice passes them.
    #[verifier::when_used_as_spec(spec_index)]
    pub fn index(&self) -> (r: u8)
        ensures
            r == self.spec_index(),
    {
        match self {
            InvoiceStatus::New => 1,
            InvoiceStatus::Allocated => 2,
            InvoiceStatus::Picked => 3,
            InvoiceStatus::Shipped => 4,
            InvoiceStatus::Delivered => 5,
            InvoiceStatus::Verified => 6,
        }
    }

    /// The state that storage names `status`.
    pub fn from_row(status: InvoiceRowStatus) -> (r: InvoiceStatus)
        ensures
            r == InvoiceStatus::of_row(status),
    {
        match status {
            InvoiceRowStatus::New => InvoiceStatus::New,
            InvoiceRowStatus::Allocated => InvoiceStatus::Allocated,
            InvoiceRowStatus::Picked => InvoiceStatus::Picked,
            InvoiceRowStatus::Shipped => InvoiceStatus::Shipped,
            InvoiceRowStatus::Delivered => InvoiceStatus::Delivered,
            InvoiceRowStatus::Verified => InvoiceStatus::Verified,
        }
    }
}

/// Whether an invoice belongs to the store.
pub fn check_store(invoice: &InvoiceRow, store_id: &str) -> (r: bool)
    ensures
        r == (invoice.store_id@ == store_id@),
{
    invoice.store_id == store_id.to_owned()
}

#[derive(Debug, Clone, Copy, PartialEq, Eq)]
pub struct WrongInvoiceType;

/// An invoice passes where it is of the kind asked for.
pub fn check_invoice_type(invoice: &InvoiceRow, invoice_type: InvoiceType) -> (r: Result<
    (),
    WrongInvoiceType,
>)
    ensures
        r is Ok <==> invoice.invoice_type == invoice_type.row_type(),
{
    if invoice.invoice_type != invoice_type.to_row_type() {
        Err(WrongInvoiceType {  })
    } else {
        Ok(())
    }
}

#[derive(Debug, Clone, Copy, PartialEq, Eq)]
pub struct InvoiceIsNotEditable;

/// Whether an invoice can still be edited: an outbound shipment until it is
/// shipped, an inbound shipment until it is verified.
pub open spec fn invoice_is_editable(invoice: InvoiceRow) -> bool {
    let status_index = InvoiceStatus::of_row(invoice.status).spec_index();
    match invoice.invoice_type {
        InvoiceRowType::OutboundShipment => status_index < InvoiceStatus::Shipped.spec_index(),
        InvoiceRowType::InboundShipment => status_index < InvoiceStatus::Verified.spec_index(),
    }
}

/// An invoice passes where it can still be edited.
pub fn check_invoice_is_editable(invoice: &InvoiceRow) -> (r: Result<(), InvoiceIsNotEditable>)
    ensures
        r is Ok <==> invoice_is_editable(*invoice),
{
    let status_index = InvoiceStatus::from_row(invoice.status).index();
    let is_editable = match &invoice.invoice_type {
        InvoiceRowType::OutboundShipment => status_index < InvoiceStatus::Shipped.index(),
        InvoiceRowType::InboundShipment => status_index < InvoiceStatus::Verified.index(),
    };

    if is_editable {
        Ok(())
    } else {
        Err(InvoiceIsNotEditable {  })
    }
}

#[derive(Debug, Clone, Copy, PartialEq, Eq, Structural)]
pub enum InvoiceStatusError {
    CannotChangeStatusOfInvoiceOnHold,
    CannotReverseInvoiceStatus,
}

/// What stands against giving an invoice a new state, if anything does.
/// Nothing stands against leaving the state as it is. An invoice on hold
/// takes another state only where the same change takes it off hold. No
/// invoice goes back to an earlier state.
pub open spec fn invoice_status_error(
    invoice: InvoiceRow,
    status_option: Option<InvoiceStatus>,
    on_hold_option: Option<bool>,
) -> Option<InvoiceStatusError> {
    match status_option {
        None => None,
        Some(new_status) => {
            let existing_status = InvoiceStatus::of_row(invoice.status);
            let stays_on_hold = invoice.on_hold && (match on_hold_option {
                Some(on_hold) => on_hold,
                None => true,
            });
            if new_status != existing_status && stays_on_hold {
                Some(InvoiceStatusError::CannotChangeStatusOfInvoiceOnHold)
            } else if new_status.spec_index() < existing_status.spec_index() {
                Some(InvoiceStatusError::CannotReverseInvoiceStatus)
            } else {
                None
            }
        },
    }
}

/// Checks that an invoice may be given a new state.
pub fn check_invoice_status(
    invoice: &InvoiceRow,
    status_option: Option<InvoiceStatus>,
    on_hold_option: &Option<bool>,
) -> (r: Result<(), InvoiceStatusError>)
    ensures
        match r {
            Ok(()) => invoice_status_error(*invoice, status_option, *on_hold_option) is None,
            Err(e) => invoice_status_error(*invoice, status_option, *on_hold_option) == Some(e),
        },
{
    if let Some(new_status) = status_option {
        let existing_status: InvoiceStatus = InvoiceStatus::from_row(invoice.status);
        // When we update invoice, error will trigger if
        // * invoice is currently on hold and is not being change to be not on hold
        let on_hold_after = match on_hold_option {
            Some(on_hold) => *on_hold,
            None => true,
        };
        let is_not_on_hold = !invoice.on_hold || !on_hold_after;

        if new_status != existing_status && !is_not_on_hold {
            return Err(InvoiceStatusError::CannotChangeStatusOfInvoiceOnHold);
        }
        if new_status.index() < existing_status.index() {
            return Err(InvoiceStatusError::CannotReverseInvoiceStatus);
        }
    }
    Ok(())
}

#[derive(Debug, Clone, Copy, PartialEq, Eq)]
pub struct InvoiceDoesNotExist;

/// Reads the answer of storage to the question for an invoice by its id:
/// the invoice where it was found, that it does not exist where storage
/// found none, and the failure of storage in every other case.
pub fn check_invoice_exists(found: Result<InvoiceRow, RepositoryError>) -> (r: Result<
    InvoiceRow,
    WithDBError<InvoiceDoesNotExist>,
>)
    ensures
        match found {
            Ok(invoice_row) => r == Ok::<InvoiceRow, WithDBError<InvoiceDoesNotExist>>(
                invoice_row,
            ),
            Err(RepositoryError::NotFound) => r == Err::<
                InvoiceRow,
                WithDBError<InvoiceDoesNotExist>,
            >(WithDBError::Error(InvoiceDoesNotExist {  })),
            Err(error) => r == Err::<InvoiceRow, WithDBError<InvoiceDoesNotExist>>(
                WithDBError::DatabaseError(error),
            ),
        },
{
    match found {
        Ok(invoice_row) => Ok(invoice_row),
        Err(RepositoryError::NotFound) => Err(WithDBError::err(InvoiceDoesNotExist {  })),
        Err(error) => Err(WithDBError::db(error)),
    }
}

/// The lines that stand against deleting an invoice.
#[derive(Debug, Clone, PartialEq)]
pub struct InvoiceLinesExist(pub Vec<InvoiceLineRow>);

/// Reads the answer of storage to the question for the lines of an invoice:
/// the invoice passes where it has none.
pub fn check_invoice_is_empty(lines: Result<Vec<InvoiceLineRow>, RepositoryError>) -> (r: Result<
    (),
    WithDBError<InvoiceLinesExist>,
>)
    ensures
        match lines {
            Err(error) => r == Err::<(), WithDBError<InvoiceLinesExist>>(
                WithDBError::DatabaseError(error),
            ),
            Ok(lines) => if lines@.len() > 0 {
                r == Err::<(), WithDBError<InvoiceLinesExist>>(
                    WithDBError::Error(InvoiceLinesExist(lines)),
                )
            } else {
                r is Ok
            },
        },
{
    let lines = match lines {
        Ok(lines) => lines,
        Err(error) => {
            return Err(WithDBError::db(error));
        },
    };

    if lines.len() > 0 {
        Err(WithDBError::err(InvoiceLinesExist(lines)))
    } else {
        Ok(())
    }
}

} // verus!
