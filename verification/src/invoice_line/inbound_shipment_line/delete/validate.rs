//! What must hold of a line of an inbound shipment before it is deleted.

use crate::invoice::validate::{
    check_invoice_is_editable, check_invoice_type, check_store, invoice_is_editable, InvoiceType,
};
use crate::invoice_line::{BatchIsReserved, NotInvoiceLine};
use crate::invoice_line::inbound_shipment_line::delete::DeleteInboundShipmentLineError;
use crate::repository::invoice::{InvoiceLineRow, InvoiceRow, InvoiceRowType};
use crate::repository::repository_error::RepositoryError;
use vstd::prelude::*;
use vstd::std_specs::convert::FromSpecImpl;

verus! {

/// The outcome of the checks, given what storage answered to the three
/// reads that they need. The checks are made in this order, and the first
/// that fails gives the error: the line exists, its invoice exists, belongs
/// to the store, is an inbound shipment and can still be edited, and the
/// stock that the line brought in has not been reserved.
pub open spec fn delete_inbound_shipment_line(
    line: Result<Option<InvoiceLineRow>, RepositoryError>,
    invoice: Result<Option<InvoiceRow>, RepositoryError>,
    batch_is_free: Result<bool, RepositoryError>,
    store_id: Seq<char>,
) -> Result<(InvoiceRow, InvoiceLineRow), DeleteInboundShipmentLineError> {
    match line {
        Err(error) => Err(DeleteInboundShipmentLineError::DatabaseError(error)),
        Ok(None) => Err(DeleteInboundShipmentLineError::LineDoesNotExist),
        Ok(Some(line)) => match invoice {
            Err(error) => Err(DeleteInboundShipmentLineError::DatabaseError(error)),
            Ok(None) => Err(DeleteInboundShipmentLineError::InvoiceDoesNotExist),
            Ok(Some(invoice)) => if invoice.store_id@ != store_id {
                Err(DeleteInboundShipmentLineError::NotThisStoreInvoice)
            } else if invoice.invoice_type != InvoiceRowType::InboundShipment {
                Err(DeleteInboundShipmentLineError::NotAnInboundShipment)
            } else if !invoice_is_editable(invoice) {
                Err(DeleteInboundShipmentLineError::CannotEditFinalised)
            } else {
                match batch_is_free {
                    Err(error) => Err(DeleteInboundShipmentLineError::DatabaseError(error)),
                    Ok(false) => Err(DeleteInboundShipmentLineError::BatchIsReserved),
                    Ok(true) => Ok((invoice, line)),
                }
            },
        },
    }
}

/// Checks that a line of an inbound shipment may be deleted, and hands the
/// line back with its invoice.
///
/// `line` is what storage answered when asked for the line by its id,
/// `invoice` what it answered when asked for the invoice of that line, and
/// `batch_is_free` what it answered when asked whether all of the stock of
/// the line is still available. An answer that the checks do not get to is
/// not looked at.
pub fn validate(
    line: Result<Option<InvoiceLineRow>, RepositoryError>,
    invoice: Result<Option<InvoiceRow>, RepositoryError>,
    batch_is_free: Result<bool, RepositoryError>,
    store_id: &str,
) -> (r: Result<(InvoiceRow, InvoiceLineRow), DeleteInboundShipmentLineError>)
    ensures
        r == delete_inbound_shipment_line(line, invoice, batch_is_free, store_id@),
{
    let line = match line {
        Err(error) => {
            return Err(DeleteInboundShipmentLineError::DatabaseError(error));
        },
        Ok(None) => {
            return Err(DeleteInboundShipmentLineError::LineDoesNotExist);
        },
        Ok(Some(line)) => line,
    };
    let invoice = match invoice {
        Err(error) => {
            return Err(DeleteInboundShipmentLineError::DatabaseError(error));
        },
        Ok(None) => {
            return Err(DeleteInboundShipmentLineError::InvoiceDoesNotExist);
        },
        Ok(Some(invoice)) => invoice,
    };

    if !check_store(&invoice, store_id) {
        return Err(DeleteInboundShipmentLineError::NotThisStoreInvoice);
    }
    if check_invoice_type(&invoice, InvoiceType::InboundShipment).is_err() {
        return Err(DeleteInboundShipmentLineError::NotAnInboundShipment);
    }
    if check_invoice_is_editable(&invoice).is_err() {
        return Err(DeleteInboundShipmentLineError::CannotEditFinalised);
    }
    match batch_is_free {
        Err(error) => {
            return Err(DeleteInboundShipmentLineError::DatabaseError(error));
        },
        Ok(false) => {
            return Err(DeleteInboundShipmentLineError::BatchIsReserved);
        },
        Ok(true) => {},
    }

    Ok((invoice, line))
}

impl From<NotInvoiceLine> for DeleteInboundShipmentLineError {
    fn from(error: NotInvoiceLine) -> (r: Self) {
        DeleteInboundShipmentLineError::NotThisInvoiceLine(error.0)
    }
}

impl FromSpecImpl<NotInvoiceLine> for DeleteInboundShipmentLineError {
    open spec fn obeys_from_spec() -> bool {
        true
    }

    open spec fn from_spec(error: NotInvoiceLine) -> Self {
        DeleteInboundShipmentLineError::NotThisInvoiceLine(error.0)
    }
}

impl From<BatchIsReserved> for DeleteInboundShipmentLineError {
    fn from(error: BatchIsReserved) -> (r: Self) {
        DeleteInboundShipmentLineError::BatchIsReserved
    }
}

impl FromSpecImpl<BatchIsReserved> for DeleteInboundShipmentLineError {
    open spec fn obeys_from_spec() -> bool {
        true
    }

    open spec fn from_spec(error: BatchIsReserved) -> Self {
        DeleteInboundShipmentLineError::BatchIsReserved
    }
}

} // verus!
