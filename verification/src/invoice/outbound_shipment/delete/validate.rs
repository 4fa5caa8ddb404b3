//! What must hold of an outbound shipment before it is deleted.

use crate::invoice::outbound_shipment::delete::DeleteOutboundShipmentError;
use crate::invoice::validate::{
    check_invoice_is_editable, check_invoice_type, check_store, invoice_is_editable,
    InvoiceLinesExist, InvoiceType,
};
use crate::repository::invoice::{InvoiceRow, InvoiceRowType};
use crate::repository::repository_error::RepositoryError;
use vstd::prelude::*;
use vstd::std_specs::convert::FromSpecImpl;

verus! {

/// The outcome of the checks, given what storage answered when asked for
/// the invoice. The checks are made in this order, and the first that fails
/// gives the error: the invoice exists, belongs to the store, can still be
/// edited, and is an outbound shipment.
pub open spec fn delete_outbound_shipment(
    invoice: Result<Option<InvoiceRow>, RepositoryError>,
    store_id: Seq<char>,
) -> Result<InvoiceRow, DeleteOutboundShipmentError> {
    match invoice {
        Err(error) => Err(DeleteOutboundShipmentError::DatabaseError(error)),
        Ok(None) => Err(DeleteOutboundShipmentError::InvoiceDoesNotExist),
        Ok(Some(invoice)) => if invoice.store_id@ != store_id {
            Err(DeleteOutboundShipmentError::NotThisStoreInvoice)
        } else if !invoice_is_editable(invoice) {
            Err(DeleteOutboundShipmentError::CannotEditFinalised)
        } else if invoice.invoice_type != InvoiceRowType::OutboundShipment {
            Err(DeleteOutboundShipmentError::NotAnOutboundShipment)
        } else {
            Ok(invoice)
        },
    }
}

/// Checks that an outbound shipment may be deleted, and hands it back.
/// `invoice` is what storage answered when asked for the invoice by its id.
pub fn validate(invoice: Result<Option<InvoiceRow>, RepositoryError>, store_id: &str) -> (r: Result<
    InvoiceRow,
    DeleteOutboundShipmentError,
>)
    ensures
        r == delete_outbound_shipment(invoice, store_id@),
{
    let invoice = match invoice {
        Err(error) => {
            return Err(DeleteOutboundShipmentError::DatabaseError(error));
        },
        Ok(None) => {
            return Err(DeleteOutboundShipmentError::InvoiceDoesNotExist);
        },
        Ok(Some(invoice)) => invoice,
    };
    if !check_store(&invoice, store_id) {
        return Err(DeleteOutboundShipmentError::NotThisStoreInvoice);
    }
    if check_invoice_is_editable(&invoice).is_err() {
        return Err(DeleteOutboundShipmentError::CannotEditFinalised);
    }
    if check_invoice_type(&invoice, InvoiceType::OutboundShipment).is_err() {
        return Err(DeleteOutboundShipmentError::NotAnOutboundShipment);
    }
    Ok(invoice)
}

impl From<InvoiceLinesExist> for DeleteOutboundShipmentError {
    fn from(error: InvoiceLinesExist) -> (r: Self) {
        DeleteOutboundShipmentError::InvoiceLinesExists(error.0)
    }
}

impl FromSpecImpl<InvoiceLinesExist> for DeleteOutboundShipmentError {
    open spec fn obeys_from_spec() -> bool {
        true
    }

    open spec fn from_spec(error: InvoiceLinesExist) -> Self {
        DeleteOutboundShipmentError::InvoiceLinesExists(error.0)
    }
}

} // verus!
