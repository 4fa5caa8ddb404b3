//! What must hold before a line is added to an outbound shipment.

use crate::invoice::WithDBError;
use crate::invoice::validate::{
    check_invoice_is_editable, check_invoice_type, check_store, invoice_is_editable, InvoiceType,
};
use crate::invoice_line::{
    BatchIsOnHold, ItemDoesNotMatchStockLine, ItemNotFound, LineAlreadyExists,
    LocationIsOnHoldError, NumberOfPacksBelowOne, StockLineAlreadyExistsInInvoice, StockLineNotFound,
};
use crate::invoice_line::outbound_shipment_line::insert::{
    InsertOutboundShipmentLine, InsertOutboundShipmentLineError,
};
use crate::repository::invoice::{InvoiceRow, InvoiceRowType, ItemRow, StockLineRow};
use crate::repository::repository_error::RepositoryError;
use vstd::prelude::*;
use vstd::std_specs::convert::FromSpecImpl;

verus! {

/// The outcomes of the checks that read storage, each as the check itself
/// gives it.
#[derive(Debug)]
pub struct InsertOutboundShipmentLineChecks {
    /// That no line has the id of the new line.
    pub line_does_not_exist: Result<(), WithDBError<LineAlreadyExists>>,
    /// The stock line of the new line.
    pub batch: Result<StockLineRow, WithDBError<StockLineNotFound>>,
    /// The item of the new line.
    pub item: Result<ItemRow, WithDBError<ItemNotFound>>,
    /// The invoice of the new line, if storage has it.
    pub invoice: Result<Option<InvoiceRow>, RepositoryError>,
    /// That no other line of the invoice is for the same stock line.
    pub unique_stock_line: Result<(), WithDBError<StockLineAlreadyExistsInInvoice>>,
    /// That the location of the stock line is there and not on hold.
    pub location_on_hold: Result<(), WithDBError<LocationIsOnHoldError>>,
}

/// The error of a check as an error of the insertion: a failure of storage
/// stays one, and the check's own error becomes `error`.
pub open spec fn check_error<T>(
    failed: WithDBError<T>,
    error: InsertOutboundShipmentLineError,
) -> InsertOutboundShipmentLineError {
    match failed {
        WithDBError::DatabaseError(db) => InsertOutboundShipmentLineError::DatabaseError(db),
        WithDBError::Error(_) => error,
    }
}

/// The error that a location on hold, or a location that is not there,
/// becomes.
pub open spec fn location_error(error: LocationIsOnHoldError) -> InsertOutboundShipmentLineError {
    match error {
        LocationIsOnHoldError::LocationIsOnHold => InsertOutboundShipmentLineError::LocationIsOnHold,
        LocationIsOnHoldError::LocationNotFound => InsertOutboundShipmentLineError::LocationNotFound,
    }
}

/// What stands against the line once its stock line, item and invoice are
/// known: the checks from the one of the store on, in their order.
pub open spec fn insert_outbound_shipment_line_on(
    input: InsertOutboundShipmentLine,
    store_id: Seq<char>,
    checks: InsertOutboundShipmentLineChecks,
    batch: StockLineRow,
    item: ItemRow,
    invoice: InvoiceRow,
) -> Result<(ItemRow, InvoiceRow, StockLineRow), InsertOutboundShipmentLineError> {
    if invoice.store_id@ != store_id {
        Err(InsertOutboundShipmentLineError::NotThisStoreInvoice)
    } else if checks.unique_stock_line is Err {
        Err(
            match checks.unique_stock_line->Err_0 {
                WithDBError::DatabaseError(db) => InsertOutboundShipmentLineError::DatabaseError(
                    db,
                ),
                WithDBError::Error(error) => {
                    InsertOutboundShipmentLineError::StockLineAlreadyExistsInInvoice(error.0)
                },
            },
        )
    } else if invoice.invoice_type != InvoiceRowType::OutboundShipment {
        Err(InsertOutboundShipmentLineError::NotAnOutboundShipment)
    } else if !invoice_is_editable(invoice) {
        Err(InsertOutboundShipmentLineError::CannotEditFinalised)
    } else if batch.on_hold {
        Err(InsertOutboundShipmentLineError::BatchIsOnHold)
    } else if checks.location_on_hold is Err {
        Err(
            match checks.location_on_hold->Err_0 {
                WithDBError::DatabaseError(db) => InsertOutboundShipmentLineError::DatabaseError(
                    db,
                ),
                WithDBError::Error(error) => location_error(error),
            },
        )
    } else if batch.available_number_of_packs < input.number_of_packs {
        Err(InsertOutboundShipmentLineError::ReductionBelowZero { stock_line_id: batch.id })
    } else {
        Ok((item, invoice, batch))
    }
}

/// The outcome of all checks. They are made in this order, and the first
/// that fails gives the error: no line has the id yet; at least one pack;
/// the stock line exists; the item exists; the stock line is of the item;
/// the invoice exists; and then the checks of
/// [`insert_outbound_shipment_line_on`].
pub open spec fn insert_outbound_shipment_line(
    input: InsertOutboundShipmentLine,
    store_id: Seq<char>,
    checks: InsertOutboundShipmentLineChecks,
) -> Result<(ItemRow, InvoiceRow, StockLineRow), InsertOutboundShipmentLineError> {
    if checks.line_does_not_exist is Err {
        Err(
            check_error(
                checks.line_does_not_exist->Err_0,
                InsertOutboundShipmentLineError::LineAlreadyExists,
            ),
        )
    } else if input.number_of_packs < 1 {
        Err(InsertOutboundShipmentLineError::NumberOfPacksBelowOne)
    } else {
        match checks.batch {
            Err(failed) => Err(
                check_error(failed, InsertOutboundShipmentLineError::StockLineNotFound),
            ),
            Ok(batch) => match checks.item {
                Err(failed) => Err(
                    check_error(failed, InsertOutboundShipmentLineError::ItemNotFound),
                ),
                Ok(item) => if batch.item_id@ != item.id@ {
                    Err(InsertOutboundShipmentLineError::ItemDoesNotMatchStockLine)
                } else {
                    match checks.invoice {
                        Err(db) => Err(InsertOutboundShipmentLineError::DatabaseError(db)),
                        Ok(None) => Err(InsertOutboundShipmentLineError::InvoiceDoesNotExist),
                        Ok(Some(invoice)) => insert_outbound_shipment_line_on(
                            input,
                            store_id,
                            checks,
                            batch,
                            item,
                            invoice,
                        ),
                    }
                },
            },
        }
    }
}

/// Checks that a line may be added to an outbound shipment, and hands back
/// the item, the invoice and the stock line of the line.
///
/// `checks` holds the outcomes of the checks that read storage. An outcome
/// that the checks before it do not let through to is not looked at.
pub fn validate(
    input: &InsertOutboundShipmentLine,
    store_id: &str,
    checks: InsertOutboundShipmentLineChecks,
) -> (r: Result<(ItemRow, InvoiceRow, StockLineRow), InsertOutboundShipmentLineError>)
    ensures
        r == insert_outbound_shipment_line(*input, store_id@, checks),
{
    let InsertOutboundShipmentLineChecks {
        line_does_not_exist,
        batch,
        item,
        invoice,
        unique_stock_line,
        location_on_hold,
    } = checks;
    match line_does_not_exist {
        Err(WithDBError::DatabaseError(db)) => {
            return Err(InsertOutboundShipmentLineError::DatabaseError(db));
        },
        Err(WithDBError::Error(error)) => {
            return Err(InsertOutboundShipmentLineError::from(error));
        },
        Ok(()) => {},
    }
    if input.number_of_packs < 1 {
        return Err(InsertOutboundShipmentLineError::from(NumberOfPacksBelowOne {  }));
    }
    let batch = match batch {
        Err(WithDBError::DatabaseError(db)) => {
            return Err(InsertOutboundShipmentLineError::DatabaseError(db));
        },
        Err(WithDBError::Error(error)) => {
            return Err(InsertOutboundShipmentLineError::from(error));
        },
        Ok(batch) => batch,
    };
    let item = match item {
        Err(WithDBError::DatabaseError(db)) => {
            return Err(InsertOutboundShipmentLineError::DatabaseError(db));
        },
        Err(WithDBError::Error(error)) => {
            return Err(InsertOutboundShipmentLineError::from(error));
        },
        Ok(item) => item,
    };
    if batch.item_id != item.id {
        return Err(InsertOutboundShipmentLineError::from(ItemDoesNotMatchStockLine {  }));
    }
    let invoice = match invoice {
        Err(db) => {
            return Err(InsertOutboundShipmentLineError::DatabaseError(db));
        },
        Ok(None) => {
            return Err(InsertOutboundShipmentLineError::InvoiceDoesNotExist);
        },
        Ok(Some(invoice)) => invoice,
    };
    if !check_store(&invoice, store_id) {
        return Err(InsertOutboundShipmentLineError::NotThisStoreInvoice);
    }
    match unique_stock_line {
        Err(WithDBError::DatabaseError(db)) => {
            return Err(InsertOutboundShipmentLineError::DatabaseError(db));
        },
        Err(WithDBError::Error(error)) => {
            return Err(InsertOutboundShipmentLineError::from(error));
        },
        Ok(()) => {},
    }
    if check_invoice_type(&invoice, InvoiceType::OutboundShipment).is_err() {
        return Err(InsertOutboundShipmentLineError::NotAnOutboundShipment);
    }
    if check_invoice_is_editable(&invoice).is_err() {
        return Err(InsertOutboundShipmentLineError::CannotEditFinalised);
    }

    if batch.on_hold {
        return Err(InsertOutboundShipmentLineError::from(BatchIsOnHold {  }));
    }
    match location_on_hold {
        Err(WithDBError::DatabaseError(db)) => {
            return Err(InsertOutboundShipmentLineError::DatabaseError(db));
        },
        Err(WithDBError::Error(error)) => {
            return Err(InsertOutboundShipmentLineError::from(error));
        },
        Ok(()) => {},
    }
    match check_reduction_below_zero(input, &batch) {
        Err(error) => {
            return Err(error);
        },
        Ok(()) => {},
    }

    Ok((item, invoice, batch))
}

/// A line may not take more packs than its stock line has available.
pub fn check_reduction_below_zero(input: &InsertOutboundShipmentLine, batch: &StockLineRow) -> (r:
    Result<(), InsertOutboundShipmentLineError>)
    ensures
        match r {
            Ok(()) => batch.available_number_of_packs >= input.number_of_packs,
            Err(error) => batch.available_number_of_packs < input.number_of_packs && error
                == (InsertOutboundShipmentLineError::ReductionBelowZero {
                stock_line_id: batch.id,
            }),
        },
{
    if batch.available_number_of_packs < input.number_of_packs {
        Err(InsertOutboundShipmentLineError::ReductionBelowZero { stock_line_id: batch.id.clone() })
    } else {
        Ok(())
    }
}

impl From<BatchIsOnHold> for InsertOutboundShipmentLineError {
    fn from(error: BatchIsOnHold) -> (r: Self) {
        InsertOutboundShipmentLineError::BatchIsOnHold
    }
}

impl FromSpecImpl<BatchIsOnHold> for InsertOutboundShipmentLineError {
    open spec fn obeys_from_spec() -> bool {
        true
    }

    open spec fn from_spec(error: BatchIsOnHold) -> Self {
        InsertOutboundShipmentLineError::BatchIsOnHold
    }
}

impl From<LocationIsOnHoldError> for InsertOutboundShipmentLineError {
    fn from(error: LocationIsOnHoldError) -> (r: Self) {
        match error {
            LocationIsOnHoldError::LocationIsOnHold => {
                InsertOutboundShipmentLineError::LocationIsOnHold
            },
            LocationIsOnHoldError::LocationNotFound => {
                InsertOutboundShipmentLineError::LocationNotFound
            },
        }
    }
}

impl FromSpecImpl<LocationIsOnHoldError> for InsertOutboundShipmentLineError {
    open spec fn obeys_from_spec() -> bool {
        true
    }

    open spec fn from_spec(error: LocationIsOnHoldError) -> Self {
        location_error(error)
    }
}

impl From<StockLineAlreadyExistsInInvoice> for InsertOutboundShipmentLineError {
    fn from(error: StockLineAlreadyExistsInInvoice) -> (r: Self) {
        InsertOutboundShipmentLineError::StockLineAlreadyExistsInInvoice(error.0)
    }
}

impl FromSpecImpl<StockLineAlreadyExistsInInvoice> for InsertOutboundShipmentLineError {
    open spec fn obeys_from_spec() -> bool {
        true
    }

    open spec fn from_spec(error: StockLineAlreadyExistsInInvoice) -> Self {
        InsertOutboundShipmentLineError::StockLineAlreadyExistsInInvoice(error.0)
    }
}

impl From<ItemDoesNotMatchStockLine> for InsertOutboundShipmentLineError {
    fn from(error: ItemDoesNotMatchStockLine) -> (r: Self) {
        InsertOutboundShipmentLineError::ItemDoesNotMatchStockLine
    }
}

impl FromSpecImpl<ItemDoesNotMatchStockLine> for InsertOutboundShipmentLineError {
    open spec fn obeys_from_spec() -> bool {
        true
    }

    open spec fn from_spec(error: ItemDoesNotMatchStockLine) -> Self {
        InsertOutboundShipmentLineError::ItemDoesNotMatchStockLine
    }
}

impl From<ItemNotFound> for InsertOutboundShipmentLineError {
    fn from(error: ItemNotFound) -> (r: Self) {
        InsertOutboundShipmentLineError::ItemNotFound
    }
}

impl FromSpecImpl<ItemNotFound> for InsertOutboundShipmentLineError {
    open spec fn obeys_from_spec() -> bool {
        true
    }

    open spec fn from_spec(error: ItemNotFound) -> Self {
        InsertOutboundShipmentLineError::ItemNotFound
    }
}

impl From<StockLineNotFound> for InsertOutboundShipmentLineError {
    fn from(error: StockLineNotFound) -> (r: Self) {
        InsertOutboundShipmentLineError::StockLineNotFound
    }
}

impl FromSpecImpl<StockLineNotFound> for InsertOutboundShipmentLineError {
    open spec fn obeys_from_spec() -> bool {
        true
    }

    open spec fn from_spec(error: StockLineNotFound) -> Self {
        InsertOutboundShipmentLineError::StockLineNotFound
    }
}

impl From<NumberOfPacksBelowOne> for InsertOutboundShipmentLineError {
    fn from(error: NumberOfPacksBelowOne) -> (r: Self) {
        InsertOutboundShipmentLineError::NumberOfPacksBelowOne
    }
}

impl FromSpecImpl<NumberOfPacksBelowOne> for InsertOutboundShipmentLineError {
    open spec fn obeys_from_spec() -> bool {
        true
    }

    open spec fn from_spec(error: NumberOfPacksBelowOne) -> Self {
        InsertOutboundShipmentLineError::NumberOfPacksBelowOne
    }
}

impl From<LineAlreadyExists> for InsertOutboundShipmentLineError {
    fn from(error: LineAlreadyExists) -> (r: Self) {
        InsertOutboundShipmentLineError::LineAlreadyExists
    }
}

impl FromSpecImpl<LineAlreadyExists> for InsertOutboundShipmentLineError {
    open spec fn obeys_from_spec() -> bool {
        true
    }

    open spec fn from_spec(error: LineAlreadyExists) -> Self {
        InsertOutboundShipmentLineError::LineAlreadyExists
    }
}

} // verus!
