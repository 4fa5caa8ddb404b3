use sync_translation::invoice::customer_invoice::delete::{
    delete_customer_invoice, DeleteCustomerInvoiceError,
};
use sync_translation::invoice::outbound_shipment::delete::validate::validate as validate_delete_outbound;
use sync_translation::invoice::outbound_shipment::delete::DeleteOutboundShipmentError;
use sync_translation::invoice::validate::{
    check_invoice_exists, check_invoice_is_editable, check_invoice_is_empty, check_invoice_status,
    check_invoice_type, check_store, InvoiceDoesNotExist, InvoiceIsNotEditable, InvoiceLinesExist,
    InvoiceStatus, InvoiceStatusError, InvoiceType, WrongInvoiceType,
};
use sync_translation::invoice::WithDBError;
use sync_translation::invoice_line::inbound_shipment_line::delete::validate::validate as validate_delete_inbound_line;
use sync_translation::invoice_line::inbound_shipment_line::delete::DeleteInboundShipmentLineError;
use sync_translation::invoice_line::outbound_shipment_line::insert::validate::{
    check_reduction_below_zero, validate as validate_insert_outbound_line,
    InsertOutboundShipmentLineChecks,
};
use sync_translation::invoice_line::outbound_shipment_line::insert::{
    InsertOutboundShipmentLine, InsertOutboundShipmentLineError,
};
use sync_translation::invoice_line::{
    BatchIsOnHold, BatchIsReserved, ItemDoesNotMatchStockLine, ItemNotFound, LineAlreadyExists,
    LocationIsOnHoldError, NotInvoiceLine, NumberOfPacksBelowOne, StockLineAlreadyExistsInInvoice,
    StockLineNotFound,
};
use sync_translation::repository::invoice::{
    InvoiceLineRow, InvoiceRow, InvoiceRowStatus, InvoiceRowType, ItemRow, StockLineRow,
};
use sync_translation::repository::repository_error::{RepositoryError, TransactionError};

type E = InsertOutboundShipmentLineError;

fn invoice(invoice_type: InvoiceRowType, status: InvoiceRowStatus, on_hold: bool) -> InvoiceRow {
    InvoiceRow {
        id: "invoice_a".to_string(),
        store_id: "store_a".to_string(),
        invoice_type,
        status,
        on_hold,
    }
}

fn outbound(status: InvoiceRowStatus) -> InvoiceRow {
    invoice(InvoiceRowType::OutboundShipment, status, false)
}

fn inbound(status: InvoiceRowStatus) -> InvoiceRow {
    invoice(InvoiceRowType::InboundShipment, status, false)
}

fn line() -> InvoiceLineRow {
    InvoiceLineRow {
        id: "line_a".to_string(),
        invoice_id: "invoice_a".to_string(),
        item_id: "item_a".to_string(),
        stock_line_id: Some("stock_line_a".to_string()),
    }
}

fn db_error() -> RepositoryError {
    RepositoryError::DBError { msg: "connection lost".to_string() }
}

const STATUSES: [InvoiceRowStatus; 6] = [
    InvoiceRowStatus::New,
    InvoiceRowStatus::Allocated,
    InvoiceRowStatus::Picked,
    InvoiceRowStatus::Shipped,
    InvoiceRowStatus::Delivered,
    InvoiceRowStatus::Verified,
];

#[test]
fn status_index_follows_the_order_of_states() {
    let indexes: Vec<u8> = STATUSES.iter().map(|s| InvoiceStatus::from_row(*s).index()).collect();
    assert_eq!(indexes, vec![1, 2, 3, 4, 5, 6]);
    assert_eq!(InvoiceType::OutboundShipment.to_row_type(), InvoiceRowType::OutboundShipment);
    assert_eq!(InvoiceType::InboundShipment.to_row_type(), InvoiceRowType::InboundShipment);
}

#[test]
fn invoice_type_is_checked() {
    let row = outbound(InvoiceRowStatus::New);
    assert_eq!(check_invoice_type(&row, InvoiceType::OutboundShipment), Ok(()));
    assert_eq!(check_invoice_type(&row, InvoiceType::InboundShipment), Err(WrongInvoiceType));
    let row = inbound(InvoiceRowStatus::New);
    assert_eq!(check_invoice_type(&row, InvoiceType::InboundShipment), Ok(()));
    assert_eq!(check_invoice_type(&row, InvoiceType::OutboundShipment), Err(WrongInvoiceType));
}

#[test]
fn outbound_shipment_is_editable_until_shipped() {
    let editable: Vec<bool> =
        STATUSES.iter().map(|s| check_invoice_is_editable(&outbound(*s)).is_ok()).collect();
    assert_eq!(editable, vec![true, true, true, false, false, false]);
    assert_eq!(
        check_invoice_is_editable(&outbound(InvoiceRowStatus::Shipped)),
        Err(InvoiceIsNotEditable)
    );
}

#[test]
fn inbound_shipment_is_editable_until_verified() {
    let editable: Vec<bool> =
        STATUSES.iter().map(|s| check_invoice_is_editable(&inbound(*s)).is_ok()).collect();
    assert_eq!(editable, vec![true, true, true, true, true, false]);
}

#[test]
fn status_may_stay_or_advance() {
    let row = outbound(InvoiceRowStatus::Picked);
    assert_eq!(check_invoice_status(&row, None, &None), Ok(()));
    assert_eq!(check_invoice_status(&row, Some(InvoiceStatus::Picked), &None), Ok(()));
    assert_eq!(check_invoice_status(&row, Some(InvoiceStatus::Shipped), &None), Ok(()));
    assert_eq!(check_invoice_status(&row, Some(InvoiceStatus::Verified), &Some(true)), Ok(()));
    assert_eq!(
        check_invoice_status(&row, Some(InvoiceStatus::Allocated), &None),
        Err(InvoiceStatusError::CannotReverseInvoiceStatus)
    );
    assert_eq!(
        check_invoice_status(&row, Some(InvoiceStatus::New), &Some(false)),
        Err(InvoiceStatusError::CannotReverseInvoiceStatus)
    );
}

#[test]
fn status_of_invoice_on_hold_is_kept() {
    let row = invoice(InvoiceRowType::OutboundShipment, InvoiceRowStatus::Picked, true);
    assert_eq!(check_invoice_status(&row, None, &Some(true)), Ok(()));
    assert_eq!(check_invoice_status(&row, Some(InvoiceStatus::Picked), &None), Ok(()));
    assert_eq!(
        check_invoice_status(&row, Some(InvoiceStatus::Shipped), &None),
        Err(InvoiceStatusError::CannotChangeStatusOfInvoiceOnHold)
    );
    assert_eq!(
        check_invoice_status(&row, Some(InvoiceStatus::Shipped), &Some(true)),
        Err(InvoiceStatusError::CannotChangeStatusOfInvoiceOnHold)
    );
    assert_eq!(check_invoice_status(&row, Some(InvoiceStatus::Shipped), &Some(false)), Ok(()));
    assert_eq!(
        check_invoice_status(&row, Some(InvoiceStatus::New), &None),
        Err(InvoiceStatusError::CannotChangeStatusOfInvoiceOnHold)
    );
    assert_eq!(
        check_invoice_status(&row, Some(InvoiceStatus::New), &Some(false)),
        Err(InvoiceStatusError::CannotReverseInvoiceStatus)
    );
}

#[test]
fn invoice_exists_or_not() {
    let row = outbound(InvoiceRowStatus::New);
    assert_eq!(check_invoice_exists(Ok(row.clone())), Ok(row));
    assert_eq!(
        check_invoice_exists(Err(RepositoryError::NotFound)),
        Err(WithDBError::Error(InvoiceDoesNotExist))
    );
    assert_eq!(check_invoice_exists(Err(db_error())), Err(WithDBError::DatabaseError(db_error())));
    assert_eq!(WithDBError::<InvoiceDoesNotExist>::db(db_error()), WithDBError::DatabaseError(db_error()));
    assert_eq!(WithDBError::err(InvoiceDoesNotExist), WithDBError::Error(InvoiceDoesNotExist));
}

#[test]
fn invoice_is_empty_or_not() {
    assert_eq!(check_invoice_is_empty(Ok(vec![])), Ok(()));
    assert_eq!(
        check_invoice_is_empty(Ok(vec![line()])),
        Err(WithDBError::Error(InvoiceLinesExist(vec![line()])))
    );
    assert_eq!(check_invoice_is_empty(Err(db_error())), Err(WithDBError::DatabaseError(db_error())));
}

#[test]
fn store_is_compared_by_id() {
    let row = outbound(InvoiceRowStatus::New);
    assert!(check_store(&row, "store_a"));
    assert!(!check_store(&row, "store_b"));
    assert!(!check_store(&row, ""));
}

#[test]
fn customer_invoice_deletion_reports_how_the_transaction_ended() {
    assert_eq!(delete_customer_invoice(Ok(()), "invoice_a".to_string()), Ok("invoice_a".to_string()));
    assert_eq!(
        delete_customer_invoice(
            Err(TransactionError::Transaction { msg: "rolled back".to_string() }),
            "invoice_a".to_string()
        ),
        Err(DeleteCustomerInvoiceError::DatabaseError(RepositoryError::DBError {
            msg: "rolled back".to_string()
        }))
    );
    for error in [
        DeleteCustomerInvoiceError::InvoiceDoesNotExist,
        DeleteCustomerInvoiceError::NotThisStoreInvoice,
        DeleteCustomerInvoiceError::CannotEditFinalised,
        DeleteCustomerInvoiceError::InvoiceLinesExists(vec![line()]),
        DeleteCustomerInvoiceError::NotACustomerInvoice,
        DeleteCustomerInvoiceError::DatabaseError(RepositoryError::NotFound),
    ] {
        assert_eq!(
            delete_customer_invoice(
                Err(TransactionError::Inner(error.clone())),
                "invoice_a".to_string()
            ),
            Err(error)
        );
    }
    assert_eq!(
        DeleteCustomerInvoiceError::from_repository_error(db_error()),
        DeleteCustomerInvoiceError::DatabaseError(db_error())
    );
}

#[test]
fn outbound_shipment_deletion_is_validated_in_order() {
    let good = outbound(InvoiceRowStatus::Picked);
    assert_eq!(validate_delete_outbound(Ok(Some(good.clone())), "store_a"), Ok(good.clone()));
    assert_eq!(validate_delete_outbound(Err(db_error()), "store_a"), Err(DeleteOutboundShipmentError::DatabaseError(db_error())));
    assert_eq!(validate_delete_outbound(Ok(None), "store_a"), Err(DeleteOutboundShipmentError::InvoiceDoesNotExist));
    assert_eq!(validate_delete_outbound(Ok(Some(good)), "store_b"), Err(DeleteOutboundShipmentError::NotThisStoreInvoice));
    assert_eq!(
        validate_delete_outbound(Ok(Some(outbound(InvoiceRowStatus::Shipped))), "store_a"),
        Err(DeleteOutboundShipmentError::CannotEditFinalised)
    );
    assert_eq!(
        validate_delete_outbound(Ok(Some(inbound(InvoiceRowStatus::New))), "store_a"),
        Err(DeleteOutboundShipmentError::NotAnOutboundShipment)
    );
    // an inbound shipment that cannot be edited: the state is looked at first
    assert_eq!(
        validate_delete_outbound(Ok(Some(inbound(InvoiceRowStatus::Verified))), "store_a"),
        Err(DeleteOutboundShipmentError::CannotEditFinalised)
    );
    // the store is looked at before the state
    assert_eq!(
        validate_delete_outbound(Ok(Some(outbound(InvoiceRowStatus::Shipped))), "store_b"),
        Err(DeleteOutboundShipmentError::NotThisStoreInvoice)
    );
    assert_eq!(
        DeleteOutboundShipmentError::from(InvoiceLinesExist(vec![line()])),
        DeleteOutboundShipmentError::InvoiceLinesExists(vec![line()])
    );
}

#[test]
fn inbound_line_deletion_is_validated_in_order() {
    let good = inbound(InvoiceRowStatus::Delivered);
    assert_eq!(
        validate_delete_inbound_line(Ok(Some(line())), Ok(Some(good.clone())), Ok(true), "store_a"),
        Ok((good.clone(), line()))
    );
    assert_eq!(
        validate_delete_inbound_line(Err(db_error()), Ok(None), Ok(false), "store_a"),
        Err(DeleteInboundShipmentLineError::DatabaseError(db_error()))
    );
    assert_eq!(
        validate_delete_inbound_line(Ok(None), Err(db_error()), Err(db_error()), "store_a"),
        Err(DeleteInboundShipmentLineError::LineDoesNotExist)
    );
    assert_eq!(
        validate_delete_inbound_line(Ok(Some(line())), Err(db_error()), Ok(true), "store_a"),
        Err(DeleteInboundShipmentLineError::DatabaseError(db_error()))
    );
    assert_eq!(
        validate_delete_inbound_line(Ok(Some(line())), Ok(None), Ok(true), "store_a"),
        Err(DeleteInboundShipmentLineError::InvoiceDoesNotExist)
    );
    assert_eq!(
        validate_delete_inbound_line(Ok(Some(line())), Ok(Some(good.clone())), Ok(true), "store_b"),
        Err(DeleteInboundShipmentLineError::NotThisStoreInvoice)
    );
    assert_eq!(
        validate_delete_inbound_line(
            Ok(Some(line())),
            Ok(Some(outbound(InvoiceRowStatus::Shipped))),
            Ok(true),
            "store_a"
        ),
        Err(DeleteInboundShipmentLineError::NotAnInboundShipment)
    );
    assert_eq!(
        validate_delete_inbound_line(
            Ok(Some(line())),
            Ok(Some(inbound(InvoiceRowStatus::Verified))),
            Err(db_error()),
            "store_a"
        ),
        Err(DeleteInboundShipmentLineError::CannotEditFinalised)
    );
    assert_eq!(
        validate_delete_inbound_line(Ok(Some(line())), Ok(Some(good.clone())), Ok(false), "store_a"),
        Err(DeleteInboundShipmentLineError::BatchIsReserved)
    );
    assert_eq!(
        validate_delete_inbound_line(Ok(Some(line())), Ok(Some(good)), Err(db_error()), "store_a"),
        Err(DeleteInboundShipmentLineError::DatabaseError(db_error()))
    );
    assert_eq!(
        DeleteInboundShipmentLineError::from(NotInvoiceLine("invoice_b".to_string())),
        DeleteInboundShipmentLineError::NotThisInvoiceLine("invoice_b".to_string())
    );
    assert_eq!(
        DeleteInboundShipmentLineError::from(sync_translation::invoice_line::BatchIsReserved),
        DeleteInboundShipmentLineError::BatchIsReserved
    );
    let _ = BatchIsReserved;
}

fn input(number_of_packs: u32) -> InsertOutboundShipmentLine {
    InsertOutboundShipmentLine {
        id: "new_line".to_string(),
        invoice_id: "invoice_a".to_string(),
        item_id: "item_a".to_string(),
        stock_line_id: "stock_line_a".to_string(),
        number_of_packs,
    }
}

fn batch() -> StockLineRow {
    StockLineRow {
        id: "stock_line_a".to_string(),
        item_id: "item_a".to_string(),
        location_id: None,
        available_number_of_packs: 10,
        total_number_of_packs: 12,
        on_hold: false,
    }
}

fn item() -> ItemRow {
    ItemRow { id: "item_a".to_string(), name: "Item A".to_string() }
}

fn checks() -> InsertOutboundShipmentLineChecks {
    InsertOutboundShipmentLineChecks {
        line_does_not_exist: Ok(()),
        batch: Ok(batch()),
        item: Ok(item()),
        invoice: Ok(Some(outbound(InvoiceRowStatus::New))),
        unique_stock_line: Ok(()),
        location_on_hold: Ok(()),
    }
}

/// Every check from the one named on fails; the one named gives the error.
fn failing_from(step: usize) -> InsertOutboundShipmentLineChecks {
    let mut all = checks();
    if step <= 12 {
        all.location_on_hold = Err(WithDBError::Error(LocationIsOnHoldError::LocationIsOnHold));
    }
    if step <= 11 {
        all.batch = Ok(StockLineRow { on_hold: true, ..batch() });
    }
    if step <= 8 {
        all.unique_stock_line =
            Err(WithDBError::Error(StockLineAlreadyExistsInInvoice("line_b".to_string())));
    }
    if step <= 6 {
        all.invoice = Ok(None);
    }
    if step <= 4 {
        all.item = Err(WithDBError::Error(ItemNotFound));
    }
    if step <= 3 {
        all.batch = Err(WithDBError::Error(StockLineNotFound));
    }
    if step <= 1 {
        all.line_does_not_exist = Err(WithDBError::Error(LineAlreadyExists));
    }
    all
}

#[test]
fn outbound_line_insertion_passes() {
    assert_eq!(
        validate_insert_outbound_line(&input(10), "store_a", checks()),
        Ok((item(), outbound(InvoiceRowStatus::New), batch()))
    );
    assert_eq!(
        validate_insert_outbound_line(&input(1), "store_a", checks()),
        Ok((item(), outbound(InvoiceRowStatus::New), batch()))
    );
}

#[test]
fn outbound_line_insertion_is_validated_in_order() {
    assert_eq!(validate_insert_outbound_line(&input(0), "store_b", failing_from(1)), Err(E::LineAlreadyExists));
    assert_eq!(
        validate_insert_outbound_line(&input(0), "store_b", failing_from(2)),
        Err(E::NumberOfPacksBelowOne)
    );
    assert_eq!(validate_insert_outbound_line(&input(11), "store_b", failing_from(3)), Err(E::StockLineNotFound));
    assert_eq!(validate_insert_outbound_line(&input(11), "store_b", failing_from(4)), Err(E::ItemNotFound));
    let mut mismatch = failing_from(6);
    mismatch.item = Ok(ItemRow { id: "item_b".to_string(), name: String::new() });
    assert_eq!(
        validate_insert_outbound_line(&input(11), "store_b", mismatch),
        Err(E::ItemDoesNotMatchStockLine)
    );
    assert_eq!(
        validate_insert_outbound_line(&input(11), "store_b", failing_from(6)),
        Err(E::InvoiceDoesNotExist)
    );
    let mut shipped = failing_from(8);
    shipped.invoice = Ok(Some(inbound(InvoiceRowStatus::Verified)));
    assert_eq!(
        validate_insert_outbound_line(&input(11), "store_b", shipped),
        Err(E::NotThisStoreInvoice)
    );
    let mut shipped = failing_from(8);
    shipped.invoice = Ok(Some(inbound(InvoiceRowStatus::Verified)));
    assert_eq!(
        validate_insert_outbound_line(&input(11), "store_a", shipped),
        Err(E::StockLineAlreadyExistsInInvoice("line_b".to_string()))
    );
    let mut wrong_type = failing_from(11);
    wrong_type.invoice = Ok(Some(inbound(InvoiceRowStatus::Verified)));
    assert_eq!(
        validate_insert_outbound_line(&input(11), "store_a", wrong_type),
        Err(E::NotAnOutboundShipment)
    );
    let mut finalised = failing_from(11);
    finalised.invoice = Ok(Some(outbound(InvoiceRowStatus::Shipped)));
    assert_eq!(
        validate_insert_outbound_line(&input(11), "store_a", finalised),
        Err(E::CannotEditFinalised)
    );
    assert_eq!(validate_insert_outbound_line(&input(11), "store_a", failing_from(11)), Err(E::BatchIsOnHold));
    assert_eq!(
        validate_insert_outbound_line(&input(11), "store_a", failing_from(12)),
        Err(E::LocationIsOnHold)
    );
    let mut no_location = checks();
    no_location.location_on_hold = Err(WithDBError::Error(LocationIsOnHoldError::LocationNotFound));
    assert_eq!(
        validate_insert_outbound_line(&input(11), "store_a", no_location),
        Err(E::LocationNotFound)
    );
    assert_eq!(
        validate_insert_outbound_line(&input(11), "store_a", checks()),
        Err(E::ReductionBelowZero { stock_line_id: "stock_line_a".to_string() })
    );
}

#[test]
fn outbound_line_insertion_reports_storage_failures() {
    let mut all = checks();
    all.line_does_not_exist = Err(WithDBError::DatabaseError(db_error()));
    assert_eq!(validate_insert_outbound_line(&input(1), "store_a", all), Err(E::DatabaseError(db_error())));
    let mut all = checks();
    all.batch = Err(WithDBError::DatabaseError(db_error()));
    assert_eq!(validate_insert_outbound_line(&input(1), "store_a", all), Err(E::DatabaseError(db_error())));
    let mut all = checks();
    all.item = Err(WithDBError::DatabaseError(RepositoryError::NotFound));
    assert_eq!(
        validate_insert_outbound_line(&input(1), "store_a", all),
        Err(E::DatabaseError(RepositoryError::NotFound))
    );
    let mut all = checks();
    all.invoice = Err(db_error());
    assert_eq!(validate_insert_outbound_line(&input(1), "store_a", all), Err(E::DatabaseError(db_error())));
    let mut all = checks();
    all.unique_stock_line = Err(WithDBError::DatabaseError(db_error()));
    assert_eq!(validate_insert_outbound_line(&input(1), "store_a", all), Err(E::DatabaseError(db_error())));
    let mut all = checks();
    all.location_on_hold = Err(WithDBError::DatabaseError(db_error()));
    assert_eq!(validate_insert_outbound_line(&input(1), "store_a", all), Err(E::DatabaseError(db_error())));
}

#[test]
fn reduction_below_zero() {
    assert_eq!(check_reduction_below_zero(&input(10), &batch()), Ok(()));
    assert_eq!(check_reduction_below_zero(&input(0), &batch()), Ok(()));
    assert_eq!(
        check_reduction_below_zero(&input(11), &batch()),
        Err(InsertOutboundShipmentLineError::ReductionBelowZero {
            stock_line_id: "stock_line_a".to_string()
        })
    );
}

#[test]
fn check_errors_become_insertion_errors() {
    assert_eq!(E::from(BatchIsOnHold), E::BatchIsOnHold);
    assert_eq!(E::from(LocationIsOnHoldError::LocationIsOnHold), E::LocationIsOnHold);
    assert_eq!(E::from(LocationIsOnHoldError::LocationNotFound), E::LocationNotFound);
    assert_eq!(
        E::from(StockLineAlreadyExistsInInvoice("line_b".to_string())),
        E::StockLineAlreadyExistsInInvoice("line_b".to_string())
    );
    assert_eq!(E::from(ItemDoesNotMatchStockLine), E::ItemDoesNotMatchStockLine);
    assert_eq!(E::from(ItemNotFound), E::ItemNotFound);
    assert_eq!(E::from(StockLineNotFound), E::StockLineNotFound);
    assert_eq!(E::from(NumberOfPacksBelowOne), E::NumberOfPacksBelowOne);
    assert_eq!(E::from(LineAlreadyExists), E::LineAlreadyExists);
}
