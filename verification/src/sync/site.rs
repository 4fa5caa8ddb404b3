//! Whether a record belongs to the site that the library runs on. A
//! translator asks this before it sends a record whose owner is found
//! through a parent, such as the invoice of an invoice line.

use crate::repository::invoice::Invoice;
use crate::repository::repository_error::RepositoryError;
use vstd::prelude::*;

verus! {

/// The record to check, by the parent that leads to its store.
#[derive(Debug, Clone, PartialEq)]
pub enum ActiveRecordCheck {
    InvoiceLine { invoice_id: String },
}

#[derive(Debug, Clone, PartialEq)]
pub enum ActiveRecordCheckError {
    /// Storage failed while the site or the parent was read.
    DatabaseError(RepositoryError),
    /// The site has no id yet: synchronisation has never been set up.
    SiteIdNotSet,
    /// The parent of the record is not in local storage.
    ParentRecordNotFound(ActiveRecordCheck),
}

impl ActiveRecordCheckError {
    /// Whether the error ends the run of synchronisation. A parent that is
    /// missing does not: the record is left out and the run goes on.
    pub open spec fn ends_run(self) -> bool {
        !(self is ParentRecordNotFound)
    }

    /// Whether the error ends the run of synchronisation. A parent that is
    /// missing does not: the record is left out and the run goes on.
    pub fn is_fatal(&self) -> (r: bool)
        ensures
            r == self.ends_run(),
    {
        match self {
            ActiveRecordCheckError::ParentRecordNotFound(_) => false,
            _ => true,
        }
    }
}

/// The answer to the check, given what storage answered to the two reads
/// that the check needs: the id of the site from the settings, and the
/// parent of the record with its store.
pub open spec fn active_record_on_site(
    site_id: Result<Option<i32>, RepositoryError>,
    parent: Result<Option<Invoice>, RepositoryError>,
    record: ActiveRecordCheck,
) -> Result<bool, ActiveRecordCheckError> {
    match site_id {
        Err(error) => Err(ActiveRecordCheckError::DatabaseError(error)),
        Ok(None) => Err(ActiveRecordCheckError::SiteIdNotSet),
        Ok(Some(site_id)) => match parent {
            Err(error) => Err(ActiveRecordCheckError::DatabaseError(error)),
            Ok(None) => Err(ActiveRecordCheckError::ParentRecordNotFound(record)),
            Ok(Some(invoice)) => Ok(invoice.store_row.site_id == site_id),
        },
    }
}

/// Whether a record belongs to this site: whether the store of its parent
/// is a store of the site whose id the settings hold.
///
/// `site_id` is what storage answered when asked for the id of the site, and
/// `parent` what it answered when asked for the invoice that `record` names.
/// The site is looked at first: where it has no id, that is the error,
/// whatever became of the parent.
pub fn is_active_record_on_site(
    site_id: Result<Option<i32>, RepositoryError>,
    parent: Result<Option<Invoice>, RepositoryError>,
    record: ActiveRecordCheck,
) -> (r: Result<bool, ActiveRecordCheckError>)
    ensures
        r == active_record_on_site(site_id, parent, record),
{
    let site_id = match site_id {
        Err(error) => {
            return Err(ActiveRecordCheckError::DatabaseError(error));
        },
        Ok(None) => {
            return Err(ActiveRecordCheckError::SiteIdNotSet);
        },
        Ok(Some(site_id)) => site_id,
    };

    let result = match &record {
        ActiveRecordCheck::InvoiceLine { invoice_id } => {
            let invoice = match parent {
                Err(error) => {
                    return Err(ActiveRecordCheckError::DatabaseError(error));
                },
                Ok(None) => {
                    return Err(ActiveRecordCheckError::ParentRecordNotFound(record));
                },
                Ok(Some(invoice)) => invoice,
            };
            invoice.store_row.site_id == site_id
        },
    };

    Ok(result)
}

} // verus!
