//! What can go wrong in the record store.

use crate::record_store::date::{day_key_text, Date};
use vstd::prelude::*;
use vstd::string::StringExecFns;

verus! {

/// The account of the fault where the system clock gives no day of the
/// calendar, so that the key of today cannot be told.
pub const NO_DAY_FAULT: &'static str = "the system clock gives no calendar day";

/// The failures of the record store.
#[derive(Debug)]
pub enum RecordStoreError {
    /// The container could not be moved to a file.
    FailedToSwitchDB,
    /// The backend failed; the text is its own account of the fault.
    DBFailed(String),
    /// Nothing was ever kept under the given day.
    NoDataOnDate(Date),
}

/// Mathematical model of a [`RecordStoreError`].
pub enum RecordStoreErrorView {
    FailedToSwitchDB,
    DBFailed(Seq<char>),
    NoDataOnDate((i32, u32, u32)),
}

impl View for RecordStoreError {
    type V = RecordStoreErrorView;

    open spec fn view(&self) -> RecordStoreErrorView {
        match self {
            RecordStoreError::FailedToSwitchDB => RecordStoreErrorView::FailedToSwitchDB,
            RecordStoreError::DBFailed(fault) => RecordStoreErrorView::DBFailed(fault@),
            RecordStoreError::NoDataOnDate(date) => RecordStoreErrorView::NoDataOnDate(date@),
        }
    }
}

impl DeepView for RecordStoreError {
    type V = RecordStoreErrorView;

    open spec fn deep_view(&self) -> RecordStoreErrorView {
        self@
    }
}

/// The model of an answer that may be a failure of the record store.
pub open spec fn answer_view<T>(
    answer: Result<T, RecordStoreError>,
) -> Result<T, RecordStoreErrorView> {
    match answer {
        Ok(value) => Ok(value),
        Err(error) => Err(error@),
    }
}

/// A short name of a failure.
pub open spec fn description_of(error: RecordStoreErrorView) -> Seq<char> {
    match error {
        RecordStoreErrorView::FailedToSwitchDB => "Failed to switch database to a new file"@,
        RecordStoreErrorView::DBFailed(_) => "Internal DB error"@,
        RecordStoreErrorView::NoDataOnDate(_) => "Given date is not registered in the database"@,
    }
}

/// A failure in words, for the operator.
pub open spec fn message_of(error: RecordStoreErrorView) -> Seq<char> {
    match error {
        RecordStoreErrorView::FailedToSwitchDB => "Failed to switch database to a new file"@,
        RecordStoreErrorView::DBFailed(fault) => fault,
        RecordStoreErrorView::NoDataOnDate(date) => {
            "Given date is not registered in the database "@ + day_key_text(date.0, date.1, date.2)
        },
    }
}

impl RecordStoreError {
    /// The failure of an operation that needs today's key when the system
    /// clock gives no day of the calendar.
    pub fn no_day() -> (error: Self)
        ensures
            error@ == RecordStoreErrorView::DBFailed(NO_DAY_FAULT@),
    {
        RecordStoreError::DBFailed(NO_DAY_FAULT.to_owned())
    }

    /// A short name of the failure.
    pub fn description(&self) -> (text: &'static str)
        ensures
            text@ == description_of(self@),
    {
        match self {
            RecordStoreError::FailedToSwitchDB => "Failed to switch database to a new file",
            RecordStoreError::DBFailed(_) => "Internal DB error",
            RecordStoreError::NoDataOnDate(_) => "Given date is not registered in the database",
        }
    }

    /// The failure in words, for the operator.
    pub fn message(&self) -> (text: String)
        ensures
            text@ == message_of(self@),
    {
        match self {
            RecordStoreError::FailedToSwitchDB => {
                "Failed to switch database to a new file".to_owned()
            },
            RecordStoreError::DBFailed(fault) => fault.clone(),
            RecordStoreError::NoDataOnDate(date) => {
                let key = date.day_key();
                "Given date is not registered in the database ".to_owned().concat(key.as_str())
            },
        }
    }
}

} // verus!
