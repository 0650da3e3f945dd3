use crate::schema::FieldKey;
use vstd::prelude::*;

verus! {

/// Why a value could not be read, as a view.
pub enum CauseModel {
    WrongType,
    MissingMember,
    BadDateTime(Seq<char>),
    ParentDirInPath(Seq<char>),
}

/// Why a value could not be read for a known field.
#[derive(Debug, PartialEq)]
pub enum DecodeCause {
    /// The value has the wrong JSON type for the field.
    WrongType,
    /// A member that the value must have is absent.
    MissingMember,
    /// The date-time text `text` does not match the local date-time pattern.
    BadDateTime { text: String },
    /// The path `path` has a `..` component.
    ParentDirInPath { path: String },
}

impl View for DecodeCause {
    type V = CauseModel;

    open spec fn view(&self) -> CauseModel {
        match self {
            DecodeCause::WrongType => CauseModel::WrongType,
            DecodeCause::MissingMember => CauseModel::MissingMember,
            DecodeCause::BadDateTime { text } => CauseModel::BadDateTime(text@),
            DecodeCause::ParentDirInPath { path } => CauseModel::ParentDirInPath(path@),
        }
    }
}

/// Why a request to the state store failed.
#[derive(Debug, PartialEq)]
pub enum StoreError {
    /// The request names no field of the schema.
    UnknownField { name: String },
    /// The request or document is not a JSON object shaped as expected.
    Malformed,
    /// A known field's value could not be read.
    DecodeError { field: FieldKey, cause: DecodeCause },
    /// A save was asked for while no save path is set.
    NoSavePath,
    /// Reading or writing a file failed.
    IoFailure { message: String },
    /// A change event could not be delivered.
    NotifyFailure { message: String },
    /// The shared state could not be locked.
    LockFailure { message: String },
    /// The CSV data was asked for while no CSV file path is set.
    NoCsvFilePath,
    /// The CSV data was asked for while no CSV settings are set.
    NoCsvSettings,
}

/// `e` is the failure to read field `k` for the reason `c`.
pub open spec fn is_decode_error(e: StoreError, k: FieldKey, c: CauseModel) -> bool {
    e matches StoreError::DecodeError { field, cause } && field == k && cause@ == c
}

} // verus!
