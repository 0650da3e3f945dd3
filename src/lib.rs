//! Field-addressable, observable, persistable application state.
//!
//! The state is a fixed schema of named fields. Callers read or write one
//! field at a time through a typed selector, every mutation yields the change
//! events that keep all windows in sync, and the whole state can be written to
//! and read back from a JSON document.
//!
//! - `schema`: the fields, their names and value types.
//! - `path`, `datetime`, `fields`: the values the fields hold.
//! - `state`: the current value of every field.
//! - `json`, `codec`, `request`: the JSON forms of values, requests and saved
//!   states.
//! - `store`: the operations that callers invoke, with the events they report.
//! - `laws`: what holds across several operations.

pub mod codec;
pub mod datetime;
pub mod error;
pub mod fields;
pub mod json;
pub mod laws;
pub mod path;
pub mod request;
pub mod schema;
pub mod state;
pub mod store;

pub use codec::{encode_field, encode_state};
pub use datetime::{DateTimeError, DateTimeParts, LocalDateTime, LOCAL_DATETIME_PATTERN};
pub use error::{DecodeCause, StoreError};
pub use fields::{
    AppStateField, CsvFilePath, IsModifiedSinceLastSave, IsMultiwindow, LoadCsvSettings,
    SaveFilePath, TimeBounds, VideoFilePath,
};
pub use json::JsonValue;
pub use path::SafePath;
pub use request::{decode_request, request_key};
pub use schema::{FieldKey, ValueKind, FIELD_COUNT};
pub use state::AppState;
pub use store::{
    clear_app_state, get_app_state_field, load_app_state_from_file, save_app_state_to_file,
    set_app_state_field,
};
