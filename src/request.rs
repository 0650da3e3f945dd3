use crate::codec::{decode_datetime, decode_flag, decode_path, decode_settings, decoded_value};
use crate::error::{is_decode_error, DecodeCause, StoreError};
use crate::fields::{
    AppStateField, CsvFilePath, IsModifiedSinceLastSave, IsMultiwindow, SaveFilePath,
    VideoFilePath,
};
use crate::json::{find_member, member, JsonValue};
use crate::schema::{lemma_field_names_distinct, FieldKey};
use vstd::prelude::*;

verus! {

/// The one member of a request object, `{ name: inner }`; none where the
/// request is not an object with exactly one member.
pub open spec fn request_member(request: JsonValue) -> Option<(String, JsonValue)> {
    match request {
        JsonValue::Object(m) => if m@.len() == 1 {
            Some(m@[0])
        } else {
            None
        },
        _ => None,
    }
}

/// The value a request carries: the `value` member of the inner object, null
/// where that member is absent; none where the inner value is not an object.
pub open spec fn request_value(inner: JsonValue) -> Option<JsonValue> {
    match inner {
        JsonValue::Object(m) => match member(m@, "value"@) {
            Some(v) => Some(v),
            None => Some(JsonValue::Null),
        },
        _ => None,
    }
}

/// What reading a write request gives: the field named by the request's one
/// member, with the value read from that member's `value`.
pub open spec fn request_outcome(request: JsonValue, r: Result<AppStateField, StoreError>) -> bool {
    match request_member(request) {
        None => r == Err::<AppStateField, StoreError>(StoreError::Malformed),
        Some((name, inner)) => {
            &&& (forall|k: FieldKey| k.spec_name() != name@) ==> (r matches Err(
                StoreError::UnknownField { name: n },
            ) && n@ == name@)
            &&& forall|k: FieldKey|
                #[trigger] k.spec_name() == name@ ==> match request_value(inner) {
                    None => r == Err::<AppStateField, StoreError>(
                        StoreError::DecodeError { field: k, cause: DecodeCause::WrongType },
                    ),
                    Some(v) => match decoded_value(k.spec_kind(), v) {
                        Ok(fv) => r matches Ok(f) && f.spec_key() == k && f.value() == fv
                            && f.wf(),
                        Err(c) => r matches Err(e) && is_decode_error(e, k, c),
                    },
                }
        },
    }
}

/// Reads the field that a request names, ignoring any value it carries.
pub fn request_key(request: &JsonValue) -> (r: Result<FieldKey, StoreError>)
    ensures
        match request_member(*request) {
            None => r == Err::<FieldKey, StoreError>(StoreError::Malformed),
            Some((name, _)) => {
                &&& (forall|k: FieldKey| k.spec_name() != name@) ==> (r matches Err(
                    StoreError::UnknownField { name: n },
                ) && n@ == name@)
                &&& forall|k: FieldKey| #[trigger] k.spec_name() == name@ ==> r == Ok::<FieldKey, StoreError>(k)
            },
        },
{
    let m = match request {
        JsonValue::Object(m) => m,
        _ => return Err(StoreError::Malformed),
    };
    if m.len() != 1 {
        return Err(StoreError::Malformed);
    }
    let name = &m[0].0;
    match FieldKey::from_name(name.as_str()) {
        Some(key) => {
            assert forall|k: FieldKey| #[trigger] k.spec_name() == name@ implies k == key by {
                lemma_field_names_distinct(k, key);
            }
            Ok(key)
        },
        None => Err(StoreError::UnknownField { name: name.clone() }),
    }
}

/// Reads a write request `{ "<fieldName>": { "value": <value> } }` into the
/// field it names and the value for it.
pub fn decode_request(request: &JsonValue) -> (r: Result<AppStateField, StoreError>)
    ensures
        request_outcome(*request, r),
        r matches Ok(f) ==> f.wf(),
{
    let key = match request_key(request) {
        Ok(k) => k,
        Err(e) => return Err(e),
    };
    let m = match request {
        JsonValue::Object(m) => m,
        _ => return Err(StoreError::Malformed),
    };
    let inner = &m[0].1;
    let null = JsonValue::Null;
    let value: &JsonValue = match inner {
        JsonValue::Object(im) => match find_member(im, "value") {
            Some(v) => v,
            None => &null,
        },
        _ => return Err(StoreError::DecodeError { field: key, cause: DecodeCause::WrongType }),
    };
    assert(request_value(*inner) == Some(*value));
    let field = match key {
        FieldKey::SaveFilePath => match decode_path(value) {
            Ok(p) => AppStateField::SaveFilePath {
                value: match p {
                    Some(q) => Some(SaveFilePath(q)),
                    None => None,
                },
            },
            Err(c) => return Err(StoreError::DecodeError { field: key, cause: c }),
        },
        FieldKey::CsvFilePath => match decode_path(value) {
            Ok(p) => AppStateField::CsvFilePath {
                value: match p {
                    Some(q) => Some(CsvFilePath(q)),
                    None => None,
                },
            },
            Err(c) => return Err(StoreError::DecodeError { field: key, cause: c }),
        },
        FieldKey::LoadCsvSettings => match decode_settings(value) {
            Ok(s) => AppStateField::LoadCsvSettings { value: s },
            Err(c) => return Err(StoreError::DecodeError { field: key, cause: c }),
        },
        FieldKey::VideoFilePath => match decode_path(value) {
            Ok(p) => AppStateField::VideoFilePath {
                value: match p {
                    Some(q) => Some(VideoFilePath(q)),
                    None => None,
                },
            },
            Err(c) => return Err(StoreError::DecodeError { field: key, cause: c }),
        },
        FieldKey::VideoStartTime => match decode_datetime(value) {
            Ok(d) => AppStateField::VideoStartTime { value: d },
            Err(c) => return Err(StoreError::DecodeError { field: key, cause: c }),
        },
        FieldKey::IsMultiwindow => match decode_flag(value) {
            Ok(b) => AppStateField::IsMultiwindow { value: IsMultiwindow(b) },
            Err(c) => return Err(StoreError::DecodeError { field: key, cause: c }),
        },
        FieldKey::IsModifiedSinceLastSave => match decode_flag(value) {
            Ok(b) => AppStateField::IsModifiedSinceLastSave { value: IsModifiedSinceLastSave(b) },
            Err(c) => return Err(StoreError::DecodeError { field: key, cause: c }),
        },
    };
    Ok(field)
}

} // verus!
