use crate::datetime::{nullable_datetime_outcome, DateTimeModel, LocalDateTime};
use crate::error::{is_decode_error, CauseModel, DecodeCause, StoreError};
use crate::fields::{
    bounds_model_wf, datetime_view, datetime_wf, default_value, settings_view, AppStateField, CsvFilePath,
    CsvSettingsModel, FieldValue, IsModifiedSinceLastSave, IsMultiwindow, LoadCsvSettings,
    SaveFilePath, TimeBounds, TimeBoundsModel, VideoFilePath,
};
use crate::json::{find_member, lemma_member_at, member, JsonValue};
use crate::path::{has_parent_component, SafePath};
use crate::schema::{
    lemma_field_names_distinct, lemma_schema_lists_each_field_once, schema, FieldKey, ValueKind,
};
use crate::state::AppState;
use vstd::prelude::*;

verus! {

// What the JSON form of each value is.

/// `j` is the JSON string `t`.
pub open spec fn encodes_text(j: JsonValue, t: Seq<char>) -> bool {
    j matches JsonValue::String(s) && s@ == t
}

/// `j` is the JSON form of an optional date-time: null, or its text.
pub open spec fn encodes_datetime(j: JsonValue, d: Option<DateTimeModel>) -> bool {
    match d {
        None => j is Null,
        Some(t) => encodes_text(j, t.text),
    }
}

/// `items` are the JSON strings `t`, in order.
pub open spec fn encodes_texts(items: Seq<JsonValue>, t: Seq<Seq<char>>) -> bool {
    &&& items.len() == t.len()
    &&& forall|i: int| 0 <= i < items.len() ==> encodes_text(#[trigger] items[i], t[i])
}

/// `j` is the JSON form of optional time bounds: null, or an object with the
/// members `start_time` and `end_time`.
pub open spec fn encodes_bounds(j: JsonValue, b: Option<TimeBoundsModel>) -> bool {
    match b {
        None => j is Null,
        Some(t) => j matches JsonValue::Object(m) && {
            &&& m@.len() == 2
            &&& m@[0].0@ == "start_time"@
            &&& encodes_datetime(m@[0].1, t.start_time)
            &&& m@[1].0@ == "end_time"@
            &&& encodes_datetime(m@[1].1, t.end_time)
        },
    }
}

/// `j` is the JSON form of optional CSV settings: null, or an object with one
/// member per setting.
pub open spec fn encodes_settings(j: JsonValue, s: Option<CsvSettingsModel>) -> bool {
    match s {
        None => j is Null,
        Some(t) => j matches JsonValue::Object(m) && {
            &&& m@.len() == 4
            &&& m@[0].0@ == "datetime_index_col"@
            &&& encodes_text(m@[0].1, t.datetime_index_col)
            &&& m@[1].0@ == "datetime_parsing_format_string"@
            &&& encodes_text(m@[1].1, t.datetime_parsing_format_string)
            &&& m@[2].0@ == "load_cols"@
            &&& m@[2].1 matches JsonValue::Array(items) && encodes_texts(items@, t.load_cols)
            &&& m@[3].0@ == "time_bounds"@
            &&& encodes_bounds(m@[3].1, t.time_bounds)
        },
    }
}

/// `j` is the JSON form of the field value `v`.
pub open spec fn encodes_value(j: JsonValue, v: FieldValue) -> bool {
    match v {
        FieldValue::Path(p) => match p {
            None => j is Null,
            Some(t) => encodes_text(j, t),
        },
        FieldValue::CsvSettings(s) => encodes_settings(j, s),
        FieldValue::DateTime(d) => encodes_datetime(j, d),
        FieldValue::Flag(b) => j == JsonValue::Bool(b),
    }
}

/// `j` is the saved form of the state `s`: an object with one member per
/// field, in schema order, keyed by the field's document key.
pub open spec fn encodes_state(j: JsonValue, s: AppState) -> bool {
    j matches JsonValue::Object(m) && {
        &&& m@.len() == schema().len()
        &&& forall|i: int|
            0 <= i < m@.len() ==> {
                &&& (#[trigger] m@[i]).0@ == schema()[i].spec_document_key()
                &&& encodes_value(m@[i].1, s.value_of(schema()[i]))
            }
    }
}

fn text(t: &str) -> (r: JsonValue)
    ensures
        encodes_text(r, t@),
{
    JsonValue::String(t.to_string())
}

fn encode_datetime(d: &Option<LocalDateTime>) -> (r: JsonValue)
    ensures
        encodes_datetime(r, datetime_view(*d)),
{
    match d {
        Some(t) => text(t.text()),
        None => JsonValue::Null,
    }
}

fn encode_path(p: Option<&SafePath>) -> (r: JsonValue)
    ensures
        match p {
            None => r is Null,
            Some(q) => encodes_text(r, q@),
        },
{
    match p {
        Some(q) => text(q.as_str()),
        None => JsonValue::Null,
    }
}

fn encode_texts(v: &Vec<String>) -> (r: Vec<JsonValue>)
    ensures
        encodes_texts(r@, v.deep_view()),
{
    let mut r: Vec<JsonValue> = Vec::new();
    let mut i: usize = 0;
    while i < v.len()
        invariant
            i <= v@.len(),
            r@.len() == i,
            forall|j: int| 0 <= j < i ==> encodes_text(#[trigger] r@[j], v@[j]@),
        decreases v@.len() - i,
    {
        r.push(text(v[i].as_str()));
        i = i + 1;
    }
    r
}

fn encode_bounds(b: &Option<TimeBounds>) -> (r: JsonValue)
    ensures
        encodes_bounds(r, match b {
            Some(t) => Some(t@),
            None => None,
        }),
{
    match b {
        Some(t) => {
            let mut m: Vec<(String, JsonValue)> = Vec::new();
            m.push(("start_time".to_string(), encode_datetime(&t.start_time)));
            m.push(("end_time".to_string(), encode_datetime(&t.end_time)));
            JsonValue::Object(m)
        },
        None => JsonValue::Null,
    }
}

fn encode_settings(s: &Option<LoadCsvSettings>) -> (r: JsonValue)
    ensures
        encodes_settings(r, settings_view(*s)),
{
    match s {
        Some(t) => {
            let mut m: Vec<(String, JsonValue)> = Vec::new();
            m.push(("datetime_index_col".to_string(), text(t.datetime_index_col.as_str())));
            m.push(
                (
                    "datetime_parsing_format_string".to_string(),
                    text(t.datetime_parsing_format_string.as_str()),
                ),
            );
            m.push(("load_cols".to_string(), JsonValue::Array(encode_texts(&t.load_cols))));
            m.push(("time_bounds".to_string(), encode_bounds(&t.time_bounds)));
            JsonValue::Object(m)
        },
        None => JsonValue::Null,
    }
}

/// The JSON form of the value that `field` carries: the payload of its
/// change event.
pub fn encode_field(field: &AppStateField) -> (r: JsonValue)
    ensures
        encodes_value(r, field.value()),
{
    match field {
        AppStateField::SaveFilePath { value } => encode_path(
            match value {
                Some(p) => Some(&p.0),
                None => None,
            },
        ),
        AppStateField::CsvFilePath { value } => encode_path(
            match value {
                Some(p) => Some(&p.0),
                None => None,
            },
        ),
        AppStateField::LoadCsvSettings { value } => encode_settings(value),
        AppStateField::VideoFilePath { value } => encode_path(
            match value {
                Some(p) => Some(&p.0),
                None => None,
            },
        ),
        AppStateField::VideoStartTime { value } => encode_datetime(value),
        AppStateField::IsMultiwindow { value } => JsonValue::Bool(value.0),
        AppStateField::IsModifiedSinceLastSave { value } => JsonValue::Bool(value.0),
    }
}

/// The saved form of `state`: one member per field, in schema order.
pub fn encode_state(state: &AppState) -> (r: JsonValue)
    ensures
        encodes_state(r, *state),
{
    let keys = FieldKey::all();
    let mut m: Vec<(String, JsonValue)> = Vec::new();
    let mut i: usize = 0;
    while i < keys.len()
        invariant
            keys@ == schema(),
            i <= keys@.len(),
            m@.len() == i,
            forall|j: int|
                0 <= j < i ==> {
                    &&& (#[trigger] m@[j]).0@ == schema()[j].spec_document_key()
                    &&& encodes_value(m@[j].1, state.value_of(schema()[j]))
                },
        decreases keys@.len() - i,
    {
        let key = keys[i];
        let field = state.get_field(key);
        m.push((key.document_key(), encode_field(&field)));
        i = i + 1;
    }
    JsonValue::Object(m)
}

// How each value is read back from JSON.

/// An optional member's value, seen through the reference.
pub open spec fn deref_member(j: Option<&JsonValue>) -> Option<JsonValue> {
    match j {
        Some(v) => Some(*v),
        None => None,
    }
}

/// Reads an optional path: null is none, a string must have no `..`
/// component.
pub open spec fn decoded_path(j: JsonValue) -> Result<Option<Seq<char>>, CauseModel> {
    match j {
        JsonValue::Null => Ok(None),
        JsonValue::String(t) => if has_parent_component(t@) {
            Err(CauseModel::ParentDirInPath(t@))
        } else {
            Ok(Some(t@))
        },
        _ => Err(CauseModel::WrongType),
    }
}

/// Reads a nullable date-time: null and the empty string are none, any other
/// string is read by `nullable_datetime_outcome`.
pub open spec fn decoded_datetime(j: JsonValue) -> Result<Option<DateTimeModel>, CauseModel> {
    match j {
        JsonValue::Null => Ok(None),
        JsonValue::String(t) => match nullable_datetime_outcome(t@) {
            Ok(d) => Ok(d),
            Err(_) => Err(CauseModel::BadDateTime(t@)),
        },
        _ => Err(CauseModel::WrongType),
    }
}

/// Reads a date-time member that may be absent; absent is none.
pub open spec fn decoded_optional_datetime(j: Option<JsonValue>) -> Result<
    Option<DateTimeModel>,
    CauseModel,
> {
    match j {
        None => Ok(None),
        Some(v) => decoded_datetime(v),
    }
}

/// Reads a flag.
pub open spec fn decoded_flag(j: JsonValue) -> Result<bool, CauseModel> {
    match j {
        JsonValue::Bool(b) => Ok(b),
        _ => Err(CauseModel::WrongType),
    }
}

/// Reads a required string member.
pub open spec fn decoded_text(j: Option<JsonValue>) -> Result<Seq<char>, CauseModel> {
    match j {
        None => Err(CauseModel::MissingMember),
        Some(JsonValue::String(t)) => Ok(t@),
        Some(_) => Err(CauseModel::WrongType),
    }
}

/// The text of a JSON string; empty for anything else.
pub open spec fn text_of(j: JsonValue) -> Seq<char> {
    match j {
        JsonValue::String(t) => t@,
        _ => Seq::empty(),
    }
}

/// Reads a required member that is an array of strings.
pub open spec fn decoded_texts(j: Option<JsonValue>) -> Result<Seq<Seq<char>>, CauseModel> {
    match j {
        None => Err(CauseModel::MissingMember),
        Some(JsonValue::Array(items)) => if forall|i: int|
            0 <= i < items@.len() ==> (#[trigger] items@[i]) is String {
            Ok(items@.map_values(|x: JsonValue| text_of(x)))
        } else {
            Err(CauseModel::WrongType)
        },
        Some(_) => Err(CauseModel::WrongType),
    }
}

/// Reads time bounds that may be absent or null; each end may be absent.
pub open spec fn decoded_bounds(j: Option<JsonValue>) -> Result<Option<TimeBoundsModel>, CauseModel> {
    match j {
        None => Ok(None),
        Some(JsonValue::Null) => Ok(None),
        Some(JsonValue::Object(m)) => match decoded_optional_datetime(member(m@, "start_time"@)) {
            Err(c) => Err(c),
            Ok(start_time) => match decoded_optional_datetime(member(m@, "end_time"@)) {
                Err(c) => Err(c),
                Ok(end_time) => Ok(Some(TimeBoundsModel { start_time, end_time })),
            },
        },
        Some(_) => Err(CauseModel::WrongType),
    }
}

/// Reads optional CSV settings: null is none; an object must have the index
/// column, the format and the columns, and may have time bounds. The members
/// are read in that order and the first failure is reported.
pub open spec fn decoded_settings(j: JsonValue) -> Result<Option<CsvSettingsModel>, CauseModel> {
    match j {
        JsonValue::Null => Ok(None),
        JsonValue::Object(m) => match decoded_text(member(m@, "datetime_index_col"@)) {
            Err(c) => Err(c),
            Ok(datetime_index_col) => match decoded_text(
                member(m@, "datetime_parsing_format_string"@),
            ) {
                Err(c) => Err(c),
                Ok(datetime_parsing_format_string) => match decoded_texts(
                    member(m@, "load_cols"@),
                ) {
                    Err(c) => Err(c),
                    Ok(load_cols) => match decoded_bounds(member(m@, "time_bounds"@)) {
                        Err(c) => Err(c),
                        Ok(time_bounds) => Ok(
                            Some(
                                CsvSettingsModel {
                                    datetime_index_col,
                                    datetime_parsing_format_string,
                                    load_cols,
                                    time_bounds,
                                },
                            ),
                        ),
                    },
                },
            },
        },
        _ => Err(CauseModel::WrongType),
    }
}

/// Reads a value of type `kind`.
pub open spec fn decoded_value(kind: ValueKind, j: JsonValue) -> Result<FieldValue, CauseModel> {
    match kind {
        ValueKind::Path => match decoded_path(j) {
            Ok(p) => Ok(FieldValue::Path(p)),
            Err(c) => Err(c),
        },
        ValueKind::CsvSettings => match decoded_settings(j) {
            Ok(s) => Ok(FieldValue::CsvSettings(s)),
            Err(c) => Err(c),
        },
        ValueKind::DateTime => match decoded_datetime(j) {
            Ok(d) => Ok(FieldValue::DateTime(d)),
            Err(c) => Err(c),
        },
        ValueKind::Flag => match decoded_flag(j) {
            Ok(b) => Ok(FieldValue::Flag(b)),
            Err(c) => Err(c),
        },
    }
}

/// Reads field `k` from the members of a saved document: an absent member
/// gives the field's default.
pub open spec fn decoded_field(members: Seq<(String, JsonValue)>, k: FieldKey) -> Result<
    FieldValue,
    CauseModel,
> {
    match member(members, k.spec_document_key()) {
        None => Ok(default_value(k)),
        Some(j) => decoded_value(k.spec_kind(), j),
    }
}

/// The first field, in schema order from position `i` on, that cannot be
/// read from the members of a saved document, with the reason.
pub open spec fn first_failure_from(members: Seq<(String, JsonValue)>, i: int) -> Option<
    (FieldKey, CauseModel),
>
    decreases schema().len() - i,
{
    if i < 0 || i >= schema().len() {
        None
    } else {
        match decoded_field(members, schema()[i]) {
            Err(c) => Some((schema()[i], c)),
            Ok(_) => first_failure_from(members, i + 1),
        }
    }
}

pub(crate) fn decode_path(j: &JsonValue) -> (r: Result<Option<SafePath>, DecodeCause>)
    ensures
        decoded_path(*j) == match r {
            Ok(Some(p)) => Ok(Some(p@)),
            Ok(None) => Ok(None),
            Err(c) => Err(c@),
        },
        r matches Ok(Some(p)) ==> p.wf(),
{
    match j {
        JsonValue::Null => Ok(None),
        JsonValue::String(t) => match SafePath::new(t.clone()) {
            Some(p) => Ok(Some(p)),
            None => Err(DecodeCause::ParentDirInPath { path: t.clone() }),
        },
        _ => Err(DecodeCause::WrongType),
    }
}

pub(crate) fn decode_datetime(j: &JsonValue) -> (r: Result<Option<LocalDateTime>, DecodeCause>)
    ensures
        decoded_datetime(*j) == match r {
            Ok(d) => Ok(datetime_view(d)),
            Err(c) => Err(c@),
        },
        r matches Ok(d) ==> datetime_wf(d),
{
    match j {
        JsonValue::Null => Ok(None),
        JsonValue::String(t) => match LocalDateTime::parse_nullable(t.as_str()) {
            Ok(d) => Ok(d),
            Err(_) => Err(DecodeCause::BadDateTime { text: t.clone() }),
        },
        _ => Err(DecodeCause::WrongType),
    }
}

fn decode_optional_datetime(j: Option<&JsonValue>) -> (r: Result<Option<LocalDateTime>, DecodeCause>)
    ensures
        decoded_optional_datetime(deref_member(j)) == match r {
            Ok(d) => Ok(datetime_view(d)),
            Err(c) => Err(c@),
        },
        r matches Ok(d) ==> datetime_wf(d),
{
    match j {
        None => Ok(None),
        Some(v) => decode_datetime(v),
    }
}

pub(crate) fn decode_flag(j: &JsonValue) -> (r: Result<bool, DecodeCause>)
    ensures
        decoded_flag(*j) == match r {
            Ok(b) => Ok(b),
            Err(c) => Err(c@),
        },
{
    match j {
        JsonValue::Bool(b) => Ok(*b),
        _ => Err(DecodeCause::WrongType),
    }
}

fn decode_text(j: Option<&JsonValue>) -> (r: Result<String, DecodeCause>)
    ensures
        decoded_text(deref_member(j)) == match r {
            Ok(t) => Ok(t@),
            Err(c) => Err(c@),
        },
{
    match j {
        None => Err(DecodeCause::MissingMember),
        Some(JsonValue::String(t)) => Ok(t.clone()),
        Some(_) => Err(DecodeCause::WrongType),
    }
}

fn decode_texts(j: Option<&JsonValue>) -> (r: Result<Vec<String>, DecodeCause>)
    ensures
        decoded_texts(deref_member(j)) == match r {
            Ok(v) => Ok(v.deep_view()),
            Err(c) => Err(c@),
        },
{
    match j {
        None => Err(DecodeCause::MissingMember),
        Some(JsonValue::Array(items)) => {
            let mut r: Vec<String> = Vec::new();
            let mut i: usize = 0;
            while i < items.len()
                invariant
                    deref_member(j) == Some(JsonValue::Array(*items)),
                    i <= items@.len(),
                    r@.len() == i,
                    forall|k: int| 0 <= k < i ==> (#[trigger] items@[k]) is String,
                    forall|k: int| 0 <= k < i ==> (#[trigger] r@[k])@ == text_of(items@[k]),
                decreases items@.len() - i,
            {
                match &items[i] {
                    JsonValue::String(t) => r.push(t.clone()),
                    _ => {
                        assert(!(items@[i as int] is String));
                        return Err(DecodeCause::WrongType);
                    },
                }
                i = i + 1;
            }
            assert(r.deep_view() =~= items@.map_values(|x: JsonValue| text_of(x)));
            Ok(r)
        },
        Some(_) => Err(DecodeCause::WrongType),
    }
}

fn decode_bounds(j: Option<&JsonValue>) -> (r: Result<Option<TimeBounds>, DecodeCause>)
    ensures
        decoded_bounds(deref_member(j)) == match r {
            Ok(Some(b)) => Ok(Some(b@)),
            Ok(None) => Ok(None),
            Err(c) => Err(c@),
        },
        r matches Ok(Some(b)) ==> b.wf(),
{
    match j {
        None => Ok(None),
        Some(JsonValue::Null) => Ok(None),
        Some(JsonValue::Object(m)) => {
            let start_time = match decode_optional_datetime(find_member(m, "start_time")) {
                Ok(d) => d,
                Err(c) => return Err(c),
            };
            let end_time = match decode_optional_datetime(find_member(m, "end_time")) {
                Ok(d) => d,
                Err(c) => return Err(c),
            };
            Ok(Some(TimeBounds { start_time, end_time }))
        },
        Some(_) => Err(DecodeCause::WrongType),
    }
}

pub(crate) fn decode_settings(j: &JsonValue) -> (r: Result<Option<LoadCsvSettings>, DecodeCause>)
    ensures
        decoded_settings(*j) == match r {
            Ok(s) => Ok(settings_view(s)),
            Err(c) => Err(c@),
        },
        r matches Ok(Some(s)) ==> s.wf(),
{
    match j {
        JsonValue::Null => Ok(None),
        JsonValue::Object(m) => {
            let datetime_index_col = match decode_text(find_member(m, "datetime_index_col")) {
                Ok(t) => t,
                Err(c) => return Err(c),
            };
            let datetime_parsing_format_string = match decode_text(
                find_member(m, "datetime_parsing_format_string"),
            ) {
                Ok(t) => t,
                Err(c) => return Err(c),
            };
            let load_cols = match decode_texts(find_member(m, "load_cols")) {
                Ok(v) => v,
                Err(c) => return Err(c),
            };
            let time_bounds = match decode_bounds(find_member(m, "time_bounds")) {
                Ok(b) => b,
                Err(c) => return Err(c),
            };
            Ok(
                Some(
                    LoadCsvSettings {
                        datetime_index_col,
                        datetime_parsing_format_string,
                        load_cols,
                        time_bounds,
                    },
                ),
            )
        },
        _ => Err(DecodeCause::WrongType),
    }
}

/// Reads the member `j` of the path field `key`; an absent member is no path.
fn decode_path_member(key: FieldKey, j: Option<&JsonValue>) -> (r: Result<Option<SafePath>, StoreError>)
    ensures
        match deref_member(j) {
            None => r matches Ok(None),
            Some(v) => match decoded_path(v) {
                Ok(p) => r matches Ok(q) && p == match q {
                    Some(t) => Some(t@),
                    None => None,
                },
                Err(c) => r matches Err(e) && is_decode_error(e, key, c),
            },
        },
        r matches Ok(Some(p)) ==> p.wf(),
{
    match j {
        None => Ok(None),
        Some(v) => match decode_path(v) {
            Ok(p) => Ok(p),
            Err(c) => Err(StoreError::DecodeError { field: key, cause: c }),
        },
    }
}

impl AppState {
    /// Reads a state from its saved form. A field whose member is absent gets
    /// its default, and members that name no field are ignored. Fails with
    /// `Malformed` where the document is not an object, and otherwise with the
    /// first field, in schema order, whose member cannot be read.
    pub fn load_from_file(document: &JsonValue) -> (r: Result<AppState, StoreError>)
        ensures
            !(document is Object) ==> r == Err::<AppState, StoreError>(StoreError::Malformed),
            document matches JsonValue::Object(m) ==> {
                &&& r is Ok <==> first_failure_from(m@, 0) is None
                &&& r matches Ok(s) ==> s.wf() && forall|k: FieldKey|
                    #[trigger] decoded_field(m@, k) == Ok::<FieldValue, CauseModel>(s.value_of(k))
                &&& r matches Err(e) ==> first_failure_from(m@, 0) matches Some((k, c))
                    && is_decode_error(e, k, c)
            },
    {
        reveal_with_fuel(first_failure_from, 8);
        let m = match document {
            JsonValue::Object(m) => m,
            _ => return Err(StoreError::Malformed),
        };
        let save_file_path = match decode_path_member(
            FieldKey::SaveFilePath,
            find_member(m, FieldKey::SaveFilePath.document_key().as_str()),
        ) {
            Ok(p) => match p {
                Some(q) => Some(SaveFilePath(q)),
                None => None,
            },
            Err(e) => return Err(e),
        };
        let csv_file_path = match decode_path_member(
            FieldKey::CsvFilePath,
            find_member(m, FieldKey::CsvFilePath.document_key().as_str()),
        ) {
            Ok(p) => match p {
                Some(q) => Some(CsvFilePath(q)),
                None => None,
            },
            Err(e) => return Err(e),
        };
        let load_csv_settings = match find_member(
            m,
            FieldKey::LoadCsvSettings.document_key().as_str(),
        ) {
            None => None,
            Some(j) => match decode_settings(j) {
                Ok(s) => s,
                Err(c) => return Err(
                    StoreError::DecodeError { field: FieldKey::LoadCsvSettings, cause: c },
                ),
            },
        };
        let video_file_path = match decode_path_member(
            FieldKey::VideoFilePath,
            find_member(m, FieldKey::VideoFilePath.document_key().as_str()),
        ) {
            Ok(p) => match p {
                Some(q) => Some(VideoFilePath(q)),
                None => None,
            },
            Err(e) => return Err(e),
        };
        let video_start_time = match find_member(
            m,
            FieldKey::VideoStartTime.document_key().as_str(),
        ) {
            None => None,
            Some(j) => match decode_datetime(j) {
                Ok(d) => d,
                Err(c) => return Err(
                    StoreError::DecodeError { field: FieldKey::VideoStartTime, cause: c },
                ),
            },
        };
        let is_multiwindow = match find_member(m, FieldKey::IsMultiwindow.document_key().as_str()) {
            None => false,
            Some(j) => match decode_flag(j) {
                Ok(b) => b,
                Err(c) => return Err(
                    StoreError::DecodeError { field: FieldKey::IsMultiwindow, cause: c },
                ),
            },
        };
        let is_modified = match find_member(
            m,
            FieldKey::IsModifiedSinceLastSave.document_key().as_str(),
        ) {
            None => false,
            Some(j) => match decode_flag(j) {
                Ok(b) => b,
                Err(c) => return Err(
                    StoreError::DecodeError { field: FieldKey::IsModifiedSinceLastSave, cause: c },
                ),
            },
        };
        let s = AppState {
            save_file_path,
            csv_file_path,
            load_csv_settings,
            video_file_path,
            video_start_time,
            is_multiwindow: IsMultiwindow(is_multiwindow),
            is_modified_since_last_save: IsModifiedSinceLastSave(is_modified),
        };
        assert forall|k: FieldKey|
            #[trigger] decoded_field(m@, k) == Ok::<FieldValue, CauseModel>(s.value_of(k)) by {
            match k {
                FieldKey::SaveFilePath => {},
                FieldKey::CsvFilePath => {},
                FieldKey::LoadCsvSettings => {},
                FieldKey::VideoFilePath => {},
                FieldKey::VideoStartTime => {},
                FieldKey::IsMultiwindow => {},
                FieldKey::IsModifiedSinceLastSave => {},
            }
        }
        Ok(s)
    }
}

// Reading back what was written.

proof fn lemma_decode_encoded_datetime(j: JsonValue, d: Option<DateTimeModel>)
    requires
        encodes_datetime(j, d),
        d matches Some(t) ==> t.wf(),
    ensures
        decoded_datetime(j) == Ok::<Option<DateTimeModel>, CauseModel>(d),
{
}

proof fn lemma_decode_encoded_bounds(j: JsonValue, b: Option<TimeBoundsModel>)
    requires
        encodes_bounds(j, b),
        bounds_model_wf(b),
    ensures
        decoded_bounds(Some(j)) == Ok::<Option<TimeBoundsModel>, CauseModel>(b),
{
    if let Some(t) = b {
        let m = j->Object_0@;
        reveal_strlit("start_time");
        reveal_strlit("end_time");
        lemma_member_at(m, "start_time"@, 0);
        assert(m[0].0@.len() != "end_time"@.len());
        lemma_member_at(m, "end_time"@, 1);
        lemma_decode_encoded_datetime(m[0].1, t.start_time);
        lemma_decode_encoded_datetime(m[1].1, t.end_time);
    }
}

proof fn lemma_decode_encoded_settings(j: JsonValue, s: Option<CsvSettingsModel>)
    requires
        encodes_settings(j, s),
        s matches Some(c) ==> bounds_model_wf(c.time_bounds),
    ensures
        decoded_settings(j) == Ok::<Option<CsvSettingsModel>, CauseModel>(s),
{
    if let Some(c) = s {
        let m = j->Object_0@;
        reveal_strlit("datetime_index_col");
        reveal_strlit("datetime_parsing_format_string");
        reveal_strlit("load_cols");
        reveal_strlit("time_bounds");
        lemma_member_at(m, "datetime_index_col"@, 0);
        assert(m[0].0@.len() != "datetime_parsing_format_string"@.len());
        lemma_member_at(m, "datetime_parsing_format_string"@, 1);
        assert(m[0].0@ != "load_cols"@);
        assert(m[1].0@ != "load_cols"@);
        lemma_member_at(m, "load_cols"@, 2);
        assert(m[0].0@ != "time_bounds"@);
        assert(m[1].0@.len() != "time_bounds"@.len());
        assert(m[2].0@ != "time_bounds"@);
        lemma_member_at(m, "time_bounds"@, 3);
        let items = m[2].1->Array_0@;
        assert(items.map_values(|x: JsonValue| text_of(x)) =~= c.load_cols);
        lemma_decode_encoded_bounds(m[3].1, c.time_bounds);
    }
}

/// Reading back the JSON form of a well-formed value of field `k` gives the
/// value.
pub proof fn lemma_decode_encoded_value(k: FieldKey, j: JsonValue, v: FieldValue)
    requires
        encodes_value(j, v),
        v.kind() == k.spec_kind(),
        v.wf(),
    ensures
        decoded_value(k.spec_kind(), j) == Ok::<FieldValue, CauseModel>(v),
{
    match v {
        FieldValue::CsvSettings(s) => lemma_decode_encoded_settings(j, s),
        FieldValue::DateTime(d) => lemma_decode_encoded_datetime(j, d),
        _ => {},
    }
}

/// Reading back the saved form of a well-formed state gives every field's
/// value.
pub proof fn lemma_decode_encoded_state(doc: JsonValue, s: AppState)
    requires
        encodes_state(doc, s),
        s.wf(),
    ensures
        doc matches JsonValue::Object(m) && first_failure_from(m@, 0) is None && forall|
            k: FieldKey,
        | #[trigger] decoded_field(m@, k) == Ok::<FieldValue, CauseModel>(s.value_of(k)),
{
    let m = doc->Object_0@;
    assert forall|k: FieldKey|
        #[trigger] decoded_field(m, k) == Ok::<FieldValue, CauseModel>(s.value_of(k)) by {
        lemma_schema_lists_each_field_once(k);
        let i = k.position();
        assert forall|j: int| 0 <= j < i implies m[j].0@ != k.spec_document_key() by {
            lemma_field_names_distinct(schema()[j], k);
        }
        lemma_member_at(m, k.spec_document_key(), i);
        s.lemma_values_wf(k);
        lemma_decode_encoded_value(k, m[i].1, s.value_of(k));
    }
    reveal_with_fuel(first_failure_from, 8);
    assert(first_failure_from(m, 0) is None) by {
        assert(decoded_field(m, schema()[0]) is Ok);
        assert(decoded_field(m, schema()[1]) is Ok);
        assert(decoded_field(m, schema()[2]) is Ok);
        assert(decoded_field(m, schema()[3]) is Ok);
        assert(decoded_field(m, schema()[4]) is Ok);
        assert(decoded_field(m, schema()[5]) is Ok);
        assert(decoded_field(m, schema()[6]) is Ok);
    }
}

} // verus!
