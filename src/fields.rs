use crate::datetime::{DateTimeModel, LocalDateTime};
use crate::path::{has_parent_component, SafePath};
use crate::schema::{FieldKey, ValueKind};
use vstd::prelude::*;

verus! {

/// The view of an optional date-time.
pub open spec fn datetime_view(d: Option<LocalDateTime>) -> Option<DateTimeModel> {
    match d {
        Some(t) => Some(t@),
        None => None,
    }
}

/// An optional date-time, if present, is well-formed.
pub open spec fn datetime_wf(d: Option<LocalDateTime>) -> bool {
    d matches Some(t) ==> t.wf()
}

fn clone_datetime(d: &Option<LocalDateTime>) -> (r: Option<LocalDateTime>)
    ensures
        datetime_view(r) == datetime_view(*d),
        datetime_wf(r) == datetime_wf(*d),
{
    match d {
        Some(t) => Some(t.clone()),
        None => None,
    }
}

/// Where the state was last saved to or loaded from.
#[derive(Debug, PartialEq)]
pub struct SaveFilePath(pub SafePath);

/// The CSV file whose data the windows show.
#[derive(Debug, PartialEq)]
pub struct CsvFilePath(pub SafePath);

/// The video that plays along with the data.
#[derive(Debug, PartialEq)]
pub struct VideoFilePath(pub SafePath);

/// Whether the views are spread over several windows.
#[derive(Clone, Copy, PartialEq, Eq, Structural, Debug)]
pub struct IsMultiwindow(pub bool);

/// Whether the state changed since it was last saved, loaded or cleared.
#[derive(Clone, Copy, PartialEq, Eq, Structural, Debug)]
pub struct IsModifiedSinceLastSave(pub bool);

impl Default for IsMultiwindow {
    fn default() -> (r: Self)
        ensures
            r.0 == false,
    {
        IsMultiwindow(false)
    }
}

impl Default for IsModifiedSinceLastSave {
    fn default() -> (r: Self)
        ensures
            r.0 == false,
    {
        IsModifiedSinceLastSave(false)
    }
}

impl From<bool> for IsMultiwindow {
    fn from(v: bool) -> (r: Self) {
        IsMultiwindow(v)
    }
}

impl vstd::std_specs::convert::FromSpecImpl<bool> for IsMultiwindow {
    open spec fn obeys_from_spec() -> bool {
        true
    }

    open spec fn from_spec(v: bool) -> IsMultiwindow {
        IsMultiwindow(v)
    }
}

impl From<IsMultiwindow> for bool {
    fn from(v: IsMultiwindow) -> (r: bool) {
        v.0
    }
}

impl vstd::std_specs::convert::FromSpecImpl<IsMultiwindow> for bool {
    open spec fn obeys_from_spec() -> bool {
        true
    }

    open spec fn from_spec(v: IsMultiwindow) -> bool {
        v.0
    }
}

impl From<bool> for IsModifiedSinceLastSave {
    fn from(v: bool) -> (r: Self) {
        IsModifiedSinceLastSave(v)
    }
}

impl vstd::std_specs::convert::FromSpecImpl<bool> for IsModifiedSinceLastSave {
    open spec fn obeys_from_spec() -> bool {
        true
    }

    open spec fn from_spec(v: bool) -> IsModifiedSinceLastSave {
        IsModifiedSinceLastSave(v)
    }
}

impl From<IsModifiedSinceLastSave> for bool {
    fn from(v: IsModifiedSinceLastSave) -> (r: bool) {
        v.0
    }
}

impl vstd::std_specs::convert::FromSpecImpl<IsModifiedSinceLastSave> for bool {
    open spec fn obeys_from_spec() -> bool {
        true
    }

    open spec fn from_spec(v: IsModifiedSinceLastSave) -> bool {
        v.0
    }
}

impl Clone for SaveFilePath {
    fn clone(&self) -> (r: Self)
        ensures
            r.0@ == self.0@,
            r.0.wf() == self.0.wf(),
    {
        SaveFilePath(self.0.clone())
    }
}

impl Clone for CsvFilePath {
    fn clone(&self) -> (r: Self)
        ensures
            r.0@ == self.0@,
            r.0.wf() == self.0.wf(),
    {
        CsvFilePath(self.0.clone())
    }
}

impl Clone for VideoFilePath {
    fn clone(&self) -> (r: Self)
        ensures
            r.0@ == self.0@,
            r.0.wf() == self.0.wf(),
    {
        VideoFilePath(self.0.clone())
    }
}

/// The window of time to load, as a view.
pub struct TimeBoundsModel {
    pub start_time: Option<DateTimeModel>,
    pub end_time: Option<DateTimeModel>,
}

/// The window of time to load from the CSV file; an absent end is open.
#[derive(Debug, PartialEq)]
pub struct TimeBounds {
    pub start_time: Option<LocalDateTime>,
    pub end_time: Option<LocalDateTime>,
}

impl View for TimeBounds {
    type V = TimeBoundsModel;

    open spec fn view(&self) -> TimeBoundsModel {
        TimeBoundsModel {
            start_time: datetime_view(self.start_time),
            end_time: datetime_view(self.end_time),
        }
    }
}

impl TimeBounds {
    /// Both ends, where present, are well-formed.
    pub open spec fn wf(&self) -> bool {
        datetime_wf(self.start_time) && datetime_wf(self.end_time)
    }
}

impl Clone for TimeBounds {
    fn clone(&self) -> (r: Self)
        ensures
            r@ == self@,
            r.wf() == self.wf(),
    {
        TimeBounds {
            start_time: clone_datetime(&self.start_time),
            end_time: clone_datetime(&self.end_time),
        }
    }
}

/// The view of optional time bounds.
pub open spec fn bounds_view(b: Option<TimeBounds>) -> Option<TimeBoundsModel> {
    match b {
        Some(t) => Some(t@),
        None => None,
    }
}

/// How to load the CSV file, as a view.
pub struct CsvSettingsModel {
    pub datetime_index_col: Seq<char>,
    pub datetime_parsing_format_string: Seq<char>,
    pub load_cols: Seq<Seq<char>>,
    pub time_bounds: Option<TimeBoundsModel>,
}

/// How to load the CSV file: the column that holds the time, the format its
/// text is in, the columns to load besides it, and the window of time.
#[derive(Debug, PartialEq)]
pub struct LoadCsvSettings {
    pub datetime_index_col: String,
    pub datetime_parsing_format_string: String,
    pub load_cols: Vec<String>,
    pub time_bounds: Option<TimeBounds>,
}

impl View for LoadCsvSettings {
    type V = CsvSettingsModel;

    open spec fn view(&self) -> CsvSettingsModel {
        CsvSettingsModel {
            datetime_index_col: self.datetime_index_col@,
            datetime_parsing_format_string: self.datetime_parsing_format_string@,
            load_cols: self.load_cols.deep_view(),
            time_bounds: bounds_view(self.time_bounds),
        }
    }
}

impl LoadCsvSettings {
    /// The time bounds, where present, are well-formed.
    pub open spec fn wf(&self) -> bool {
        self.time_bounds matches Some(b) ==> b.wf()
    }
}

fn clone_strings(v: &Vec<String>) -> (r: Vec<String>)
    ensures
        r.deep_view() == v.deep_view(),
{
    let mut r: Vec<String> = Vec::new();
    let mut i: usize = 0;
    while i < v.len()
        invariant
            i <= v@.len(),
            r@.len() == i,
            forall|j: int| 0 <= j < i ==> r@[j]@ == v@[j]@,
        decreases v@.len() - i,
    {
        r.push(v[i].clone());
        i = i + 1;
    }
    assert(r.deep_view() =~= v.deep_view());
    r
}

impl Clone for LoadCsvSettings {
    fn clone(&self) -> (r: Self)
        ensures
            r@ == self@,
            r.wf() == self.wf(),
    {
        let time_bounds = match &self.time_bounds {
            Some(b) => Some(b.clone()),
            None => None,
        };
        LoadCsvSettings {
            datetime_index_col: self.datetime_index_col.clone(),
            datetime_parsing_format_string: self.datetime_parsing_format_string.clone(),
            load_cols: clone_strings(&self.load_cols),
            time_bounds,
        }
    }
}

/// The value of a field, as a view.
pub enum FieldValue {
    Path(Option<Seq<char>>),
    CsvSettings(Option<CsvSettingsModel>),
    DateTime(Option<DateTimeModel>),
    Flag(bool),
}

impl FieldValue {
    /// The value type the value belongs to.
    pub open spec fn kind(self) -> ValueKind {
        match self {
            FieldValue::Path(_) => ValueKind::Path,
            FieldValue::CsvSettings(_) => ValueKind::CsvSettings,
            FieldValue::DateTime(_) => ValueKind::DateTime,
            FieldValue::Flag(_) => ValueKind::Flag,
        }
    }
}

/// Optional time bounds whose ends, where present, are well-formed.
pub open spec fn bounds_model_wf(b: Option<TimeBoundsModel>) -> bool {
    b matches Some(t) ==> {
        &&& t.start_time matches Some(d) ==> d.wf()
        &&& t.end_time matches Some(d) ==> d.wf()
    }
}

impl FieldValue {
    /// Every path has no `..` component and every date-time is well-formed.
    pub open spec fn wf(self) -> bool {
        match self {
            FieldValue::Path(p) => p matches Some(t) ==> !has_parent_component(t),
            FieldValue::CsvSettings(s) => s matches Some(c) ==> bounds_model_wf(c.time_bounds),
            FieldValue::DateTime(d) => d matches Some(t) ==> t.wf(),
            FieldValue::Flag(_) => true,
        }
    }
}

/// The value that a field holds before anything is set.
pub open spec fn default_value(k: FieldKey) -> FieldValue {
    match k.spec_kind() {
        ValueKind::Path => FieldValue::Path(None),
        ValueKind::CsvSettings => FieldValue::CsvSettings(None),
        ValueKind::DateTime => FieldValue::DateTime(None),
        ValueKind::Flag => FieldValue::Flag(false),
    }
}

/// The view of optional CSV settings.
pub open spec fn settings_view(s: Option<LoadCsvSettings>) -> Option<CsvSettingsModel> {
    match s {
        Some(t) => Some(t@),
        None => None,
    }
}

/// A field together with a value of its type: the selector by which callers
/// write a field, and the change event that reports a field's new value.
#[derive(Debug, PartialEq)]
#[allow(inconsistent_fields)]
pub enum AppStateField {
    SaveFilePath { value: Option<SaveFilePath> },
    CsvFilePath { value: Option<CsvFilePath> },
    LoadCsvSettings { value: Option<LoadCsvSettings> },
    VideoFilePath { value: Option<VideoFilePath> },
    VideoStartTime { value: Option<LocalDateTime> },
    IsMultiwindow { value: IsMultiwindow },
    IsModifiedSinceLastSave { value: IsModifiedSinceLastSave },
}

impl AppStateField {
    /// The field this selector names.
    pub open spec fn spec_key(&self) -> FieldKey {
        match self {
            AppStateField::SaveFilePath { .. } => FieldKey::SaveFilePath,
            AppStateField::CsvFilePath { .. } => FieldKey::CsvFilePath,
            AppStateField::LoadCsvSettings { .. } => FieldKey::LoadCsvSettings,
            AppStateField::VideoFilePath { .. } => FieldKey::VideoFilePath,
            AppStateField::VideoStartTime { .. } => FieldKey::VideoStartTime,
            AppStateField::IsMultiwindow { .. } => FieldKey::IsMultiwindow,
            AppStateField::IsModifiedSinceLastSave { .. } => FieldKey::IsModifiedSinceLastSave,
        }
    }

    /// The value the selector carries, as a view.
    pub open spec fn value(&self) -> FieldValue {
        match self {
            AppStateField::SaveFilePath { value } => FieldValue::Path(
                match value {
                    Some(p) => Some(p.0@),
                    None => None,
                },
            ),
            AppStateField::CsvFilePath { value } => FieldValue::Path(
                match value {
                    Some(p) => Some(p.0@),
                    None => None,
                },
            ),
            AppStateField::LoadCsvSettings { value } => FieldValue::CsvSettings(
                settings_view(*value),
            ),
            AppStateField::VideoFilePath { value } => FieldValue::Path(
                match value {
                    Some(p) => Some(p.0@),
                    None => None,
                },
            ),
            AppStateField::VideoStartTime { value } => FieldValue::DateTime(datetime_view(*value)),
            AppStateField::IsMultiwindow { value } => FieldValue::Flag(value.0),
            AppStateField::IsModifiedSinceLastSave { value } => FieldValue::Flag(value.0),
        }
    }

    /// Every path, date-time and time bound the selector carries is
    /// well-formed.
    pub open spec fn wf(&self) -> bool {
        match self {
            AppStateField::SaveFilePath { value } => value matches Some(p) ==> p.0.wf(),
            AppStateField::CsvFilePath { value } => value matches Some(p) ==> p.0.wf(),
            AppStateField::LoadCsvSettings { value } => value matches Some(s) ==> s.wf(),
            AppStateField::VideoFilePath { value } => value matches Some(p) ==> p.0.wf(),
            AppStateField::VideoStartTime { value } => datetime_wf(*value),
            AppStateField::IsMultiwindow { .. } => true,
            AppStateField::IsModifiedSinceLastSave { .. } => true,
        }
    }

    /// The field this selector names.
    pub fn key(&self) -> (r: FieldKey)
        ensures
            r == self.spec_key(),
    {
        match self {
            AppStateField::SaveFilePath { .. } => FieldKey::SaveFilePath,
            AppStateField::CsvFilePath { .. } => FieldKey::CsvFilePath,
            AppStateField::LoadCsvSettings { .. } => FieldKey::LoadCsvSettings,
            AppStateField::VideoFilePath { .. } => FieldKey::VideoFilePath,
            AppStateField::VideoStartTime { .. } => FieldKey::VideoStartTime,
            AppStateField::IsMultiwindow { .. } => FieldKey::IsMultiwindow,
            AppStateField::IsModifiedSinceLastSave { .. } => FieldKey::IsModifiedSinceLastSave,
        }
    }

    /// The name of the event that reports this value.
    pub fn event_name(&self) -> (r: String)
        ensures
            r@ == self.spec_key().spec_event_name(),
    {
        self.key().event_name()
    }
}

impl Clone for AppStateField {
    fn clone(&self) -> (r: Self)
        ensures
            r.spec_key() == self.spec_key(),
            r.value() == self.value(),
            r.wf() == self.wf(),
    {
        match self {
            AppStateField::SaveFilePath { value } => AppStateField::SaveFilePath {
                value: match value {
                    Some(p) => Some(p.clone()),
                    None => None,
                },
            },
            AppStateField::CsvFilePath { value } => AppStateField::CsvFilePath {
                value: match value {
                    Some(p) => Some(p.clone()),
                    None => None,
                },
            },
            AppStateField::LoadCsvSettings { value } => AppStateField::LoadCsvSettings {
                value: match value {
                    Some(s) => Some(s.clone()),
                    None => None,
                },
            },
            AppStateField::VideoFilePath { value } => AppStateField::VideoFilePath {
                value: match value {
                    Some(p) => Some(p.clone()),
                    None => None,
                },
            },
            AppStateField::VideoStartTime { value } => AppStateField::VideoStartTime {
                value: clone_datetime(value),
            },
            AppStateField::IsMultiwindow { value } => AppStateField::IsMultiwindow {
                value: *value,
            },
            AppStateField::IsModifiedSinceLastSave { value } => {
                AppStateField::IsModifiedSinceLastSave { value: *value }
            },
        }
    }
}

} // verus!
