use crate::datetime::LocalDateTime;
use crate::fields::{
    datetime_view, datetime_wf, default_value, settings_view, AppStateField,
    CsvFilePath, FieldValue, IsModifiedSinceLastSave, IsMultiwindow, LoadCsvSettings,
    SaveFilePath, VideoFilePath,
};
use crate::schema::FieldKey;
use vstd::prelude::*;

verus! {

/// The current value of every field of the schema.
#[derive(Debug, PartialEq)]
pub struct AppState {
    pub save_file_path: Option<SaveFilePath>,
    pub csv_file_path: Option<CsvFilePath>,
    pub load_csv_settings: Option<LoadCsvSettings>,
    pub video_file_path: Option<VideoFilePath>,
    pub video_start_time: Option<LocalDateTime>,
    pub is_multiwindow: IsMultiwindow,
    pub is_modified_since_last_save: IsModifiedSinceLastSave,
}

/// Two states hold the same value in every field.
pub open spec fn same_values(a: AppState, b: AppState) -> bool {
    forall|k: FieldKey| #[trigger] a.value_of(k) == b.value_of(k)
}

/// The value of field `k` once `field` has been set on `before`.
pub open spec fn value_after_set(before: AppState, field: AppStateField, k: FieldKey) -> FieldValue {
    if k == field.spec_key() {
        field.value()
    } else {
        before.value_of(k)
    }
}

impl AppState {
    /// The value the state holds for field `k`.
    pub open spec fn value_of(&self, k: FieldKey) -> FieldValue {
        match k {
            FieldKey::SaveFilePath => FieldValue::Path(
                match self.save_file_path {
                    Some(p) => Some(p.0@),
                    None => None,
                },
            ),
            FieldKey::CsvFilePath => FieldValue::Path(
                match self.csv_file_path {
                    Some(p) => Some(p.0@),
                    None => None,
                },
            ),
            FieldKey::LoadCsvSettings => FieldValue::CsvSettings(
                settings_view(self.load_csv_settings),
            ),
            FieldKey::VideoFilePath => FieldValue::Path(
                match self.video_file_path {
                    Some(p) => Some(p.0@),
                    None => None,
                },
            ),
            FieldKey::VideoStartTime => FieldValue::DateTime(datetime_view(self.video_start_time)),
            FieldKey::IsMultiwindow => FieldValue::Flag(self.is_multiwindow.0),
            FieldKey::IsModifiedSinceLastSave => FieldValue::Flag(
                self.is_modified_since_last_save.0,
            ),
        }
    }

    /// Whether the state changed since it was last saved, loaded or cleared.
    pub open spec fn is_dirty(&self) -> bool {
        self.is_modified_since_last_save.0
    }

    /// Every path, date-time and time bound the state holds is well-formed.
    pub open spec fn wf(&self) -> bool {
        &&& self.save_file_path matches Some(p) ==> p.0.wf()
        &&& self.csv_file_path matches Some(p) ==> p.0.wf()
        &&& self.load_csv_settings matches Some(s) ==> s.wf()
        &&& self.video_file_path matches Some(p) ==> p.0.wf()
        &&& datetime_wf(self.video_start_time)
    }

    /// A well-formed state holds a well-formed value of the right type in every
    /// field.
    pub proof fn lemma_values_wf(&self, k: FieldKey)
        requires
            self.wf(),
        ensures
            self.value_of(k).wf(),
            self.value_of(k).kind() == k.spec_kind(),
    {
    }

    /// A state that holds every field's default: no paths, no settings, no
    /// start time, and both flags false.
    pub fn new() -> (r: AppState)
        ensures
            forall|k: FieldKey| #[trigger] r.value_of(k) == default_value(k),
            r.wf(),
            !r.is_dirty(),
    {
        AppState {
            save_file_path: None,
            csv_file_path: None,
            load_csv_settings: None,
            video_file_path: None,
            video_start_time: None,
            is_multiwindow: IsMultiwindow(false),
            is_modified_since_last_save: IsModifiedSinceLastSave(false),
        }
    }

    /// Replaces the value of the field that `field` names, and nothing else.
    pub fn set_field(&mut self, field: AppStateField)
        ensures
            forall|k: FieldKey| #[trigger]
                final(self).value_of(k) == value_after_set(*old(self), field, k),
            old(self).wf() && field.wf() ==> final(self).wf(),
    {
        match field {
            AppStateField::SaveFilePath { value } => self.save_file_path = value,
            AppStateField::CsvFilePath { value } => self.csv_file_path = value,
            AppStateField::LoadCsvSettings { value } => self.load_csv_settings = value,
            AppStateField::VideoFilePath { value } => self.video_file_path = value,
            AppStateField::VideoStartTime { value } => self.video_start_time = value,
            AppStateField::IsMultiwindow { value } => self.is_multiwindow = value,
            AppStateField::IsModifiedSinceLastSave { value } => self.is_modified_since_last_save =
                value,
        }
    }

    /// The field `key` together with the value the state holds for it.
    pub fn get_field(&self, key: FieldKey) -> (r: AppStateField)
        ensures
            r.spec_key() == key,
            r.value() == self.value_of(key),
            self.wf() ==> r.wf(),
    {
        match key {
            FieldKey::SaveFilePath => AppStateField::SaveFilePath {
                value: match &self.save_file_path {
                    Some(p) => Some(p.clone()),
                    None => None,
                },
            },
            FieldKey::CsvFilePath => AppStateField::CsvFilePath {
                value: match &self.csv_file_path {
                    Some(p) => Some(p.clone()),
                    None => None,
                },
            },
            FieldKey::LoadCsvSettings => AppStateField::LoadCsvSettings {
                value: match &self.load_csv_settings {
                    Some(s) => Some(s.clone()),
                    None => None,
                },
            },
            FieldKey::VideoFilePath => AppStateField::VideoFilePath {
                value: match &self.video_file_path {
                    Some(p) => Some(p.clone()),
                    None => None,
                },
            },
            FieldKey::VideoStartTime => AppStateField::VideoStartTime {
                value: match &self.video_start_time {
                    Some(t) => Some(t.clone()),
                    None => None,
                },
            },
            FieldKey::IsMultiwindow => AppStateField::IsMultiwindow { value: self.is_multiwindow },
            FieldKey::IsModifiedSinceLastSave => AppStateField::IsModifiedSinceLastSave {
                value: self.is_modified_since_last_save,
            },
        }
    }
}

impl Default for AppState {
    fn default() -> (r: AppState)
        ensures
            forall|k: FieldKey| #[trigger] r.value_of(k) == default_value(k),
            r.wf(),
    {
        AppState::new()
    }
}

} // verus!
