use crate::codec::{
    decoded_field, encode_field, encode_state, encodes_state, encodes_value, first_failure_from,
};
use crate::error::{is_decode_error, StoreError};
use crate::fields::{
    default_value, AppStateField, FieldValue, IsModifiedSinceLastSave, LoadCsvSettings, SaveFilePath,
};
use crate::json::JsonValue;
use crate::path::SafePath;
use crate::request::{decode_request, request_key, request_member, request_outcome};
use crate::schema::{schema, FieldKey};
use crate::state::{value_after_set, AppState};
use vstd::prelude::*;

verus! {

/// `events` report every field once, in schema order, each with the value
/// that `s` holds for it.
pub open spec fn is_full_broadcast(events: Seq<AppStateField>, s: AppState) -> bool {
    &&& events.len() == schema().len()
    &&& forall|i: int|
        0 <= i < events.len() ==> {
            &&& (#[trigger] events[i]).spec_key() == schema()[i]
            &&& events[i].value() == s.value_of(schema()[i])
        }
}

/// The value of field `k` once `field` has been written to `before`: the
/// written field takes the new value, and any write but one of the dirty flag
/// itself also sets the dirty flag.
pub open spec fn value_after_write(before: AppState, field: AppStateField, k: FieldKey) -> FieldValue {
    if k == field.spec_key() {
        field.value()
    } else if k == FieldKey::IsModifiedSinceLastSave {
        FieldValue::Flag(true)
    } else {
        before.value_of(k)
    }
}

/// A write of `field` to `before` changes the dirty flag as a side effect.
pub open spec fn write_dirties(before: AppState, field: AppStateField) -> bool {
    field.spec_key() != FieldKey::IsModifiedSinceLastSave && !before.is_dirty()
}

/// `events` report a write of `field` to `before`: the written field, then the
/// dirty flag where the write changed it as a side effect.
pub open spec fn reports_write(before: AppState, field: AppStateField, events: Seq<AppStateField>) -> bool {
    &&& events.len() == if write_dirties(before, field) {
        2int
    } else {
        1int
    }
    &&& events[0].spec_key() == field.spec_key()
    &&& events[0].value() == field.value()
    &&& write_dirties(before, field) ==> {
        &&& events[1].spec_key() == FieldKey::IsModifiedSinceLastSave
        &&& events[1].value() == FieldValue::Flag(true)
    }
}

/// The value of field `k` once a document whose members are `members` has
/// been loaded from `path`: the save path becomes `path`, the dirty flag is
/// cleared, and every other field takes the value read from the document.
pub open spec fn value_after_load(members: Seq<(String, JsonValue)>, path: Seq<char>, k: FieldKey) -> FieldValue {
    if k == FieldKey::SaveFilePath {
        FieldValue::Path(Some(path))
    } else if k == FieldKey::IsModifiedSinceLastSave {
        FieldValue::Flag(false)
    } else {
        decoded_field(members, k)->Ok_0
    }
}

impl AppState {
    /// One event per field, in schema order, each with the field's current
    /// value.
    pub fn full_broadcast(&self) -> (r: Vec<AppStateField>)
        ensures
            is_full_broadcast(r@, *self),
            self.wf() ==> forall|i: int| 0 <= i < r@.len() ==> (#[trigger] r@[i]).wf(),
    {
        let keys = FieldKey::all();
        let mut r: Vec<AppStateField> = Vec::new();
        let mut i: usize = 0;
        while i < keys.len()
            invariant
                keys@ == schema(),
                i <= keys@.len(),
                r@.len() == i,
                forall|j: int|
                    0 <= j < i ==> {
                        &&& (#[trigger] r@[j]).spec_key() == schema()[j]
                        &&& r@[j].value() == self.value_of(schema()[j])
                        &&& self.wf() ==> r@[j].wf()
                    },
            decreases keys@.len() - i,
        {
            r.push(self.get_field(keys[i]));
            i = i + 1;
        }
        r
    }

    /// Writes `field`. Unless the field written is the dirty flag itself, the
    /// dirty flag is set too. Returns the change events: the written field,
    /// then the dirty flag if it changed as a side effect.
    pub fn write_field(&mut self, field: AppStateField) -> (events: Vec<AppStateField>)
        ensures
            forall|k: FieldKey| #[trigger]
                final(self).value_of(k) == value_after_write(*old(self), field, k),
            reports_write(*old(self), field, events@),
            old(self).wf() && field.wf() ==> final(self).wf(),
            old(self).wf() && field.wf() ==> forall|i: int|
                0 <= i < events@.len() ==> (#[trigger] events@[i]).wf(),
    {
        let key = field.key();
        let dirties = match key {
            FieldKey::IsModifiedSinceLastSave => false,
            _ => !self.is_modified_since_last_save.0,
        };
        let event = field.clone();
        let ghost before = *self;
        let ghost written = field;
        self.set_field(field);
        let ghost middle = *self;
        if let FieldKey::IsModifiedSinceLastSave = key {
        } else {
            self.is_modified_since_last_save = IsModifiedSinceLastSave(true);
        }
        assert forall|k: FieldKey| #[trigger]
            self.value_of(k) == value_after_write(before, written, k) by {
            assert(middle.value_of(k) == value_after_set(before, written, k));
        }
        let mut events: Vec<AppStateField> = Vec::new();
        events.push(event);
        if dirties {
            events.push(
                AppStateField::IsModifiedSinceLastSave { value: IsModifiedSinceLastSave(true) },
            );
        }
        events
    }

    /// Clears the dirty flag after the state was written out, and returns its
    /// change event.
    pub fn mark_saved(&mut self) -> (event: AppStateField)
        ensures
            forall|k: FieldKey| #[trigger]
                final(self).value_of(k) == if k == FieldKey::IsModifiedSinceLastSave {
                    FieldValue::Flag(false)
                } else {
                    old(self).value_of(k)
                },
            event.spec_key() == FieldKey::IsModifiedSinceLastSave,
            event.value() == FieldValue::Flag(false),
            old(self).wf() ==> final(self).wf(),
    {
        self.is_modified_since_last_save = IsModifiedSinceLastSave(false);
        AppStateField::IsModifiedSinceLastSave { value: IsModifiedSinceLastSave(false) }
    }

    /// What a save writes, and where: the save path and the saved form of the
    /// state. Fails with `NoSavePath`, and changes nothing, where no save path
    /// is set.
    pub fn save_to_file(&self) -> (r: Result<(SafePath, JsonValue), StoreError>)
        ensures
            self.save_file_path is None <==> r is Err,
            r is Err ==> r == Err::<(SafePath, JsonValue), StoreError>(StoreError::NoSavePath),
            r matches Ok((p, doc)) ==> {
                &&& self.value_of(FieldKey::SaveFilePath) == FieldValue::Path(Some(p@))
                &&& encodes_state(doc, *self)
                &&& (self.wf() ==> p.wf())
            },
    {
        match &self.save_file_path {
            None => Err(StoreError::NoSavePath),
            Some(p) => Ok((p.0.clone(), encode_state(self))),
        }
    }
}

impl AppState {
    /// The CSV file to read, for a query of its columns. Fails with
    /// `NoCsvFilePath` where none is set.
    pub fn csv_source(&self) -> (r: Result<SafePath, StoreError>)
        ensures
            self.csv_file_path is None ==> r == Err::<SafePath, StoreError>(StoreError::NoCsvFilePath),
            self.csv_file_path is Some ==> (r matches Ok(p) && self.value_of(FieldKey::CsvFilePath)
                == FieldValue::Path(Some(p@))),
            self.wf() ==> (r matches Ok(p) ==> p.wf()),
    {
        match &self.csv_file_path {
            None => Err(StoreError::NoCsvFilePath),
            Some(p) => Ok(p.0.clone()),
        }
    }

    /// The CSV file and the settings to load its data with. Fails with
    /// `NoCsvFilePath` where no file is set, and otherwise with
    /// `NoCsvSettings` where no settings are set.
    pub fn csv_query(&self) -> (r: Result<(SafePath, LoadCsvSettings), StoreError>)
        ensures
            self.csv_file_path is None ==> r == Err::<(SafePath, LoadCsvSettings), StoreError>(
                StoreError::NoCsvFilePath,
            ),
            self.csv_file_path is Some && self.load_csv_settings is None ==> r == Err::<
                (SafePath, LoadCsvSettings),
                StoreError,
            >(StoreError::NoCsvSettings),
            self.csv_file_path is Some && self.load_csv_settings is Some ==> (r matches Ok((p, s))
                && self.value_of(FieldKey::CsvFilePath) == FieldValue::Path(Some(p@))
                && self.value_of(FieldKey::LoadCsvSettings) == FieldValue::CsvSettings(Some(s@))),
            self.wf() ==> (r matches Ok((p, s)) ==> p.wf() && s.wf()),
    {
        let path = match self.csv_source() {
            Ok(p) => p,
            Err(e) => return Err(e),
        };
        match &self.load_csv_settings {
            None => Err(StoreError::NoCsvSettings),
            Some(s) => Ok((path, s.clone())),
        }
    }
}

/// Reads a write request and applies it. A request that cannot be read leaves
/// the state as it was and fails as `decode_request` says; otherwise the
/// field is written as `AppState::write_field` says and its events are
/// returned.
pub fn set_app_state_field(state: &mut AppState, request: &JsonValue) -> (r: Result<
    Vec<AppStateField>,
    StoreError,
>)
    ensures
        match r {
            Err(e) => {
                &&& *final(state) == *old(state)
                &&& request_outcome(*request, Err(e))
            },
            Ok(events) => exists|field: AppStateField|
                {
                    &&& request_outcome(*request, Ok(field))
                    &&& forall|k: FieldKey| #[trigger]
                        final(state).value_of(k) == value_after_write(*old(state), field, k)
                    &&& reports_write(*old(state), field, events@)
                    &&& field.wf()
                },
        },
        old(state).wf() ==> final(state).wf(),
{
    match decode_request(request) {
        Err(e) => Err(e),
        Ok(field) => {
            let ghost f = field;
            let events = state.write_field(field);
            assert(request_outcome(*request, Ok(f)));
            Ok(events)
        },
    }
}

/// Reads the field that a request names and returns its current value in JSON
/// form.
pub fn get_app_state_field(state: &AppState, request: &JsonValue) -> (r: Result<
    JsonValue,
    StoreError,
>)
    ensures
        match request_member(*request) {
            None => r == Err::<JsonValue, StoreError>(StoreError::Malformed),
            Some((name, _)) => {
                &&& (forall|k: FieldKey| k.spec_name() != name@) ==> (r matches Err(
                    StoreError::UnknownField { name: n },
                ) && n@ == name@)
                &&& forall|k: FieldKey| #[trigger]
                    k.spec_name() == name@ ==> (r matches Ok(j) && encodes_value(
                        j,
                        state.value_of(k),
                    ))
            },
        },
{
    match request_key(request) {
        Err(e) => Err(e),
        Ok(key) => {
            let field = state.get_field(key);
            Ok(encode_field(&field))
        },
    }
}

/// Resets every field to its default and reports every field.
pub fn clear_app_state(state: &mut AppState) -> (events: Vec<AppStateField>)
    ensures
        forall|k: FieldKey| #[trigger] final(state).value_of(k) == default_value(k),
        !final(state).is_dirty(),
        final(state).wf(),
        is_full_broadcast(events@, *final(state)),
{
    *state = AppState::new();
    state.full_broadcast()
}

/// Completes a save once the document from `AppState::save_to_file` has been
/// written, or has failed to be. Where no save path is set, nothing can have
/// been saved: it fails with `NoSavePath` and changes nothing, whatever
/// `written` says. Otherwise a successful write clears the dirty flag and
/// returns its event, and a failed one leaves the state as it was.
pub fn save_app_state_to_file(state: &mut AppState, written: Result<(), String>) -> (r: Result<
    Vec<AppStateField>,
    StoreError,
>)
    ensures
        old(state).save_file_path is None ==> {
            &&& r == Err::<Vec<AppStateField>, StoreError>(StoreError::NoSavePath)
            &&& *final(state) == *old(state)
        },
        old(state).save_file_path is Some ==> match written {
            Err(message) => {
                &&& *final(state) == *old(state)
                &&& r matches Err(StoreError::IoFailure { message: m }) && m@ == message@
            },
            Ok(_) => r matches Ok(events) && {
                &&& events@.len() == 1
                &&& events@[0].spec_key() == FieldKey::IsModifiedSinceLastSave
                &&& events@[0].value() == FieldValue::Flag(false)
                &&& forall|k: FieldKey| #[trigger]
                    final(state).value_of(k) == if k == FieldKey::IsModifiedSinceLastSave {
                        FieldValue::Flag(false)
                    } else {
                        old(state).value_of(k)
                    }
            },
        },
        old(state).wf() ==> final(state).wf(),
{
    if state.save_file_path.is_none() {
        return Err(StoreError::NoSavePath);
    }
    match written {
        Err(message) => Err(StoreError::IoFailure { message }),
        Ok(()) => {
            let event = state.mark_saved();
            let mut events: Vec<AppStateField> = Vec::new();
            events.push(event);
            Ok(events)
        },
    }
}

/// Replaces the state by the one read from `document`, which was read from
/// `file`. The save path becomes `file` and the dirty flag is cleared; every
/// field is then reported. A document that cannot be read leaves the state as
/// it was and fails as `AppState::load_from_file` says.
pub fn load_app_state_from_file(state: &mut AppState, file: SafePath, document: &JsonValue) -> (r:
    Result<Vec<AppStateField>, StoreError>)
    ensures
        !(document is Object) ==> r == Err::<Vec<AppStateField>, StoreError>(StoreError::Malformed)
            && *final(state) == *old(state),
        document matches JsonValue::Object(m) ==> match first_failure_from(m@, 0) {
            Some((k, c)) => {
                &&& r matches Err(e) && is_decode_error(e, k, c)
                &&& *final(state) == *old(state)
            },
            None => r matches Ok(events) && {
                &&& forall|k: FieldKey| #[trigger]
                    final(state).value_of(k) == value_after_load(m@, file@, k)
                &&& !final(state).is_dirty()
                &&& final(state).wf()
                &&& is_full_broadcast(events@, *final(state))
            },
        },
{
    proof {
        use_type_invariant(&file);
    }
    match AppState::load_from_file(document) {
        Err(e) => Err(e),
        Ok(loaded) => {
            *state = loaded;
            state.save_file_path = Some(SaveFilePath(file));
            state.is_modified_since_last_save = IsModifiedSinceLastSave(false);
            Ok(state.full_broadcast())
        },
    }
}

} // verus!
