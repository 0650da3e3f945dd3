use crate::codec::{decoded_field, encodes_state, first_failure_from, lemma_decode_encoded_state};
use crate::fields::{AppStateField, FieldValue};
use crate::json::JsonValue;
use crate::path::SafePath;
use crate::schema::{lemma_schema_lists_each_field_once, schema, FieldKey};
use crate::state::{value_after_set, AppState};
use crate::store::{is_full_broadcast, reports_write, value_after_load, value_after_write};
use vstd::prelude::*;

verus! {

/// Reading a field right after it was set gives the value it was set to,
/// whether it was set alone or written together with the dirty flag.
pub proof fn lemma_get_after_set(before: AppState, field: AppStateField)
    ensures
        value_after_set(before, field, field.spec_key()) == field.value(),
        value_after_write(before, field, field.spec_key()) == field.value(),
{
}

/// Writing any field but the dirty flag leaves the state dirty, and reports
/// the dirty flag once if it was clean before. Writing the dirty flag itself
/// sets it to the written value and reports nothing more than that write.
pub proof fn lemma_write_marks_dirty(before: AppState, field: AppStateField, events: Seq<AppStateField>)
    requires
        reports_write(before, field, events),
    ensures
        field.spec_key() != FieldKey::IsModifiedSinceLastSave ==> value_after_write(
            before,
            field,
            FieldKey::IsModifiedSinceLastSave,
        ) == FieldValue::Flag(true),
        field.spec_key() != FieldKey::IsModifiedSinceLastSave && !before.is_dirty() ==> {
            &&& events.len() == 2
            &&& events[1].spec_key() == FieldKey::IsModifiedSinceLastSave
            &&& events[1].value() == FieldValue::Flag(true)
        },
        field.spec_key() == FieldKey::IsModifiedSinceLastSave ==> {
            &&& value_after_write(before, field, FieldKey::IsModifiedSinceLastSave) == field.value()
            &&& events.len() == 1
            &&& events[0].spec_key() == FieldKey::IsModifiedSinceLastSave
            &&& events[0].value() == field.value()
        },
{
}

/// A full broadcast reports each field exactly once, at its place in the
/// schema and with its value: no field is missing and none is reported twice.
pub proof fn lemma_full_broadcast_reports_each_field_once(events: Seq<AppStateField>, s: AppState)
    requires
        is_full_broadcast(events, s),
    ensures
        forall|k: FieldKey|
            {
                &&& 0 <= k.position() < events.len()
                &&& (#[trigger] events[k.position()]).spec_key() == k
                &&& events[k.position()].value() == s.value_of(k)
            },
        forall|i: int, j: int|
            0 <= i < events.len() && 0 <= j < events.len() && i != j ==> (#[trigger] events[i]).spec_key()
                != (#[trigger] events[j]).spec_key(),
{
    assert forall|k: FieldKey|
        {
            &&& 0 <= k.position() < events.len()
            &&& (#[trigger] events[k.position()]).spec_key() == k
            &&& events[k.position()].value() == s.value_of(k)
        } by {
        lemma_schema_lists_each_field_once(k);
    }
    lemma_schema_lists_each_field_once(FieldKey::SaveFilePath);
}

/// Saving a well-formed state to `p` and loading the saved form from `p` gives
/// back every field's value, except that the state is no longer dirty; the
/// save path stays `p`.
pub proof fn lemma_save_then_load(s: AppState, p: SafePath, doc: JsonValue)
    requires
        s.wf(),
        s.value_of(FieldKey::SaveFilePath) == FieldValue::Path(Some(p@)),
        encodes_state(doc, s),
    ensures
        doc matches JsonValue::Object(m) && first_failure_from(m@, 0) is None && forall|k: FieldKey|
            #[trigger] value_after_load(m@, p@, k) == if k == FieldKey::IsModifiedSinceLastSave {
                FieldValue::Flag(false)
            } else {
                s.value_of(k)
            },
{
    lemma_decode_encoded_state(doc, s);
    let m = doc->Object_0@;
    assert forall|k: FieldKey|
        #[trigger] value_after_load(m, p@, k) == if k == FieldKey::IsModifiedSinceLastSave {
            FieldValue::Flag(false)
        } else {
            s.value_of(k)
        } by {
        assert(decoded_field(m, k) is Ok);
    }
}

} // verus!
