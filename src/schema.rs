use vstd::prelude::*;

verus! {

/// Names one field of the state. The declaration order is the schema order,
/// in which a full broadcast reports the fields.
#[derive(Clone, Copy, PartialEq, Eq, Structural, Debug, Hash)]
pub enum FieldKey {
    SaveFilePath,
    CsvFilePath,
    LoadCsvSettings,
    VideoFilePath,
    VideoStartTime,
    IsMultiwindow,
    IsModifiedSinceLastSave,
}

/// Every field, in schema order.
pub open spec fn schema() -> Seq<FieldKey> {
    seq![
        FieldKey::SaveFilePath,
        FieldKey::CsvFilePath,
        FieldKey::LoadCsvSettings,
        FieldKey::VideoFilePath,
        FieldKey::VideoStartTime,
        FieldKey::IsMultiwindow,
        FieldKey::IsModifiedSinceLastSave,
    ]
}

/// The number of fields in the schema.
pub const FIELD_COUNT: usize = 7;

/// Each field stands in the schema once.
pub proof fn lemma_schema_lists_each_field_once(k: FieldKey)
    ensures
        schema().len() == FIELD_COUNT,
        schema().contains(k),
        schema().no_duplicates(),
        schema()[k.position()] == k,
        0 <= k.position() < FIELD_COUNT,
{
    let s = schema();
    assert(s[k.position()] == k);
    assert(s.no_duplicates()) by {
        assert forall|i: int, j: int| 0 <= i < s.len() && 0 <= j < s.len() && i != j implies s[i]
            != s[j] by {
            assert(s[i].position() == i);
            assert(s[j].position() == j);
        }
    }
}

/// No two fields share a schema name, a document key or an event name.
pub proof fn lemma_field_names_distinct(a: FieldKey, b: FieldKey)
    ensures
        a.spec_name() == b.spec_name() ==> a == b,
        a.spec_document_key() == b.spec_document_key() ==> a == b,
        a.spec_event_name() == b.spec_event_name() ==> a == b,
{
    reveal_strlit("saveFilePath");
    reveal_strlit("csvFilePath");
    reveal_strlit("loadCsvSettings");
    reveal_strlit("videoFilePath");
    reveal_strlit("videoStartTime");
    reveal_strlit("isMultiwindow");
    reveal_strlit("isModifiedSinceLastSave");
    reveal_strlit("save_file_path");
    reveal_strlit("csv_file_path");
    reveal_strlit("load_csv_settings");
    reveal_strlit("video_file_path");
    reveal_strlit("video_start_time");
    reveal_strlit("is_multiwindow");
    reveal_strlit("is_modified_since_last_save");
    reveal_strlit("state-change--save-file-path");
    reveal_strlit("state-change--csv-file-path");
    reveal_strlit("state-change--load-csv-settings");
    reveal_strlit("state-change--video-file-path");
    reveal_strlit("state-change--video-start-time");
    reveal_strlit("state-change--is-multiwindow");
    reveal_strlit("state-change--is-modified-since-last-save");
    if a != b {
        assert(a.spec_name() != b.spec_name() && a.spec_document_key() != b.spec_document_key()
            && a.spec_event_name() != b.spec_event_name()) by {
            if a.spec_name().len() == b.spec_name().len() {
                assert(a.spec_name()[0] != b.spec_name()[0]);
            }
            if a.spec_document_key().len() == b.spec_document_key().len() {
                assert(a.spec_document_key()[0] != b.spec_document_key()[0]);
            }
            if a.spec_event_name().len() == b.spec_event_name().len() {
                assert(a.spec_event_name()[14] != b.spec_event_name()[14]);
            }
        }
    }
}

/// The value types of the fields.
#[derive(Clone, Copy, PartialEq, Eq, Structural, Debug)]
pub enum ValueKind {
    /// An optional file-system path.
    Path,
    /// Optional settings for loading the CSV file.
    CsvSettings,
    /// An optional zone-naive date-time.
    DateTime,
    /// A flag.
    Flag,
}

impl FieldKey {
    /// Where the field stands in the schema.
    pub open spec fn position(self) -> int {
        match self {
            FieldKey::SaveFilePath => 0,
            FieldKey::CsvFilePath => 1,
            FieldKey::LoadCsvSettings => 2,
            FieldKey::VideoFilePath => 3,
            FieldKey::VideoStartTime => 4,
            FieldKey::IsMultiwindow => 5,
            FieldKey::IsModifiedSinceLastSave => 6,
        }
    }

    /// The field's schema name, as requests name it.
    pub open spec fn spec_name(self) -> Seq<char> {
        match self {
            FieldKey::SaveFilePath => "saveFilePath"@,
            FieldKey::CsvFilePath => "csvFilePath"@,
            FieldKey::LoadCsvSettings => "loadCsvSettings"@,
            FieldKey::VideoFilePath => "videoFilePath"@,
            FieldKey::VideoStartTime => "videoStartTime"@,
            FieldKey::IsMultiwindow => "isMultiwindow"@,
            FieldKey::IsModifiedSinceLastSave => "isModifiedSinceLastSave"@,
        }
    }

    /// The key the field has in a saved document.
    pub open spec fn spec_document_key(self) -> Seq<char> {
        match self {
            FieldKey::SaveFilePath => "save_file_path"@,
            FieldKey::CsvFilePath => "csv_file_path"@,
            FieldKey::LoadCsvSettings => "load_csv_settings"@,
            FieldKey::VideoFilePath => "video_file_path"@,
            FieldKey::VideoStartTime => "video_start_time"@,
            FieldKey::IsMultiwindow => "is_multiwindow"@,
            FieldKey::IsModifiedSinceLastSave => "is_modified_since_last_save"@,
        }
    }

    /// The name of the event that reports a change of the field.
    pub open spec fn spec_event_name(self) -> Seq<char> {
        match self {
            FieldKey::SaveFilePath => "state-change--save-file-path"@,
            FieldKey::CsvFilePath => "state-change--csv-file-path"@,
            FieldKey::LoadCsvSettings => "state-change--load-csv-settings"@,
            FieldKey::VideoFilePath => "state-change--video-file-path"@,
            FieldKey::VideoStartTime => "state-change--video-start-time"@,
            FieldKey::IsMultiwindow => "state-change--is-multiwindow"@,
            FieldKey::IsModifiedSinceLastSave => "state-change--is-modified-since-last-save"@,
        }
    }

    /// The field's value type.
    pub open spec fn spec_kind(self) -> ValueKind {
        match self {
            FieldKey::SaveFilePath => ValueKind::Path,
            FieldKey::CsvFilePath => ValueKind::Path,
            FieldKey::LoadCsvSettings => ValueKind::CsvSettings,
            FieldKey::VideoFilePath => ValueKind::Path,
            FieldKey::VideoStartTime => ValueKind::DateTime,
            FieldKey::IsMultiwindow => ValueKind::Flag,
            FieldKey::IsModifiedSinceLastSave => ValueKind::Flag,
        }
    }

    /// Every field, in schema order.
    pub fn all() -> (r: Vec<FieldKey>)
        ensures
            r@ == schema(),
    {
        let r = vec![
            FieldKey::SaveFilePath,
            FieldKey::CsvFilePath,
            FieldKey::LoadCsvSettings,
            FieldKey::VideoFilePath,
            FieldKey::VideoStartTime,
            FieldKey::IsMultiwindow,
            FieldKey::IsModifiedSinceLastSave,
        ];
        assert(r@ =~= schema());
        r
    }

    /// The field's schema name, as requests name it.
    pub fn name(&self) -> (r: String)
        ensures
            r@ == self.spec_name(),
    {
        let s = match self {
            FieldKey::SaveFilePath => "saveFilePath",
            FieldKey::CsvFilePath => "csvFilePath",
            FieldKey::LoadCsvSettings => "loadCsvSettings",
            FieldKey::VideoFilePath => "videoFilePath",
            FieldKey::VideoStartTime => "videoStartTime",
            FieldKey::IsMultiwindow => "isMultiwindow",
            FieldKey::IsModifiedSinceLastSave => "isModifiedSinceLastSave",
        };
        s.to_string()
    }

    /// The key the field has in a saved document.
    pub fn document_key(&self) -> (r: String)
        ensures
            r@ == self.spec_document_key(),
    {
        let s = match self {
            FieldKey::SaveFilePath => "save_file_path",
            FieldKey::CsvFilePath => "csv_file_path",
            FieldKey::LoadCsvSettings => "load_csv_settings",
            FieldKey::VideoFilePath => "video_file_path",
            FieldKey::VideoStartTime => "video_start_time",
            FieldKey::IsMultiwindow => "is_multiwindow",
            FieldKey::IsModifiedSinceLastSave => "is_modified_since_last_save",
        };
        s.to_string()
    }

    /// The name of the event that reports a change of the field.
    pub fn event_name(&self) -> (r: String)
        ensures
            r@ == self.spec_event_name(),
    {
        let s = match self {
            FieldKey::SaveFilePath => "state-change--save-file-path",
            FieldKey::CsvFilePath => "state-change--csv-file-path",
            FieldKey::LoadCsvSettings => "state-change--load-csv-settings",
            FieldKey::VideoFilePath => "state-change--video-file-path",
            FieldKey::VideoStartTime => "state-change--video-start-time",
            FieldKey::IsMultiwindow => "state-change--is-multiwindow",
            FieldKey::IsModifiedSinceLastSave => "state-change--is-modified-since-last-save",
        };
        s.to_string()
    }

    /// The field's value type.
    pub fn kind(&self) -> (r: ValueKind)
        ensures
            r == self.spec_kind(),
    {
        match self {
            FieldKey::SaveFilePath => ValueKind::Path,
            FieldKey::CsvFilePath => ValueKind::Path,
            FieldKey::LoadCsvSettings => ValueKind::CsvSettings,
            FieldKey::VideoFilePath => ValueKind::Path,
            FieldKey::VideoStartTime => ValueKind::DateTime,
            FieldKey::IsMultiwindow => ValueKind::Flag,
            FieldKey::IsModifiedSinceLastSave => ValueKind::Flag,
        }
    }

    /// The field whose schema name is `name`, if any.
    pub fn from_name(name: &str) -> (r: Option<FieldKey>)
        ensures
            r matches Some(k) ==> k.spec_name() == name@,
            r is None <==> forall|k: FieldKey| k.spec_name() != name@,
    {
        let keys = FieldKey::all();
        let target = name.to_string();
        let mut i: usize = 0;
        while i < keys.len()
            invariant
                keys@ == schema(),
                target@ == name@,
                i <= keys@.len(),
                forall|j: int| 0 <= j < i ==> schema()[j].spec_name() != name@,
            decreases keys@.len() - i,
        {
            if keys[i].name() == target {
                return Some(keys[i]);
            }
            i = i + 1;
        }
        assert forall|k: FieldKey| k.spec_name() != name@ by {
            lemma_schema_lists_each_field_once(k);
        }
        None
    }
}

} // verus!
