//! The session file: how a store is laid out as a JSON document, how a
//! document is read back into a store, and what becomes of a file that is
//! missing, unreadable or damaged.
//!
//! The document is an object with two entries. `sessions` is an array with
//! one object for each record, in order, whose entries `id`, `name`,
//! `folder_id`, `course_id`, `set_id`, `created_at` and `last_used` are all
//! texts. `active_session_id` is the text of the active identifier, or
//! `null`.

use crate::ident::{id_parsed, id_text, id_to_string, parse_id};
use crate::json::{
    json_parsed, json_pretty, json_reads_back, lemma_array_model, lemma_object_model, Json,
    JsonModel,
};
use crate::session::{ManagerView, SessionManager, SessionState, SessionView};
use crate::timestamp::Timestamp;
use vstd::prelude::*;

verus! {

/// The key of the array of records.
pub const KEY_SESSIONS: &'static str = "sessions";

/// The key of the active identifier.
pub const KEY_ACTIVE: &'static str = "active_session_id";

/// The keys of a record, in the order in which they are written.
pub const KEY_ID: &'static str = "id";

pub const KEY_NAME: &'static str = "name";

pub const KEY_FOLDER: &'static str = "folder_id";

pub const KEY_COURSE: &'static str = "course_id";

pub const KEY_SET: &'static str = "set_id";

pub const KEY_CREATED: &'static str = "created_at";

pub const KEY_USED: &'static str = "last_used";

/// Why a session file could not be loaded.
#[derive(Debug)]
pub enum PersistenceError {
    /// The file is there, but what it holds is not a session document.
    CorruptData(String),
    /// The file could not be read or written.
    IoError(String),
}

impl PersistenceError {
    /// The words that say what went wrong.
    pub fn message(&self) -> (why: &String)
        ensures
            match *self {
                PersistenceError::CorruptData(said) => *why == said,
                PersistenceError::IoError(said) => *why == said,
            },
    {
        match self {
            PersistenceError::CorruptData(said) => said,
            PersistenceError::IoError(said) => said,
        }
    }
}

/// What reading the session file from disk gave.
#[derive(Debug)]
pub enum FileRead {
    /// There is no file at the path.
    Missing,
    /// The file is there but could not be read; the text says why.
    Failed(String),
    /// The file's contents.
    Contents(String),
}

/// Whether the entry at `i` is the first one under `key`.
pub open spec fn is_entry(entries: Seq<(Seq<char>, JsonModel)>, key: Seq<char>, i: int) -> bool {
    &&& 0 <= i < entries.len()
    &&& entries[i].0 == key
    &&& forall|j: int| 0 <= j < i ==> entries[j].0 != key
}

/// The value of the first entry under `key` in an object; none in an object
/// without such an entry, and none in a value that is no object.
pub open spec fn lookup(doc: JsonModel, key: Seq<char>) -> Option<JsonModel> {
    match doc {
        JsonModel::Object(entries) => if exists|i: int| is_entry(entries, key, i) {
            Some(entries[choose|i: int| is_entry(entries, key, i)].1)
        } else {
            None
        },
        _ => None,
    }
}

/// The complaint about an object that lacks an entry.
pub open spec fn missing_text(key: Seq<char>) -> Seq<char> {
    "missing field `"@ + key + "`"@
}

/// The complaint about an entry whose value is of the wrong kind.
pub open spec fn mistyped_text(key: Seq<char>) -> Seq<char> {
    "invalid type for field `"@ + key + "`"@
}

/// The complaint about a value that should be an object and is none.
pub open spec fn not_object_text() -> Seq<char> {
    "expected a JSON object"@
}

/// The text under `key`, which must be there and be a text.
pub open spec fn text_field(doc: JsonModel, key: Seq<char>) -> Result<Seq<char>, Seq<char>> {
    match lookup(doc, key) {
        Some(JsonModel::Text(t)) => Ok(t),
        Some(_) => Err(mistyped_text(key)),
        None => Err(missing_text(key)),
    }
}

/// The identifier under `key`, which must be there and be the text of one.
pub open spec fn id_field(doc: JsonModel, key: Seq<char>) -> Result<u128, Seq<char>> {
    match text_field(doc, key) {
        Ok(t) => id_parsed(t),
        Err(why) => Err(why),
    }
}

/// The timestamp under `key`, which must be there and be the text of one.
pub open spec fn stamp_field(doc: JsonModel, key: Seq<char>) -> Result<Timestamp, Seq<char>> {
    match text_field(doc, key) {
        Ok(t) => Timestamp::read(t),
        Err(why) => Err(why),
    }
}

/// The record that a value stands for. The entries are looked at in the
/// order `id`, `name`, `folder_id`, `course_id`, `set_id`, `created_at`,
/// `last_used`, and the first that is missing or wrong decides the complaint.
/// Entries under other keys are passed over.
pub open spec fn record_of(doc: JsonModel) -> Result<SessionView, Seq<char>> {
    let id = id_field(doc, KEY_ID@);
    let name = text_field(doc, KEY_NAME@);
    let folder_id = id_field(doc, KEY_FOLDER@);
    let course_id = id_field(doc, KEY_COURSE@);
    let set_id = id_field(doc, KEY_SET@);
    let created_at = stamp_field(doc, KEY_CREATED@);
    let last_used = stamp_field(doc, KEY_USED@);
    if !(doc is Object) {
        Err(not_object_text())
    } else if id is Err {
        Err(id->Err_0)
    } else if name is Err {
        Err(name->Err_0)
    } else if folder_id is Err {
        Err(folder_id->Err_0)
    } else if course_id is Err {
        Err(course_id->Err_0)
    } else if set_id is Err {
        Err(set_id->Err_0)
    } else if created_at is Err {
        Err(created_at->Err_0)
    } else if last_used is Err {
        Err(last_used->Err_0)
    } else {
        Ok(
            SessionView {
                id: id->Ok_0,
                name: name->Ok_0,
                folder_id: folder_id->Ok_0,
                course_id: course_id->Ok_0,
                set_id: set_id->Ok_0,
                created_at: created_at->Ok_0,
                last_used: last_used->Ok_0,
            },
        )
    }
}

/// The records that the items of an array stand for, in order; the first
/// item that stands for none decides the complaint.
pub open spec fn records_of(items: Seq<JsonModel>) -> Result<Seq<SessionView>, Seq<char>>
    decreases items.len(),
{
    if items.len() == 0 {
        Ok(Seq::empty())
    } else {
        match records_of(items.drop_last()) {
            Ok(records) => match record_of(items.last()) {
                Ok(record) => Ok(records.push(record)),
                Err(why) => Err(why),
            },
            Err(why) => Err(why),
        }
    }
}

/// The records under `sessions`, which must be there and be an array.
pub open spec fn sessions_field(doc: JsonModel) -> Result<Seq<SessionView>, Seq<char>> {
    match lookup(doc, KEY_SESSIONS@) {
        Some(JsonModel::Array(items)) => records_of(items),
        Some(_) => Err(mistyped_text(KEY_SESSIONS@)),
        None => Err(missing_text(KEY_SESSIONS@)),
    }
}

/// The active identifier under `active_session_id`: none where the entry is
/// missing or `null`, else the entry must be the text of an identifier.
pub open spec fn active_field(doc: JsonModel) -> Result<Option<u128>, Seq<char>> {
    match lookup(doc, KEY_ACTIVE@) {
        Some(JsonModel::Text(t)) => match id_parsed(t) {
            Ok(id) => Ok(Some(id)),
            Err(why) => Err(why),
        },
        Some(JsonModel::Null) => Ok(None),
        Some(_) => Err(mistyped_text(KEY_ACTIVE@)),
        None => Ok(None),
    }
}

/// The store that a document stands for; `sessions` is looked at before
/// `active_session_id`.
pub open spec fn store_of(doc: JsonModel) -> Result<ManagerView, Seq<char>> {
    if !(doc is Object) {
        Err(not_object_text())
    } else {
        match sessions_field(doc) {
            Ok(sessions) => match active_field(doc) {
                Ok(active_session_id) => Ok(ManagerView { sessions, active_session_id }),
                Err(why) => Err(why),
            },
            Err(why) => Err(why),
        }
    }
}

/// The object that stands for a record.
pub open spec fn record_document(record: SessionView) -> JsonModel {
    JsonModel::Object(
        seq![
            (KEY_ID@, JsonModel::Text(id_text(record.id))),
            (KEY_NAME@, JsonModel::Text(record.name)),
            (KEY_FOLDER@, JsonModel::Text(id_text(record.folder_id))),
            (KEY_COURSE@, JsonModel::Text(id_text(record.course_id))),
            (KEY_SET@, JsonModel::Text(id_text(record.set_id))),
            (KEY_CREATED@, JsonModel::Text(record.created_at.text())),
            (KEY_USED@, JsonModel::Text(record.last_used.text())),
        ],
    )
}

/// The value that stands for the active identifier.
pub open spec fn active_document(active_session_id: Option<u128>) -> JsonModel {
    match active_session_id {
        Some(id) => JsonModel::Text(id_text(id)),
        None => JsonModel::Null,
    }
}

/// The document that stands for a store.
pub open spec fn document_of(store: ManagerView) -> JsonModel {
    JsonModel::Object(
        seq![
            (
                KEY_SESSIONS@,
                JsonModel::Array(store.sessions.map_values(|r: SessionView| record_document(r))),
            ),
            (KEY_ACTIVE@, active_document(store.active_session_id)),
        ],
    )
}

/// What a text stands for as a session file: the store of the document that
/// `serde_json` reads from it, or the first complaint on the way.
pub open spec fn store_read(text: Seq<char>) -> Result<ManagerView, Seq<char>> {
    match json_parsed(text) {
        Ok(doc) => store_of(doc),
        Err(why) => Err(why),
    }
}

/// The first entry under `key` is what `lookup` finds.
pub proof fn lemma_lookup(doc: JsonModel, key: Seq<char>, i: int)
    requires
        doc is Object,
        is_entry(doc->Object_0, key, i),
    ensures
        lookup(doc, key) == Some(doc->Object_0[i].1),
{
    let entries = doc->Object_0;
    let p = choose|p: int| is_entry(entries, key, p);
    if p < i {
        assert(entries[p].0 != key);
    } else if i < p {
        assert(entries[i].0 != key);
    }
}

/// Builds the complaint about `key` from its opening words.
fn complaint(opening: &str, key: &str) -> (why: String)
    ensures
        why@ == opening@ + key@ + "`"@,
{
    let mut why = opening.to_owned();
    why.append(key);
    why.append("`");
    why
}

/// The first entry under `key` in an object.
fn field<'a>(doc: &'a Json, key: &str) -> (r: Option<&'a Json>)
    ensures
        match r {
            Some(value) => lookup(doc@, key@) == Some(value@),
            None => lookup(doc@, key@) is None,
        },
{
    match doc {
        Json::Object(entries) => {
            proof {
                lemma_object_model(*entries);
            }
            let wanted = key.to_owned();
            let mut i: usize = 0;
            while i < entries.len()
                invariant
                    i <= entries.len(),
                    wanted@ == key@,
                    doc@ is Object,
                    doc@->Object_0.len() == entries@.len(),
                    forall|j: int|
                        0 <= j < entries@.len() ==> (#[trigger] doc@->Object_0[j]) == (
                            entries@[j].0@,
                            entries@[j].1@,
                        ),
                    forall|j: int| 0 <= j < i ==> (#[trigger] doc@->Object_0[j]).0 != key@,
                decreases entries.len() - i,
            {
                if entries[i].0 == wanted {
                    proof {
                        lemma_lookup(doc@, key@, i as int);
                    }
                    return Some(&entries[i].1);
                }
                i += 1;
            }
            None
        },
        _ => None,
    }
}

/// The text under `key`.
fn get_text<'a>(doc: &'a Json, key: &str) -> (r: Result<&'a String, String>)
    ensures
        match r {
            Ok(t) => text_field(doc@, key@) == Ok::<Seq<char>, Seq<char>>(t@),
            Err(why) => text_field(doc@, key@) == Err::<Seq<char>, Seq<char>>(why@),
        },
{
    match field(doc, key) {
        Some(Json::Text(t)) => Ok(t),
        Some(_) => Err(complaint("invalid type for field `", key)),
        None => Err(complaint("missing field `", key)),
    }
}

/// The identifier under `key`.
fn get_id(doc: &Json, key: &str) -> (r: Result<u128, String>)
    ensures
        match r {
            Ok(id) => id_field(doc@, key@) == Ok::<u128, Seq<char>>(id),
            Err(why) => id_field(doc@, key@) == Err::<u128, Seq<char>>(why@),
        },
{
    match get_text(doc, key) {
        Ok(t) => parse_id(t.as_str()),
        Err(why) => Err(why),
    }
}

/// The timestamp under `key`.
fn get_stamp(doc: &Json, key: &str) -> (r: Result<Timestamp, String>)
    ensures
        match r {
            Ok(at) => stamp_field(doc@, key@) == Ok::<Timestamp, Seq<char>>(at),
            Err(why) => stamp_field(doc@, key@) == Err::<Timestamp, Seq<char>>(why@),
        },
{
    match get_text(doc, key) {
        Ok(t) => Timestamp::parse(t.as_str()),
        Err(why) => Err(why),
    }
}

impl SessionState {
    /// Reads a record from the object that stands for it.
    pub fn from_document(doc: &Json) -> (r: Result<SessionState, String>)
        ensures
            match r {
                Ok(record) => record_of(doc@) == Ok::<SessionView, Seq<char>>(record@),
                Err(why) => record_of(doc@) == Err::<SessionView, Seq<char>>(why@),
            },
    {
        match doc {
            Json::Object(_) => {},
            _ => {
                return Err("expected a JSON object".to_owned());
            },
        }
        let id = match get_id(doc, KEY_ID) {
            Ok(id) => id,
            Err(why) => {
                return Err(why);
            },
        };
        let name = match get_text(doc, KEY_NAME) {
            Ok(name) => name.clone(),
            Err(why) => {
                return Err(why);
            },
        };
        let folder_id = match get_id(doc, KEY_FOLDER) {
            Ok(id) => id,
            Err(why) => {
                return Err(why);
            },
        };
        let course_id = match get_id(doc, KEY_COURSE) {
            Ok(id) => id,
            Err(why) => {
                return Err(why);
            },
        };
        let set_id = match get_id(doc, KEY_SET) {
            Ok(id) => id,
            Err(why) => {
                return Err(why);
            },
        };
        let created_at = match get_stamp(doc, KEY_CREATED) {
            Ok(at) => at,
            Err(why) => {
                return Err(why);
            },
        };
        let last_used = match get_stamp(doc, KEY_USED) {
            Ok(at) => at,
            Err(why) => {
                return Err(why);
            },
        };
        Ok(SessionState { id, name, folder_id, course_id, set_id, created_at, last_used })
    }

    /// The object that stands for the record.
    pub fn to_document(&self) -> (doc: Json)
        ensures
            doc@ == record_document(self@),
    {
        let mut entries: Vec<(String, Json)> = Vec::new();
        entries.push((KEY_ID.to_owned(), Json::Text(id_to_string(self.id))));
        entries.push((KEY_NAME.to_owned(), Json::Text(self.name.clone())));
        entries.push((KEY_FOLDER.to_owned(), Json::Text(id_to_string(self.folder_id))));
        entries.push((KEY_COURSE.to_owned(), Json::Text(id_to_string(self.course_id))));
        entries.push((KEY_SET.to_owned(), Json::Text(id_to_string(self.set_id))));
        entries.push((KEY_CREATED.to_owned(), Json::Text(self.created_at.to_text())));
        entries.push((KEY_USED.to_owned(), Json::Text(self.last_used.to_text())));
        proof {
            lemma_object_model(entries);
        }
        let doc = Json::Object(entries);
        assert(doc@->Object_0 =~= record_document(self@)->Object_0);
        doc
    }
}

impl SessionManager {
    /// Reads a store from the document that stands for it.
    pub fn from_document(doc: &Json) -> (r: Result<SessionManager, String>)
        ensures
            match r {
                Ok(store) => store_of(doc@) == Ok::<ManagerView, Seq<char>>(store@),
                Err(why) => store_of(doc@) == Err::<ManagerView, Seq<char>>(why@),
            },
    {
        match doc {
            Json::Object(_) => {},
            _ => {
                return Err("expected a JSON object".to_owned());
            },
        }
        let items = match field(doc, KEY_SESSIONS) {
            Some(Json::Array(items)) => items,
            Some(_) => {
                return Err(complaint("invalid type for field `", KEY_SESSIONS));
            },
            None => {
                return Err(complaint("missing field `", KEY_SESSIONS));
            },
        };
        let ghost models = lookup(doc@, KEY_SESSIONS@)->Some_0->Array_0;
        proof {
            lemma_array_model(*items);
            assert(models.take(0) =~= Seq::<JsonModel>::empty());
        }
        let mut sessions: Vec<SessionState> = Vec::new();
        assert(sessions@.map_values(|s: SessionState| s@) =~= Seq::<SessionView>::empty());
        let mut i: usize = 0;
        while i < items.len()
            invariant
                i <= items.len(),
                doc@ is Object,
                lookup(doc@, KEY_SESSIONS@) == Some(JsonModel::Array(models)),
                models.len() == items@.len(),
                forall|j: int| 0 <= j < items@.len() ==> (#[trigger] models[j]) == items@[j]@,
                records_of(models.take(i as int)) == Ok::<Seq<SessionView>, Seq<char>>(
                    sessions@.map_values(|s: SessionState| s@),
                ),
            decreases items.len() - i,
        {
            proof {
                assert(models.take(i + 1).drop_last() =~= models.take(i as int));
                assert(models.take(i + 1).last() == models[i as int]);
            }
            match SessionState::from_document(&items[i]) {
                Ok(record) => {
                    let ghost before = sessions@.map_values(|s: SessionState| s@);
                    sessions.push(record);
                    assert(sessions@.map_values(|s: SessionState| s@) =~= before.push(record@));
                },
                Err(why) => {
                    proof {
                        lemma_records_fail(models, i as int);
                    }
                    return Err(why);
                },
            }
            i += 1;
        }
        proof {
            assert(models.take(i as int) =~= models);
        }
        let active_session_id = match field(doc, KEY_ACTIVE) {
            Some(Json::Text(t)) => match parse_id(t.as_str()) {
                Ok(id) => Some(id),
                Err(why) => {
                    return Err(why);
                },
            },
            Some(Json::Null) => None,
            Some(_) => {
                return Err(complaint("invalid type for field `", KEY_ACTIVE));
            },
            None => None,
        };
        Ok(SessionManager { sessions, active_session_id })
    }

    /// The document that stands for the store.
    pub fn to_document(&self) -> (doc: Json)
        ensures
            doc@ == document_of(self@),
    {
        let mut items: Vec<Json> = Vec::new();
        let mut i: usize = 0;
        while i < self.sessions.len()
            invariant
                i <= self.sessions.len(),
                items@.len() == i,
                forall|j: int| 0 <= j < i ==> (#[trigger] items@[j])@ == record_document(
                    self.sessions@[j]@,
                ),
            decreases self.sessions.len() - i,
        {
            items.push(self.sessions[i].to_document());
            i += 1;
        }
        let active = match self.active_session_id {
            Some(id) => Json::Text(id_to_string(id)),
            None => Json::Null,
        };
        proof {
            lemma_array_model(items);
            let wanted = self@.sessions.map_values(|r: SessionView| record_document(r));
            assert(Json::Array(items)@->Array_0 =~= wanted);
        }
        let mut entries: Vec<(String, Json)> = Vec::new();
        entries.push((KEY_SESSIONS.to_owned(), Json::Array(items)));
        entries.push((KEY_ACTIVE.to_owned(), active));
        proof {
            lemma_object_model(entries);
        }
        let doc = Json::Object(entries);
        assert(doc@->Object_0 =~= document_of(self@)->Object_0);
        doc
    }

    /// The text of the session file for this store.
    pub fn to_json(&self) -> (text: String)
        ensures
            text@ == json_pretty(document_of(self@)),
    {
        self.to_document().to_pretty()
    }

    /// Reads a store from the text of a session file, or says why the text
    /// is none.
    pub fn from_json(text: &str) -> (r: Result<SessionManager, String>)
        ensures
            match r {
                Ok(store) => store_read(text@) == Ok::<ManagerView, Seq<char>>(store@),
                Err(why) => store_read(text@) == Err::<ManagerView, Seq<char>>(why@),
            },
    {
        match Json::parse(text) {
            Ok(doc) => SessionManager::from_document(&doc),
            Err(why) => Err(why),
        }
    }

    /// The store to work with after the session file was read from disk. A
    /// missing file is a first run and gives an empty store. A file that
    /// could not be read is an `IoError`. A file whose contents are no
    /// session document is `CorruptData`, never an empty store.
    pub fn load_from_file(read: FileRead) -> (r: Result<SessionManager, PersistenceError>)
        ensures
            match read {
                FileRead::Missing => r matches Ok(store) && store@ == ManagerView::empty(),
                FileRead::Failed(why) => r matches Err(PersistenceError::IoError(said)) && said@
                    == why@,
                FileRead::Contents(text) => match store_read(text@) {
                    Ok(held) => r matches Ok(store) && store@ == held,
                    Err(why) => r matches Err(PersistenceError::CorruptData(said)) && said@ == why,
                },
            },
    {
        match read {
            FileRead::Missing => Ok(SessionManager::new()),
            FileRead::Failed(why) => Err(PersistenceError::IoError(why)),
            FileRead::Contents(text) => match SessionManager::from_json(text.as_str()) {
                Ok(store) => Ok(store),
                Err(why) => Err(PersistenceError::CorruptData(why)),
            },
        }
    }
}

/// An array whose item at `i` stands for no record, while all items before
/// it stand for one, stands for no records, with that item's complaint.
proof fn lemma_records_fail(items: Seq<JsonModel>, i: int)
    requires
        0 <= i < items.len(),
        records_of(items.take(i)) is Ok,
        record_of(items[i]) is Err,
    ensures
        records_of(items) == Err::<Seq<SessionView>, Seq<char>>(record_of(items[i])->Err_0),
    decreases items.len() - i,
{
    assert(items.take(i + 1).drop_last() =~= items.take(i));
    assert(items.take(i + 1).last() == items[i]);
    lemma_records_fail_from(items, i + 1, record_of(items[i])->Err_0);
}

/// Once a front part of an array stands for no records, so does every
/// longer front part, with the same complaint.
proof fn lemma_records_fail_from(items: Seq<JsonModel>, n: int, why: Seq<char>)
    requires
        0 <= n <= items.len(),
        records_of(items.take(n)) == Err::<Seq<SessionView>, Seq<char>>(why),
    ensures
        records_of(items) == Err::<Seq<SessionView>, Seq<char>>(why),
    decreases items.len() - n,
{
    if n == items.len() {
        assert(items.take(n) =~= items);
    } else {
        assert(items.take(n + 1).drop_last() =~= items.take(n));
        lemma_records_fail_from(items, n + 1, why);
    }
}

/// Whether an identifier is read back from its own text as itself.
pub open spec fn id_reads_back(id: u128) -> bool {
    id_parsed(id_text(id)) == Ok::<u128, Seq<char>>(id)
}

/// Whether a timestamp is read back from its own text as itself.
pub open spec fn stamp_reads_back(at: Timestamp) -> bool {
    Timestamp::read(at.text()) == Ok::<Timestamp, Seq<char>>(at)
}

/// Whether every identifier and timestamp of a record is read back from its
/// own text as itself.
pub open spec fn reads_back(record: SessionView) -> bool {
    &&& id_reads_back(record.id)
    &&& id_reads_back(record.folder_id)
    &&& id_reads_back(record.course_id)
    &&& id_reads_back(record.set_id)
    &&& stamp_reads_back(record.created_at)
    &&& stamp_reads_back(record.last_used)
}

/// No two of the keys of the session file are the same text.
proof fn lemma_keys_differ()
    ensures
        KEY_SESSIONS@ != KEY_ACTIVE@,
        KEY_ID@.len() == 2,
        KEY_NAME@.len() == 4,
        KEY_SET@.len() == 6,
        KEY_CREATED@.len() == 10,
        KEY_FOLDER@.len() == 9 && KEY_FOLDER@[0] == 'f',
        KEY_COURSE@.len() == 9 && KEY_COURSE@[0] == 'c',
        KEY_USED@.len() == 9 && KEY_USED@[0] == 'l',
{
    reveal_strlit("sessions");
    reveal_strlit("active_session_id");
    reveal_strlit("id");
    reveal_strlit("name");
    reveal_strlit("folder_id");
    reveal_strlit("course_id");
    reveal_strlit("set_id");
    reveal_strlit("created_at");
    reveal_strlit("last_used");
    assert(KEY_SESSIONS@.len() == 8);
    assert(KEY_ACTIVE@.len() == 17);
}

/// The layout of a record loses nothing: the object that stands for a
/// record stands for that record again, provided that the record's
/// identifiers and timestamps are read back from their own texts.
pub proof fn lemma_record_reads_back(record: SessionView)
    requires
        reads_back(record),
    ensures
        record_of(record_document(record)) == Ok::<SessionView, Seq<char>>(record),
{
    let doc = record_document(record);
    lemma_keys_differ();
    lemma_lookup(doc, KEY_ID@, 0);
    lemma_lookup(doc, KEY_NAME@, 1);
    lemma_lookup(doc, KEY_FOLDER@, 2);
    lemma_lookup(doc, KEY_COURSE@, 3);
    lemma_lookup(doc, KEY_SET@, 4);
    lemma_lookup(doc, KEY_CREATED@, 5);
    lemma_lookup(doc, KEY_USED@, 6);
}

/// The same for a run of records in an array.
pub proof fn lemma_records_read_back(records: Seq<SessionView>)
    requires
        forall|i: int| 0 <= i < records.len() ==> reads_back(#[trigger] records[i]),
    ensures
        records_of(records.map_values(|r: SessionView| record_document(r))) == Ok::<
            Seq<SessionView>,
            Seq<char>,
        >(records),
    decreases records.len(),
{
    let items = records.map_values(|r: SessionView| record_document(r));
    if records.len() == 0 {
        assert(records =~= Seq::empty());
    } else {
        let front = records.drop_last();
        assert(items.drop_last() =~= front.map_values(|r: SessionView| record_document(r)));
        lemma_records_read_back(front);
        lemma_record_reads_back(records.last());
        assert(front.push(records.last()) =~= records);
    }
}

/// The layout of the session file loses nothing: the document that stands
/// for a store stands for that store again, provided that every identifier
/// and timestamp in the store is read back from its own text. Whether the
/// `uuid` and `chrono` crates read back what they print, and `serde_json`
/// the text it prints, is not stated here.
pub proof fn lemma_store_reads_back(store: ManagerView)
    requires
        forall|i: int| 0 <= i < store.sessions.len() ==> reads_back(#[trigger] store.sessions[i]),
        store.active_session_id matches Some(id) ==> id_reads_back(id),
    ensures
        store_of(document_of(store)) == Ok::<ManagerView, Seq<char>>(store),
{
    let doc = document_of(store);
    lemma_keys_differ();
    lemma_lookup(doc, KEY_SESSIONS@, 0);
    lemma_lookup(doc, KEY_ACTIVE@, 1);
    lemma_records_read_back(store.sessions);
}

/// The same for the text of the session file: the text that stands for a
/// store stands for that store again, provided that `serde_json` reads the
/// store's document back from its own text, and that every identifier and
/// timestamp in the store is read back from its own text.
pub proof fn lemma_file_reads_back(store: ManagerView)
    requires
        json_reads_back(document_of(store)),
        forall|i: int| 0 <= i < store.sessions.len() ==> reads_back(#[trigger] store.sessions[i]),
        store.active_session_id matches Some(id) ==> id_reads_back(id),
    ensures
        store_read(json_pretty(document_of(store))) == Ok::<ManagerView, Seq<char>>(store),
{
    lemma_store_reads_back(store);
}

} // verus!
