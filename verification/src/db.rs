//! The database: what is asked of it, and what its replies mean.
use vstd::prelude::*;
use crate::confidence::Confidence;
use crate::text::{because, reply_view, texts};

verus! {

/// A thing that was done with a file.
#[derive(Debug)]
pub struct FileEvent {
    pub id: String,
    pub path: String,
    pub detected_category: String,
    pub confidence: Confidence,
    pub action: String,
    pub timestamp: String,
}

/// A file that waits for the user's word.
#[derive(Debug)]
pub struct StagingItem {
    pub id: String,
    pub file_path: String,
    pub proposed_dest: String,
    pub confidence: Confidence,
    pub status: String,
    pub timestamp: String,
}

/// What was learned of the files that match a pattern.
#[derive(Debug)]
pub struct Rule {
    pub pattern: String,
    pub category: String,
    pub hits: i64,
}

/// The value of an event.
#[verifier::ext_equal]
pub struct EventView {
    pub id: Seq<char>,
    pub path: Seq<char>,
    pub detected_category: Seq<char>,
    pub confidence: Confidence,
    pub action: Seq<char>,
    pub timestamp: Seq<char>,
}

impl View for FileEvent {
    type V = EventView;

    open spec fn view(&self) -> EventView {
        EventView {
            id: self.id@,
            path: self.path@,
            detected_category: self.detected_category@,
            confidence: self.confidence,
            action: self.action@,
            timestamp: self.timestamp@,
        }
    }
}

/// The value of a rule.
#[verifier::ext_equal]
pub struct RuleView {
    pub pattern: Seq<char>,
    pub category: Seq<char>,
    pub hits: int,
}

impl View for Rule {
    type V = RuleView;

    open spec fn view(&self) -> RuleView {
        RuleView { pattern: self.pattern@, category: self.category@, hits: self.hits as int }
    }
}

/// The tables.
pub const SCHEMA: &'static str =
    "
                CREATE TABLE IF NOT EXISTS file_events (
                    id TEXT PRIMARY KEY,
                    path TEXT NOT NULL,
                    detected_category TEXT NOT NULL,
                    confidence REAL NOT NULL,
                    action TEXT NOT NULL,
                    timestamp TEXT NOT NULL
                );

                CREATE TABLE IF NOT EXISTS rules_cache (
                    pattern TEXT PRIMARY KEY,
                    category TEXT NOT NULL,
                    hits INTEGER DEFAULT 0
                );

                CREATE TABLE IF NOT EXISTS staging_queue (
                    id TEXT PRIMARY KEY,
                    file_path TEXT NOT NULL,
                    proposed_dest TEXT NOT NULL,
                    confidence REAL NOT NULL,
                    status TEXT NOT NULL,
                    timestamp TEXT NOT NULL
                );

                CREATE TABLE IF NOT EXISTS settings (
                    key TEXT PRIMARY KEY,
                    value TEXT NOT NULL
                );
                ";

/// The file that the database is kept in, below the application's data
/// directory.
pub const DATABASE_FILE: &'static str = "sortd.db";

pub const INSERT_EVENT: &'static str =
    "INSERT INTO file_events (id, path, detected_category, confidence, action, timestamp)
                 VALUES (?1, ?2, ?3, ?4, ?5, ?6)";

pub const INSERT_STAGING: &'static str =
    "INSERT INTO staging_queue (id, file_path, proposed_dest, confidence, status, timestamp)
                 VALUES (?1, ?2, ?3, ?4, 'pending', ?5)";

pub const SELECT_PENDING: &'static str =
    "SELECT id, file_path, proposed_dest, confidence, status, timestamp
                 FROM staging_queue WHERE status = 'pending'
                 ORDER BY timestamp DESC";

pub const UPDATE_STATUS: &'static str = "UPDATE staging_queue SET status = ?1 WHERE id = ?2";

pub const UPSERT_RULE: &'static str =
    "INSERT INTO rules_cache (pattern, category, hits) VALUES (?1, ?2, 0)
                 ON CONFLICT(pattern) DO UPDATE SET category = excluded.category";

pub const UPSERT_SETTING: &'static str =
    "INSERT INTO settings (key, value) VALUES (?1, ?2)
                 ON CONFLICT(key) DO UPDATE SET value = excluded.value";

pub const SELECT_SETTING: &'static str = "SELECT value FROM settings WHERE key = ?1";

pub const SELECT_HISTORY: &'static str =
    "SELECT id, path, detected_category, confidence, action, timestamp
                 FROM file_events
                 ORDER BY timestamp DESC
                 LIMIT ?1";

pub const SELECT_STAGING_ITEM: &'static str =
    "SELECT id, file_path, proposed_dest, confidence, status, timestamp
                 FROM staging_queue WHERE id = ?1";

pub const SELECT_LAST_AUTO_MOVE: &'static str =
    "SELECT id, path, detected_category, confidence, action, timestamp
                 FROM file_events
                 WHERE action LIKE 'auto-moved to%'
                 ORDER BY timestamp DESC
                 LIMIT 1";

pub const SELECT_EVENT: &'static str =
    "SELECT id, path, detected_category, confidence, action, timestamp
                 FROM file_events
                 WHERE id = ?1";

pub const UPDATE_ACTION: &'static str = "UPDATE file_events SET action = ?1 WHERE id = ?2";

pub const SELECT_RULES: &'static str =
    "SELECT pattern, category, hits FROM rules_cache ORDER BY hits DESC";

/// The setting that holds the watched folders.
pub const WATCHED_FOLDERS: &'static str = "watched_folders";

/// The statements that the database is given.
#[derive(Clone, Copy, Debug, PartialEq, Eq, Structural)]
pub enum Query {
    InsertEvent,
    InsertStaging,
    SelectPending,
    UpdateStatus,
    UpsertRule,
    UpsertSetting,
    SelectSetting,
    SelectHistory,
    SelectStagingItem,
    SelectLastAutoMove,
    SelectEvent,
    UpdateAction,
    SelectRules,
}

/// A statement in SQL.
pub open spec fn query_text(query: Query) -> Seq<char> {
    match query {
        Query::InsertEvent => INSERT_EVENT@,
        Query::InsertStaging => INSERT_STAGING@,
        Query::SelectPending => SELECT_PENDING@,
        Query::UpdateStatus => UPDATE_STATUS@,
        Query::UpsertRule => UPSERT_RULE@,
        Query::UpsertSetting => UPSERT_SETTING@,
        Query::SelectSetting => SELECT_SETTING@,
        Query::SelectHistory => SELECT_HISTORY@,
        Query::SelectStagingItem => SELECT_STAGING_ITEM@,
        Query::SelectLastAutoMove => SELECT_LAST_AUTO_MOVE@,
        Query::SelectEvent => SELECT_EVENT@,
        Query::UpdateAction => UPDATE_ACTION@,
        Query::SelectRules => SELECT_RULES@,
    }
}

impl Query {
    /// The statement in SQL.
    pub fn text(&self) -> (r: &'static str)
        ensures
            r@ == query_text(*self),
    {
        match self {
            Query::InsertEvent => INSERT_EVENT,
            Query::InsertStaging => INSERT_STAGING,
            Query::SelectPending => SELECT_PENDING,
            Query::UpdateStatus => UPDATE_STATUS,
            Query::UpsertRule => UPSERT_RULE,
            Query::UpsertSetting => UPSERT_SETTING,
            Query::SelectSetting => SELECT_SETTING,
            Query::SelectHistory => SELECT_HISTORY,
            Query::SelectStagingItem => SELECT_STAGING_ITEM,
            Query::SelectLastAutoMove => SELECT_LAST_AUTO_MOVE,
            Query::SelectEvent => SELECT_EVENT,
            Query::UpdateAction => UPDATE_ACTION,
            Query::SelectRules => SELECT_RULES,
        }
    }
}

/// The value of a statement's parameter.
pub enum SqlValue {
    Text(String),
    Real(Confidence),
    Integer(i64),
}

/// The value of a parameter.
#[verifier::ext_equal]
pub enum SqlView {
    Text(Seq<char>),
    Real(Confidence),
    Integer(int),
}

impl View for SqlValue {
    type V = SqlView;

    open spec fn view(&self) -> SqlView {
        match self {
            SqlValue::Text(t) => SqlView::Text(t@),
            SqlValue::Real(c) => SqlView::Real(*c),
            SqlValue::Integer(n) => SqlView::Integer(*n as int),
        }
    }
}

/// A statement to run, and the values of its parameters in their order.
pub struct Statement {
    pub query: Query,
    pub params: Vec<SqlValue>,
}

/// The value of a statement.
#[verifier::ext_equal]
pub struct StatementView {
    pub query: Query,
    pub params: Seq<SqlView>,
}

impl View for Statement {
    type V = StatementView;

    open spec fn view(&self) -> StatementView {
        StatementView { query: self.query, params: self.params@.map_values(|v: SqlValue| v@) }
    }
}

/// A statement that adds a row, and the new row's id.
pub struct Insertion {
    pub id: String,
    pub statement: Statement,
}

/// What came of reading rows.
pub enum RowsReply<T> {
    PrepareFailed(String),
    QueryFailed(String),
    CollectFailed(String),
    Rows(Vec<T>),
}

/// What came of reading one row. Where there was none, or reading failed, the
/// database's message.
pub enum RowReply<T> {
    NoRow(String),
    Failed(String),
    Row(T),
}

/// The statement that adds an event.
pub open spec fn insert_event(
    id: Seq<char>,
    path: Seq<char>,
    category: Seq<char>,
    confidence: Confidence,
    action: Seq<char>,
    timestamp: Seq<char>,
) -> StatementView {
    StatementView {
        query: Query::InsertEvent,
        params: seq![
            SqlView::Text(id),
            SqlView::Text(path),
            SqlView::Text(category),
            SqlView::Real(confidence),
            SqlView::Text(action),
            SqlView::Text(timestamp),
        ],
    }
}

/// The statement that adds a waiting file.
pub open spec fn insert_staging(
    id: Seq<char>,
    file_path: Seq<char>,
    proposed_dest: Seq<char>,
    confidence: Confidence,
    timestamp: Seq<char>,
) -> StatementView {
    StatementView {
        query: Query::InsertStaging,
        params: seq![
            SqlView::Text(id),
            SqlView::Text(file_path),
            SqlView::Text(proposed_dest),
            SqlView::Real(confidence),
            SqlView::Text(timestamp),
        ],
    }
}

/// A statement with two texts as parameters.
pub open spec fn statement_of_two(query: Query, a: Seq<char>, b: Seq<char>) -> StatementView {
    StatementView { query, params: seq![SqlView::Text(a), SqlView::Text(b)] }
}

/// A statement with one text as parameter.
pub open spec fn statement_of_one(query: Query, a: Seq<char>) -> StatementView {
    StatementView { query, params: seq![SqlView::Text(a)] }
}

/// A statement without parameters.
pub open spec fn statement_of_none(query: Query) -> StatementView {
    StatementView { query, params: Seq::empty() }
}

/// Whether a character is a hexadecimal digit in small letters.
pub open spec fn hex_digit(c: char) -> bool {
    '0' <= c <= '9' || 'a' <= c <= 'f'
}

/// Whether a text is a random UUID: five groups of hexadecimal digits with
/// hyphens between, of version 4 and of the standard variant.
pub open spec fn random_uuid(id: Seq<char>) -> bool {
    &&& id.len() == 36
    &&& id[8] == '-' && id[13] == '-' && id[18] == '-' && id[23] == '-'
    &&& id[14] == '4'
    &&& id[19] == '8' || id[19] == '9' || id[19] == 'a' || id[19] == 'b'
    &&& forall|i: int|
        0 <= i < 36 && i != 8 && i != 13 && i != 18 && i != 23 ==> hex_digit(#[trigger] id[i])
}

/// Whether a text can be a time in RFC 3339 notation with the offset of UTC.
pub open spec fn utc_timestamp(t: Seq<char>) -> bool {
    t.len() >= 25 && t.skip(t.len() - 6) == seq!['+', '0', '0', ':', '0', '0']
}

/// `Uuid::new_v4`, formatted. Claimed of it: every result has the form of a
/// random UUID. Which one it is rests on chance.
#[verifier::external_body]
fn new_id() -> (r: String)
    ensures
        random_uuid(r@),
{
    uuid::Uuid::new_v4().to_string()
}

/// `Utc::now`, formatted by `to_rfc3339`. Claimed of it: every result has the
/// offset of UTC and at least a date and a time of day before it. Which one it
/// is rests on the clock.
#[verifier::external_body]
fn current_timestamp() -> (r: String)
    ensures
        utc_timestamp(r@),
{
    chrono::Utc::now().to_rfc3339()
}

/// What `serde_json::from_str` gives for a text that is to hold a list of
/// strings: the list, or its message.
pub uninterp spec fn string_list_of(json: Seq<char>) -> Result<Seq<Seq<char>>, Seq<char>>;

/// What `serde_json::to_string` gives for a list of strings.
pub uninterp spec fn string_list_json(list: Seq<Seq<char>>) -> Seq<char>;

/// The value of a list of strings or of a message.
pub open spec fn list_view(r: Result<Vec<String>, String>) -> Result<Seq<Seq<char>>, Seq<char>> {
    match r {
        Ok(list) => Ok(texts(list@)),
        Err(e) => Err(e@),
    }
}

/// `serde_json::from_str` for a list of strings, the error as its message.
/// Claimed of it: the result depends on the text alone.
#[verifier::external_body]
fn parse_string_list(json: &str) -> (r: Result<Vec<String>, String>)
    ensures
        list_view(r) == string_list_of(json@),
{
    serde_json::from_str::<Vec<String>>(json).map_err(|e| e.to_string())
}

/// `serde_json::to_string` for a list of strings, the error as its message.
/// Claimed of it: it succeeds, the result depends on the list alone, and
/// `serde_json::from_str` reads the list back from it.
#[verifier::external_body]
fn write_string_list(list: &Vec<String>) -> (r: Result<String, String>)
    ensures
        r is Ok,
        r matches Ok(json) ==> json@ == string_list_json(texts(list@)),
        r matches Ok(json) ==> string_list_of(json@) is Ok,
        r matches Ok(json) ==> string_list_of(json@)->Ok_0 == texts(list@),
{
    serde_json::to_string(list).map_err(|e| e.to_string())
}

/// A statement with two texts as parameters.
fn two_texts(query: Query, a: &str, b: &str) -> (r: Statement)
    ensures
        r@ == statement_of_two(query, a@, b@),
{
    let mut params: Vec<SqlValue> = Vec::new();
    params.push(SqlValue::Text(a.to_owned()));
    params.push(SqlValue::Text(b.to_owned()));
    let r = Statement { query, params };
    proof {
        assert(r@.params =~= statement_of_two(query, a@, b@).params);
    }
    r
}

/// A statement with one text as parameter.
fn one_text(query: Query, a: &str) -> (r: Statement)
    ensures
        r@ == statement_of_one(query, a@),
{
    let mut params: Vec<SqlValue> = Vec::new();
    params.push(SqlValue::Text(a.to_owned()));
    let r = Statement { query, params };
    proof {
        assert(r@.params =~= statement_of_one(query, a@).params);
    }
    r
}

/// A statement without parameters.
fn no_params(query: Query) -> (r: Statement)
    ensures
        r@ == statement_of_none(query),
{
    let r = Statement { query, params: Vec::new() };
    proof {
        assert(r@.params =~= Seq::<SqlView>::empty());
    }
    r
}

/// A message that names a thing, and what caused it.
fn because_of(what: &str, thing: &str, then: &str, cause: &str) -> (r: String)
    ensures
        r@ == what@ + thing@ + then@ + cause@,
{
    because(what, thing).concat(then).concat(cause)
}

/// What is to be done next to open the database.
pub enum OpenStep {
    /// Create the application's data directory.
    CreateDir,
    /// Open the file of this name in it.
    Open { file: &'static str },
    /// Run this batch of statements.
    InitTables { batch: &'static str },
    /// Nothing: this is the result.
    Done { result: Result<(), String> },
}

/// The value of a step.
#[verifier::ext_equal]
pub enum OpenView {
    CreateDir,
    Open { file: Seq<char> },
    InitTables { batch: Seq<char> },
    Done { result: Result<(), Seq<char>> },
}

impl View for OpenStep {
    type V = OpenView;

    open spec fn view(&self) -> OpenView {
        match self {
            OpenStep::CreateDir => OpenView::CreateDir,
            OpenStep::Open { file } => OpenView::Open { file: file@ },
            OpenStep::InitTables { batch } => OpenView::InitTables { batch: batch@ },
            OpenStep::Done { result } => OpenView::Done { result: reply_view(*result) },
        }
    }
}

/// The step that follows `step` after `reply`.
pub open spec fn open_after(step: OpenView, reply: Result<(), Seq<char>>) -> OpenView {
    match (step, reply) {
        (OpenView::CreateDir, Ok(_)) => OpenView::Open { file: DATABASE_FILE@ },
        (OpenView::CreateDir, Err(e)) => OpenView::Done {
            result: Err("Failed to create app data dir: "@ + e),
        },
        (OpenView::Open { .. }, Ok(_)) => OpenView::InitTables { batch: SCHEMA@ },
        (OpenView::Open { .. }, Err(e)) => OpenView::Done {
            result: Err("Failed to open database: "@ + e),
        },
        (OpenView::InitTables { .. }, Ok(_)) => OpenView::Done { result: Ok(()) },
        (OpenView::InitTables { .. }, Err(e)) => OpenView::Done {
            result: Err("Failed to initialize tables: "@ + e),
        },
        (OpenView::Done { .. }, _) => step,
    }
}

/// The value of a text or of a message.
pub open spec fn text_view(r: Result<String, String>) -> Result<Seq<char>, Seq<char>> {
    match r {
        Ok(t) => Ok(t@),
        Err(e) => Err(e@),
    }
}

/// What a reply to an insertion means: the id of the new row.
pub open spec fn inserted(
    id: Seq<char>,
    reply: Result<usize, String>,
    message: Seq<char>,
) -> Result<Seq<char>, Seq<char>> {
    match reply {
        Ok(_) => Ok(id),
        Err(e) => Err(message + e@),
    }
}

/// What a reply to a change by id means: an error where there was no such row.
pub open spec fn changed(
    id: Seq<char>,
    reply: Result<usize, String>,
    failure: Seq<char>,
    missing: Seq<char>,
) -> Result<(), Seq<char>> {
    match reply {
        Err(e) => Err(failure + e@),
        Ok(0) => Err(missing + id),
        Ok(_) => Ok(()),
    }
}

/// What rows that were read mean, with a message for each way to fail.
pub open spec fn rows_mean<T>(
    reply: RowsReply<T>,
    r: Result<Vec<T>, String>,
    prepare: Seq<char>,
    query: Seq<char>,
    collect: Seq<char>,
) -> bool {
    match reply {
        RowsReply::Rows(rows) => r == Ok::<Vec<T>, String>(rows),
        RowsReply::PrepareFailed(e) => r matches Err(m) && m@ == prepare + e@,
        RowsReply::QueryFailed(e) => r matches Err(m) && m@ == query + e@,
        RowsReply::CollectFailed(e) => r matches Err(m) && m@ == collect + e@,
    }
}

/// What one row that was asked for means: an error where there was none.
pub open spec fn row_means<T>(
    reply: RowReply<T>,
    r: Result<T, String>,
    message: Seq<char>,
) -> bool {
    match reply {
        RowReply::Row(row) => r == Ok::<T, String>(row),
        RowReply::NoRow(e) => r matches Err(m) && m@ == message + e@,
        RowReply::Failed(e) => r matches Err(m) && m@ == message + e@,
    }
}

/// The message for a row that was not found by its id.
pub open spec fn not_found(what: Seq<char>, id: Seq<char>) -> Seq<char> {
    what + id + "' not found: "@
}

/// What a setting that was asked for means: nothing where it was never saved.
pub open spec fn setting_of(key: Seq<char>, reply: RowReply<String>) -> Result<
    Option<Seq<char>>,
    Seq<char>,
> {
    match reply {
        RowReply::Row(value) => Ok(Some(value@)),
        RowReply::NoRow(_) => Ok(None),
        RowReply::Failed(e) => Err("Failed to get setting '"@ + key + "': "@ + e@),
    }
}

/// The value of an optional text or of a message.
pub open spec fn optional_text_view(r: Result<Option<String>, String>) -> Result<
    Option<Seq<char>>,
    Seq<char>,
> {
    match r {
        Ok(Some(t)) => Ok(Some(t@)),
        Ok(None) => Ok(None),
        Err(e) => Err(e@),
    }
}

/// The folders that a setting lists: none where it was never saved.
pub open spec fn folders_of(setting: Result<Option<Seq<char>>, Seq<char>>) -> Result<
    Seq<Seq<char>>,
    Seq<char>,
> {
    match setting {
        Err(e) => Err(e),
        Ok(None) => Ok(Seq::empty()),
        Ok(Some(json)) => match string_list_of(json) {
            Ok(list) => Ok(list),
            Err(e) => Err("Failed to parse watched_folders: "@ + e),
        },
    }
}

/// Rows that were read, with a message for each way to fail.
fn read_rows<T>(reply: RowsReply<T>, prepare: &str, query: &str, collect: &str) -> (r: Result<
    Vec<T>,
    String,
>)
    ensures
        rows_mean(reply, r, prepare@, query@, collect@),
{
    match reply {
        RowsReply::Rows(rows) => Ok(rows),
        RowsReply::PrepareFailed(e) => Err(because(prepare, e.as_str())),
        RowsReply::QueryFailed(e) => Err(because(query, e.as_str())),
        RowsReply::CollectFailed(e) => Err(because(collect, e.as_str())),
    }
}

/// One row that was asked for, or an error where there was none.
fn read_row<T>(reply: RowReply<T>, message: &str) -> (r: Result<T, String>)
    ensures
        row_means(reply, r, message@),
{
    match reply {
        RowReply::Row(row) => Ok(row),
        RowReply::NoRow(e) => Err(because(message, e.as_str())),
        RowReply::Failed(e) => Err(because(message, e.as_str())),
    }
}

/// The operations of the database. None of them runs a statement: each gives
/// the statement to run, and beside it stands what the reply to it means.
pub struct Database {}

impl Database {
    /// Opens the database, from `CreateDir` on: the step that follows `step`
    /// after `reply`.
    pub fn new(step: OpenStep, reply: Result<(), String>) -> (r: OpenStep)
        ensures
            r@ == open_after(step@, reply_view(reply)),
    {
        match (step, reply) {
            (OpenStep::CreateDir, Ok(_)) => OpenStep::Open { file: DATABASE_FILE },
            (OpenStep::CreateDir, Err(e)) => OpenStep::Done {
                result: Err(because("Failed to create app data dir: ", e.as_str())),
            },
            (OpenStep::Open { file: _ }, Ok(_)) => OpenStep::InitTables { batch: SCHEMA },
            (OpenStep::Open { file: _ }, Err(e)) => OpenStep::Done {
                result: Err(because("Failed to open database: ", e.as_str())),
            },
            (OpenStep::InitTables { batch: _ }, Ok(_)) => OpenStep::Done { result: Ok(()) },
            (OpenStep::InitTables { batch: _ }, Err(e)) => OpenStep::Done {
                result: Err(because("Failed to initialize tables: ", e.as_str())),
            },
            (OpenStep::Done { result }, _) => OpenStep::Done { result },
        }
    }

    /// Records that `action` was done with a file, under a new id and at the
    /// present time.
    pub fn log_event(
        path: &str,
        detected_category: &str,
        confidence: Confidence,
        action: &str,
    ) -> (r: Insertion)
        ensures
            random_uuid(r.id@),
            exists|timestamp: Seq<char>|
                utc_timestamp(timestamp) && r.statement@ == #[trigger] insert_event(
                    r.id@,
                    path@,
                    detected_category@,
                    confidence,
                    action@,
                    timestamp,
                ),
    {
        let id: String = new_id();
        let timestamp: String = current_timestamp();
        let statement: Statement = Database::log_event_at(
            id.as_str(),
            timestamp.as_str(),
            path,
            detected_category,
            confidence,
            action,
        );
        let r = Insertion { id, statement };
        proof {
            assert(utc_timestamp(timestamp@) && r.statement@ == insert_event(
                r.id@,
                path@,
                detected_category@,
                confidence,
                action@,
                timestamp@,
            ));
        }
        r
    }

    /// Records that `action` was done with a file, under a given id and time.
    pub fn log_event_at(
        id: &str,
        timestamp: &str,
        path: &str,
        detected_category: &str,
        confidence: Confidence,
        action: &str,
    ) -> (r: Statement)
        ensures
            r@ == insert_event(
                id@,
                path@,
                detected_category@,
                confidence,
                action@,
                timestamp@,
            ),
    {
        let mut params: Vec<SqlValue> = Vec::new();
        params.push(SqlValue::Text(id.to_owned()));
        params.push(SqlValue::Text(path.to_owned()));
        params.push(SqlValue::Text(detected_category.to_owned()));
        params.push(SqlValue::Real(confidence));
        params.push(SqlValue::Text(action.to_owned()));
        params.push(SqlValue::Text(timestamp.to_owned()));
        let r = Statement { query: Query::InsertEvent, params };
        proof {
            assert(r@.params =~= insert_event(
                id@,
                path@,
                detected_category@,
                confidence,
                action@,
                timestamp@,
            ).params);
        }
        r
    }

    /// The id of the recorded event.
    pub fn log_event_reply(id: String, reply: Result<usize, String>) -> (r: Result<String, String>)
        ensures
            text_view(r) == inserted(id@, reply, "Failed to log event: "@),
    {
        match reply {
            Ok(_) => Ok(id),
            Err(e) => Err(because("Failed to log event: ", e.as_str())),
        }
    }

    /// Puts a file into the queue, under a new id and at the present time.
    pub fn add_to_staging(file_path: &str, proposed_dest: &str, confidence: Confidence) -> (r:
        Insertion)
        ensures
            random_uuid(r.id@),
            exists|timestamp: Seq<char>|
                utc_timestamp(timestamp) && r.statement@ == #[trigger] insert_staging(
                    r.id@,
                    file_path@,
                    proposed_dest@,
                    confidence,
                    timestamp,
                ),
    {
        let id: String = new_id();
        let timestamp: String = current_timestamp();
        let statement: Statement = Database::add_to_staging_at(
            id.as_str(),
            timestamp.as_str(),
            file_path,
            proposed_dest,
            confidence,
        );
        let r = Insertion { id, statement };
        proof {
            assert(utc_timestamp(timestamp@) && r.statement@ == insert_staging(
                r.id@,
                file_path@,
                proposed_dest@,
                confidence,
                timestamp@,
            ));
        }
        r
    }

    /// Puts a file into the queue, under a given id and time.
    pub fn add_to_staging_at(
        id: &str,
        timestamp: &str,
        file_path: &str,
        proposed_dest: &str,
        confidence: Confidence,
    ) -> (r: Statement)
        ensures
            r@ == insert_staging(id@, file_path@, proposed_dest@, confidence, timestamp@),
    {
        let mut params: Vec<SqlValue> = Vec::new();
        params.push(SqlValue::Text(id.to_owned()));
        params.push(SqlValue::Text(file_path.to_owned()));
        params.push(SqlValue::Text(proposed_dest.to_owned()));
        params.push(SqlValue::Real(confidence));
        params.push(SqlValue::Text(timestamp.to_owned()));
        let r = Statement { query: Query::InsertStaging, params };
        proof {
            assert(r@.params =~= insert_staging(
                id@,
                file_path@,
                proposed_dest@,
                confidence,
                timestamp@,
            ).params);
        }
        r
    }

    /// The id of the file in the queue.
    pub fn add_to_staging_reply(id: String, reply: Result<usize, String>) -> (r: Result<
        String,
        String,
    >)
        ensures
            text_view(r) == inserted(id@, reply, "Failed to add to staging: "@),
    {
        match reply {
            Ok(_) => Ok(id),
            Err(e) => Err(because("Failed to add to staging: ", e.as_str())),
        }
    }

    /// Asks for the files that wait, the newest first.
    pub fn get_staging_queue() -> (r: Statement)
        ensures
            r@ == statement_of_none(Query::SelectPending),
    {
        no_params(Query::SelectPending)
    }

    /// The files that wait.
    pub fn get_staging_queue_reply(reply: RowsReply<StagingItem>) -> (r: Result<
        Vec<StagingItem>,
        String,
    >)
        ensures
            rows_mean(
                reply,
                r,
                "Failed to prepare staging query: "@,
                "Failed to query staging queue: "@,
                "Failed to collect staging items: "@,
            ),
    {
        read_rows(
            reply,
            "Failed to prepare staging query: ",
            "Failed to query staging queue: ",
            "Failed to collect staging items: ",
        )
    }

    /// Sets the status of a file in the queue.
    pub fn update_staging_status(id: &str, status: &str) -> (r: Statement)
        ensures
            r@ == statement_of_two(Query::UpdateStatus, status@, id@),
    {
        two_texts(Query::UpdateStatus, status, id)
    }

    /// An error where no file of that id is in the queue.
    pub fn update_staging_status_reply(id: &str, reply: Result<usize, String>) -> (r: Result<
        (),
        String,
    >)
        ensures
            reply_view(r) == changed(
                id@,
                reply,
                "Failed to update staging status: "@,
                "No staging item found with id: "@,
            ),
    {
        match reply {
            Err(e) => Err(because("Failed to update staging status: ", e.as_str())),
            Ok(rows) => if rows == 0 {
                Err(because("No staging item found with id: ", id))
            } else {
                Ok(())
            },
        }
    }

    /// Records the category of the files that match a pattern. A rule of that
    /// pattern keeps its hits.
    pub fn add_rule(pattern: &str, category: &str) -> (r: Statement)
        ensures
            r@ == statement_of_two(Query::UpsertRule, pattern@, category@),
    {
        two_texts(Query::UpsertRule, pattern, category)
    }

    /// Whether the rule was recorded.
    pub fn add_rule_reply(reply: Result<usize, String>) -> (r: Result<(), String>)
        ensures
            reply_view(r) == (match reply {
                Ok(_) => Ok(()),
                Err(e) => Err("Failed to add rule: "@ + e@),
            }),
    {
        match reply {
            Ok(_) => Ok(()),
            Err(e) => Err(because("Failed to add rule: ", e.as_str())),
        }
    }

    /// Saves a setting, in place of an earlier value.
    pub fn save_setting(key: &str, value: &str) -> (r: Statement)
        ensures
            r@ == statement_of_two(Query::UpsertSetting, key@, value@),
    {
        two_texts(Query::UpsertSetting, key, value)
    }

    /// Whether the setting was saved.
    pub fn save_setting_reply(key: &str, reply: Result<usize, String>) -> (r: Result<(), String>)
        ensures
            reply_view(r) == (match reply {
                Ok(_) => Ok(()),
                Err(e) => Err("Failed to save setting '"@ + key@ + "': "@ + e@),
            }),
    {
        match reply {
            Ok(_) => Ok(()),
            Err(e) => Err(because_of("Failed to save setting '", key, "': ", e.as_str())),
        }
    }

    /// Asks for a setting.
    pub fn get_setting(key: &str) -> (r: Statement)
        ensures
            r@ == statement_of_one(Query::SelectSetting, key@),
    {
        one_text(Query::SelectSetting, key)
    }

    /// The setting, or nothing where it was never saved.
    pub fn get_setting_reply(key: &str, reply: RowReply<String>) -> (r: Result<
        Option<String>,
        String,
    >)
        ensures
            optional_text_view(r) == setting_of(key@, reply),
    {
        match reply {
            RowReply::Row(value) => Ok(Some(value)),
            RowReply::NoRow(_) => Ok(None),
            RowReply::Failed(e) => Err(
                because_of("Failed to get setting '", key, "': ", e.as_str()),
            ),
        }
    }

    /// Asks for the watched folders.
    pub fn get_watched_folders() -> (r: Statement)
        ensures
            r@ == statement_of_one(Query::SelectSetting, WATCHED_FOLDERS@),
    {
        Database::get_setting(WATCHED_FOLDERS)
    }

    /// The watched folders; none where they were never saved.
    pub fn get_watched_folders_reply(reply: RowReply<String>) -> (r: Result<Vec<String>, String>)
        ensures
            list_view(r) == folders_of(setting_of(WATCHED_FOLDERS@, reply)),
    {
        match Database::get_setting_reply(WATCHED_FOLDERS, reply) {
            Err(e) => Err(e),
            Ok(None) => {
                let none: Vec<String> = Vec::new();
                proof {
                    assert(texts(none@) =~= Seq::<Seq<char>>::empty());
                }
                Ok(none)
            },
            Ok(Some(json)) => match parse_string_list(json.as_str()) {
                Ok(list) => Ok(list),
                Err(e) => Err(because("Failed to parse watched_folders: ", e.as_str())),
            },
        }
    }

    /// Saves the watched folders. From the setting that is saved, once the
    /// database gives it back, the same folders are read.
    pub fn save_watched_folders(folders: &Vec<String>) -> (r: Result<Statement, String>)
        ensures
            r is Ok,
            r matches Ok(s) ==> s@ == statement_of_two(
                Query::UpsertSetting,
                WATCHED_FOLDERS@,
                string_list_json(texts(folders@)),
            ),
            forall|value: String|
                value@ == string_list_json(texts(folders@)) ==> folders_of(
                    #[trigger] setting_of(WATCHED_FOLDERS@, RowReply::Row(value)),
                ) == Ok::<Seq<Seq<char>>, Seq<char>>(texts(folders@)),
    {
        match write_string_list(folders) {
            Ok(json) => Ok(Database::save_setting(WATCHED_FOLDERS, json.as_str())),
            Err(e) => Err(because("Failed to serialize watched_folders: ", e.as_str())),
        }
    }

    /// Asks for the latest events, the newest first.
    pub fn get_history(limit: usize) -> (r: Statement)
        ensures
            r@ == (StatementView {
                query: Query::SelectHistory,
                params: seq![SqlView::Integer((limit as i64) as int)],
            }),
    {
        let mut params: Vec<SqlValue> = Vec::new();
        params.push(SqlValue::Integer(limit as i64));
        let r = Statement { query: Query::SelectHistory, params };
        proof {
            assert(r@.params =~= seq![SqlView::Integer((limit as i64) as int)]);
        }
        r
    }

    /// The latest events.
    pub fn get_history_reply(reply: RowsReply<FileEvent>) -> (r: Result<Vec<FileEvent>, String>)
        ensures
            rows_mean(
                reply,
                r,
                "Failed to prepare history query: "@,
                "Failed to query history: "@,
                "Failed to collect history: "@,
            ),
    {
        read_rows(
            reply,
            "Failed to prepare history query: ",
            "Failed to query history: ",
            "Failed to collect history: ",
        )
    }

    /// Asks for the file of that id in the queue, whatever its status.
    pub fn get_staging_item(id: &str) -> (r: Statement)
        ensures
            r@ == statement_of_one(Query::SelectStagingItem, id@),
    {
        one_text(Query::SelectStagingItem, id)
    }

    /// The file of that id in the queue.
    pub fn get_staging_item_reply(id: &str, reply: RowReply<StagingItem>) -> (r: Result<
        StagingItem,
        String,
    >)
        ensures
            row_means(reply, r, not_found("Staging item '"@, id@)),
    {
        let message: String = because("Staging item '", id).concat("' not found: ");
        read_row(reply, message.as_str())
    }

    /// Asks for the latest move that was made without asking.
    pub fn get_last_auto_move() -> (r: Statement)
        ensures
            r@ == statement_of_none(Query::SelectLastAutoMove),
    {
        no_params(Query::SelectLastAutoMove)
    }

    /// The latest move that was made without asking.
    pub fn get_last_auto_move_reply(reply: RowReply<FileEvent>) -> (r: Result<FileEvent, String>)
        ensures
            row_means(reply, r, "No auto-moved file found: "@),
    {
        read_row(reply, "No auto-moved file found: ")
    }

    /// Asks for the event of that id.
    pub fn get_file_event(id: &str) -> (r: Statement)
        ensures
            r@ == statement_of_one(Query::SelectEvent, id@),
    {
        one_text(Query::SelectEvent, id)
    }

    /// The event of that id.
    pub fn get_file_event_reply(id: &str, reply: RowReply<FileEvent>) -> (r: Result<
        FileEvent,
        String,
    >)
        ensures
            row_means(reply, r, not_found("File event '"@, id@)),
    {
        let message: String = because("File event '", id).concat("' not found: ");
        read_row(reply, message.as_str())
    }

    /// Sets what was done with a file.
    pub fn update_event_action(id: &str, action: &str) -> (r: Statement)
        ensures
            r@ == statement_of_two(Query::UpdateAction, action@, id@),
    {
        two_texts(Query::UpdateAction, action, id)
    }

    /// An error where there is no event of that id.
    pub fn update_event_action_reply(id: &str, reply: Result<usize, String>) -> (r: Result<
        (),
        String,
    >)
        ensures
            reply_view(r) == changed(
                id@,
                reply,
                "Failed to update event action: "@,
                "No file_event found with id: "@,
            ),
    {
        match reply {
            Err(e) => Err(because("Failed to update event action: ", e.as_str())),
            Ok(rows) => if rows == 0 {
                Err(because("No file_event found with id: ", id))
            } else {
                Ok(())
            },
        }
    }

    /// Asks for the rules, those with the most hits first.
    pub fn get_rules() -> (r: Statement)
        ensures
            r@ == statement_of_none(Query::SelectRules),
    {
        no_params(Query::SelectRules)
    }

    /// The rules.
    pub fn get_rules_reply(reply: RowsReply<Rule>) -> (r: Result<Vec<Rule>, String>)
        ensures
            rows_mean(
                reply,
                r,
                "Failed to prepare rules query: "@,
                "Failed to query rules: "@,
                "Failed to collect rules: "@,
            ),
    {
        read_rows(
            reply,
            "Failed to prepare rules query: ",
            "Failed to query rules: ",
            "Failed to collect rules: ",
        )
    }
}

// Laws

/// The step reached after the database was asked to open and some replies.
pub open spec fn open_run(replies: Seq<Result<(), Seq<char>>>) -> OpenView
    decreases replies.len(),
{
    if replies.len() == 0 {
        OpenView::CreateDir
    } else {
        open_after(open_run(replies.drop_last()), replies.last())
    }
}

/// Opening is over after three replies. It succeeds exactly where the
/// directory can be created, the file opened and the tables initialized; else
/// the result is the first error, with what it was about.
pub proof fn law_open_outcome(replies: Seq<Result<(), Seq<char>>>)
    requires
        replies.len() == 3,
    ensures
        open_run(replies) == (OpenView::Done {
            result: match (replies[0], replies[1], replies[2]) {
                (Err(e), _, _) => Err("Failed to create app data dir: "@ + e),
                (_, Err(e), _) => Err("Failed to open database: "@ + e),
                (_, _, Err(e)) => Err("Failed to initialize tables: "@ + e),
                _ => Ok(()),
            },
        }),
{
    reveal_with_fuel(open_run, 4);
    assert(replies.drop_last().last() == replies[1]);
    assert(replies.drop_last().drop_last().last() == replies[0]);
    assert(replies.drop_last().drop_last().drop_last().len() == 0);
}

/// The statements in SQL: each names its table, its columns and its parameters
/// in their order.
pub proof fn law_statements_in_sql(query: Query, r: &'static str)
    requires
        call_ensures(Query::text, (&query,), r),
    ensures
        query is InsertEvent ==> r@ == "INSERT INTO file_events (id, path, detected_category, confidence, action, timestamp)
                 VALUES (?1, ?2, ?3, ?4, ?5, ?6)"@,
        query is InsertStaging ==> r@ == "INSERT INTO staging_queue (id, file_path, proposed_dest, confidence, status, timestamp)
                 VALUES (?1, ?2, ?3, ?4, 'pending', ?5)"@,
        query is SelectPending ==> r@ == "SELECT id, file_path, proposed_dest, confidence, status, timestamp
                 FROM staging_queue WHERE status = 'pending'
                 ORDER BY timestamp DESC"@,
        query is UpdateStatus ==> r@ == "UPDATE staging_queue SET status = ?1 WHERE id = ?2"@,
        query is UpsertRule ==> r@ == "INSERT INTO rules_cache (pattern, category, hits) VALUES (?1, ?2, 0)
                 ON CONFLICT(pattern) DO UPDATE SET category = excluded.category"@,
        query is UpsertSetting ==> r@ == "INSERT INTO settings (key, value) VALUES (?1, ?2)
                 ON CONFLICT(key) DO UPDATE SET value = excluded.value"@,
        query is SelectSetting ==> r@ == "SELECT value FROM settings WHERE key = ?1"@,
        query is SelectHistory ==> r@ == "SELECT id, path, detected_category, confidence, action, timestamp
                 FROM file_events
                 ORDER BY timestamp DESC
                 LIMIT ?1"@,
        query is SelectStagingItem ==> r@ == "SELECT id, file_path, proposed_dest, confidence, status, timestamp
                 FROM staging_queue WHERE id = ?1"@,
        query is SelectLastAutoMove ==> r@ == "SELECT id, path, detected_category, confidence, action, timestamp
                 FROM file_events
                 WHERE action LIKE 'auto-moved to%'
                 ORDER BY timestamp DESC
                 LIMIT 1"@,
        query is SelectEvent ==> r@ == "SELECT id, path, detected_category, confidence, action, timestamp
                 FROM file_events
                 WHERE id = ?1"@,
        query is UpdateAction ==> r@ == "UPDATE file_events SET action = ?1 WHERE id = ?2"@,
        query is SelectRules ==> r@ == "SELECT pattern, category, hits FROM rules_cache ORDER BY hits DESC"@,
{
}

} // verus!
