use rusqlite::types::Value;
use rusqlite::Connection;
use sortd::confidence::Confidence;
use sortd::db::{
    Database, FileEvent, OpenStep, RowReply, RowsReply, Rule, SqlValue, StagingItem, Statement,
    SCHEMA,
};
use sortd::history::{auto_move_action, HISTORY_LIMIT, UNDONE};
use sortd::staging::{APPROVED, REJECTED};

fn open() -> Connection {
    let conn = Connection::open_in_memory().unwrap();
    conn.execute_batch(SCHEMA).unwrap();
    conn
}

fn double(value: f64) -> Confidence {
    Confidence { bits: value.to_bits() }
}

fn params(statement: &Statement) -> Vec<Value> {
    statement
        .params
        .iter()
        .map(|p| match p {
            SqlValue::Text(t) => Value::Text(t.clone()),
            SqlValue::Real(c) => Value::Real(f64::from_bits(c.bits)),
            SqlValue::Integer(n) => Value::Integer(*n),
        })
        .collect()
}

fn execute(conn: &Connection, statement: &Statement) -> Result<usize, String> {
    conn.execute(statement.query.text(), rusqlite::params_from_iter(params(statement)))
        .map_err(|e| e.to_string())
}

fn event_of(row: &rusqlite::Row<'_>) -> rusqlite::Result<FileEvent> {
    Ok(FileEvent {
        id: row.get(0)?,
        path: row.get(1)?,
        detected_category: row.get(2)?,
        confidence: double(row.get(3)?),
        action: row.get(4)?,
        timestamp: row.get(5)?,
    })
}

fn item_of(row: &rusqlite::Row<'_>) -> rusqlite::Result<StagingItem> {
    Ok(StagingItem {
        id: row.get(0)?,
        file_path: row.get(1)?,
        proposed_dest: row.get(2)?,
        confidence: double(row.get(3)?),
        status: row.get(4)?,
        timestamp: row.get(5)?,
    })
}

fn rule_of(row: &rusqlite::Row<'_>) -> rusqlite::Result<Rule> {
    Ok(Rule { pattern: row.get(0)?, category: row.get(1)?, hits: row.get(2)? })
}

fn rows<T>(
    conn: &Connection,
    statement: &Statement,
    read: fn(&rusqlite::Row<'_>) -> rusqlite::Result<T>,
) -> RowsReply<T> {
    let mut prepared = match conn.prepare(statement.query.text()) {
        Ok(p) => p,
        Err(e) => return RowsReply::PrepareFailed(e.to_string()),
    };
    let mapped = match prepared.query_map(rusqlite::params_from_iter(params(statement)), read) {
        Ok(m) => m,
        Err(e) => return RowsReply::QueryFailed(e.to_string()),
    };
    match mapped.collect::<Result<Vec<T>, rusqlite::Error>>() {
        Ok(list) => RowsReply::Rows(list),
        Err(e) => RowsReply::CollectFailed(e.to_string()),
    }
}

fn row<T>(
    conn: &Connection,
    statement: &Statement,
    read: fn(&rusqlite::Row<'_>) -> rusqlite::Result<T>,
) -> RowReply<T> {
    match conn.query_row(statement.query.text(), rusqlite::params_from_iter(params(statement)), read) {
        Ok(r) => RowReply::Row(r),
        Err(rusqlite::Error::QueryReturnedNoRows) => {
            RowReply::NoRow(rusqlite::Error::QueryReturnedNoRows.to_string())
        }
        Err(e) => RowReply::Failed(e.to_string()),
    }
}

fn text_of(row: &rusqlite::Row<'_>) -> rusqlite::Result<String> {
    row.get(0)
}

fn log_at(conn: &Connection, id: &str, time: &str, action: &str) {
    let statement = Database::log_event_at(id, time, "/in/a.pdf", "PDFs", double(0.95), action);
    assert_eq!(execute(conn, &statement), Ok(1));
}

fn stage_at(conn: &Connection, id: &str, time: &str) {
    let statement = Database::add_to_staging_at(id, time, "/in/a.x", "/out/Misc/a.x", double(0.5));
    assert_eq!(execute(conn, &statement), Ok(1));
}

fn pending(conn: &Connection) -> Vec<String> {
    Database::get_staging_queue_reply(rows(conn, &Database::get_staging_queue(), item_of))
        .unwrap()
        .into_iter()
        .map(|item| item.id)
        .collect()
}

fn history(conn: &Connection, limit: usize) -> Vec<String> {
    Database::get_history_reply(rows(conn, &Database::get_history(limit), event_of))
        .unwrap()
        .into_iter()
        .map(|event| event.id)
        .collect()
}

fn rules(conn: &Connection) -> Vec<Rule> {
    Database::get_rules_reply(rows(conn, &Database::get_rules(), rule_of)).unwrap()
}

fn setting(conn: &Connection, key: &str) -> Result<Option<String>, String> {
    Database::get_setting_reply(key, row(conn, &Database::get_setting(key), text_of))
}

fn folders(conn: &Connection) -> Result<Vec<String>, String> {
    Database::get_watched_folders_reply(row(conn, &Database::get_watched_folders(), text_of))
}

#[test]
fn opening_takes_three_steps() {
    let step = Database::new(OpenStep::CreateDir, Ok(()));
    assert!(matches!(step, OpenStep::Open { file: "sortd.db" }));
    let step = Database::new(step, Ok(()));
    let conn = Connection::open_in_memory().unwrap();
    match &step {
        OpenStep::InitTables { batch } => conn.execute_batch(batch).unwrap(),
        _ => panic!("the tables are next"),
    }
    assert!(matches!(Database::new(step, Ok(())), OpenStep::Done { result: Ok(()) }));
}

#[test]
fn opening_ends_with_the_first_error() {
    let failed = |step: OpenStep| match Database::new(step, Err("full".to_string())) {
        OpenStep::Done { result } => result.unwrap_err(),
        _ => panic!("opening is over"),
    };
    assert_eq!(failed(OpenStep::CreateDir), "Failed to create app data dir: full");
    assert_eq!(failed(OpenStep::Open { file: "x" }), "Failed to open database: full");
    assert_eq!(failed(OpenStep::InitTables { batch: "x" }), "Failed to initialize tables: full");
    let over = OpenStep::Done { result: Ok(()) };
    assert!(matches!(Database::new(over, Err("x".to_string())), OpenStep::Done { result: Ok(()) }));
}

#[test]
fn tables_can_be_initialized_again() {
    let conn = open();
    log_at(&conn, "1", "t1", "x");
    conn.execute_batch(SCHEMA).unwrap();
    assert_eq!(history(&conn, 10), ["1"]);
}

#[test]
fn logged_event_is_read_back() {
    let conn = open();
    let new = Database::log_event("/in/ü.pdf", "PDFs", double(0.95), "auto-moved to /out");
    let id = Database::log_event_reply(new.id.clone(), execute(&conn, &new.statement)).unwrap();
    assert_eq!(id, new.id);
    let asked = row(&conn, &Database::get_file_event(&id), event_of);
    let event = Database::get_file_event_reply(&id, asked).unwrap();
    assert_eq!(event.id, id);
    assert_eq!(event.path, "/in/ü.pdf");
    assert_eq!(event.detected_category, "PDFs");
    assert_eq!(f64::from_bits(event.confidence.bits), 0.95);
    assert_eq!(event.action, "auto-moved to /out");
    assert!(event.timestamp.ends_with("+00:00"));
}

#[test]
fn staged_file_is_read_back() {
    let conn = open();
    let new = Database::add_to_staging("/in/a.x", "/out/Misc/a.x", double(0.5));
    let id = Database::add_to_staging_reply(new.id.clone(), execute(&conn, &new.statement)).unwrap();
    let asked = row(&conn, &Database::get_staging_item(&id), item_of);
    let item = Database::get_staging_item_reply(&id, asked).unwrap();
    assert_eq!(item.id, new.id);
    assert_eq!(item.file_path, "/in/a.x");
    assert_eq!(item.proposed_dest, "/out/Misc/a.x");
    assert_eq!(f64::from_bits(item.confidence.bits), 0.5);
    assert_eq!(item.status, "pending");
    assert!(item.timestamp.ends_with("+00:00"));
}

#[test]
fn ids_and_times_have_their_form() {
    let mut ids = Vec::new();
    for _ in 0..20 {
        let new = Database::log_event("p", "c", double(0.1), "a");
        let id: Vec<char> = new.id.chars().collect();
        assert_eq!(id.len(), 36);
        for (at, c) in id.iter().enumerate() {
            match at {
                8 | 13 | 18 | 23 => assert_eq!(*c, '-'),
                14 => assert_eq!(*c, '4'),
                19 => assert!("89ab".contains(*c)),
                _ => assert!(c.is_ascii_digit() || ('a'..='f').contains(c)),
            }
        }
        match &new.statement.params[5] {
            SqlValue::Text(t) => {
                assert!(t.len() >= 25 && t.ends_with("+00:00"));
                assert!(chrono::DateTime::parse_from_rfc3339(t).is_ok());
            }
            _ => panic!("the time is a text"),
        }
        ids.push(new.id);
    }
    ids.sort();
    ids.dedup();
    assert_eq!(ids.len(), 20);
}

#[test]
fn insertions_can_fail() {
    let conn = open();
    log_at(&conn, "1", "t", "x");
    let again = Database::log_event_at("1", "t", "p", "c", double(0.1), "a");
    let e = Database::log_event_reply("1".to_string(), execute(&conn, &again)).unwrap_err();
    assert!(e.starts_with("Failed to log event: UNIQUE constraint failed"), "{e}");
    stage_at(&conn, "1", "t");
    let again = Database::add_to_staging_at("1", "t", "p", "d", double(0.1));
    let e = Database::add_to_staging_reply("1".to_string(), execute(&conn, &again)).unwrap_err();
    assert!(e.starts_with("Failed to add to staging: UNIQUE constraint failed"), "{e}");
    // A negative zero is stored as zero.
    let zero = Database::log_event_at("0", "t", "p", "c", double(-0.0), "a");
    assert_eq!(execute(&conn, &zero), Ok(1));
    let asked = row(&conn, &Database::get_file_event("0"), event_of);
    assert_eq!(Database::get_file_event_reply("0", asked).unwrap().confidence.bits, 0);
    // A confidence that is not a number is no value for the column.
    let nan = Database::log_event_at("2", "t", "p", "c", double(f64::NAN), "a");
    assert!(execute(&conn, &nan).is_err());
}

#[test]
fn queue_holds_what_waits_newest_first() {
    let conn = open();
    stage_at(&conn, "old", "2024-01-01T00:00:00+00:00");
    stage_at(&conn, "new", "2024-03-01T00:00:00+00:00");
    stage_at(&conn, "mid", "2024-02-01T00:00:00+00:00");
    assert_eq!(pending(&conn), ["new", "mid", "old"]);
    let done = Database::update_staging_status("mid", APPROVED);
    assert_eq!(Database::update_staging_status_reply("mid", execute(&conn, &done)), Ok(()));
    assert_eq!(pending(&conn), ["new", "old"]);
    let done = Database::update_staging_status("new", REJECTED);
    assert_eq!(Database::update_staging_status_reply("new", execute(&conn, &done)), Ok(()));
    assert_eq!(pending(&conn), ["old"]);
    // It is still there.
    let asked = row(&conn, &Database::get_staging_item("mid"), item_of);
    assert_eq!(Database::get_staging_item_reply("mid", asked).unwrap().status, "approved");
}

#[test]
fn status_of_an_unknown_file() {
    let conn = open();
    let change = Database::update_staging_status("nope", APPROVED);
    let e = Database::update_staging_status_reply("nope", execute(&conn, &change)).unwrap_err();
    assert_eq!(e, "No staging item found with id: nope");
    let e = Database::update_staging_status_reply("x", Err("locked".to_string())).unwrap_err();
    assert_eq!(e, "Failed to update staging status: locked");
}

#[test]
fn unknown_rows() {
    let conn = open();
    let asked = row(&conn, &Database::get_staging_item("nope"), item_of);
    let e = Database::get_staging_item_reply("nope", asked).unwrap_err();
    assert_eq!(e, "Staging item 'nope' not found: Query returned no rows");
    let asked = row(&conn, &Database::get_file_event("nope"), event_of);
    let e = Database::get_file_event_reply("nope", asked).unwrap_err();
    assert_eq!(e, "File event 'nope' not found: Query returned no rows");
    let asked = row(&conn, &Database::get_last_auto_move(), event_of);
    let e = Database::get_last_auto_move_reply(asked).unwrap_err();
    assert_eq!(e, "No auto-moved file found: Query returned no rows");
    let failed = RowReply::Failed("locked".to_string());
    let e = Database::get_file_event_reply("x", failed).unwrap_err();
    assert_eq!(e, "File event 'x' not found: locked");
}

#[test]
fn rules_are_kept_by_pattern() {
    let conn = open();
    for (pattern, category) in [("*.pdf", "PDFs"), ("*.x", "Misc")] {
        let add = Database::add_rule(pattern, category);
        assert_eq!(Database::add_rule_reply(execute(&conn, &add)), Ok(()));
    }
    conn.execute("UPDATE rules_cache SET hits = 3 WHERE pattern = '*.x'", []).unwrap();
    let add = Database::add_rule("*.x", "Work");
    assert_eq!(Database::add_rule_reply(execute(&conn, &add)), Ok(()));
    let all = rules(&conn);
    assert_eq!(all.len(), 2);
    assert_eq!(all[0].pattern, "*.x");
    assert_eq!(all[0].category, "Work");
    assert_eq!(all[0].hits, 3);
    assert_eq!(all[1].pattern, "*.pdf");
    assert_eq!(all[1].hits, 0);
    let e = Database::add_rule_reply(Err("locked".to_string())).unwrap_err();
    assert_eq!(e, "Failed to add rule: locked");
}

#[test]
fn settings_are_overwritten() {
    let conn = open();
    assert_eq!(setting(&conn, "k"), Ok(None));
    for value in ["one", "two"] {
        let save = Database::save_setting("k", value);
        assert_eq!(Database::save_setting_reply("k", execute(&conn, &save)), Ok(()));
        assert_eq!(setting(&conn, "k"), Ok(Some(value.to_string())));
    }
    assert_eq!(setting(&conn, "other"), Ok(None));
    let e = Database::save_setting_reply("k", Err("locked".to_string())).unwrap_err();
    assert_eq!(e, "Failed to save setting 'k': locked");
    let e = Database::get_setting_reply("k", RowReply::Failed("locked".to_string())).unwrap_err();
    assert_eq!(e, "Failed to get setting 'k': locked");
}

#[test]
fn watched_folders_are_read_back() {
    let conn = open();
    assert_eq!(folders(&conn), Ok(Vec::new()));
    let lists = [
        vec!["/in".to_string(), "C:\\Users\\me\\\"Down\"loads".to_string(), "/ü\n".to_string()],
        Vec::new(),
        vec![String::new()],
    ];
    for list in lists {
        let save = Database::save_watched_folders(&list).ok().unwrap();
        assert_eq!(Database::save_setting_reply("watched_folders", execute(&conn, &save)), Ok(()));
        assert_eq!(folders(&conn), Ok(list));
    }
}

#[test]
fn watched_folders_are_saved_as_json() {
    let list = vec!["/a".to_string(), "b\"c".to_string()];
    let save = Database::save_watched_folders(&list).ok().unwrap();
    match (&save.params[0], &save.params[1]) {
        (SqlValue::Text(key), SqlValue::Text(value)) => {
            assert_eq!(key, "watched_folders");
            assert_eq!(value, "[\"/a\",\"b\\\"c\"]");
        }
        _ => panic!("both are texts"),
    }
}

#[test]
fn watched_folders_that_cannot_be_read() {
    let reply = |text: &str| Database::get_watched_folders_reply(RowReply::Row(text.to_string()));
    assert_eq!(reply("[\"/a\"]"), Ok(vec!["/a".to_string()]));
    for text in ["", "{}", "[1]", "[\"a\""] {
        let e = reply(text).unwrap_err();
        assert!(e.starts_with("Failed to parse watched_folders: "), "{e}");
    }
    let e = Database::get_watched_folders_reply(RowReply::Failed("locked".to_string())).unwrap_err();
    assert_eq!(e, "Failed to get setting 'watched_folders': locked");
}

#[test]
fn history_is_limited_and_newest_first() {
    let conn = open();
    log_at(&conn, "b", "2024-02-01T00:00:00+00:00", "x");
    log_at(&conn, "a", "2024-01-01T00:00:00+00:00", "x");
    log_at(&conn, "c", "2024-03-01T00:00:00+00:00", "x");
    assert_eq!(history(&conn, HISTORY_LIMIT), ["c", "b", "a"]);
    assert_eq!(history(&conn, 2), ["c", "b"]);
    assert_eq!(history(&conn, 0), Vec::<String>::new());
    assert_eq!(HISTORY_LIMIT, 100);
}

#[test]
fn last_auto_move_is_found_until_it_is_undone() {
    let conn = open();
    log_at(&conn, "1", "2024-01-01T00:00:00+00:00", &auto_move_action("/out/1"));
    log_at(&conn, "2", "2024-02-01T00:00:00+00:00", &auto_move_action("/out/2"));
    log_at(&conn, "3", "2024-03-01T00:00:00+00:00", REJECTED);
    let last = || {
        Database::get_last_auto_move_reply(row(&conn, &Database::get_last_auto_move(), event_of))
    };
    assert_eq!(last().unwrap().id, "2");
    let undo = Database::update_event_action("2", UNDONE);
    assert_eq!(Database::update_event_action_reply("2", execute(&conn, &undo)), Ok(()));
    assert_eq!(last().unwrap().id, "1");
    let undo = Database::update_event_action("1", UNDONE);
    assert_eq!(Database::update_event_action_reply("1", execute(&conn, &undo)), Ok(()));
    assert!(last().is_err());
}

#[test]
fn undoing_changes_one_event_alone() {
    let conn = open();
    log_at(&conn, "1", "2024-01-01T00:00:00+00:00", &auto_move_action("/out/1"));
    log_at(&conn, "2", "2024-02-01T00:00:00+00:00", &auto_move_action("/out/2"));
    let undo = Database::update_event_action("2", UNDONE);
    assert_eq!(Database::update_event_action_reply("2", execute(&conn, &undo)), Ok(()));
    let events =
        Database::get_history_reply(rows(&conn, &Database::get_history(9), event_of)).unwrap();
    assert_eq!(events[0].action, "undone");
    assert_eq!(events[0].path, "/in/a.pdf");
    assert_eq!(events[0].timestamp, "2024-02-01T00:00:00+00:00");
    assert_eq!(events[1].action, "auto-moved to /out/1");
}

#[test]
fn new_database_is_empty() {
    let conn = open();
    assert!(pending(&conn).is_empty());
    assert!(history(&conn, HISTORY_LIMIT).is_empty());
    assert!(rules(&conn).is_empty());
    assert_eq!(folders(&conn), Ok(Vec::new()));
}

#[test]
fn staged_file_outlasts_other_changes() {
    let conn = open();
    stage_at(&conn, "mine", "2024-01-01T00:00:00+00:00");
    stage_at(&conn, "other", "2024-01-02T00:00:00+00:00");
    let again = Database::add_to_staging_at("mine", "t", "x", "y", double(0.1));
    assert!(execute(&conn, &again).is_err());
    execute(&conn, &Database::update_staging_status("other", REJECTED)).unwrap();
    execute(&conn, &Database::add_rule("*.x", "Misc")).unwrap();
    let mine = || {
        let asked = row(&conn, &Database::get_staging_item("mine"), item_of);
        Database::get_staging_item_reply("mine", asked).unwrap()
    };
    assert_eq!(mine().file_path, "/in/a.x");
    assert_eq!(mine().proposed_dest, "/out/Misc/a.x");
    assert_eq!(mine().status, "pending");
    execute(&conn, &Database::update_staging_status("mine", APPROVED)).unwrap();
    assert_eq!(mine().file_path, "/in/a.x");
    assert_eq!(mine().status, "approved");
}

#[test]
fn auto_moves_match_in_any_case() {
    let conn = open();
    log_at(&conn, "1", "2024-01-01T00:00:00+00:00", "AUTO-moved TO/out");
    let asked = row(&conn, &Database::get_last_auto_move(), event_of);
    assert_eq!(Database::get_last_auto_move_reply(asked).unwrap().id, "1");
}

#[test]
fn action_of_an_unknown_event() {
    let conn = open();
    let change = Database::update_event_action("nope", UNDONE);
    let e = Database::update_event_action_reply("nope", execute(&conn, &change)).unwrap_err();
    assert_eq!(e, "No file_event found with id: nope");
    let e = Database::update_event_action_reply("x", Err("locked".to_string())).unwrap_err();
    assert_eq!(e, "Failed to update event action: locked");
}

#[test]
fn lists_can_fail_in_three_ways() {
    let e = |reply: RowsReply<StagingItem>| Database::get_staging_queue_reply(reply).unwrap_err();
    assert_eq!(
        e(RowsReply::PrepareFailed("p".to_string())),
        "Failed to prepare staging query: p"
    );
    assert_eq!(e(RowsReply::QueryFailed("q".to_string())), "Failed to query staging queue: q");
    assert_eq!(e(RowsReply::CollectFailed("c".to_string())), "Failed to collect staging items: c");
    let e = |reply: RowsReply<FileEvent>| Database::get_history_reply(reply).unwrap_err();
    assert_eq!(
        e(RowsReply::PrepareFailed("p".to_string())),
        "Failed to prepare history query: p"
    );
    assert_eq!(e(RowsReply::QueryFailed("q".to_string())), "Failed to query history: q");
    assert_eq!(e(RowsReply::CollectFailed("c".to_string())), "Failed to collect history: c");
    let e = |reply: RowsReply<Rule>| Database::get_rules_reply(reply).unwrap_err();
    assert_eq!(e(RowsReply::PrepareFailed("p".to_string())), "Failed to prepare rules query: p");
    assert_eq!(e(RowsReply::QueryFailed("q".to_string())), "Failed to query rules: q");
    assert_eq!(e(RowsReply::CollectFailed("c".to_string())), "Failed to collect rules: c");
}

#[test]
fn missing_tables_are_reported() {
    let conn = Connection::open_in_memory().unwrap();
    let e = Database::get_rules_reply(rows(&conn, &Database::get_rules(), rule_of)).unwrap_err();
    assert!(e.starts_with("Failed to prepare rules query: no such table"), "{e}");
    let e = setting(&conn, "k").unwrap_err();
    assert!(e.starts_with("Failed to get setting 'k': no such table"), "{e}");
}
