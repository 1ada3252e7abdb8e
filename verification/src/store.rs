//! The rows that the database stores, and what the library's statements do to
//! them: a model to state laws over. The model follows what the SQL of the
//! statements means; the database engine itself is outside the library.
use vstd::prelude::*;
use crate::confidence::{Confidence, INFINITY_BITS};
use crate::db::{
    folders_of, hex_digit, insert_event, insert_staging, open_run, row_means, rows_mean,
    setting_of, statement_of_two, string_list_of, utc_timestamp, Database, EventView, FileEvent,
    Insertion, OpenStep, OpenView, Query, RowReply, RowsReply, Rule, RuleView, SqlView,
    StagingItem, Statement, StatementView, SCHEMA, WATCHED_FOLDERS,
};
use crate::history::{auto_move_record, AUTO_MOVED, UNDONE};
use crate::staging::{ItemView, APPROVED, REJECTED};
use crate::text::texts;
use crate::unicode::ascii_lower;

verus! {

/// The rows, by the primary keys of their tables.
#[verifier::ext_equal]
pub struct Store {
    pub events: Map<Seq<char>, EventView>,
    pub staging: Map<Seq<char>, ItemView>,
    pub rules: Map<Seq<char>, RuleView>,
    pub settings: Map<Seq<char>, Seq<char>>,
}

/// No rows.
pub open spec fn empty_store() -> Store {
    Store {
        events: Map::empty(),
        staging: Map::empty(),
        rules: Map::empty(),
        settings: Map::empty(),
    }
}

/// The tables of a database file, as far as they were created.
#[verifier::ext_equal]
pub struct Tables {
    pub events: Option<Map<Seq<char>, EventView>>,
    pub staging: Option<Map<Seq<char>, ItemView>>,
    pub rules: Option<Map<Seq<char>, RuleView>>,
    pub settings: Option<Map<Seq<char>, Seq<char>>>,
}

/// The tables of a database file that was not there before.
pub open spec fn no_tables() -> Tables {
    Tables { events: None, staging: None, rules: None, settings: None }
}

/// The rows of a table, none where it was not created.
pub open spec fn rows_of<R>(table: Option<Map<Seq<char>, R>>) -> Map<Seq<char>, R> {
    match table {
        Some(rows) => rows,
        None => Map::empty(),
    }
}

/// The rows after the batch that creates the tables: `CREATE TABLE IF NOT
/// EXISTS` keeps a table that is there.
pub open spec fn initialized(tables: Tables) -> Store {
    Store {
        events: rows_of(tables.events),
        staging: rows_of(tables.staging),
        rules: rows_of(tables.rules),
        settings: rows_of(tables.settings),
    }
}

/// The text that a parameter holds.
pub open spec fn text_at(statement: StatementView, i: int) -> Seq<char> {
    statement.params[i]->Text_0
}

/// The number that a parameter holds.
pub open spec fn number_at(statement: StatementView, i: int) -> Confidence {
    statement.params[i]->Real_0
}

/// Whether the bits are those of what is not a number, which is stored as NULL
/// and so refused by a column that is not to be NULL.
pub open spec fn not_a_number(number: Confidence) -> bool {
    number.bits % 0x8000_0000_0000_0000 > INFINITY_BITS
}

/// The number that is stored: itself, but zero for the negative zero.
pub open spec fn stored_number(number: Confidence) -> Confidence {
    if number.bits == 0x8000_0000_0000_0000 {
        Confidence { bits: 0 }
    } else {
        number
    }
}

/// Whether the constraints of the tables admit a statement.
pub open spec fn admitted(store: Store, statement: StatementView) -> bool {
    match statement.query {
        Query::InsertEvent => !store.events.contains_key(text_at(statement, 0)) && !not_a_number(
            number_at(statement, 3),
        ),
        Query::InsertStaging => !store.staging.contains_key(text_at(statement, 0))
            && !not_a_number(number_at(statement, 3)),
        _ => true,
    }
}

/// How many rows a statement that is admitted changes.
pub open spec fn changed_rows(store: Store, statement: StatementView) -> nat {
    match statement.query {
        Query::UpdateStatus => if store.staging.contains_key(text_at(statement, 1)) {
            1
        } else {
            0
        },
        Query::UpdateAction => if store.events.contains_key(text_at(statement, 1)) {
            1
        } else {
            0
        },
        Query::InsertEvent => 1,
        Query::InsertStaging => 1,
        Query::UpsertRule => 1,
        Query::UpsertSetting => 1,
        _ => 0,
    }
}

/// The rows after a statement. One that is not admitted changes nothing.
pub open spec fn effect(store: Store, statement: StatementView) -> Store {
    if !admitted(store, statement) {
        store
    } else {
        match statement.query {
            Query::InsertEvent => {
                let id = text_at(statement, 0);
                let row = EventView {
                    id,
                    path: text_at(statement, 1),
                    detected_category: text_at(statement, 2),
                    confidence: stored_number(number_at(statement, 3)),
                    action: text_at(statement, 4),
                    timestamp: text_at(statement, 5),
                };
                Store { events: store.events.insert(id, row), ..store }
            },
            Query::InsertStaging => {
                let id = text_at(statement, 0);
                let row = ItemView {
                    id,
                    file_path: text_at(statement, 1),
                    proposed_dest: text_at(statement, 2),
                    confidence: stored_number(number_at(statement, 3)),
                    status: "pending"@,
                    timestamp: text_at(statement, 4),
                };
                Store { staging: store.staging.insert(id, row), ..store }
            },
            Query::UpdateStatus => {
                let status = text_at(statement, 0);
                let id = text_at(statement, 1);
                if store.staging.contains_key(id) {
                    let row = ItemView { status, ..store.staging[id] };
                    Store { staging: store.staging.insert(id, row), ..store }
                } else {
                    store
                }
            },
            Query::UpdateAction => {
                let action = text_at(statement, 0);
                let id = text_at(statement, 1);
                if store.events.contains_key(id) {
                    let row = EventView { action, ..store.events[id] };
                    Store { events: store.events.insert(id, row), ..store }
                } else {
                    store
                }
            },
            Query::UpsertRule => {
                let pattern = text_at(statement, 0);
                let category = text_at(statement, 1);
                let hits = if store.rules.contains_key(pattern) {
                    store.rules[pattern].hits
                } else {
                    0
                };
                let row = RuleView { pattern, category, hits };
                Store { rules: store.rules.insert(pattern, row), ..store }
            },
            Query::UpsertSetting => Store {
                settings: store.settings.insert(text_at(statement, 0), text_at(statement, 1)),
                ..store
            },
            _ => store,
        }
    }
}

/// The rows after some statements.
pub open spec fn effects(store: Store, statements: Seq<StatementView>) -> Store
    decreases statements.len(),
{
    if statements.len() == 0 {
        store
    } else {
        effect(effects(store, statements.drop_last()), statements.last())
    }
}

// What is read

/// Whether a text comes before another in the order of the database, which is
/// that of the code points.
pub open spec fn text_less(a: Seq<char>, b: Seq<char>) -> bool
    decreases a.len(),
{
    if b.len() == 0 {
        false
    } else if a.len() == 0 {
        true
    } else if a[0] != b[0] {
        a[0] < b[0]
    } else {
        text_less(a.skip(1), b.skip(1))
    }
}

/// No text comes before itself.
pub proof fn lemma_not_before_itself(a: Seq<char>)
    ensures
        !text_less(a, a),
    decreases a.len(),
{
    if a.len() > 0 {
        lemma_not_before_itself(a.skip(1));
    }
}

/// Whether an action matches `LIKE 'auto-moved to%'`, which takes the letters
/// of ASCII in either case.
pub open spec fn like_auto_moved(action: Seq<char>) -> bool {
    let lead = "auto-moved to"@;
    &&& lead.len() <= action.len()
    &&& forall|i: int|
        0 <= i < lead.len() ==> ascii_lower(#[trigger] action[i]) == ascii_lower(lead[i])
}

/// Whether an event is a move that was made without asking, among others
/// that `but` does not name.
pub open spec fn auto_move_but(store: Store, id: Seq<char>, but: Set<Seq<char>>) -> bool {
    store.events.contains_key(id) && like_auto_moved(store.events[id].action) && !but.contains(id)
}

/// Whether an event is a latest one of the moves that were made without asking
/// and that `but` does not name.
pub open spec fn latest_but(store: Store, id: Seq<char>, but: Set<Seq<char>>) -> bool {
    &&& auto_move_but(store, id, but)
    &&& forall|other: Seq<char>| #[trigger]
        auto_move_but(store, other, but) ==> !text_less(
            store.events[id].timestamp,
            store.events[other].timestamp,
        )
}

/// Whether an event is one that the database may give as the latest move that
/// was made without asking.
pub open spec fn latest_auto_move(store: Store, id: Seq<char>) -> bool {
    latest_but(store, id, Set::empty())
}

/// Whether a reply is the row of that id in the queue, or that there is none.
pub open spec fn item_reply(store: Store, id: Seq<char>, reply: RowReply<StagingItem>) -> bool {
    match reply {
        RowReply::Row(item) => store.staging.contains_key(id) && item@ == store.staging[id],
        RowReply::NoRow(_) => !store.staging.contains_key(id),
        RowReply::Failed(_) => false,
    }
}

/// Whether a reply is the event of that id, or that there is none.
pub open spec fn event_reply(store: Store, id: Seq<char>, reply: RowReply<FileEvent>) -> bool {
    match reply {
        RowReply::Row(event) => store.events.contains_key(id) && event@ == store.events[id],
        RowReply::NoRow(_) => !store.events.contains_key(id),
        RowReply::Failed(_) => false,
    }
}

/// Whether a reply is a latest one of the moves that were made without asking,
/// or that there is none.
pub open spec fn last_auto_move_reply(store: Store, reply: RowReply<FileEvent>) -> bool {
    match reply {
        RowReply::Row(event) => exists|id: Seq<char>| #[trigger]
            latest_auto_move(store, id) && event@ == store.events[id],
        RowReply::NoRow(_) => forall|id: Seq<char>| !#[trigger]
            auto_move_but(store, id, Set::empty()),
        RowReply::Failed(_) => false,
    }
}

/// Whether a reply is the value of a setting, or that there is none.
pub open spec fn setting_reply(store: Store, key: Seq<char>, reply: RowReply<String>) -> bool {
    match reply {
        RowReply::Row(value) => store.settings.contains_key(key) && value@ == store.settings[key],
        RowReply::NoRow(_) => !store.settings.contains_key(key),
        RowReply::Failed(_) => false,
    }
}

/// Whether rows are all the rules, each once, those with the most hits first.
pub open spec fn lists_rules(store: Store, rows: Seq<RuleView>) -> bool {
    &&& forall|i: int, j: int|
        0 <= i < j < rows.len() ==> (#[trigger] rows[i]).pattern != (#[trigger] rows[j]).pattern
            && rows[i].hits >= rows[j].hits
    &&& forall|i: int|
        0 <= i < rows.len() ==> store.rules.contains_key((#[trigger] rows[i]).pattern)
            && store.rules[rows[i].pattern] == rows[i]
    &&& forall|pattern: Seq<char>| #[trigger]
        store.rules.contains_key(pattern) ==> exists|i: int|
            0 <= i < rows.len() && (#[trigger] rows[i]).pattern == pattern
}

/// Whether rows are all the files that wait, each once, the newest first.
pub open spec fn lists_pending(store: Store, rows: Seq<ItemView>) -> bool {
    &&& forall|i: int, j: int|
        0 <= i < j < rows.len() ==> (#[trigger] rows[i]).id != (#[trigger] rows[j]).id
            && !text_less(rows[i].timestamp, rows[j].timestamp)
    &&& forall|i: int|
        0 <= i < rows.len() ==> store.staging.contains_key((#[trigger] rows[i]).id)
            && store.staging[rows[i].id] == rows[i] && rows[i].status == "pending"@
    &&& forall|id: Seq<char>| #[trigger]
        store.staging.contains_key(id) && store.staging[id].status == "pending"@ ==> exists|i: int|
            0 <= i < rows.len() && (#[trigger] rows[i]).id == id
}

/// Whether rows are the latest events, up to `limit` of them, each once, the
/// newest first.
pub open spec fn lists_history(store: Store, limit: nat, rows: Seq<EventView>) -> bool {
    &&& rows.len() <= limit
    &&& forall|i: int, j: int|
        0 <= i < j < rows.len() ==> (#[trigger] rows[i]).id != (#[trigger] rows[j]).id
            && !text_less(rows[i].timestamp, rows[j].timestamp)
    &&& forall|i: int|
        0 <= i < rows.len() ==> store.events.contains_key((#[trigger] rows[i]).id)
            && store.events[rows[i].id] == rows[i]
    &&& forall|id: Seq<char>| #[trigger]
        store.events.contains_key(id) ==> (exists|i: int|
            0 <= i < rows.len() && (#[trigger] rows[i]).id == id) || (rows.len() == limit && forall|
            i: int,
        |
            0 <= i < rows.len() ==> !text_less(
                (#[trigger] rows[i]).timestamp,
                store.events[id].timestamp,
            ))
}

// Laws: opening

/// Opening keeps what is stored: it goes through creating the directory and
/// opening the file to the one batch that creates the tables, and each table
/// that is there keeps every row.
pub proof fn law_opening_keeps_what_is_stored(tables: Tables)
    ensures
        open_run(seq![Ok(())]) is Open,
        open_run(seq![Ok(()), Ok(())]) == (OpenView::InitTables { batch: SCHEMA@ }),
        open_run(seq![Ok(()), Ok(()), Ok(())]) == (OpenView::Done { result: Ok(()) }),
        tables.events matches Some(rows) ==> initialized(tables).events == rows,
        tables.staging matches Some(rows) ==> initialized(tables).staging == rows,
        tables.rules matches Some(rows) ==> initialized(tables).rules == rows,
        tables.settings matches Some(rows) ==> initialized(tables).settings == rows,
{
    reveal_with_fuel(open_run, 4);
    let ok: Result<(), Seq<char>> = Ok(());
    assert(seq![ok].drop_last() =~= Seq::empty());
    assert(seq![ok, ok].drop_last() =~= seq![ok]);
    assert(seq![ok, ok, ok].drop_last() =~= seq![ok, ok]);
}

/// A new database is empty: there are no events, no rules, no files that wait
/// and no watched folders.
pub proof fn law_new_database_is_empty(
    limit: nat,
    history: Seq<EventView>,
    rules: Seq<RuleView>,
    queue: Seq<ItemView>,
    folders: RowReply<String>,
)
    requires
        lists_history(initialized(no_tables()), limit, history),
        lists_rules(initialized(no_tables()), rules),
        lists_pending(initialized(no_tables()), queue),
        setting_reply(initialized(no_tables()), WATCHED_FOLDERS@, folders),
    ensures
        initialized(no_tables()) == empty_store(),
        history.len() == 0,
        rules.len() == 0,
        queue.len() == 0,
        folders_of(setting_of(WATCHED_FOLDERS@, folders)) == Ok::<Seq<Seq<char>>, Seq<char>>(
            Seq::empty(),
        ),
{
    if history.len() > 0 {
        assert(initialized(no_tables()).events.contains_key(history[0].id));
    }
    if rules.len() > 0 {
        assert(initialized(no_tables()).rules.contains_key(rules[0].pattern));
    }
    if queue.len() > 0 {
        assert(initialized(no_tables()).staging.contains_key(queue[0].id));
    }
}

// Laws: the queue

/// The status that some statements give a file, the last of them deciding.
pub open spec fn last_status(
    statements: Seq<StatementView>,
    id: Seq<char>,
    before: Seq<char>,
) -> Seq<char>
    decreases statements.len(),
{
    if statements.len() == 0 {
        before
    } else if statements.last().query is UpdateStatus && text_at(statements.last(), 1) == id {
        text_at(statements.last(), 0)
    } else {
        last_status(statements.drop_last(), id, before)
    }
}

/// A file that was put into the queue stays in the database, whatever
/// statements follow: with the same path, destination, confidence and time,
/// and with the status that it was given last.
pub proof fn law_staged_file_is_kept(
    store: Store,
    id: Seq<char>,
    file_path: Seq<char>,
    proposed_dest: Seq<char>,
    confidence: Confidence,
    timestamp: Seq<char>,
    later: Seq<StatementView>,
)
    requires
        !store.staging.contains_key(id),
        !not_a_number(confidence),
    ensures
        ({
            let staged = insert_staging(id, file_path, proposed_dest, confidence, timestamp);
            let after = effects(effect(store, staged), later);
            &&& admitted(store, staged)
            &&& after.staging.contains_key(id)
            &&& after.staging[id] == (ItemView {
                id,
                file_path,
                proposed_dest,
                confidence: stored_number(confidence),
                status: last_status(later, id, "pending"@),
                timestamp,
            })
        }),
    decreases later.len(),
{
    if later.len() > 0 {
        law_staged_file_is_kept(
            store,
            id,
            file_path,
            proposed_dest,
            confidence,
            timestamp,
            later.drop_last(),
        );
    }
}

/// A file that was put into the queue is read back by its id as it was put
/// there, as long as no statement sets its status; and after that with its new
/// status.
pub proof fn law_staged_file_is_read_back(
    store: Store,
    id: Seq<char>,
    file_path: Seq<char>,
    proposed_dest: Seq<char>,
    confidence: Confidence,
    timestamp: Seq<char>,
    later: Seq<StatementView>,
    reply: RowReply<StagingItem>,
    message: Seq<char>,
    r: Result<StagingItem, String>,
)
    requires
        !store.staging.contains_key(id),
        !not_a_number(confidence),
        item_reply(
            effects(
                effect(
                    store,
                    insert_staging(id, file_path, proposed_dest, confidence, timestamp),
                ),
                later,
            ),
            id,
            reply,
        ),
        row_means(reply, r, message),
    ensures
        r matches Ok(item) && item@ == (ItemView {
            id,
            file_path,
            proposed_dest,
            confidence: stored_number(confidence),
            status: last_status(later, id, "pending"@),
            timestamp,
        }),
{
    law_staged_file_is_kept(
        store,
        id,
        file_path,
        proposed_dest,
        confidence,
        timestamp,
        later,
    );
}

/// A file that was never put into the queue is not found: an id is in the
/// queue only where a statement put it there.
pub proof fn law_unknown_file_is_not_found(
    store: Store,
    id: Seq<char>,
    later: Seq<StatementView>,
    reply: RowReply<StagingItem>,
    message: Seq<char>,
    r: Result<StagingItem, String>,
)
    requires
        !store.staging.contains_key(id),
        forall|i: int|
            0 <= i < later.len() ==> !((#[trigger] later[i]).query is InsertStaging && text_at(
                later[i],
                0,
            ) == id),
        item_reply(effects(store, later), id, reply),
        row_means(reply, r, message),
    ensures
        r is Err,
{
    lemma_unknown_file(store, id, later);
}

/// An id is in the queue only where a statement put it there.
proof fn lemma_unknown_file(store: Store, id: Seq<char>, later: Seq<StatementView>)
    requires
        !store.staging.contains_key(id),
        forall|i: int|
            0 <= i < later.len() ==> !((#[trigger] later[i]).query is InsertStaging && text_at(
                later[i],
                0,
            ) == id),
    ensures
        !effects(store, later).staging.contains_key(id),
    decreases later.len(),
{
    if later.len() > 0 {
        let front = later.drop_last();
        assert forall|i: int| 0 <= i < front.len() implies !((#[trigger] front[i]).query
            is InsertStaging && text_at(front[i], 0) == id) by {
            assert(front[i] == later[i]);
        }
        lemma_unknown_file(store, id, front);
        assert(later.last() == later[later.len() - 1]);
    }
}

/// A file that was put into the queue is among those that wait, until it is
/// approved or rejected; and then it is not.
pub proof fn law_queue_holds_what_waits(
    store: Store,
    staged: StatementView,
    status: Seq<char>,
    waiting: Seq<ItemView>,
    settled: Seq<ItemView>,
)
    requires
        staged.query is InsertStaging,
        admitted(store, staged),
        status == APPROVED@ || status == REJECTED@,
        lists_pending(effect(store, staged), waiting),
        lists_pending(
            effect(
                effect(store, staged),
                statement_of_two(Query::UpdateStatus, status, text_at(staged, 0)),
            ),
            settled,
        ),
    ensures
        exists|i: int| 0 <= i < waiting.len() && (#[trigger] waiting[i]).id == text_at(staged, 0),
        forall|i: int|
            0 <= i < settled.len() ==> (#[trigger] settled[i]).id != text_at(staged, 0),
{
    let id = text_at(staged, 0);
    let after = effect(store, staged);
    assert(after.staging.contains_key(id) && after.staging[id].status == "pending"@);
    let change = statement_of_two(Query::UpdateStatus, status, id);
    reveal_strlit("pending");
    reveal_strlit("approved");
    reveal_strlit("rejected");
    assert(status[0] != "pending"@[0]);
    assert(effect(after, change).staging[id].status == status);
}

// Laws: rules

/// The statements that add rules, one after the other.
pub open spec fn rule_statements(adds: Seq<(Seq<char>, Seq<char>)>) -> Seq<StatementView> {
    adds.map_values(
        |a: (Seq<char>, Seq<char>)| statement_of_two(Query::UpsertRule, a.0, a.1),
    )
}

/// The category that was added last for a pattern, if any.
pub open spec fn last_category(adds: Seq<(Seq<char>, Seq<char>)>, pattern: Seq<char>) -> Option<
    Seq<char>,
>
    decreases adds.len(),
{
    if adds.len() == 0 {
        None
    } else if adds.last().0 == pattern {
        Some(adds.last().1)
    } else {
        last_category(adds.drop_last(), pattern)
    }
}

/// Adding rules leaves one rule for each pattern, with the category that was
/// added last. A rule that was there keeps its hits, and a new one has none.
pub proof fn law_one_rule_per_pattern(
    store: Store,
    adds: Seq<(Seq<char>, Seq<char>)>,
    pattern: Seq<char>,
)
    ensures
        ({
            let after = effects(store, rule_statements(adds));
            match last_category(adds, pattern) {
                Some(category) => after.rules.contains_key(pattern) && after.rules[pattern] == (
                RuleView {
                    pattern,
                    category,
                    hits: if store.rules.contains_key(pattern) {
                        store.rules[pattern].hits
                    } else {
                        0
                    },
                }),
                None => after.rules.contains_key(pattern) == store.rules.contains_key(pattern)
                    && after.rules[pattern] == store.rules[pattern],
            }
        }),
    decreases adds.len(),
{
    if adds.len() > 0 {
        let front = adds.drop_last();
        law_one_rule_per_pattern(store, front, pattern);
        assert(rule_statements(adds).drop_last() =~= rule_statements(front));
        assert(rule_statements(adds).last() == statement_of_two(
            Query::UpsertRule,
            adds.last().0,
            adds.last().1,
        ));
    }
}

/// The rules that are read from a new database to which only rules were added:
/// exactly one for each pattern, with the category that was added last and
/// without hits; those with the most hits first.
pub proof fn law_rules_are_read_back(
    adds: Seq<(Seq<char>, Seq<char>)>,
    rows: Vec<Rule>,
    prepare: Seq<char>,
    query: Seq<char>,
    collect: Seq<char>,
    r: Result<Vec<Rule>, String>,
)
    requires
        lists_rules(
            effects(empty_store(), rule_statements(adds)),
            rows@.map_values(|rule: Rule| rule@),
        ),
        rows_mean(RowsReply::Rows(rows), r, prepare, query, collect),
    ensures
        r == Ok::<Vec<Rule>, String>(rows),
        forall|i: int, j: int|
            0 <= i < j < rows@.len() ==> (#[trigger] rows@[i]).pattern@ != (
            #[trigger] rows@[j]).pattern@ && rows@[i].hits >= rows@[j].hits,
        forall|i: int|
            0 <= i < rows@.len() ==> last_category(adds, (#[trigger] rows@[i]).pattern@) == Some(
                rows@[i].category@,
            ) && rows@[i].hits == 0,
        forall|k: int|
            0 <= k < adds.len() ==> exists|i: int|
                0 <= i < rows@.len() && (#[trigger] rows@[i]).pattern@ == (#[trigger] adds[k]).0,
{
    let store = effects(empty_store(), rule_statements(adds));
    let views = rows@.map_values(|rule: Rule| rule@);
    assert forall|i: int, j: int| 0 <= i < j < rows@.len() implies (
    #[trigger] rows@[i]).pattern@ != (#[trigger] rows@[j]).pattern@ && rows@[i].hits
        >= rows@[j].hits by {
        assert(views[i].pattern != views[j].pattern && views[i].hits >= views[j].hits);
    }
    assert forall|i: int| 0 <= i < rows@.len() implies last_category(
        adds,
        (#[trigger] rows@[i]).pattern@,
    ) == Some(rows@[i].category@) && rows@[i].hits == 0 by {
        let pattern = views[i].pattern;
        assert(store.rules.contains_key(pattern) && store.rules[pattern] == views[i]);
        law_one_rule_per_pattern(empty_store(), adds, pattern);
    }
    assert forall|k: int| 0 <= k < adds.len() implies exists|i: int|
        0 <= i < rows@.len() && (#[trigger] rows@[i]).pattern@ == (#[trigger] adds[k]).0 by {
        let pattern = adds[k].0;
        law_one_rule_per_pattern(empty_store(), adds, pattern);
        lemma_added_pattern_has_a_category(adds, k);
        assert(store.rules.contains_key(pattern));
        let i = choose|i: int| 0 <= i < views.len() && (#[trigger] views[i]).pattern == pattern;
        assert(rows@[i].pattern@ == pattern);
    }
}

/// A pattern that was added has a category.
proof fn lemma_added_pattern_has_a_category(adds: Seq<(Seq<char>, Seq<char>)>, k: int)
    requires
        0 <= k < adds.len(),
    ensures
        last_category(adds, adds[k].0) is Some,
    decreases adds.len(),
{
    if adds.last().0 != adds[k].0 {
        assert(k < adds.len() - 1);
        assert(adds.drop_last()[k] == adds[k]);
        lemma_added_pattern_has_a_category(adds.drop_last(), k);
    }
}

// Laws: settings

/// A setting that was saved is read back with its new value, and no other
/// setting changes.
pub proof fn law_saved_setting_is_read_back(
    store: Store,
    key: Seq<char>,
    value: Seq<char>,
    other: Seq<char>,
    reply: RowReply<String>,
)
    requires
        setting_reply(
            effect(store, statement_of_two(Query::UpsertSetting, key, value)),
            key,
            reply,
        ),
        other != key,
    ensures
        setting_of(key, reply) == Ok::<Option<Seq<char>>, Seq<char>>(Some(value)),
        ({
            let after = effect(store, statement_of_two(Query::UpsertSetting, key, value));
            after.settings.contains_key(other) == store.settings.contains_key(other)
                && after.settings[other] == store.settings[other]
        }),
{
}

// Laws: events

/// The action that some statements give an event, the last of them deciding.
pub open spec fn last_action(
    statements: Seq<StatementView>,
    id: Seq<char>,
    before: Seq<char>,
) -> Seq<char>
    decreases statements.len(),
{
    if statements.len() == 0 {
        before
    } else if statements.last().query is UpdateAction && text_at(statements.last(), 1) == id {
        text_at(statements.last(), 0)
    } else {
        last_action(statements.drop_last(), id, before)
    }
}

/// The statement that records an event.
pub open spec fn event_statement(event: EventView) -> StatementView {
    insert_event(
        event.id,
        event.path,
        event.detected_category,
        event.confidence,
        event.action,
        event.timestamp,
    )
}

/// An event that was recorded stays in the database, whatever statements
/// follow: with the same path, category, confidence and time, and with the
/// action that it was given last.
pub proof fn law_logged_event_is_kept(store: Store, event: EventView, later: Seq<StatementView>)
    requires
        !store.events.contains_key(event.id),
        !not_a_number(event.confidence),
    ensures
        ({
            let logged = event_statement(event);
            let after = effects(effect(store, logged), later);
            &&& admitted(store, logged)
            &&& after.events.contains_key(event.id)
            &&& after.events[event.id] == (EventView {
                confidence: stored_number(event.confidence),
                action: last_action(later, event.id, event.action),
                ..event
            })
        }),
    decreases later.len(),
{
    if later.len() > 0 {
        law_logged_event_is_kept(store, event, later.drop_last());
    }
}

/// An event that was recorded is read back by its id as it was recorded, as
/// long as no statement sets its action; and after that with its new action.
pub proof fn law_logged_event_is_read_back(
    store: Store,
    event: EventView,
    later: Seq<StatementView>,
    reply: RowReply<FileEvent>,
    message: Seq<char>,
    r: Result<FileEvent, String>,
)
    requires
        !store.events.contains_key(event.id),
        !not_a_number(event.confidence),
        event_reply(effects(effect(store, event_statement(event)), later), event.id, reply),
        row_means(reply, r, message),
    ensures
        r matches Ok(read) && read@ == (EventView {
            confidence: stored_number(event.confidence),
            action: last_action(later, event.id, event.action),
            ..event
        }),
{
    law_logged_event_is_kept(store, event, later);
}

/// An event that was never recorded is not found.
pub proof fn law_unknown_event_is_not_found(
    store: Store,
    id: Seq<char>,
    later: Seq<StatementView>,
    reply: RowReply<FileEvent>,
    message: Seq<char>,
    r: Result<FileEvent, String>,
)
    requires
        !store.events.contains_key(id),
        forall|i: int|
            0 <= i < later.len() ==> !((#[trigger] later[i]).query is InsertEvent && text_at(
                later[i],
                0,
            ) == id),
        event_reply(effects(store, later), id, reply),
        row_means(reply, r, message),
    ensures
        r is Err,
{
    lemma_unknown_event(store, id, later);
}

/// An id is among the events only where a statement put it there.
proof fn lemma_unknown_event(store: Store, id: Seq<char>, later: Seq<StatementView>)
    requires
        !store.events.contains_key(id),
        forall|i: int|
            0 <= i < later.len() ==> !((#[trigger] later[i]).query is InsertEvent && text_at(
                later[i],
                0,
            ) == id),
    ensures
        !effects(store, later).events.contains_key(id),
    decreases later.len(),
{
    if later.len() > 0 {
        let front = later.drop_last();
        assert forall|i: int| 0 <= i < front.len() implies !((#[trigger] front[i]).query
            is InsertEvent && text_at(front[i], 0) == id) by {
            assert(front[i] == later[i]);
        }
        lemma_unknown_event(store, id, front);
        assert(later.last() == later[later.len() - 1]);
    }
}

/// The latest move that was made without asking is read where there is one,
/// and else there is an error.
pub proof fn law_last_auto_move_is_read(
    store: Store,
    reply: RowReply<FileEvent>,
    message: Seq<char>,
    r: Result<FileEvent, String>,
)
    requires
        last_auto_move_reply(store, reply),
        row_means(reply, r, message),
    ensures
        r is Ok <==> exists|id: Seq<char>| #[trigger] auto_move_but(store, id, Set::empty()),
        r matches Ok(event) ==> exists|id: Seq<char>| #[trigger]
            latest_auto_move(store, id) && event@ == store.events[id],
{
    if reply is Row {
        let id = choose|id: Seq<char>| #[trigger]
            latest_auto_move(store, id) && reply->Row_0@ == store.events[id];
        assert(latest_auto_move(store, id));
        assert(auto_move_but(store, id, Set::empty()));
    }
}

/// The record of a move that was made without asking is found as such, and the
/// record of one that was undone is not.
pub proof fn law_undone_moves_are_not_found(dest: Seq<char>)
    ensures
        like_auto_moved(auto_move_record(dest)),
        !like_auto_moved(UNDONE@),
{
    reveal_strlit("auto-moved to");
    reveal_strlit("auto-moved to ");
    reveal_strlit("undone");
    let lead = "auto-moved to"@;
    let action = auto_move_record(dest);
    assert forall|i: int| 0 <= i < lead.len() implies ascii_lower(#[trigger] action[i])
        == ascii_lower(lead[i]) by {
        assert(action[i] == AUTO_MOVED@[i]);
        assert(AUTO_MOVED@[i] == lead[i]);
    }
}

/// Marking an event as undone changes that event alone, and of it the action
/// alone; and the latest of the moves that were made without asking is then
/// the one before.
pub proof fn law_next_undo_takes_the_move_before(store: Store, id: Seq<char>)
    requires
        store.events.contains_key(id),
    ensures
        ({
            let mark = statement_of_two(Query::UpdateAction, UNDONE@, id);
            let after = effect(store, mark);
            &&& admitted(store, mark)
            &&& changed_rows(store, mark) == 1
            &&& after == (Store {
                events: store.events.insert(
                    id,
                    EventView { action: UNDONE@, ..store.events[id] },
                ),
                ..store
            })
            &&& forall|next: Seq<char>| #[trigger]
                latest_auto_move(after, next) <==> latest_but(store, next, set![id])
        }),
{
    let mark = statement_of_two(Query::UpdateAction, UNDONE@, id);
    let after = effect(store, mark);
    law_undone_moves_are_not_found(Seq::empty());
    assert forall|k: Seq<char>| #[trigger] auto_move_but(after, k, Set::empty())
        <==> auto_move_but(store, k, set![id]) by {}
    assert forall|next: Seq<char>| #[trigger] latest_auto_move(after, next) <==> latest_but(
        store,
        next,
        set![id],
    ) by {
        if latest_auto_move(after, next) {
            assert(auto_move_but(after, next, Set::empty()));
            assert forall|other: Seq<char>| #[trigger] auto_move_but(
                store,
                other,
                set![id],
            ) implies !text_less(
                store.events[next].timestamp,
                store.events[other].timestamp,
            ) by {
                assert(auto_move_but(after, other, Set::empty()));
            }
        }
        if latest_but(store, next, set![id]) {
            assert(auto_move_but(after, next, Set::empty()));
            assert forall|other: Seq<char>| #[trigger] auto_move_but(
                after,
                other,
                Set::empty(),
            ) implies !text_less(
                after.events[next].timestamp,
                after.events[other].timestamp,
            ) by {
                assert(auto_move_but(store, other, set![id]));
            }
        }
    }
}

// Laws: what the operations ask of the database

/// Recording an event adds one row, with just what was recorded, and changes
/// nothing else.
pub proof fn law_event_is_recorded(
    store: Store,
    id: &str,
    timestamp: &str,
    path: &str,
    category: &str,
    confidence: Confidence,
    action: &str,
    r: Statement,
)
    requires
        !store.events.contains_key(id@),
        !not_a_number(confidence),
        call_ensures(
            Database::log_event_at,
            (id, timestamp, path, category, confidence, action),
            r,
        ),
    ensures
        admitted(store, r@),
        effect(store, r@) == (Store {
            events: store.events.insert(
                id@,
                EventView {
                    id: id@,
                    path: path@,
                    detected_category: category@,
                    confidence: stored_number(confidence),
                    action: action@,
                    timestamp: timestamp@,
                },
            ),
            ..store
        }),
{
}

/// Recording an event under a new id adds one row under that id, with what was
/// recorded and a time in UTC, and changes nothing else.
pub proof fn law_event_is_recorded_under_a_new_id(
    store: Store,
    path: &str,
    category: &str,
    confidence: Confidence,
    action: &str,
    r: Insertion,
)
    requires
        !store.events.contains_key(r.id@),
        !not_a_number(confidence),
        call_ensures(Database::log_event, (path, category, confidence, action), r),
    ensures
        r.id@.len() == 36,
        admitted(store, r.statement@),
        exists|timestamp: Seq<char>|
            utc_timestamp(timestamp) && effect(store, r.statement@) == (Store {
                events: store.events.insert(
                    r.id@,
                    #[trigger] event_row(
                        r.id@,
                        path@,
                        category@,
                        stored_number(confidence),
                        action@,
                        timestamp,
                    ),
                ),
                ..store
            }),
{
    let timestamp = choose|timestamp: Seq<char>|
        utc_timestamp(timestamp) && r.statement@ == #[trigger] insert_event(
            r.id@,
            path@,
            category@,
            confidence,
            action@,
            timestamp,
        );
    assert(r.statement@ == insert_event(
        r.id@,
        path@,
        category@,
        confidence,
        action@,
        timestamp,
    ));
    let row = event_row(
        r.id@,
        path@,
        category@,
        stored_number(confidence),
        action@,
        timestamp,
    );
    assert(effect(store, r.statement@).events == store.events.insert(r.id@, row));
}

/// An event with these values.
pub open spec fn event_row(
    id: Seq<char>,
    path: Seq<char>,
    category: Seq<char>,
    confidence: Confidence,
    action: Seq<char>,
    timestamp: Seq<char>,
) -> EventView {
    EventView { id, path, detected_category: category, confidence, action, timestamp }
}

/// Putting a file into the queue adds one row, with just what was put there and
/// pending, and changes nothing else.
pub proof fn law_file_is_queued(
    store: Store,
    id: &str,
    timestamp: &str,
    file_path: &str,
    proposed_dest: &str,
    confidence: Confidence,
    r: Statement,
)
    requires
        !store.staging.contains_key(id@),
        !not_a_number(confidence),
        call_ensures(
            Database::add_to_staging_at,
            (id, timestamp, file_path, proposed_dest, confidence),
            r,
        ),
    ensures
        admitted(store, r@),
        effect(store, r@) == (Store {
            staging: store.staging.insert(
                id@,
                ItemView {
                    id: id@,
                    file_path: file_path@,
                    proposed_dest: proposed_dest@,
                    confidence: stored_number(confidence),
                    status: "pending"@,
                    timestamp: timestamp@,
                },
            ),
            ..store
        }),
{
}

/// A pending file with these values.
pub open spec fn pending_row(
    id: Seq<char>,
    file_path: Seq<char>,
    proposed_dest: Seq<char>,
    confidence: Confidence,
    timestamp: Seq<char>,
) -> ItemView {
    ItemView { id, file_path, proposed_dest, confidence, status: "pending"@, timestamp }
}

/// Putting a file into the queue under a new id adds one row under that id, with
/// what was put there, pending and with a time in UTC, and changes nothing else.
pub proof fn law_file_is_queued_under_a_new_id(
    store: Store,
    file_path: &str,
    proposed_dest: &str,
    confidence: Confidence,
    r: Insertion,
)
    requires
        !store.staging.contains_key(r.id@),
        !not_a_number(confidence),
        call_ensures(Database::add_to_staging, (file_path, proposed_dest, confidence), r),
    ensures
        r.id@.len() == 36,
        admitted(store, r.statement@),
        exists|timestamp: Seq<char>|
            utc_timestamp(timestamp) && effect(store, r.statement@) == (Store {
                staging: store.staging.insert(
                    r.id@,
                    #[trigger] pending_row(
                        r.id@,
                        file_path@,
                        proposed_dest@,
                        stored_number(confidence),
                        timestamp,
                    ),
                ),
                ..store
            }),
{
    let timestamp = choose|timestamp: Seq<char>|
        utc_timestamp(timestamp) && r.statement@ == #[trigger] insert_staging(
            r.id@,
            file_path@,
            proposed_dest@,
            confidence,
            timestamp,
        );
    assert(r.statement@ == insert_staging(
        r.id@,
        file_path@,
        proposed_dest@,
        confidence,
        timestamp,
    ));
    let row = pending_row(
        r.id@,
        file_path@,
        proposed_dest@,
        stored_number(confidence),
        timestamp,
    );
    assert(effect(store, r.statement@).staging == store.staging.insert(r.id@, row));
}

/// An id has the form of a random UUID, in small letters, and a time ends with
/// the offset of UTC.
pub proof fn law_form_of_ids_and_times(
    path: &str,
    category: &str,
    confidence: Confidence,
    action: &str,
    event: Insertion,
    file: Insertion,
    i: int,
)
    requires
        call_ensures(Database::log_event, (path, category, confidence, action), event),
        call_ensures(Database::add_to_staging, (path, action, confidence), file),
        0 <= i < 36,
    ensures
        event.id@.len() == 36 && file.id@.len() == 36,
        i == 8 || i == 13 || i == 18 || i == 23 ==> event.id@[i] == '-' && file.id@[i] == '-',
        event.id@[14] == '4' && file.id@[14] == '4',
        !(i == 8 || i == 13 || i == 18 || i == 23) ==> hex_digit(event.id@[i]) && hex_digit(
            file.id@[i],
        ),
        forall|c: char| #[trigger] hex_digit(c) <==> '0' <= c <= '9' || 'a' <= c <= 'f',
        forall|t: Seq<char>| #[trigger]
            utc_timestamp(t) ==> t.len() >= 25 && t[t.len() - 6] == '+' && t[t.len() - 5] == '0'
                && t[t.len() - 4] == '0' && t[t.len() - 3] == ':' && t[t.len() - 2] == '0' && t[
            t.len() - 1] == '0',
{
    assert forall|t: Seq<char>| #[trigger] utc_timestamp(t) implies t.len() >= 25 && t[t.len() - 6]
        == '+' && t[t.len() - 5] == '0' && t[t.len() - 4] == '0' && t[t.len() - 3] == ':' && t[
    t.len() - 2] == '0' && t[t.len() - 1] == '0' by {
        let tail = t.skip(t.len() - 6);
        assert(tail[0] == '+' && tail[1] == '0' && tail[2] == '0' && tail[3] == ':' && tail[4]
            == '0' && tail[5] == '0');
    }
}

/// Setting the status of a file in the queue changes that of its row alone, and
/// setting the action of an event that of its row alone.
pub proof fn law_updates_change_one_column(
    store: Store,
    id: &str,
    text: &str,
    status: Statement,
    action: Statement,
)
    requires
        call_ensures(Database::update_staging_status, (id, text), status),
        call_ensures(Database::update_event_action, (id, text), action),
    ensures
        store.staging.contains_key(id@) ==> changed_rows(store, status@) == 1 && effect(
            store,
            status@,
        ) == (Store {
            staging: store.staging.insert(
                id@,
                ItemView { status: text@, ..store.staging[id@] },
            ),
            ..store
        }),
        !store.staging.contains_key(id@) ==> changed_rows(store, status@) == 0 && effect(
            store,
            status@,
        ) == store,
        store.events.contains_key(id@) ==> changed_rows(store, action@) == 1 && effect(
            store,
            action@,
        ) == (Store {
            events: store.events.insert(id@, EventView { action: text@, ..store.events[id@] }),
            ..store
        }),
        !store.events.contains_key(id@) ==> changed_rows(store, action@) == 0 && effect(
            store,
            action@,
        ) == store,
{
}

/// Adding a rule sets the category of its pattern and keeps its hits, and
/// saving a setting sets its value; nothing else changes.
pub proof fn law_rules_and_settings_are_set(
    store: Store,
    pattern: &str,
    category: &str,
    rule: Statement,
    key: &str,
    value: &str,
    setting: Statement,
)
    requires
        call_ensures(Database::add_rule, (pattern, category), rule),
        call_ensures(Database::save_setting, (key, value), setting),
    ensures
        effect(store, rule@) == (Store {
            rules: store.rules.insert(
                pattern@,
                RuleView {
                    pattern: pattern@,
                    category: category@,
                    hits: if store.rules.contains_key(pattern@) {
                        store.rules[pattern@].hits
                    } else {
                        0
                    },
                },
            ),
            ..store
        }),
        effect(store, setting@) == (Store {
            settings: store.settings.insert(key@, value@),
            ..store
        }),
{
}

/// The folders that are saved as watched are the ones that are then read: what
/// is saved is the setting `watched_folders`, and the list that is read from it
/// is the list that was saved.
pub proof fn law_watched_folders_are_read_back(
    store: Store,
    folders: Vec<String>,
    saved: Result<Statement, String>,
    asked: Statement,
    reply: RowReply<String>,
    read: Result<Vec<String>, String>,
)
    requires
        call_ensures(Database::save_watched_folders, (&folders,), saved),
        call_ensures(Database::get_watched_folders, (), asked),
        saved matches Ok(statement) && setting_reply(
            effect(store, statement@),
            text_at(asked@, 0),
            reply,
        ),
        call_ensures(Database::get_watched_folders_reply, (reply,), read),
    ensures
        asked@.query is SelectSetting,
        text_at(asked@, 0) == "watched_folders"@,
        read matches Ok(list) && texts(list@) == texts(folders@),
{
}

/// Reading asks for just the row, the rows or the setting that is wanted. A
/// number of events past the greatest that the database counts to is a negative
/// one there.
pub proof fn law_reading_asks_for_what_is_wanted(
    id: &str,
    limit: usize,
    queue: Statement,
    setting: Statement,
    history: Statement,
    item: Statement,
    last: Statement,
    event: Statement,
    rules: Statement,
)
    requires
        call_ensures(Database::get_staging_queue, (), queue),
        call_ensures(Database::get_setting, (id,), setting),
        call_ensures(Database::get_history, (limit,), history),
        call_ensures(Database::get_staging_item, (id,), item),
        call_ensures(Database::get_last_auto_move, (), last),
        call_ensures(Database::get_file_event, (id,), event),
        call_ensures(Database::get_rules, (), rules),
    ensures
        queue@.query is SelectPending && queue@.params.len() == 0,
        setting@.query is SelectSetting && setting@.params == seq![SqlView::Text(id@)],
        history@.query is SelectHistory && history@.params == seq![
            SqlView::Integer(
                if limit <= i64::MAX {
                    limit as int
                } else {
                    limit - 0x1_0000_0000_0000_0000
                },
            ),
        ],
        item@.query is SelectStagingItem && item@.params == seq![SqlView::Text(id@)],
        last@.query is SelectLastAutoMove && last@.params.len() == 0,
        event@.query is SelectEvent && event@.params == seq![SqlView::Text(id@)],
        rules@.query is SelectRules && rules@.params.len() == 0,
{
    if limit > i64::MAX {
        let n = limit as u64;
        assert(limit as i64 == n as i64);
        assert(n > 0x7FFF_FFFF_FFFF_FFFF ==> (n as i64) == n - 0x1_0000_0000_0000_0000)
            by (bit_vector);
    }
}

/// A row that was added is known by its id, and a failure is an error with the
/// cause.
pub proof fn law_added_row_is_known_by_its_id(
    id: String,
    rows: usize,
    cause: String,
    event: Result<String, String>,
    event_failed: Result<String, String>,
    file: Result<String, String>,
    file_failed: Result<String, String>,
)
    requires
        call_ensures(Database::log_event_reply, (id, Ok(rows)), event),
        call_ensures(Database::log_event_reply, (id, Err(cause)), event_failed),
        call_ensures(Database::add_to_staging_reply, (id, Ok(rows)), file),
        call_ensures(Database::add_to_staging_reply, (id, Err(cause)), file_failed),
    ensures
        event matches Ok(t) && t@ == id@,
        event_failed matches Err(e) && e@ == "Failed to log event: "@ + cause@,
        file matches Ok(t) && t@ == id@,
        file_failed matches Err(e) && e@ == "Failed to add to staging: "@ + cause@,
{
}

/// A change by id succeeds where a row was changed, and is an error that names
/// the id where none was, or the cause where the database failed.
pub proof fn law_change_of_an_unknown_row_is_an_error(
    id: &str,
    rows: usize,
    cause: String,
    status: Result<(), String>,
    status_failed: Result<(), String>,
    action: Result<(), String>,
    action_failed: Result<(), String>,
)
    requires
        call_ensures(Database::update_staging_status_reply, (id, Ok(rows)), status),
        call_ensures(Database::update_staging_status_reply, (id, Err(cause)), status_failed),
        call_ensures(Database::update_event_action_reply, (id, Ok(rows)), action),
        call_ensures(Database::update_event_action_reply, (id, Err(cause)), action_failed),
    ensures
        rows > 0 ==> status is Ok && action is Ok,
        rows == 0 ==> (status matches Err(e) && e@ == "No staging item found with id: "@ + id@),
        rows == 0 ==> (action matches Err(e) && e@ == "No file_event found with id: "@ + id@),
        status_failed matches Err(e) && e@ == "Failed to update staging status: "@ + cause@,
        action_failed matches Err(e) && e@ == "Failed to update event action: "@ + cause@,
{
}

/// A rule and a setting that the database took are saved, and else there is an
/// error with the cause.
pub proof fn law_saving_succeeds_where_the_database_does(
    key: &str,
    rows: usize,
    cause: String,
    rule: Result<(), String>,
    rule_failed: Result<(), String>,
    setting: Result<(), String>,
    setting_failed: Result<(), String>,
)
    requires
        call_ensures(Database::add_rule_reply, (Ok(rows),), rule),
        call_ensures(Database::add_rule_reply, (Err(cause),), rule_failed),
        call_ensures(Database::save_setting_reply, (key, Ok(rows)), setting),
        call_ensures(Database::save_setting_reply, (key, Err(cause)), setting_failed),
    ensures
        rule is Ok && setting is Ok,
        rule_failed matches Err(e) && e@ == "Failed to add rule: "@ + cause@,
        setting_failed matches Err(e) && e@ == "Failed to save setting '"@ + key@ + "': "@ + cause@,
{
}

/// A setting is given as it was read, nothing where it was never saved, and an
/// error with the cause where reading failed. The watched folders are then none,
/// or that error.
pub proof fn law_setting_is_given_as_it_was_read(
    key: &str,
    value: String,
    cause: String,
    r: Result<Option<String>, String>,
    none: Result<Option<String>, String>,
    failed: Result<Option<String>, String>,
    no_folders: Result<Vec<String>, String>,
    failed_folders: Result<Vec<String>, String>,
)
    requires
        call_ensures(Database::get_setting_reply, (key, RowReply::Row(value)), r),
        call_ensures(Database::get_setting_reply, (key, RowReply::NoRow(cause)), none),
        call_ensures(Database::get_setting_reply, (key, RowReply::Failed(cause)), failed),
        call_ensures(Database::get_watched_folders_reply, (RowReply::NoRow(cause),), no_folders),
        call_ensures(
            Database::get_watched_folders_reply,
            (RowReply::Failed(cause),),
            failed_folders,
        ),
    ensures
        r matches Ok(Some(t)) && t@ == value@,
        none matches Ok(None),
        failed matches Err(e) && e@ == "Failed to get setting '"@ + key@ + "': "@ + cause@,
        no_folders matches Ok(list) && list@.len() == 0,
        failed_folders matches Err(e) && e@ == "Failed to get setting '"@ + "watched_folders"@
            + "': "@ + cause@,
{
    if let Ok(list) = no_folders {
        assert(texts(list@).len() == list@.len());
    }
}

/// A list of watched folders that cannot be read is an error with the cause.
pub proof fn law_unreadable_folders_are_an_error(
    value: String,
    read: Result<Vec<String>, String>,
)
    requires
        call_ensures(Database::get_watched_folders_reply, (RowReply::Row(value),), read),
    ensures
        match string_list_of(value@) {
            Ok(list) => read matches Ok(l) && texts(l@) == list,
            Err(cause) => read matches Err(e) && e@ == "Failed to parse watched_folders: "@ + cause,
        },
{
}

/// Opening, in words of its calls: the directory is created, the file
/// `sortd.db` opened and the tables initialized; the first failure ends it with
/// what it was about and the cause.
pub proof fn law_opening_takes_its_steps(
    file: &'static str,
    batch: &'static str,
    cause: String,
    created: OpenStep,
    not_created: OpenStep,
    opened: OpenStep,
    not_opened: OpenStep,
    done: OpenStep,
    not_done: OpenStep,
)
    requires
        call_ensures(Database::new, (OpenStep::CreateDir, Ok(())), created),
        call_ensures(Database::new, (OpenStep::CreateDir, Err(cause)), not_created),
        call_ensures(Database::new, (OpenStep::Open { file }, Ok(())), opened),
        call_ensures(Database::new, (OpenStep::Open { file }, Err(cause)), not_opened),
        call_ensures(Database::new, (OpenStep::InitTables { batch }, Ok(())), done),
        call_ensures(Database::new, (OpenStep::InitTables { batch }, Err(cause)), not_done),
    ensures
        created@ == (OpenView::Open { file: "sortd.db"@ }),
        not_created@ == (OpenView::Done {
            result: Err("Failed to create app data dir: "@ + cause@),
        }),
        opened@ == (OpenView::InitTables { batch: SCHEMA@ }),
        not_opened@ == (OpenView::Done { result: Err("Failed to open database: "@ + cause@) }),
        done@ == (OpenView::Done { result: Ok(()) }),
        not_done@ == (OpenView::Done {
            result: Err("Failed to initialize tables: "@ + cause@),
        }),
{
}

/// The files that wait are given as they were read, and each way to fail is an error that
/// tells which it was and the cause.
pub proof fn law_queue_is_given_as_it_was_read(
    rows: Vec<StagingItem>,
    cause: String,
    r: Result<Vec<StagingItem>, String>,
    prepare: Result<Vec<StagingItem>, String>,
    query: Result<Vec<StagingItem>, String>,
    collect: Result<Vec<StagingItem>, String>,
)
    requires
        call_ensures(Database::get_staging_queue_reply, (RowsReply::Rows(rows),), r),
        call_ensures(Database::get_staging_queue_reply, (RowsReply::PrepareFailed(cause),), prepare),
        call_ensures(Database::get_staging_queue_reply, (RowsReply::QueryFailed(cause),), query),
        call_ensures(Database::get_staging_queue_reply, (RowsReply::CollectFailed(cause),), collect),
    ensures
        r == Ok::<Vec<StagingItem>, String>(rows),
        prepare matches Err(e) && e@ == "Failed to prepare staging query: "@ + cause@,
        query matches Err(e) && e@ == "Failed to query staging queue: "@ + cause@,
        collect matches Err(e) && e@ == "Failed to collect staging items: "@ + cause@,
{
}

/// The latest events are given as they were read, and each way to fail is an error that
/// tells which it was and the cause.
pub proof fn law_history_is_given_as_it_was_read(
    rows: Vec<FileEvent>,
    cause: String,
    r: Result<Vec<FileEvent>, String>,
    prepare: Result<Vec<FileEvent>, String>,
    query: Result<Vec<FileEvent>, String>,
    collect: Result<Vec<FileEvent>, String>,
)
    requires
        call_ensures(Database::get_history_reply, (RowsReply::Rows(rows),), r),
        call_ensures(Database::get_history_reply, (RowsReply::PrepareFailed(cause),), prepare),
        call_ensures(Database::get_history_reply, (RowsReply::QueryFailed(cause),), query),
        call_ensures(Database::get_history_reply, (RowsReply::CollectFailed(cause),), collect),
    ensures
        r == Ok::<Vec<FileEvent>, String>(rows),
        prepare matches Err(e) && e@ == "Failed to prepare history query: "@ + cause@,
        query matches Err(e) && e@ == "Failed to query history: "@ + cause@,
        collect matches Err(e) && e@ == "Failed to collect history: "@ + cause@,
{
}

/// The rules are given as they were read, and each way to fail is an error that
/// tells which it was and the cause.
pub proof fn law_rules_are_given_as_they_were_read(
    rows: Vec<Rule>,
    cause: String,
    r: Result<Vec<Rule>, String>,
    prepare: Result<Vec<Rule>, String>,
    query: Result<Vec<Rule>, String>,
    collect: Result<Vec<Rule>, String>,
)
    requires
        call_ensures(Database::get_rules_reply, (RowsReply::Rows(rows),), r),
        call_ensures(Database::get_rules_reply, (RowsReply::PrepareFailed(cause),), prepare),
        call_ensures(Database::get_rules_reply, (RowsReply::QueryFailed(cause),), query),
        call_ensures(Database::get_rules_reply, (RowsReply::CollectFailed(cause),), collect),
    ensures
        r == Ok::<Vec<Rule>, String>(rows),
        prepare matches Err(e) && e@ == "Failed to prepare rules query: "@ + cause@,
        query matches Err(e) && e@ == "Failed to query rules: "@ + cause@,
        collect matches Err(e) && e@ == "Failed to collect rules: "@ + cause@,
{
}

/// A file of the queue is given as it was read; where there is none, or reading fails, that
/// is an error with the cause.
pub proof fn law_item_is_given_as_it_was_read(
    id: &str,
    row: StagingItem,
    cause: String,
    r: Result<StagingItem, String>,
    none: Result<StagingItem, String>,
    failed: Result<StagingItem, String>,
)
    requires
        call_ensures(Database::get_staging_item_reply, (id, RowReply::Row(row)), r),
        call_ensures(Database::get_staging_item_reply, (id, RowReply::NoRow(cause)), none),
        call_ensures(Database::get_staging_item_reply, (id, RowReply::Failed(cause)), failed),
    ensures
        r == Ok::<StagingItem, String>(row),
        none matches Err(e) && e@ == "Staging item '"@ + id@ + "' not found: "@ + cause@,
        failed matches Err(e) && e@ == "Staging item '"@ + id@ + "' not found: "@ + cause@,
{
}

/// An event is given as it was read; where there is none, or reading fails, that
/// is an error with the cause.
pub proof fn law_event_is_given_as_it_was_read(
    id: &str,
    row: FileEvent,
    cause: String,
    r: Result<FileEvent, String>,
    none: Result<FileEvent, String>,
    failed: Result<FileEvent, String>,
)
    requires
        call_ensures(Database::get_file_event_reply, (id, RowReply::Row(row)), r),
        call_ensures(Database::get_file_event_reply, (id, RowReply::NoRow(cause)), none),
        call_ensures(Database::get_file_event_reply, (id, RowReply::Failed(cause)), failed),
    ensures
        r == Ok::<FileEvent, String>(row),
        none matches Err(e) && e@ == "File event '"@ + id@ + "' not found: "@ + cause@,
        failed matches Err(e) && e@ == "File event '"@ + id@ + "' not found: "@ + cause@,
{
}

/// The latest move is given as it was read; where there is none, or reading fails, that
/// is an error with the cause.
pub proof fn law_last_move_is_given_as_it_was_read(
    row: FileEvent,
    cause: String,
    r: Result<FileEvent, String>,
    none: Result<FileEvent, String>,
    failed: Result<FileEvent, String>,
)
    requires
        call_ensures(Database::get_last_auto_move_reply, (RowReply::Row(row),), r),
        call_ensures(Database::get_last_auto_move_reply, (RowReply::NoRow(cause),), none),
        call_ensures(Database::get_last_auto_move_reply, (RowReply::Failed(cause),), failed),
    ensures
        r == Ok::<FileEvent, String>(row),
        none matches Err(e) && e@ == "No auto-moved file found: "@ + cause@,
        failed matches Err(e) && e@ == "No auto-moved file found: "@ + cause@,
{
}

/// A database that was opened, or could not be, stays so.
pub proof fn law_done_opening_stays_done(step: OpenStep, reply: Result<(), String>, r: OpenStep)
    requires
        step is Done,
        call_ensures(Database::new, (step, reply), r),
    ensures
        r@ == step@,
{
}

} // verus!
