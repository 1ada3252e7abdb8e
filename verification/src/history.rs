//! What was done with files, and undoing it.
use vstd::prelude::*;
use crate::db::FileEvent;
use crate::text::{because, reply_view, same_text};

verus! {

/// What the record of a move that was made without asking begins with.
pub const AUTO_MOVED: &'static str = "auto-moved to ";

/// The record of a move that was undone.
pub const UNDONE: &'static str = "undone";

/// How many events the user is shown.
pub const HISTORY_LIMIT: usize = 100;

/// The record of a move to `dest` that was made without asking.
pub open spec fn auto_move_record(dest: Seq<char>) -> Seq<char> {
    AUTO_MOVED@ + dest
}

/// Where a recorded move went to; nothing where the record is not of such a
/// move.
pub open spec fn auto_move_dest(action: Seq<char>) -> Option<Seq<char>> {
    if AUTO_MOVED@.is_prefix_of(action) {
        Some(action.skip(AUTO_MOVED@.len() as int))
    } else {
        None
    }
}

/// The record of a move to `dest` that was made without asking.
pub fn auto_move_action(dest: &str) -> (r: String)
    ensures
        r@ == auto_move_record(dest@),
{
    because(AUTO_MOVED, dest)
}

/// Where a recorded move went to.
pub fn auto_move_target(action: &str) -> (r: Option<String>)
    ensures
        r is Some <==> auto_move_dest(action@) is Some,
        r matches Some(t) ==> auto_move_dest(action@) == Some(t@),
{
    let lead: usize = AUTO_MOVED.unicode_len();
    let len: usize = action.unicode_len();
    if len < lead {
        return None;
    }
    proof {
        assert(action@.subrange(0, lead as int) =~= action@.take(lead as int));
        assert(action@.subrange(lead as int, len as int) =~= action@.skip(lead as int));
        assert(AUTO_MOVED@.is_prefix_of(action@) <==> AUTO_MOVED@ == action@.take(lead as int)) by {
            if AUTO_MOVED@ == action@.take(lead as int) {
                assert(AUTO_MOVED@.is_prefix_of(action@));
            }
        }
    }
    if same_text(action.substring_char(0, lead), AUTO_MOVED) {
        Some(action.substring_char(lead, len).to_owned())
    } else {
        None
    }
}

/// What is to be done next to undo the latest move.
pub enum UndoStep {
    /// Ask the database for the latest move that was made without asking.
    GetLastAutoMove,
    /// Move the file at `from` to `to`.
    Move { id: String, from: String, to: String },
    /// Record that the move of that id was undone.
    MarkUndone { id: String },
    /// Nothing: this is the result.
    Done { result: Result<(), String> },
}

/// What came of a step.
pub enum UndoEvent {
    LastAutoMove { event: Result<FileEvent, String> },
    Moved { result: Result<(), String> },
    Marked { result: Result<(), String> },
}

/// The value of a step.
#[verifier::ext_equal]
pub enum UndoView {
    GetLastAutoMove,
    Move { id: Seq<char>, from: Seq<char>, to: Seq<char> },
    MarkUndone { id: Seq<char> },
    Done { result: Result<(), Seq<char>> },
}

impl View for UndoStep {
    type V = UndoView;

    open spec fn view(&self) -> UndoView {
        match self {
            UndoStep::GetLastAutoMove => UndoView::GetLastAutoMove,
            UndoStep::Move { id, from, to } => UndoView::Move { id: id@, from: from@, to: to@ },
            UndoStep::MarkUndone { id } => UndoView::MarkUndone { id: id@ },
            UndoStep::Done { result } => UndoView::Done { result: reply_view(*result) },
        }
    }
}

/// The step that follows `step` after `event`: the file goes back to where it
/// was, and only then is the move recorded as undone. An event that does not
/// belong to the step changes nothing.
pub open spec fn undo_after(step: UndoView, event: UndoEvent) -> UndoView {
    match (step, event) {
        (UndoView::GetLastAutoMove, UndoEvent::LastAutoMove { event: Ok(e) }) => match auto_move_dest(
            e.action@,
        ) {
            Some(dest) => UndoView::Move { id: e.id@, from: dest, to: e.path@ },
            None => UndoView::Done { result: Err("Last event has unexpected action format"@) },
        },
        (UndoView::GetLastAutoMove, UndoEvent::LastAutoMove { event: Err(e) }) => UndoView::Done {
            result: Err(e@),
        },
        (UndoView::Move { id, .. }, UndoEvent::Moved { result: Ok(_) }) => UndoView::MarkUndone {
            id,
        },
        (UndoView::Move { .. }, UndoEvent::Moved { result: Err(e) }) => UndoView::Done {
            result: Err(e@),
        },
        (UndoView::MarkUndone { .. }, UndoEvent::Marked { result }) => UndoView::Done {
            result: reply_view(result),
        },
        _ => step,
    }
}

/// Undoes the latest move that was made without asking, from
/// `GetLastAutoMove` on: the step that follows `step` after `event`.
pub fn undo_last_move(step: UndoStep, event: UndoEvent) -> (r: UndoStep)
    ensures
        r@ == undo_after(step@, event),
{
    match (step, event) {
        (UndoStep::GetLastAutoMove, UndoEvent::LastAutoMove { event: Ok(e) }) => {
            match auto_move_target(e.action.as_str()) {
                Some(dest) => UndoStep::Move { id: e.id, from: dest, to: e.path },
                None => UndoStep::Done {
                    result: Err("Last event has unexpected action format".to_owned()),
                },
            }
        },
        (UndoStep::GetLastAutoMove, UndoEvent::LastAutoMove { event: Err(e) }) => UndoStep::Done {
            result: Err(e),
        },
        (UndoStep::Move { id, from: _, to: _ }, UndoEvent::Moved { result: Ok(_) }) =>
        UndoStep::MarkUndone { id },
        (UndoStep::Move { id: _, from: _, to: _ }, UndoEvent::Moved { result: Err(e) }) =>
        UndoStep::Done { result: Err(e) },
        (UndoStep::MarkUndone { id: _ }, UndoEvent::Marked { result }) => UndoStep::Done { result },
        (other, _) => other,
    }
}

// Laws

/// The record of a move tells where the file went.
pub proof fn law_record_tells_the_destination(dest: Seq<char>)
    ensures
        auto_move_dest(auto_move_record(dest)) == Some(dest),
{
    let action = auto_move_record(dest);
    assert(AUTO_MOVED@.is_prefix_of(action)) by {
        assert(action.take(AUTO_MOVED@.len() as int) =~= AUTO_MOVED@);
    }
    assert(action.skip(AUTO_MOVED@.len() as int) =~= dest);
}

/// Undoing a recorded move moves the file from where it went to back to where
/// it came from.
pub proof fn law_undo_reverses_the_move(event: FileEvent, dest: Seq<char>)
    requires
        event.action@ == auto_move_record(dest),
    ensures
        undo_after(
            UndoView::GetLastAutoMove,
            UndoEvent::LastAutoMove { event: Ok(event) },
        ) == (UndoView::Move { id: event.id@, from: dest, to: event.path@ }),
{
    law_record_tells_the_destination(dest);
}

/// A move is recorded as undone only after the file was moved back.
pub proof fn law_undone_only_after_moving_back(step: UndoView, event: UndoEvent)
    requires
        undo_after(step, event) is MarkUndone,
        !(step is MarkUndone),
    ensures
        step matches UndoView::Move { id, .. } && undo_after(step, event) == (UndoView::MarkUndone {
            id,
        }),
        event matches UndoEvent::Moved { result } && result is Ok,
{
}

/// A move that was undone is not taken for one that can be undone again.
pub proof fn law_undone_move_is_not_undone_again()
    ensures
        auto_move_dest(UNDONE@) is None,
{
    reveal_strlit("undone");
    reveal_strlit("auto-moved to ");
}

/// What the database and the operating system say in the course of one undoing.
pub struct UndoWorld {
    pub last: Result<FileEvent, String>,
    pub moved: Result<(), String>,
    pub marked: Result<(), String>,
}

/// What comes of a step.
pub open spec fn undo_world_event(world: UndoWorld, step: UndoView) -> UndoEvent {
    match step {
        UndoView::GetLastAutoMove => UndoEvent::LastAutoMove { event: world.last },
        UndoView::Move { .. } => UndoEvent::Moved { result: world.moved },
        _ => UndoEvent::Marked { result: world.marked },
    }
}

/// The step reached after `n` events.
pub open spec fn undo_run(world: UndoWorld, n: nat) -> UndoView
    decreases n,
{
    if n == 0 {
        UndoView::GetLastAutoMove
    } else {
        let before = undo_run(world, (n - 1) as nat);
        undo_after(before, undo_world_event(world, before))
    }
}

/// Undoing is over after three events. It succeeds exactly where there is a
/// recorded move, the file can be moved back, and that can be recorded; else
/// the result is the first error.
pub proof fn law_undo_outcome(world: UndoWorld)
    ensures
        undo_run(world, 3) == (UndoView::Done {
            result: match world.last {
                Err(e) => Err(e@),
                Ok(event) => if auto_move_dest(event.action@) is None {
                    Err("Last event has unexpected action format"@)
                } else {
                    match world.moved {
                        Err(e) => Err(e@),
                        Ok(_) => reply_view(world.marked),
                    }
                },
            },
        }),
{
    reveal_with_fuel(undo_run, 4);
}

/// A record reads `auto-moved to ` and the destination, and only from such a
/// record a destination is read, which is all that follows.
pub proof fn law_record_and_destination(
    dest: &str,
    record: String,
    action: &str,
    read: Option<String>,
)
    requires
        call_ensures(auto_move_action, (dest,), record),
        call_ensures(auto_move_target, (action,), read),
    ensures
        record@ == "auto-moved to "@ + dest@,
        action@ == record@ ==> (read matches Some(t) && t@ == dest@),
        read matches Some(t) ==> action@ == "auto-moved to "@ + t@,
        read is None ==> forall|t: Seq<char>| action@ != #[trigger] ("auto-moved to "@ + t),
{
    let lead = "auto-moved to "@;
    law_record_tells_the_destination(dest@);
    if let Some(t) = read {
        assert(action@ =~= lead + t@);
    } else {
        assert forall|t: Seq<char>| action@ != #[trigger] (lead + t) by {
            if action@ == lead + t {
                law_record_tells_the_destination(t);
                assert(auto_move_record(t) == action@);
            }
        }
    }
}

/// Each step of undoing, in words of its calls: the file of the record is moved
/// back from where it went to where it came from, then that very event is
/// marked, and every error ends it as it is.
pub proof fn law_undo_takes_its_steps(
    event: FileEvent,
    dest: Seq<char>,
    error: String,
    result: Result<(), String>,
    id: String,
    from: String,
    to: String,
    found: UndoStep,
    odd: FileEvent,
    unexpected: UndoStep,
    none: UndoStep,
    moved: UndoStep,
    stuck: UndoStep,
    marked: UndoStep,
)
    requires
        event.action@ == "auto-moved to "@ + dest,
        forall|t: Seq<char>| odd.action@ != #[trigger] ("auto-moved to "@ + t),
        call_ensures(
            undo_last_move,
            (UndoStep::GetLastAutoMove, UndoEvent::LastAutoMove { event: Ok(event) }),
            found,
        ),
        call_ensures(
            undo_last_move,
            (UndoStep::GetLastAutoMove, UndoEvent::LastAutoMove { event: Ok(odd) }),
            unexpected,
        ),
        call_ensures(
            undo_last_move,
            (UndoStep::GetLastAutoMove, UndoEvent::LastAutoMove { event: Err(error) }),
            none,
        ),
        call_ensures(
            undo_last_move,
            (UndoStep::Move { id, from, to }, UndoEvent::Moved { result: Ok(()) }),
            moved,
        ),
        call_ensures(
            undo_last_move,
            (UndoStep::Move { id, from, to }, UndoEvent::Moved { result: Err(error) }),
            stuck,
        ),
        call_ensures(
            undo_last_move,
            (UndoStep::MarkUndone { id }, UndoEvent::Marked { result }),
            marked,
        ),
    ensures
        found@ == (UndoView::Move { id: event.id@, from: dest, to: event.path@ }),
        unexpected@ == (UndoView::Done {
            result: Err("Last event has unexpected action format"@),
        }),
        none@ == (UndoView::Done { result: Err(error@) }),
        moved@ == (UndoView::MarkUndone { id: id@ }),
        stuck@ == (UndoView::Done { result: Err(error@) }),
        marked@ == (UndoView::Done {
            result: match result {
                Ok(_) => Ok(()),
                Err(e) => Err(e@),
            },
        }),
{
    law_record_tells_the_destination(dest);
    if let Some(t) = auto_move_dest(odd.action@) {
        assert(odd.action@ =~= "auto-moved to "@ + t);
    }
}

/// The words of the records and how many events are shown.
pub proof fn law_words_of_the_history()
    ensures
        AUTO_MOVED@ == "auto-moved to "@,
        UNDONE@ == "undone"@,
        HISTORY_LIMIT == 100,
{
}

/// An event that does not belong to the step changes nothing, and what is done
/// stays done.
pub proof fn law_stray_event_undoes_nothing(step: UndoStep, event: UndoEvent, r: UndoStep)
    requires
        call_ensures(undo_last_move, (step, event), r),
        !(step is GetLastAutoMove && event is LastAutoMove),
        !(step is Move && event is Moved),
        !(step is MarkUndone && event is Marked),
    ensures
        r@ == step@,
{
}

} // verus!
