//! Laws of whole flows: what sorting, undoing and approving do to the files on
//! the disk and to the rows in the database.
use vstd::prelude::*;
use crate::agent::{process_after, ProcessEvent, ProcessView};
use crate::classifier::ClassificationView;
use crate::confidence::above_threshold;
use crate::db::{
    changed, insert_event, statement_of_two, EventView, FileEvent, Query, RuleView, StagingItem,
};
use crate::history::{
    auto_move_record, law_undo_reverses_the_move, undo_after, UndoEvent, UndoView, UNDONE,
};
use crate::path::{reads_as, PartView};
use crate::staging::{
    approve_after, approve_learning, folder_category, learned_rule, reject_after, reject_learning,
    ApproveEvent, ApproveView, ItemView, RejectEvent, RejectView, APPROVED, REJECTED,
};
use crate::store::{
    admitted, auto_move_but, changed_rows, effect, latest_auto_move, latest_but,
    law_next_undo_takes_the_move_before, law_undone_moves_are_not_found, lemma_not_before_itself,
    not_a_number, stored_number, text_less, Store,
};
use crate::transfer::{
    candidate, law_move_outcome, movable, move_run, settled_for, Disk, MoveView, MoveWorld,
    UniqueDest,
};

verus! {

/// What a change by id means where the database has made it: an error exactly
/// where there was no such row.
pub open spec fn made(rows: nat) -> Result<usize, String> {
    Ok(rows as usize)
}

/// A file that is sorted without asking is recorded once it was moved, and the
/// record is then the latest move that can be undone, where no earlier one has
/// a later time.
pub proof fn law_auto_move_is_recorded(
    store: Store,
    path: Seq<PartView>,
    shown: Seq<char>,
    base: Seq<PartView>,
    folder: Seq<PartView>,
    classification: ClassificationView,
    dest: Seq<PartView>,
    dest_shown: Seq<char>,
    id: Seq<char>,
    timestamp: Seq<char>,
)
    requires
        above_threshold(classification.confidence.bits),
        !store.events.contains_key(id),
        forall|other: Seq<char>| #[trigger]
            store.events.contains_key(other) ==> !text_less(
                timestamp,
                store.events[other].timestamp,
            ),
    ensures
        ({
            let action = auto_move_record(dest_shown);
            let record = insert_event(
                id,
                shown,
                classification.category,
                classification.confidence,
                action,
                timestamp,
            );
            let after = effect(store, record);
            &&& process_after(
                path,
                shown,
                base,
                folder,
                ProcessView::Move { classification, dest, shown: dest_shown },
                ProcessEvent::Moved { ok: true },
            ) == (ProcessView::LogMove {
                path: shown,
                category: classification.category,
                confidence: classification.confidence,
                action,
            })
            &&& admitted(store, record)
            &&& after.events == store.events.insert(
                id,
                EventView {
                    id,
                    path: shown,
                    detected_category: classification.category,
                    confidence: classification.confidence,
                    action,
                    timestamp,
                },
            )
            &&& latest_auto_move(after, id)
        }),
{
    law_undone_moves_are_not_found(dest_shown);
    let bits = classification.confidence.bits;
    assert(bits % 0x8000_0000_0000_0000 == bits) by {
        assert(bits <= 0x7FF0_0000_0000_0000);
    }
    assert(stored_number(classification.confidence) == classification.confidence);
    let action = auto_move_record(dest_shown);
    let record = insert_event(
        id,
        shown,
        classification.category,
        classification.confidence,
        action,
        timestamp,
    );
    let after = effect(store, record);
    assert(auto_move_but(after, id, Set::empty()));
    assert forall|other: Seq<char>| #[trigger] auto_move_but(after, other, Set::empty()) implies
        !text_less(after.events[id].timestamp, after.events[other].timestamp) by {
        if other != id {
            assert(store.events.contains_key(other));
        } else {
            lemma_not_before_itself(timestamp);
        }
    }
}

/// Undoing the latest move that was made without asking, where the file is
/// still at the place `dest` that its record tells and nothing is at the place
/// `origin` that it came from: the file is back there with its content and
/// gone from `dest`, nothing else on the disk has changed, the event reads
/// `undone` and is else the same, no other row has changed, the result is a
/// success, and the next undoing takes the move before.
pub proof fn law_undo_brings_the_file_back(
    store: Store,
    disk: Disk,
    event: FileEvent,
    dest_shown: Seq<char>,
    dest: Seq<PartView>,
    origin: Seq<PartView>,
    world: MoveWorld,
)
    requires
        latest_auto_move(store, event.id@),
        store.events[event.id@] == event@,
        event.action@ == auto_move_record(dest_shown),
        reads_as(dest_shown, dest),
        reads_as(event.path@, origin),
        disk.contains_key(dest),
        !disk.contains_key(origin),
        movable(dest, origin, world),
    ensures
        ({
            let mark = statement_of_two(Query::UpdateAction, UNDONE@, event.id@);
            let moving = UndoView::Move { id: event.id@, from: dest_shown, to: event.path@ };
            let marking = UndoView::MarkUndone { id: event.id@ };
            let moved = move_run(dest_shown, event.path@, dest, origin, world, disk, 6);
            let after = effect(store, mark);
            &&& undo_after(
                UndoView::GetLastAutoMove,
                UndoEvent::LastAutoMove { event: Ok(event) },
            ) == moving
            &&& moved.step == (MoveView::Done { result: Ok(()) })
            &&& moved.disk == disk.remove(dest).insert(origin, disk[dest])
            &&& undo_after(moving, UndoEvent::Moved { result: Ok(()) }) == marking
            &&& admitted(store, mark)
            &&& after == (Store {
                events: store.events.insert(event.id@, EventView { action: UNDONE@, ..event@ }),
                ..store
            })
            &&& changed(
                event.id@,
                made(changed_rows(store, mark)),
                "Failed to update event action: "@,
                "No file_event found with id: "@,
            ) is Ok
            &&& undo_after(marking, UndoEvent::Marked { result: Ok(()) }) == (UndoView::Done {
                result: Ok(()),
            })
            &&& forall|next: Seq<char>| #[trigger]
                latest_auto_move(after, next) <==> latest_but(store, next, set![event.id@])
        }),
{
    law_undo_reverses_the_move(event, dest_shown);
    law_move_outcome(dest_shown, event.path@, dest, origin, world, disk);
    law_next_undo_takes_the_move_before(store, event.id@);
}

/// Undoing reverses sorting: a file that was moved without asking and recorded
/// is, once its move is undone, where it was, and the disk is as it was before.
pub proof fn law_undo_reverses_sorting(
    store: Store,
    disk: Disk,
    path: Seq<PartView>,
    dest: Seq<PartView>,
    dest_shown: Seq<char>,
    classification: ClassificationView,
    timestamp: Seq<char>,
    event: FileEvent,
    there: MoveWorld,
    back: MoveWorld,
)
    requires
        above_threshold(classification.confidence.bits),
        !store.events.contains_key(event.id@),
        forall|other: Seq<char>| #[trigger]
            store.events.contains_key(other) ==> !text_less(
                timestamp,
                store.events[other].timestamp,
            ),
        event@ == (EventView {
            id: event.id@,
            path: event.path@,
            detected_category: classification.category,
            confidence: classification.confidence,
            action: auto_move_record(dest_shown),
            timestamp,
        }),
        reads_as(event.path@, path),
        reads_as(dest_shown, dest),
        disk.contains_key(path),
        !disk.contains_key(dest),
        movable(path, dest, there),
        movable(dest, path, back),
    ensures
        ({
            let record = insert_event(
                event.id@,
                event.path@,
                classification.category,
                classification.confidence,
                auto_move_record(dest_shown),
                timestamp,
            );
            let recorded = effect(store, record);
            let moved = move_run(event.path@, dest_shown, path, dest, there, disk, 6);
            let undone = move_run(dest_shown, event.path@, dest, path, back, moved.disk, 6);
            &&& moved.step == (MoveView::Done { result: Ok(()) })
            &&& latest_auto_move(recorded, event.id@)
            &&& recorded.events[event.id@] == event@
            &&& undo_after(
                UndoView::GetLastAutoMove,
                UndoEvent::LastAutoMove { event: Ok(event) },
            ) == (UndoView::Move { id: event.id@, from: dest_shown, to: event.path@ })
            &&& undone.step == (MoveView::Done { result: Ok(()) })
            &&& undone.disk == disk
        }),
{
    law_auto_move_is_recorded(
        store,
        path,
        event.path@,
        Seq::empty(),
        Seq::empty(),
        classification,
        dest,
        dest_shown,
        event.id@,
        timestamp,
    );
    law_undo_reverses_the_move(event, dest_shown);
    law_move_outcome(event.path@, dest_shown, path, dest, there, disk);
    let middle = disk.remove(path).insert(dest, disk[path]);
    law_move_outcome(dest_shown, event.path@, dest, path, back, middle);
    assert(middle.remove(dest).insert(path, middle[dest]) =~= disk);
}

/// Approving a file that waits, where it is still at `from` and the search has
/// settled on the free name for its proposed destination `dest`: the file is
/// at that name with its content and gone from `from`, nothing else on the
/// disk has changed, its row reads `approved` and is else the same, the rule
/// of its extension names the folder of the proposed destination if it has an
/// extension, no other row has changed, and the result is a success.
pub proof fn law_approval_moves_marks_and_learns(
    store: Store,
    disk: Disk,
    item: StagingItem,
    from: Seq<PartView>,
    dest: Seq<PartView>,
    search: UniqueDest,
    world: MoveWorld,
    to_shown: Seq<char>,
)
    requires
        store.staging.contains_key(item.id@),
        store.staging[item.id@] == item@,
        reads_as(item.file_path@, from),
        reads_as(item.proposed_dest@, dest),
        settled_for(search@, dest),
        disk.contains_key(from),
        !disk.contains_key(candidate(dest, search@.number)),
        movable(from, candidate(dest, search@.number), world),
    ensures
        ({
            let free = candidate(dest, search@.number);
            let mark = statement_of_two(Query::UpdateStatus, APPROVED@, item.id@);
            let finding = ApproveView::FindDest { item: item@ };
            let moving = ApproveView::Move { item: item@, dest: free };
            let marking = ApproveView::MarkApproved { item: item@ };
            let moved = move_run(item.file_path@, to_shown, from, free, world, disk, 6);
            let marked = effect(store, mark);
            &&& approve_after(
                from,
                dest,
                ApproveView::GetItem,
                ApproveEvent::Item { item: Ok(item) },
            ) == finding
            &&& approve_after(from, dest, finding, ApproveEvent::DestFound { search }) == moving
            &&& moved.step == (MoveView::Done { result: Ok(()) })
            &&& moved.disk == disk.remove(from).insert(free, disk[from])
            &&& approve_after(from, dest, moving, ApproveEvent::Moved { result: Ok(()) })
                == marking
            &&& admitted(store, mark)
            &&& marked == (Store {
                staging: store.staging.insert(
                    item.id@,
                    ItemView { status: APPROVED@, ..item@ },
                ),
                ..store
            })
            &&& changed(
                item.id@,
                made(changed_rows(store, mark)),
                "Failed to update staging status: "@,
                "No staging item found with id: "@,
            ) is Ok
            &&& approve_after(from, dest, marking, ApproveEvent::Marked { result: Ok(()) })
                == approve_learning(from, dest)
            &&& match learned_rule(from, dest) {
                None => approve_learning(from, dest) == (ApproveView::Done { result: Ok(()) }),
                Some((pattern, category)) => {
                    let add = statement_of_two(Query::UpsertRule, pattern, category);
                    &&& approve_learning(from, dest) == (ApproveView::AddRule {
                        pattern,
                        category,
                    })
                    &&& effect(marked, add) == (Store {
                        rules: store.rules.insert(
                            pattern,
                            RuleView {
                                pattern,
                                category,
                                hits: if store.rules.contains_key(pattern) {
                                    store.rules[pattern].hits
                                } else {
                                    0
                                },
                            },
                        ),
                        ..marked
                    })
                    &&& approve_after(
                        from,
                        dest,
                        approve_learning(from, dest),
                        ApproveEvent::RuleAdded,
                    ) == (ApproveView::Done { result: Ok(()) })
                },
            }
        }),
{
    law_move_outcome(
        item.file_path@,
        to_shown,
        from,
        candidate(dest, search@.number),
        world,
        disk,
    );
}

/// Rejecting a file that waits: its row reads `rejected` and is else the same,
/// the rejection is recorded under the folder of the proposed destination, and
/// the rule of its extension names the folder of the destination that the user
/// wants in its place, if there is one and the file has an extension. No other
/// row changes, and the result is a success.
pub proof fn law_rejection_marks_records_and_learns(
    store: Store,
    item: StagingItem,
    from: Seq<PartView>,
    dest: Seq<PartView>,
    new_dest: Option<Seq<PartView>>,
    id: Seq<char>,
    timestamp: Seq<char>,
)
    requires
        store.staging.contains_key(item.id@),
        store.staging[item.id@] == item@,
        !store.events.contains_key(id),
        !not_a_number(item.confidence),
    ensures
        ({
            let mark = statement_of_two(Query::UpdateStatus, REJECTED@, item.id@);
            let record = insert_event(
                id,
                item.file_path@,
                folder_category(dest),
                item.confidence,
                REJECTED@,
                timestamp,
            );
            let marking = RejectView::MarkRejected { item: item@ };
            let recording = RejectView::LogRejection {
                item: item@,
                category: folder_category(dest),
            };
            let marked = effect(store, mark);
            let recorded = effect(marked, record);
            &&& reject_after(
                from,
                dest,
                new_dest,
                RejectView::GetItem,
                RejectEvent::Item { item: Ok(item) },
            ) == marking
            &&& marked == (Store {
                staging: store.staging.insert(
                    item.id@,
                    ItemView { status: REJECTED@, ..item@ },
                ),
                ..store
            })
            &&& changed(
                item.id@,
                made(changed_rows(store, mark)),
                "Failed to update staging status: "@,
                "No staging item found with id: "@,
            ) is Ok
            &&& reject_after(
                from,
                dest,
                new_dest,
                marking,
                RejectEvent::Marked { result: Ok(()) },
            ) == recording
            &&& admitted(marked, record)
            &&& recorded == (Store {
                events: store.events.insert(
                    id,
                    EventView {
                        id,
                        path: item.file_path@,
                        detected_category: folder_category(dest),
                        confidence: stored_number(item.confidence),
                        action: REJECTED@,
                        timestamp,
                    },
                ),
                ..marked
            })
            &&& reject_after(from, dest, new_dest, recording, RejectEvent::Logged)
                == reject_learning(from, new_dest)
            &&& match reject_learning(from, new_dest) {
                RejectView::AddRule { pattern, category } => {
                    &&& new_dest matches Some(wanted) && learned_rule(from, wanted) == Some(
                        (pattern, category),
                    )
                    &&& effect(
                        recorded,
                        statement_of_two(Query::UpsertRule, pattern, category),
                    ) == (Store {
                        rules: store.rules.insert(
                            pattern,
                            RuleView {
                                pattern,
                                category,
                                hits: if store.rules.contains_key(pattern) {
                                    store.rules[pattern].hits
                                } else {
                                    0
                                },
                            },
                        ),
                        ..recorded
                    })
                    &&& reject_after(
                        from,
                        dest,
                        new_dest,
                        RejectView::AddRule { pattern, category },
                        RejectEvent::RuleAdded,
                    ) == (RejectView::Done { result: Ok(()) })
                },
                end => end == (RejectView::Done { result: Ok(()) }) && (
                new_dest matches Some(wanted) ==> learned_rule(from, wanted) is None),
            }
        }),
{
}

} // verus!
