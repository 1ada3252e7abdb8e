use sortd::confidence::Confidence;
use sortd::db::{FileEvent, StagingItem};
use sortd::history::{
    auto_move_action, auto_move_target, undo_last_move, UndoEvent, UndoStep, UNDONE,
};
use sortd::path::FilePath;
use sortd::staging::{
    approve_staging_item, approve_step, category_of_folder, reject_staging_item, reject_step,
    rule_of_move, ApproveEvent, ApproveStep, RejectEvent, RejectStep,
};
use sortd::transfer::unique_dest;

fn event(action: &str) -> FileEvent {
    FileEvent {
        id: "7".to_string(),
        path: "/in/a.pdf".to_string(),
        detected_category: "PDFs".to_string(),
        confidence: Confidence { bits: 0.95f64.to_bits() },
        action: action.to_string(),
        timestamp: "2024-01-01T00:00:00+00:00".to_string(),
    }
}

fn item(file_path: &str, proposed_dest: &str) -> StagingItem {
    StagingItem {
        id: "9".to_string(),
        file_path: file_path.to_string(),
        proposed_dest: proposed_dest.to_string(),
        confidence: Confidence { bits: 0.5f64.to_bits() },
        status: "pending".to_string(),
        timestamp: "2024-01-01T00:00:00+00:00".to_string(),
    }
}

fn bad(message: &str) -> Result<(), String> {
    Err(message.to_string())
}

fn undone(step: UndoStep) -> Result<(), String> {
    match step {
        UndoStep::Done { result } => result,
        _ => panic!("undoing is to be over"),
    }
}

fn approved(step: ApproveStep) -> Result<(), String> {
    match step {
        ApproveStep::Done { result } => result,
        _ => panic!("the approval is to be over"),
    }
}

fn rejected(step: RejectStep) -> Result<(), String> {
    match step {
        RejectStep::Done { result } => result,
        _ => panic!("the rejection is to be over"),
    }
}

#[test]
fn record_tells_the_destination() {
    assert_eq!(auto_move_action("/out/a.pdf"), "auto-moved to /out/a.pdf");
    for dest in ["/out/a.pdf", "", "auto-moved to x", "ü"] {
        assert_eq!(auto_move_target(&auto_move_action(dest)).as_deref(), Some(dest));
    }
    for action in ["", "undone", "rejected", "auto-moved to", "Auto-moved to x", UNDONE] {
        assert_eq!(auto_move_target(action), None, "{action}");
    }
}

#[test]
fn undoing_reverses_the_move() {
    let first = UndoEvent::LastAutoMove { event: Ok(event("auto-moved to /out/PDFs/a.pdf")) };
    let step = undo_last_move(UndoStep::GetLastAutoMove, first);
    match &step {
        UndoStep::Move { id, from, to } => {
            assert_eq!(id, "7");
            assert_eq!(from, "/out/PDFs/a.pdf");
            assert_eq!(to, "/in/a.pdf");
        }
        _ => panic!("the file is to be moved back"),
    }
    let step = undo_last_move(step, UndoEvent::Moved { result: Ok(()) });
    assert!(matches!(&step, UndoStep::MarkUndone { id } if id == "7"));
    assert_eq!(undone(undo_last_move(step, UndoEvent::Marked { result: Ok(()) })), Ok(()));
}

#[test]
fn undoing_ends_with_the_first_error() {
    let none = UndoEvent::LastAutoMove { event: Err("none".to_string()) };
    assert_eq!(undone(undo_last_move(UndoStep::GetLastAutoMove, none)), bad("none"));
    let odd = UndoEvent::LastAutoMove { event: Ok(event("auto-moved to")) };
    assert_eq!(
        undone(undo_last_move(UndoStep::GetLastAutoMove, odd)),
        bad("Last event has unexpected action format")
    );
    let step = UndoStep::Move { id: "7".into(), from: "a".into(), to: "b".into() };
    let event = UndoEvent::Moved { result: bad("gone") };
    assert_eq!(undone(undo_last_move(step, event)), bad("gone"));
    let step = UndoStep::MarkUndone { id: "7".into() };
    let event = UndoEvent::Marked { result: bad("locked") };
    assert_eq!(undone(undo_last_move(step, event)), bad("locked"));
}

#[test]
fn undo_event_out_of_turn() {
    let step = undo_last_move(UndoStep::GetLastAutoMove, UndoEvent::Marked { result: Ok(()) });
    assert!(matches!(step, UndoStep::GetLastAutoMove));
}

#[test]
fn category_is_the_name_of_the_folder() {
    let of = |dest: &str| category_of_folder(&FilePath::from_text(dest));
    assert_eq!(of("/out/Work/a.pdf"), "Work");
    assert_eq!(of("Work/a.pdf"), "Work");
    assert_eq!(of("/a.pdf"), "Other");
    assert_eq!(of("a.pdf"), "Other");
    assert_eq!(of("/out/../a.pdf"), "Other");
    assert_eq!(of("/"), "Other");
    assert_eq!(of(""), "Other");
}

#[test]
fn rule_names_extension_and_folder() {
    let of = |from: &str, dest: &str| {
        rule_of_move(&FilePath::from_text(from), &FilePath::from_text(dest))
    };
    assert_eq!(of("/in/a.PDF", "/out/Work/a.PDF"), Some(("*.PDF".into(), "Work".into())));
    assert_eq!(of("/in/a.tar.gz", "b"), Some(("*.gz".into(), "Other".into())));
    assert_eq!(of("/in/a", "/out/Work/a"), None);
    assert_eq!(of("/in/.a", "/out/Work/a"), None);
}

#[test]
fn approval_moves_marks_and_learns() {
    let got = ApproveEvent::Item { item: Ok(item("/in/a.x", "/out/Misc/a.x")) };
    let step = approve_staging_item(ApproveStep::GetItem, got);
    assert!(matches!(&step, ApproveStep::FindDest { item } if item.proposed_dest == "/out/Misc/a.x"));
    let search = unique_dest(&FilePath::from_text("/out/Misc/a.x")).answer(true).answer(false);
    let step = approve_staging_item(step, ApproveEvent::DestFound { search });
    match &step {
        ApproveStep::Move { item, dest } => {
            assert_eq!(item.file_path, "/in/a.x");
            assert!(dest.same(&FilePath::from_text("/out/Misc/a(1).x")));
        }
        _ => panic!("the file is to be moved"),
    }
    let step = approve_staging_item(step, ApproveEvent::Moved { result: Ok(()) });
    assert!(matches!(&step, ApproveStep::MarkApproved { item } if item.id == "9"));
    let step = approve_staging_item(step, ApproveEvent::Marked { result: Ok(()) });
    match &step {
        ApproveStep::AddRule { pattern, category } => {
            assert_eq!(pattern, "*.x");
            assert_eq!(category, "Misc");
        }
        _ => panic!("a rule is to be learned"),
    }
    assert_eq!(approved(approve_staging_item(step, ApproveEvent::RuleAdded)), Ok(()));
}

#[test]
fn approval_without_extension_teaches_nothing() {
    let step = ApproveStep::MarkApproved { item: item("/in/README", "/out/Misc/README") };
    let event = ApproveEvent::Marked { result: Ok(()) };
    assert_eq!(approved(approve_staging_item(step, event)), Ok(()));
}

#[test]
fn approval_ends_with_the_first_error() {
    let none = ApproveEvent::Item { item: Err("none".to_string()) };
    assert_eq!(approved(approve_staging_item(ApproveStep::GetItem, none)), bad("none"));
    let step = ApproveStep::Move {
        item: item("/in/a.x", "/out/Misc/a.x"),
        dest: FilePath::from_text("/out/Misc/a.x"),
    };
    let event = ApproveEvent::Moved { result: bad("gone") };
    assert_eq!(approved(approve_staging_item(step, event)), bad("gone"));
    let step = ApproveStep::MarkApproved { item: item("/in/a.x", "/out/Misc/a.x") };
    let event = ApproveEvent::Marked { result: bad("locked") };
    assert_eq!(approved(approve_staging_item(step, event)), bad("locked"));
}

#[test]
fn approval_event_out_of_turn() {
    let step = approve_staging_item(ApproveStep::GetItem, ApproveEvent::Moved { result: Ok(()) });
    assert!(matches!(step, ApproveStep::GetItem));
}

#[test]
fn approval_needs_a_settled_search_for_its_path() {
    let other = unique_dest(&FilePath::from_text("/out/Misc/b.x")).answer(false);
    let open = unique_dest(&FilePath::from_text("/out/Misc/a.x")).answer(true);
    for search in [other, open] {
        let step = ApproveStep::FindDest { item: item("/in/a.x", "/out/Misc/a.x") };
        let step = approve_staging_item(step, ApproveEvent::DestFound { search });
        assert!(matches!(step, ApproveStep::FindDest { .. }));
    }
}

#[test]
fn approval_with_given_paths() {
    let step = ApproveStep::MarkApproved { item: item("", "") };
    let from = FilePath::from_text("/in/b.y");
    let dest = FilePath::from_text("/out/Work/b.y");
    let event = ApproveEvent::Marked { result: Ok(()) };
    let step = approve_step(&from, &dest, step, event);
    assert!(matches!(&step, ApproveStep::AddRule { pattern, category }
        if pattern == "*.y" && category == "Work"));
}

#[test]
fn rejection_marks_and_records() {
    let got = RejectEvent::Item { item: Ok(item("/in/a.x", "/out/Misc/a.x")) };
    let step = reject_staging_item(&None, RejectStep::GetItem, got);
    assert!(matches!(&step, RejectStep::MarkRejected { item } if item.id == "9"));
    let step = reject_staging_item(&None, step, RejectEvent::Marked { result: Ok(()) });
    match &step {
        RejectStep::LogRejection { item, category } => {
            assert_eq!(item.file_path, "/in/a.x");
            assert_eq!(category, "Misc");
        }
        _ => panic!("the rejection is to be recorded"),
    }
    assert_eq!(rejected(reject_staging_item(&None, step, RejectEvent::Logged)), Ok(()));
}

#[test]
fn correction_teaches_a_rule() {
    let corrected = Some("/out/Work/a.x".to_string());
    let step = RejectStep::LogRejection {
        item: item("/in/a.x", "/out/Misc/a.x"),
        category: "Misc".to_string(),
    };
    let step = reject_staging_item(&corrected, step, RejectEvent::Logged);
    match &step {
        RejectStep::AddRule { pattern, category } => {
            assert_eq!(pattern, "*.x");
            assert_eq!(category, "Work");
        }
        _ => panic!("a rule is to be learned"),
    }
    assert_eq!(rejected(reject_staging_item(&corrected, step, RejectEvent::RuleAdded)), Ok(()));
}

#[test]
fn correction_without_extension_teaches_nothing() {
    let corrected = Some("/out/Work/README".to_string());
    let step = RejectStep::LogRejection {
        item: item("/in/README", "/out/Misc/README"),
        category: "Misc".to_string(),
    };
    assert_eq!(rejected(reject_staging_item(&corrected, step, RejectEvent::Logged)), Ok(()));
}

#[test]
fn rejection_ends_with_the_first_error() {
    let none = RejectEvent::Item { item: Err("none".to_string()) };
    assert_eq!(rejected(reject_staging_item(&None, RejectStep::GetItem, none)), bad("none"));
    let step = RejectStep::MarkRejected { item: item("/in/a.x", "/out/Misc/a.x") };
    let event = RejectEvent::Marked { result: bad("locked") };
    assert_eq!(rejected(reject_staging_item(&None, step, event)), bad("locked"));
}

#[test]
fn rejection_event_out_of_turn() {
    let step = reject_staging_item(&None, RejectStep::GetItem, RejectEvent::Logged);
    assert!(matches!(step, RejectStep::GetItem));
}

#[test]
fn rejection_with_given_paths() {
    let path = |text: &str| FilePath::from_text(text);
    let step = RejectStep::MarkRejected { item: item("", "") };
    let event = RejectEvent::Marked { result: Ok(()) };
    let step = reject_step(&path("/in/b.y"), &path("/out/Work/b.y"), &None, step, event);
    assert!(matches!(&step, RejectStep::LogRejection { category, .. } if category == "Work"));
    let corrected = Some(path("/out/Home/b.y"));
    let step =
        reject_step(&path("/in/b.y"), &path("/out/Work/b.y"), &corrected, step, RejectEvent::Logged);
    assert!(matches!(&step, RejectStep::AddRule { pattern, category }
        if pattern == "*.y" && category == "Home"));
}
