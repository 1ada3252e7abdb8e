use sortd::agent::{
    folders_to_resume, found_step, process_file, process_step, progress_after, scan_progress, start_watching, ProcessEvent,
    ProcessStep, SessionEvent, SessionStep, FILE_STAGED, SCAN_COMPLETE, SCAN_PROGRESS,
};
use sortd::classifier::ClassificationResult;
use sortd::confidence::Confidence;
use sortd::history::{undo_last_move, UndoEvent, UndoStep};
use sortd::path::{FilePath, PathPart};
use sortd::placement::get_category_base_dir;
use sortd::transfer::UniqueDest;
use std::path::PathBuf;

fn class(category: &str, confidence: f64, folder: &str) -> ClassificationResult {
    ClassificationResult {
        category: category.to_string(),
        confidence: Confidence { bits: confidence.to_bits() },
        suggested_folder: folder.to_string(),
        reasoning: String::new(),
    }
}

fn classified(c: ClassificationResult) -> ProcessEvent {
    ProcessEvent::Classified { result: Ok(c) }
}

fn names(path: &FilePath) -> Vec<String> {
    path.parts
        .iter()
        .map(|p| match p {
            PathPart::Normal(t) => t.clone(),
            PathPart::RootDir => "/".to_string(),
            _ => "?".to_string(),
        })
        .collect()
}

/// A search that settled on the name with this number.
fn settled(wanted: &FilePath, number: u32) -> UniqueDest {
    UniqueDest { path: wanted.clone(), number, settled: true }
}

/// The steps from a classification on, where moving and staging come out so.
fn run(confidence: f64, ok: bool) -> Vec<&'static str> {
    let path = FilePath::from_text("/in/a.x");
    let base = FilePath::from_text("/out");
    let folder = FilePath::from_text("Misc");
    let mut seen = Vec::new();
    let mut step = ProcessStep::Classify;
    loop {
        let event = match &step {
            ProcessStep::Classify => {
                seen.push("classify");
                classified(class("Other", confidence, "Misc"))
            }
            ProcessStep::FindDest { wanted, .. } => {
                seen.push("find");
                ProcessEvent::DestFound {
                    search: settled(wanted, 1),
                    found: PathBuf::from("/out/Misc/a(1).x"),
                }
            }
            ProcessStep::Move { dest, shown, .. } => {
                assert!(dest.same(&FilePath::from_text("/out/Misc/a(1).x")));
                assert_eq!(shown, "/out/Misc/a(1).x");
                seen.push("move");
                ProcessEvent::Moved { ok }
            }
            ProcessStep::LogMove { path, category, action, .. } => {
                assert_eq!(path, "/in/a.x");
                assert_eq!(category, "Other");
                assert_eq!(action, "auto-moved to /out/Misc/a(1).x");
                seen.push("log");
                ProcessEvent::Logged
            }
            ProcessStep::Stage { path, proposed, confidence: c } => {
                assert_eq!(path, "/in/a.x");
                assert_eq!(proposed, "/out/Misc/a(1).x");
                assert_eq!(c.bits, confidence.to_bits());
                seen.push("stage");
                ProcessEvent::Staged { ok }
            }
            ProcessStep::Announce { path } => {
                assert_eq!(path, "/in/a.x");
                seen.push("announce");
                ProcessEvent::Announced
            }
            ProcessStep::Finished => return seen,
        };
        step = process_step(&path, "/in/a.x", &base, &folder, step, event);
    }
}

#[test]
fn sure_files_are_moved_and_recorded() {
    assert_eq!(run(0.91, true), ["classify", "find", "move", "log"]);
    assert_eq!(run(1.0, true), ["classify", "find", "move", "log"]);
}

#[test]
fn other_files_wait_and_are_announced() {
    assert_eq!(run(0.90, true), ["classify", "find", "stage", "announce"]);
    assert_eq!(run(0.0, true), ["classify", "find", "stage", "announce"]);
    assert_eq!(run(f64::NAN, true), ["classify", "find", "stage", "announce"]);
}

#[test]
fn what_fails_is_not_recorded() {
    assert_eq!(run(0.91, false), ["classify", "find", "move"]);
    assert_eq!(run(0.5, false), ["classify", "find", "stage"]);
}

#[test]
fn file_that_cannot_be_classified() {
    let path = PathBuf::from("/in/a.x");
    let event = ProcessEvent::Classified { result: Err("no model".to_string()) };
    assert!(matches!(process_file(&path, ProcessStep::Classify, event), ProcessStep::Finished));
}

#[test]
fn file_without_a_name() {
    let path = PathBuf::from("/in/..");
    let step = process_file(&path, ProcessStep::Classify, classified(class("Code", 0.95, "Code")));
    assert!(matches!(step, ProcessStep::Finished));
}

#[test]
fn wanted_path_is_below_the_category() {
    let path = PathBuf::from("/in/a.x");
    let cases = [
        ("Code", "Code/Rust", vec!["Rust", "a.x"]),
        ("Code", "../../etc", vec!["etc", "a.x"]),
        ("Code", "/root/.ssh", vec!["root", "a.x"]),
        ("Code", "..", vec!["Other", "a.x"]),
        ("PDFs", "Documents/PDFs", vec!["a.x"]),
    ];
    for (category, folder, expected) in cases {
        let event = classified(class(category, 0.95, folder));
        match process_file(&path, ProcessStep::Classify, event) {
            ProcessStep::FindDest { wanted, .. } => {
                let base = get_category_base_dir(category);
                assert!(wanted.starts_with(&base));
                assert_eq!(names(&wanted)[base.parts.len()..], expected);
            }
            _ => panic!("a free name is to be found"),
        }
    }
}

#[test]
fn path_that_leads_out_is_not_used() {
    let path = FilePath::from_text("/in/a.x");
    let base = FilePath::from_text("/out");
    let event = classified(class("Code", 0.95, "Code"));
    let away = FilePath::from_text("/etc");
    let step = process_step(&path, "/in/a.x", &base, &away, ProcessStep::Classify, event);
    assert!(matches!(step, ProcessStep::Finished));
}

#[test]
fn name_that_was_not_looked_for_is_not_used() {
    let path = PathBuf::from("/in/a.x");
    let wanted = FilePath::from_text("/out/a.x");
    let other = FilePath::from_text("/out/b.x");
    let open = UniqueDest { path: wanted.clone(), number: 1, settled: false };
    let cases = [
        (settled(&wanted, 1), "/out/a(1).x", true),
        (settled(&wanted, 0), "/out/a.x", true),
        (settled(&wanted, 1), "/out/a.x", false),
        (settled(&other, 1), "/out/b(1).x", false),
        (open, "/out/a(1).x", false),
    ];
    for (search, found, used) in cases {
        let step = ProcessStep::FindDest {
            classification: class("Code", 0.95, "Code"),
            wanted: wanted.clone(),
        };
        let event = ProcessEvent::DestFound { search, found: PathBuf::from(found) };
        match process_file(&path, step, event) {
            ProcessStep::Move { dest, shown, .. } => {
                assert!(used, "{found}");
                assert!(dest.same(&FilePath::from_text(found)));
                assert_eq!(shown, found);
            }
            ProcessStep::Finished => assert!(!used, "{found}"),
            _ => panic!("the file is moved or left"),
        }
    }
}

#[test]
fn found_name_with_given_texts() {
    let wanted = FilePath::from_text("/out/a.x");
    let found = FilePath::from_text("/out/a(2).x");
    let unsure = class("Code", 0.5, "Code");
    let search = settled(&wanted, 2);
    match found_step("FILE", unsure, &wanted, &search, found, "FOUND".to_string()) {
        ProcessStep::Stage { path, proposed, confidence } => {
            assert_eq!(path, "FILE");
            assert_eq!(proposed, "FOUND");
            assert_eq!(confidence.bits, 0.5f64.to_bits());
        }
        _ => panic!("the file is to wait"),
    }
}

#[test]
fn name_that_is_not_unicode_is_kept() {
    let mut path = FilePath::from_text("/in");
    path.parts.push(PathPart::Foreign(vec![0xff, b'.', b'x']));
    let base = FilePath::from_text("/out");
    let event = classified(class("Code", 0.95, "Code"));
    let nowhere = FilePath::from_text("");
    match process_step(&path, "/in/?.x", &base, &nowhere, ProcessStep::Classify, event) {
        ProcessStep::FindDest { wanted, .. } => {
            assert!(matches!(&wanted.parts[2], PathPart::Foreign(b) if b == &[0xff, b'.', b'x']));
        }
        _ => panic!("a free name is to be found"),
    }
}

#[test]
fn process_event_out_of_turn() {
    let path = PathBuf::from("/in/a.x");
    let step = process_file(&path, ProcessStep::Classify, ProcessEvent::Logged);
    assert!(matches!(step, ProcessStep::Classify));
    let event = classified(class("Code", 0.95, "Code"));
    let step = ProcessStep::Announce { path: "/in/a.x".to_string() };
    assert!(matches!(process_file(&path, step, event), ProcessStep::Announce { .. }));
}

#[test]
fn recorded_move_can_be_undone() {
    let path = PathBuf::from("/in/a.x");
    let step = ProcessStep::Move {
        classification: class("Code", 0.95, "Code"),
        dest: FilePath::from_text("/out/a.x"),
        shown: "/out/a.x".to_string(),
    };
    match process_file(&path, step, ProcessEvent::Moved { ok: true }) {
        ProcessStep::LogMove { path, category, confidence, action } => {
            let event = sortd::db::FileEvent {
                id: "1".to_string(),
                path,
                detected_category: category,
                confidence,
                action,
                timestamp: String::new(),
            };
            let event = UndoEvent::LastAutoMove { event: Ok(event) };
            let step = undo_last_move(UndoStep::GetLastAutoMove, event);
            assert!(matches!(&step, UndoStep::Move { from, to, .. }
                if from == "/out/a.x" && to == "/in/a.x"));
        }
        _ => panic!("the move is to be recorded"),
    }
}

#[test]
fn session_scans_and_then_watches() {
    let mut seen = Vec::new();
    let mut step = SessionStep::SaveFolders;
    loop {
        let (name, event) = match &step {
            SessionStep::SaveFolders => {
                ("save".to_string(), SessionEvent::Saved { result: Ok(()) })
            }
            SessionStep::ListFolders => ("list".to_string(), SessionEvent::Listed { total: 2 }),
            SessionStep::Process { index, total } => {
                (format!("sort {index} of {total}"), SessionEvent::Processed)
            }
            SessionStep::Report { index, total } => {
                (format!("report {index} of {total}"), SessionEvent::Reported)
            }
            SessionStep::ReportComplete => ("complete".to_string(), SessionEvent::Reported),
            SessionStep::StartWatcher => {
                ("watch".to_string(), SessionEvent::WatcherStarted { ok: true })
            }
            SessionStep::Live => break,
            _ => panic!("nothing fails"),
        };
        seen.push(name);
        step = start_watching(step, event);
    }
    let expected = [
        "save",
        "list",
        "sort 0 of 2",
        "report 0 of 2",
        "sort 1 of 2",
        "report 1 of 2",
        "complete",
        "watch",
    ];
    assert_eq!(seen, expected);
}

#[test]
fn session_without_files() {
    let step = start_watching(SessionStep::ListFolders, SessionEvent::Listed { total: 0 });
    assert!(matches!(step, SessionStep::ReportComplete));
}

#[test]
fn session_that_cannot_save() {
    let event = SessionEvent::Saved { result: Err("locked".to_string()) };
    let step = start_watching(SessionStep::SaveFolders, event);
    assert!(matches!(&step, SessionStep::Failed { error } if error == "locked"));
}

#[test]
fn session_that_cannot_watch() {
    let event = SessionEvent::WatcherStarted { ok: false };
    let step = start_watching(SessionStep::StartWatcher, event);
    assert!(matches!(step, SessionStep::Stopped));
}

#[test]
fn session_event_out_of_turn() {
    let step = start_watching(SessionStep::SaveFolders, SessionEvent::Processed);
    assert!(matches!(step, SessionStep::SaveFolders));
    let step = SessionStep::Report { index: usize::MAX, total: usize::MAX };
    assert!(matches!(start_watching(step, SessionEvent::Reported), SessionStep::ReportComplete));
}

#[test]
fn progress_of_the_scan() {
    let progress = scan_progress(&PathBuf::from("/in/Ü a.x"), 1, 3);
    assert_eq!(progress.current, 2);
    assert_eq!(progress.total, 3);
    assert_eq!(progress.current_file, "Ü a.x");
    assert_eq!(scan_progress(&PathBuf::from("/in/.."), 0, 1).current_file, "");
    assert_eq!(scan_progress(&PathBuf::from("/"), 0, 1).current_file, "");
    let progress = progress_after(Some("name".to_string()), 4, 5);
    assert_eq!((progress.current, progress.total), (5, 5));
    assert_eq!(progress.current_file, "name");
    assert_eq!(progress_after(None, 0, 1).current_file, "");
}

#[test]
fn saved_folders_are_resumed() {
    let folders = vec!["/in".to_string()];
    assert_eq!(folders_to_resume(Ok(folders.clone())), Some(folders));
    assert_eq!(folders_to_resume(Ok(Vec::new())), None);
    assert_eq!(folders_to_resume(Err("locked".to_string())), None);
}

#[test]
fn names_of_the_messages() {
    assert_eq!(FILE_STAGED, "file-staged");
    assert_eq!(SCAN_PROGRESS, "scan-progress");
    assert_eq!(SCAN_COMPLETE, "scan-complete");
}
