use sortd::path::{FilePath, PathPart};
use sortd::transfer::{move_file, move_step, unique_dest, MoveStep, UniqueDest};
use std::path::PathBuf;

fn last(path: &FilePath) -> String {
    path.file_name().unwrap()
}

fn settle(path: &str, taken: &[&str]) -> FilePath {
    let mut search = unique_dest(&FilePath::from_text(path));
    while !search.settled {
        let name = last(&search.candidate());
        search = search.answer(taken.contains(&name.as_str()));
    }
    search.candidate()
}

/// The steps of a move and its result, where the replies named in `bad` fail.
fn run(to: &str, bad: &[&str]) -> (Vec<&'static str>, Result<(), String>) {
    let from = PathBuf::from("/in/a.pdf");
    let to = PathBuf::from(to);
    let mut steps = Vec::new();
    let mut step = MoveStep::CheckSource;
    loop {
        let name = match &step {
            MoveStep::CheckSource => "source",
            MoveStep::CheckDest => "dest",
            MoveStep::CreateDir => "create",
            MoveStep::Rename => "rename",
            MoveStep::Copy => "copy",
            MoveStep::RemoveSource => "remove",
            MoveStep::Done { .. } => "",
        };
        if let MoveStep::Done { result } = step {
            return (steps, result);
        }
        steps.push(name);
        let reply = if bad.contains(&name) { Err(format!("{name} failed")) } else { Ok(()) };
        step = move_file(&from, &to, step, reply);
    }
}

#[test]
fn free_path_is_kept() {
    assert_eq!(last(&settle("/out/document.pdf", &[])), "document.pdf");
}

#[test]
fn taken_names_are_numbered() {
    let taken = ["document.pdf"];
    assert_eq!(last(&settle("/out/document.pdf", &taken)), "document(1).pdf");
    let taken = ["document.pdf", "document(1).pdf"];
    assert_eq!(last(&settle("/out/document.pdf", &taken)), "document(2).pdf");
    let taken = ["document.pdf", "document(2).pdf"];
    assert_eq!(last(&settle("/out/document.pdf", &taken)), "document(1).pdf");
}

#[test]
fn numbered_names_of_all_kinds() {
    let first = |path: &str| {
        let search = unique_dest(&FilePath::from_text(path)).answer(true);
        search.name().unwrap()
    };
    assert_eq!(first("/out/README"), "README(1)");
    assert_eq!(first("/out/archive.tar.gz"), "archive.tar(1).gz");
    assert_eq!(first("/out/.env"), ".env(1)");
    assert_eq!(first("/out/name."), "name(1).");
    assert_eq!(first("/"), "file(1)");
    let foreign = FilePath { parts: vec![PathPart::Foreign(vec![0xff, b'.', b'c'])] };
    assert_eq!(unique_dest(&foreign).answer(true).name().unwrap(), "file(1).c");
}

#[test]
fn candidates_are_in_the_same_folder() {
    let search = unique_dest(&FilePath::from_text("/out/x/a.pdf")).answer(true);
    let folder = search.candidate().parent().unwrap();
    assert_eq!(last(&folder), "x");
    let bare = unique_dest(&FilePath::from_text("a.pdf")).answer(true).candidate();
    assert_eq!(bare.parts.len(), 1);
    let root = unique_dest(&FilePath::from_text("/")).answer(true).candidate();
    assert!(matches!(root.parts[0], PathPart::CurDir));
    assert_eq!(last(&root), "file(1)");
}

#[test]
fn candidates_differ() {
    let path = FilePath::from_text("/out/a(1).pdf");
    let mut names = Vec::new();
    for number in [0, 1, 2, 9, 10, 11, 100] {
        let search = UniqueDest { path: path.clone(), number, settled: false };
        names.push(last(&search.candidate()));
    }
    let all = names.len();
    names.sort();
    names.dedup();
    assert_eq!(names.len(), all);
}

#[test]
fn settled_search_stays() {
    let search = unique_dest(&FilePath::from_text("/out/a.pdf")).answer(true).answer(false);
    assert!(search.settled);
    assert_eq!(search.number, 1);
    let search = search.answer(true);
    assert!(search.settled);
    assert_eq!(search.number, 1);
    assert_eq!(search.name().unwrap(), "a(1).pdf");
}

#[test]
fn renaming_is_enough() {
    let (steps, result) = run("/out/a.pdf", &[]);
    assert_eq!(steps, ["source", "dest", "create", "rename"]);
    assert_eq!(result, Ok(()));
}

#[test]
fn copying_makes_up_for_renaming() {
    let (steps, result) = run("/out/a.pdf", &["rename"]);
    assert_eq!(steps, ["source", "dest", "create", "rename", "copy", "remove"]);
    assert_eq!(result, Ok(()));
}

#[test]
fn missing_source_ends_the_move() {
    let (steps, result) = run("/out/a.pdf", &["source"]);
    assert_eq!(steps, ["source"]);
    assert_eq!(result, Err("Source file does not exist: /in/a.pdf".to_string()));
}

#[test]
fn existing_file_is_not_overwritten() {
    let (steps, result) = run("/out/a.pdf", &["dest"]);
    assert_eq!(steps, ["source", "dest"]);
    assert_eq!(result, Err("Destination already exists: /out/a.pdf".to_string()));
}

#[test]
fn move_with_given_texts() {
    let from = FilePath::from_text("/in/a.pdf");
    let to = FilePath::from_text("/out/a.pdf");
    let step = move_step("FROM", "TO", &from, &to, MoveStep::CheckSource, Err(String::new()));
    assert!(matches!(&step, MoveStep::Done { result: Err(e) }
        if e == "Source file does not exist: FROM"));
    let step = move_step("FROM", "TO", &from, &to, MoveStep::CheckDest, Err(String::new()));
    assert!(matches!(&step, MoveStep::Done { result: Err(e) }
        if e == "Destination already exists: TO"));
    let step = move_step("FROM", "TO", &from, &to, MoveStep::CheckDest, Ok(()));
    assert!(matches!(step, MoveStep::CreateDir));
}

#[test]
fn file_may_be_renamed_to_its_own_path() {
    let (steps, result) = run("/in/./a.pdf", &["dest"]);
    assert_eq!(steps, ["source", "create", "rename"]);
    assert_eq!(result, Ok(()));
    let (steps, result) = run("/in/a.pdf", &["rename"]);
    assert_eq!(steps, ["source", "create", "rename"]);
    assert_eq!(result, Err("Destination already exists: /in/a.pdf".to_string()));
}

#[test]
fn search_ends_after_all_that_is_there() {
    let taken: Vec<String> =
        (0..40).map(|n| if n == 0 { "a.x".to_string() } else { format!("a({n}).x") }).collect();
    let taken: Vec<&str> = taken.iter().map(|t| t.as_str()).collect();
    assert_eq!(last(&settle("/out/a.x", &taken)), "a(40).x");
}

#[test]
fn last_number_can_still_settle() {
    let path = FilePath::from_text("/out/a.x");
    let search = UniqueDest { path, number: u32::MAX, settled: false }.answer(false);
    assert!(search.settled);
    assert_eq!(search.answer(true).number, u32::MAX);
}

#[test]
fn folder_that_cannot_be_created() {
    let (steps, result) = run("/out/a.pdf", &["create"]);
    assert_eq!(steps, ["source", "dest", "create"]);
    assert_eq!(result, Err("Failed to create destination dir: create failed".to_string()));
}

#[test]
fn no_folder_to_create() {
    let (steps, result) = run("/", &[]);
    assert_eq!(steps, ["source", "dest", "rename"]);
    assert_eq!(result, Ok(()));
}

#[test]
fn source_is_kept_where_copying_fails() {
    let (steps, result) = run("/out/a.pdf", &["rename", "copy"]);
    assert_eq!(steps, ["source", "dest", "create", "rename", "copy"]);
    assert_eq!(result, Err("Failed to copy file: copy failed".to_string()));
}

#[test]
fn source_that_cannot_be_removed() {
    let (_, result) = run("/out/a.pdf", &["rename", "remove"]);
    assert_eq!(result, Err("Failed to remove source after copy: remove failed".to_string()));
}

#[test]
fn finished_move_stays_finished() {
    let to = PathBuf::from("/out/a.pdf");
    let step = MoveStep::Done { result: Err("x".to_string()) };
    match move_file(&PathBuf::from("/in/a.pdf"), &to, step, Ok(())) {
        MoveStep::Done { result } => assert_eq!(result, Err("x".to_string())),
        _ => panic!("the move is over"),
    }
}
