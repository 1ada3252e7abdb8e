use sortd::path::{FilePath, PathPart};
use sortd::watcher::{
    created_files, files_to_sort, is_temp_file, start_watcher, Found, WatchStep,
};

fn temp(text: &str) -> bool {
    is_temp_file(&FilePath::from_text(text))
}

fn found(entries: &[(&str, bool)]) -> Vec<Found> {
    entries
        .iter()
        .map(|(text, is_file)| Found { path: FilePath::from_text(text), is_file: *is_file })
        .collect()
}

fn watch(folders: &[&str], replies: &[Result<(), &str>]) -> WatchStep {
    let folders: Vec<String> = folders.iter().map(|f| f.to_string()).collect();
    let mut step = WatchStep::Create;
    for reply in replies {
        step = start_watcher(&folders, step, reply.map_err(|e| e.to_string()));
    }
    step
}

fn outcome(step: WatchStep) -> Result<(), String> {
    match step {
        WatchStep::Done { result } => result,
        _ => panic!("watching is to be settled"),
    }
}

#[test]
fn temporary_files() {
    for name in ["/in/a.tmp", "/in/a.part", "/in/a.crdownload", "/in/.hidden", "/in/.a.pdf"] {
        assert!(temp(name), "{name}");
    }
    for name in ["/in/..", "/", ""] {
        assert!(temp(name), "{name}");
    }
    assert!(is_temp_file(&FilePath { parts: vec![PathPart::Foreign(vec![0xff])] }));
}

#[test]
fn files_that_are_not_temporary() {
    for name in
        ["/in/a.pdf", "/in/a", "/in/a.TMP", "/in/a.tmp.pdf", "/in/tmp", "/.cache/a.pdf", "/in/a.parts"]
    {
        assert!(!temp(name), "{name}");
    }
}

#[test]
fn files_are_picked_in_their_order() {
    let all = found(&[
        ("/in/a.pdf", true),
        ("/in/dir", false),
        ("/in/b.tmp", true),
        ("/in/c", true),
        ("/in/.d", true),
        ("/in/e.zip", true),
    ]);
    assert_eq!(files_to_sort(&all), [0, 3, 5]);
    assert_eq!(files_to_sort(&Vec::new()), Vec::<usize>::new());
}

#[test]
fn only_creations_count() {
    let all = found(&[("/in/a.pdf", true), ("/in/dir", false), ("/in/c", true)]);
    assert_eq!(created_files(true, &all), [0, 2]);
    assert_eq!(created_files(false, &all), Vec::<usize>::new());
}

#[test]
fn every_folder_is_watched_in_turn() {
    assert!(matches!(watch(&["/a", "/b"], &[Ok(())]), WatchStep::Watch { index: 0 }));
    assert!(matches!(watch(&["/a", "/b"], &[Ok(()), Ok(())]), WatchStep::Watch { index: 1 }));
    assert_eq!(outcome(watch(&["/a", "/b"], &[Ok(()), Ok(()), Ok(())])), Ok(()));
    assert_eq!(outcome(watch(&[], &[Ok(())])), Ok(()));
}

#[test]
fn watcher_that_cannot_be_made() {
    let result = outcome(watch(&["/a"], &[Err("no inotify")]));
    assert_eq!(result, Err("Failed to create watcher: no inotify".to_string()));
}

#[test]
fn first_folder_that_fails_is_named() {
    let replies = [Ok(()), Ok(()), Err("gone"), Ok(()), Err("later")];
    let result = outcome(watch(&["/a", "/b", "/c"], &replies));
    assert_eq!(result, Err("Failed to watch folder '/b': gone".to_string()));
}

#[test]
fn folder_past_the_end_changes_nothing() {
    let step = start_watcher(&vec!["/a".to_string()], WatchStep::Watch { index: 7 }, Ok(()));
    assert!(matches!(step, WatchStep::Watch { index: 7 }));
}
