//! Sorting files: one file after the other, those that are there first and
//! then those that appear.
use vstd::prelude::*;
use std::path::PathBuf;
use crate::classifier::{
    fast_result, law_known_extension_needs_no_model, ClassificationResult, ClassificationView,
};
use crate::confidence::{above_threshold, Confidence};
use crate::history::{auto_move_action, auto_move_record};
use crate::path::{
    file_name, file_name_text, joined, name_text, path_buf_name, path_buf_parts, path_buf_text,
    path_text, portable, reads_as, slash_components, starts_with, unicode_path, FilePath, PartView,
};
use crate::placement::{
    category_base, destination, destination_folder, destination_path, folder_parts,
    get_category_base_dir, law_destination_stays_below_the_category_folder, looked_up, safe_folder,
    DirsView,
};
use crate::transfer::{candidate, settled_for, SearchView, UniqueDest};

verus! {

/// The message to the user interface that a file waits.
pub const FILE_STAGED: &'static str = "file-staged";

/// The message to the user interface of how far the scan is.
pub const SCAN_PROGRESS: &'static str = "scan-progress";

/// The message to the user interface that the scan is over.
pub const SCAN_COMPLETE: &'static str = "scan-complete";

// One file

/// What is to be done next to sort a file.
pub enum ProcessStep {
    /// Classify the file.
    Classify,
    /// Find a free name for this path.
    FindDest { classification: ClassificationResult, wanted: FilePath },
    /// Move the file to this path, the free name that was found, which is shown
    /// as that text.
    Move { classification: ClassificationResult, dest: FilePath, shown: String },
    /// Record the move of the file at `path`.
    LogMove { path: String, category: String, confidence: Confidence, action: String },
    /// Put the file at `path` into the queue, with the free name that was found
    /// as its proposed destination.
    Stage { path: String, proposed: String, confidence: Confidence },
    /// Tell the user interface that the file at `path` waits.
    Announce { path: String },
    /// Nothing.
    Finished,
}

/// What came of a step.
pub enum ProcessEvent {
    Classified { result: Result<ClassificationResult, String> },
    /// The search that settled on a free name, and the path of that name.
    DestFound { search: UniqueDest, found: PathBuf },
    Moved { ok: bool },
    /// Whether the move was recorded makes no difference.
    Logged,
    Staged { ok: bool },
    /// Whether the user interface was told makes no difference.
    Announced,
}

/// The value of a step.
#[verifier::ext_equal]
pub enum ProcessView {
    Classify,
    FindDest { classification: ClassificationView, wanted: Seq<PartView> },
    Move { classification: ClassificationView, dest: Seq<PartView>, shown: Seq<char> },
    LogMove { path: Seq<char>, category: Seq<char>, confidence: Confidence, action: Seq<char> },
    Stage { path: Seq<char>, proposed: Seq<char>, confidence: Confidence },
    Announce { path: Seq<char> },
    Finished,
}

impl View for ProcessStep {
    type V = ProcessView;

    open spec fn view(&self) -> ProcessView {
        match self {
            ProcessStep::Classify => ProcessView::Classify,
            ProcessStep::FindDest { classification, wanted } => ProcessView::FindDest {
                classification: classification@,
                wanted: wanted@,
            },
            ProcessStep::Move { classification, dest, shown } => ProcessView::Move {
                classification: classification@,
                dest: dest@,
                shown: shown@,
            },
            ProcessStep::LogMove { path, category, confidence, action } => ProcessView::LogMove {
                path: path@,
                category: category@,
                confidence: *confidence,
                action: action@,
            },
            ProcessStep::Stage { path, proposed, confidence } => ProcessView::Stage {
                path: path@,
                proposed: proposed@,
                confidence: *confidence,
            },
            ProcessStep::Announce { path } => ProcessView::Announce { path: path@ },
            ProcessStep::Finished => ProcessView::Finished,
        }
    }
}

/// The first step once a file is classified: a free name is looked for in the
/// folder `folder` below `base`, unless that leads out of `base` or the path
/// does not end in a name.
pub open spec fn process_classified(
    path: Seq<PartView>,
    base: Seq<PartView>,
    folder: Seq<PartView>,
    classification: ClassificationView,
) -> ProcessView {
    match file_name(path) {
        Some(name) => {
            let wanted = joined(joined(base, folder), seq![name]);
            if starts_with(wanted, base) {
                ProcessView::FindDest { classification, wanted }
            } else {
                ProcessView::Finished
            }
        },
        None => ProcessView::Finished,
    }
}

/// The step once a free name is found for the file shown as `path`: a
/// classification that is sure enough has the file moved there, and any other
/// has it wait. A name that was not found for the wanted path is not used.
pub open spec fn process_found(
    path: Seq<char>,
    classification: ClassificationView,
    wanted: Seq<PartView>,
    search: SearchView,
    found: Seq<PartView>,
    shown: Seq<char>,
) -> ProcessView {
    if !settled_for(search, wanted) || found != candidate(wanted, search.number) {
        ProcessView::Finished
    } else if above_threshold(classification.confidence.bits) {
        ProcessView::Move { classification, dest: found, shown }
    } else {
        ProcessView::Stage { path, proposed: shown, confidence: classification.confidence }
    }
}

/// The step that follows `step` after `event`, for the file at `path`, which is
/// shown as `shown`, where `base` and `folder` are the folder of the file's
/// category and the one below it. An event that does not belong to the step
/// changes nothing.
pub open spec fn process_after(
    path: Seq<PartView>,
    shown: Seq<char>,
    base: Seq<PartView>,
    folder: Seq<PartView>,
    step: ProcessView,
    event: ProcessEvent,
) -> ProcessView {
    match (step, event) {
        (ProcessView::Classify, ProcessEvent::Classified { result: Ok(c) }) => process_classified(
            path,
            base,
            folder,
            c@,
        ),
        (ProcessView::Classify, ProcessEvent::Classified { result: Err(_) }) =>
        ProcessView::Finished,
        (
            ProcessView::FindDest { classification, wanted },
            ProcessEvent::DestFound { search, found },
        ) => process_found(
            shown,
            classification,
            wanted,
            search@,
            path_buf_parts(found),
            path_buf_text(found),
        ),
        (ProcessView::Move { classification, shown: dest, .. }, ProcessEvent::Moved { ok }) => if ok {
            ProcessView::LogMove {
                path: shown,
                category: classification.category,
                confidence: classification.confidence,
                action: auto_move_record(dest),
            }
        } else {
            ProcessView::Finished
        },
        (ProcessView::LogMove { .. }, ProcessEvent::Logged) => ProcessView::Finished,
        (ProcessView::Stage { path: staged, .. }, ProcessEvent::Staged { ok }) => if ok {
            ProcessView::Announce { path: staged }
        } else {
            ProcessView::Finished
        },
        (ProcessView::Announce { .. }, ProcessEvent::Announced) => ProcessView::Finished,
        _ => step,
    }
}

/// Whether a path is what the text that it is shown as reads as, where every
/// component of it is valid Unicode.
pub open spec fn shows(path: PathBuf) -> bool {
    unicode_path(path) ==> reads_as(path_buf_text(path), path_buf_parts(path))
}

/// Whether `base` and `folder` are where a classification sends a file, for
/// standard folders that were looked up and on some platform.
pub open spec fn sends_to(
    classification: ClassificationView,
    base: Seq<PartView>,
    folder: Seq<PartView>,
) -> bool {
    &&& exists|found: DirsView|
        looked_up(found) && base == #[trigger] category_base(classification.category, found)
    &&& exists|path: Seq<PartView>| #[trigger]
        reads_as(classification.suggested_folder, path) && folder == folder_parts(
            safe_folder(classification.category, path),
        )
    &&& portable(classification.suggested_folder) ==> folder == folder_parts(
        safe_folder(
            classification.category,
            slash_components(classification.suggested_folder),
        ),
    )
}

/// The step once a free name is found for the file shown as `path`.
pub fn found_step(
    path: &str,
    classification: ClassificationResult,
    wanted: &FilePath,
    search: &UniqueDest,
    found: FilePath,
    shown: String,
) -> (r: ProcessStep)
    ensures
        r@ == process_found(path@, classification@, wanted@, search@, found@, shown@),
{
    if !search.settled || !search.path.same(wanted) || !found.same(&search.candidate()) {
        ProcessStep::Finished
    } else if classification.confidence.is_high() {
        ProcessStep::Move { classification, dest: found, shown }
    } else {
        ProcessStep::Stage {
            path: path.to_owned(),
            proposed: shown,
            confidence: classification.confidence,
        }
    }
}

/// The step that follows `step` after `event`, for the file at `path`, which is
/// shown as `shown`, where `base` and `folder` are the folder of the file's
/// category and the one below it. A free name that is used is read back from
/// the text that it is shown as, where it is valid Unicode.
pub fn process_step(
    path: &FilePath,
    shown: &str,
    base: &FilePath,
    folder: &FilePath,
    step: ProcessStep,
    event: ProcessEvent,
) -> (r: ProcessStep)
    ensures
        r@ == process_after(path@, shown@, base@, folder@, step@, event),
        step@ is FindDest ==> (event matches ProcessEvent::DestFound { found, .. } ==> shows(
            found,
        )),
{
    match (step, event) {
        (ProcessStep::Classify, ProcessEvent::Classified { result: Ok(c) }) => {
            match path.last_name() {
                Some(name) => {
                    let wanted: FilePath = destination_path(base, folder, &name);
                    if wanted.starts_with(base) {
                        ProcessStep::FindDest { classification: c, wanted }
                    } else {
                        ProcessStep::Finished
                    }
                },
                None => ProcessStep::Finished,
            }
        },
        (ProcessStep::Classify, ProcessEvent::Classified { result: Err(_) }) =>
        ProcessStep::Finished,
        (
            ProcessStep::FindDest { classification, wanted },
            ProcessEvent::DestFound { search, found },
        ) => found_step(
            shown,
            classification,
            &wanted,
            &search,
            FilePath::from_path_buf(&found),
            path_text(&found),
        ),
        (
            ProcessStep::Move { classification, dest: _, shown: dest },
            ProcessEvent::Moved { ok },
        ) => {
            if ok {
                ProcessStep::LogMove {
                    path: shown.to_owned(),
                    category: classification.category,
                    confidence: classification.confidence,
                    action: auto_move_action(dest.as_str()),
                }
            } else {
                ProcessStep::Finished
            }
        },
        (
            ProcessStep::LogMove { path: _, category: _, confidence: _, action: _ },
            ProcessEvent::Logged,
        ) => ProcessStep::Finished,
        (
            ProcessStep::Stage { path: staged, proposed: _, confidence: _ },
            ProcessEvent::Staged { ok },
        ) => {
            if ok {
                ProcessStep::Announce { path: staged }
            } else {
                ProcessStep::Finished
            }
        },
        (ProcessStep::Announce { path: _ }, ProcessEvent::Announced) => ProcessStep::Finished,
        (other, _) => other,
    }
}

/// Classifies one file and either moves it or puts it into the queue, from
/// `Classify` on: the step that follows `step` after `event`. Both the file and
/// a free name that is used are read back from the texts that they are shown
/// as, where they are valid Unicode.
pub fn process_file(path: &PathBuf, step: ProcessStep, event: ProcessEvent) -> (r: ProcessStep)
    ensures
        exists|base: Seq<PartView>, folder: Seq<PartView>|
            r@ == #[trigger] process_after(
                path_buf_parts(*path),
                path_buf_text(*path),
                base,
                folder,
                step@,
                event,
            ) && (event matches ProcessEvent::Classified { result: Ok(c) } ==> sends_to(
                c@,
                base,
                folder,
            )),
        !(event is Classified) ==> forall|base: Seq<PartView>, folder: Seq<PartView>|
            r@ == #[trigger] process_after(
                path_buf_parts(*path),
                path_buf_text(*path),
                base,
                folder,
                step@,
                event,
            ),
        shows(*path),
        step@ is FindDest ==> (event matches ProcessEvent::DestFound { found, .. } ==> shows(
            found,
        )),
{
    let (base, folder): (FilePath, FilePath) = match &event {
        ProcessEvent::Classified { result: Ok(c) } => {
            let base: FilePath = get_category_base_dir(c.category.as_str());
            let folder: FilePath = destination_folder(
                c.category.as_str(),
                c.suggested_folder.as_str(),
            );
            proof {
                let found = choose|found: DirsView|
                    looked_up(found) && base@ == #[trigger] category_base(c@.category, found);
                assert(looked_up(found) && base@ == category_base(c@.category, found));
                let path = choose|path: Seq<PartView>| #[trigger]
                    reads_as(c@.suggested_folder, path) && folder@ == folder_parts(
                        safe_folder(c@.category, path),
                    );
                assert(reads_as(c@.suggested_folder, path));
                assert(sends_to(c@, base@, folder@));
            }
            (base, folder)
        },
        _ => (FilePath { parts: Vec::new() }, FilePath { parts: Vec::new() }),
    };
    let file: FilePath = FilePath::from_path_buf(path);
    let shown: String = path_text(path);
    process_step(&file, shown.as_str(), &base, &folder, step, event)
}

// All files

/// How far the scan is.
#[derive(Debug)]
pub struct ScanProgress {
    pub current: usize,
    pub total: usize,
    pub current_file: String,
}

/// What is to be done next to sort the files of some folders.
pub enum SessionStep {
    /// Save the folders, so that they are known at the next start.
    SaveFolders,
    /// List the files that are in them.
    ListFolders,
    /// Sort the file at this position of the list.
    Process { index: usize, total: usize },
    /// Tell the user interface that the file at this position was sorted.
    Report { index: usize, total: usize },
    /// Tell the user interface that the scan is over.
    ReportComplete,
    /// Watch the folders.
    StartWatcher,
    /// Sort the files that appear.
    Live,
    /// Nothing: the folders cannot be watched.
    Stopped,
    /// Nothing: the folders could not be saved.
    Failed { error: String },
}

/// What came of a step.
pub enum SessionEvent {
    Saved { result: Result<(), String> },
    /// How many files there are.
    Listed { total: usize },
    Processed,
    /// Whether the user interface was told makes no difference.
    Reported,
    WatcherStarted { ok: bool },
}

/// The value of a step.
#[verifier::ext_equal]
pub enum SessionView {
    SaveFolders,
    ListFolders,
    Process { index: nat, total: nat },
    Report { index: nat, total: nat },
    ReportComplete,
    StartWatcher,
    Live,
    Stopped,
    Failed { error: Seq<char> },
}

impl View for SessionStep {
    type V = SessionView;

    open spec fn view(&self) -> SessionView {
        match self {
            SessionStep::SaveFolders => SessionView::SaveFolders,
            SessionStep::ListFolders => SessionView::ListFolders,
            SessionStep::Process { index, total } => SessionView::Process {
                index: *index as nat,
                total: *total as nat,
            },
            SessionStep::Report { index, total } => SessionView::Report {
                index: *index as nat,
                total: *total as nat,
            },
            SessionStep::ReportComplete => SessionView::ReportComplete,
            SessionStep::StartWatcher => SessionView::StartWatcher,
            SessionStep::Live => SessionView::Live,
            SessionStep::Stopped => SessionView::Stopped,
            SessionStep::Failed { error } => SessionView::Failed { error: error@ },
        }
    }
}

/// Sorting the files from `index` on: the scan is over where none is left.
pub open spec fn scan_from(index: nat, total: nat) -> SessionView {
    if index < total {
        SessionView::Process { index, total }
    } else {
        SessionView::ReportComplete
    }
}

/// The step that follows `step` after `event`: the folders are saved, the
/// files in them sorted one by one, and only then are the folders watched. An
/// event that does not belong to the step changes nothing.
pub open spec fn session_after(step: SessionView, event: SessionEvent) -> SessionView {
    match (step, event) {
        (SessionView::SaveFolders, SessionEvent::Saved { result: Ok(_) }) =>
        SessionView::ListFolders,
        (SessionView::SaveFolders, SessionEvent::Saved { result: Err(e) }) => SessionView::Failed {
            error: e@,
        },
        (SessionView::ListFolders, SessionEvent::Listed { total }) => scan_from(0, total as nat),
        (SessionView::Process { index, total }, SessionEvent::Processed) => SessionView::Report {
            index,
            total,
        },
        (SessionView::Report { index, total }, SessionEvent::Reported) => scan_from(
            index + 1,
            total,
        ),
        (SessionView::ReportComplete, SessionEvent::Reported) => SessionView::StartWatcher,
        (SessionView::StartWatcher, SessionEvent::WatcherStarted { ok }) => if ok {
            SessionView::Live
        } else {
            SessionView::Stopped
        },
        _ => step,
    }
}

/// Sorts the files of some folders and goes on to watch them, from
/// `SaveFolders` on: the step that follows `step` after `event`.
pub fn start_watching(step: SessionStep, event: SessionEvent) -> (r: SessionStep)
    ensures
        r@ == session_after(step@, event),
{
    match (step, event) {
        (SessionStep::SaveFolders, SessionEvent::Saved { result: Ok(_) }) =>
        SessionStep::ListFolders,
        (SessionStep::SaveFolders, SessionEvent::Saved { result: Err(e) }) => SessionStep::Failed {
            error: e,
        },
        (SessionStep::ListFolders, SessionEvent::Listed { total }) => {
            if total > 0 {
                SessionStep::Process { index: 0, total }
            } else {
                SessionStep::ReportComplete
            }
        },
        (SessionStep::Process { index, total }, SessionEvent::Processed) => SessionStep::Report {
            index,
            total,
        },
        (SessionStep::Report { index, total }, SessionEvent::Reported) => {
            if index < total && index + 1 < total {
                SessionStep::Process { index: index + 1, total }
            } else {
                SessionStep::ReportComplete
            }
        },
        (SessionStep::ReportComplete, SessionEvent::Reported) => SessionStep::StartWatcher,
        (SessionStep::StartWatcher, SessionEvent::WatcherStarted { ok }) => {
            if ok {
                SessionStep::Live
            } else {
                SessionStep::Stopped
            }
        },
        (other, _) => other,
    }
}

/// How far the scan is once the file at `index`, shown by that name, was
/// sorted.
pub fn progress_after(name: Option<String>, index: usize, total: usize) -> (r: ScanProgress)
    requires
        index < total,
    ensures
        r.current == index + 1,
        r.total == total,
        r.current_file@ == (match name {
            Some(t) => t@,
            None => Seq::<char>::empty(),
        }),
{
    ScanProgress {
        current: index + 1,
        total,
        current_file: match name {
            Some(t) => t,
            None => String::new(),
        },
    }
}

/// How far the scan is once the file at `index`, which has this path, was
/// sorted. The file is shown by the name that its path ends in, if any.
pub fn scan_progress(path: &PathBuf, index: usize, total: usize) -> (r: ScanProgress)
    requires
        index < total,
    ensures
        r.current == index + 1,
        r.total == total,
        r.current_file@ == (match file_name(path_buf_parts(*path)) {
            Some(_) => path_buf_name(*path),
            None => Seq::<char>::empty(),
        }),
        file_name_text(path_buf_parts(*path)) matches Some(name) ==> r.current_file@ == name,
{
    progress_after(name_text(path), index, total)
}

/// The folders to sort and watch at the start, if any: those that were saved.
pub fn folders_to_resume(saved: Result<Vec<String>, String>) -> (r: Option<Vec<String>>)
    ensures
        r == (match saved {
            Ok(folders) => if folders@.len() > 0 {
                Some(folders)
            } else {
                None
            },
            Err(_) => None,
        }),
{
    match saved {
        Ok(folders) => if folders.len() > 0 {
            Some(folders)
        } else {
            None
        },
        Err(_) => None,
    }
}

// Laws

/// A file is moved without asking only where its classification is sure
/// enough, and every other file waits for the user's word. Either way the path
/// is the free name that was found for the wanted one.
pub proof fn law_only_sure_files_are_moved(
    path: Seq<PartView>,
    shown: Seq<char>,
    base: Seq<PartView>,
    folder: Seq<PartView>,
    step: ProcessView,
    event: ProcessEvent,
)
    ensures
        ({
            let next = process_after(path, shown, base, folder, step, event);
            &&& next is Move && !(step is Move) ==> (step matches ProcessView::FindDest {
                classification,
                wanted,
            } && above_threshold(classification.confidence.bits) && (
            event matches ProcessEvent::DestFound { search, found } && settled_for(search@, wanted)
                && next == (ProcessView::Move {
                classification,
                dest: candidate(wanted, search@.number),
                shown: path_buf_text(found),
            })))
            &&& next is Stage && !(step is Stage) ==> (step matches ProcessView::FindDest {
                classification,
                wanted,
            } && !above_threshold(classification.confidence.bits) && (
            event matches ProcessEvent::DestFound { search, found } && settled_for(search@, wanted)
                && path_buf_parts(found) == candidate(wanted, search@.number) && next == (
            ProcessView::Stage {
                path: shown,
                proposed: path_buf_text(found),
                confidence: classification.confidence,
            })))
        }),
{
}

/// A move is recorded only after it was made, for the file that was moved, and
/// the record tells where the file went.
pub proof fn law_recorded_moves_were_made(
    path: Seq<PartView>,
    shown: Seq<char>,
    base: Seq<PartView>,
    folder: Seq<PartView>,
    step: ProcessView,
    event: ProcessEvent,
)
    requires
        process_after(path, shown, base, folder, step, event) is LogMove,
        !(step is LogMove),
    ensures
        event matches ProcessEvent::Moved { ok } && ok,
        step matches ProcessView::Move { classification, shown: dest, .. } && process_after(
            path,
            shown,
            base,
            folder,
            step,
            event,
        ) == (ProcessView::LogMove {
            path: shown,
            category: classification.category,
            confidence: classification.confidence,
            action: auto_move_record(dest),
        }),
{
}

/// The user interface is told of a file only once that file waits.
pub proof fn law_announced_files_wait(
    path: Seq<PartView>,
    shown: Seq<char>,
    base: Seq<PartView>,
    folder: Seq<PartView>,
    step: ProcessView,
    event: ProcessEvent,
)
    requires
        process_after(path, shown, base, folder, step, event) is Announce,
        !(step is Announce),
    ensures
        step matches ProcessView::Stage { path: staged, .. } && process_after(
            path,
            shown,
            base,
            folder,
            step,
            event,
        ) == (ProcessView::Announce { path: staged }),
        event matches ProcessEvent::Staged { ok } && ok,
{
}

/// The events of a scan: each file is sorted, and then reported.
pub open spec fn scan_run(step: SessionView, n: nat) -> SessionView
    decreases n,
{
    if n == 0 {
        step
    } else {
        session_after(
            session_after(scan_run(step, (n - 1) as nat), SessionEvent::Processed),
            SessionEvent::Reported,
        )
    }
}

/// The scan sorts every file that was listed, once and in the order of the
/// list, and is then over.
pub proof fn law_scan_sorts_every_file_once(total: usize, n: nat)
    requires
        n <= total,
    ensures
        scan_run(
            session_after(SessionView::ListFolders, SessionEvent::Listed { total }),
            n,
        ) == scan_from(n, total as nat),
    decreases n,
{
    if n > 0 {
        law_scan_sorts_every_file_once(total, (n - 1) as nat);
    }
}

/// The scan passes through every file that was listed, in the order of the
/// list: after `n` files are sorted and reported the file at `n` is next, and
/// after the last the scan is over.
pub proof fn law_scan_passes_through_every_file(total: usize, n: nat)
    requires
        n <= total,
    ensures
        ({
            let step = scan_run(
                session_after(SessionView::ListFolders, SessionEvent::Listed { total }),
                n,
            );
            &&& n < total ==> step == (SessionView::Process { index: n, total: total as nat })
            &&& n == total ==> step is ReportComplete
        }),
    decreases n,
{
    if n > 0 {
        law_scan_passes_through_every_file(total, (n - 1) as nat);
    }
}

/// Every file that was listed is sorted at one time of the scan, and at that
/// time only.
pub proof fn law_every_file_is_sorted_exactly_once(total: usize, index: nat, n: nat)
    requires
        index < total,
        n <= total,
    ensures
        scan_run(session_after(SessionView::ListFolders, SessionEvent::Listed { total }), n) == (
        SessionView::Process { index, total: total as nat }) <==> n == index,
{
    law_scan_passes_through_every_file(total, n);
}

/// A session, in words of its calls: the folders are saved, their files listed,
/// each file sorted and reported and then the next one taken, and after the
/// last the scan is reported and the folders are watched. Only saving and
/// watching can fail.
pub proof fn law_session_takes_its_steps(
    total: usize,
    index: usize,
    error: String,
    saved: SessionStep,
    unsaved: SessionStep,
    listed: SessionStep,
    sorted: SessionStep,
    reported: SessionStep,
    complete: SessionStep,
    live: SessionStep,
    stopped: SessionStep,
)
    requires
        call_ensures(
            start_watching,
            (SessionStep::SaveFolders, SessionEvent::Saved { result: Ok(()) }),
            saved,
        ),
        call_ensures(
            start_watching,
            (SessionStep::SaveFolders, SessionEvent::Saved { result: Err(error) }),
            unsaved,
        ),
        call_ensures(
            start_watching,
            (SessionStep::ListFolders, SessionEvent::Listed { total }),
            listed,
        ),
        call_ensures(
            start_watching,
            (SessionStep::Process { index, total }, SessionEvent::Processed),
            sorted,
        ),
        call_ensures(
            start_watching,
            (SessionStep::Report { index, total }, SessionEvent::Reported),
            reported,
        ),
        call_ensures(
            start_watching,
            (SessionStep::ReportComplete, SessionEvent::Reported),
            complete,
        ),
        call_ensures(
            start_watching,
            (SessionStep::StartWatcher, SessionEvent::WatcherStarted { ok: true }),
            live,
        ),
        call_ensures(
            start_watching,
            (SessionStep::StartWatcher, SessionEvent::WatcherStarted { ok: false }),
            stopped,
        ),
    ensures
        saved@ is ListFolders,
        unsaved@ == (SessionView::Failed { error: error@ }),
        total > 0 ==> listed@ == (SessionView::Process { index: 0, total: total as nat }),
        total == 0 ==> listed@ is ReportComplete,
        sorted@ == (SessionView::Report { index: index as nat, total: total as nat }),
        index + 1 < total ==> reported@ == (SessionView::Process {
            index: (index + 1) as nat,
            total: total as nat,
        }),
        index + 1 >= total ==> reported@ is ReportComplete,
        complete@ is StartWatcher,
        live@ is Live,
        stopped@ is Stopped,
{
}

/// Each step of a session is the one that the laws of sessions speak of.
pub proof fn law_session_is_as_its_laws_say(step: SessionStep, event: SessionEvent, r: SessionStep)
    requires
        call_ensures(start_watching, (step, event), r),
    ensures
        r@ == session_after(step@, event),
        step matches SessionStep::Process { index, total } ==> step@ == (SessionView::Process {
            index: index as nat,
            total: total as nat,
        }),
{
}

/// The folders are watched only after the scan is over, so that no file is
/// sorted both by the scan and as a new one.
pub proof fn law_watching_starts_after_the_scan(step: SessionView, event: SessionEvent)
    requires
        session_after(step, event) is StartWatcher,
        !(step is StartWatcher),
    ensures
        step is ReportComplete,
{
}

/// The scan is over only when no file is left.
pub proof fn law_scan_ends_when_no_file_is_left(step: SessionView, event: SessionEvent)
    requires
        session_after(step, event) is ReportComplete,
        !(step is ReportComplete),
    ensures
        (step matches SessionView::Report { index, total } && index + 1 >= total) || (
        step is ListFolders && (event matches SessionEvent::Listed { total } && total == 0)),
{
}

/// Nothing is sorted unless the folders were saved.
pub proof fn law_folders_are_saved_first(step: SessionView, event: SessionEvent)
    requires
        step is SaveFolders,
        session_after(step, event) != step,
    ensures
        event matches SessionEvent::Saved { result } && match result {
            Ok(_) => session_after(step, event) is ListFolders,
            Err(e) => session_after(step, event) == (SessionView::Failed { error: e@ }),
        },
{
}

/// What the classifier, the database and the operating system say in the
/// course of sorting one file.
pub struct ProcessWorld {
    pub classified: Result<ClassificationResult, String>,
    pub search: UniqueDest,
    pub found: PathBuf,
    pub moved: bool,
    pub staged: bool,
}

/// What comes of a step.
pub open spec fn process_world_event(world: ProcessWorld, step: ProcessView) -> ProcessEvent {
    match step {
        ProcessView::Classify => ProcessEvent::Classified { result: world.classified },
        ProcessView::FindDest { .. } => ProcessEvent::DestFound {
            search: world.search,
            found: world.found,
        },
        ProcessView::Move { .. } => ProcessEvent::Moved { ok: world.moved },
        ProcessView::LogMove { .. } => ProcessEvent::Logged,
        ProcessView::Stage { .. } => ProcessEvent::Staged { ok: world.staged },
        _ => ProcessEvent::Announced,
    }
}

/// The step reached after `n` events.
pub open spec fn process_run(
    path: Seq<PartView>,
    shown: Seq<char>,
    base: Seq<PartView>,
    folder: Seq<PartView>,
    world: ProcessWorld,
    n: nat,
) -> ProcessView
    decreases n,
{
    if n == 0 {
        ProcessView::Classify
    } else {
        let before = process_run(path, shown, base, folder, world, (n - 1) as nat);
        process_after(path, shown, base, folder, before, process_world_event(world, before))
    }
}

/// Whether a free name was found for a path.
pub open spec fn found_for(world: ProcessWorld, wanted: Seq<PartView>) -> bool {
    settled_for(world.search@, wanted) && path_buf_parts(world.found) == candidate(
        wanted,
        world.search@.number,
    )
}

/// Sorting a file is over after four events. A file with a name that could be
/// classified goes one of two ways: it is moved and that is recorded, or it is
/// put into the queue and that is announced; which way, its confidence alone
/// decides. The folder that the model suggested cannot change that.
pub proof fn law_process_outcome(
    path: Seq<PartView>,
    shown: Seq<char>,
    base: Seq<PartView>,
    suggested: Seq<PartView>,
    category: Seq<char>,
    world: ProcessWorld,
)
    requires
        file_name(path) matches Some(name) ==> found_for(
            world,
            destination(base, safe_folder(category, suggested), name),
        ),
    ensures
        ({
            let folder = folder_parts(safe_folder(category, suggested));
            let last = process_run(path, shown, base, folder, world, 3);
            &&& process_run(path, shown, base, folder, world, 4) is Finished
            &&& match world.classified {
                Ok(c) if file_name(path) is Some => if above_threshold(c.confidence.bits) {
                    last == (if world.moved {
                        ProcessView::LogMove {
                            path: shown,
                            category: c.category@,
                            confidence: c.confidence,
                            action: auto_move_record(path_buf_text(world.found)),
                        }
                    } else {
                        ProcessView::Finished
                    })
                } else {
                    last == (if world.staged {
                        ProcessView::Announce { path: shown }
                    } else {
                        ProcessView::Finished
                    })
                },
                _ => last is Finished,
            }
        }),
{
    reveal_with_fuel(process_run, 5);
    if file_name(path) is Some {
        law_destination_stays_below_the_category_folder(
            category,
            suggested,
            base,
            file_name(path)->0,
        );
    }
}

/// No suggestion leads out of the folder of the category: a classified file
/// with a name goes below it, under its own name.
pub proof fn law_no_suggestion_leads_out(
    path: Seq<PartView>,
    base: Seq<PartView>,
    suggested: Seq<PartView>,
    classification: ClassificationView,
)
    requires
        file_name(path) is Some,
    ensures
        ({
            let safe = safe_folder(classification.category, suggested);
            let wanted = destination(base, safe, file_name(path)->0);
            &&& process_classified(path, base, folder_parts(safe), classification) == (
            ProcessView::FindDest { classification, wanted })
            &&& starts_with(wanted, base)
        }),
{
    law_destination_stays_below_the_category_folder(
        classification.category,
        suggested,
        base,
        file_name(path)->0,
    );
}

/// A file whose extension is known is moved without asking, if it can be.
pub proof fn law_known_extension_is_moved(
    path: Seq<PartView>,
    shown: Seq<char>,
    base: Seq<PartView>,
    folder: Seq<PartView>,
    wanted: Seq<PartView>,
    world: ProcessWorld,
)
    requires
        fast_result(path) is Some,
        found_for(world, wanted),
    ensures
        process_after(
            path,
            shown,
            base,
            folder,
            ProcessView::FindDest { classification: fast_result(path)->0, wanted },
            ProcessEvent::DestFound { search: world.search, found: world.found },
        ) == (ProcessView::Move {
            classification: fast_result(path)->0,
            dest: candidate(wanted, world.search@.number),
            shown: path_buf_text(world.found),
        }),
{
    law_known_extension_needs_no_model(path);
}

/// A classified file is wanted below the folder of its category, in the folder
/// below that, under the name that it has; a file without a name, or one that
/// could not be classified, is left.
pub proof fn law_classified_file_is_wanted_below_its_folder(
    p: FilePath,
    shown: &str,
    base: FilePath,
    folder: FilePath,
    c: ClassificationResult,
    error: String,
    name: Option<FilePath>,
    r: ProcessStep,
    failed: ProcessStep,
)
    requires
        folder@.len() > 0 ==> folder@[0] is Normal,
        call_ensures(FilePath::last_name, (&p,), name),
        call_ensures(
            process_step,
            (
                &p,
                shown,
                &base,
                &folder,
                ProcessStep::Classify,
                ProcessEvent::Classified { result: Ok(c) },
            ),
            r,
        ),
        call_ensures(
            process_step,
            (
                &p,
                shown,
                &base,
                &folder,
                ProcessStep::Classify,
                ProcessEvent::Classified { result: Err(error) },
            ),
            failed,
        ),
    ensures
        name matches Some(n) ==> r@ == (ProcessView::FindDest {
            classification: c@,
            wanted: base@ + folder@ + n@,
        }),
        name is None ==> r@ is Finished,
        failed@ is Finished,
{
    if folder@.len() == 0 {
        assert(base@ + folder@ =~= base@);
    }
    if let Some(n) = name {
        let wanted = base@ + folder@ + n@;
        assert(joined(joined(base@, folder@), n@) == wanted);
        assert(wanted.take(base@.len() as int) =~= base@);
    }
}

/// Once the free name for the wanted path is found, a file that is classified
/// with more than 0.90 is moved there, and any other waits with that as its
/// proposed destination; a name that is not the one looked for is not used.
pub proof fn law_sure_files_move_and_others_wait(
    path: &str,
    c: ClassificationResult,
    wanted: FilePath,
    search: UniqueDest,
    free: FilePath,
    found: FilePath,
    shown: String,
    r: ProcessStep,
)
    requires
        call_ensures(UniqueDest::candidate, (&search,), free),
        call_ensures(found_step, (path, c, &wanted, &search, found, shown), r),
    ensures
        search.settled && search.path@ == wanted@ && found@ == free@ ==> {
            if 0x3FEC_CCCC_CCCC_CCCD < c.confidence.bits <= 0x7FF0_0000_0000_0000 {
                r@ == (ProcessView::Move { classification: c@, dest: found@, shown: shown@ })
            } else {
                r@ == (ProcessView::Stage {
                    path: path@,
                    proposed: shown@,
                    confidence: c.confidence,
                })
            }
        },
        !(search.settled && search.path@ == wanted@ && found@ == free@) ==> r@ is Finished,
{
    assert(search@.path == search.path@);
}

/// A move that was made is recorded for the file that was moved, with its
/// classification and where it went; a file that waits is announced; and what
/// failed is neither.
pub proof fn law_what_was_done_is_recorded(
    p: FilePath,
    shown: &str,
    base: FilePath,
    folder: FilePath,
    c: ClassificationResult,
    wanted: FilePath,
    search: UniqueDest,
    found: PathBuf,
    found_parts: FilePath,
    found_shown: String,
    dest: FilePath,
    dest_shown: String,
    path: String,
    proposed: String,
    found_r: ProcessStep,
    of_found: ProcessStep,
    moved: ProcessStep,
    stuck: ProcessStep,
    logged: ProcessStep,
    staged: ProcessStep,
    unstaged: ProcessStep,
    announced: ProcessStep,
)
    requires
        found_parts@ == path_buf_parts(found),
        found_shown@ == path_buf_text(found),
        call_ensures(
            process_step,
            (
                &p,
                shown,
                &base,
                &folder,
                ProcessStep::FindDest { classification: c, wanted },
                ProcessEvent::DestFound { search, found },
            ),
            found_r,
        ),
        call_ensures(
            found_step,
            (shown, c, &wanted, &search, found_parts, found_shown),
            of_found,
        ),
        call_ensures(
            process_step,
            (
                &p,
                shown,
                &base,
                &folder,
                ProcessStep::Move { classification: c, dest, shown: dest_shown },
                ProcessEvent::Moved { ok: true },
            ),
            moved,
        ),
        call_ensures(
            process_step,
            (
                &p,
                shown,
                &base,
                &folder,
                ProcessStep::Move { classification: c, dest, shown: dest_shown },
                ProcessEvent::Moved { ok: false },
            ),
            stuck,
        ),
        call_ensures(
            process_step,
            (
                &p,
                shown,
                &base,
                &folder,
                ProcessStep::LogMove {
                    path,
                    category: c.category,
                    confidence: c.confidence,
                    action: proposed,
                },
                ProcessEvent::Logged,
            ),
            logged,
        ),
        call_ensures(
            process_step,
            (
                &p,
                shown,
                &base,
                &folder,
                ProcessStep::Stage { path, proposed, confidence: c.confidence },
                ProcessEvent::Staged { ok: true },
            ),
            staged,
        ),
        call_ensures(
            process_step,
            (
                &p,
                shown,
                &base,
                &folder,
                ProcessStep::Stage { path, proposed, confidence: c.confidence },
                ProcessEvent::Staged { ok: false },
            ),
            unstaged,
        ),
        call_ensures(
            process_step,
            (
                &p,
                shown,
                &base,
                &folder,
                ProcessStep::Announce { path },
                ProcessEvent::Announced,
            ),
            announced,
        ),
    ensures
        found_r@ == of_found@,
        moved@ == (ProcessView::LogMove {
            path: shown@,
            category: c.category@,
            confidence: c.confidence,
            action: "auto-moved to "@ + dest_shown@,
        }),
        stuck@ is Finished,
        logged@ is Finished,
        staged@ == (ProcessView::Announce { path: path@ }),
        unstaged@ is Finished,
        announced@ is Finished,
{
}

/// A file is wanted below the folder of the category that it was classified
/// with, in the folder that was suggested for it, made safe and stripped, under
/// the name that its path ends in.
pub proof fn law_file_is_wanted_where_it_was_classified(
    path: PathBuf,
    c: ClassificationResult,
    name: PartView,
    r: ProcessStep,
)
    requires
        file_name(path_buf_parts(path)) == Some(name),
        call_ensures(
            process_file,
            (&path, ProcessStep::Classify, ProcessEvent::Classified { result: Ok(c) }),
            r,
        ),
    ensures
        r@ matches ProcessView::FindDest { classification, wanted } && classification == c@ && (
        exists|found: DirsView, suggested: Seq<PartView>|
            {
                &&& looked_up(found)
                &&& reads_as(c.suggested_folder@, suggested)
                &&& portable(c.suggested_folder@) ==> suggested == slash_components(
                    c.suggested_folder@,
                )
                &&& wanted == (#[trigger] category_base(c.category@, found) + folder_parts(
                    #[trigger] safe_folder(c.category@, suggested),
                )).push(name)
            }),
{
    let (base, folder) = choose|base: Seq<PartView>, folder: Seq<PartView>|
        r@ == #[trigger] process_after(
            path_buf_parts(path),
            path_buf_text(path),
            base,
            folder,
            ProcessView::Classify,
            ProcessEvent::Classified { result: Ok(c) },
        ) && sends_to(c@, base, folder);
    let found = choose|found: DirsView|
        looked_up(found) && base == #[trigger] category_base(c@.category, found);
    assert(looked_up(found) && base == category_base(c@.category, found));
    let any = choose|s: Seq<PartView>| #[trigger]
        reads_as(c@.suggested_folder, s) && folder == folder_parts(safe_folder(c@.category, s));
    assert(reads_as(c@.suggested_folder, any));
    let suggested = if portable(c@.suggested_folder) {
        slash_components(c@.suggested_folder)
    } else {
        any
    };
    assert(folder == folder_parts(safe_folder(c@.category, suggested)));
    law_destination_stays_below_the_category_folder(c@.category, suggested, base, name);
    assert(joined(joined(base, folder), seq![name]) == (base + folder).push(name));
}

/// After a file is classified, its further steps are those of its components
/// and of the text that it is shown as.
pub proof fn law_file_is_sorted_by_its_path(
    path: PathBuf,
    p: FilePath,
    shown: &str,
    base: FilePath,
    folder: FilePath,
    step: ProcessStep,
    event: ProcessEvent,
    r: ProcessStep,
    of_parts: ProcessStep,
)
    requires
        p@ == path_buf_parts(path),
        shown@ == path_buf_text(path),
        !(event is Classified),
        call_ensures(process_file, (&path, step, event), r),
        call_ensures(process_step, (&p, shown, &base, &folder, step, event), of_parts),
    ensures
        r@ == of_parts@,
{
}

/// How far the scan is: one more than the position of the file that was sorted,
/// of all, shown by the name of the file.
pub proof fn law_progress_counts_from_one(
    path: PathBuf,
    index: usize,
    total: usize,
    r: ScanProgress,
    name: Option<String>,
    of_name: ScanProgress,
)
    requires
        index < total,
        call_ensures(scan_progress, (&path, index, total), r),
        call_ensures(progress_after, (name, index, total), of_name),
    ensures
        r.current == index + 1 && of_name.current == index + 1,
        r.total == total && of_name.total == total,
        file_name(path_buf_parts(path)) matches Some(PartView::Normal(n)) ==> r.current_file@ == n,
        file_name(path_buf_parts(path)) is None ==> r.current_file@.len() == 0,
        name matches Some(t) ==> of_name.current_file@ == t@,
        name is None ==> of_name.current_file@.len() == 0,
{
}

/// The folders that were saved are taken up again, where any were.
pub proof fn law_saved_folders_are_resumed(
    folders: Vec<String>,
    error: String,
    r: Option<Vec<String>>,
    failed: Option<Vec<String>>,
)
    requires
        call_ensures(folders_to_resume, (Ok(folders),), r),
        call_ensures(folders_to_resume, (Err(error),), failed),
    ensures
        folders@.len() > 0 ==> r == Some(folders),
        folders@.len() == 0 ==> r is None,
        failed is None,
{
}

/// An event that does not belong to the step changes nothing in the sorting of
/// a file, and what is finished stays finished.
pub proof fn law_stray_event_changes_no_file(
    p: FilePath,
    shown: &str,
    base: FilePath,
    folder: FilePath,
    path: PathBuf,
    step: ProcessStep,
    event: ProcessEvent,
    r: ProcessStep,
    by_path: ProcessStep,
)
    requires
        call_ensures(process_step, (&p, shown, &base, &folder, step, event), r),
        call_ensures(process_file, (&path, step, event), by_path),
        !(step is Classify && event is Classified),
        !(step is FindDest && event is DestFound),
        !(step is Move && event is Moved),
        !(step is LogMove && event is Logged),
        !(step is Stage && event is Staged),
        !(step is Announce && event is Announced),
    ensures
        r@ == step@,
        by_path@ == step@,
{
    let (b, f) = choose|b: Seq<PartView>, f: Seq<PartView>|
        by_path@ == #[trigger] process_after(
            path_buf_parts(path),
            path_buf_text(path),
            b,
            f,
            step@,
            event,
        );
    assert(by_path@ == process_after(
        path_buf_parts(path),
        path_buf_text(path),
        b,
        f,
        step@,
        event,
    ));
}

/// An event that does not belong to the step changes nothing in a session, and
/// a session that is live, stopped or failed stays so.
pub proof fn law_stray_event_changes_no_session(
    step: SessionStep,
    event: SessionEvent,
    r: SessionStep,
)
    requires
        call_ensures(start_watching, (step, event), r),
        !(step is SaveFolders && event is Saved),
        !(step is ListFolders && event is Listed),
        !(step is Process && event is Processed),
        !((step is Report || step is ReportComplete) && event is Reported),
        !(step is StartWatcher && event is WatcherStarted),
    ensures
        r@ == step@,
{
}

/// A classified file is wanted where its folder and its name lead from the
/// folder of the category, whatever these are, and only where that path begins
/// with the folder of the category; else nothing is done with it.
pub proof fn law_file_never_leaves_the_folder_of_its_category(
    p: FilePath,
    shown: &str,
    base: FilePath,
    folder: FilePath,
    c: ClassificationResult,
    name: FilePath,
    there: FilePath,
    r: ProcessStep,
)
    requires
        call_ensures(FilePath::last_name, (&p,), Some(name)),
        call_ensures(destination_path, (&base, &folder, &name), there),
        call_ensures(
            process_step,
            (
                &p,
                shown,
                &base,
                &folder,
                ProcessStep::Classify,
                ProcessEvent::Classified { result: Ok(c) },
            ),
            r,
        ),
    ensures
        (base@.len() <= there@.len() && forall|i: int|
            0 <= i < base@.len() ==> there@[i] == #[trigger] base@[i]) ==> r@ == (
        ProcessView::FindDest { classification: c@, wanted: there@ }),
        base@.len() > there@.len() ==> r@ is Finished,
        forall|i: int|
            0 <= i < base@.len() && i < there@.len() && there@[i] != #[trigger] base@[i] ==> r@
                is Finished,
{
    if starts_with(there@, base@) {
        assert forall|i: int| 0 <= i < base@.len() implies there@[i] == #[trigger] base@[i] by {
            assert(there@.take(base@.len() as int)[i] == there@[i]);
        }
    } else if base@.len() <= there@.len() && forall|i: int|
        0 <= i < base@.len() ==> there@[i] == #[trigger] base@[i] {
        assert(there@.take(base@.len() as int) =~= base@);
    }
}

} // verus!
