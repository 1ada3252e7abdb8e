//! Which files are looked at, and how folders are watched for them.
use vstd::prelude::*;
use crate::path::{extension_text, file_name_text, FilePath, PartView};
use crate::text::{because, reply_view, same_text, texts};

verus! {

/// Whether a path is not for sorting: it does not end in a readable name, the
/// file is hidden, or it is a partial download.
pub open spec fn temp_file(path: Seq<PartView>) -> bool {
    match file_name_text(path) {
        None => true,
        Some(name) => {
            ||| name.len() > 0 && name[0] == '.'
            ||| extension_text(path) == Some("tmp"@)
            ||| extension_text(path) == Some("part"@)
            ||| extension_text(path) == Some("crdownload"@)
        },
    }
}

/// Returns true for files that should be ignored (temporary and partial
/// downloads, hidden files).
pub fn is_temp_file(path: &FilePath) -> (r: bool)
    ensures
        r == temp_file(path@),
{
    match path.file_name() {
        None => true,
        Some(name) => {
            if name.as_str().unicode_len() > 0 && name.as_str().get_char(0) == '.' {
                return true;
            }
            match path.extension() {
                None => false,
                Some(ext) => same_text(ext.as_str(), "tmp") || same_text(ext.as_str(), "part")
                    || same_text(ext.as_str(), "crdownload"),
            }
        },
    }
}

/// A path that was found, and whether a file is there.
pub struct Found {
    pub path: FilePath,
    pub is_file: bool,
}

/// Whether what was found is a file to sort.
pub open spec fn sortable(found: Found) -> bool {
    found.is_file && !temp_file(found.path@)
}

/// Whether `picked` lists, in ascending order, exactly the positions of the
/// files to sort.
pub open spec fn picks_sortable(picked: Seq<usize>, found: Seq<Found>) -> bool {
    &&& forall|j: int, k: int| 0 <= j < k < picked.len() ==> picked[j] < picked[k]
    &&& forall|j: int|
        0 <= j < picked.len() ==> (#[trigger] picked[j]) < found.len() && sortable(
            found[picked[j] as int],
        )
    &&& forall|i: int|
        0 <= i < found.len() && sortable(#[trigger] found[i]) ==> picked.contains(i as usize)
}

/// The positions of the files to sort, in ascending order.
pub fn files_to_sort(found: &Vec<Found>) -> (r: Vec<usize>)
    ensures
        picks_sortable(r@, found@),
{
    let mut picked: Vec<usize> = Vec::new();
    let mut at: usize = 0;
    while at < found.len()
        invariant
            at <= found@.len(),
            forall|j: int, k: int| 0 <= j < k < picked@.len() ==> picked@[j] < picked@[k],
            forall|j: int|
                0 <= j < picked@.len() ==> (#[trigger] picked@[j]) < at && sortable(
                    found@[picked@[j] as int],
                ),
            forall|i: int|
                0 <= i < at && sortable(#[trigger] found@[i]) ==> picked@.contains(i as usize),
        decreases found@.len() - at,
    {
        let ghost before = picked@;
        if found[at].is_file && !is_temp_file(&found[at].path) {
            picked.push(at);
        }
        proof {
            assert forall|i: int| 0 <= i < at + 1 && sortable(
                #[trigger] found@[i],
            ) implies picked@.contains(i as usize) by {
                if i < at {
                    let j = choose|j: int| 0 <= j < before.len() && before[j] == i as usize;
                    assert(picked@[j] == i as usize);
                } else {
                    assert(picked@[picked@.len() - 1] == i as usize);
                }
            }
        }
        at = at + 1;
    }
    picked
}

/// Of the paths of a change in a watched folder, the positions of those to
/// sort: the files to sort where the change is a creation, and else none.
pub fn created_files(is_creation: bool, found: &Vec<Found>) -> (r: Vec<usize>)
    ensures
        is_creation ==> picks_sortable(r@, found@),
        !is_creation ==> r@.len() == 0,
{
    if is_creation {
        files_to_sort(found)
    } else {
        Vec::new()
    }
}

/// What is to be done next to watch folders.
pub enum WatchStep {
    /// Make a watcher.
    Create,
    /// Watch the folder at this position, with all below it.
    Watch { index: usize },
    /// Nothing: this is the result.
    Done { result: Result<(), String> },
}

/// The value of a step.
#[verifier::ext_equal]
pub enum WatchView {
    Create,
    Watch { index: usize },
    Done { result: Result<(), Seq<char>> },
}

impl View for WatchStep {
    type V = WatchView;

    open spec fn view(&self) -> WatchView {
        match self {
            WatchStep::Create => WatchView::Create,
            WatchStep::Watch { index } => WatchView::Watch { index: *index },
            WatchStep::Done { result } => WatchView::Done { result: reply_view(*result) },
        }
    }
}

/// The message for a folder that cannot be watched.
pub open spec fn watch_failure(folder: Seq<char>, cause: Seq<char>) -> Seq<char> {
    "Failed to watch folder '"@ + folder + "': "@ + cause
}

/// Watching the folders from `index` on: done where none is left.
pub open spec fn watch_from(folders: Seq<Seq<char>>, index: int) -> WatchView {
    if index < folders.len() {
        WatchView::Watch { index: index as usize }
    } else {
        WatchView::Done { result: Ok(()) }
    }
}

/// The step that follows `step` after `reply`: the folders are watched in
/// their order, and the first failure ends it.
pub open spec fn watch_after(
    folders: Seq<Seq<char>>,
    step: WatchView,
    reply: Result<(), Seq<char>>,
) -> WatchView {
    match step {
        WatchView::Create => match reply {
            Ok(_) => watch_from(folders, 0),
            Err(e) => WatchView::Done { result: Err("Failed to create watcher: "@ + e) },
        },
        WatchView::Watch { index } => if index >= folders.len() {
            step
        } else {
            match reply {
                Ok(_) => watch_from(folders, index + 1),
                Err(e) => WatchView::Done { result: Err(watch_failure(folders[index as int], e)) },
            }
        },
        WatchView::Done { .. } => step,
    }
}

/// Watches folders for new files, from `Create` on: the step that follows
/// `step` after `reply`.
pub fn start_watcher(folders: &Vec<String>, step: WatchStep, reply: Result<(), String>) -> (r:
    WatchStep)
    ensures
        r@ == watch_after(texts(folders@), step@, reply_view(reply)),
{
    match step {
        WatchStep::Create => match reply {
            Ok(_) => if folders.len() > 0 {
                WatchStep::Watch { index: 0 }
            } else {
                WatchStep::Done { result: Ok(()) }
            },
            Err(e) => WatchStep::Done {
                result: Err(because("Failed to create watcher: ", e.as_str())),
            },
        },
        WatchStep::Watch { index } => if index >= folders.len() {
            WatchStep::Watch { index }
        } else {
            match reply {
                Ok(_) => if index + 1 < folders.len() {
                    WatchStep::Watch { index: index + 1 }
                } else {
                    WatchStep::Done { result: Ok(()) }
                },
                Err(e) => {
                    let start: String = because(
                        "Failed to watch folder '",
                        folders[index].as_str(),
                    );
                    WatchStep::Done { result: Err(start.concat("': ").concat(e.as_str())) }
                },
            }
        },
        WatchStep::Done { result } => WatchStep::Done { result },
    }
}

// Laws

/// The step reached from `step` after some replies.
pub open spec fn watch_run(
    folders: Seq<Seq<char>>,
    step: WatchView,
    replies: Seq<Result<(), Seq<char>>>,
) -> WatchView
    decreases replies.len(),
{
    if replies.len() == 0 {
        step
    } else {
        watch_after(
            folders,
            watch_run(folders, step, replies.drop_last()),
            replies.last(),
        )
    }
}

/// When the watcher is made and every folder can be watched, the first of them
/// first, watching succeeds.
pub proof fn law_watching_succeeds(folders: Seq<Seq<char>>, replies: Seq<Result<(), Seq<char>>>)
    requires
        folders.len() <= usize::MAX,
        replies.len() == folders.len() + 1,
        forall|i: int| 0 <= i < replies.len() ==> (#[trigger] replies[i]) is Ok,
    ensures
        watch_run(folders, WatchView::Create, replies) == (WatchView::Done { result: Ok(()) }),
{
    lemma_watch_run(folders, replies, replies.len() as int);
    assert(replies.take(replies.len() as int) =~= replies);
}

/// The first folder that cannot be watched is the one that the error names,
/// whatever is replied after it.
pub proof fn law_first_failure_ends_watching(
    folders: Seq<Seq<char>>,
    replies: Seq<Result<(), Seq<char>>>,
    failed: int,
)
    requires
        folders.len() <= usize::MAX,
        0 <= failed < folders.len(),
        replies.len() >= failed + 2,
        forall|i: int| 0 <= i <= failed ==> (#[trigger] replies[i]) is Ok,
        replies[failed + 1] is Err,
    ensures
        watch_run(folders, WatchView::Create, replies) == (WatchView::Done {
            result: Err(watch_failure(folders[failed], replies[failed + 1]->Err_0)),
        }),
    decreases replies.len(),
{
    if replies.len() == failed + 2 {
        lemma_watch_run(folders, replies, failed + 1);
        assert(replies.drop_last() =~= replies.take(failed + 1));
    } else {
        law_first_failure_ends_watching(folders, replies.drop_last(), failed);
    }
}

/// After `n` good replies the folder at `n - 1` is next.
proof fn lemma_watch_run(folders: Seq<Seq<char>>, replies: Seq<Result<(), Seq<char>>>, n: int)
    requires
        folders.len() <= usize::MAX,
        1 <= n <= folders.len() + 1,
        n <= replies.len(),
        forall|i: int| 0 <= i < n ==> (#[trigger] replies[i]) is Ok,
    ensures
        watch_run(folders, WatchView::Create, replies.take(n)) == watch_from(folders, n - 1),
    decreases n,
{
    assert(replies.take(n).drop_last() =~= replies.take(n - 1));
    assert(replies.take(n).last() == replies[n - 1]);
    if n == 1 {
        assert(replies.take(0).len() == 0);
        assert(watch_run(folders, WatchView::Create, replies.take(0)) == WatchView::Create);
    } else {
        lemma_watch_run(folders, replies, n - 1);
    }
}

/// Hidden files and partial downloads are not for sorting, and all other files
/// with a readable name are: a name that begins with a dot, and the extensions
/// `tmp`, `part` and `crdownload` in just these letters.
pub proof fn law_what_is_not_for_sorting(
    p: FilePath,
    name: Option<String>,
    extension: Option<String>,
    r: bool,
)
    requires
        call_ensures(FilePath::file_name, (&p,), name),
        call_ensures(FilePath::extension, (&p,), extension),
        call_ensures(is_temp_file, (&p,), r),
    ensures
        name is None ==> r,
        name matches Some(t) ==> (r <==> (t@.len() > 0 && t@[0] == '.') || (
        extension matches Some(e) && (e@ == "tmp"@ || e@ == "part"@ || e@ == "crdownload"@))),
        r == temp_file(p@),
{
}

/// The files to sort are picked once each and in their order: exactly those
/// that are files and not temporary ones. Of a change that is no creation none
/// is picked.
pub proof fn law_files_are_picked_once(
    found: Vec<Found>,
    r: Vec<usize>,
    created: Vec<usize>,
    other: Vec<usize>,
    i: int,
)
    requires
        0 <= i < found@.len(),
        call_ensures(files_to_sort, (&found,), r),
        call_ensures(created_files, (true, &found), created),
        call_ensures(created_files, (false, &found), other),
    ensures
        (found@[i].is_file && !temp_file(found@[i].path@)) <==> exists|k: int|
            0 <= k < r@.len() && #[trigger] r@[k] == i,
        (found@[i].is_file && !temp_file(found@[i].path@)) <==> exists|k: int|
            0 <= k < created@.len() && #[trigger] created@[k] == i,
        forall|j: int, k: int|
            0 <= j < k < r@.len() ==> #[trigger] r@[j] < #[trigger] r@[k] < found@.len(),
        forall|j: int, k: int|
            0 <= j < k < created@.len() ==> #[trigger] created@[j] < #[trigger] created@[k]
                < found@.len(),
        other@.len() == 0,
{
    assert(found@.len() == found.len());
    lemma_picked(found@, r@, i);
    lemma_picked(found@, created@, i);
}

/// A position is picked exactly where a file to sort is there.
proof fn lemma_picked(found: Seq<Found>, picked: Seq<usize>, i: int)
    requires
        0 <= i < found.len(),
        found.len() <= usize::MAX,
        picks_sortable(picked, found),
    ensures
        (found[i].is_file && !temp_file(found[i].path@)) <==> exists|k: int|
            0 <= k < picked.len() && #[trigger] picked[k] == i,
{
    if found[i].is_file && !temp_file(found[i].path@) {
        assert(sortable(found[i]));
        assert(picked.contains(i as usize));
        let k = choose|k: int| 0 <= k < picked.len() && picked[k] == i as usize;
        assert(picked[k] == i);
    }
}

/// The folders are watched one after the other: after the watcher is made and
/// `n` folders are watched, the next folder is the one at `n`, and after the
/// last watching has succeeded.
pub proof fn law_every_folder_is_watched_in_turn(
    folders: Seq<Seq<char>>,
    replies: Seq<Result<(), Seq<char>>>,
    n: int,
)
    requires
        folders.len() <= usize::MAX,
        0 <= n <= folders.len(),
        n < replies.len(),
        forall|i: int| 0 <= i <= n ==> (#[trigger] replies[i]) is Ok,
    ensures
        n < folders.len() ==> watch_run(folders, WatchView::Create, replies.take(n + 1)) == (
        WatchView::Watch { index: n as usize }),
        n == folders.len() ==> watch_run(folders, WatchView::Create, replies.take(n + 1)) == (
        WatchView::Done { result: Ok(()) }),
{
    lemma_watch_run(folders, replies, n + 1);
}

/// A watcher that cannot be made, and a folder that cannot be watched, are
/// errors that tell the folder and the cause; and each step is the one that the
/// laws of watching speak of.
pub proof fn law_watching_tells_what_failed(
    folders: Vec<String>,
    index: usize,
    cause: String,
    step: WatchStep,
    reply: Result<(), String>,
    not_made: WatchStep,
    not_watched: WatchStep,
    r: WatchStep,
)
    requires
        index < folders@.len(),
        call_ensures(start_watcher, (&folders, WatchStep::Create, Err(cause)), not_made),
        call_ensures(
            start_watcher,
            (&folders, WatchStep::Watch { index }, Err(cause)),
            not_watched,
        ),
        call_ensures(start_watcher, (&folders, step, reply), r),
    ensures
        not_made@ == (WatchView::Done { result: Err("Failed to create watcher: "@ + cause@) }),
        not_watched@ == (WatchView::Done {
            result: Err("Failed to watch folder '"@ + folders@[index as int]@ + "': "@ + cause@),
        }),
        r@ == watch_after(texts(folders@), step@, reply_view(reply)),
{
}

/// Watching that is done stays done, and a folder that is not there is not
/// gone on from.
pub proof fn law_done_watching_stays_done(
    folders: Vec<String>,
    step: WatchStep,
    reply: Result<(), String>,
    r: WatchStep,
)
    requires
        call_ensures(start_watcher, (&folders, step, reply), r),
        step is Done || (step matches WatchStep::Watch { index } && index >= folders@.len()),
    ensures
        r@ == step@,
{
}

} // verus!
