//! Moving a file: finding a free name, and moving to where nothing is.
use vstd::prelude::*;
use std::path::PathBuf;
use crate::path::{
    extension_text, last_dot, lemma_dot_between, lemma_no_dot, name_extension, name_stem, parent,
    path_buf_parts, path_buf_text, path_text, stem_text, FilePath, PartView, PathPart,
};
use crate::text::{
    because, decimal, decimal_text, lemma_decimal_injective, lemma_decimal_nonempty, reply_view,
};

verus! {

// Free names

/// The name that differs from another by a number after its stem.
pub open spec fn numbered_name(
    stem: Seq<char>,
    extension: Option<Seq<char>>,
    number: nat,
) -> Seq<char> {
    match extension {
        Some(e) => stem + "("@ + decimal(number) + ")."@ + e,
        None => stem + "("@ + decimal(number) + ")"@,
    }
}

/// The name with a number that is tried for a path.
pub open spec fn candidate_name(path: Seq<PartView>, number: nat) -> Seq<char> {
    numbered_name(
        match stem_text(path) {
            Some(t) => t,
            None => "file"@,
        },
        extension_text(path),
        number,
    )
}

/// The folder that the candidates for a path are in.
pub open spec fn candidate_folder(path: Seq<PartView>) -> Seq<PartView> {
    match parent(path) {
        Some(p) => p,
        None => seq![PartView::CurDir],
    }
}

/// The paths that are tried one after the other: the path itself, and then its
/// name with the numbers from one on.
pub open spec fn candidate(path: Seq<PartView>, number: nat) -> Seq<PartView> {
    if number == 0 {
        path
    } else {
        candidate_folder(path).push(PartView::Normal(candidate_name(path, number)))
    }
}

/// A search for a path where nothing is yet.
pub struct UniqueDest {
    /// The path that was asked for.
    pub path: FilePath,
    /// The number of the candidate that is tried.
    pub number: u32,
    /// Whether nothing is at that candidate.
    pub settled: bool,
}

/// The value of a search.
#[verifier::ext_equal]
pub struct SearchView {
    pub path: Seq<PartView>,
    pub number: nat,
    pub settled: bool,
}

impl View for UniqueDest {
    type V = SearchView;

    open spec fn view(&self) -> SearchView {
        SearchView { path: self.path@, number: self.number as nat, settled: self.settled }
    }
}

/// Whether a search has settled on a free name for a path.
pub open spec fn settled_for(search: SearchView, path: Seq<PartView>) -> bool {
    search.settled && search.path == path
}

/// The start of a search.
pub open spec fn search_start(path: Seq<PartView>) -> SearchView {
    SearchView { path, number: 0, settled: false }
}

/// A search after it was told whether something is at its candidate.
pub open spec fn search_after(search: SearchView, exists: bool) -> SearchView {
    if search.settled {
        search
    } else if exists {
        SearchView { number: search.number + 1, ..search }
    } else {
        SearchView { settled: true, ..search }
    }
}

/// If something is at `path` already, find a name that is free by appending
/// (1), (2) and so on: `document.pdf`, `document(1).pdf`, `document(2).pdf`.
/// This is the start of the search.
pub fn unique_dest(path: &FilePath) -> (r: UniqueDest)
    ensures
        r@ == search_start(path@),
{
    UniqueDest { path: path.clone(), number: 0, settled: false }
}

impl UniqueDest {
    /// The name that is tried, in the folder of the path that was asked for;
    /// nothing where that path itself is tried.
    pub fn name(&self) -> (r: Option<String>)
        ensures
            r is None <==> self.number == 0,
            r matches Some(t) ==> t@ == candidate_name(self.path@, self.number as nat),
    {
        if self.number == 0 {
            return None;
        }
        let stem: String = match self.path.file_stem() {
            Some(t) => t,
            None => "file".to_owned(),
        };
        let number: String = decimal_text(self.number);
        let start: String = stem.concat("(").concat(number.as_str());
        match self.path.extension() {
            Some(e) => Some(start.concat(").").concat(e.as_str())),
            None => Some(start.concat(")")),
        }
    }

    /// The path that is tried.
    pub fn candidate(&self) -> (r: FilePath)
        ensures
            r@ == candidate(self.path@, self.number as nat),
    {
        match self.name() {
            None => self.path.clone(),
            Some(name) => match self.path.parent() {
                Some(folder) => folder.with_name(name.as_str()),
                None => {
                    let mut here: Vec<PathPart> = Vec::new();
                    here.push(PathPart::CurDir);
                    let folder: FilePath = FilePath { parts: here };
                    proof {
                        assert(folder@ =~= seq![PartView::CurDir]);
                    }
                    folder.with_name(name.as_str())
                },
            },
        }
    }

    /// Goes on after it was found whether something is at the candidate.
    pub fn answer(self, exists: bool) -> (r: UniqueDest)
        requires
            !self.settled && exists ==> self.number < u32::MAX,
        ensures
            r@ == search_after(self@, exists),
    {
        if self.settled {
            self
        } else if exists {
            UniqueDest { path: self.path, number: self.number + 1, settled: false }
        } else {
            UniqueDest { path: self.path, number: self.number, settled: true }
        }
    }
}

// Moving

/// What is to be done next to move a file.
pub enum MoveStep {
    /// See whether the source is there. The reply is an error where it is not.
    CheckSource,
    /// See whether nothing is at the destination. The reply is an error where
    /// something is.
    CheckDest,
    /// Create the folder of the destination, with all above it.
    CreateDir,
    /// Rename the source to the destination.
    Rename,
    /// Copy the source to the destination.
    Copy,
    /// Remove the source.
    RemoveSource,
    /// Nothing: this is the result.
    Done { result: Result<(), String> },
}

/// The value of a step.
#[verifier::ext_equal]
pub enum MoveView {
    CheckSource,
    CheckDest,
    CreateDir,
    Rename,
    Copy,
    RemoveSource,
    Done { result: Result<(), Seq<char>> },
}

impl View for MoveStep {
    type V = MoveView;

    open spec fn view(&self) -> MoveView {
        match self {
            MoveStep::CheckSource => MoveView::CheckSource,
            MoveStep::CheckDest => MoveView::CheckDest,
            MoveStep::CreateDir => MoveView::CreateDir,
            MoveStep::Rename => MoveView::Rename,
            MoveStep::Copy => MoveView::Copy,
            MoveStep::RemoveSource => MoveView::RemoveSource,
            MoveStep::Done { result } => MoveView::Done { result: reply_view(*result) },
        }
    }
}

/// Creating the folder of a path, or renaming where there is none.
pub open spec fn prepare_dest(to: Seq<PartView>) -> MoveView {
    if parent(to) is Some {
        MoveView::CreateDir
    } else {
        MoveView::Rename
    }
}

/// The step that follows `step` after `reply`, for a move from the path `from`
/// to the path `to`, which are shown as `from_shown` and `to_shown`. Nothing is
/// moved onto another thing that is there already. The source is renamed where
/// that can be done, and else copied and then removed; a file is not copied
/// onto itself.
pub open spec fn move_after(
    from_shown: Seq<char>,
    to_shown: Seq<char>,
    from: Seq<PartView>,
    to: Seq<PartView>,
    step: MoveView,
    reply: Result<(), Seq<char>>,
) -> MoveView {
    match (step, reply) {
        (MoveView::CheckSource, Ok(_)) => if from == to {
            prepare_dest(to)
        } else {
            MoveView::CheckDest
        },
        (MoveView::CheckSource, Err(_)) => MoveView::Done {
            result: Err("Source file does not exist: "@ + from_shown),
        },
        (MoveView::CheckDest, Ok(_)) => prepare_dest(to),
        (MoveView::CheckDest, Err(_)) => MoveView::Done {
            result: Err("Destination already exists: "@ + to_shown),
        },
        (MoveView::CreateDir, Ok(_)) => MoveView::Rename,
        (MoveView::CreateDir, Err(e)) => MoveView::Done {
            result: Err("Failed to create destination dir: "@ + e),
        },
        (MoveView::Rename, Ok(_)) => MoveView::Done { result: Ok(()) },
        (MoveView::Rename, Err(_)) => if from == to {
            MoveView::Done { result: Err("Destination already exists: "@ + to_shown) }
        } else {
            MoveView::Copy
        },
        (MoveView::Copy, Ok(_)) => MoveView::RemoveSource,
        (MoveView::Copy, Err(e)) => MoveView::Done { result: Err("Failed to copy file: "@ + e) },
        (MoveView::RemoveSource, Ok(_)) => MoveView::Done { result: Ok(()) },
        (MoveView::RemoveSource, Err(e)) => MoveView::Done {
            result: Err("Failed to remove source after copy: "@ + e),
        },
        (MoveView::Done { .. }, _) => step,
    }
}

/// Creating the folder of a path, or renaming where there is none.
fn prepare_step(to: &FilePath) -> (r: MoveStep)
    ensures
        r@ == prepare_dest(to@),
{
    if to.parent().is_some() {
        MoveStep::CreateDir
    } else {
        MoveStep::Rename
    }
}

/// The step that follows `step` after `reply`, for a move from the path `from`
/// to the path `to`, which are shown as `from_shown` and `to_shown`.
pub fn move_step(
    from_shown: &str,
    to_shown: &str,
    from: &FilePath,
    to: &FilePath,
    step: MoveStep,
    reply: Result<(), String>,
) -> (r: MoveStep)
    ensures
        r@ == move_after(from_shown@, to_shown@, from@, to@, step@, reply_view(reply)),
{
    match (step, reply) {
        (MoveStep::CheckSource, Ok(_)) => {
            if from.same(to) {
                prepare_step(to)
            } else {
                MoveStep::CheckDest
            }
        },
        (MoveStep::CheckSource, Err(_)) => MoveStep::Done {
            result: Err(because("Source file does not exist: ", from_shown)),
        },
        (MoveStep::CheckDest, Ok(_)) => prepare_step(to),
        (MoveStep::CheckDest, Err(_)) => MoveStep::Done {
            result: Err(because("Destination already exists: ", to_shown)),
        },
        (MoveStep::CreateDir, Ok(_)) => MoveStep::Rename,
        (MoveStep::CreateDir, Err(e)) => MoveStep::Done {
            result: Err(because("Failed to create destination dir: ", e.as_str())),
        },
        (MoveStep::Rename, Ok(_)) => MoveStep::Done { result: Ok(()) },
        (MoveStep::Rename, Err(_)) => {
            if from.same(to) {
                MoveStep::Done { result: Err(because("Destination already exists: ", to_shown)) }
            } else {
                MoveStep::Copy
            }
        },
        (MoveStep::Copy, Ok(_)) => MoveStep::RemoveSource,
        (MoveStep::Copy, Err(e)) => MoveStep::Done {
            result: Err(because("Failed to copy file: ", e.as_str())),
        },
        (MoveStep::RemoveSource, Ok(_)) => MoveStep::Done { result: Ok(()) },
        (MoveStep::RemoveSource, Err(e)) => MoveStep::Done {
            result: Err(because("Failed to remove source after copy: ", e.as_str())),
        },
        (MoveStep::Done { result }, _) => MoveStep::Done { result },
    }
}

/// Move a file from `from` to `to`, from `CheckSource` on: the step that
/// follows `step` after `reply`.
/// - An error if the source is not there.
/// - Never overwrites an existing file: an error if something else is at the
///   destination. A file may be renamed to the path that it has.
/// - The destination's folder is created if needed.
/// - Renaming comes first; copying and removing is for moves between devices.
pub fn move_file(from: &PathBuf, to: &PathBuf, step: MoveStep, reply: Result<(), String>) -> (r:
    MoveStep)
    ensures
        r@ == move_after(
            path_buf_text(*from),
            path_buf_text(*to),
            path_buf_parts(*from),
            path_buf_parts(*to),
            step@,
            reply_view(reply),
        ),
{
    move_step(
        path_text(from).as_str(),
        path_text(to).as_str(),
        &FilePath::from_path_buf(from),
        &FilePath::from_path_buf(to),
        step,
        reply,
    )
}

// Laws

/// A search after `n` answers, where `taken` says at which paths there is
/// something.
pub open spec fn search_run(
    path: Seq<PartView>,
    taken: spec_fn(Seq<PartView>) -> bool,
    n: nat,
) -> SearchView
    decreases n,
{
    if n == 0 {
        search_start(path)
    } else {
        let before = search_run(path, taken, (n - 1) as nat);
        search_after(before, taken(candidate(before.path, before.number)))
    }
}

/// The search settles on the first candidate where nothing is, so that no
/// number is skipped; and it stays there.
pub proof fn law_first_free_candidate_is_found(
    path: Seq<PartView>,
    taken: spec_fn(Seq<PartView>) -> bool,
    free: nat,
    n: nat,
)
    requires
        forall|k: nat| k < free ==> taken(#[trigger] candidate(path, k)),
        !taken(candidate(path, free)),
        n > free,
    ensures
        search_run(path, taken, n) == (SearchView { path, number: free, settled: true }),
    decreases n,
{
    if n == free + 1 {
        lemma_search_counts(path, taken, free, free);
    } else {
        law_first_free_candidate_is_found(path, taken, free, (n - 1) as nat);
    }
}

/// As long as every candidate is taken, each answer leads to the next.
proof fn lemma_search_counts(
    path: Seq<PartView>,
    taken: spec_fn(Seq<PartView>) -> bool,
    free: nat,
    n: nat,
)
    requires
        forall|k: nat| k < free ==> taken(#[trigger] candidate(path, k)),
        n <= free,
    ensures
        search_run(path, taken, n) == (SearchView { path, number: n, settled: false }),
    decreases n,
{
    if n > 0 {
        lemma_search_counts(path, taken, free, (n - 1) as nat);
        assert(taken(candidate(path, (n - 1) as nat)));
    }
}

/// The first `n` candidates for a path.
spec fn first_candidates(path: Seq<PartView>, n: nat) -> Set<Seq<PartView>>
    decreases n,
{
    if n == 0 {
        Set::empty()
    } else {
        first_candidates(path, (n - 1) as nat).insert(candidate(path, (n - 1) as nat))
    }
}

/// There are as many first candidates as were counted.
proof fn lemma_first_candidates(path: Seq<PartView>, n: nat)
    ensures
        first_candidates(path, n).finite(),
        first_candidates(path, n).len() == n,
        forall|p: Seq<PartView>| #[trigger]
            first_candidates(path, n).contains(p) ==> exists|k: nat|
                k < n && p == #[trigger] candidate(path, k),
    decreases n,
{
    if n > 0 {
        let m = (n - 1) as nat;
        lemma_first_candidates(path, m);
        if first_candidates(path, m).contains(candidate(path, m)) {
            let k = choose|k: nat| k < m && candidate(path, m) == #[trigger] candidate(path, k);
            law_candidates_differ(path, m, k);
        }
        assert forall|p: Seq<PartView>| #[trigger] first_candidates(path, n).contains(
            p,
        ) implies exists|k: nat| k < n && p == #[trigger] candidate(path, k) by {
            if first_candidates(path, m).contains(p) {
                let k = choose|k: nat| k < m && p == #[trigger] candidate(path, k);
                assert(k < n && p == candidate(path, k));
            } else {
                assert(m < n && p == candidate(path, m));
            }
        }
    }
}

/// Where some candidate is free, there is a first one.
proof fn lemma_first_free(
    path: Seq<PartView>,
    taken: spec_fn(Seq<PartView>) -> bool,
    free: nat,
) -> (first: nat)
    requires
        !taken(candidate(path, free)),
    ensures
        first <= free,
        !taken(candidate(path, first)),
        forall|k: nat| k < first ==> taken(#[trigger] candidate(path, k)),
    decreases free,
{
    if exists|k: nat| k < free && !taken(#[trigger] candidate(path, k)) {
        let k = choose|k: nat| k < free && !taken(#[trigger] candidate(path, k));
        lemma_first_free(path, taken, k)
    } else {
        free
    }
}

/// The search ends: where something is at finitely many paths, one of the
/// candidates is free, and the search settles on it after no more answers than
/// there are such paths, and one.
pub proof fn law_search_ends(path: Seq<PartView>, taken: Set<Seq<PartView>>)
    requires
        taken.finite(),
    ensures
        exists|k: nat| k <= taken.len() && !taken.contains(#[trigger] candidate(path, k)),
        ({
            let end = search_run(
                path,
                |p: Seq<PartView>| taken.contains(p),
                taken.len() + 1,
            );
            &&& end.settled
            &&& end.path == path
            &&& end.number <= taken.len()
            &&& !taken.contains(candidate(path, end.number))
        }),
{
    let n = taken.len() + 1;
    let at = |p: Seq<PartView>| taken.contains(p);
    if forall|k: nat| k < n ==> taken.contains(#[trigger] candidate(path, k)) {
        lemma_first_candidates(path, n);
        assert forall|p: Seq<PartView>| #[trigger]
            first_candidates(path, n).contains(p) implies taken.contains(p) by {
            let k = choose|k: nat| k < n && p == #[trigger] candidate(path, k);
            assert(taken.contains(candidate(path, k)));
        }
        vstd::set_lib::lemma_len_subset(first_candidates(path, n), taken);
    }
    let free = choose|k: nat| k < n && !taken.contains(#[trigger] candidate(path, k));
    assert(free < n && !taken.contains(candidate(path, free)));
    let first = lemma_first_free(path, at, free);
    law_first_free_candidate_is_found(path, at, first, n);
}

/// A search settles only on a candidate that was found free.
pub proof fn law_settled_candidate_was_free(search: SearchView, exists: bool)
    requires
        !search.settled,
        search_after(search, exists).settled,
    ensures
        !exists,
        search_after(search, exists).number == search.number,
        search_after(search, exists).path == search.path,
{
}

/// The length of a name is that of its stem and its extension with a dot.
proof fn lemma_stem_and_extension<A>(name: Seq<A>, dot: A)
    ensures
        last_dot(name, dot) < name.len(),
        match name_extension(name, dot) {
            Some(e) => name_stem(name, dot).len() + 1 + e.len() == name.len(),
            None => name_stem(name, dot) == name,
        },
{
    lemma_last_dot_bound(name, dot);
}

/// The last dot stands within the name.
proof fn lemma_last_dot_bound<A>(name: Seq<A>, dot: A)
    ensures
        -1 <= last_dot(name, dot) < name.len(),
    decreases name.len(),
{
    if name.len() > 0 {
        lemma_last_dot_bound(name.drop_last(), dot);
    }
}

/// No two candidates for a path are the same, so that the search always makes
/// progress.
pub proof fn law_candidates_differ(path: Seq<PartView>, a: nat, b: nat)
    requires
        a != b,
    ensures
        candidate(path, a) != candidate(path, b),
{
    if a == 0 {
        lemma_numbered_candidate_is_new(path, b);
    } else if b == 0 {
        lemma_numbered_candidate_is_new(path, a);
    } else if candidate(path, a) == candidate(path, b) {
        assert(candidate(path, a).last() == candidate(path, b).last());
        let left = candidate_name(path, a);
        let right = candidate_name(path, b);
        assert(left == right);
        let stem = match stem_text(path) {
            Some(t) => t,
            None => "file"@,
        };
        let from = (stem.len() + "("@.len()) as int;
        let tail = match extension_text(path) {
            Some(e) => ")."@ + e,
            None => ")"@,
        };
        assert(left =~= stem + "("@ + decimal(a) + tail);
        assert(right =~= stem + "("@ + decimal(b) + tail);
        assert(decimal(a).len() == decimal(b).len());
        assert(left.subrange(from, from + decimal(a).len()) =~= decimal(a));
        assert(right.subrange(from, from + decimal(b).len()) =~= decimal(b));
        lemma_decimal_injective(a, b);
    }
}

/// A candidate with a number is not the path itself.
proof fn lemma_numbered_candidate_is_new(path: Seq<PartView>, number: nat)
    requires
        number > 0,
    ensures
        candidate(path, number) != path,
{
    if candidate(path, number) == path {
        let name = candidate_name(path, number);
        assert(path.last() == PartView::Normal(name));
        assert(stem_text(path) == Some(name_stem(name, '.')));
        assert(extension_text(path) == name_extension(name, '.'));
        lemma_stem_and_extension(name, '.');
        lemma_decimal_nonempty(number);
        reveal_strlit("(");
        reveal_strlit(")");
        reveal_strlit(").");
    }
}

/// What is at the paths of a file system: the content of each.
pub type Disk = Map<Seq<PartView>, Seq<u8>>;

/// What is at a path, if anything.
pub open spec fn content_at(disk: Disk, path: Seq<PartView>) -> Option<Seq<u8>> {
    if disk.contains_key(path) {
        Some(disk[path])
    } else {
        None
    }
}

/// How the operating system takes the requests of one move that its disk does
/// not decide, and what a copy that fails leaves at the destination, if
/// anything.
pub struct MoveWorld {
    pub create_dir: Result<(), Seq<char>>,
    pub rename: Result<(), Seq<char>>,
    pub copy: Result<(), Seq<char>>,
    pub partial: Option<Seq<u8>>,
    pub remove: Result<(), Seq<char>>,
}

/// How far a move is, and what is on the disk.
#[verifier::ext_equal]
pub struct MoveState {
    pub step: MoveView,
    pub disk: Disk,
}

/// The reply to a step.
pub open spec fn move_reply(
    from: Seq<PartView>,
    to: Seq<PartView>,
    world: MoveWorld,
    state: MoveState,
) -> Result<(), Seq<char>> {
    match state.step {
        MoveView::CheckSource => if state.disk.contains_key(from) {
            Ok(())
        } else {
            Err(Seq::empty())
        },
        MoveView::CheckDest => if state.disk.contains_key(to) {
            Err(Seq::empty())
        } else {
            Ok(())
        },
        MoveView::CreateDir => world.create_dir,
        MoveView::Rename => world.rename,
        MoveView::Copy => world.copy,
        MoveView::RemoveSource => world.remove,
        MoveView::Done { .. } => Ok(()),
    }
}

/// The disk after a step.
pub open spec fn disk_after(
    from: Seq<PartView>,
    to: Seq<PartView>,
    world: MoveWorld,
    state: MoveState,
) -> Disk {
    match state.step {
        MoveView::Rename => if world.rename is Ok {
            state.disk.remove(from).insert(to, state.disk[from])
        } else {
            state.disk
        },
        MoveView::Copy => match (world.copy, world.partial) {
            (Ok(_), _) => state.disk.insert(to, state.disk[from]),
            (Err(_), Some(some)) => state.disk.insert(to, some),
            (Err(_), None) => state.disk,
        },
        MoveView::RemoveSource => if world.remove is Ok {
            state.disk.remove(from)
        } else {
            state.disk
        },
        _ => state.disk,
    }
}

/// How far a move is after `n` replies.
pub open spec fn move_run(
    from_shown: Seq<char>,
    to_shown: Seq<char>,
    from: Seq<PartView>,
    to: Seq<PartView>,
    world: MoveWorld,
    disk: Disk,
    n: nat,
) -> MoveState
    decreases n,
{
    if n == 0 {
        MoveState { step: MoveView::CheckSource, disk }
    } else {
        let before = move_run(from_shown, to_shown, from, to, world, disk, (n - 1) as nat);
        MoveState {
            step: move_after(
                from_shown,
                to_shown,
                from,
                to,
                before.step,
                move_reply(from, to, world, before),
            ),
            disk: disk_after(from, to, world, before),
        }
    }
}

/// Whether a file can be brought to a path: its folder can be created if there
/// is one, and the file can be renamed, or else copied to another path and
/// removed.
pub open spec fn movable(from: Seq<PartView>, to: Seq<PartView>, world: MoveWorld) -> bool {
    &&& parent(to) is None || world.create_dir is Ok
    &&& world.rename is Ok || (from != to && world.copy is Ok && world.remove is Ok)
}

/// Whether nothing but the file itself is at its destination.
pub open spec fn vacant(from: Seq<PartView>, to: Seq<PartView>, disk: Disk) -> bool {
    from == to || !disk.contains_key(to)
}

/// A move is over after six replies. It succeeds exactly where the source is
/// there, nothing else is at the destination, and the file can be brought there;
/// and then the content is at the destination, the source is gone, and nothing
/// else has changed.
pub proof fn law_move_outcome(
    from_shown: Seq<char>,
    to_shown: Seq<char>,
    from: Seq<PartView>,
    to: Seq<PartView>,
    world: MoveWorld,
    disk: Disk,
)
    ensures
        ({
            let end = move_run(from_shown, to_shown, from, to, world, disk, 6);
            if disk.contains_key(from) && vacant(from, to, disk) && movable(from, to, world) {
                end == (MoveState {
                    step: MoveView::Done { result: Ok(()) },
                    disk: disk.remove(from).insert(to, disk[from]),
                })
            } else {
                end.step matches MoveView::Done { result } && result is Err
            }
        }),
{
    reveal_with_fuel(move_run, 7);
    if from == to && disk.contains_key(from) {
        assert(disk.remove(from).insert(to, disk[from]) =~= disk);
    } else if disk.contains_key(from) && !disk.contains_key(to) {
        assert(disk.insert(to, disk[from]).remove(from) =~= disk.remove(from).insert(
            to,
            disk[from],
        ));
    }
}

/// A file that is at the destination is never overwritten by another: nothing
/// on the disk changes at any time of the move, and the move is an error.
pub proof fn law_existing_file_is_never_overwritten(
    from_shown: Seq<char>,
    to_shown: Seq<char>,
    from: Seq<PartView>,
    to: Seq<PartView>,
    world: MoveWorld,
    disk: Disk,
    n: nat,
)
    requires
        from != to,
        disk.contains_key(to),
    ensures
        ({
            let state = move_run(from_shown, to_shown, from, to, world, disk, n);
            &&& state.disk == disk
            &&& n >= 2 ==> (state.step matches MoveView::Done { result } && result is Err)
            &&& n >= 2 && disk.contains_key(from) ==> state.step == (MoveView::Done {
                result: Err("Destination already exists: "@ + to_shown),
            })
        }),
    decreases n,
{
    reveal_with_fuel(move_run, 3);
    if n > 2 {
        law_existing_file_is_never_overwritten(
            from_shown,
            to_shown,
            from,
            to,
            world,
            disk,
            (n - 1) as nat,
        );
    }
}

/// Moving a file to the path that it has changes nothing on the disk at any
/// time, and succeeds where it can be renamed.
pub proof fn law_move_to_its_own_path_changes_nothing(
    from_shown: Seq<char>,
    to_shown: Seq<char>,
    path: Seq<PartView>,
    world: MoveWorld,
    disk: Disk,
    n: nat,
)
    requires
        disk.contains_key(path),
    ensures
        ({
            let state = move_run(from_shown, to_shown, path, path, world, disk, n);
            &&& state.disk == disk
            &&& n >= 3 && movable(path, path, world) ==> state.step == (MoveView::Done {
                result: Ok(()),
            })
        }),
    decreases n,
{
    reveal_with_fuel(move_run, 4);
    assert(disk.remove(path).insert(path, disk[path]) =~= disk);
    if n > 0 {
        lemma_own_path_is_not_copied(
            from_shown,
            to_shown,
            path,
            world,
            disk,
            (n - 1) as nat,
        );
        law_move_to_its_own_path_changes_nothing(
            from_shown,
            to_shown,
            path,
            world,
            disk,
            (n - 1) as nat,
        );
    }
}

/// A file is never copied onto itself, nor removed after that.
proof fn lemma_own_path_is_not_copied(
    from_shown: Seq<char>,
    to_shown: Seq<char>,
    path: Seq<PartView>,
    world: MoveWorld,
    disk: Disk,
    n: nat,
)
    ensures
        ({
            let step = move_run(from_shown, to_shown, path, path, world, disk, n).step;
            !(step is Copy) && !(step is RemoveSource)
        }),
    decreases n,
{
    if n > 0 {
        lemma_own_path_is_not_copied(
            from_shown,
            to_shown,
            path,
            world,
            disk,
            (n - 1) as nat,
        );
    }
}

/// What was at the source is never lost: at any time of the move it is at the
/// source or at the destination, and nothing else has changed.
pub proof fn law_content_is_never_lost(
    from_shown: Seq<char>,
    to_shown: Seq<char>,
    from: Seq<PartView>,
    to: Seq<PartView>,
    world: MoveWorld,
    disk: Disk,
    n: nat,
)
    requires
        disk.contains_key(from),
    ensures
        ({
            let after = move_run(from_shown, to_shown, from, to, world, disk, n).disk;
            &&& (after.contains_key(from) && after[from] == disk[from]) || (after.contains_key(to)
                && after[to] == disk[from])
            &&& forall|other: Seq<PartView>|
                other != from && other != to ==> #[trigger] content_at(after, other) == content_at(
                    disk,
                    other,
                )
        }),
{
    lemma_move_invariant(from_shown, to_shown, from, to, world, disk, n);
}

/// What holds of a move at every time.
proof fn lemma_move_invariant(
    from_shown: Seq<char>,
    to_shown: Seq<char>,
    from: Seq<PartView>,
    to: Seq<PartView>,
    world: MoveWorld,
    disk: Disk,
    n: nat,
)
    requires
        disk.contains_key(from),
    ensures
        ({
            let state = move_run(from_shown, to_shown, from, to, world, disk, n);
            let after = state.disk;
            &&& !(state.step is Done) ==> after.contains_key(from) && after[from] == disk[from]
            &&& state.step is RemoveSource ==> after.contains_key(to) && after[to] == disk[from]
            &&& (state.step is Copy || state.step is RemoveSource) ==> from != to
            &&& (after.contains_key(from) && after[from] == disk[from]) || (after.contains_key(to)
                && after[to] == disk[from])
            &&& forall|other: Seq<PartView>|
                other != from && other != to ==> #[trigger] content_at(after, other) == content_at(
                    disk,
                    other,
                )
        }),
    decreases n,
{
    if n > 0 {
        lemma_move_invariant(from_shown, to_shown, from, to, world, disk, (n - 1) as nat);
        let before = move_run(from_shown, to_shown, from, to, world, disk, (n - 1) as nat);
        let after = move_run(from_shown, to_shown, from, to, world, disk, n).disk;
        assert forall|other: Seq<PartView>| other != from && other != to implies
            #[trigger] content_at(after, other) == content_at(disk, other) by {
            assert(content_at(before.disk, other) == content_at(disk, other));
        }
    }
}

/// The source is removed only after it was copied.
pub proof fn law_source_is_removed_only_after_a_copy(
    from_shown: Seq<char>,
    to_shown: Seq<char>,
    from: Seq<PartView>,
    to: Seq<PartView>,
    step: MoveView,
    reply: Result<(), Seq<char>>,
)
    requires
        move_after(from_shown, to_shown, from, to, step, reply) is RemoveSource,
    ensures
        step is Copy && reply is Ok,
{
}

/// Nothing is done to the destination where the source is not there.
pub proof fn law_missing_source_ends_the_move(
    from_shown: Seq<char>,
    to_shown: Seq<char>,
    from: Seq<PartView>,
    to: Seq<PartView>,
    cause: Seq<char>,
)
    ensures
        move_after(from_shown, to_shown, from, to, MoveView::CheckSource, Err(cause)) == (
        MoveView::Done { result: Err("Source file does not exist: "@ + from_shown) }),
{
}

/// A search begins with the path that was asked for. As long as something is at
/// its candidate it goes on to the next number, and it settles on the first
/// candidate where nothing is.
pub proof fn law_search_goes_on_by_one(
    path: FilePath,
    search: UniqueDest,
    start: UniqueDest,
    after_taken: UniqueDest,
    after_free: UniqueDest,
)
    requires
        search.number < u32::MAX,
        call_ensures(unique_dest, (&path,), start),
        call_ensures(UniqueDest::answer, (search, true), after_taken),
        call_ensures(UniqueDest::answer, (search, false), after_free),
    ensures
        start.path@ == path@ && start.number == 0 && !start.settled,
        after_taken.path@ == search.path@ && after_free.path@ == search.path@,
        search.settled ==> after_taken@ == search@ && after_free@ == search@,
        !search.settled ==> after_taken.number == search.number + 1 && !after_taken.settled,
        !search.settled ==> after_free.number == search.number && after_free.settled,
{
    assert(start@.path == path@ && start@.number == 0);
    assert(after_taken@.path == search.path@ && after_free@.path == search.path@);
}

/// All candidates for a path lie in the folder of that path; the first is the
/// path itself.
pub proof fn law_candidates_lie_in_the_same_folder(search: UniqueDest, r: FilePath)
    requires
        call_ensures(UniqueDest::candidate, (&search,), r),
    ensures
        search.number == 0 ==> r@ == search.path@,
        parent(search.path@) matches Some(folder) ==> parent(r@) == Some(folder) && r@.len()
            == search.path@.len(),
        search.number > 0 && parent(search.path@) is None ==> r@.len() == 2 && r@[0] is CurDir,
        search.number > 0 ==> r@.last() is Normal,
        r@ == candidate(search.path@, search.number as nat),
{
    if search.number > 0 {
        let name = PartView::Normal(candidate_name(search.path@, search.number as nat));
        assert(r@ == candidate_folder(search.path@).push(name));
        assert(r@.drop_last() =~= candidate_folder(search.path@));
    }
}

/// A numbered candidate has the number in round brackets between the stem and
/// the extension of the name that was asked for.
pub proof fn law_number_stands_before_the_extension(
    search: UniqueDest,
    stem: Seq<char>,
    extension: Seq<char>,
    digits: String,
    r: FilePath,
    name: Option<String>,
)
    requires
        search.number > 0,
        search.path@.len() > 0,
        search.path@.last() == PartView::Normal(stem.push('.') + extension),
        stem.len() > 0,
        !extension.contains('.'),
        call_ensures(decimal_text, (search.number,), digits),
        call_ensures(UniqueDest::candidate, (&search,), r),
        call_ensures(UniqueDest::name, (&search,), name),
    ensures
        r@.last() == PartView::Normal(stem + seq!['('] + digits@ + seq![')', '.'] + extension),
        name matches Some(t) && r@.last() == PartView::Normal(t@),
{
    lemma_name_of_the_path(search.path, stem, extension);
    reveal_strlit("(");
    reveal_strlit(").");
    assert("("@ =~= seq!['(']);
    assert(")."@ =~= seq![')', '.']);
}

/// The stem and the extension of a path that ends in a name with both.
proof fn lemma_name_of_the_path(path: FilePath, stem: Seq<char>, extension: Seq<char>)
    requires
        path@.len() > 0,
        path@.last() == PartView::Normal(stem.push('.') + extension),
        stem.len() > 0,
        !extension.contains('.'),
    ensures
        extension_text(path@) == Some(extension),
        stem_text(path@) == Some(stem),
{
    let whole = stem.push('.') + extension;
    lemma_dot_between(stem, extension, '.');
    assert(whole.skip(stem.len() as int + 1) =~= extension);
    assert(whole.take(stem.len() as int) =~= stem);
}

/// A numbered candidate for a name without an extension has the number in round
/// brackets after it.
pub proof fn law_number_stands_at_the_end(
    search: UniqueDest,
    asked: Seq<char>,
    digits: String,
    r: FilePath,
)
    requires
        search.number > 0,
        search.path@.len() > 0,
        search.path@.last() == PartView::Normal(asked),
        forall|i: int| 1 <= i < asked.len() ==> asked[i] != '.',
        call_ensures(decimal_text, (search.number,), digits),
        call_ensures(UniqueDest::candidate, (&search,), r),
    ensures
        r@.last() == PartView::Normal(asked + seq!['('] + digits@ + seq![')']),
{
    lemma_no_dot(asked, '.');
    reveal_strlit("(");
    reveal_strlit(")");
    assert("("@ =~= seq!['(']);
    assert(")"@ =~= seq![')']);
}

/// A path without a readable stem is numbered as `file`, with its extension if
/// that can be read.
pub proof fn law_unreadable_name_is_numbered_as_file(
    search: UniqueDest,
    stem: Option<String>,
    extension: Option<String>,
    digits: String,
    r: FilePath,
)
    requires
        search.number > 0,
        call_ensures(FilePath::file_stem, (&search.path,), stem),
        stem is None,
        call_ensures(FilePath::extension, (&search.path,), extension),
        call_ensures(decimal_text, (search.number,), digits),
        call_ensures(UniqueDest::candidate, (&search,), r),
    ensures
        r@.last() == PartView::Normal(
            match extension {
                Some(e) => "file("@ + digits@ + ")."@ + e@,
                None => "file("@ + digits@ + ")"@,
            },
        ),
{
    reveal_strlit("file");
    reveal_strlit("(");
    reveal_strlit("file(");
    assert("file"@ + "("@ =~= "file("@);
}

/// Why a move fails: the source is not there, something else is at the
/// destination, or the first request that the operating system refuses without
/// another way round it.
pub proof fn law_failed_move_tells_why(
    from_shown: Seq<char>,
    to_shown: Seq<char>,
    from: Seq<PartView>,
    to: Seq<PartView>,
    world: MoveWorld,
    disk: Disk,
)
    ensures
        ({
            let end = move_run(from_shown, to_shown, from, to, world, disk, 6);
            end.step matches MoveView::Done { result } && match result {
                Ok(_) => disk.contains_key(from) && vacant(from, to, disk) && movable(
                    from,
                    to,
                    world,
                ),
                Err(e) => if !disk.contains_key(from) {
                    e == "Source file does not exist: "@ + from_shown
                } else if from != to && disk.contains_key(to) {
                    e == "Destination already exists: "@ + to_shown
                } else if parent(to) is Some && world.create_dir is Err {
                    e == "Failed to create destination dir: "@ + world.create_dir->Err_0
                } else if from == to {
                    e == "Destination already exists: "@ + to_shown
                } else if world.copy is Err {
                    e == "Failed to copy file: "@ + world.copy->Err_0
                } else {
                    &&& world.remove is Err
                    &&& e == "Failed to remove source after copy: "@ + world.remove->Err_0
                },
            }
        }),
{
    reveal_with_fuel(move_run, 7);
}

/// Each step of a move is the one that the laws of moves speak of, and a path is
/// moved by its components and shown as its text.
pub proof fn law_move_takes_its_steps(
    from_shown: &str,
    to_shown: &str,
    from: FilePath,
    to: FilePath,
    from_path: PathBuf,
    to_path: PathBuf,
    step: MoveStep,
    reply: Result<(), String>,
    r: MoveStep,
    of_paths: MoveStep,
)
    requires
        call_ensures(move_step, (from_shown, to_shown, &from, &to, step, reply), r),
        call_ensures(move_file, (&from_path, &to_path, step, reply), of_paths),
    ensures
        r@ == move_after(from_shown@, to_shown@, from@, to@, step@, reply_view(reply)),
        of_paths@ == move_after(
            path_buf_text(from_path),
            path_buf_text(to_path),
            path_buf_parts(from_path),
            path_buf_parts(to_path),
            step@,
            reply_view(reply),
        ),
        reply matches Err(e) ==> reply_view(reply) == Err::<(), Seq<char>>(e@),
        reply is Ok ==> reply_view(reply) is Ok,
{
}

/// A move that is done stays done, whatever is said afterwards.
pub proof fn law_done_move_stays_done(
    from_shown: &str,
    to_shown: &str,
    from: FilePath,
    to: FilePath,
    source: PathBuf,
    target: PathBuf,
    step: MoveStep,
    reply: Result<(), String>,
    r: MoveStep,
    by_path: MoveStep,
)
    requires
        step is Done,
        call_ensures(move_step, (from_shown, to_shown, &from, &to, step, reply), r),
        call_ensures(move_file, (&source, &target, step, reply), by_path),
    ensures
        r@ == step@,
        by_path@ == step@,
{
}

} // verus!
