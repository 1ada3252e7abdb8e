//! The files that wait for the user's word, and what is learned from it.
use vstd::prelude::*;
use crate::confidence::Confidence;
use crate::db::StagingItem;
use crate::path::{
    extension_text, file_name_text, parent, portable, reads_as, slash_components, FilePath,
    PartView,
};
use crate::text::{because, reply_view};
use crate::transfer::{candidate, settled_for, UniqueDest};

verus! {

/// The status of a file whose move the user approved.
pub const APPROVED: &'static str = "approved";

/// The status of a file whose move the user rejected, and the record of that.
pub const REJECTED: &'static str = "rejected";

/// The value of a file that waits.
#[verifier::ext_equal]
pub struct ItemView {
    pub id: Seq<char>,
    pub file_path: Seq<char>,
    pub proposed_dest: Seq<char>,
    pub confidence: Confidence,
    pub status: Seq<char>,
    pub timestamp: Seq<char>,
}

impl View for StagingItem {
    type V = ItemView;

    open spec fn view(&self) -> ItemView {
        ItemView {
            id: self.id@,
            file_path: self.file_path@,
            proposed_dest: self.proposed_dest@,
            confidence: self.confidence,
            status: self.status@,
            timestamp: self.timestamp@,
        }
    }
}

/// The category that a destination stands for: the name of its folder.
pub open spec fn folder_category(dest: Seq<PartView>) -> Seq<char> {
    match parent(dest) {
        Some(folder) => match file_name_text(folder) {
            Some(name) => name,
            None => "Other"@,
        },
        None => "Other"@,
    }
}

/// The rule that a move teaches: files with the extension of `from` are of the
/// category that `dest` stands for.
pub open spec fn learned_rule(from: Seq<PartView>, dest: Seq<PartView>) -> Option<
    (Seq<char>, Seq<char>),
> {
    match extension_text(from) {
        Some(e) => Some(("*."@ + e, folder_category(dest))),
        None => None,
    }
}

/// The category that a destination stands for.
pub fn category_of_folder(dest: &FilePath) -> (r: String)
    ensures
        r@ == folder_category(dest@),
{
    match dest.parent() {
        Some(folder) => match folder.file_name() {
            Some(name) => name,
            None => "Other".to_owned(),
        },
        None => "Other".to_owned(),
    }
}

/// The pattern and the category of the rule that a move teaches.
pub fn rule_of_move(from: &FilePath, dest: &FilePath) -> (r: Option<(String, String)>)
    ensures
        r is Some <==> learned_rule(from@, dest@) is Some,
        r matches Some(p) ==> learned_rule(from@, dest@) == Some((p.0@, p.1@)),
{
    match from.extension() {
        Some(e) => Some((because("*.", e.as_str()), category_of_folder(dest))),
        None => None,
    }
}

// Approving

/// What is to be done next to approve the move of a file.
pub enum ApproveStep {
    /// Ask the database for the file.
    GetItem,
    /// Find a free name for its proposed destination.
    FindDest { item: StagingItem },
    /// Move it to this path, the free name that was found.
    Move { item: StagingItem, dest: FilePath },
    /// Set its status to approved.
    MarkApproved { item: StagingItem },
    /// Record a rule.
    AddRule { pattern: String, category: String },
    /// Nothing: this is the result.
    Done { result: Result<(), String> },
}

/// What came of a step.
pub enum ApproveEvent {
    Item { item: Result<StagingItem, String> },
    /// The search that settled on a free name.
    DestFound { search: UniqueDest },
    Moved { result: Result<(), String> },
    Marked { result: Result<(), String> },
    /// Whether the rule was recorded makes no difference.
    RuleAdded,
}

/// The value of a step.
#[verifier::ext_equal]
pub enum ApproveView {
    GetItem,
    FindDest { item: ItemView },
    Move { item: ItemView, dest: Seq<PartView> },
    MarkApproved { item: ItemView },
    AddRule { pattern: Seq<char>, category: Seq<char> },
    Done { result: Result<(), Seq<char>> },
}

impl View for ApproveStep {
    type V = ApproveView;

    open spec fn view(&self) -> ApproveView {
        match self {
            ApproveStep::GetItem => ApproveView::GetItem,
            ApproveStep::FindDest { item } => ApproveView::FindDest { item: item@ },
            ApproveStep::Move { item, dest } => ApproveView::Move { item: item@, dest: dest@ },
            ApproveStep::MarkApproved { item } => ApproveView::MarkApproved { item: item@ },
            ApproveStep::AddRule { pattern, category } => ApproveView::AddRule {
                pattern: pattern@,
                category: category@,
            },
            ApproveStep::Done { result } => ApproveView::Done { result: reply_view(*result) },
        }
    }
}

/// Recording what a move teaches: done where it teaches nothing.
pub open spec fn approve_learning(from: Seq<PartView>, dest: Seq<PartView>) -> ApproveView {
    match learned_rule(from, dest) {
        Some((pattern, category)) => ApproveView::AddRule { pattern, category },
        None => ApproveView::Done { result: Ok(()) },
    }
}

/// The step that follows `step` after `event`, where `from` and `dest` are the
/// paths of the file and of its proposed destination. The file goes to the
/// free name that was found for its proposed destination. An event that does
/// not belong to the step, or a search for another path, changes nothing.
pub open spec fn approve_after(
    from: Seq<PartView>,
    dest: Seq<PartView>,
    step: ApproveView,
    event: ApproveEvent,
) -> ApproveView {
    match (step, event) {
        (ApproveView::GetItem, ApproveEvent::Item { item: Ok(item) }) => ApproveView::FindDest {
            item: item@,
        },
        (ApproveView::GetItem, ApproveEvent::Item { item: Err(e) }) => ApproveView::Done {
            result: Err(e@),
        },
        (ApproveView::FindDest { item }, ApproveEvent::DestFound { search }) => if settled_for(
            search@,
            dest,
        ) {
            ApproveView::Move { item, dest: candidate(dest, search@.number) }
        } else {
            step
        },
        (ApproveView::Move { item, .. }, ApproveEvent::Moved { result: Ok(_) }) =>
        ApproveView::MarkApproved { item },
        (ApproveView::Move { .. }, ApproveEvent::Moved { result: Err(e) }) => ApproveView::Done {
            result: Err(e@),
        },
        (ApproveView::MarkApproved { .. }, ApproveEvent::Marked { result: Ok(_) }) =>
        approve_learning(from, dest),
        (ApproveView::MarkApproved { .. }, ApproveEvent::Marked { result: Err(e) }) =>
        ApproveView::Done { result: Err(e@) },
        (ApproveView::AddRule { .. }, ApproveEvent::RuleAdded) => ApproveView::Done {
            result: Ok(()),
        },
        _ => step,
    }
}

/// The item that a step is about.
pub open spec fn approve_item(step: ApproveView) -> Option<ItemView> {
    match step {
        ApproveView::FindDest { item } => Some(item),
        ApproveView::Move { item, .. } => Some(item),
        ApproveView::MarkApproved { item } => Some(item),
        _ => None,
    }
}

/// The step that follows `step` after `event`, where `from` and `dest` are the
/// paths of the file and of its proposed destination.
pub fn approve_step(
    from: &FilePath,
    dest: &FilePath,
    step: ApproveStep,
    event: ApproveEvent,
) -> (r: ApproveStep)
    ensures
        r@ == approve_after(from@, dest@, step@, event),
{
    match (step, event) {
        (ApproveStep::GetItem, ApproveEvent::Item { item: Ok(item) }) => ApproveStep::FindDest {
            item,
        },
        (ApproveStep::GetItem, ApproveEvent::Item { item: Err(e) }) => ApproveStep::Done {
            result: Err(e),
        },
        (ApproveStep::FindDest { item }, ApproveEvent::DestFound { search }) => {
            if search.settled && search.path.same(dest) {
                ApproveStep::Move { item, dest: search.candidate() }
            } else {
                ApproveStep::FindDest { item }
            }
        },
        (ApproveStep::Move { item, dest: _ }, ApproveEvent::Moved { result: Ok(_) }) =>
        ApproveStep::MarkApproved { item },
        (ApproveStep::Move { item: _, dest: _ }, ApproveEvent::Moved { result: Err(e) }) =>
        ApproveStep::Done { result: Err(e) },
        (ApproveStep::MarkApproved { item: _ }, ApproveEvent::Marked { result: Ok(_) }) => {
            match rule_of_move(from, dest) {
                Some((pattern, category)) => ApproveStep::AddRule { pattern, category },
                None => ApproveStep::Done { result: Ok(()) },
            }
        },
        (ApproveStep::MarkApproved { item: _ }, ApproveEvent::Marked { result: Err(e) }) =>
        ApproveStep::Done { result: Err(e) },
        (ApproveStep::AddRule { pattern: _, category: _ }, ApproveEvent::RuleAdded) =>
        ApproveStep::Done { result: Ok(()) },
        (other, _) => other,
    }
}

/// Moves a file that waits to where it was proposed to go, and learns from it,
/// from `GetItem` on: the step that follows `step` after `event`.
pub fn approve_staging_item(step: ApproveStep, event: ApproveEvent) -> (r: ApproveStep)
    ensures
        exists|from: Seq<PartView>, dest: Seq<PartView>|
            r@ == #[trigger] approve_after(from, dest, step@, event) && (approve_item(
                step@,
            ) matches Some(item) ==> reads_as(item.file_path, from) && reads_as(
                item.proposed_dest,
                dest,
            )),
        approve_item(step@) matches Some(item) ==> portable(item.file_path) && portable(
            item.proposed_dest,
        ) ==> r@ == approve_after(
            slash_components(item.file_path),
            slash_components(item.proposed_dest),
            step@,
            event,
        ),
        approve_item(step@) is None ==> forall|from: Seq<PartView>, dest: Seq<PartView>|
            r@ == #[trigger] approve_after(from, dest, step@, event),
{
    let (from, dest): (FilePath, FilePath) = match &step {
        ApproveStep::FindDest { item } => (
            FilePath::from_text(item.file_path.as_str()),
            FilePath::from_text(item.proposed_dest.as_str()),
        ),
        ApproveStep::Move { item, dest: _ } => (
            FilePath::from_text(item.file_path.as_str()),
            FilePath::from_text(item.proposed_dest.as_str()),
        ),
        ApproveStep::MarkApproved { item } => (
            FilePath::from_text(item.file_path.as_str()),
            FilePath::from_text(item.proposed_dest.as_str()),
        ),
        _ => (FilePath { parts: Vec::new() }, FilePath { parts: Vec::new() }),
    };
    approve_step(&from, &dest, step, event)
}

// Rejecting

/// What is to be done next to reject the move of a file.
pub enum RejectStep {
    /// Ask the database for the file.
    GetItem,
    /// Set its status to rejected.
    MarkRejected { item: StagingItem },
    /// Record the rejection, under this category.
    LogRejection { item: StagingItem, category: String },
    /// Record a rule.
    AddRule { pattern: String, category: String },
    /// Nothing: this is the result.
    Done { result: Result<(), String> },
}

/// What came of a step.
pub enum RejectEvent {
    Item { item: Result<StagingItem, String> },
    Marked { result: Result<(), String> },
    /// Whether the rejection was recorded makes no difference.
    Logged,
    /// Whether the rule was recorded makes no difference.
    RuleAdded,
}

/// The value of a step.
#[verifier::ext_equal]
pub enum RejectView {
    GetItem,
    MarkRejected { item: ItemView },
    LogRejection { item: ItemView, category: Seq<char> },
    AddRule { pattern: Seq<char>, category: Seq<char> },
    Done { result: Result<(), Seq<char>> },
}

impl View for RejectStep {
    type V = RejectView;

    open spec fn view(&self) -> RejectView {
        match self {
            RejectStep::GetItem => RejectView::GetItem,
            RejectStep::MarkRejected { item } => RejectView::MarkRejected { item: item@ },
            RejectStep::LogRejection { item, category } => RejectView::LogRejection {
                item: item@,
                category: category@,
            },
            RejectStep::AddRule { pattern, category } => RejectView::AddRule {
                pattern: pattern@,
                category: category@,
            },
            RejectStep::Done { result } => RejectView::Done { result: reply_view(*result) },
        }
    }
}

/// Recording what a correction teaches: done where there is none, or it
/// teaches nothing.
pub open spec fn reject_learning(
    from: Seq<PartView>,
    new_dest: Option<Seq<PartView>>,
) -> RejectView {
    match new_dest {
        Some(dest) => match learned_rule(from, dest) {
            Some((pattern, category)) => RejectView::AddRule { pattern, category },
            None => RejectView::Done { result: Ok(()) },
        },
        None => RejectView::Done { result: Ok(()) },
    }
}

/// The step that follows `step` after `event`, where `from` and `dest` are the
/// paths of the file and of its proposed destination, and `new_dest` is the
/// one that the user wants in its place, if any. An event that does not belong
/// to the step changes nothing.
pub open spec fn reject_after(
    from: Seq<PartView>,
    dest: Seq<PartView>,
    new_dest: Option<Seq<PartView>>,
    step: RejectView,
    event: RejectEvent,
) -> RejectView {
    match (step, event) {
        (RejectView::GetItem, RejectEvent::Item { item: Ok(item) }) => RejectView::MarkRejected {
            item: item@,
        },
        (RejectView::GetItem, RejectEvent::Item { item: Err(e) }) => RejectView::Done {
            result: Err(e@),
        },
        (RejectView::MarkRejected { item }, RejectEvent::Marked { result: Ok(_) }) =>
        RejectView::LogRejection { item, category: folder_category(dest) },
        (RejectView::MarkRejected { .. }, RejectEvent::Marked { result: Err(e) }) =>
        RejectView::Done { result: Err(e@) },
        (RejectView::LogRejection { .. }, RejectEvent::Logged) => reject_learning(from, new_dest),
        (RejectView::AddRule { .. }, RejectEvent::RuleAdded) => RejectView::Done {
            result: Ok(()),
        },
        _ => step,
    }
}

/// The item that a step is about.
pub open spec fn reject_item(step: RejectView) -> Option<ItemView> {
    match step {
        RejectView::MarkRejected { item } => Some(item),
        RejectView::LogRejection { item, .. } => Some(item),
        _ => None,
    }
}

/// The value of an optional text.
pub open spec fn optional_text(t: Option<String>) -> Option<Seq<char>> {
    match t {
        Some(s) => Some(s@),
        None => None,
    }
}

/// The value of an optional path.
pub open spec fn optional_dest(path: Option<FilePath>) -> Option<Seq<PartView>> {
    match path {
        Some(p) => Some(p@),
        None => None,
    }
}

/// Whether `path` is what an optional text reads as.
pub open spec fn optionally_reads_as(text: Option<Seq<char>>, path: Option<Seq<PartView>>) -> bool {
    match (text, path) {
        (Some(t), Some(p)) => reads_as(t, p),
        (None, None) => true,
        _ => false,
    }
}

/// What an optional portable text reads as.
pub open spec fn optional_components(text: Option<Seq<char>>) -> Option<Seq<PartView>> {
    match text {
        Some(t) => Some(slash_components(t)),
        None => None,
    }
}

/// The step that follows `step` after `event`, where `from` and `dest` are the
/// paths of the file and of its proposed destination, and `new_dest` is the
/// one that the user wants in its place, if any.
pub fn reject_step(
    from: &FilePath,
    dest: &FilePath,
    new_dest: &Option<FilePath>,
    step: RejectStep,
    event: RejectEvent,
) -> (r: RejectStep)
    ensures
        r@ == reject_after(from@, dest@, optional_dest(*new_dest), step@, event),
{
    match (step, event) {
        (RejectStep::GetItem, RejectEvent::Item { item: Ok(item) }) => RejectStep::MarkRejected {
            item,
        },
        (RejectStep::GetItem, RejectEvent::Item { item: Err(e) }) => RejectStep::Done {
            result: Err(e),
        },
        (RejectStep::MarkRejected { item }, RejectEvent::Marked { result: Ok(_) }) =>
        RejectStep::LogRejection { item, category: category_of_folder(dest) },
        (RejectStep::MarkRejected { item: _ }, RejectEvent::Marked { result: Err(e) }) =>
        RejectStep::Done { result: Err(e) },
        (RejectStep::LogRejection { item: _, category: _ }, RejectEvent::Logged) => {
            match new_dest {
                Some(corrected) => match rule_of_move(from, corrected) {
                    Some((pattern, category)) => RejectStep::AddRule { pattern, category },
                    None => RejectStep::Done { result: Ok(()) },
                },
                None => RejectStep::Done { result: Ok(()) },
            }
        },
        (RejectStep::AddRule { pattern: _, category: _ }, RejectEvent::RuleAdded) =>
        RejectStep::Done { result: Ok(()) },
        (other, _) => other,
    }
}

/// Leaves a file that waits where it is, and learns from the destination that
/// the user wants for it, if any, from `GetItem` on: the step that follows
/// `step` after `event`.
pub fn reject_staging_item(new_dest: &Option<String>, step: RejectStep, event: RejectEvent) -> (r:
    RejectStep)
    ensures
        exists|from: Seq<PartView>, dest: Seq<PartView>, corrected: Option<Seq<PartView>>|
            r@ == #[trigger] reject_after(from, dest, corrected, step@, event)
                && optionally_reads_as(optional_text(*new_dest), corrected) && (reject_item(
                step@,
            ) matches Some(item) ==> reads_as(item.file_path, from) && reads_as(
                item.proposed_dest,
                dest,
            )),
        (reject_item(step@) matches Some(item) ==> portable(item.file_path) && portable(
            item.proposed_dest,
        )) && (optional_text(*new_dest) matches Some(t) ==> portable(t)) ==> r@ == reject_after(
            match reject_item(step@) {
                Some(item) => slash_components(item.file_path),
                None => Seq::empty(),
            },
            match reject_item(step@) {
                Some(item) => slash_components(item.proposed_dest),
                None => Seq::empty(),
            },
            optional_components(optional_text(*new_dest)),
            step@,
            event,
        ),
{
    let corrected: Option<FilePath> = match new_dest {
        Some(t) => Some(FilePath::from_text(t.as_str())),
        None => None,
    };
    let (from, dest): (FilePath, FilePath) = match &step {
        RejectStep::MarkRejected { item } => (
            FilePath::from_text(item.file_path.as_str()),
            FilePath::from_text(item.proposed_dest.as_str()),
        ),
        RejectStep::LogRejection { item, category: _ } => (
            FilePath::from_text(item.file_path.as_str()),
            FilePath::from_text(item.proposed_dest.as_str()),
        ),
        _ => (FilePath { parts: Vec::new() }, FilePath { parts: Vec::new() }),
    };
    proof {
        assert(optionally_reads_as(optional_text(*new_dest), optional_dest(corrected)));
        if reject_item(step@) is None {
            assert(from@ =~= Seq::<PartView>::empty());
            assert(dest@ =~= Seq::<PartView>::empty());
        }
    }
    reject_step(&from, &dest, &corrected, step, event)
}

// Laws

/// An approved file is moved to the free name that was found for its proposed
/// destination, and nowhere else.
pub proof fn law_approved_file_goes_to_the_free_name(
    from: Seq<PartView>,
    dest: Seq<PartView>,
    step: ApproveView,
    event: ApproveEvent,
)
    requires
        approve_after(from, dest, step, event) is Move,
        !(step is Move),
    ensures
        event matches ApproveEvent::DestFound { search } && settled_for(search@, dest) && (
        step matches ApproveView::FindDest { item } && approve_after(from, dest, step, event) == (
        ApproveView::Move { item, dest: candidate(dest, search@.number) })),
{
}

/// A file is marked as approved only after it was moved, and the record of the
/// same file stays in hand until then.
pub proof fn law_approved_only_after_the_move(
    from: Seq<PartView>,
    dest: Seq<PartView>,
    step: ApproveView,
    event: ApproveEvent,
)
    requires
        approve_after(from, dest, step, event) is MarkApproved,
        !(step is MarkApproved),
    ensures
        step matches ApproveView::Move { item, .. } && approve_after(from, dest, step, event) == (
        ApproveView::MarkApproved { item }),
        event matches ApproveEvent::Moved { result } && result is Ok,
{
}

/// What an approved move teaches is learned only after the file was marked.
pub proof fn law_learned_only_from_an_approved_move(
    from: Seq<PartView>,
    dest: Seq<PartView>,
    step: ApproveView,
    event: ApproveEvent,
)
    requires
        approve_after(from, dest, step, event) is AddRule,
        !(step is AddRule),
    ensures
        step is MarkApproved,
        event matches ApproveEvent::Marked { result } && result is Ok,
        learned_rule(from, dest) is Some,
        approve_after(from, dest, step, event) == approve_learning(from, dest),
{
}

/// A rule is for the files with the extension of the one that was moved, and
/// names the folder that it was moved to.
pub proof fn law_rule_names_extension_and_folder(
    folder: Seq<PartView>,
    name: Seq<char>,
    file: PartView,
    from: Seq<PartView>,
    extension: Seq<char>,
)
    requires
        extension_text(from) == Some(extension),
        file is Normal || file is Foreign,
    ensures
        learned_rule(from, folder.push(PartView::Normal(name)).push(file)) == Some(
            ("*."@ + extension, name),
        ),
{
    let dest = folder.push(PartView::Normal(name)).push(file);
    assert(dest.drop_last() =~= folder.push(PartView::Normal(name)));
}

/// Once a file is marked as rejected, the rejection succeeds, whatever comes
/// of recording it.
pub proof fn law_rejection_succeeds_once_marked(
    from: Seq<PartView>,
    dest: Seq<PartView>,
    new_dest: Option<Seq<PartView>>,
    step: RejectView,
    event: RejectEvent,
)
    requires
        step is LogRejection || step is AddRule,
    ensures
        ({
            let next = reject_after(from, dest, new_dest, step, event);
            next is LogRejection || next is AddRule || next == (RejectView::Done { result: Ok(()) })
        }),
{
}

/// A rejection teaches nothing unless the user names another destination.
pub proof fn law_rejection_alone_teaches_nothing(
    from: Seq<PartView>,
    dest: Seq<PartView>,
    step: RejectView,
    event: RejectEvent,
)
    requires
        !(step is AddRule),
    ensures
        !(reject_after(from, dest, None, step, event) is AddRule),
{
}

/// What the database and the operating system say in the course of one
/// approval.
pub struct ApproveWorld {
    pub item: Result<StagingItem, String>,
    pub search: UniqueDest,
    pub moved: Result<(), String>,
    pub marked: Result<(), String>,
}

/// What comes of a step.
pub open spec fn approve_world_event(world: ApproveWorld, step: ApproveView) -> ApproveEvent {
    match step {
        ApproveView::GetItem => ApproveEvent::Item { item: world.item },
        ApproveView::FindDest { .. } => ApproveEvent::DestFound { search: world.search },
        ApproveView::Move { .. } => ApproveEvent::Moved { result: world.moved },
        ApproveView::MarkApproved { .. } => ApproveEvent::Marked { result: world.marked },
        _ => ApproveEvent::RuleAdded,
    }
}

/// The step reached after `n` events.
pub open spec fn approve_run(
    from: Seq<PartView>,
    dest: Seq<PartView>,
    world: ApproveWorld,
    n: nat,
) -> ApproveView
    decreases n,
{
    if n == 0 {
        ApproveView::GetItem
    } else {
        let before = approve_run(from, dest, world, (n - 1) as nat);
        approve_after(from, dest, before, approve_world_event(world, before))
    }
}

/// An approval is over after five events. It succeeds exactly where the file
/// is in the queue, can be moved and can be marked; else the result is the
/// first error. What is learned makes no difference.
pub proof fn law_approve_outcome(from: Seq<PartView>, dest: Seq<PartView>, world: ApproveWorld)
    requires
        settled_for(world.search@, dest),
    ensures
        approve_run(from, dest, world, 5) == (ApproveView::Done {
            result: match world.item {
                Err(e) => Err(e@),
                Ok(_) => match world.moved {
                    Err(e) => Err(e@),
                    Ok(_) => reply_view(world.marked),
                },
            },
        }),
{
    reveal_with_fuel(approve_run, 6);
}

/// What the database says in the course of one rejection.
pub struct RejectWorld {
    pub item: Result<StagingItem, String>,
    pub marked: Result<(), String>,
}

/// What comes of a step.
pub open spec fn reject_world_event(world: RejectWorld, step: RejectView) -> RejectEvent {
    match step {
        RejectView::GetItem => RejectEvent::Item { item: world.item },
        RejectView::MarkRejected { .. } => RejectEvent::Marked { result: world.marked },
        RejectView::LogRejection { .. } => RejectEvent::Logged,
        _ => RejectEvent::RuleAdded,
    }
}

/// The step reached after `n` events.
pub open spec fn reject_run(
    from: Seq<PartView>,
    dest: Seq<PartView>,
    new_dest: Option<Seq<PartView>>,
    world: RejectWorld,
    n: nat,
) -> RejectView
    decreases n,
{
    if n == 0 {
        RejectView::GetItem
    } else {
        let before = reject_run(from, dest, new_dest, world, (n - 1) as nat);
        reject_after(from, dest, new_dest, before, reject_world_event(world, before))
    }
}

/// A rejection is over after four events. It succeeds exactly where the file
/// is in the queue and can be marked; else the result is the first error. What
/// is recorded and learned makes no difference.
pub proof fn law_reject_outcome(
    from: Seq<PartView>,
    dest: Seq<PartView>,
    new_dest: Option<Seq<PartView>>,
    world: RejectWorld,
)
    ensures
        reject_run(from, dest, new_dest, world, 4) == (RejectView::Done {
            result: match world.item {
                Err(e) => Err(e@),
                Ok(_) => reply_view(world.marked),
            },
        }),
{
    reveal_with_fuel(reject_run, 5);
}

/// The category of a destination is the name of the folder that it lies
/// directly in, and `Other` where there is no such folder or its name cannot be
/// read.
pub proof fn law_category_is_the_name_of_the_folder(dest: FilePath, r: String)
    requires
        call_ensures(category_of_folder, (&dest,), r),
    ensures
        dest@.len() >= 2 && !(dest@.last() is RootDir || dest@.last() is Prefix
            || dest@.last() is ForeignPrefix) ==> match dest@[dest@.len() - 2] {
            PartView::Normal(name) => r@ == name,
            _ => r@ == "Other"@,
        },
        dest@.len() < 2 || dest@.last() is RootDir || dest@.last() is Prefix
            || dest@.last() is ForeignPrefix ==> r@ == "Other"@,
        r@ == folder_category(dest@),
{
}

/// A move teaches that files with the extension of the moved one belong to the
/// category of the destination; and nothing where there is no extension.
pub proof fn law_move_teaches_the_extension(
    from: FilePath,
    dest: FilePath,
    extension: Option<String>,
    category: String,
    r: Option<(String, String)>,
)
    requires
        call_ensures(FilePath::extension, (&from,), extension),
        call_ensures(category_of_folder, (&dest,), category),
        call_ensures(rule_of_move, (&from, &dest), r),
    ensures
        match extension {
            Some(e) => r matches Some(rule) && rule.0@ == "*."@ + e@ && rule.1@ == category@,
            None => r is None,
        },
        r matches Some(rule) ==> learned_rule(from@, dest@) == Some((rule.0@, rule.1@)),
        r is None ==> learned_rule(from@, dest@) is None,
{
}

/// Approving, in words of its calls: the file in the queue is taken as it is,
/// moved to the free name that was found for its proposed destination, marked,
/// and what the move teaches is learned; every error before that ends it as it
/// is.
pub proof fn law_approval_takes_its_steps(
    from: FilePath,
    dest: FilePath,
    item: StagingItem,
    search: UniqueDest,
    free: FilePath,
    to: FilePath,
    error: String,
    rule: Option<(String, String)>,
    pattern: String,
    category: String,
    got: ApproveStep,
    missing: ApproveStep,
    found: ApproveStep,
    moved: ApproveStep,
    stuck: ApproveStep,
    marked: ApproveStep,
    unmarked: ApproveStep,
    learned: ApproveStep,
)
    requires
        search.settled,
        search.path@ == dest@,
        call_ensures(UniqueDest::candidate, (&search,), free),
        call_ensures(rule_of_move, (&from, &dest), rule),
        call_ensures(
            approve_step,
            (&from, &dest, ApproveStep::GetItem, ApproveEvent::Item { item: Ok(item) }),
            got,
        ),
        call_ensures(
            approve_step,
            (&from, &dest, ApproveStep::GetItem, ApproveEvent::Item { item: Err(error) }),
            missing,
        ),
        call_ensures(
            approve_step,
            (&from, &dest, ApproveStep::FindDest { item }, ApproveEvent::DestFound { search }),
            found,
        ),
        call_ensures(
            approve_step,
            (
                &from,
                &dest,
                ApproveStep::Move { item, dest: to },
                ApproveEvent::Moved { result: Ok(()) },
            ),
            moved,
        ),
        call_ensures(
            approve_step,
            (
                &from,
                &dest,
                ApproveStep::Move { item, dest: to },
                ApproveEvent::Moved { result: Err(error) },
            ),
            stuck,
        ),
        call_ensures(
            approve_step,
            (
                &from,
                &dest,
                ApproveStep::MarkApproved { item },
                ApproveEvent::Marked { result: Ok(()) },
            ),
            marked,
        ),
        call_ensures(
            approve_step,
            (
                &from,
                &dest,
                ApproveStep::MarkApproved { item },
                ApproveEvent::Marked { result: Err(error) },
            ),
            unmarked,
        ),
        call_ensures(
            approve_step,
            (
                &from,
                &dest,
                ApproveStep::AddRule { pattern, category },
                ApproveEvent::RuleAdded,
            ),
            learned,
        ),
    ensures
        got@ == (ApproveView::FindDest { item: item@ }),
        missing@ == (ApproveView::Done { result: Err(error@) }),
        found@ == (ApproveView::Move { item: item@, dest: free@ }),
        moved@ == (ApproveView::MarkApproved { item: item@ }),
        stuck@ == (ApproveView::Done { result: Err(error@) }),
        marked@ == match rule {
            Some(r) => ApproveView::AddRule { pattern: r.0@, category: r.1@ },
            None => ApproveView::Done { result: Ok(()) },
        },
        unmarked@ == (ApproveView::Done { result: Err(error@) }),
        learned@ == (ApproveView::Done { result: Ok(()) }),
{
    assert(search@.path == dest@);
}

/// Approving a file of the queue is approving it by the paths that its two
/// texts read as, where every platform reads them alike.
pub proof fn law_approval_reads_the_item(
    item: StagingItem,
    from_text: &str,
    dest_text: &str,
    from: FilePath,
    dest: FilePath,
    step: ApproveStep,
    event: ApproveEvent,
    r: ApproveStep,
    of_paths: ApproveStep,
)
    requires
        step matches ApproveStep::FindDest { item: i } && i == item || (
        step matches ApproveStep::Move { item: i, .. } && i == item) || (
        step matches ApproveStep::MarkApproved { item: i } && i == item),
        from_text@ == item.file_path@,
        dest_text@ == item.proposed_dest@,
        portable(from_text@),
        portable(dest_text@),
        call_ensures(FilePath::from_text, (from_text,), from),
        call_ensures(FilePath::from_text, (dest_text,), dest),
        call_ensures(approve_staging_item, (step, event), r),
        call_ensures(approve_step, (&from, &dest, step, event), of_paths),
    ensures
        r@ == of_paths@,
{
}

/// The first and the last step of an approval do not depend on any path.
pub proof fn law_approval_without_an_item(
    from: FilePath,
    dest: FilePath,
    step: ApproveStep,
    event: ApproveEvent,
    r: ApproveStep,
    of_paths: ApproveStep,
)
    requires
        step is GetItem || step is AddRule || step is Done,
        call_ensures(approve_staging_item, (step, event), r),
        call_ensures(approve_step, (&from, &dest, step, event), of_paths),
    ensures
        r@ == of_paths@,
{
}

/// Rejecting, in words of its calls: the file in the queue is taken as it is,
/// marked, recorded under the category of its proposed destination, and what
/// the user's correction teaches is learned, if there is one; every error
/// before that ends it as it is.
pub proof fn law_rejection_takes_its_steps(
    from: FilePath,
    dest: FilePath,
    wanted: FilePath,
    item: StagingItem,
    error: String,
    category: String,
    rule: Option<(String, String)>,
    pattern: String,
    recorded_as: String,
    got: RejectStep,
    missing: RejectStep,
    marked: RejectStep,
    unmarked: RejectStep,
    recorded: RejectStep,
    corrected: RejectStep,
    learned: RejectStep,
)
    requires
        call_ensures(category_of_folder, (&dest,), category),
        call_ensures(rule_of_move, (&from, &wanted), rule),
        call_ensures(
            reject_step,
            (&from, &dest, &None, RejectStep::GetItem, RejectEvent::Item { item: Ok(item) }),
            got,
        ),
        call_ensures(
            reject_step,
            (&from, &dest, &None, RejectStep::GetItem, RejectEvent::Item { item: Err(error) }),
            missing,
        ),
        call_ensures(
            reject_step,
            (
                &from,
                &dest,
                &Some(wanted),
                RejectStep::MarkRejected { item },
                RejectEvent::Marked { result: Ok(()) },
            ),
            marked,
        ),
        call_ensures(
            reject_step,
            (
                &from,
                &dest,
                &Some(wanted),
                RejectStep::MarkRejected { item },
                RejectEvent::Marked { result: Err(error) },
            ),
            unmarked,
        ),
        call_ensures(
            reject_step,
            (
                &from,
                &dest,
                &None,
                RejectStep::LogRejection { item, category: recorded_as },
                RejectEvent::Logged,
            ),
            recorded,
        ),
        call_ensures(
            reject_step,
            (
                &from,
                &dest,
                &Some(wanted),
                RejectStep::LogRejection { item, category: recorded_as },
                RejectEvent::Logged,
            ),
            corrected,
        ),
        call_ensures(
            reject_step,
            (
                &from,
                &dest,
                &Some(wanted),
                RejectStep::AddRule { pattern, category: recorded_as },
                RejectEvent::RuleAdded,
            ),
            learned,
        ),
    ensures
        got@ == (RejectView::MarkRejected { item: item@ }),
        missing@ == (RejectView::Done { result: Err(error@) }),
        marked@ == (RejectView::LogRejection { item: item@, category: category@ }),
        unmarked@ == (RejectView::Done { result: Err(error@) }),
        recorded@ == (RejectView::Done { result: Ok(()) }),
        corrected@ == match rule {
            Some(r) => RejectView::AddRule { pattern: r.0@, category: r.1@ },
            None => RejectView::Done { result: Ok(()) },
        },
        learned@ == (RejectView::Done { result: Ok(()) }),
{
}

/// The steps before the correction is looked at do not depend on it.
pub proof fn law_correction_counts_only_once_recorded(
    from: FilePath,
    dest: FilePath,
    new_dest: Option<FilePath>,
    other: Option<FilePath>,
    step: RejectStep,
    event: RejectEvent,
    r: RejectStep,
    of_other: RejectStep,
)
    requires
        !(step is LogRejection),
        call_ensures(reject_step, (&from, &dest, &new_dest, step, event), r),
        call_ensures(reject_step, (&from, &dest, &other, step, event), of_other),
    ensures
        r@ == of_other@,
{
}

/// Rejecting a file of the queue is rejecting it by the paths that its two
/// texts and the correction read as, where every platform reads them alike.
pub proof fn law_rejection_reads_the_item(
    item: StagingItem,
    from_text: &str,
    dest_text: &str,
    wanted: String,
    wanted_text: &str,
    from: FilePath,
    dest: FilePath,
    corrected: FilePath,
    step: RejectStep,
    event: RejectEvent,
    r: RejectStep,
    of_paths: RejectStep,
    plain: RejectStep,
    plain_of_paths: RejectStep,
)
    requires
        step matches RejectStep::MarkRejected { item: i } && i == item || (
        step matches RejectStep::LogRejection { item: i, .. } && i == item),
        from_text@ == item.file_path@,
        dest_text@ == item.proposed_dest@,
        wanted_text@ == wanted@,
        portable(from_text@),
        portable(dest_text@),
        portable(wanted_text@),
        call_ensures(FilePath::from_text, (from_text,), from),
        call_ensures(FilePath::from_text, (dest_text,), dest),
        call_ensures(FilePath::from_text, (wanted_text,), corrected),
        call_ensures(reject_staging_item, (&Some(wanted), step, event), r),
        call_ensures(reject_step, (&from, &dest, &Some(corrected), step, event), of_paths),
        call_ensures(reject_staging_item, (&None, step, event), plain),
        call_ensures(reject_step, (&from, &dest, &None, step, event), plain_of_paths),
    ensures
        r@ == of_paths@,
        plain@ == plain_of_paths@,
{
}

/// The words of the queue.
pub proof fn law_words_of_the_queue()
    ensures
        APPROVED@ == "approved"@,
        REJECTED@ == "rejected"@,
{
}

/// An event that does not belong to the step changes nothing in an approval,
/// nor does a search that has not settled or is for another path.
pub proof fn law_stray_event_approves_nothing(
    from: FilePath,
    dest: FilePath,
    step: ApproveStep,
    event: ApproveEvent,
    r: ApproveStep,
    by_item: ApproveStep,
)
    requires
        call_ensures(approve_step, (&from, &dest, step, event), r),
        call_ensures(approve_staging_item, (step, event), by_item),
        !(step is GetItem && event is Item),
        !(step is Move && event is Moved),
        !(step is MarkApproved && event is Marked),
        !(step is AddRule && event is RuleAdded),
    ensures
        !(step is FindDest && event is DestFound) ==> r@ == step@ && by_item@ == step@,
        (event matches ApproveEvent::DestFound { search } && (!search.settled || search.path@
            != dest@)) ==> r@ == step@,
        (event matches ApproveEvent::DestFound { search } && !search.settled) ==> by_item@
            == step@,
{
    let (f, d) = choose|f: Seq<PartView>, d: Seq<PartView>|
        by_item@ == #[trigger] approve_after(f, d, step@, event);
    assert(by_item@ == approve_after(f, d, step@, event));
}

/// An event that does not belong to the step changes nothing in a rejection.
pub proof fn law_stray_event_rejects_nothing(
    from: FilePath,
    dest: FilePath,
    corrected: Option<FilePath>,
    new_dest: Option<String>,
    step: RejectStep,
    event: RejectEvent,
    r: RejectStep,
    by_item: RejectStep,
)
    requires
        call_ensures(reject_step, (&from, &dest, &corrected, step, event), r),
        call_ensures(reject_staging_item, (&new_dest, step, event), by_item),
        !(step is GetItem && event is Item),
        !(step is MarkRejected && event is Marked),
        !(step is LogRejection && event is Logged),
        !(step is AddRule && event is RuleAdded),
    ensures
        r@ == step@,
        by_item@ == step@,
{
    let (f, d, c) = choose|f: Seq<PartView>, d: Seq<PartView>, c: Option<Seq<PartView>>|
        by_item@ == #[trigger] reject_after(f, d, c, step@, event);
    assert(by_item@ == reject_after(f, d, c, step@, event));
}

} // verus!
