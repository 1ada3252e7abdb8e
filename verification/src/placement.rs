//! Where a classified file belongs: the folder of its category, and a folder
//! below that which nothing in a suggestion can lead out of.
use vstd::prelude::*;
use vstd::utf8::is_ascii_chars;
use std::path::PathBuf;
use crate::path::{
    joined, path_buf_parts, portable, reads_as, slash_components, slash_parts, starts_with,
    FilePath, PartView, PathPart,
};
use crate::text::{
    join, join_texts, law_join_undoes_split, law_split_undoes_join, lemma_pieces_hold_no_separator,
    lemma_split_front, lemma_split_nonempty, lemma_split_single, same_text, split, split_text,
    texts,
};
use crate::unicode::{
    ascii_alphanumeric, law_small_letters_forget_the_case, lowercase, same_letter, to_lowercase,
};

verus! {

// Redundant leading folders

/// Whether a folder's name only repeats what the category's own folder says:
/// it is a generic container, or the category itself, in any case of letters.
pub open spec fn redundant(category: Seq<char>, name: Seq<char>) -> bool {
    ||| lowercase(name) == "documents"@
    ||| lowercase(name) == "downloads"@
    ||| lowercase(name) == lowercase(category)
}

/// The names from the first that is not redundant on.
pub open spec fn drop_redundant(category: Seq<char>, names: Seq<Seq<char>>) -> Seq<Seq<char>>
    decreases names.len(),
{
    if names.len() > 0 && redundant(category, names[0]) {
        drop_redundant(category, names.skip(1))
    } else {
        names
    }
}

/// A folder without the leading names that are redundant.
pub open spec fn stripped(category: Seq<char>, folder: Seq<char>) -> Seq<char> {
    join(drop_redundant(category, split(folder, '/')), '/')
}

/// Whether a folder's name only repeats what the category's own folder says.
fn is_redundant(category: &str, name: &str) -> (r: bool)
    ensures
        r == redundant(category@, name@),
{
    let low: String = to_lowercase(name);
    same_text(low.as_str(), "documents") || same_text(low.as_str(), "downloads") || same_text(
        low.as_str(),
        to_lowercase(category).as_str(),
    )
}

/// Strip leading names from a suggested folder that would repeat what the
/// category's own folder already provides: "Documents", "Downloads" and the
/// category, in any case of letters. Stripping stops at the first name that is
/// not redundant.
///
///   ("PDFs", "Documents/PDFs") gives ""
///   ("Documents", "Documents/Reports") gives "Reports"
///   ("Images", "Photos/Vacation") gives "Photos/Vacation"
pub fn strip_redundant_prefix(category: &str, folder: &str) -> (r: String)
    ensures
        r@ == stripped(category@, folder@),
{
    let mut names: Vec<String> = split_text(folder, '/');
    let ghost all = texts(names@);
    let mut start: usize = 0;
    proof {
        assert(all.skip(0) =~= all);
    }
    while start < names.len() && is_redundant(category, names[start].as_str())
        invariant
            all == texts(names@),
            start <= names@.len(),
            drop_redundant(category@, all) == drop_redundant(category@, all.skip(start as int)),
        decreases names@.len() - start,
    {
        proof {
            assert(all.skip(start as int)[0] == all[start as int]);
            assert(all.skip(start as int).skip(1) =~= all.skip(start + 1));
        }
        start = start + 1;
    }
    let rest: Vec<String> = names.split_off(start);
    proof {
        assert(texts(rest@) =~= all.skip(start as int));
        if start < all.len() {
            assert(all.skip(start as int)[0] == all[start as int]);
        }
        assert(drop_redundant(category@, all.skip(start as int)) == all.skip(start as int));
        reveal_strlit("/");
    }
    join_texts(&rest, "/")
}

// Safe folders

/// Whether a character may stand in the name of a suggested folder: it is one
/// of `[A-Za-z0-9 _-]`.
pub open spec fn safe_char(c: char) -> bool {
    ascii_alphanumeric(c) || c == ' ' || c == '_' || c == '-'
}

/// Whether a name may be that of a suggested folder.
pub open spec fn safe_name(name: Seq<char>) -> bool {
    &&& name.len() > 0
    &&& forall|i: int| 0 <= i < name.len() ==> safe_char(#[trigger] name[i])
}

/// Whether a component of a suggested folder is kept.
pub open spec fn safe_part(part: PartView) -> bool {
    part matches PartView::Normal(name) && safe_name(name)
}

/// The names that are kept of a suggested folder.
pub open spec fn kept_names(folder: Seq<PartView>) -> Seq<Seq<char>> {
    folder.filter(|p: PartView| safe_part(p)).map_values(|p: PartView| p->Normal_0)
}

/// The folder that a suggested one is made safe as.
pub open spec fn sanitized(folder: Seq<PartView>) -> Seq<char> {
    if kept_names(folder).len() == 0 {
        "Other"@
    } else {
        join(kept_names(folder), '/')
    }
}

/// Whether a character may stand in the name of a suggested folder.
fn is_safe_char(c: char) -> (r: bool)
    ensures
        r == safe_char(c),
{
    ('a' <= c && c <= 'z') || ('A' <= c && c <= 'Z') || ('0' <= c && c <= '9') || c == ' ' || c
        == '_' || c == '-'
}

/// Whether a name may be that of a suggested folder.
fn is_safe_name(name: &str) -> (r: bool)
    ensures
        r == safe_name(name@),
{
    let len: usize = name.unicode_len();
    if len == 0 || name.get_char(0) == '.' {
        return false;
    }
    let mut at: usize = 0;
    while at < len
        invariant
            len == name@.len(),
            at <= len,
            forall|i: int| 0 <= i < at ==> safe_char(#[trigger] name@[i]),
        decreases len - at,
    {
        if !is_safe_char(name.get_char(at)) {
            return false;
        }
        at = at + 1;
    }
    true
}

/// The folder that a suggested one, read as a path, is made safe as.
pub fn sanitize_path(folder: &FilePath) -> (r: String)
    ensures
        r@ == sanitized(folder@),
{
    let mut names: Vec<String> = Vec::new();
    let mut at: usize = 0;
    let ghost keep = |p: PartView| safe_part(p);
    let ghost name_of = |p: PartView| p->Normal_0;
    proof {
        reveal(Seq::filter);
        assert(folder@.take(0).filter(keep) =~= Seq::<PartView>::empty());
        assert(texts(names@) =~= kept_names(folder@.take(0)));
    }
    while at < folder.parts.len()
        invariant
            at <= folder.parts@.len(),
            keep == (|p: PartView| safe_part(p)),
            name_of == (|p: PartView| p->Normal_0),
            texts(names@) == kept_names(folder@.take(at as int)),
        decreases folder.parts@.len() - at,
    {
        let ghost done = texts(names@);
        let ghost seen = folder@.take(at as int);
        let ghost more = folder@.take(at + 1);
        proof {
            reveal(Seq::filter);
            assert(more.drop_last() =~= seen);
            assert(more.last() == folder.parts@[at as int]@);
        }
        match &folder.parts[at] {
            PathPart::Normal(name) => {
                if is_safe_name(name.as_str()) {
                    names.push(name.clone());
                    proof {
                        assert(texts(names@) =~= done.push(name@));
                        assert(more.filter(keep) == seen.filter(keep).push(more.last()));
                        assert(kept_names(more) =~= kept_names(seen).push(name@));
                    }
                } else {
                    proof {
                        assert(more.filter(keep) == seen.filter(keep));
                    }
                }
            },
            _ => {
                proof {
                    assert(more.filter(keep) == seen.filter(keep));
                }
            },
        }
        at = at + 1;
    }
    proof {
        assert(folder@.take(at as int) =~= folder@);
        assert(names@.len() == texts(names@).len());
        reveal_strlit("/");
    }
    if names.len() == 0 {
        "Other".to_owned()
    } else {
        join_texts(&names, "/")
    }
}

/// Make a folder safe that may come from an untrusted suggestion: only plain
/// names are kept, without `..`, roots and drives, and a name that holds a
/// character outside `[A-Za-z0-9 _-]` is rejected. `"Other"` where nothing is
/// left.
pub fn sanitize_folder_path(folder: &str) -> (r: String)
    ensures
        exists|path: Seq<PartView>| #[trigger]
            reads_as(folder@, path) && r@ == sanitized(path),
        portable(folder@) ==> r@ == sanitized(slash_components(folder@)),
{
    let path: FilePath = FilePath::from_text(folder);
    sanitize_path(&path)
}

// The folders of the categories

/// `dirs::document_dir`. Nothing is claimed of the result, which rests on the
/// environment. On Linux the call panics where the file of the user's
/// directories is malformed, such as by a value that is one quotation mark.
pub assume_specification[ dirs::document_dir ]() -> (r: Option<PathBuf>)
;

/// `dirs::download_dir`. Nothing is claimed of the result, which rests on the
/// environment. On Linux the call panics where the file of the user's
/// directories is malformed, such as by a value that is one quotation mark.
pub assume_specification[ dirs::download_dir ]() -> (r: Option<PathBuf>)
;

/// `dirs::picture_dir`. Nothing is claimed of the result, which rests on the
/// environment. On Linux the call panics where the file of the user's
/// directories is malformed, such as by a value that is one quotation mark.
pub assume_specification[ dirs::picture_dir ]() -> (r: Option<PathBuf>)
;

/// `dirs::video_dir`. Nothing is claimed of the result, which rests on the
/// environment. On Linux the call panics where the file of the user's
/// directories is malformed, such as by a value that is one quotation mark.
pub assume_specification[ dirs::video_dir ]() -> (r: Option<PathBuf>)
;

/// `dirs::audio_dir`. Nothing is claimed of the result, which rests on the
/// environment. On Linux the call panics where the file of the user's
/// directories is malformed, such as by a value that is one quotation mark.
pub assume_specification[ dirs::audio_dir ]() -> (r: Option<PathBuf>)
;

/// The user's standard folders, as far as there are any.
pub struct StandardDirs {
    pub document: Option<FilePath>,
    pub download: Option<FilePath>,
    pub picture: Option<FilePath>,
    pub video: Option<FilePath>,
    pub audio: Option<FilePath>,
}

/// The value of the standard folders.
#[verifier::ext_equal]
pub struct DirsView {
    pub document: Option<Seq<PartView>>,
    pub download: Option<Seq<PartView>>,
    pub picture: Option<Seq<PartView>>,
    pub video: Option<Seq<PartView>>,
    pub audio: Option<Seq<PartView>>,
}

/// The value of an optional path.
pub open spec fn optional_path(path: Option<FilePath>) -> Option<Seq<PartView>> {
    match path {
        Some(p) => Some(p@),
        None => None,
    }
}

impl View for StandardDirs {
    type V = DirsView;

    open spec fn view(&self) -> DirsView {
        DirsView {
            document: optional_path(self.document),
            download: optional_path(self.download),
            picture: optional_path(self.picture),
            video: optional_path(self.video),
            audio: optional_path(self.audio),
        }
    }
}

/// A path, or another where there is none.
pub open spec fn path_or(path: Option<Seq<PartView>>, other: Seq<PartView>) -> Seq<PartView> {
    match path {
        Some(p) => p,
        None => other,
    }
}

/// A path with one more name.
pub open spec fn below(path: Seq<PartView>, name: Seq<char>) -> Seq<PartView> {
    path.push(PartView::Normal(name))
}

/// The library's own folder: below the documents, or where there is no such
/// folder below the current directory.
pub open spec fn own_folder(dirs: DirsView) -> Seq<PartView> {
    below(path_or(dirs.document, seq![PartView::CurDir]), "Sortd"@)
}

/// The library's own folder among the downloads.
pub open spec fn download_folder(dirs: DirsView) -> Seq<PartView> {
    below(path_or(dirs.download, own_folder(dirs)), "Sortd"@)
}

/// The folder of a category.
pub open spec fn category_base(category: Seq<char>, dirs: DirsView) -> Seq<PartView> {
    if category == "Images"@ || category == "Photos"@ {
        path_or(dirs.picture, own_folder(dirs))
    } else if category == "Videos"@ {
        path_or(dirs.video, own_folder(dirs))
    } else if category == "Music"@ || category == "Audio"@ {
        path_or(dirs.audio, own_folder(dirs))
    } else if category == "Documents"@ {
        own_folder(dirs)
    } else if category == "PDFs"@ || category == "Spreadsheets"@ || category == "Code"@ {
        below(own_folder(dirs), category)
    } else if category == "Archives"@ || category == "Installers"@ {
        below(download_folder(dirs), category)
    } else {
        below(own_folder(dirs), "Other"@)
    }
}

/// The components of a path of the operating system, where there is one.
pub open spec fn optional_parts(path: Option<PathBuf>) -> Option<Seq<PartView>> {
    match path {
        Some(p) => Some(path_buf_parts(p)),
        None => None,
    }
}

/// Whether each of the standard folders is what its own lookup in the
/// environment can give, and missing where that gives nothing.
pub open spec fn looked_up(found: DirsView) -> bool {
    &&& exists|p: Option<PathBuf>| #[trigger]
        call_ensures(dirs::document_dir, (), p) && found.document == optional_parts(p)
    &&& exists|p: Option<PathBuf>| #[trigger]
        call_ensures(dirs::download_dir, (), p) && found.download == optional_parts(p)
    &&& exists|p: Option<PathBuf>| #[trigger]
        call_ensures(dirs::picture_dir, (), p) && found.picture == optional_parts(p)
    &&& exists|p: Option<PathBuf>| #[trigger]
        call_ensures(dirs::video_dir, (), p) && found.video == optional_parts(p)
    &&& exists|p: Option<PathBuf>| #[trigger]
        call_ensures(dirs::audio_dir, (), p) && found.audio == optional_parts(p)
}

/// The components of a path, where there is one.
fn optional_file_path(path: Option<PathBuf>) -> (r: Option<FilePath>)
    ensures
        optional_path(r) == optional_parts(path),
{
    match path {
        Some(p) => Some(FilePath::from_path_buf(&p)),
        None => None,
    }
}

/// The user's standard folders, as far as there are any.
fn standard_dirs() -> (r: StandardDirs)
    ensures
        looked_up(r@),
{
    let document: Option<PathBuf> = dirs::document_dir();
    let download: Option<PathBuf> = dirs::download_dir();
    let picture: Option<PathBuf> = dirs::picture_dir();
    let video: Option<PathBuf> = dirs::video_dir();
    let audio: Option<PathBuf> = dirs::audio_dir();
    proof {
        assert(call_ensures(dirs::document_dir, (), document));
        assert(call_ensures(dirs::download_dir, (), download));
        assert(call_ensures(dirs::picture_dir, (), picture));
        assert(call_ensures(dirs::video_dir, (), video));
        assert(call_ensures(dirs::audio_dir, (), audio));
    }
    StandardDirs {
        document: optional_file_path(document),
        download: optional_file_path(download),
        picture: optional_file_path(picture),
        video: optional_file_path(video),
        audio: optional_file_path(audio),
    }
}

/// A path, or another where there is none.
fn or_else(path: &Option<FilePath>, other: FilePath) -> (r: FilePath)
    ensures
        r@ == path_or(optional_path(*path), other@),
{
    match path {
        Some(p) => p.clone(),
        None => other,
    }
}

/// The folder of a category, given the user's standard folders.
pub fn category_base_dir(category: &str, dirs: &StandardDirs) -> (r: FilePath)
    ensures
        r@ == category_base(category@, dirs@),
{
    let mut here: Vec<PathPart> = Vec::new();
    here.push(PathPart::CurDir);
    let current: FilePath = FilePath { parts: here };
    proof {
        assert(current@ =~= seq![PartView::CurDir]);
    }
    let own: FilePath = or_else(&dirs.document, current).with_name("Sortd");
    if same_text(category, "Images") || same_text(category, "Photos") {
        or_else(&dirs.picture, own)
    } else if same_text(category, "Videos") {
        or_else(&dirs.video, own)
    } else if same_text(category, "Music") || same_text(category, "Audio") {
        or_else(&dirs.audio, own)
    } else if same_text(category, "Documents") {
        own
    } else if same_text(category, "PDFs") || same_text(category, "Spreadsheets") || same_text(
        category,
        "Code",
    ) {
        own.with_name(category)
    } else if same_text(category, "Archives") || same_text(category, "Installers") {
        or_else(&dirs.download, own).with_name("Sortd").with_name(category)
    } else {
        own.with_name("Other")
    }
}

/// The folder of a category. Falls back to the library's own folder where the
/// standard folder is not there.
pub fn get_category_base_dir(category: &str) -> (r: FilePath)
    ensures
        exists|found: DirsView|
            looked_up(found) && r@ == #[trigger] category_base(category@, found),
{
    let dirs: StandardDirs = standard_dirs();
    category_base_dir(category, &dirs)
}

/// The library's own folder, to be opened for the user; an error where there
/// is no documents folder.
pub fn sortd_folder(document: Option<FilePath>) -> (r: Result<FilePath, String>)
    ensures
        match document {
            Some(d) => r matches Ok(p) && p@ == below(d@, "Sortd"@),
            None => r matches Err(e) && e@ == "Cannot resolve Documents folder"@,
        },
{
    match document {
        Some(d) => Ok(d.with_name("Sortd")),
        None => Err("Cannot resolve Documents folder".to_owned()),
    }
}

/// The library's own folder in the user's documents folder.
pub fn open_sortd_folder() -> (r: Result<FilePath, String>)
    ensures
        exists|found: Option<PathBuf>| #[trigger]
            call_ensures(dirs::document_dir, (), found) && match optional_parts(found) {
                Some(d) => r matches Ok(p) && p@ == below(d, "Sortd"@),
                None => r matches Err(e) && e@ == "Cannot resolve Documents folder"@,
            },
{
    let document: Option<PathBuf> = dirs::document_dir();
    proof {
        assert(call_ensures(dirs::document_dir, (), document));
    }
    sortd_folder(optional_file_path(document))
}

// Destinations

/// The folder below the category's own one for a suggested folder: made safe,
/// and without what is redundant.
pub open spec fn safe_folder(category: Seq<char>, suggested: Seq<PartView>) -> Seq<char> {
    stripped(category, sanitized(suggested))
}

/// The components of a folder below the category's own one.
pub open spec fn folder_parts(folder: Seq<char>) -> Seq<PartView> {
    if folder.len() == 0 {
        Seq::empty()
    } else {
        slash_components(folder)
    }
}

/// Where a file goes: into a folder below a base folder, under its own name.
pub open spec fn destination(
    base: Seq<PartView>,
    folder: Seq<char>,
    file_name: PartView,
) -> Seq<PartView> {
    (base + folder_parts(folder)).push(file_name)
}

/// The folder below the category's own one for a suggested folder, as a path
/// from there; an empty one where nothing is left of the suggestion.
pub fn destination_folder(category: &str, suggested_folder: &str) -> (r: FilePath)
    ensures
        exists|path: Seq<PartView>| #[trigger]
            reads_as(suggested_folder@, path) && r@ == folder_parts(safe_folder(category@, path)),
        portable(suggested_folder@) ==> r@ == folder_parts(
            safe_folder(category@, slash_components(suggested_folder@)),
        ),
{
    let safe: String = sanitize_folder_path(suggested_folder);
    let folder: String = strip_redundant_prefix(category, safe.as_str());
    proof {
        let suggested = choose|path: Seq<PartView>| #[trigger]
            reads_as(suggested_folder@, path) && safe@ == sanitized(path);
        assert(folder@ == safe_folder(category@, suggested));
        law_safe_folder_holds_safe_names(category@, suggested);
    }
    if folder.as_str().unicode_len() == 0 {
        let nowhere = FilePath { parts: Vec::new() };
        proof {
            assert(nowhere@ =~= Seq::<PartView>::empty());
        }
        nowhere
    } else {
        FilePath::from_text(folder.as_str())
    }
}

/// Where a file of that name goes: into a folder below a base folder.
pub fn destination_path(base: &FilePath, folder: &FilePath, name: &FilePath) -> (r: FilePath)
    ensures
        r@ == joined(joined(base@, folder@), name@),
{
    base.join(folder).join(name)
}

// Laws

/// What is stripped is redundant, and what is left is not: the result is made
/// of the last names of the folder, the names before them are all redundant,
/// and the first that is left is not.
pub proof fn law_stripping_drops_just_what_is_redundant(category: Seq<char>, names: Seq<Seq<char>>)
    ensures
        ({
            let left = drop_redundant(category, names);
            let k = names.len() - left.len();
            &&& 0 <= k
            &&& left == names.skip(k)
            &&& forall|i: int| 0 <= i < k ==> redundant(category, #[trigger] names[i])
            &&& left.len() > 0 ==> !redundant(category, left[0])
        }),
    decreases names.len(),
{
    let left = drop_redundant(category, names);
    if names.len() > 0 && redundant(category, names[0]) {
        let rest = names.skip(1);
        law_stripping_drops_just_what_is_redundant(category, rest);
        let k = rest.len() - left.len();
        assert(rest.skip(k) =~= names.skip(k + 1));
        assert forall|i: int| 0 <= i < k + 1 implies redundant(category, #[trigger] names[i]) by {
            if i > 0 {
                assert(rest[i - 1] == names[i]);
            }
        }
    } else {
        assert(names.skip(0) =~= names);
    }
}

/// Stripping a second time changes nothing.
pub proof fn law_stripping_is_idempotent(category: Seq<char>, folder: Seq<char>)
    ensures
        stripped(category, stripped(category, folder)) == stripped(category, folder),
{
    let names = split(folder, '/');
    let left = drop_redundant(category, names);
    let once = join(left, '/');
    law_stripping_drops_just_what_is_redundant(category, names);
    lemma_pieces_hold_no_separator(folder, '/');
    let k = names.len() - left.len();
    if left.len() > 0 {
        assert forall|i: int| 0 <= i < left.len() implies !#[trigger] left[i].contains('/') by {
            assert(left[i] == names[i + k]);
        }
        law_split_undoes_join(left, '/');
    } else {
        let empty = Seq::<char>::empty();
        assert(once =~= empty);
        assert(split(empty, '/') == seq![empty]);
        if redundant(category, empty) {
            assert(seq![empty].skip(1) =~= Seq::<Seq<char>>::empty());
            assert(drop_redundant(category, seq![empty].skip(1)) =~= Seq::<Seq<char>>::empty());
        } else {
            assert(drop_redundant(category, seq![empty]) == seq![empty]);
        }
    }
}

/// The fixed fallback is a safe name.
proof fn lemma_other_is_safe()
    ensures
        safe_name("Other"@),
        !"Other"@.contains('/'),
{
    reveal_strlit("Other");
    assert("Other"@ =~= seq!['O', 't', 'h', 'e', 'r']);
}

/// Every name that is kept is safe.
proof fn lemma_kept_names_are_safe(folder: Seq<PartView>)
    ensures
        forall|i: int|
            0 <= i < kept_names(folder).len() ==> safe_name(#[trigger] kept_names(folder)[i]),
    decreases folder.len(),
{
    reveal(Seq::filter);
    let keep = |p: PartView| safe_part(p);
    if folder.len() > 0 {
        lemma_kept_names_are_safe(folder.drop_last());
        let before = folder.drop_last().filter(keep);
        assert forall|i: int| 0 <= i < kept_names(folder).len() implies safe_name(
            #[trigger] kept_names(folder)[i],
        ) by {
            if i < before.len() {
                assert(kept_names(folder)[i] == kept_names(folder.drop_last())[i]);
            } else {
                assert(folder.filter(keep) == before.push(folder.last()));
                assert(keep(folder.last()));
            }
        }
    }
}

/// A safe name holds none of the characters that mean something in a path.
proof fn lemma_safe_name_is_plain(name: Seq<char>)
    requires
        safe_name(name),
    ensures
        !name.contains('/'),
        !name.contains('\\'),
        !name.contains(':'),
        !name.contains('.'),
{
    assert forall|c: char| name.contains(c) implies safe_char(c) by {
        let k = choose|k: int| 0 <= k < name.len() && name[k] == c;
        assert(safe_char(name[k]));
    }
}

/// A folder that was made safe is a list of safe names with slashes between,
/// and never empty: nothing in it leads up, to a root or to a drive.
pub proof fn law_sanitized_folder_is_safe(folder: Seq<PartView>)
    ensures
        split(sanitized(folder), '/').len() > 0,
        forall|i: int|
            0 <= i < split(sanitized(folder), '/').len() ==> safe_name(
                #[trigger] split(sanitized(folder), '/')[i],
            ),
        sanitized(folder).len() > 0,
{
    let names = kept_names(folder);
    let text = sanitized(folder);
    lemma_kept_names_are_safe(folder);
    if names.len() == 0 {
        lemma_other_is_safe();
        let one = seq!["Other"@];
        law_split_undoes_join(one, '/');
        assert(join(one, '/') == "Other"@);
    } else {
        assert forall|i: int| 0 <= i < names.len() implies !#[trigger] names[i].contains('/') by {
            lemma_safe_name_is_plain(names[i]);
        }
        law_split_undoes_join(names, '/');
    }
    let pieces = split(text, '/');
    if text.len() == 0 {
        assert(pieces[0].len() == 0);
    }
}

/// A text whose pieces are safe names holds only safe characters and slashes,
/// and does not begin with a slash.
proof fn lemma_chars_of_safe_pieces(text: Seq<char>)
    requires
        forall|i: int| 0 <= i < split(text, '/').len() ==> safe_name(#[trigger] split(text, '/')[i]),
    ensures
        forall|i: int| 0 <= i < text.len() ==> text[i] == '/' || safe_char(#[trigger] text[i]),
        text.len() > 0 ==> text[0] != '/',
{
    lemma_chars_of_pieces(text);
    lemma_first_piece(text);
    lemma_split_nonempty(text, '/');
    let pieces = split(text, '/');
    assert(safe_name(pieces[0]));
    assert forall|i: int| 0 <= i < text.len() implies text[i] == '/' || safe_char(
        #[trigger] text[i],
    ) by {
        if text[i] != '/' {
            let (p, k) = choose|p: int, k: int|
                0 <= p < pieces.len() && 0 <= k < pieces[p].len() && #[trigger] pieces[p][k] == text[i];
            assert(safe_name(pieces[p]));
            assert(safe_char(pieces[p][k]));
        }
    }
}

/// Every character but the separators stands in some piece.
proof fn lemma_chars_of_pieces(text: Seq<char>)
    ensures
        forall|i: int|
            0 <= i < text.len() && text[i] != '/' ==> exists|p: int, k: int|
                0 <= p < split(text, '/').len() && 0 <= k < split(text, '/')[p].len()
                    && #[trigger] split(text, '/')[p][k] == #[trigger] text[i],
    decreases text.len(),
{
    if text.len() > 0 {
        let front = text.drop_last();
        let before = split(front, '/');
        let pieces = split(text, '/');
        lemma_chars_of_pieces(front);
        lemma_split_nonempty(front, '/');
        assert forall|i: int| 0 <= i < text.len() && text[i] != '/' implies exists|p: int, k: int|
            0 <= p < pieces.len() && 0 <= k < pieces[p].len() && #[trigger] pieces[p][k]
                == #[trigger] text[i] by {
            if i < front.len() {
                assert(front[i] == text[i]);
                let (p, k) = choose|p: int, k: int|
                    0 <= p < before.len() && 0 <= k < before[p].len() && #[trigger] before[p][k]
                        == front[i];
                assert(pieces[p][k] == before[p][k]);
            } else {
                let p = pieces.len() - 1;
                let k = pieces[p].len() - 1;
                assert(pieces[p][k] == text[i]);
            }
        }
    }
}

/// The first piece is empty where a text begins with the separator.
proof fn lemma_first_piece(text: Seq<char>)
    ensures
        text.len() > 0 && text[0] == '/' ==> split(text, '/').len() > 1 && split(text, '/')[0].len()
            == 0,
    decreases text.len(),
{
    if text.len() > 1 {
        lemma_first_piece(text.drop_last());
    } else if text.len() == 1 {
        let empty = Seq::<char>::empty();
        assert(text.drop_last() =~= empty);
        assert(split(empty, '/') == seq![empty]);
        if text[0] == '/' {
            assert(split(text, '/') == seq![empty].push(empty));
            assert(split(text, '/')[0] == empty);
        }
    }
}

/// A text whose pieces are safe names is relative and reads alike on every
/// platform.
proof fn lemma_safe_pieces_are_portable(text: Seq<char>)
    requires
        forall|i: int| 0 <= i < split(text, '/').len() ==> safe_name(#[trigger] split(text, '/')[i]),
    ensures
        portable(text),
        text.len() > 0 ==> text[0] != '/',
{
    lemma_chars_of_safe_pieces(text);
    if text.contains('\\') {
        let k = choose|k: int| 0 <= k < text.len() && text[k] == '\\';
        assert(text[k] == '/' || safe_char(text[k]));
    }
    if text.contains(':') {
        let k = choose|k: int| 0 <= k < text.len() && text[k] == ':';
        assert(text[k] == '/' || safe_char(text[k]));
    }
}

/// The components that safe names stand for are those names.
proof fn lemma_parts_of_safe_names(names: Seq<Seq<char>>)
    requires
        forall|i: int| 0 <= i < names.len() ==> safe_name(#[trigger] names[i]),
    ensures
        slash_parts(names) == names.map_values(|n: Seq<char>| PartView::Normal(n)),
    decreases names.len(),
{
    if names.len() > 0 {
        let front = names.drop_last();
        assert forall|i: int| 0 <= i < front.len() implies safe_name(#[trigger] front[i]) by {
            assert(front[i] == names[i]);
        }
        lemma_parts_of_safe_names(front);
        let last = names[names.len() - 1];
        assert(safe_name(last));
        lemma_safe_name_is_plain(last);
        assert(seq!['.'].contains('.')) by {
            assert(seq!['.'][0] == '.');
        }
        assert(seq!['.', '.'].contains('.')) by {
            assert(seq!['.', '.'][0] == '.');
        }
        assert(slash_parts(names) =~= names.map_values(|n: Seq<char>| PartView::Normal(n)));
    } else {
        assert(slash_parts(names) =~= names.map_values(|n: Seq<char>| PartView::Normal(n)));
    }
}

/// All the components of a list of names are kept where the names are safe.
proof fn lemma_safe_names_are_kept(names: Seq<Seq<char>>)
    requires
        forall|i: int| 0 <= i < names.len() ==> safe_name(#[trigger] names[i]),
    ensures
        kept_names(names.map_values(|n: Seq<char>| PartView::Normal(n))) == names,
    decreases names.len(),
{
    reveal(Seq::filter);
    let keep = |p: PartView| safe_part(p);
    let parts = names.map_values(|n: Seq<char>| PartView::Normal(n));
    if names.len() > 0 {
        let front = names.drop_last();
        assert forall|i: int| 0 <= i < front.len() implies safe_name(#[trigger] front[i]) by {
            assert(front[i] == names[i]);
        }
        lemma_safe_names_are_kept(front);
        assert(parts.drop_last() =~= front.map_values(|n: Seq<char>| PartView::Normal(n)));
        assert(safe_name(names[names.len() - 1]));
        assert(parts.last() == PartView::Normal(names.last()));
        assert(parts.filter(keep) == parts.drop_last().filter(keep).push(parts.last()));
        assert(kept_names(parts) =~= front.push(names.last()));
        assert(front.push(names.last()) =~= names);
    } else {
        assert(kept_names(parts) =~= names);
    }
}

/// A folder that was made safe reads alike on every platform, and making it
/// safe a second time changes nothing.
pub proof fn law_sanitizing_is_idempotent(folder: Seq<PartView>)
    ensures
        portable(sanitized(folder)),
        sanitized(slash_components(sanitized(folder))) == sanitized(folder),
{
    let text = sanitized(folder);
    let names = split(text, '/');
    law_sanitized_folder_is_safe(folder);
    lemma_safe_pieces_are_portable(text);
    lemma_parts_of_safe_names(names);
    lemma_safe_names_are_kept(names);
    law_join_undoes_split(text, '/');
}

/// The folder below the category's own one consists of plain safe names, if it
/// is not empty, and reads alike on every platform.
pub proof fn law_safe_folder_holds_safe_names(category: Seq<char>, suggested: Seq<PartView>)
    ensures
        forall|i: int|
            0 <= i < folder_parts(safe_folder(category, suggested)).len() ==> safe_part(
                #[trigger] folder_parts(safe_folder(category, suggested))[i],
            ),
        portable(safe_folder(category, suggested)),
{
    let safe = sanitized(suggested);
    let names = split(safe, '/');
    let left = drop_redundant(category, names);
    let folder = safe_folder(category, suggested);
    law_sanitized_folder_is_safe(suggested);
    law_stripping_drops_just_what_is_redundant(category, names);
    let k = names.len() - left.len();
    if folder.len() > 0 {
        assert(left.len() > 0);
        assert forall|i: int| 0 <= i < left.len() implies safe_name(#[trigger] left[i])
            && !left[i].contains('/') by {
            assert(left[i] == names[i + k]);
            lemma_safe_name_is_plain(names[i + k]);
        }
        law_split_undoes_join(left, '/');
        lemma_safe_pieces_are_portable(folder);
        lemma_parts_of_safe_names(left);
    }
}

/// Whatever folder is suggested, the file stays below the folder of its
/// category: the destination begins with that folder, and below it come only
/// plain safe names and the file's own name. It is where the folder and the
/// name lead to from there.
pub proof fn law_destination_stays_below_the_category_folder(
    category: Seq<char>,
    suggested: Seq<PartView>,
    base: Seq<PartView>,
    file_name: PartView,
)
    requires
        file_name is Normal || file_name is Foreign,
    ensures
        ({
            let folder = folder_parts(safe_folder(category, suggested));
            joined(joined(base, folder), seq![file_name]) == destination(
                base,
                safe_folder(category, suggested),
                file_name,
            )
        }),
        ({
            let dest = destination(base, safe_folder(category, suggested), file_name);
            &&& starts_with(dest, base)
            &&& dest.len() > base.len()
            &&& dest.last() == file_name
            &&& forall|i: int|
                base.len() <= i < dest.len() - 1 ==> safe_part(#[trigger] dest[i])
        }),
{
    let folder = safe_folder(category, suggested);
    let dest = destination(base, folder, file_name);
    law_safe_folder_holds_safe_names(category, suggested);
    let parts = folder_parts(folder);
    if parts.len() > 0 {
        assert(safe_part(parts[0]));
    }
    assert(joined(joined(base, parts), seq![file_name]) =~= dest);
    assert(dest.take(base.len() as int) =~= base);
    assert forall|i: int| base.len() <= i < dest.len() - 1 implies safe_part(#[trigger] dest[i]) by {
        assert(dest[i] == folder_parts(folder)[i - base.len()]);
    }
}

/// Whether a name is, but for the case of its letters, one of the two generic
/// containers or the category.
pub open spec fn repeats(category: Seq<char>, name: Seq<char>) -> bool {
    lowercase(name) == "documents"@ || lowercase(name) == "downloads"@ || lowercase(name)
        == lowercase(category)
}

/// Stripping takes away exactly the leading names that repeat a generic
/// container or the category, and keeps the names from the first other one on
/// as they are.
pub proof fn law_only_repeating_names_are_stripped(category: &str, folder: &str, r: String)
    requires
        call_ensures(strip_redundant_prefix, (category, folder), r),
    ensures
        ({
            let names = split(folder@, '/');
            exists|k: int|
                {
                    &&& 0 <= k <= names.len()
                    &&& r@ == join(#[trigger] names.skip(k), '/')
                    &&& forall|i: int| 0 <= i < k ==> repeats(category@, #[trigger] names[i])
                    &&& k < names.len() ==> !repeats(category@, names[k])
                }
        }),
{
    let names = split(folder@, '/');
    law_stripping_drops_just_what_is_redundant(category@, names);
    let k = names.len() - drop_redundant(category@, names).len();
    assert(r@ == join(names.skip(k), '/'));
    if k < names.len() {
        assert(names.skip(k)[0] == names[k]);
    }
}

/// A leading name that repeats is stripped, and stripping goes on with what
/// follows it.
pub proof fn law_repeating_name_is_stripped(
    category: &str,
    name: Seq<char>,
    folder: &str,
    rest: &str,
    alone: &str,
    r: String,
    of_rest: String,
    of_name: String,
)
    requires
        !name.contains('/'),
        repeats(category@, name),
        folder@ == name.push('/') + rest@,
        alone@ == name,
        call_ensures(strip_redundant_prefix, (category, folder), r),
        call_ensures(strip_redundant_prefix, (category, rest), of_rest),
        call_ensures(strip_redundant_prefix, (category, alone), of_name),
    ensures
        r@ == of_rest@,
        of_name@.len() == 0,
{
    lemma_split_front(name, rest@, '/');
    let names = split(folder@, '/');
    assert(names[0] == name);
    assert(names.skip(1) =~= split(rest@, '/'));
    lemma_split_single(name, '/');
    assert(split(alone@, '/') == seq![name]);
    assert(seq![name].skip(1) =~= Seq::<Seq<char>>::empty());
    reveal_with_fuel(drop_redundant, 3);
    assert(drop_redundant(category@, seq![name]) =~= Seq::<Seq<char>>::empty());
}

/// A folder whose first name does not repeat is kept as it is.
pub proof fn law_other_folder_is_kept(
    category: &str,
    name: Seq<char>,
    folder: &str,
    alone: &str,
    rest: Seq<char>,
    r: String,
    of_name: String,
)
    requires
        !name.contains('/'),
        !repeats(category@, name),
        folder@ == name.push('/') + rest,
        alone@ == name,
        call_ensures(strip_redundant_prefix, (category, folder), r),
        call_ensures(strip_redundant_prefix, (category, alone), of_name),
    ensures
        r@ == folder@,
        of_name@ == name,
{
    lemma_split_front(name, rest, '/');
    assert(split(folder@, '/')[0] == name);
    lemma_split_single(name, '/');
    law_join_undoes_split(folder@, '/');
    law_join_undoes_split(name, '/');
}

/// A name of ASCII repeats exactly where it is, letter by letter and in either
/// case, "documents", "downloads" or the category.
pub proof fn law_names_repeat_letter_by_letter(category: Seq<char>, name: Seq<char>)
    requires
        is_ascii_chars(category),
        is_ascii_chars(name),
    ensures
        repeats(category, name) <==> same_letters(name, "documents"@) || same_letters(
            name,
            "downloads"@,
        ) || same_letters(name, category),
{
    reveal_strlit("documents");
    reveal_strlit("downloads");
    law_small_letters_forget_the_case(name, "documents"@);
    law_small_letters_forget_the_case(name, "downloads"@);
    law_small_letters_forget_the_case(name, category);
    assert(lowercase("documents"@) =~= "documents"@);
    assert(lowercase("downloads"@) =~= "downloads"@);
}

/// Whether two texts are the same but for the case of letters of ASCII.
pub open spec fn same_letters(a: Seq<char>, b: Seq<char>) -> bool {
    a.len() == b.len() && forall|i: int| 0 <= i < a.len() ==> same_letter(#[trigger] a[i], b[i])
}

/// Whether a component is a name made of `[A-Za-z0-9 _-]`.
pub open spec fn plain(part: PartView) -> bool {
    part matches PartView::Normal(name) && name.len() > 0 && forall|i: int|
        0 <= i < name.len() ==> ('a' <= #[trigger] name[i] <= 'z' || 'A' <= name[i] <= 'Z' || '0'
            <= name[i] <= '9' || name[i] == ' ' || name[i] == '_' || name[i] == '-')
}

/// What is safe is exactly what is plain.
proof fn lemma_plain_is_safe(part: PartView)
    ensures
        plain(part) == safe_part(part),
{
    if let PartView::Normal(name) = part {
        if safe_part(part) {
            assert forall|i: int| 0 <= i < name.len() implies ('a' <= #[trigger] name[i] <= 'z'
                || 'A' <= name[i] <= 'Z' || '0' <= name[i] <= '9' || name[i] == ' ' || name[i]
                == '_' || name[i] == '-') by {
                assert(safe_char(name[i]));
            }
        }
        if plain(part) {
            assert forall|i: int| 0 <= i < name.len() implies safe_char(#[trigger] name[i]) by {}
        }
    }
}

/// A folder of plain names is kept whole: its names one after the other, with
/// slashes between. A folder without components becomes `Other`.
pub proof fn law_plain_folder_is_kept(folder: FilePath, names: Seq<Seq<char>>, r: String)
    requires
        folder@ == names.map_values(|n: Seq<char>| PartView::Normal(n)),
        forall|i: int| 0 <= i < folder@.len() ==> plain(#[trigger] folder@[i]),
        call_ensures(sanitize_path, (&folder,), r),
    ensures
        names.len() > 0 ==> r@ == join(names, '/'),
        names.len() == 0 ==> r@ == "Other"@,
{
    assert forall|i: int| 0 <= i < names.len() implies safe_name(#[trigger] names[i]) by {
        assert(plain(folder@[i]));
        lemma_plain_is_safe(folder@[i]);
    }
    lemma_safe_names_are_kept(names);
}

/// A component that is not a plain name makes no difference, wherever it
/// stands: `..`, a root, a drive, and a name with any other character.
pub proof fn law_other_components_make_no_difference(
    folder: FilePath,
    without: FilePath,
    k: int,
    r: String,
    other: String,
)
    requires
        0 <= k < folder@.len(),
        !plain(folder@[k]),
        without@ == folder@.take(k) + folder@.skip(k + 1),
        call_ensures(sanitize_path, (&folder,), r),
        call_ensures(sanitize_path, (&without,), other),
    ensures
        r@ == other@,
{
    let keep = |p: PartView| safe_part(p);
    let a = folder@.take(k);
    let b = seq![folder@[k]];
    let c = folder@.skip(k + 1);
    lemma_plain_is_safe(folder@[k]);
    assert(folder@ =~= (a + b) + c);
    Seq::filter_distributes_over_add(a + b, c, keep);
    Seq::filter_distributes_over_add(a, b, keep);
    Seq::filter_distributes_over_add(a, c, keep);
    reveal(Seq::filter);
    assert(b.drop_last() =~= Seq::<PartView>::empty());
    assert(!keep(b.last()));
    assert(b.drop_last().filter(keep) =~= Seq::<PartView>::empty());
    assert(b.filter(keep) =~= Seq::<PartView>::empty());
    assert(a.filter(keep) + b.filter(keep) =~= a.filter(keep));
}

/// Making a text safe is making the path safe that it reads as.
pub proof fn law_text_is_made_safe_as_its_path(
    text: &str,
    read: FilePath,
    r: String,
    of_path: String,
)
    requires
        portable(text@),
        call_ensures(FilePath::from_text, (text,), read),
        call_ensures(sanitize_folder_path, (text,), r),
        call_ensures(sanitize_path, (&read,), of_path),
    ensures
        r@ == of_path@,
{
}

/// The folder of each category, given the standard folders.
pub proof fn law_folder_of_each_category(category: &str, dirs: StandardDirs, r: FilePath)
    requires
        call_ensures(category_base_dir, (category, &dirs), r),
    ensures
        ({
            let own = match dirs.document {
                Some(d) => d@.push(PartView::Normal("Sortd"@)),
                None => seq![PartView::CurDir, PartView::Normal("Sortd"@)],
            };
            let downloads = match dirs.download {
                Some(d) => d@,
                None => own,
            }.push(PartView::Normal("Sortd"@));
            let name = category@;
            if name == "Images"@ || name == "Photos"@ {
                r@ == match dirs.picture {
                    Some(d) => d@,
                    None => own,
                }
            } else if name == "Videos"@ {
                r@ == match dirs.video {
                    Some(d) => d@,
                    None => own,
                }
            } else if name == "Music"@ || name == "Audio"@ {
                r@ == match dirs.audio {
                    Some(d) => d@,
                    None => own,
                }
            } else if name == "Documents"@ {
                r@ == own
            } else if name == "PDFs"@ || name == "Spreadsheets"@ || name == "Code"@ {
                r@ == own.push(PartView::Normal(name))
            } else if name == "Archives"@ || name == "Installers"@ {
                r@ == downloads.push(PartView::Normal(name))
            } else {
                r@ == own.push(PartView::Normal("Other"@))
            }
        }),
        r@ == category_base(category@, dirs@),
{
    assert(seq![PartView::CurDir].push(PartView::Normal("Sortd"@)) =~= seq![
        PartView::CurDir,
        PartView::Normal("Sortd"@),
    ]);
}

/// The folder of a category is the one that belongs to this user's standard
/// folders, and a standard folder that is there is used.
pub proof fn law_category_uses_its_own_standard_folder(category: &str, r: FilePath)
    requires
        call_ensures(get_category_base_dir, (category,), r),
    ensures
        category@ == "Images"@ ==> exists|p: Option<PathBuf>| #[trigger]
            call_ensures(dirs::picture_dir, (), p) && (p matches Some(d) ==> r@ == path_buf_parts(
                d,
            )),
        category@ == "Videos"@ ==> exists|p: Option<PathBuf>| #[trigger]
            call_ensures(dirs::video_dir, (), p) && (p matches Some(d) ==> r@ == path_buf_parts(
                d,
            )),
        category@ == "Music"@ ==> exists|p: Option<PathBuf>| #[trigger]
            call_ensures(dirs::audio_dir, (), p) && (p matches Some(d) ==> r@ == path_buf_parts(
                d,
            )),
        category@ == "Documents"@ ==> exists|p: Option<PathBuf>| #[trigger]
            call_ensures(dirs::document_dir, (), p) && r@ == match p {
                Some(d) => path_buf_parts(d).push(PartView::Normal("Sortd"@)),
                None => seq![PartView::CurDir, PartView::Normal("Sortd"@)],
            },
        category@ == "Archives"@ || category@ == "Installers"@ ==> exists|p: Option<PathBuf>|
            #[trigger]
            call_ensures(dirs::download_dir, (), p) && (p matches Some(d) ==> r@ == path_buf_parts(
                d,
            ).push(PartView::Normal("Sortd"@)).push(PartView::Normal(category@))),
{
    reveal_strlit("Images");
    reveal_strlit("Photos");
    reveal_strlit("Videos");
    reveal_strlit("Music");
    reveal_strlit("Audio");
    reveal_strlit("Documents");
    reveal_strlit("PDFs");
    reveal_strlit("Spreadsheets");
    reveal_strlit("Code");
    reveal_strlit("Archives");
    reveal_strlit("Installers");
    assert("Images"@[0] == 'I' && "Videos"@[0] == 'V' && "Music"@[0] == 'M' && "Documents"@[0]
        == 'D' && "Archives"@[0] == 'A' && "Installers"@[0] == 'I');
    assert("Photos"@[0] == 'P' && "Audio"@[1] == 'u' && "Archives"@[1] == 'r' && "PDFs"@[0] == 'P'
        && "Spreadsheets"@[0] == 'S' && "Code"@[0] == 'C' && "Images"@[1] == 'm'
        && "Installers"@[1] == 'n');
    let found = choose|found: DirsView|
        looked_up(found) && r@ == #[trigger] category_base(category@, found);
    assert(looked_up(found) && r@ == category_base(category@, found));
    assert(seq![PartView::CurDir].push(PartView::Normal("Sortd"@)) =~= seq![
        PartView::CurDir,
        PartView::Normal("Sortd"@),
    ]);
}

/// The library's own folder is directly below the documents, and an error where
/// there are none.
pub proof fn law_own_folder_is_in_the_documents(
    document: Option<FilePath>,
    r: Result<FilePath, String>,
    opened: Result<FilePath, String>,
)
    requires
        call_ensures(sortd_folder, (document,), r),
        call_ensures(open_sortd_folder, (), opened),
    ensures
        match document {
            Some(d) => r matches Ok(p) && p@ == d@.push(PartView::Normal("Sortd"@)),
            None => r matches Err(e) && e@ == "Cannot resolve Documents folder"@,
        },
        exists|found: Option<PathBuf>| #[trigger]
            call_ensures(dirs::document_dir, (), found) && match found {
                Some(d) => opened matches Ok(p) && p@ == path_buf_parts(d).push(
                    PartView::Normal("Sortd"@),
                ),
                None => opened matches Err(e) && e@ == "Cannot resolve Documents folder"@,
            },
{
}

/// The folder that a portable suggestion leads to is that of the suggestion,
/// first made safe and then stripped.
pub proof fn law_suggestion_is_made_safe_and_stripped(
    category: &str,
    suggested: &str,
    safe: String,
    safe_text: &str,
    stripped_text: String,
    folder_text: &str,
    folder: FilePath,
    r: FilePath,
)
    requires
        portable(suggested@),
        call_ensures(sanitize_folder_path, (suggested,), safe),
        safe_text@ == safe@,
        call_ensures(strip_redundant_prefix, (category, safe_text), stripped_text),
        folder_text@ == stripped_text@,
        call_ensures(FilePath::from_text, (folder_text,), folder),
        call_ensures(destination_folder, (category, suggested), r),
    ensures
        stripped_text@.len() == 0 ==> r@.len() == 0,
        stripped_text@.len() > 0 ==> r@ == folder@,
{
    law_safe_folder_holds_safe_names(category@, slash_components(suggested@));
}

/// A suggestion of plain names of which the first does not repeat is followed
/// name by name.
pub proof fn law_plain_suggestion_is_followed(
    category: &str,
    suggested: &str,
    names: Seq<Seq<char>>,
    r: FilePath,
)
    requires
        names.len() > 0,
        forall|i: int| 0 <= i < names.len() ==> plain(PartView::Normal(#[trigger] names[i])),
        suggested@ == join(names, '/'),
        !repeats(category@, names[0]),
        call_ensures(destination_folder, (category, suggested), r),
    ensures
        r@ == names.map_values(|n: Seq<char>| PartView::Normal(n)),
{
    assert forall|i: int| 0 <= i < names.len() implies safe_name(#[trigger] names[i])
        && !names[i].contains('/') by {
        lemma_plain_is_safe(PartView::Normal(names[i]));
        lemma_safe_name_is_plain(names[i]);
    }
    law_split_undoes_join(names, '/');
    lemma_safe_pieces_are_portable(suggested@);
    lemma_parts_of_safe_names(names);
    lemma_safe_names_are_kept(names);
    let folder = safe_folder(category@, slash_components(suggested@));
    assert(sanitized(slash_components(suggested@)) == suggested@);
    law_join_undoes_split(suggested@, '/');
    assert(folder == suggested@);
    lemma_chars_of_safe_pieces(suggested@);
    assert(suggested@.len() > 0) by {
        if suggested@.len() == 0 {
            assert(split(suggested@, '/')[0].len() == 0);
            assert(names[0].len() > 0);
        }
    }
}

/// A file goes below the base folder, into the folder, under its name.
pub proof fn law_destination_is_put_together(
    base: FilePath,
    folder: FilePath,
    name: FilePath,
    r: FilePath,
)
    requires
        folder@.len() > 0 ==> folder@[0] is Normal,
        name@.len() == 1,
        name@[0] is Normal || name@[0] is Foreign,
        call_ensures(destination_path, (&base, &folder, &name), r),
    ensures
        r@ == base@ + folder@ + name@,
{
    if folder@.len() == 0 {
        assert(base@ + folder@ =~= base@);
    }
}

/// The destination is reached in two steps, from the base folder to the folder
/// and from there to the name.
pub proof fn law_destination_is_reached_in_two_steps(
    base: FilePath,
    folder: FilePath,
    name: FilePath,
    halfway: FilePath,
    end: FilePath,
    r: FilePath,
)
    requires
        call_ensures(FilePath::join, (&base, &folder), halfway),
        call_ensures(FilePath::join, (&halfway, &name), end),
        call_ensures(destination_path, (&base, &folder, &name), r),
    ensures
        r@ == end@,
{
}

} // verus!
