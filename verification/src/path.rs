//! Paths as the sequence of their components, and what the rules read of them.
use vstd::prelude::*;
use vstd::utf8::{decode_utf8, valid_utf8};
use std::path::{Component, PathBuf};
use crate::text::{
    lemma_split_extend, lemma_split_nonempty, lemma_split_single, same_text, split,
};

verus! {

/// One component of a path.
pub enum PathPart {
    /// A drive or share at the front of a path, such as `C:`.
    Prefix(String),
    /// A drive or share that is not valid Unicode, in the operating system's
    /// encoding.
    ForeignPrefix(Vec<u8>),
    /// The root that an absolute path starts from.
    RootDir,
    /// A `.` at the front of a relative path.
    CurDir,
    /// A `..`.
    ParentDir,
    /// A file or directory name.
    Normal(String),
    /// A file or directory name that is not valid Unicode, in the operating
    /// system's encoding.
    Foreign(Vec<u8>),
}

/// The value of a path component.
#[verifier::ext_equal]
pub enum PartView {
    Prefix(Seq<char>),
    ForeignPrefix(Seq<u8>),
    RootDir,
    CurDir,
    ParentDir,
    Normal(Seq<char>),
    Foreign(Seq<u8>),
}

impl View for PathPart {
    type V = PartView;

    open spec fn view(&self) -> PartView {
        match self {
            PathPart::Prefix(t) => PartView::Prefix(t@),
            PathPart::ForeignPrefix(b) => PartView::ForeignPrefix(b@),
            PathPart::RootDir => PartView::RootDir,
            PathPart::CurDir => PartView::CurDir,
            PathPart::ParentDir => PartView::ParentDir,
            PathPart::Normal(t) => PartView::Normal(t@),
            PathPart::Foreign(b) => PartView::Foreign(b@),
        }
    }
}

/// The same bytes.
fn copy_bytes(bytes: &Vec<u8>) -> (r: Vec<u8>)
    ensures
        r@ == bytes@,
{
    let copy: Vec<u8> = bytes.clone();
    proof {
        assert(copy@ =~= bytes@);
    }
    copy
}

impl Clone for PathPart {
    fn clone(&self) -> (r: Self)
        ensures
            r@ == self@,
    {
        match self {
            PathPart::Prefix(t) => PathPart::Prefix(t.clone()),
            PathPart::ForeignPrefix(b) => PathPart::ForeignPrefix(copy_bytes(b)),
            PathPart::RootDir => PathPart::RootDir,
            PathPart::CurDir => PathPart::CurDir,
            PathPart::ParentDir => PathPart::ParentDir,
            PathPart::Normal(t) => PathPart::Normal(t.clone()),
            PathPart::Foreign(b) => PathPart::Foreign(copy_bytes(b)),
        }
    }
}

/// The values of a list of components.
pub open spec fn parts_view(parts: Seq<PathPart>) -> Seq<PartView> {
    parts.map_values(|p: PathPart| p@)
}

/// The position of the last `dot` in `name`, or -1 where there is none.
pub open spec fn last_dot<A>(name: Seq<A>, dot: A) -> int
    decreases name.len(),
{
    if name.len() == 0 {
        -1
    } else if name.last() == dot {
        name.len() - 1
    } else {
        last_dot(name.drop_last(), dot)
    }
}

/// What follows the last dot of a name; nothing where the name holds no dot
/// but perhaps one in front.
pub open spec fn name_extension<A>(name: Seq<A>, dot: A) -> Option<Seq<A>> {
    if last_dot(name, dot) <= 0 {
        None
    } else {
        Some(name.skip(last_dot(name, dot) + 1))
    }
}

/// A name without its extension.
pub open spec fn name_stem<A>(name: Seq<A>, dot: A) -> Seq<A> {
    if last_dot(name, dot) <= 0 {
        name
    } else {
        name.take(last_dot(name, dot))
    }
}

/// The text that bytes encode, where they are valid UTF-8.
pub open spec fn decoded(bytes: Seq<u8>) -> Option<Seq<char>> {
    if valid_utf8(bytes) {
        Some(decode_utf8(bytes))
    } else {
        None
    }
}

/// The dot of a name in bytes.
pub const DOT: u8 = 46;

/// The last component, where that is a name.
pub open spec fn file_name(path: Seq<PartView>) -> Option<PartView> {
    if path.len() > 0 && (path.last() is Normal || path.last() is Foreign) {
        Some(path.last())
    } else {
        None
    }
}

/// The name that a path ends in, where it is valid Unicode.
pub open spec fn file_name_text(path: Seq<PartView>) -> Option<Seq<char>> {
    match file_name(path) {
        Some(PartView::Normal(t)) => Some(t),
        _ => None,
    }
}

/// The extension of the name that a path ends in, where it is valid Unicode.
pub open spec fn extension_text(path: Seq<PartView>) -> Option<Seq<char>> {
    match file_name(path) {
        Some(PartView::Normal(t)) => name_extension(t, '.'),
        Some(PartView::Foreign(b)) => match name_extension(b, DOT) {
            Some(e) => decoded(e),
            None => None,
        },
        _ => None,
    }
}

/// The name that a path ends in without its extension, where that is valid
/// Unicode.
pub open spec fn stem_text(path: Seq<PartView>) -> Option<Seq<char>> {
    match file_name(path) {
        Some(PartView::Normal(t)) => Some(name_stem(t, '.')),
        Some(PartView::Foreign(b)) => decoded(name_stem(b, DOT)),
        _ => None,
    }
}

/// Whether a component is a drive or share.
pub open spec fn is_drive(part: PartView) -> bool {
    part is Prefix || part is ForeignPrefix
}

/// The path without its last component; nothing for a root or an empty path.
pub open spec fn parent(path: Seq<PartView>) -> Option<Seq<PartView>> {
    if path.len() == 0 || is_drive(path.last()) || path.last() is RootDir {
        None
    } else {
        Some(path.drop_last())
    }
}

/// Whether the components of `base` are the first ones of `path`.
pub open spec fn starts_with(path: Seq<PartView>, base: Seq<PartView>) -> bool {
    base.len() <= path.len() && path.take(base.len() as int) == base
}

/// A path read from another one: that path followed by it, where it is
/// relative; what is absolute replaces the other one, but for the drive that
/// it does not name itself.
pub open spec fn joined(base: Seq<PartView>, sub: Seq<PartView>) -> Seq<PartView> {
    if sub.len() > 0 && is_drive(sub[0]) {
        sub
    } else if sub.len() > 0 && sub[0] is RootDir {
        if base.len() > 0 && is_drive(base[0]) {
            seq![base[0]] + sub
        } else {
            sub
        }
    } else if sub.len() > 0 && sub[0] is CurDir && base.len() > 0 {
        base + sub.skip(1)
    } else {
        base + sub
    }
}

/// The components that the pieces of a text between slashes stand for.
/// An empty piece stands for none, a dot only for the start of the path.
pub open spec fn slash_parts(pieces: Seq<Seq<char>>) -> Seq<PartView>
    decreases pieces.len(),
{
    if pieces.len() == 0 {
        Seq::empty()
    } else {
        let before = slash_parts(pieces.drop_last());
        let piece = pieces.last();
        if piece.len() == 0 {
            before
        } else if piece == seq!['.'] {
            if pieces.len() == 1 {
                before.push(PartView::CurDir)
            } else {
                before
            }
        } else if piece == seq!['.', '.'] {
            before.push(PartView::ParentDir)
        } else {
            before.push(PartView::Normal(piece))
        }
    }
}

/// The components of a path where the slash alone separates names.
pub open spec fn slash_components(text: Seq<char>) -> Seq<PartView> {
    if text.len() > 0 && text[0] == '/' {
        seq![PartView::RootDir] + slash_parts(split(text, '/'))
    } else {
        slash_parts(split(text, '/'))
    }
}

/// Whether every platform reads the components of a text alike: it holds no
/// backslash and no colon, and does not begin with two slashes.
pub open spec fn portable(text: Seq<char>) -> bool {
    &&& !text.contains('\\')
    &&& !text.contains(':')
    &&& !(text.len() >= 2 && text[0] == '/' && text[1] == '/')
}

/// The components of a path that is made of a text on Windows, where
/// backslashes separate names too and a drive or share may stand in front.
pub uninterp spec fn windows_components(text: Seq<char>) -> Seq<PartView>;

/// Whether `path` is what a text reads as: the same on every platform for a
/// portable text, and for any other what one of the two kinds of platform
/// makes of it.
pub open spec fn reads_as(text: Seq<char>, path: Seq<PartView>) -> bool {
    path == slash_components(text) || (!portable(text) && path == windows_components(text))
}

/// The operating system's own path type.
#[verifier::external_type_specification]
#[verifier::external_body]
pub struct ExPathBuf(PathBuf);

/// One component of a path of the operating system, in its encoding.
enum RawPart {
    Prefix(Vec<u8>),
    RootDir,
    CurDir,
    ParentDir,
    Normal(Vec<u8>),
}

/// The value of a component in the operating system's encoding.
pub enum RawView {
    Prefix(Seq<u8>),
    RootDir,
    CurDir,
    ParentDir,
    Normal(Seq<u8>),
}

impl View for RawPart {
    type V = RawView;

    closed spec fn view(&self) -> RawView {
        match self {
            RawPart::Prefix(b) => RawView::Prefix(b@),
            RawPart::RootDir => RawView::RootDir,
            RawPart::CurDir => RawView::CurDir,
            RawPart::ParentDir => RawView::ParentDir,
            RawPart::Normal(b) => RawView::Normal(b@),
        }
    }
}

/// The components that a path of the operating system consists of, in its
/// encoding.
pub uninterp spec fn path_buf_components(path: PathBuf) -> Seq<RawView>;

/// What a component in the operating system's encoding stands for.
pub open spec fn part_of(raw: RawView) -> PartView {
    match raw {
        RawView::Prefix(b) => match decoded(b) {
            Some(t) => PartView::Prefix(t),
            None => PartView::ForeignPrefix(b),
        },
        RawView::RootDir => PartView::RootDir,
        RawView::CurDir => PartView::CurDir,
        RawView::ParentDir => PartView::ParentDir,
        RawView::Normal(b) => match decoded(b) {
            Some(t) => PartView::Normal(t),
            None => PartView::Foreign(b),
        },
    }
}

/// The components that a path of the operating system consists of.
pub open spec fn path_buf_parts(path: PathBuf) -> Seq<PartView> {
    path_buf_components(path).map_values(|p: RawView| part_of(p))
}

/// `Path::components` on a path of the operating system, with the names in its
/// encoding. Claimed of it: the components depend on the path alone.
#[verifier::external_body]
fn raw_components(path: &PathBuf) -> (r: Vec<RawPart>)
    ensures
        r@.map_values(|p: RawPart| p@) == path_buf_components(*path),
{
    path.components().map(|c| match c {
        Component::Prefix(p) => RawPart::Prefix(p.as_os_str().as_encoded_bytes().to_vec()),
        Component::RootDir => RawPart::RootDir,
        Component::CurDir => RawPart::CurDir,
        Component::ParentDir => RawPart::ParentDir,
        Component::Normal(n) => RawPart::Normal(n.as_encoded_bytes().to_vec()),
    }).collect()
}

/// `PathBuf::from` on a text. Claimed of it: where the slash alone separates
/// names, and for every portable text, the path consists of the components of
/// `slash_components`; on Windows what it consists of depends on the text
/// alone.
#[verifier::external_body]
fn path_of_text(text: &str) -> (r: PathBuf)
    ensures
        path_buf_parts(r) == slash_components(text@) || (!portable(text@) && path_buf_parts(r)
            == windows_components(text@)),
{
    PathBuf::from(text)
}

/// The text that a path of the operating system is shown as.
pub uninterp spec fn path_buf_text(path: PathBuf) -> Seq<char>;

/// Whether every component of a path, a drive or share too, is valid Unicode.
pub open spec fn unicode_path(path: PathBuf) -> bool {
    forall|i: int|
        0 <= i < path_buf_components(path).len() ==> match #[trigger] path_buf_components(path)[i] {
            RawView::Prefix(b) => valid_utf8(b),
            RawView::Normal(b) => valid_utf8(b),
            _ => true,
        }
}

/// `Path::to_string_lossy`. Claimed of it: the text depends on the path alone,
/// and where every component of the path is valid Unicode, the path is what
/// the text reads as.
#[verifier::external_body]
pub(crate) fn path_text(path: &PathBuf) -> (r: String)
    ensures
        r@ == path_buf_text(*path),
        unicode_path(*path) ==> reads_as(r@, path_buf_parts(*path)),
{
    path.to_string_lossy().into_owned()
}

/// The text that the name which a path ends in is shown as.
pub uninterp spec fn path_buf_name(path: PathBuf) -> Seq<char>;

/// `Path::file_name`, the name as a text with replacement characters for what
/// is not valid Unicode. Claimed of it: there is one where the path ends in a
/// name, the text depends on the path alone, and it is the name itself where
/// that is valid Unicode.
#[verifier::external_body]
pub(crate) fn name_text(path: &PathBuf) -> (r: Option<String>)
    ensures
        r is Some <==> file_name(path_buf_parts(*path)) is Some,
        r matches Some(t) ==> t@ == path_buf_name(*path),
        r matches Some(t) ==> (file_name_text(path_buf_parts(*path)) matches Some(n) ==> t@ == n),
{
    path.file_name().map(|n| n.to_string_lossy().into_owned())
}

/// What a component in the operating system's encoding stands for.
fn read_part(raw: &RawPart) -> (r: PathPart)
    ensures
        r@ == part_of(raw@),
{
    match raw {
        RawPart::Prefix(b) => match utf8_text(b.as_slice()) {
            Some(t) => PathPart::Prefix(t),
            None => PathPart::ForeignPrefix(copy_bytes(b)),
        },
        RawPart::RootDir => PathPart::RootDir,
        RawPart::CurDir => PathPart::CurDir,
        RawPart::ParentDir => PathPart::ParentDir,
        RawPart::Normal(b) => match utf8_text(b.as_slice()) {
            Some(t) => PathPart::Normal(t),
            None => PathPart::Foreign(copy_bytes(b)),
        },
    }
}

/// `std::str::from_utf8`, copied into a string. Claimed of it: it succeeds on
/// valid UTF-8 alone, and then gives the text that the bytes encode.
#[verifier::external_body]
fn utf8_text(bytes: &[u8]) -> (r: Option<String>)
    ensures
        r is Some <==> valid_utf8(bytes@),
        r matches Some(t) ==> t@ == decode_utf8(bytes@),
{
    std::str::from_utf8(bytes).ok().map(|t| t.to_owned())
}

/// The position after the last dot of a text; zero where there is none.
fn after_last_dot(name: &str) -> (r: usize)
    ensures
        r == last_dot(name@, '.') + 1,
        r <= name@.len(),
{
    let mut end: usize = name.unicode_len();
    proof {
        assert(name@.take(end as int) =~= name@);
    }
    while end > 0
        invariant
            end <= name@.len(),
            last_dot(name@.take(end as int), '.') == last_dot(name@, '.'),
        decreases end,
    {
        proof {
            assert(name@.take(end as int).drop_last() =~= name@.take(end - 1));
        }
        if name.get_char(end - 1) == '.' {
            return end;
        }
        end = end - 1;
    }
    0
}

/// The position after the last dot of a name in bytes; zero where there is
/// none.
fn after_last_dot_byte(name: &Vec<u8>) -> (r: usize)
    ensures
        r == last_dot(name@, DOT) + 1,
        r <= name@.len(),
{
    let mut end: usize = name.len();
    proof {
        assert(name@.take(end as int) =~= name@);
    }
    while end > 0
        invariant
            end <= name@.len(),
            last_dot(name@.take(end as int), DOT) == last_dot(name@, DOT),
        decreases end,
    {
        proof {
            assert(name@.take(end as int).drop_last() =~= name@.take(end - 1));
        }
        if name[end - 1] == DOT {
            return end;
        }
        end = end - 1;
    }
    0
}

/// Whether two lists of bytes are the same.
fn same_bytes(a: &Vec<u8>, b: &Vec<u8>) -> (r: bool)
    ensures
        r == (a@ == b@),
{
    if a.len() != b.len() {
        return false;
    }
    let mut at: usize = 0;
    while at < a.len()
        invariant
            a@.len() == b@.len(),
            at <= a@.len(),
            forall|i: int| 0 <= i < at ==> a@[i] == b@[i],
        decreases a@.len() - at,
    {
        if a[at] != b[at] {
            return false;
        }
        at = at + 1;
    }
    proof {
        assert(a@ =~= b@);
    }
    true
}

/// Whether two components are the same.
fn same_part(a: &PathPart, b: &PathPart) -> (r: bool)
    ensures
        r == (a@ == b@),
{
    match (a, b) {
        (PathPart::Prefix(s), PathPart::Prefix(t)) => same_text(s.as_str(), t.as_str()),
        (PathPart::ForeignPrefix(s), PathPart::ForeignPrefix(t)) => same_bytes(s, t),
        (PathPart::RootDir, PathPart::RootDir) => true,
        (PathPart::CurDir, PathPart::CurDir) => true,
        (PathPart::ParentDir, PathPart::ParentDir) => true,
        (PathPart::Normal(s), PathPart::Normal(t)) => same_text(s.as_str(), t.as_str()),
        (PathPart::Foreign(s), PathPart::Foreign(t)) => same_bytes(s, t),
        _ => false,
    }
}

/// A path, as its components.
pub struct FilePath {
    pub parts: Vec<PathPart>,
}

impl View for FilePath {
    type V = Seq<PartView>;

    open spec fn view(&self) -> Seq<PartView> {
        parts_view(self.parts@)
    }
}

impl Clone for FilePath {
    fn clone(&self) -> (r: Self)
        ensures
            r@ == self@,
    {
        let mut parts: Vec<PathPart> = Vec::new();
        let mut at: usize = 0;
        while at < self.parts.len()
            invariant
                at <= self.parts@.len(),
                parts_view(parts@) == parts_view(self.parts@).take(at as int),
            decreases self.parts@.len() - at,
        {
            let ghost done = parts_view(parts@);
            parts.push(self.parts[at].clone());
            at = at + 1;
            proof {
                assert(parts_view(parts@) =~= done.push(self.parts@[at - 1]@));
                assert(parts_view(self.parts@).take(at as int) =~= done.push(
                    self.parts@[at - 1]@,
                ));
            }
        }
        proof {
            assert(parts_view(self.parts@).take(at as int) =~= parts_view(self.parts@));
        }
        FilePath { parts }
    }
}

impl FilePath {
    /// The path that a text reads as on this platform.
    pub fn from_text(text: &str) -> (r: FilePath)
        ensures
            reads_as(text@, r@),
            portable(text@) ==> r@ == slash_components(text@),
    {
        FilePath::from_path_buf(&path_of_text(text))
    }

    /// The components of a path of the operating system.
    pub fn from_path_buf(path: &PathBuf) -> (r: FilePath)
        ensures
            r@ == path_buf_parts(*path),
    {
        let raw: Vec<RawPart> = raw_components(path);
        let mut parts: Vec<PathPart> = Vec::new();
        let mut at: usize = 0;
        let ghost all = raw@.map_values(|p: RawPart| p@);
        while at < raw.len()
            invariant
                at <= raw@.len(),
                all == raw@.map_values(|p: RawPart| p@),
                parts@.len() == at,
                forall|i: int| 0 <= i < at ==> (#[trigger] parts@[i])@ == part_of(raw@[i]@),
            decreases raw@.len() - at,
        {
            parts.push(read_part(&raw[at]));
            at = at + 1;
        }
        proof {
            assert(parts_view(parts@) =~= all.map_values(|p: RawView| part_of(p)));
        }
        FilePath { parts }
    }

    /// The name that the path ends in, as a path of its own.
    pub fn last_name(&self) -> (r: Option<FilePath>)
        ensures
            r is Some <==> file_name(self@) is Some,
            r matches Some(p) ==> p@ == seq![file_name(self@)->0],
    {
        if self.parts.len() == 0 {
            return None;
        }
        let last: &PathPart = &self.parts[self.parts.len() - 1];
        let named: bool = match last {
            PathPart::Normal(_) => true,
            PathPart::Foreign(_) => true,
            _ => false,
        };
        if named {
            let mut parts: Vec<PathPart> = Vec::new();
            parts.push(last.clone());
            proof {
                assert(parts_view(parts@) =~= seq![file_name(self@)->0]);
            }
            Some(FilePath { parts })
        } else {
            None
        }
    }

    /// The name that the path ends in, where it is valid Unicode.
    pub fn file_name(&self) -> (r: Option<String>)
        ensures
            r is Some <==> file_name_text(self@) is Some,
            r matches Some(t) ==> file_name_text(self@) == Some(t@),
    {
        if self.parts.len() == 0 {
            return None;
        }
        match &self.parts[self.parts.len() - 1] {
            PathPart::Normal(t) => Some(t.clone()),
            _ => None,
        }
    }

    /// The extension of the name that the path ends in, where it is valid
    /// Unicode.
    pub fn extension(&self) -> (r: Option<String>)
        ensures
            r is Some <==> extension_text(self@) is Some,
            r matches Some(t) ==> extension_text(self@) == Some(t@),
    {
        if self.parts.len() == 0 {
            return None;
        }
        match &self.parts[self.parts.len() - 1] {
            PathPart::Normal(t) => {
                let at: usize = after_last_dot(t.as_str());
                if at <= 1 {
                    None
                } else {
                    let len: usize = t.as_str().unicode_len();
                    proof {
                        assert(t@.skip(at as int) =~= t@.subrange(at as int, len as int));
                    }
                    Some(t.as_str().substring_char(at, len).to_owned())
                }
            },
            PathPart::Foreign(b) => {
                let at: usize = after_last_dot_byte(b);
                if at <= 1 {
                    None
                } else {
                    let tail = vstd::slice::slice_subrange(b.as_slice(), at, b.len());
                    proof {
                        assert(b@.skip(at as int) =~= tail@);
                    }
                    utf8_text(tail)
                }
            },
            _ => None,
        }
    }

    /// The name that the path ends in without its extension, where that is
    /// valid Unicode.
    pub fn file_stem(&self) -> (r: Option<String>)
        ensures
            r is Some <==> stem_text(self@) is Some,
            r matches Some(t) ==> stem_text(self@) == Some(t@),
    {
        if self.parts.len() == 0 {
            return None;
        }
        match &self.parts[self.parts.len() - 1] {
            PathPart::Normal(t) => {
                let at: usize = after_last_dot(t.as_str());
                if at <= 1 {
                    Some(t.clone())
                } else {
                    proof {
                        assert(t@.take(at - 1) =~= t@.subrange(0, at - 1));
                    }
                    Some(t.as_str().substring_char(0, at - 1).to_owned())
                }
            },
            PathPart::Foreign(b) => {
                let at: usize = after_last_dot_byte(b);
                if at <= 1 {
                    utf8_text(b.as_slice())
                } else {
                    let head = vstd::slice::slice_subrange(b.as_slice(), 0, at - 1);
                    proof {
                        assert(b@.take(at - 1) =~= head@);
                    }
                    utf8_text(head)
                }
            },
            _ => None,
        }
    }

    /// The path without its last component; nothing for a root or an empty
    /// path.
    pub fn parent(&self) -> (r: Option<FilePath>)
        ensures
            r is Some <==> parent(self@) is Some,
            r matches Some(p) ==> parent(self@) == Some(p@),
    {
        if self.parts.len() == 0 {
            return None;
        }
        match &self.parts[self.parts.len() - 1] {
            PathPart::Prefix(_) => None,
            PathPart::ForeignPrefix(_) => None,
            PathPart::RootDir => None,
            _ => {
                let mut up: FilePath = self.clone();
                let ghost whole = up.parts@;
                let _ = up.parts.pop();
                proof {
                    assert(up@ =~= parts_view(whole).drop_last());
                }
                Some(up)
            },
        }
    }

    /// The path with one more name at its end.
    pub fn with_name(&self, name: &str) -> (r: FilePath)
        ensures
            r@ == self@.push(PartView::Normal(name@)),
    {
        let mut down: FilePath = self.clone();
        let ghost before = down@;
        down.parts.push(PathPart::Normal(name.to_owned()));
        proof {
            assert(down@ =~= before.push(PartView::Normal(name@)));
        }
        down
    }

    /// The path followed by the components of another from `from` on.
    fn followed_by(&self, sub: &FilePath, from: usize) -> (r: FilePath)
        requires
            from <= sub@.len(),
        ensures
            r@ == self@ + sub@.skip(from as int),
    {
        let mut down: FilePath = self.clone();
        let mut at: usize = from;
        proof {
            assert(down@ =~= self@ + sub@.subrange(from as int, from as int));
        }
        while at < sub.parts.len()
            invariant
                from <= at <= sub.parts@.len(),
                down@ == self@ + sub@.subrange(from as int, at as int),
            decreases sub.parts@.len() - at,
        {
            let ghost before = down@;
            down.parts.push(sub.parts[at].clone());
            at = at + 1;
            proof {
                assert(down@ =~= before.push(sub@[at - 1]));
                assert(down@ =~= self@ + sub@.subrange(from as int, at as int));
            }
        }
        proof {
            assert(sub@.subrange(from as int, at as int) =~= sub@.skip(from as int));
        }
        down
    }

    /// The path `sub` read from this one.
    pub fn join(&self, sub: &FilePath) -> (r: FilePath)
        ensures
            r@ == joined(self@, sub@),
    {
        proof {
            assert(sub@.skip(0) =~= sub@);
        }
        if sub.parts.len() == 0 {
            return self.followed_by(sub, 0);
        }
        match &sub.parts[0] {
            PathPart::Prefix(_) => sub.clone(),
            PathPart::ForeignPrefix(_) => sub.clone(),
            PathPart::RootDir => {
                if self.parts.len() == 0 {
                    return sub.clone();
                }
                let on_drive: bool = match &self.parts[0] {
                    PathPart::Prefix(_) => true,
                    PathPart::ForeignPrefix(_) => true,
                    _ => false,
                };
                if on_drive {
                    let mut parts: Vec<PathPart> = Vec::new();
                    parts.push(self.parts[0].clone());
                    proof {
                        assert(parts_view(parts@) =~= seq![self@[0]]);
                    }
                    FilePath { parts }.followed_by(sub, 0)
                } else {
                    sub.clone()
                }
            },
            PathPart::CurDir => {
                if self.parts.len() > 0 {
                    self.followed_by(sub, 1)
                } else {
                    self.followed_by(sub, 0)
                }
            },
            _ => self.followed_by(sub, 0),
        }
    }

    /// Whether the components of `base` are the first ones of the path.
    pub fn starts_with(&self, base: &FilePath) -> (r: bool)
        ensures
            r == starts_with(self@, base@),
    {
        if self.parts.len() < base.parts.len() {
            return false;
        }
        let mut at: usize = 0;
        while at < base.parts.len()
            invariant
                base.parts@.len() <= self.parts@.len(),
                at <= base.parts@.len(),
                forall|i: int| 0 <= i < at ==> self@[i] == base@[i],
            decreases base.parts@.len() - at,
        {
            if !same_part(&self.parts[at], &base.parts[at]) {
                proof {
                    assert(self@[at as int] != base@[at as int]);
                    assert(self@.take(base@.len() as int)[at as int] == self@[at as int]);
                }
                return false;
            }
            at = at + 1;
        }
        proof {
            assert(self@.take(base@.len() as int) =~= base@);
        }
        true
    }

    /// Whether two paths have the same components.
    pub fn same(&self, other: &FilePath) -> (r: bool)
        ensures
            r == (self@ == other@),
    {
        let r: bool = self.parts.len() == other.parts.len() && self.starts_with(other);
        proof {
            assert(self@.take(self@.len() as int) =~= self@);
        }
        r
    }
}

// Laws

/// The last dot of a name with a stem and an extension stands between them.
pub proof fn lemma_dot_between<A>(stem: Seq<A>, extension: Seq<A>, dot: A)
    requires
        !extension.contains(dot),
    ensures
        last_dot(stem.push(dot) + extension, dot) == stem.len(),
    decreases extension.len(),
{
    let name = stem.push(dot) + extension;
    if extension.len() == 0 {
        assert(name =~= stem.push(dot));
    } else {
        let front = extension.drop_last();
        assert(!front.contains(dot)) by {
            if front.contains(dot) {
                let k = choose|k: int| 0 <= k < front.len() && front[k] == dot;
                assert(extension[k] == dot);
            }
        }
        lemma_dot_between(stem, front, dot);
        assert(name.drop_last() =~= stem.push(dot) + front);
        assert(extension[extension.len() - 1] != dot);
    }
}

/// A name without a dot after its first character has no last dot there.
pub proof fn lemma_no_dot<A>(name: Seq<A>, dot: A)
    requires
        forall|i: int| 1 <= i < name.len() ==> name[i] != dot,
    ensures
        last_dot(name, dot) <= 0,
    decreases name.len(),
{
    if name.len() > 0 {
        lemma_no_dot(name.drop_last(), dot);
    }
}

/// The extension of a name is what follows its last dot and the stem what
/// stands before it, where anything stands before it.
pub proof fn law_extension_follows_the_last_dot(
    p: FilePath,
    stem: Seq<char>,
    extension: Seq<char>,
    name: Option<String>,
    read_stem: Option<String>,
    read_extension: Option<String>,
)
    requires
        p@.len() > 0,
        p@.last() == PartView::Normal(stem.push('.') + extension),
        stem.len() > 0,
        !extension.contains('.'),
        call_ensures(FilePath::file_name, (&p,), name),
        call_ensures(FilePath::file_stem, (&p,), read_stem),
        call_ensures(FilePath::extension, (&p,), read_extension),
    ensures
        name matches Some(t) && t@ == stem.push('.') + extension,
        read_stem matches Some(t) && t@ == stem,
        read_extension matches Some(t) && t@ == extension,
        extension_text(p@) == Some(extension),
        stem_text(p@) == Some(stem),
{
    let whole = stem.push('.') + extension;
    lemma_dot_between(stem, extension, '.');
    assert(whole.skip(stem.len() as int + 1) =~= extension);
    assert(whole.take(stem.len() as int) =~= stem);
}

/// The extension of a name that is not valid Unicode is the text that the bytes
/// after its last dot encode, if they do; and so is the stem.
pub proof fn law_extension_of_a_foreign_name(
    p: FilePath,
    stem: Seq<u8>,
    extension: Seq<u8>,
    name: Option<String>,
    read_stem: Option<String>,
    read_extension: Option<String>,
)
    requires
        p@.len() > 0,
        p@.last() == PartView::Foreign(stem.push(46) + extension),
        stem.len() > 0,
        !extension.contains(46),
        call_ensures(FilePath::file_name, (&p,), name),
        call_ensures(FilePath::file_stem, (&p,), read_stem),
        call_ensures(FilePath::extension, (&p,), read_extension),
    ensures
        name is None,
        read_stem is Some <==> valid_utf8(stem),
        read_stem matches Some(t) ==> t@ == decode_utf8(stem),
        read_extension is Some <==> valid_utf8(extension),
        read_extension matches Some(t) ==> t@ == decode_utf8(extension),
{
    let whole = stem.push(46u8) + extension;
    lemma_dot_between(stem, extension, 46u8);
    assert(whole.skip(stem.len() as int + 1) =~= extension);
    assert(whole.take(stem.len() as int) =~= stem);
}

/// A name without a dot, but perhaps one in front, has no extension, and is its
/// own stem.
pub proof fn law_name_without_an_extension(
    p: FilePath,
    name: Seq<char>,
    read_stem: Option<String>,
    read_extension: Option<String>,
)
    requires
        p@.len() > 0,
        p@.last() == PartView::Normal(name),
        forall|i: int| 1 <= i < name.len() ==> name[i] != '.',
        call_ensures(FilePath::file_stem, (&p,), read_stem),
        call_ensures(FilePath::extension, (&p,), read_extension),
    ensures
        read_stem matches Some(t) && t@ == name,
        read_extension is None,
        extension_text(p@) is None,
        stem_text(p@) == Some(name),
{
    lemma_no_dot(name, '.');
}

/// A path that does not end in a name has neither a name nor an extension nor a
/// stem.
pub proof fn law_only_names_have_extensions(
    p: FilePath,
    name: Option<String>,
    last: Option<FilePath>,
    read_stem: Option<String>,
    read_extension: Option<String>,
)
    requires
        p@.len() == 0 || !(p@.last() is Normal || p@.last() is Foreign),
        call_ensures(FilePath::file_name, (&p,), name),
        call_ensures(FilePath::last_name, (&p,), last),
        call_ensures(FilePath::file_stem, (&p,), read_stem),
        call_ensures(FilePath::extension, (&p,), read_extension),
    ensures
        name is None,
        last is None,
        read_stem is None,
        read_extension is None,
{
}

/// The name that was added to a path is the one that it ends in, and without it
/// the path is as before.
pub proof fn law_parent_undoes_adding_a_name(
    p: FilePath,
    name: &str,
    down: FilePath,
    up: Option<FilePath>,
    read: Option<String>,
    last: Option<FilePath>,
)
    requires
        call_ensures(FilePath::with_name, (&p, name), down),
        call_ensures(FilePath::parent, (&down,), up),
        call_ensures(FilePath::file_name, (&down,), read),
        call_ensures(FilePath::last_name, (&down,), last),
    ensures
        down@.len() == p@.len() + 1,
        up matches Some(u) && u@ == p@,
        read matches Some(t) && t@ == name@,
        last matches Some(l) && l@ == seq![PartView::Normal(name@)],
{
    assert(down@.drop_last() =~= p@);
}

/// Every path but an empty one, a root and a drive has a parent, which lacks
/// its last component alone.
pub proof fn law_parent_lacks_the_last_component(p: FilePath, up: Option<FilePath>)
    requires
        call_ensures(FilePath::parent, (&p,), up),
    ensures
        up is None <==> p@.len() == 0 || p@.last() is RootDir || p@.last() is Prefix
            || p@.last() is ForeignPrefix,
        up matches Some(u) ==> p@ == u@.push(p@.last()),
        up matches Some(u) ==> parent(p@) == Some(u@),
{
    if p@.len() > 0 {
        assert(p@ =~= p@.drop_last().push(p@.last()));
    }
}

/// A path begins with another where it is that one followed by something.
pub proof fn law_path_begins_with_its_base(p: FilePath, base: FilePath, r: bool)
    requires
        call_ensures(FilePath::starts_with, (&p, &base), r),
    ensures
        r <==> exists|rest: Seq<PartView>| p@ == #[trigger] (base@ + rest),
        r == starts_with(p@, base@),
{
    if r {
        let rest = p@.skip(base@.len() as int);
        assert(p@ =~= base@ + rest);
    }
    if exists|rest: Seq<PartView>| p@ == #[trigger] (base@ + rest) {
        let rest = choose|rest: Seq<PartView>| p@ == #[trigger] (base@ + rest);
        assert((base@ + rest).take(base@.len() as int) =~= base@);
    }
}

/// Two paths are the same where their components are.
pub proof fn law_same_paths(p: FilePath, other: FilePath, r: bool)
    requires
        call_ensures(FilePath::same, (&p, &other), r),
    ensures
        r <==> p@.len() == other@.len() && forall|i: int| 0 <= i < p@.len() ==> p@[i] == other@[i],
{
    if p@.len() == other@.len() && forall|i: int| 0 <= i < p@.len() ==> p@[i] == other@[i] {
        assert(p@ =~= other@);
    }
}

/// A relative path read from another follows it; an absolute one takes its
/// place, but stays on its drive where it names none.
pub proof fn law_relative_paths_follow_the_base(base: FilePath, sub: FilePath, r: FilePath)
    requires
        call_ensures(FilePath::join, (&base, &sub), r),
    ensures
        sub@.len() == 0 ==> r@ == base@,
        sub@.len() > 0 && (sub@[0] is Normal || sub@[0] is Foreign || sub@[0] is ParentDir) ==> r@
            == base@ + sub@,
        sub@.len() > 0 && sub@[0] is CurDir && base@.len() > 0 ==> r@ == base@ + sub@.skip(1),
        sub@.len() > 0 && sub@[0] is CurDir && base@.len() == 0 ==> r@ == sub@,
        sub@.len() > 0 && (sub@[0] is Prefix || sub@[0] is ForeignPrefix) ==> r@ == sub@,
        sub@.len() > 0 && sub@[0] is RootDir && (base@.len() == 0 || !(base@[0] is Prefix
            || base@[0] is ForeignPrefix)) ==> r@ == sub@,
        sub@.len() > 0 && sub@[0] is RootDir && base@.len() > 0 && (base@[0] is Prefix
            || base@[0] is ForeignPrefix) ==> r@ == seq![base@[0]] + sub@,
        r@ == joined(base@, sub@),
{
    if sub@.len() == 0 {
        assert(base@ + sub@ =~= base@);
    }
    if base@.len() == 0 {
        assert(base@ + sub@ =~= sub@);
    }
}

/// The components of a path of the operating system are read one by one, and
/// each as it is: as a text where it is valid UTF-8, and else as its bytes.
pub proof fn law_components_are_read_one_by_one(path: PathBuf, r: FilePath, i: int)
    requires
        call_ensures(FilePath::from_path_buf, (&path,), r),
        0 <= i < path_buf_components(path).len(),
    ensures
        r@.len() == path_buf_components(path).len(),
        r@ == path_buf_parts(path),
        match path_buf_components(path)[i] {
            RawView::RootDir => r@[i] is RootDir,
            RawView::CurDir => r@[i] is CurDir,
            RawView::ParentDir => r@[i] is ParentDir,
            RawView::Prefix(b) => if valid_utf8(b) {
                r@[i] == PartView::Prefix(decode_utf8(b))
            } else {
                r@[i] == PartView::ForeignPrefix(b)
            },
            RawView::Normal(b) => if valid_utf8(b) {
                r@[i] == PartView::Normal(decode_utf8(b))
            } else {
                r@[i] == PartView::Foreign(b)
            },
        },
{
}

/// A text is read as a path: where every platform reads it alike, as the
/// components between its slashes, and else as one of the two kinds of platform
/// does.
pub proof fn law_text_is_read_as_a_path(text: &str, r: FilePath)
    requires
        call_ensures(FilePath::from_text, (text,), r),
    ensures
        r@ == slash_components(text@) || r@ == windows_components(text@),
        !text@.contains('\\') && !text@.contains(':') && (text@.len() < 2 || text@[0] != '/'
            || text@[1] != '/') ==> r@ == slash_components(text@),
{
}

/// A text is read name by name: one that holds no slash is one component, and
/// a slash and a piece behind a text add what the piece stands for. An empty
/// piece and a dot add nothing, two dots lead up, and every other piece is a
/// name. A slash in front stands for the root.
pub proof fn law_text_is_read_name_by_name(
    text: &str,
    piece: &str,
    both: &str,
    front: FilePath,
    whole: FilePath,
    alone: FilePath,
)
    requires
        portable(text@),
        portable(both@),
        portable(piece@),
        text@.len() > 0,
        !piece@.contains('/'),
        both@ == text@.push('/') + piece@,
        call_ensures(FilePath::from_text, (text,), front),
        call_ensures(FilePath::from_text, (both,), whole),
        call_ensures(FilePath::from_text, (piece,), alone),
    ensures
        piece@ == Seq::<char>::empty() ==> whole@ == front@ && alone@ == Seq::<PartView>::empty(),
        piece@ == seq!['.'] ==> whole@ == front@ && alone@ == seq![PartView::CurDir],
        piece@ == seq!['.', '.'] ==> whole@ == front@.push(PartView::ParentDir) && alone@ == seq![
            PartView::ParentDir,
        ],
        piece@ != Seq::<char>::empty() && piece@ != seq!['.'] && piece@ != seq!['.', '.']
            ==> whole@ == front@.push(PartView::Normal(piece@)) && alone@ == seq![
            PartView::Normal(piece@),
        ],
        text@ == seq!['/'] ==> front@ == seq![PartView::RootDir],
{
    lemma_split_extend(text@, piece@, '/');
    lemma_split_nonempty(text@, '/');
    lemma_split_single(piece@, '/');
    let pieces = split(text@, '/');
    assert(split(both@, '/') == pieces.push(piece@));
    assert(pieces.push(piece@).drop_last() =~= pieces);
    assert(both@[0] == text@[0]);
    reveal_with_fuel(slash_parts, 3);
    assert(seq![piece@].drop_last() =~= Seq::<Seq<char>>::empty());
    if piece@.len() > 0 {
        assert(piece@.contains(piece@[0]));
    } else {
        assert(piece@ =~= Seq::<char>::empty());
    }
    if text@ == seq!['/'] {
        reveal_with_fuel(split, 2);
        assert(text@.drop_last() =~= Seq::<char>::empty());
        assert(pieces =~= seq![Seq::<char>::empty(), Seq::<char>::empty()]);
        assert(pieces.drop_last() =~= seq![Seq::<char>::empty()]);
        assert(pieces.drop_last().drop_last() =~= Seq::<Seq<char>>::empty());
        assert(front@ =~= seq![PartView::RootDir]);
    }
}

} // verus!
