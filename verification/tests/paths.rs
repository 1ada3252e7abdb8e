use sortd::path::{FilePath, PathPart};
use sortd::text::{because, decimal_text, join_texts, same_text, split_text};
use std::path::PathBuf;

fn shown(path: &FilePath) -> Vec<String> {
    path.parts
        .iter()
        .map(|p| match p {
            PathPart::Prefix(t) => format!("prefix {t}"),
            PathPart::ForeignPrefix(b) => format!("prefix bytes {b:?}"),
            PathPart::RootDir => "root".to_string(),
            PathPart::CurDir => "here".to_string(),
            PathPart::ParentDir => "up".to_string(),
            PathPart::Normal(t) => format!("name {t}"),
            PathPart::Foreign(b) => format!("bytes {b:?}"),
        })
        .collect()
}

fn of(text: &str) -> FilePath {
    FilePath::from_text(text)
}

#[test]
fn components_of_texts() {
    assert_eq!(shown(&of("/a/b.c")), ["root", "name a", "name b.c"]);
    assert_eq!(shown(&of("a//b/./c/")), ["name a", "name b", "name c"]);
    assert_eq!(shown(&of("./a")), ["here", "name a"]);
    assert_eq!(shown(&of("../a/..")), ["up", "name a", "up"]);
    assert_eq!(shown(&of("/./..")), ["root", "up"]);
    assert_eq!(shown(&of("")), Vec::<String>::new());
    assert_eq!(shown(&of(".")), ["here"]);
    assert_eq!(shown(&of("...")), ["name ..."]);
}

#[test]
fn components_of_operating_system_paths() {
    let mut path = PathBuf::from("/home");
    path.push("me");
    assert_eq!(shown(&FilePath::from_path_buf(&path)), ["root", "name home", "name me"]);
    assert_eq!(shown(&FilePath::from_path_buf(&PathBuf::from("./x/.."))), ["here", "name x", "up"]);
    assert_eq!(shown(&FilePath::from_path_buf(&PathBuf::from("über/été"))), ["name über", "name été"]);
}

#[test]
fn names_stems_and_extensions() {
    let cases = [
        ("/in/a.b.c", Some("a.b.c"), Some("a.b"), Some("c")),
        ("/in/a", Some("a"), Some("a"), None),
        ("/in/.a", Some(".a"), Some(".a"), None),
        ("/in/.a.b", Some(".a.b"), Some(".a"), Some("b")),
        ("/in/a.", Some("a."), Some("a"), Some("")),
        ("/in/..a", Some("..a"), Some("."), Some("a")),
        ("/in/über.tXt", Some("über.tXt"), Some("über"), Some("tXt")),
        ("/in/..", None, None, None),
        ("/", None, None, None),
        ("", None, None, None),
    ];
    for (text, name, stem, extension) in cases {
        let path = of(text);
        assert_eq!(path.file_name().as_deref(), name, "{text}");
        assert_eq!(path.file_stem().as_deref(), stem, "{text}");
        assert_eq!(path.extension().as_deref(), extension, "{text}");
        let std_path = std::path::Path::new(text);
        assert_eq!(std_path.file_stem().and_then(|s| s.to_str()), stem, "{text}");
        assert_eq!(std_path.extension().and_then(|s| s.to_str()), extension, "{text}");
    }
}

#[test]
fn names_that_are_not_unicode() {
    let with = |bytes: &[u8]| FilePath { parts: vec![PathPart::Foreign(bytes.to_vec())] };
    let path = with(&[0xff, b'.', b't', b'x', b't']);
    assert_eq!(path.file_name(), None);
    assert_eq!(path.file_stem(), None);
    assert_eq!(path.extension().as_deref(), Some("txt"));
    let path = with(&[b'a', b'.', 0xff]);
    assert_eq!(path.file_stem().as_deref(), Some("a"));
    assert_eq!(path.extension(), None);
    let path = with(&[0xff]);
    assert_eq!(path.file_stem(), None);
    assert_eq!(path.extension(), None);
    assert_eq!(shown(&path.last_name().unwrap()), ["bytes [255]"]);
}

#[test]
fn parents() {
    assert_eq!(shown(&of("/a/b").parent().unwrap()), ["root", "name a"]);
    assert_eq!(shown(&of("/a").parent().unwrap()), ["root"]);
    assert_eq!(shown(&of("a").parent().unwrap()), Vec::<String>::new());
    assert!(of("/").parent().is_none());
    assert!(of("").parent().is_none());
    let drive = FilePath { parts: vec![PathPart::Prefix("C:".to_string())] };
    assert!(drive.parent().is_none());
    let share = FilePath { parts: vec![PathPart::ForeignPrefix(vec![0xff])] };
    assert!(share.parent().is_none());
}

#[test]
fn joining_paths() {
    assert_eq!(shown(&of("/a").join(&of("b/c"))), ["root", "name a", "name b", "name c"]);
    assert_eq!(shown(&of("/a").join(&of("./b"))), ["root", "name a", "name b"]);
    assert_eq!(shown(&of("").join(&of("./b"))), ["here", "name b"]);
    assert_eq!(shown(&of("/a").join(&of("/b"))), ["root", "name b"]);
    assert_eq!(shown(&of("/a").join(&of("../b"))), ["root", "name a", "up", "name b"]);
    assert_eq!(shown(&of("/a").join(&of(""))), ["root", "name a"]);
    let drive = FilePath { parts: vec![PathPart::Prefix("C:".to_string()), PathPart::RootDir] };
    assert_eq!(shown(&drive.join(&of("/b"))), ["prefix C:", "root", "name b"]);
    assert_eq!(shown(&of("/a").join(&drive)), ["prefix C:", "root"]);
    let share = FilePath { parts: vec![PathPart::ForeignPrefix(vec![0xff]), PathPart::RootDir] };
    assert_eq!(shown(&share.join(&of("/b"))), ["prefix bytes [255]", "root", "name b"]);
    assert_eq!(shown(&of("/a").join(&share)), ["prefix bytes [255]", "root"]);
    assert!(share.clone().same(&share));
    assert!(!share.same(&drive));
    for (base, sub) in [("/a", "b/c"), ("/a", "./b"), ("", "./b"), ("/a", "/b"), ("/a", "../b")] {
        let joined = std::path::Path::new(base).join(sub);
        assert_eq!(shown(&of(base).join(&of(sub))), shown(&FilePath::from_path_buf(&joined)));
    }
}

#[test]
fn prefixes_of_paths() {
    assert!(of("/a/b/c").starts_with(&of("/a/b")));
    assert!(of("/a/b").starts_with(&of("/a/b")));
    assert!(of("/a/b").starts_with(&of("")));
    assert!(!of("/a/bc").starts_with(&of("/a/b")));
    assert!(!of("/a").starts_with(&of("/a/b")));
    assert!(!of("a/b").starts_with(&of("/a")));
    assert!(!of("../a").starts_with(&of("./a")));
    let bytes = |b: u8| FilePath { parts: vec![PathPart::Foreign(vec![0xff, b])] };
    assert!(bytes(1).starts_with(&bytes(1)));
    assert!(!bytes(1).starts_with(&bytes(2)));
}

#[test]
fn same_paths() {
    assert!(of("/a//b").same(&of("/a/b/")));
    assert!(!of("/a/b").same(&of("/a")));
    assert!(!of("/a").same(&of("/a/b")));
    assert!(!of("/a/b").same(&of("/a/c")));
}

#[test]
fn adding_a_name() {
    assert_eq!(shown(&of("/a").with_name("b c")), ["root", "name a", "name b c"]);
}

#[test]
fn splitting_and_joining_texts() {
    assert_eq!(split_text("a/b//c/", '/'), ["a", "b", "", "c", ""]);
    assert_eq!(split_text("", '/'), [""]);
    assert_eq!(split_text("/", '/'), ["", ""]);
    assert_eq!(split_text("é/ü", '/'), ["é", "ü"]);
    for text in ["a/b//c/", "", "/", "é/ü", "plain"] {
        assert_eq!(join_texts(&split_text(text, '/'), "/"), text);
    }
    let pieces = vec!["x".to_string(), "".to_string(), "y z".to_string()];
    assert_eq!(join_texts(&pieces, "/"), "x//y z");
    assert_eq!(split_text("x//y z", '/'), pieces);
    assert_eq!(join_texts(&Vec::new(), "/"), "");
}

#[test]
fn small_texts() {
    assert!(same_text("é", "é"));
    assert!(!same_text("a", "A"));
    assert_eq!(because("what: ", "cause"), "what: cause");
    for n in [0u32, 7, 10, 99, 100, 1234567890, u32::MAX] {
        assert_eq!(decimal_text(n), n.to_string());
    }
}
