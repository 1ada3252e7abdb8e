use sortd::path::{FilePath, PathPart};
use sortd::placement::{
    category_base_dir, destination_folder, destination_path, get_category_base_dir,
    open_sortd_folder, sanitize_folder_path, sanitize_path, sortd_folder, strip_redundant_prefix,
    StandardDirs,
};
use std::path::PathBuf;

fn text_of(path: &FilePath) -> String {
    let mut buf = PathBuf::new();
    for part in &path.parts {
        match part {
            PathPart::Prefix(t) => buf.push(t),
            PathPart::ForeignPrefix(_) => buf.push("?"),
            PathPart::RootDir => buf.push("/"),
            PathPart::CurDir => buf.push("."),
            PathPart::ParentDir => buf.push(".."),
            PathPart::Normal(t) => buf.push(t),
            PathPart::Foreign(_) => buf.push("?"),
        }
    }
    buf.to_string_lossy().into_owned()
}

fn some(text: &str) -> Option<FilePath> {
    Some(FilePath::from_text(text))
}

fn all_dirs() -> StandardDirs {
    StandardDirs {
        document: some("/u/Documents"),
        download: some("/u/Downloads"),
        picture: some("/u/Pictures"),
        video: some("/u/Videos"),
        audio: some("/u/Music"),
    }
}

fn no_dirs() -> StandardDirs {
    StandardDirs { document: None, download: None, picture: None, video: None, audio: None }
}

#[test]
fn redundant_names_are_stripped() {
    assert_eq!(strip_redundant_prefix("PDFs", "Documents/PDFs"), "");
    assert_eq!(strip_redundant_prefix("Documents", "Documents/Reports"), "Reports");
    assert_eq!(strip_redundant_prefix("Spreadsheets", "Documents/Spreadsheets"), "");
    assert_eq!(strip_redundant_prefix("Music", "Music/Rock"), "Rock");
    assert_eq!(strip_redundant_prefix("Images", "Photos/Vacation"), "Photos/Vacation");
}

#[test]
fn stripping_ignores_case_and_stops() {
    assert_eq!(strip_redundant_prefix("pdfs", "DOCUMENTS/downloads/PDFs/a"), "a");
    assert_eq!(strip_redundant_prefix("Music", "Rock/Music"), "Rock/Music");
    assert_eq!(strip_redundant_prefix("Music", ""), "");
    assert_eq!(strip_redundant_prefix("", ""), "");
    assert_eq!(strip_redundant_prefix("", "/a"), "a");
    assert_eq!(strip_redundant_prefix("x", "/a"), "/a");
    assert_eq!(strip_redundant_prefix("ÉTÉ", "été/a"), "a");
}

#[test]
fn stripping_twice_changes_nothing() {
    for (category, folder) in
        [("PDFs", "Documents/PDFs"), ("Music", "Music/Rock"), ("", "//a"), ("x", "downloads/x/y/x")]
    {
        let once = strip_redundant_prefix(category, folder);
        assert_eq!(strip_redundant_prefix(category, &once), once);
    }
}

#[test]
fn unsafe_names_are_dropped() {
    assert_eq!(sanitize_folder_path("Documents/Invoices"), "Documents/Invoices");
    assert_eq!(sanitize_folder_path("../../etc/passwd"), "etc/passwd");
    assert_eq!(sanitize_folder_path("/abs/olute"), "abs/olute");
    assert_eq!(sanitize_folder_path("a/./b//c/"), "a/b/c");
    assert_eq!(sanitize_folder_path("a/.hidden/b"), "a/b");
    assert_eq!(sanitize_folder_path("a/b.c/d"), "a/d");
    assert_eq!(sanitize_folder_path("My Files/2024_01-02"), "My Files/2024_01-02");
    assert_eq!(sanitize_folder_path("Café/Menu"), "Menu");
    assert_eq!(sanitize_folder_path("Fotos/Über été/2024"), "Fotos/2024");
    assert_eq!(sanitize_folder_path("a/<b>/c|d"), "a");
}

#[test]
fn nothing_left_is_other() {
    for folder in ["", "/", "..", "../..", ".", ".git", "a:b", "$x/&y", "été", "Фото"] {
        assert_eq!(sanitize_folder_path(folder), "Other", "{folder}");
    }
}

#[test]
fn sanitizing_twice_changes_nothing() {
    for folder in ["../../etc/passwd", "", "a/b.c/d", "My Files/x", "/abs/olute"] {
        let once = sanitize_folder_path(folder);
        assert_eq!(sanitize_folder_path(&once), once);
    }
}

#[test]
fn drives_and_roots_are_dropped() {
    let windows = FilePath {
        parts: vec![
            PathPart::Prefix("C:".to_string()),
            PathPart::ForeignPrefix(vec![0xff]),
            PathPart::RootDir,
            PathPart::ParentDir,
            PathPart::CurDir,
            PathPart::Normal("Work".to_string()),
            PathPart::Normal(String::new()),
            PathPart::Foreign(vec![0xff]),
            PathPart::Normal("Old".to_string()),
        ],
    };
    assert_eq!(sanitize_path(&windows), "Work/Old");
}

#[test]
fn folders_of_the_categories() {
    let cases = [
        ("Images", "/u/Pictures"),
        ("Photos", "/u/Pictures"),
        ("Videos", "/u/Videos"),
        ("Music", "/u/Music"),
        ("Audio", "/u/Music"),
        ("Documents", "/u/Documents/Sortd"),
        ("PDFs", "/u/Documents/Sortd/PDFs"),
        ("Spreadsheets", "/u/Documents/Sortd/Spreadsheets"),
        ("Code", "/u/Documents/Sortd/Code"),
        ("Archives", "/u/Downloads/Sortd/Archives"),
        ("Installers", "/u/Downloads/Sortd/Installers"),
        ("Other", "/u/Documents/Sortd/Other"),
        ("images", "/u/Documents/Sortd/Other"),
        ("", "/u/Documents/Sortd/Other"),
    ];
    for (category, folder) in cases {
        assert_eq!(text_of(&category_base_dir(category, &all_dirs())), folder, "{category}");
    }
}

#[test]
fn folders_without_standard_ones() {
    let cases = [
        ("Images", "./Sortd"),
        ("Videos", "./Sortd"),
        ("Music", "./Sortd"),
        ("Documents", "./Sortd"),
        ("PDFs", "./Sortd/PDFs"),
        ("Archives", "./Sortd/Sortd/Archives"),
        ("Nonsense", "./Sortd/Other"),
    ];
    for (category, folder) in cases {
        assert_eq!(text_of(&category_base_dir(category, &no_dirs())), folder, "{category}");
    }
}

#[test]
fn folders_of_this_user() {
    let os = |dir: Option<PathBuf>| dir.map(|d| FilePath::from_path_buf(&d));
    let here = StandardDirs {
        document: os(dirs::document_dir()),
        download: os(dirs::download_dir()),
        picture: os(dirs::picture_dir()),
        video: os(dirs::video_dir()),
        audio: os(dirs::audio_dir()),
    };
    for category in ["Images", "Videos", "Music", "Documents", "PDFs", "Archives", "Other"] {
        assert_eq!(
            text_of(&get_category_base_dir(category)),
            text_of(&category_base_dir(category, &here))
        );
    }
}

#[test]
fn own_folder_to_open() {
    assert_eq!(text_of(&sortd_folder(some("/u/Documents")).ok().unwrap()), "/u/Documents/Sortd");
    assert_eq!(sortd_folder(None).err().unwrap(), "Cannot resolve Documents folder");
    match (open_sortd_folder(), dirs::document_dir()) {
        (Ok(p), Some(d)) => assert_eq!(PathBuf::from(text_of(&p)), d.join("Sortd")),
        (Err(e), None) => assert_eq!(e, "Cannot resolve Documents folder"),
        _ => panic!("the folder is there exactly where the documents are"),
    }
}

#[test]
fn folders_below_the_category() {
    let cases = [
        ("PDFs", "Documents/PDFs", ""),
        ("Documents", "Documents/Reports", "Reports"),
        ("Music", "../../Music/Rock", "Rock"),
        ("Images", "/etc/cron.d/x", "etc/x"),
        ("Code", "..", "Other"),
        ("Other", "..", ""),
        ("Documents", ".ssh/Documents/a", "a"),
    ];
    for (category, suggested, folder) in cases {
        assert_eq!(text_of(&destination_folder(category, suggested)), folder, "{suggested}");
    }
}

#[test]
fn destinations_stay_below_the_category() {
    let base = category_base_dir("Documents", &all_dirs());
    let name = FilePath::from_text("/in/a b.txt").last_name().unwrap();
    let cases = [
        ("Documents", "/u/Documents/Sortd/a b.txt"),
        ("Documents/Reports", "/u/Documents/Sortd/Reports/a b.txt"),
        ("../../../etc", "/u/Documents/Sortd/etc/a b.txt"),
        ("/root", "/u/Documents/Sortd/root/a b.txt"),
        ("..", "/u/Documents/Sortd/Other/a b.txt"),
    ];
    for (suggested, expected) in cases {
        let folder = destination_folder("Documents", suggested);
        let dest = destination_path(&base, &folder, &name);
        assert_eq!(text_of(&dest), expected);
        assert!(dest.starts_with(&base));
    }
}
