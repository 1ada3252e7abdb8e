use sortd::classifier::{
    ai_classify, classify, fast_classify, read_file_preview, ClassificationResult, ClassifyEvent,
    ClassifyStep, MODEL_TIMEOUT_SECONDS, MODEL_URL, PREVIEW_BYTES,
};
use sortd::confidence::Confidence;
use sortd::path::{FilePath, PathPart};

fn path(text: &str) -> FilePath {
    FilePath::from_text(text)
}

fn classes(ext: &str) -> Option<(String, String)> {
    fast_classify(&path(&format!("/in/file.{ext}"))).map(|c| (c.category, c.suggested_folder))
}

fn in_class(exts: &[&str], category: &str, folder: &str) {
    for ext in exts {
        assert_eq!(classes(ext), Some((category.to_string(), folder.to_string())), "{ext}");
    }
}

fn prompt_of(file: &FilePath, bytes: Vec<u8>) -> String {
    match ai_classify(file, ClassifyStep::ReadPreview, ClassifyEvent::Preview { bytes }) {
        ClassifyStep::Ask { request } => request.prompt,
        _ => panic!("the model is to be asked"),
    }
}

fn ask(file: &FilePath) -> ClassifyStep {
    ai_classify(file, ClassifyStep::ReadPreview, ClassifyEvent::Preview { bytes: Vec::new() })
}

fn done(step: ClassifyStep) -> Result<ClassificationResult, String> {
    match step {
        ClassifyStep::Done { result } => result,
        _ => panic!("the classification is to be over"),
    }
}

#[test]
fn extensions_have_their_classes() {
    in_class(
        &["jpg", "jpeg", "png", "gif", "webp", "bmp", "ico", "tiff"],
        "Images",
        "Images/Photos",
    );
    in_class(&["svg"], "Images", "Images/Vector");
    in_class(&["psd", "ai", "figma", "sketch"], "Images", "Images/Design");
    in_class(&["mp4", "mkv", "avi", "mov", "wmv", "webm", "flv"], "Videos", "Videos");
    in_class(&["mp3", "wav", "flac", "aac", "ogg", "m4a"], "Music", "Music");
    in_class(&["doc", "docx", "txt", "rtf", "odt"], "Documents", "Documents");
    in_class(&["pdf"], "PDFs", "Documents/PDFs");
    in_class(&["xls", "xlsx", "csv", "ods"], "Spreadsheets", "Documents/Spreadsheets");
    in_class(
        &[
            "rs", "js", "ts", "py", "go", "java", "cpp", "c", "h", "css", "html", "json", "toml",
            "yaml",
        ],
        "Code",
        "Code",
    );
    in_class(&["zip", "rar", "7z", "tar", "gz", "bz2"], "Archives", "Archives");
    in_class(&["exe", "msi", "dmg", "deb", "rpm"], "Installers", "Installers");
}

#[test]
fn other_extensions_are_not_known() {
    for name in ["/in/file.xyz", "/in/file", "/in/.pdf", "/in/file.", "/in/..", "/", "", "a.pdf/.."]
    {
        assert!(fast_classify(&path(name)).is_none(), "{name}");
    }
}

#[test]
fn fast_result_in_full() {
    let c = fast_classify(&path("/home/me/Photo.JPG")).unwrap();
    assert_eq!(c.category, "Images");
    assert_eq!(c.suggested_folder, "Images/Photos");
    assert_eq!(c.reasoning, "Classified by file extension '.jpg'");
    assert_eq!(f64::from_bits(c.confidence.bits), 0.95);
}

#[test]
fn capitals_make_no_difference() {
    for ext in ["PDF", "Pdf", "pdF"] {
        assert_eq!(classes(ext), Some(("PDFs".to_string(), "Documents/PDFs".to_string())));
    }
}

#[test]
fn only_the_last_extension_counts() {
    let c = fast_classify(&path("/in/archive.tar.gz")).unwrap();
    assert_eq!(c.reasoning, "Classified by file extension '.gz'");
    assert!(fast_classify(&path("/in/photo.jpg.bak")).is_none());
}

#[test]
fn known_extension_needs_no_model() {
    let c = done(classify(&path("/in/a.pdf"))).unwrap();
    assert_eq!(c.category, "PDFs");
    assert!(c.confidence.is_high());
}

#[test]
fn unknown_extension_is_for_the_model() {
    assert!(matches!(classify(&path("/in/a.xyz")), ClassifyStep::ReadPreview));
}

#[test]
fn confidence_is_compared_as_a_double() {
    let values = [
        0.0,
        -0.0,
        0.5,
        0.9,
        0.90,
        0.95,
        1.0,
        1e300,
        -1.0,
        f64::INFINITY,
        f64::NEG_INFINITY,
        f64::NAN,
        -f64::NAN,
        f64::MIN_POSITIVE,
        f64::from_bits(0.9f64.to_bits() + 1),
        f64::from_bits(0.9f64.to_bits() - 1),
    ];
    for value in values {
        let c = Confidence { bits: value.to_bits() };
        assert_eq!(c.is_high(), value > 0.90, "{value}");
    }
}

#[test]
fn preview_is_cut_at_the_limit() {
    assert_eq!(read_file_preview(&b"hello".to_vec(), 500), "hello");
    assert_eq!(read_file_preview(&b"hello".to_vec(), 5), "hello");
    assert_eq!(read_file_preview(&b"hello".to_vec(), 4), "hell");
    assert_eq!(read_file_preview(&b"hello".to_vec(), 0), "");
    assert_eq!(read_file_preview(&Vec::new(), 500), "");
}

#[test]
fn preview_replaces_what_is_not_text() {
    assert_eq!(read_file_preview(&vec![b'a', 0xff, b'b'], 500), "a\u{fffd}b");
    // A character that the cut goes through.
    assert_eq!(read_file_preview(&"aé".as_bytes().to_vec(), 2), "a\u{fffd}");
    assert_eq!(read_file_preview(&"aé".as_bytes().to_vec(), 3), "aé");
}

#[test]
fn prompt_without_preview() {
    let expected = "You are a file organiser. Classify the following file and respond with valid JSON only — no markdown, no explanation outside the JSON object.\n\nFile name: notes.xyz\n\nRespond with this exact JSON structure:\n{\n  \"category\": \"<one of: Documents, Images, Videos, Music, Code, Archives, Spreadsheets, PDFs, Installers, Other>\",\n  \"confidence\": <float 0.0–1.0>,\n  \"suggested_folder\": \"<relative path, e.g. Documents/Invoices>\",\n  \"reasoning\": \"<one sentence>\"\n}";
    assert_eq!(prompt_of(&path("/in/notes.xyz"), Vec::new()), expected);
    assert_eq!(prompt_of(&path("/in/notes.xyz"), b" \t\r\n".to_vec()), expected);
    assert_eq!(prompt_of(&path("/in/notes.xyz"), "\u{a0}\u{2003}".as_bytes().to_vec()), expected);
}

#[test]
fn blanks_are_those_of_unicode() {
    let file = path("/in/notes.xyz");
    let without = prompt_of(&file, Vec::new());
    let mut blanks = Vec::new();
    for code in 0..0x3100u32 {
        if let Some(c) = char::from_u32(code) {
            if prompt_of(&file, c.to_string().into_bytes()) == without {
                blanks.push(code);
            }
        }
    }
    let mut expected: Vec<u32> = (0x09..=0x0d).collect();
    expected.extend([0x20, 0x85, 0xa0, 0x1680]);
    expected.extend(0x2000..=0x200a);
    expected.extend([0x2028, 0x2029, 0x202f, 0x205f, 0x3000]);
    assert_eq!(blanks, expected);
    for code in 0x3100..=0x10ffffu32 {
        assert!(!char::from_u32(code).is_some_and(|c| c.is_whitespace()));
    }
}

#[test]
fn prompt_with_preview() {
    let prompt = prompt_of(&path("/in/notes.xyz"), b" hi ".to_vec());
    assert!(prompt.contains(
        "File name: notes.xyz\n\nFile preview (first 500 bytes):\n hi \n\nRespond with this"
    ));
    let long = prompt_of(&path("/in/notes.xyz"), vec![b'x'; 600]);
    assert_eq!(long.matches('x').count(), prompt_of(&path("/in/notes.xyz"), vec![b'x'; 500])
        .matches('x')
        .count());
    assert!(long.contains(&"x".repeat(PREVIEW_BYTES)));
    assert!(!long.contains(&"x".repeat(PREVIEW_BYTES + 1)));
}

#[test]
fn nameless_file_is_shown_as_unknown() {
    assert!(prompt_of(&path("/"), Vec::new()).contains("File name: unknown\n"));
    let foreign = FilePath { parts: vec![PathPart::Foreign(vec![0xff, b'.', b'x'])] };
    assert!(prompt_of(&foreign, Vec::new()).contains("File name: unknown\n"));
}

#[test]
fn request_to_the_model() {
    match ask(&path("/in/notes.xyz")) {
        ClassifyStep::Ask { request } => {
            assert_eq!(request.model, "llama3.2");
            assert_eq!(request.format, "json");
            assert!(!request.stream);
        }
        _ => panic!("the model is to be asked"),
    }
    assert_eq!(MODEL_URL, "http://localhost:11434/api/generate");
    assert_eq!(MODEL_TIMEOUT_SECONDS, 30);
}

#[test]
fn client_failure_is_an_error() {
    for file in [path("/in/a.xyz"), path("/in/a.pdf")] {
        let event = ClassifyEvent::ClientFailed { error: "no TLS".to_string() };
        let result = done(ai_classify(&file, ask(&file), event));
        assert_eq!(result.unwrap_err(), "Failed to build HTTP client: no TLS");
    }
}

#[test]
fn unreachable_model_is_made_up_for() {
    let known = path("/in/a.pdf");
    let c = done(ai_classify(&known, ask(&known), ClassifyEvent::Unreachable)).unwrap();
    assert_eq!(c.category, "PDFs");
    let unknown = path("/in/a.xyz");
    let e = done(ai_classify(&unknown, ask(&unknown), ClassifyEvent::Unreachable)).unwrap_err();
    assert_eq!(e, "Ollama unreachable and extension is unrecognised");
}

#[test]
fn refusal_is_made_up_for() {
    let refusal =
        || ClassifyEvent::Answered { code: 404, status: "404 Not Found".to_string() };
    let known = path("/in/a.mp3");
    let c = done(ai_classify(&known, ask(&known), refusal())).unwrap();
    assert_eq!(c.category, "Music");
    let unknown = path("/in/a.xyz");
    let e = done(ai_classify(&unknown, ask(&unknown), refusal())).unwrap_err();
    assert_eq!(e, "Ollama returned 404 Not Found");
}

#[test]
fn success_codes() {
    let file = path("/in/a.xyz");
    for (code, good) in [(199, false), (200, true), (204, true), (299, true), (300, false)] {
        let event = ClassifyEvent::Answered { code, status: code.to_string() };
        let step = ai_classify(&file, ask(&file), event);
        assert_eq!(matches!(step, ClassifyStep::ReadEnvelope), good, "{code}");
    }
}

#[test]
fn envelope_that_cannot_be_read() {
    let file = path("/in/a.pdf");
    let event = ClassifyEvent::Envelope { text: Err("eof".to_string()) };
    let e = done(ai_classify(&file, ClassifyStep::ReadEnvelope, event)).unwrap_err();
    assert_eq!(e, "Failed to parse Ollama envelope: eof");
}

#[test]
fn answer_that_cannot_be_read() {
    let file = path("/in/a.pdf");
    let event = ClassifyEvent::Envelope { text: Ok("{}".to_string()) };
    let step = ai_classify(&file, ClassifyStep::ReadEnvelope, event);
    assert!(matches!(&step, ClassifyStep::Parse { text } if text == "{}"));
    let event = ClassifyEvent::Parsed { result: Err("missing field".to_string()) };
    let e = done(ai_classify(&file, step, event)).unwrap_err();
    assert_eq!(e, "Failed to parse classification JSON: missing field");
}

#[test]
fn answer_that_is_taken_as_it_is() {
    let file = path("/in/a.pdf");
    let answer = ClassificationResult {
        category: "Documents".to_string(),
        confidence: Confidence { bits: 0.7f64.to_bits() },
        suggested_folder: "Documents/Invoices".to_string(),
        reasoning: "an invoice".to_string(),
    };
    let step = ClassifyStep::Parse { text: "{...}".to_string() };
    let c = done(ai_classify(&file, step, ClassifyEvent::Parsed { result: Ok(answer) })).unwrap();
    assert_eq!(c.category, "Documents");
    assert_eq!(f64::from_bits(c.confidence.bits), 0.7);
    assert_eq!(c.suggested_folder, "Documents/Invoices");
    assert_eq!(c.reasoning, "an invoice");
}

#[test]
fn event_out_of_turn_changes_nothing() {
    let file = path("/in/a.xyz");
    let step = ai_classify(&file, ClassifyStep::ReadPreview, ClassifyEvent::Unreachable);
    assert!(matches!(step, ClassifyStep::ReadPreview));
    let over = ClassifyStep::Done { result: Err("x".to_string()) };
    let e = done(ai_classify(&file, over, ClassifyEvent::Unreachable)).unwrap_err();
    assert_eq!(e, "x");
}

#[test]
fn four_answers_are_enough() {
    let file = path("/in/a.xyz");
    let mut step = classify(&file);
    let answer = ClassificationResult {
        category: "Other".to_string(),
        confidence: Confidence { bits: 0 },
        suggested_folder: String::new(),
        reasoning: String::new(),
    };
    let events = vec![
        ClassifyEvent::Preview { bytes: b"x".to_vec() },
        ClassifyEvent::Answered { code: 200, status: "200 OK".to_string() },
        ClassifyEvent::Envelope { text: Ok("{}".to_string()) },
        ClassifyEvent::Parsed { result: Ok(answer) },
    ];
    for event in events {
        assert!(!matches!(step, ClassifyStep::Done { .. }));
        step = ai_classify(&file, step, event);
    }
    assert_eq!(done(step).unwrap().category, "Other");
}
