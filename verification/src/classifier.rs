//! What kind of file a file is, and where files of that kind belong.
use vstd::prelude::*;
use vstd::utf8::{decode_utf8, is_ascii_chars, valid_utf8};
use crate::confidence::{above_threshold, extension_confidence, Confidence, EXTENSION_BITS};
use crate::path::{extension_text, file_name_text, FilePath, PartView};
use crate::text::{because, same_text};
use crate::unicode::{
    ascii_lower, from_utf8_lossy, is_whitespace, law_small_letters_forget_the_case, lossy_text,
    lowercase, same_letter, to_lowercase, whitespace,
};

verus! {

/// What a file was classified as.
#[derive(Debug)]
pub struct ClassificationResult {
    pub category: String,
    pub confidence: Confidence,
    pub suggested_folder: String,
    pub reasoning: String,
}

/// The value of a classification.
#[verifier::ext_equal]
pub struct ClassificationView {
    pub category: Seq<char>,
    pub confidence: Confidence,
    pub suggested_folder: Seq<char>,
    pub reasoning: Seq<char>,
}

impl View for ClassificationResult {
    type V = ClassificationView;

    open spec fn view(&self) -> ClassificationView {
        ClassificationView {
            category: self.category@,
            confidence: self.confidence,
            suggested_folder: self.suggested_folder@,
            reasoning: self.reasoning@,
        }
    }
}

impl Clone for ClassificationResult {
    fn clone(&self) -> (r: Self)
        ensures
            r@ == self@,
    {
        ClassificationResult {
            category: self.category.clone(),
            confidence: self.confidence,
            suggested_folder: self.suggested_folder.clone(),
            reasoning: self.reasoning.clone(),
        }
    }
}

/// The value of a classification or of the message that stands for it.
pub open spec fn outcome_view(r: Result<ClassificationResult, String>) -> Result<
    ClassificationView,
    Seq<char>,
> {
    match r {
        Ok(c) => Ok(c@),
        Err(e) => Err(e@),
    }
}

/// The category and the folder of the files with an extension in small
/// letters, where the extension is known.
pub open spec fn extension_class(ext: Seq<char>) -> Option<(Seq<char>, Seq<char>)> {
    if ext == "jpg"@ || ext == "jpeg"@ || ext == "png"@ || ext == "gif"@ || ext == "webp"@ || ext
        == "bmp"@ || ext == "ico"@ || ext == "tiff"@ {
        Some(("Images"@, "Images/Photos"@))
    } else if ext == "svg"@ {
        Some(("Images"@, "Images/Vector"@))
    } else if ext == "psd"@ || ext == "ai"@ || ext == "figma"@ || ext == "sketch"@ {
        Some(("Images"@, "Images/Design"@))
    } else if ext == "mp4"@ || ext == "mkv"@ || ext == "avi"@ || ext == "mov"@ || ext == "wmv"@
        || ext == "webm"@ || ext == "flv"@ {
        Some(("Videos"@, "Videos"@))
    } else if ext == "mp3"@ || ext == "wav"@ || ext == "flac"@ || ext == "aac"@ || ext == "ogg"@
        || ext == "m4a"@ {
        Some(("Music"@, "Music"@))
    } else if ext == "doc"@ || ext == "docx"@ || ext == "txt"@ || ext == "rtf"@ || ext == "odt"@ {
        Some(("Documents"@, "Documents"@))
    } else if ext == "pdf"@ {
        Some(("PDFs"@, "Documents/PDFs"@))
    } else if ext == "xls"@ || ext == "xlsx"@ || ext == "csv"@ || ext == "ods"@ {
        Some(("Spreadsheets"@, "Documents/Spreadsheets"@))
    } else if ext == "rs"@ || ext == "js"@ || ext == "ts"@ || ext == "py"@ || ext == "go"@ || ext
        == "java"@ || ext == "cpp"@ || ext == "c"@ || ext == "h"@ || ext == "css"@ || ext
        == "html"@ || ext == "json"@ || ext == "toml"@ || ext == "yaml"@ {
        Some(("Code"@, "Code"@))
    } else if ext == "zip"@ || ext == "rar"@ || ext == "7z"@ || ext == "tar"@ || ext == "gz"@
        || ext == "bz2"@ {
        Some(("Archives"@, "Archives"@))
    } else if ext == "exe"@ || ext == "msi"@ || ext == "dmg"@ || ext == "deb"@ || ext == "rpm"@ {
        Some(("Installers"@, "Installers"@))
    } else {
        None
    }
}

/// What the extension alone says of a file.
pub open spec fn fast_result(path: Seq<PartView>) -> Option<ClassificationView> {
    match extension_text(path) {
        None => None,
        Some(e) => match extension_class(lowercase(e)) {
            None => None,
            Some((category, folder)) => Some(
                ClassificationView {
                    category,
                    confidence: extension_confidence(),
                    suggested_folder: folder,
                    reasoning: "Classified by file extension '."@ + lowercase(e) + "'"@,
                },
            ),
        },
    }
}

/// The category and the folder of the files with an extension in small
/// letters, where the extension is known.
fn classify_extension(ext: &str) -> (r: Option<(&'static str, &'static str)>)
    ensures
        r is Some <==> extension_class(ext@) is Some,
        r matches Some(p) ==> extension_class(ext@) == Some((p.0@, p.1@)),
{
    if same_text(ext, "jpg") || same_text(ext, "jpeg") || same_text(ext, "png") || same_text(
        ext,
        "gif",
    ) || same_text(ext, "webp") || same_text(ext, "bmp") || same_text(ext, "ico") || same_text(
        ext,
        "tiff",
    ) {
        Some(("Images", "Images/Photos"))
    } else if same_text(ext, "svg") {
        Some(("Images", "Images/Vector"))
    } else if same_text(ext, "psd") || same_text(ext, "ai") || same_text(ext, "figma")
        || same_text(ext, "sketch") {
        Some(("Images", "Images/Design"))
    } else if same_text(ext, "mp4") || same_text(ext, "mkv") || same_text(ext, "avi") || same_text(
        ext,
        "mov",
    ) || same_text(ext, "wmv") || same_text(ext, "webm") || same_text(ext, "flv") {
        Some(("Videos", "Videos"))
    } else if same_text(ext, "mp3") || same_text(ext, "wav") || same_text(ext, "flac")
        || same_text(ext, "aac") || same_text(ext, "ogg") || same_text(ext, "m4a") {
        Some(("Music", "Music"))
    } else if same_text(ext, "doc") || same_text(ext, "docx") || same_text(ext, "txt")
        || same_text(ext, "rtf") || same_text(ext, "odt") {
        Some(("Documents", "Documents"))
    } else if same_text(ext, "pdf") {
        Some(("PDFs", "Documents/PDFs"))
    } else if same_text(ext, "xls") || same_text(ext, "xlsx") || same_text(ext, "csv")
        || same_text(ext, "ods") {
        Some(("Spreadsheets", "Documents/Spreadsheets"))
    } else if same_text(ext, "rs") || same_text(ext, "js") || same_text(ext, "ts") || same_text(
        ext,
        "py",
    ) || same_text(ext, "go") || same_text(ext, "java") || same_text(ext, "cpp") || same_text(
        ext,
        "c",
    ) || same_text(ext, "h") || same_text(ext, "css") || same_text(ext, "html") || same_text(
        ext,
        "json",
    ) || same_text(ext, "toml") || same_text(ext, "yaml") {
        Some(("Code", "Code"))
    } else if same_text(ext, "zip") || same_text(ext, "rar") || same_text(ext, "7z") || same_text(
        ext,
        "tar",
    ) || same_text(ext, "gz") || same_text(ext, "bz2") {
        Some(("Archives", "Archives"))
    } else if same_text(ext, "exe") || same_text(ext, "msi") || same_text(ext, "dmg") || same_text(
        ext,
        "deb",
    ) || same_text(ext, "rpm") {
        Some(("Installers", "Installers"))
    } else {
        None
    }
}

/// Classify by file extension only: no model is asked.
/// `None` if the extension is not known.
pub fn fast_classify(path: &FilePath) -> (r: Option<ClassificationResult>)
    ensures
        r is Some <==> fast_result(path@) is Some,
        r matches Some(c) ==> fast_result(path@) == Some(c@),
{
    match path.extension() {
        None => None,
        Some(raw) => {
            let ext: String = to_lowercase(raw.as_str());
            match classify_extension(ext.as_str()) {
                None => None,
                Some((category, folder)) => {
                    let lead: String = "Classified by file extension '.".to_owned();
                    let reasoning: String = lead.concat(ext.as_str()).concat("'");
                    Some(
                        ClassificationResult {
                            category: category.to_owned(),
                            confidence: Confidence { bits: EXTENSION_BITS },
                            suggested_folder: folder.to_owned(),
                            reasoning,
                        },
                    )
                },
            }
        },
    }
}

// The classification model

/// How many bytes of a file the model is shown.
pub const PREVIEW_BYTES: usize = 500;

/// Where the model is asked.
pub const MODEL_URL: &'static str = "http://localhost:11434/api/generate";

/// How long an answer of the model is awaited, in seconds.
pub const MODEL_TIMEOUT_SECONDS: u64 = 30;

/// The name of the model.
pub const MODEL_NAME: &'static str = "llama3.2";

/// The format that the model is to answer in.
pub const MODEL_FORMAT: &'static str = "json";

/// What the model is told before the file's name.
pub const PROMPT_HEAD: &'static str =
    r#"You are a file organiser. Classify the following file and respond with valid JSON only — no markdown, no explanation outside the JSON object.

File name: "#;

/// What stands before the preview of a file.
pub const PROMPT_PREVIEW: &'static str = "\n\nFile preview (first 500 bytes):\n";

/// What the model is told after the file's name and preview.
pub const PROMPT_TAIL: &'static str =
    r#"

Respond with this exact JSON structure:
{
  "category": "<one of: Documents, Images, Videos, Music, Code, Archives, Spreadsheets, PDFs, Installers, Other>",
  "confidence": <float 0.0–1.0>,
  "suggested_folder": "<relative path, e.g. Documents/Invoices>",
  "reasoning": "<one sentence>"
}"#;

/// What the model is asked.
pub struct OllamaRequest {
    pub model: String,
    pub prompt: String,
    pub stream: bool,
    pub format: String,
}

/// The value of a question to the model.
#[verifier::ext_equal]
pub struct RequestView {
    pub model: Seq<char>,
    pub prompt: Seq<char>,
    pub stream: bool,
    pub format: Seq<char>,
}

impl View for OllamaRequest {
    type V = RequestView;

    open spec fn view(&self) -> RequestView {
        RequestView {
            model: self.model@,
            prompt: self.prompt@,
            stream: self.stream,
            format: self.format@,
        }
    }
}

/// The text of the first bytes of a file.
pub open spec fn preview_text(bytes: Seq<u8>, max_bytes: nat) -> Seq<char> {
    lossy_text(
        if bytes.len() <= max_bytes {
            bytes
        } else {
            bytes.take(max_bytes as int)
        },
    )
}

/// Whether a text holds nothing but blanks.
pub open spec fn blank(text: Seq<char>) -> bool {
    forall|i: int| 0 <= i < text.len() ==> whitespace(#[trigger] text[i])
}

/// The prompt for a file: its name, and its preview unless that is blank.
pub open spec fn prompt_text(name: Seq<char>, preview: Seq<char>) -> Seq<char> {
    if blank(preview) {
        PROMPT_HEAD@ + name + PROMPT_TAIL@
    } else {
        PROMPT_HEAD@ + name + PROMPT_PREVIEW@ + preview + PROMPT_TAIL@
    }
}

/// The name by which a file is shown to the model.
pub open spec fn shown_name(path: Seq<PartView>) -> Seq<char> {
    match file_name_text(path) {
        Some(t) => t,
        None => "unknown"@,
    }
}

/// What the model is asked of a file that holds `bytes`.
pub open spec fn model_request(path: Seq<PartView>, bytes: Seq<u8>) -> RequestView {
    RequestView {
        model: MODEL_NAME@,
        prompt: prompt_text(shown_name(path), preview_text(bytes, PREVIEW_BYTES as nat)),
        stream: false,
        format: MODEL_FORMAT@,
    }
}

/// The text of up to `max_bytes` from the beginning of a file that holds
/// `bytes`.
pub fn read_file_preview(bytes: &Vec<u8>, max_bytes: usize) -> (r: String)
    ensures
        r@ == preview_text(bytes@, max_bytes as nat),
{
    if bytes.len() <= max_bytes {
        from_utf8_lossy(bytes.as_slice())
    } else {
        let head = vstd::slice::slice_subrange(bytes.as_slice(), 0, max_bytes);
        proof {
            assert(head@ =~= bytes@.take(max_bytes as int));
        }
        from_utf8_lossy(head)
    }
}

/// Whether a text holds nothing but blanks.
fn is_blank(text: &str) -> (r: bool)
    ensures
        r == blank(text@),
{
    let len: usize = text.unicode_len();
    let mut at: usize = 0;
    while at < len
        invariant
            len == text@.len(),
            at <= len,
            forall|i: int| 0 <= i < at ==> whitespace(#[trigger] text@[i]),
        decreases len - at,
    {
        if !is_whitespace(text.get_char(at)) {
            return false;
        }
        at = at + 1;
    }
    true
}

/// What the model is asked of a file that holds `bytes`.
fn build_request(path: &FilePath, bytes: &Vec<u8>) -> (r: OllamaRequest)
    ensures
        r@ == model_request(path@, bytes@),
{
    let name: String = match path.file_name() {
        Some(t) => t,
        None => "unknown".to_owned(),
    };
    let preview: String = read_file_preview(bytes, PREVIEW_BYTES);
    let head: String = PROMPT_HEAD.to_owned();
    let named: String = head.concat(name.as_str());
    let shown: String = if is_blank(preview.as_str()) {
        named
    } else {
        named.concat(PROMPT_PREVIEW).concat(preview.as_str())
    };
    OllamaRequest {
        model: MODEL_NAME.to_owned(),
        prompt: shown.concat(PROMPT_TAIL),
        stream: false,
        format: MODEL_FORMAT.to_owned(),
    }
}

/// What is to be done next to classify a file.
pub enum ClassifyStep {
    /// Read the file, as far as it can be read.
    ReadPreview,
    /// Ask the model.
    Ask { request: OllamaRequest },
    /// Read the answer's envelope.
    ReadEnvelope,
    /// Read a classification from the text of the answer.
    Parse { text: String },
    /// Nothing: this is the result.
    Done { result: Result<ClassificationResult, String> },
}

/// What came of a step.
pub enum ClassifyEvent {
    /// The bytes of the file; none where it could not be read.
    Preview { bytes: Vec<u8> },
    /// No client could be made.
    ClientFailed { error: String },
    /// The model could not be reached.
    Unreachable,
    /// The model answered, with this HTTP status.
    Answered { code: u16, status: String },
    /// The text in the answer's envelope.
    Envelope { text: Result<String, String> },
    /// The classification in the answer's text.
    Parsed { result: Result<ClassificationResult, String> },
}

/// The value of a step.
#[verifier::ext_equal]
pub enum StepView {
    ReadPreview,
    Ask { request: RequestView },
    ReadEnvelope,
    Parse { text: Seq<char> },
    Done { result: Result<ClassificationView, Seq<char>> },
}

impl View for ClassifyStep {
    type V = StepView;

    open spec fn view(&self) -> StepView {
        match self {
            ClassifyStep::ReadPreview => StepView::ReadPreview,
            ClassifyStep::Ask { request } => StepView::Ask { request: request@ },
            ClassifyStep::ReadEnvelope => StepView::ReadEnvelope,
            ClassifyStep::Parse { text } => StepView::Parse { text: text@ },
            ClassifyStep::Done { result } => StepView::Done { result: outcome_view(*result) },
        }
    }
}

/// What the extension says of a file, or else a message.
pub open spec fn extension_or(path: Seq<PartView>, message: Seq<char>) -> Result<
    ClassificationView,
    Seq<char>,
> {
    match fast_result(path) {
        Some(c) => Ok(c),
        None => Err(message),
    }
}

/// Whether an HTTP status means success.
pub open spec fn success(code: u16) -> bool {
    200 <= code < 300
}

/// The first step: a known extension settles the matter, and any other file is
/// for the model.
pub open spec fn classify_start(path: Seq<PartView>) -> StepView {
    match fast_result(path) {
        Some(c) => StepView::Done { result: Ok(c) },
        None => StepView::ReadPreview,
    }
}

/// The step that follows `step` after `event`. The model's refusals are made
/// up for by the extension; what it answers has to be read in two stages.
/// An event that does not belong to the step changes nothing.
pub open spec fn classify_after(path: Seq<PartView>, step: StepView, event: ClassifyEvent) -> StepView {
    match (step, event) {
        (StepView::ReadPreview, ClassifyEvent::Preview { bytes }) => StepView::Ask {
            request: model_request(path, bytes@),
        },
        (StepView::Ask { .. }, ClassifyEvent::ClientFailed { error }) => StepView::Done {
            result: Err("Failed to build HTTP client: "@ + error@),
        },
        (StepView::Ask { .. }, ClassifyEvent::Unreachable) => StepView::Done {
            result: extension_or(path, "Ollama unreachable and extension is unrecognised"@),
        },
        (StepView::Ask { .. }, ClassifyEvent::Answered { code, status }) => if success(code) {
            StepView::ReadEnvelope
        } else {
            StepView::Done { result: extension_or(path, "Ollama returned "@ + status@) }
        },
        (StepView::ReadEnvelope, ClassifyEvent::Envelope { text }) => match text {
            Ok(t) => StepView::Parse { text: t@ },
            Err(e) => StepView::Done { result: Err("Failed to parse Ollama envelope: "@ + e@) },
        },
        (StepView::Parse { .. }, ClassifyEvent::Parsed { result }) => match result {
            Ok(c) => StepView::Done { result: Ok(c@) },
            Err(e) => StepView::Done {
                result: Err("Failed to parse classification JSON: "@ + e@),
            },
        },
        _ => step,
    }
}

/// What the extension says of a file, or else a message.
fn fall_back(path: &FilePath, message: String) -> (r: Result<ClassificationResult, String>)
    ensures
        outcome_view(r) == extension_or(path@, message@),
{
    match fast_classify(path) {
        Some(c) => Ok(c),
        None => Err(message),
    }
}

/// The first step of classifying a file: tries the extension first, and
/// only where that is not known goes on to the model.
pub fn classify(path: &FilePath) -> (r: ClassifyStep)
    ensures
        r@ == classify_start(path@),
{
    if let Some(result) = fast_classify(path) {
        if result.confidence.is_high() {
            return ClassifyStep::Done { result: Ok(result) };
        }
    }
    ClassifyStep::ReadPreview
}

/// Asks the model what a file is, from `ReadPreview` on: the step that follows
/// `step` after `event`. Falls back to the extension where the model cannot be
/// reached or refuses.
pub fn ai_classify(path: &FilePath, step: ClassifyStep, event: ClassifyEvent) -> (r: ClassifyStep)
    ensures
        r@ == classify_after(path@, step@, event),
{
    match (step, event) {
        (ClassifyStep::ReadPreview, ClassifyEvent::Preview { bytes }) => ClassifyStep::Ask {
            request: build_request(path, &bytes),
        },
        (ClassifyStep::Ask { request: _ }, ClassifyEvent::ClientFailed { error }) =>
        ClassifyStep::Done {
            result: Err(because("Failed to build HTTP client: ", error.as_str())),
        },
        (ClassifyStep::Ask { request: _ }, ClassifyEvent::Unreachable) => ClassifyStep::Done {
            result: fall_back(
                path,
                "Ollama unreachable and extension is unrecognised".to_owned(),
            ),
        },
        (ClassifyStep::Ask { request: _ }, ClassifyEvent::Answered { code, status }) => {
            if 200 <= code && code < 300 {
                ClassifyStep::ReadEnvelope
            } else {
                ClassifyStep::Done {
                    result: fall_back(path, because("Ollama returned ", status.as_str())),
                }
            }
        },
        (ClassifyStep::ReadEnvelope, ClassifyEvent::Envelope { text: Ok(t) }) =>
        ClassifyStep::Parse { text: t },
        (ClassifyStep::ReadEnvelope, ClassifyEvent::Envelope { text: Err(e) }) =>
        ClassifyStep::Done {
            result: Err(because("Failed to parse Ollama envelope: ", e.as_str())),
        },
        (ClassifyStep::Parse { text: _ }, ClassifyEvent::Parsed { result: Ok(c) }) =>
        ClassifyStep::Done { result: Ok(c) },
        (ClassifyStep::Parse { text: _ }, ClassifyEvent::Parsed { result: Err(e) }) =>
        ClassifyStep::Done {
            result: Err(because("Failed to parse classification JSON: ", e.as_str())),
        },
        (other, _) => other,
    }
}

// Laws

/// A file whose extension is known is classified by it at once, with a
/// confidence that is high enough to move it; the model is never asked.
pub proof fn law_known_extension_needs_no_model(path: Seq<PartView>)
    requires
        fast_result(path) is Some,
    ensures
        classify_start(path) == (StepView::Done { result: Ok(fast_result(path)->0) }),
        above_threshold(fast_result(path)->0.confidence.bits),
{
}

/// Capitals in an ASCII extension make no difference.
pub proof fn law_extension_case_does_not_matter(a: Seq<PartView>, b: Seq<PartView>)
    requires
        extension_text(a) is Some,
        extension_text(b) is Some,
        is_ascii_chars(extension_text(a)->0),
        is_ascii_chars(extension_text(b)->0),
        extension_text(a)->0.len() == extension_text(b)->0.len(),
        forall|i: int|
            0 <= i < extension_text(a)->0.len() ==> ascii_lower(#[trigger] extension_text(a)->0[i])
                == ascii_lower(extension_text(b)->0[i]),
    ensures
        fast_result(a) == fast_result(b),
{
    assert(lowercase(extension_text(a)->0) =~= lowercase(extension_text(b)->0));
}

/// Where the model cannot be reached or refuses, the result is what the
/// extension says, and an error exactly where it says nothing.
pub proof fn law_refusal_is_made_up_for_by_the_extension(
    path: Seq<PartView>,
    request: RequestView,
    event: ClassifyEvent,
)
    requires
        event is Unreachable || (event matches ClassifyEvent::Answered { code, .. } && !success(
            code,
        )),
    ensures
        classify_after(path, StepView::Ask { request }, event) matches StepView::Done { result } && (
        result is Ok <==> fast_result(path) is Some) && (result matches Ok(c) ==> fast_result(path)
            == Some(c)),
{
}

/// How many events a step is away from the result, at most.
pub open spec fn steps_left(step: StepView) -> nat {
    match step {
        StepView::ReadPreview => 4,
        StepView::Ask { .. } => 3,
        StepView::ReadEnvelope => 2,
        StepView::Parse { .. } => 1,
        StepView::Done { .. } => 0,
    }
}

/// Whether an event answers a step.
pub open spec fn answers(event: ClassifyEvent, step: StepView) -> bool {
    match step {
        StepView::ReadPreview => event is Preview,
        StepView::Ask { .. } => event is ClientFailed || event is Unreachable || event is Answered,
        StepView::ReadEnvelope => event is Envelope,
        StepView::Parse { .. } => event is Parsed,
        StepView::Done { .. } => false,
    }
}

/// Every answered step brings the result nearer, so that a file is classified
/// after four answers at the latest.
pub proof fn law_classification_ends(path: Seq<PartView>, step: StepView, event: ClassifyEvent)
    requires
        answers(event, step),
    ensures
        steps_left(classify_after(path, step, event)) < steps_left(step),
{
}

/// Whether a text is one of some texts.
pub open spec fn is_one_of(text: Seq<char>, texts: Seq<Seq<char>>) -> bool {
    exists|i: int| 0 <= i < texts.len() && text == #[trigger] texts[i]
}

/// Whether a class is this category with this folder.
pub open spec fn of_class(
    class: (Seq<char>, Seq<char>),
    category: Seq<char>,
    folder: Seq<char>,
) -> bool {
    class.0 == category && class.1 == folder
}

/// Whether files with an extension in small letters are of a class: pictures,
/// drawings and designs are images, and so on for each kind of file.
pub open spec fn kind_of_file(extension: Seq<char>, class: (Seq<char>, Seq<char>)) -> bool {
    ||| of_class(class, "Images"@, "Images/Photos"@) && is_one_of(
        extension,
        seq![
            "jpg"@, "jpeg"@, "png"@, "gif"@, "webp"@, "bmp"@, "ico"@, "tiff"@,
        ],
    )
    ||| of_class(class, "Images"@, "Images/Vector"@) && is_one_of(
        extension,
        seq![
            "svg"@,
        ],
    )
    ||| of_class(class, "Images"@, "Images/Design"@) && is_one_of(
        extension,
        seq![
            "psd"@, "ai"@, "figma"@, "sketch"@,
        ],
    )
    ||| of_class(class, "Videos"@, "Videos"@) && is_one_of(
        extension,
        seq![
            "mp4"@, "mkv"@, "avi"@, "mov"@, "wmv"@, "webm"@, "flv"@,
        ],
    )
    ||| of_class(class, "Music"@, "Music"@) && is_one_of(
        extension,
        seq![
            "mp3"@, "wav"@, "flac"@, "aac"@, "ogg"@, "m4a"@,
        ],
    )
    ||| of_class(class, "Documents"@, "Documents"@) && is_one_of(
        extension,
        seq![
            "doc"@, "docx"@, "txt"@, "rtf"@, "odt"@,
        ],
    )
    ||| of_class(class, "PDFs"@, "Documents/PDFs"@) && is_one_of(
        extension,
        seq![
            "pdf"@,
        ],
    )
    ||| of_class(class, "Spreadsheets"@, "Documents/Spreadsheets"@) && is_one_of(
        extension,
        seq![
            "xls"@, "xlsx"@, "csv"@, "ods"@,
        ],
    )
    ||| of_class(class, "Code"@, "Code"@) && is_one_of(
        extension,
        seq![
            "rs"@, "js"@, "ts"@, "py"@, "go"@, "java"@, "cpp"@, "c"@, "h"@, "css"@,
            "html"@, "json"@, "toml"@, "yaml"@,
        ],
    )
    ||| of_class(class, "Archives"@, "Archives"@) && is_one_of(
        extension,
        seq![
            "zip"@, "rar"@, "7z"@, "tar"@, "gz"@, "bz2"@,
        ],
    )
    ||| of_class(class, "Installers"@, "Installers"@) && is_one_of(
        extension,
        seq![
            "exe"@, "msi"@, "dmg"@, "deb"@, "rpm"@,
        ],
    )
}

/// What the extension alone says of a file: the file is of the kind that has
/// that extension, as sure as 0.95, for the reason that names the extension;
/// and a file of no such kind is not known.
pub proof fn law_kinds_of_files(p: FilePath, r: Option<ClassificationResult>)
    requires
        call_ensures(fast_classify, (&p,), r),
    ensures
        extension_text(p@) is None ==> r is None,
        extension_text(p@) matches Some(e) ==> {
            &&& r matches Some(c) ==> kind_of_file(
                lowercase(e),
                (c.category@, c.suggested_folder@),
            ) && c.confidence.bits == 0x3FEE_6666_6666_6666 && c.reasoning@
                == "Classified by file extension '."@ + lowercase(e) + "'"@
            &&& r is None ==> forall|class: (Seq<char>, Seq<char>)| !#[trigger]
                kind_of_file(lowercase(e), class)
        },
{
    if let Some(e) = extension_text(p@) {
        let ext = lowercase(e);
        let k0 = seq![
            "jpg"@, "jpeg"@, "png"@, "gif"@, "webp"@, "bmp"@, "ico"@, "tiff"@,
        ];
        let k1 = seq![
            "svg"@,
        ];
        let k2 = seq![
            "psd"@, "ai"@, "figma"@, "sketch"@,
        ];
        let k3 = seq![
            "mp4"@, "mkv"@, "avi"@, "mov"@, "wmv"@, "webm"@, "flv"@,
        ];
        let k4 = seq![
            "mp3"@, "wav"@, "flac"@, "aac"@, "ogg"@, "m4a"@,
        ];
        let k5 = seq![
            "doc"@, "docx"@, "txt"@, "rtf"@, "odt"@,
        ];
        let k6 = seq![
            "pdf"@,
        ];
        let k7 = seq![
            "xls"@, "xlsx"@, "csv"@, "ods"@,
        ];
        let k8 = seq![
            "rs"@, "js"@, "ts"@, "py"@, "go"@, "java"@, "cpp"@, "c"@, "h"@, "css"@,
            "html"@, "json"@, "toml"@, "yaml"@,
        ];
        let k9 = seq![
            "zip"@, "rar"@, "7z"@, "tar"@, "gz"@, "bz2"@,
        ];
        let k10 = seq![
            "exe"@, "msi"@, "dmg"@, "deb"@, "rpm"@,
        ];
        assert(k0[0] == "jpg"@ && k0[1] == "jpeg"@ && k0[2] == "png"@ && k0[3] == "gif"@ && k0[4] == "webp"@ && k0[5] == "bmp"@ && k0[6] == "ico"@ && k0[7] == "tiff"@);
        assert(k1[0] == "svg"@);
        assert(k2[0] == "psd"@ && k2[1] == "ai"@ && k2[2] == "figma"@ && k2[3] == "sketch"@);
        assert(k3[0] == "mp4"@ && k3[1] == "mkv"@ && k3[2] == "avi"@ && k3[3] == "mov"@ && k3[4] == "wmv"@ && k3[5] == "webm"@ && k3[6] == "flv"@);
        assert(k4[0] == "mp3"@ && k4[1] == "wav"@ && k4[2] == "flac"@ && k4[3] == "aac"@ && k4[4] == "ogg"@ && k4[5] == "m4a"@);
        assert(k5[0] == "doc"@ && k5[1] == "docx"@ && k5[2] == "txt"@ && k5[3] == "rtf"@ && k5[4] == "odt"@);
        assert(k6[0] == "pdf"@);
        assert(k7[0] == "xls"@ && k7[1] == "xlsx"@ && k7[2] == "csv"@ && k7[3] == "ods"@);
        assert(k8[0] == "rs"@ && k8[1] == "js"@ && k8[2] == "ts"@ && k8[3] == "py"@ && k8[4] == "go"@ && k8[5] == "java"@ && k8[6] == "cpp"@ && k8[7] == "c"@ && k8[8] == "h"@ && k8[9] == "css"@ && k8[10] == "html"@ && k8[11] == "json"@ && k8[12] == "toml"@ && k8[13] == "yaml"@);
        assert(k9[0] == "zip"@ && k9[1] == "rar"@ && k9[2] == "7z"@ && k9[3] == "tar"@ && k9[4] == "gz"@ && k9[5] == "bz2"@);
        assert(k10[0] == "exe"@ && k10[1] == "msi"@ && k10[2] == "dmg"@ && k10[3] == "deb"@ && k10[4] == "rpm"@);
        match r {
            Some(c) => {
                let class = (c.category@, c.suggested_folder@);
                assert(extension_class(ext) == Some(class));
            },
            None => {},
        }
    }
}

/// Files with the same extension are classified alike, whatever else their
/// paths hold.
pub proof fn law_only_the_extension_counts(
    a: FilePath,
    b: FilePath,
    r: Option<ClassificationResult>,
    other: Option<ClassificationResult>,
)
    requires
        extension_text(a@) == extension_text(b@),
        call_ensures(fast_classify, (&a,), r),
        call_ensures(fast_classify, (&b,), other),
    ensures
        r is Some <==> other is Some,
        r matches Some(c) ==> other matches Some(d) && c@ == d@,
{
}

/// The case of the letters of an ASCII extension makes no difference to the
/// class.
pub proof fn law_case_of_the_extension_does_not_count(
    a: FilePath,
    b: FilePath,
    x: Seq<char>,
    y: Seq<char>,
    r: Option<ClassificationResult>,
    other: Option<ClassificationResult>,
)
    requires
        extension_text(a@) == Some(x),
        extension_text(b@) == Some(y),
        is_ascii_chars(x),
        is_ascii_chars(y),
        x.len() == y.len(),
        forall|i: int| 0 <= i < x.len() ==> same_letter(#[trigger] x[i], y[i]),
        call_ensures(fast_classify, (&a,), r),
        call_ensures(fast_classify, (&b,), other),
    ensures
        r is Some <==> other is Some,
        r matches Some(c) ==> other matches Some(d) && c@ == d@,
{
    law_small_letters_forget_the_case(x, y);
}

/// A file is classified at once where its extension says what it is, with just
/// that; and else the model comes next.
pub proof fn law_extension_comes_first(
    p: FilePath,
    fast: Option<ClassificationResult>,
    r: ClassifyStep,
)
    requires
        call_ensures(fast_classify, (&p,), fast),
        call_ensures(classify, (&p,), r),
    ensures
        fast matches Some(c) ==> r@ == (StepView::Done { result: Ok(c@) }),
        fast is None ==> r@ is ReadPreview,
{
}

/// What the model answers is the result, whatever it is: where the model is
/// reached, answers with a success status, and its answer can be read.
pub proof fn law_answer_is_the_result(
    p: FilePath,
    bytes: Vec<u8>,
    code: u16,
    status: String,
    text: String,
    answer: ClassificationResult,
    asked: ClassifyStep,
    answered: ClassifyStep,
    read: ClassifyStep,
    r: ClassifyStep,
)
    requires
        200 <= code < 300,
        call_ensures(
            ai_classify,
            (&p, ClassifyStep::ReadPreview, ClassifyEvent::Preview { bytes }),
            asked,
        ),
        call_ensures(
            ai_classify,
            (&p, asked, ClassifyEvent::Answered { code, status }),
            answered,
        ),
        call_ensures(
            ai_classify,
            (&p, answered, ClassifyEvent::Envelope { text: Ok(text) }),
            read,
        ),
        call_ensures(ai_classify, (&p, read, ClassifyEvent::Parsed { result: Ok(answer) }), r),
    ensures
        asked@ is Ask,
        answered@ is ReadEnvelope,
        read@ == (StepView::Parse { text: text@ }),
        r@ == (StepView::Done { result: Ok(answer@) }),
{
}

/// An answer that was read is the result, whatever text it was read from and
/// whatever it is.
pub proof fn law_answer_is_taken_as_it_is(
    p: FilePath,
    text: String,
    answer: ClassificationResult,
    r: ClassifyStep,
)
    requires
        call_ensures(
            ai_classify,
            (
                &p,
                ClassifyStep::Parse { text },
                ClassifyEvent::Parsed { result: Ok(answer) },
            ),
            r,
        ),
    ensures
        r@ == (StepView::Done { result: Ok(answer@) }),
{
}

/// An answer that cannot be read is an error with its cause, even where the
/// extension is known.
pub proof fn law_unreadable_answer_is_an_error(
    p: FilePath,
    text: String,
    cause: String,
    envelope: ClassifyStep,
    r: ClassifyStep,
)
    requires
        call_ensures(
            ai_classify,
            (&p, ClassifyStep::ReadEnvelope, ClassifyEvent::Envelope { text: Err(cause) }),
            envelope,
        ),
        call_ensures(
            ai_classify,
            (&p, ClassifyStep::Parse { text }, ClassifyEvent::Parsed { result: Err(cause) }),
            r,
        ),
    ensures
        envelope@ == (StepView::Done {
            result: Err("Failed to parse Ollama envelope: "@ + cause@),
        }),
        r@ == (StepView::Done {
            result: Err("Failed to parse classification JSON: "@ + cause@),
        }),
{
}

/// Where the model cannot be asked, is not reached or refuses, the result is
/// what the extension says; and where that says nothing, or there is no client
/// to ask with, an error that tells why.
pub proof fn law_without_an_answer_the_extension_decides(
    p: FilePath,
    request: OllamaRequest,
    error: String,
    code: u16,
    status: String,
    fast: Option<ClassificationResult>,
    no_client: ClassifyStep,
    unreachable: ClassifyStep,
    refused: ClassifyStep,
)
    requires
        code < 200 || code >= 300,
        call_ensures(fast_classify, (&p,), fast),
        call_ensures(
            ai_classify,
            (&p, ClassifyStep::Ask { request }, ClassifyEvent::ClientFailed { error }),
            no_client,
        ),
        call_ensures(
            ai_classify,
            (&p, ClassifyStep::Ask { request }, ClassifyEvent::Unreachable),
            unreachable,
        ),
        call_ensures(
            ai_classify,
            (&p, ClassifyStep::Ask { request }, ClassifyEvent::Answered { code, status }),
            refused,
        ),
    ensures
        no_client@ == (StepView::Done {
            result: Err("Failed to build HTTP client: "@ + error@),
        }),
        match fast {
            Some(c) => {
                &&& unreachable@ == (StepView::Done { result: Ok(c@) })
                &&& refused@ == (StepView::Done { result: Ok(c@) })
            },
            None => {
                &&& unreachable@ == (StepView::Done {
                    result: Err("Ollama unreachable and extension is unrecognised"@),
                })
                &&& refused@ == (StepView::Done { result: Err("Ollama returned "@ + status@) })
            },
        },
{
}

/// The model is asked by name, for one answer in JSON; the prompt names the
/// file and shows the beginning of what it holds, unless that is blank, and
/// nothing else of the file.
pub proof fn law_prompt_shows_the_file(
    p: FilePath,
    bytes: Vec<u8>,
    preview: String,
    name: Option<String>,
    r: ClassifyStep,
)
    requires
        call_ensures(FilePath::file_name, (&p,), name),
        call_ensures(read_file_preview, (&bytes, 500), preview),
        call_ensures(
            ai_classify,
            (&p, ClassifyStep::ReadPreview, ClassifyEvent::Preview { bytes }),
            r,
        ),
    ensures
        r@ matches StepView::Ask { request } && {
            let shown = match name {
                Some(t) => t@,
                None => "unknown"@,
            };
            &&& request.model == "llama3.2"@
            &&& request.format == "json"@
            &&& !request.stream
            &&& request.prompt == if (exists|i: int|
                0 <= i < preview@.len() && !whitespace(#[trigger] preview@[i])) {
                PROMPT_HEAD@ + shown + PROMPT_PREVIEW@ + preview@ + PROMPT_TAIL@
            } else {
                PROMPT_HEAD@ + shown + PROMPT_TAIL@
            }
        },
{
}

/// The preview of a file is the text of its first bytes, up to the limit: what
/// follows makes no difference, and a shorter file is shown whole.
pub proof fn law_preview_is_the_beginning(
    bytes: Vec<u8>,
    head: Vec<u8>,
    max_bytes: usize,
    r: String,
    of_head: String,
)
    requires
        head@ == (if bytes@.len() > max_bytes {
            bytes@.take(max_bytes as int)
        } else {
            bytes@
        }),
        call_ensures(read_file_preview, (&bytes, max_bytes), r),
        call_ensures(read_file_preview, (&head, max_bytes), of_head),
    ensures
        r@ == of_head@,
        valid_utf8(head@) ==> r@ == decode_utf8(head@),
{
}

/// An event that does not belong to the step changes nothing, and what is done
/// stays done.
pub proof fn law_stray_answer_changes_nothing(
    p: FilePath,
    step: ClassifyStep,
    event: ClassifyEvent,
    r: ClassifyStep,
)
    requires
        call_ensures(ai_classify, (&p, step, event), r),
        !(step is ReadPreview && event is Preview),
        !(step is Ask && (event is ClientFailed || event is Unreachable || event is Answered)),
        !(step is ReadEnvelope && event is Envelope),
        !(step is Parse && event is Parsed),
    ensures
        r@ == step@,
{
}

} // verus!
