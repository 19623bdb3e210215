use crate::retriever::{blank, is_blank};
use crate::search::{has_prefix, starts_with};
use crate::text::{chars_of, join2, push_text, string_of};
use crate::transmutation::{extension, extension_of};
use vstd::prelude::*;
use vstd::string::StringExecFns;
use vstd::utf8::encode_utf8;

verus! {

/// The media type that `mime_guess` gives for a file extension: the first
/// of its guesses, or `application/octet-stream` where it has none. The
/// guesses are those of the version of `mime_guess` that the library is
/// built with; another version may guess otherwise.
pub uninterp spec fn mime_for_extension(ext: Seq<char>) -> Seq<char>;

/// Calls `mime_guess::from_ext` and takes `first_or_octet_stream` of the
/// guess, as text. The contract claims no more than that the outcome
/// depends on the extension alone.
#[verifier::external_body]
fn mime_of_extension(ext: &str) -> (r: String)
    ensures
        r@ == mime_for_extension(ext@),
{
    mime_guess::from_ext(ext).first_or_octet_stream().to_string()
}

/// The media type of a file that tells nothing about itself.
pub open spec fn unknown_mime() -> Seq<char> {
    "application/octet-stream"@
}

/// The media type of a file of the given name: that of the extension of
/// its last component, or the unknown type where it has none.
pub open spec fn mime_of(filename: Seq<char>) -> Seq<char> {
    match extension_of(filename) {
        Some(ext) => mime_for_extension(ext),
        None => unknown_mime(),
    }
}

/// Guesses the media type of a file from its name.
pub fn guess_mime(filename: &str) -> (r: String)
    ensures
        r@ == mime_of(filename@),
{
    match extension(filename) {
        Some(ext) => mime_of_extension(ext.as_str()),
        None => String::from_str("application/octet-stream"),
    }
}

/// How an uploaded file is turned into text.
#[derive(Clone, Copy, Debug, PartialEq, Eq, Structural)]
pub enum UploadKind {
    /// A picture: the model describes it.
    Image,
    /// A recording: the model transcribes it.
    Audio,
    /// Anything else: its text is extracted.
    Document,
}

/// The kind of upload that a media type stands for.
pub open spec fn kind_of_mime(mime: Seq<char>) -> UploadKind {
    if starts_with(mime, "image/"@) {
        UploadKind::Image
    } else if starts_with(mime, "audio/"@) {
        UploadKind::Audio
    } else {
        UploadKind::Document
    }
}

/// The kind of upload that a media type stands for.
pub fn classify_mime(mime: &str) -> (r: UploadKind)
    ensures
        r == kind_of_mime(mime@),
{
    let m: Vec<char> = chars_of(mime);
    let image: Vec<char> = chars_of("image/");
    let audio: Vec<char> = chars_of("audio/");
    if has_prefix(&m, &image) {
        UploadKind::Image
    } else if has_prefix(&m, &audio) {
        UploadKind::Audio
    } else {
        UploadKind::Document
    }
}

/// The kind of upload that a file of the given name is.
pub fn classify_upload(filename: &str) -> (r: UploadKind)
    ensures
        r == kind_of_mime(mime_of(filename@)),
{
    let mime: String = guess_mime(filename);
    classify_mime(mime.as_str())
}

/// The label under which the text of an upload of the given kind is
/// framed; a document is not framed.
pub open spec fn frame_label(kind: UploadKind) -> Seq<char> {
    match kind {
        UploadKind::Image => "IMG"@,
        UploadKind::Audio => "AUDIO"@,
        UploadKind::Document => Seq::empty(),
    }
}

/// The words that introduce a failure for an upload of the given kind.
pub open spec fn failure_label(kind: UploadKind) -> Seq<char> {
    match kind {
        UploadKind::Image => "Error Visión: "@,
        UploadKind::Audio => "Error Audio: "@,
        UploadKind::Document => "Error Formato: "@,
    }
}

/// The text of an upload as it enters the content: a picture's description
/// or a recording's transcript in a frame that names the file, a document's
/// text as it is.
pub open spec fn section_text(kind: UploadKind, filename: Seq<char>, text: Seq<char>) -> Seq<
    char,
> {
    match kind {
        UploadKind::Document => text,
        _ => "--- ["@ + frame_label(kind) + ": "@ + filename + "] ---\n"@ + text + "\n---"@,
    }
}

/// What processing an upload ends in: its section, or the failure in words.
pub fn section_for(kind: UploadKind, filename: &str, outcome: Result<String, String>) -> (r: Result<
    String,
    String,
>)
    ensures
        match outcome {
            Ok(text) => r matches Ok(section) && section@ == section_text(
                kind,
                filename@,
                text@,
            ),
            Err(why) => r matches Err(said) && said@ == failure_label(kind) + why@,
        },
{
    match outcome {
        Ok(text) => {
            let label: &str = match kind {
                UploadKind::Document => {
                    return Ok(text);
                },
                UploadKind::Image => "IMG",
                UploadKind::Audio => "AUDIO",
            };
            let mut out: Vec<char> = chars_of("--- [");
            push_text(&mut out, label);
            push_text(&mut out, ": ");
            push_text(&mut out, filename);
            push_text(&mut out, "] ---\n");
            push_text(&mut out, text.as_str());
            push_text(&mut out, "\n---");
            Ok(string_of(&out))
        },
        Err(why) => {
            let label: &str = match kind {
                UploadKind::Image => "Error Visión: ",
                UploadKind::Audio => "Error Audio: ",
                UploadKind::Document => "Error Formato: ",
            };
            Err(join2(label, why.as_str()))
        },
    }
}

/// A content of no more bytes than this is not worth ingesting.
pub const MIN_CONTENT_BYTES: usize = 5;

/// The content gathered from the parts of one upload request.
#[derive(Clone, Debug)]
pub struct IngestBuffer {
    pub content: String,
    pub found: bool,
}

/// What separates the sections of the gathered content.
pub open spec fn section_break() -> Seq<char> {
    "\n\n"@
}

impl IngestBuffer {
    /// Whether the gathered content is to be ingested: something was found
    /// and it is longer than the minimum.
    pub open spec fn ready(self) -> bool {
        self.found && encode_utf8(self.content@).len() > MIN_CONTENT_BYTES
    }

    /// A buffer that holds nothing.
    pub fn new() -> (r: Self)
        ensures
            r.content@.len() == 0,
            !r.found,
    {
        IngestBuffer { content: String::new(), found: false }
    }

    /// Adds the section of a file that was processed, and a break after it.
    pub fn add_section(&mut self, section: &str)
        ensures
            final(self).content@ == old(self).content@ + section@ + section_break(),
            final(self).found,
    {
        self.content.append(section);
        self.content.append("\n\n");
        self.found = true;
    }

    /// Adds the text of a content field, unless it is blank.
    pub fn add_field(&mut self, text: &str)
        ensures
            blank(text@) ==> *final(self) == *old(self),
            !blank(text@) ==> final(self).content@ == old(self).content@ + text@,
            !blank(text@) ==> final(self).found,
    {
        if !is_blank(text) {
            self.content.append(text);
            self.found = true;
        }
    }

    /// Whether the gathered content is to be ingested.
    pub fn is_ready(&self) -> (r: bool)
        ensures
            r == self.ready(),
    {
        self.found && self.content.as_str().as_bytes().len() > MIN_CONTENT_BYTES
    }
}

} // verus!
