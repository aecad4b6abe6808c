//! The message pipeline's settings, response kinds, and the text a
//! message carries to the model once its media are understood.

use vstd::prelude::*;

use crate::content::ContentType;
use crate::text::{push_str, to_owned_string};

verus! {

/// Pipeline settings.
#[derive(Debug, Clone)]
pub struct PipelineConfig {
    /// Describe images with a model.
    pub enable_image_understanding: bool,
    /// Describe documents with a model.
    pub enable_document_understanding: bool,
    /// Transcribe audio.
    pub enable_audio_transcription: bool,
    /// Model provider for media understanding.
    pub media_llm_provider: String,
    /// Model for media understanding.
    pub media_llm_model: String,
    /// Largest attachment accepted, in bytes.
    pub max_attachment_size: usize,
    /// Content types the pipeline handles.
    pub supported_content_types: Vec<ContentType>,
}

impl Default for PipelineConfig {
    /// Everything enabled, `openai`/`gpt-4o`, attachments up to 100 MiB,
    /// and text, image, file, audio, video, rich and card content.
    fn default() -> (c: Self)
        ensures
            c.enable_image_understanding,
            c.enable_document_understanding,
            c.enable_audio_transcription,
            c.media_llm_provider@ == "openai"@,
            c.media_llm_model@ == "gpt-4o"@,
            c.max_attachment_size == 100 * 1024 * 1024,
            c.supported_content_types@ == seq![
                ContentType::Text,
                ContentType::Image,
                ContentType::File,
                ContentType::Audio,
                ContentType::Video,
                ContentType::Rich,
                ContentType::Card,
            ],
    {
        let mut types: Vec<ContentType> = Vec::new();
        types.push(ContentType::Text);
        types.push(ContentType::Image);
        types.push(ContentType::File);
        types.push(ContentType::Audio);
        types.push(ContentType::Video);
        types.push(ContentType::Rich);
        types.push(ContentType::Card);
        PipelineConfig {
            enable_image_understanding: true,
            enable_document_understanding: true,
            enable_audio_transcription: true,
            media_llm_provider: to_owned_string("openai"),
            media_llm_model: to_owned_string("gpt-4o"),
            max_attachment_size: 100 * 1024 * 1024,
            supported_content_types: types,
        }
    }
}

impl PipelineConfig {
    /// Whether the pipeline handles a content type.
    pub fn supports(&self, t: ContentType) -> (b: bool)
        ensures
            b == self.supported_content_types@.contains(t),
    {
        let mut i: usize = 0;
        while i < self.supported_content_types.len()
            invariant
                i <= self.supported_content_types.len(),
                forall|j: int| 0 <= j < i ==> self.supported_content_types@[j] != t,
            decreases self.supported_content_types.len() - i,
        {
            if self.supported_content_types[i] == t {
                return true;
            }
            i = i + 1;
        }
        false
    }
}

/// The kind of a response sent back on a channel.
#[derive(Debug, Clone, Copy, PartialEq, Eq, Structural)]
pub enum ResponseType {
    Text,
    Image,
    File,
    RichMedia,
    Card,
}

/// What the media services made of an attachment, as the pipeline reads
/// it: an image's description, a document's title and summary, or an audio
/// transcription.
#[derive(Debug, Clone, PartialEq, Eq)]
pub enum MediaUnderstandingResult {
    Image { description: String },
    Document { title: Option<String>, summary: String },
    Audio { text: String },
}

/// The note appended to a message's text for one understood attachment.
pub open spec fn media_note(r: MediaUnderstandingResult) -> Seq<char> {
    match r {
        MediaUnderstandingResult::Image { description } => "\n\n[Image: "@ + description@ + "]"@,
        MediaUnderstandingResult::Document { title, summary } => "\n\n[Document: "@ + (match title {
            Some(t) => t@,
            None => "Unknown"@,
        }) + " - "@ + summary@ + "]"@,
        MediaUnderstandingResult::Audio { text } => "\n\n[Audio Transcription: "@ + text@ + "]"@,
    }
}

/// A message's text followed by the notes of its understood attachments,
/// in order.
pub open spec fn with_media_notes(text: Seq<char>, results: Seq<MediaUnderstandingResult>) -> Seq<char>
    decreases results.len(),
{
    if results.len() == 0 {
        text
    } else {
        with_media_notes(text, results.drop_last()) + media_note(results.last())
    }
}

/// The text sent to the model for a message: its content, then a note for
/// each understood attachment.
pub fn media_context_text(content: &str, results: &Vec<MediaUnderstandingResult>) -> (s: String)
    ensures
        s@ == with_media_notes(content@, results@),
{
    let mut s = to_owned_string(content);
    let mut i: usize = 0;
    while i < results.len()
        invariant
            i <= results@.len(),
            s@ == with_media_notes(content@, results@.subrange(0, i as int)),
        decreases results.len() - i,
    {
        let ghost before = s@;
        match &results[i] {
            MediaUnderstandingResult::Image { description } => {
                push_str(&mut s, "\n\n[Image: ");
                push_str(&mut s, description.as_str());
                push_str(&mut s, "]");
            },
            MediaUnderstandingResult::Document { title, summary } => {
                push_str(&mut s, "\n\n[Document: ");
                match title {
                    Some(t) => push_str(&mut s, t.as_str()),
                    None => push_str(&mut s, "Unknown"),
                }
                push_str(&mut s, " - ");
                push_str(&mut s, summary.as_str());
                push_str(&mut s, "]");
            },
            MediaUnderstandingResult::Audio { text } => {
                push_str(&mut s, "\n\n[Audio Transcription: ");
                push_str(&mut s, text.as_str());
                push_str(&mut s, "]");
            },
        }
        assert(results@.subrange(0, i + 1).drop_last() =~= results@.subrange(0, i as int));
        assert(s@ =~= before + media_note(results@[i as int]));
        i = i + 1;
    }
    assert(results@.subrange(0, results@.len() as int) =~= results@);
    s
}

} // verus!
