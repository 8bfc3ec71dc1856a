//! The transcription/cleanup boundary: the error taxonomy shared with the
//! provider collaborators, the collaborator interfaces themselves, and the
//! verified decisions applied to what a provider hands back — which
//! alternative becomes the transcript, and when a cleaned-up reply is
//! trusted over the raw one.

use vstd::prelude::*;

verus! {

use vstd::string::StrSliceExecFns;
use vstd::string::StringExecFns;
use crate::text::{is_blank_text, str_is_blank, trim_text, trimmed};

/// Why transcription or cleanup failed.
#[derive(Debug, PartialEq, Eq)]
pub enum AudioProcessorError {
    /// No transcription credential is stored.
    MissingApiKey,
    /// No cleanup credential is stored.
    MissingGeminiApiKey,
    /// The provider could not be reached or answered abnormally.
    Request(String),
    /// The provider answered, but with no usable words.
    EmptyTranscript,
}

/// Turns a finished capture into text. Implemented by the platform shell
/// against a speech-to-text provider.
pub trait AudioProcessor {
    fn process_file(&self, audio_path: &str) -> Result<String, AudioProcessorError>;
}

/// Tidies a transcript up. Implemented by the platform shell against a
/// language-model provider.
pub trait TranscriptCleaner {
    fn clean(&self, transcript: &str) -> Result<String, AudioProcessorError>;
}

/// Whether an HTTP status code means success.
pub fn is_success_status(status: u16) -> (r: bool)
    ensures
        r == (200 <= status < 300),
{
    200 <= status && status < 300
}

/// The first text in `texts` with visible content, if any.
pub open spec fn first_nonblank(texts: Seq<Seq<char>>) -> Option<Seq<char>>
    decreases texts.len(),
{
    if texts.len() == 0 {
        None
    } else if !is_blank_text(texts[0]) {
        Some(texts[0])
    } else {
        first_nonblank(texts.drop_first())
    }
}

proof fn lemma_first_nonblank_skip(texts: Seq<Seq<char>>, i: int)
    requires
        0 <= i <= texts.len(),
        forall|j: int| 0 <= j < i ==> is_blank_text(texts[j]),
    ensures
        first_nonblank(texts) == first_nonblank(texts.skip(i)),
    decreases i,
{
    if i == 0 {
        assert(texts.skip(0) =~= texts);
    } else {
        lemma_first_nonblank_skip(texts.drop_first(), i - 1);
        assert(texts.drop_first().skip(i - 1) =~= texts.skip(i));
    }
}

/// Pick the transcript out of a provider response: the first alternative
/// with any visible content wins; a response of nothing but blank
/// alternatives is an empty transcript.
pub fn select_transcript(alternatives: &Vec<String>) -> (r: Result<String, AudioProcessorError>)
    ensures
        match first_nonblank(alternatives.deep_view()) {
            Some(t) => r matches Ok(s) && s@ == t,
            None => (r matches Err(e) && e == AudioProcessorError::EmptyTranscript),
        },
{
    let ghost texts = alternatives.deep_view();
    let n = alternatives.len();
    let mut i: usize = 0;
    while i < n
        invariant
            0 <= i <= n == alternatives.len(),
            texts == alternatives.deep_view(),
            forall|j: int| 0 <= j < i ==> is_blank_text(texts[j]),
        ensures
            0 <= i <= n == alternatives.len(),
            texts == alternatives.deep_view(),
            i == n || !is_blank_text(texts[i as int]),
            forall|j: int| 0 <= j < i ==> is_blank_text(texts[j]),
        decreases n - i,
    {
        assert(texts[i as int] == alternatives@[i as int]@);
        if !str_is_blank(alternatives[i].as_str()) {
            break;
        }
        i = i + 1;
    }
    proof {
        lemma_first_nonblank_skip(texts, i as int);
    }
    if i == n {
        proof {
            assert(texts.skip(i as int).len() == 0);
        }
        Err(AudioProcessorError::EmptyTranscript)
    } else {
        proof {
            assert(texts.skip(i as int)[0] == texts[i as int]);
        }
        assert(texts[i as int] == alternatives@[i as int]@);
        Ok(alternatives[i].clone())
    }
}

/// What the cleanup step settles on, given the raw transcript and the parts
/// of the provider's reply: the first part with visible content, trimmed —
/// unless it has grown past three times the raw transcript, in which case
/// the reply is distrusted and the raw transcript kept. `None` when the
/// reply holds no visible content at all.
pub open spec fn cleaned_reply(original: Seq<char>, parts: Seq<Seq<char>>) -> Option<Seq<char>> {
    match first_nonblank(parts) {
        None => None,
        Some(t) => {
            let c = trim_text(t);
            if c.len() <= 3 * original.len() {
                Some(c)
            } else {
                Some(original)
            }
        },
    }
}

/// Resolve the cleanup provider's reply against the raw transcript,
/// applying the over-length guard. An all-blank reply is an error, as the
/// provider was asked for cleaned text and produced none.
pub fn resolve_cleaned_text(transcript: &str, parts: &Vec<String>) -> (r: Result<
    String,
    AudioProcessorError,
>)
    ensures
        match cleaned_reply(transcript@, parts.deep_view()) {
            Some(t) => r matches Ok(s) && s@ == t,
            None => (r matches Err(e) && e matches AudioProcessorError::Request(m) && m@
                == "cleanup reply held no text"@),
        },
{
    match select_transcript(parts) {
        Ok(candidate) => {
            let c = trimmed(candidate.as_str());
            let c_len = c.unicode_len();
            let t_len = transcript.unicode_len();
            if c_len as u128 <= 3 * (t_len as u128) {
                Ok(c.to_owned())
            } else {
                Ok(transcript.to_owned())
            }
        },
        Err(_) => Err(AudioProcessorError::Request(String::from_str(
            "cleanup reply held no text",
        ))),
    }
}

/// A blank transcript is returned unchanged (as empty text) without asking
/// the cleanup provider anything.
pub fn short_circuit_blank(transcript: &str) -> (r: Option<String>)
    ensures
        match r {
            Some(s) => is_blank_text(transcript@) && s@ == Seq::<char>::empty(),
            None => !is_blank_text(transcript@),
        },
{
    if str_is_blank(transcript) {
        Some(String::new())
    } else {
        None
    }
}

} // verus!
