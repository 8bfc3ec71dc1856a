//! Settings and credential bookkeeping.
//!
//! The stored state is four optional values: two provider credentials and
//! two boolean switches. [`CredentialStore`] is the verified in-memory
//! model of that state; the platform shell loads it from and persists it to
//! disk around every mutation. [`SecureKeyStore`] is the interface the
//! shell's persistent store implements for the collaborators that need
//! credentials. The key-validation helpers carry the decisions of the
//! settings commands: how a submitted key is normalised and how the
//! provider's answer to a validation probe is read.

use vstd::prelude::*;

verus! {

use vstd::string::StrSliceExecFns;
use crate::text::{is_blank_text, trim_text, trimmed};

/// Why a read or write of the persistent settings store failed.
#[derive(Debug, PartialEq, Eq)]
pub struct StoreError {
    pub message: String,
}

/// Persistent credential and settings storage, as the collaborators see
/// it. Implemented by the platform shell; reads and writes may fail with
/// the store's own error.
pub trait SecureKeyStore {
    fn save_deepgram_key(&mut self, api_key: String) -> Result<(), StoreError>;

    fn read_deepgram_key(&self) -> Result<Option<String>, StoreError>;

    fn clear_deepgram_key(&mut self) -> Result<(), StoreError>;

    fn save_gemini_key(&mut self, api_key: String) -> Result<(), StoreError>;

    fn read_gemini_key(&self) -> Result<Option<String>, StoreError>;

    fn clear_gemini_key(&mut self) -> Result<(), StoreError>;

    fn save_processing_enabled(&mut self, enabled: bool) -> Result<(), StoreError>;

    fn read_processing_enabled(&self) -> Result<bool, StoreError>;

    fn save_logging_enabled(&mut self, enabled: bool) -> Result<(), StoreError>;

    fn read_logging_enabled(&self) -> Result<bool, StoreError>;
}

/// The in-memory model of the stored settings: what is saved, read and
/// cleared. Every mutation leaves the other three values untouched, and
/// the boolean switches read as off until first set.
#[derive(Debug)]
pub struct CredentialStore {
    pub deepgram_api_key: Option<String>,
    pub gemini_api_key: Option<String>,
    pub processing_enabled: Option<bool>,
    pub logging_enabled: Option<bool>,
}

impl CredentialStore {
    /// The value of the post-processing switch: off until set.
    pub open spec fn processing_enabled_value(self) -> bool {
        match self.processing_enabled {
            Some(b) => b,
            None => false,
        }
    }

    /// The value of the logging switch: off until set.
    pub open spec fn logging_enabled_value(self) -> bool {
        match self.logging_enabled {
            Some(b) => b,
            None => false,
        }
    }

    /// A store with nothing saved yet.
    pub fn new() -> (s: CredentialStore)
        ensures
            s.deepgram_api_key is None,
            s.gemini_api_key is None,
            s.processing_enabled is None,
            s.logging_enabled is None,
    {
        CredentialStore {
            deepgram_api_key: None,
            gemini_api_key: None,
            processing_enabled: None,
            logging_enabled: None,
        }
    }

    pub fn save_deepgram_key(&mut self, api_key: String)
        ensures
            final(self).deepgram_api_key == Some(api_key),
            final(self).gemini_api_key == old(self).gemini_api_key,
            final(self).processing_enabled == old(self).processing_enabled,
            final(self).logging_enabled == old(self).logging_enabled,
    {
        self.deepgram_api_key = Some(api_key);
    }

    pub fn read_deepgram_key(&self) -> (r: Option<String>)
        ensures
            r == self.deepgram_api_key,
    {
        match &self.deepgram_api_key {
            Some(k) => Some(k.clone()),
            None => None,
        }
    }

    pub fn clear_deepgram_key(&mut self)
        ensures
            final(self).deepgram_api_key is None,
            final(self).gemini_api_key == old(self).gemini_api_key,
            final(self).processing_enabled == old(self).processing_enabled,
            final(self).logging_enabled == old(self).logging_enabled,
    {
        self.deepgram_api_key = None;
    }

    pub fn save_gemini_key(&mut self, api_key: String)
        ensures
            final(self).gemini_api_key == Some(api_key),
            final(self).deepgram_api_key == old(self).deepgram_api_key,
            final(self).processing_enabled == old(self).processing_enabled,
            final(self).logging_enabled == old(self).logging_enabled,
    {
        self.gemini_api_key = Some(api_key);
    }

    pub fn read_gemini_key(&self) -> (r: Option<String>)
        ensures
            r == self.gemini_api_key,
    {
        match &self.gemini_api_key {
            Some(k) => Some(k.clone()),
            None => None,
        }
    }

    pub fn clear_gemini_key(&mut self)
        ensures
            final(self).gemini_api_key is None,
            final(self).deepgram_api_key == old(self).deepgram_api_key,
            final(self).processing_enabled == old(self).processing_enabled,
            final(self).logging_enabled == old(self).logging_enabled,
    {
        self.gemini_api_key = None;
    }

    pub fn save_processing_enabled(&mut self, enabled: bool)
        ensures
            final(self).processing_enabled == Some(enabled),
            final(self).deepgram_api_key == old(self).deepgram_api_key,
            final(self).gemini_api_key == old(self).gemini_api_key,
            final(self).logging_enabled == old(self).logging_enabled,
    {
        self.processing_enabled = Some(enabled);
    }

    pub fn read_processing_enabled(&self) -> (r: bool)
        ensures
            r == self.processing_enabled_value(),
    {
        match self.processing_enabled {
            Some(b) => b,
            None => false,
        }
    }

    pub fn save_logging_enabled(&mut self, enabled: bool)
        ensures
            final(self).logging_enabled == Some(enabled),
            final(self).deepgram_api_key == old(self).deepgram_api_key,
            final(self).gemini_api_key == old(self).gemini_api_key,
            final(self).processing_enabled == old(self).processing_enabled,
    {
        self.logging_enabled = Some(enabled);
    }

    pub fn read_logging_enabled(&self) -> (r: bool)
        ensures
            r == self.logging_enabled_value(),
    {
        match self.logging_enabled {
            Some(b) => b,
            None => false,
        }
    }
}

/// The settings surface handed to the command layer: it owns the verified
/// store model.
pub struct SettingsState {
    pub store: CredentialStore,
}

impl SettingsState {
    pub fn new(store: CredentialStore) -> (s: SettingsState)
        ensures
            s.store == store,
    {
        SettingsState { store }
    }
}

/// How a validation probe against a provider was answered.
#[derive(Debug, Clone, Copy, PartialEq, Eq, Structural)]
pub enum KeyValidation {
    /// The provider accepted the credential.
    Accepted,
    /// The provider rejected the credential itself.
    RejectedKey,
    /// The probe failed for another reason; the status says how.
    ServiceFailure { status: u16 },
}

/// How an HTTP status from a key-validation probe is read: any success
/// status accepts the key, unauthorized and forbidden reject it, anything
/// else is a service failure.
pub open spec fn key_validation_spec(status: u16) -> KeyValidation {
    if 200 <= status < 300 {
        KeyValidation::Accepted
    } else if status == 401 || status == 403 {
        KeyValidation::RejectedKey
    } else {
        KeyValidation::ServiceFailure { status }
    }
}

pub fn classify_key_validation_status(status: u16) -> (r: KeyValidation)
    ensures
        r == key_validation_spec(status),
{
    if 200 <= status && status < 300 {
        KeyValidation::Accepted
    } else if status == 401 || status == 403 {
        KeyValidation::RejectedKey
    } else {
        KeyValidation::ServiceFailure { status }
    }
}

/// Normalise a submitted credential: surrounding whitespace is dropped,
/// and a key with no visible content at all is refused.
pub fn prepare_api_key(raw: &str) -> (r: Option<String>)
    ensures
        match r {
            Some(k) => k@ == trim_text(raw@) && !is_blank_text(k@),
            None => is_blank_text(raw@),
        },
{
    let t = trimmed(raw);
    if t.unicode_len() == 0 {
        proof {
            lemma_blank_iff_trims_empty(raw@);
        }
        None
    } else {
        proof {
            lemma_blank_iff_trims_empty(raw@);
            lemma_trimmed_not_blank(raw@);
        }
        Some(t.to_owned())
    }
}

/// A text trims to nothing exactly when it holds no visible character.
pub proof fn lemma_blank_iff_trims_empty(s: Seq<char>)
    ensures
        trim_text(s).len() == 0 <==> is_blank_text(s),
{
    lemma_trim_start_keeps_content(s);
    lemma_trim_end_props(crate::text::trim_start_text(s));
}

/// A non-empty trim result ends with a visible character, so it is itself
/// not blank.
proof fn lemma_trimmed_not_blank(s: Seq<char>)
    requires
        trim_text(s).len() > 0,
    ensures
        !is_blank_text(trim_text(s)),
{
    let m = crate::text::trim_start_text(s);
    lemma_trim_end_props(m);
    let t = trim_text(s);
    assert(!crate::text::is_wspace_char(t[t.len() - 1]));
}

/// Helper: trimming the start neither creates nor destroys visible
/// content.
proof fn lemma_trim_start_keeps_content(s: Seq<char>)
    ensures
        is_blank_text(crate::text::trim_start_text(s)) <==> is_blank_text(s),
    decreases s.len(),
{
    if s.len() > 0 && crate::text::is_wspace_char(s[0]) {
        lemma_trim_start_keeps_content(s.drop_first());
        let d = s.drop_first();
        if is_blank_text(d) {
            assert forall|i: int| 0 <= i < s.len() implies crate::text::is_wspace_char(s[i]) by {
                if i > 0 {
                    assert(d[i - 1] == s[i]);
                }
            }
        }
        if !is_blank_text(d) {
            let i = choose|i: int| 0 <= i < d.len() && !crate::text::is_wspace_char(d[i]);
            assert(s[i + 1] == d[i]);
            assert(!is_blank_text(s));
        }
    }
}

/// Helper: trimming the end of a blank text leaves nothing; trimming the
/// end of any other text leaves something whose last character is visible.
proof fn lemma_trim_end_props(s: Seq<char>)
    ensures
        is_blank_text(s) ==> crate::text::trim_end_text(s).len() == 0,
        !is_blank_text(s) ==> crate::text::trim_end_text(s).len() > 0 && !crate::text::is_wspace_char(
            crate::text::trim_end_text(s).last(),
        ),
    decreases s.len(),
{
    if s.len() > 0 {
        if crate::text::is_wspace_char(s.last()) {
            lemma_trim_end_props(s.drop_last());
            let d = s.drop_last();
            if is_blank_text(d) {
                assert forall|i: int| 0 <= i < s.len() implies crate::text::is_wspace_char(
                    s[i],
                ) by {
                    if i < s.len() - 1 {
                        assert(d[i] == s[i]);
                    }
                }
            }
            if !is_blank_text(d) {
                let i = choose|i: int| 0 <= i < d.len() && !crate::text::is_wspace_char(d[i]);
                assert(s[i] == d[i]);
                assert(!is_blank_text(s));
            }
        } else {
            assert(!crate::text::is_wspace_char(s[s.len() - 1]));
            assert(!is_blank_text(s));
        }
    }
}

} // verus!
