//! The user's settings, their defaults, and the pipeline choices read from them.

use vstd::prelude::*;
use crate::groq::PromptMode;
use crate::text::same_text;

verus! {

/// The settings that steer the pipeline. The overlay's saved position is kept
/// beside them by the application.
#[derive(Debug)]
pub struct AppSettings {
    pub deepgram_api_key: String,
    pub groq_api_key: String,
    pub stt_engine: String,
    pub prompt_mode: String,
    pub custom_prompt: String,
    pub auto_paste: bool,
    pub llm_enabled: bool,
    pub groq_model: String,
    pub whisper_model: String,
}

impl AppSettings {
    /// Every text empty and every switch off.
    pub open spec fn is_blank(&self) -> bool {
        &&& self.deepgram_api_key@.len() == 0
        &&& self.groq_api_key@.len() == 0
        &&& self.stt_engine@.len() == 0
        &&& self.prompt_mode@.len() == 0
        &&& self.custom_prompt@.len() == 0
        &&& !self.auto_paste
        &&& !self.llm_enabled
        &&& self.groq_model@.len() == 0
        &&& self.whisper_model@.len() == 0
    }
}

impl Clone for AppSettings {
    fn clone(&self) -> (c: Self)
        ensures
            c == *self,
    {
        AppSettings {
            deepgram_api_key: self.deepgram_api_key.clone(),
            groq_api_key: self.groq_api_key.clone(),
            stt_engine: self.stt_engine.clone(),
            prompt_mode: self.prompt_mode.clone(),
            custom_prompt: self.custom_prompt.clone(),
            auto_paste: self.auto_paste,
            llm_enabled: self.llm_enabled,
            groq_model: self.groq_model.clone(),
            whisper_model: self.whisper_model.clone(),
        }
    }
}

impl Default for AppSettings {
    /// Every text empty and every switch off; the per-field defaults below
    /// apply only to fields missing from a stored settings file.
    fn default() -> (s: Self)
        ensures
            s.is_blank(),
    {
        AppSettings {
            deepgram_api_key: String::new(),
            groq_api_key: String::new(),
            stt_engine: String::new(),
            prompt_mode: String::new(),
            custom_prompt: String::new(),
            auto_paste: false,
            llm_enabled: false,
            groq_model: String::new(),
            whisper_model: String::new(),
        }
    }
}

/// Speech-to-text engine of a settings file that names none.
pub fn default_engine() -> (s: String)
    ensures
        s@ == "deepgram"@,
{
    "deepgram".to_owned()
}

/// Prompt mode of a settings file that names none.
pub fn default_prompt_mode() -> (s: String)
    ensures
        s@ == "direct"@,
{
    "direct".to_owned()
}

/// Auto-paste of a settings file that does not say.
pub fn default_true() -> (b: bool)
    ensures
        b,
{
    true
}

/// Polishing model of a settings file that names none.
pub fn default_groq_model() -> (s: String)
    ensures
        s@ == "llama-3.1-8b-instant"@,
{
    "llama-3.1-8b-instant".to_owned()
}

/// Offline model of a settings file that names none.
pub fn default_whisper_model() -> (s: String)
    ensures
        s@ == "ggml-small-q8_0.bin"@,
{
    "ggml-small-q8_0.bin".to_owned()
}

/// The settings in force after loading: what was read, or the defaults when
/// the file was absent, unreadable or malformed (`None`).
pub fn settings_or_default(loaded: Option<AppSettings>) -> (s: AppSettings)
    ensures
        loaded matches Some(l) ==> s == l,
        loaded is None ==> s.is_blank(),
{
    match loaded {
        Some(l) => l,
        None => AppSettings::default(),
    }
}

/// The prompt mode that a settings text names; unknown texts mean `Direct`.
pub open spec fn prompt_mode_named(name: Seq<char>) -> PromptMode {
    if name == "coding"@ {
        PromptMode::Coding
    } else if name == "email"@ {
        PromptMode::Email
    } else if name == "general"@ {
        PromptMode::General
    } else if name == "casual"@ {
        PromptMode::Casual
    } else if name == "custom"@ {
        PromptMode::Custom
    } else {
        PromptMode::Direct
    }
}

/// Reads a prompt mode from its settings text.
pub fn parse_prompt_mode(name: &str) -> (mode: PromptMode)
    ensures
        mode == prompt_mode_named(name@),
{
    if same_text(name, "coding") {
        PromptMode::Coding
    } else if same_text(name, "email") {
        PromptMode::Email
    } else if same_text(name, "general") {
        PromptMode::General
    } else if same_text(name, "casual") {
        PromptMode::Casual
    } else if same_text(name, "custom") {
        PromptMode::Custom
    } else {
        PromptMode::Direct
    }
}

impl AppSettings {
    /// The language model is switched on and a mode other than "direct" is chosen.
    pub open spec fn spec_uses_llm(&self) -> bool {
        self.llm_enabled && self.prompt_mode@ != "direct"@
    }

    /// The mode in which transcripts are polished, if they are.
    pub open spec fn spec_polish_mode(&self) -> Option<PromptMode> {
        if self.spec_uses_llm() && prompt_mode_named(self.prompt_mode@) != PromptMode::Direct {
            Some(prompt_mode_named(self.prompt_mode@))
        } else {
            None
        }
    }

    /// Whether the language model is in use.
    pub fn uses_llm(&self) -> (b: bool)
        ensures
            b == self.spec_uses_llm(),
    {
        self.llm_enabled && !same_text(self.prompt_mode.as_str(), "direct")
    }

    /// The mode in which transcripts are polished; `None` when they are pasted as heard.
    pub fn polish_mode(&self) -> (mode: Option<PromptMode>)
        ensures
            mode == self.spec_polish_mode(),
    {
        if self.uses_llm() {
            let m = parse_prompt_mode(self.prompt_mode.as_str());
            if m != PromptMode::Direct {
                return Some(m);
            }
        }
        None
    }

    /// Whether recordings are transcribed offline.
    pub fn uses_whisper(&self) -> (b: bool)
        ensures
            b == (self.stt_engine@ == "whisper"@),
    {
        same_text(self.stt_engine.as_str(), "whisper")
    }

    /// Whether recordings are streamed for live transcription: there is a key,
    /// and the streaming engine is chosen.
    pub fn streams_live(&self) -> (b: bool)
        ensures
            b == (self.deepgram_api_key@.len() > 0 && self.stt_engine@ == "deepgram"@),
    {
        !self.deepgram_api_key.as_str().is_empty() && same_text(self.stt_engine.as_str(), "deepgram")
    }
}

/// The language model is used exactly when its switch is on and a mode other
/// than "direct" is chosen; transcripts are polished only while it is used,
/// in the mode the settings name, which is never `Direct`.
pub proof fn llm_needs_its_switch(s: AppSettings)
    ensures
        s.spec_uses_llm() ==> s.llm_enabled,
        s.spec_uses_llm() ==> s.prompt_mode@ != "direct"@,
        s.llm_enabled && s.prompt_mode@ != "direct"@ ==> s.spec_uses_llm(),
        s.spec_polish_mode() is Some ==> s.llm_enabled && s.prompt_mode@ != "direct"@,
        s.spec_polish_mode() matches Some(m) ==> m != PromptMode::Direct && m == prompt_mode_named(
            s.prompt_mode@,
        ),
        s.llm_enabled && s.prompt_mode@ != "direct"@ && prompt_mode_named(s.prompt_mode@)
            != PromptMode::Direct ==> s.spec_polish_mode() == Some(prompt_mode_named(s.prompt_mode@)),
{
}

} // verus!
