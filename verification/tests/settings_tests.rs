use voxforge::groq::PromptMode;
use voxforge::settings::{
    default_engine, default_groq_model, default_prompt_mode, default_true, default_whisper_model,
    parse_prompt_mode, settings_or_default, AppSettings,
};

fn settings(engine: &str, mode: &str, llm: bool) -> AppSettings {
    AppSettings {
        deepgram_api_key: "dg".to_string(),
        groq_api_key: "gq".to_string(),
        stt_engine: engine.to_string(),
        prompt_mode: mode.to_string(),
        custom_prompt: String::new(),
        auto_paste: true,
        llm_enabled: llm,
        groq_model: String::new(),
        whisper_model: String::new(),
    }
}

#[test]
fn field_defaults() {
    assert_eq!(default_engine(), "deepgram");
    assert_eq!(default_prompt_mode(), "direct");
    assert!(default_true());
    assert_eq!(default_groq_model(), "llama-3.1-8b-instant");
    assert_eq!(default_whisper_model(), "ggml-small-q8_0.bin");
}

#[test]
fn default_settings_are_blank() {
    let s = AppSettings::default();
    assert_eq!(s.stt_engine, "");
    assert_eq!(s.prompt_mode, "");
    assert!(!s.auto_paste);
    assert!(!s.llm_enabled);
    assert_eq!(s.deepgram_api_key, "");
}

#[test]
fn loading_falls_back_to_defaults() {
    let s = settings_or_default(None);
    assert_eq!(s.groq_model, "");
    let loaded = settings_or_default(Some(settings("whisper", "email", true)));
    assert_eq!(loaded.stt_engine, "whisper");
    assert_eq!(loaded.prompt_mode, "email");
}

#[test]
fn prompt_mode_names() {
    assert_eq!(parse_prompt_mode("coding"), PromptMode::Coding);
    assert_eq!(parse_prompt_mode("email"), PromptMode::Email);
    assert_eq!(parse_prompt_mode("general"), PromptMode::General);
    assert_eq!(parse_prompt_mode("casual"), PromptMode::Casual);
    assert_eq!(parse_prompt_mode("custom"), PromptMode::Custom);
    assert_eq!(parse_prompt_mode("direct"), PromptMode::Direct);
    assert_eq!(parse_prompt_mode("Coding"), PromptMode::Direct);
    assert_eq!(parse_prompt_mode(""), PromptMode::Direct);
}

#[test]
fn polish_mode_needs_llm_and_a_real_mode() {
    assert_eq!(settings("deepgram", "coding", true).polish_mode(), Some(PromptMode::Coding));
    assert_eq!(settings("deepgram", "coding", false).polish_mode(), None);
    assert_eq!(settings("deepgram", "direct", true).polish_mode(), None);
    assert_eq!(settings("deepgram", "bogus", true).polish_mode(), None);
    assert!(settings("deepgram", "bogus", true).uses_llm());
    assert!(!settings("deepgram", "direct", true).uses_llm());
}

#[test]
fn engine_choices() {
    assert!(settings("whisper", "direct", false).uses_whisper());
    assert!(!settings("deepgram", "direct", false).uses_whisper());
    assert!(settings("deepgram", "direct", false).streams_live());
    assert!(!settings("whisper", "direct", false).streams_live());
    let mut no_key = settings("deepgram", "direct", false);
    no_key.deepgram_api_key = String::new();
    assert!(!no_key.streams_live());
    assert!(!AppSettings::default().streams_live());
}

#[test]
fn settings_clone_keeps_fields() {
    let s = settings("whisper", "casual", true);
    let c = s.clone();
    assert_eq!(c.stt_engine, "whisper");
    assert_eq!(c.prompt_mode, "casual");
    assert!(c.llm_enabled);
}
