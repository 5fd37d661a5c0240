use voxforge::groq::{
    plan_polish, polished_text, system_prompt_for_mode, Choice, GroqResponse, PolishPlan,
    PromptMode, ResponseMessage, MAX_TOKENS,
};

fn reply(contents: &[&str]) -> GroqResponse {
    GroqResponse {
        choices: contents
            .iter()
            .map(|c| Choice { message: ResponseMessage { content: c.to_string() } })
            .collect(),
    }
}

#[test]
fn default_mode_is_direct() {
    assert_eq!(PromptMode::default(), PromptMode::Direct);
}

#[test]
fn system_prompts_per_mode() {
    assert!(system_prompt_for_mode(&PromptMode::Coding, "")
        .starts_with("You are a prompt editor. Rewrite the user's voice dictation as a clear, concise prompt"));
    assert!(system_prompt_for_mode(&PromptMode::Email, "")
        .starts_with("You are an email editor."));
    assert_eq!(
        system_prompt_for_mode(&PromptMode::General, "x"),
        "Clean up the following voice dictation: fix grammar, punctuation, and sentence structure \
         while keeping every idea the user stated and adding nothing they did not say. Output ONLY \
         the cleaned text, nothing else."
    );
    assert!(system_prompt_for_mode(&PromptMode::Casual, "").contains("like a Slack message"));
    assert_eq!(system_prompt_for_mode(&PromptMode::Custom, "Be terse."), "Be terse.");
}

#[test]
fn direct_mode_leaves_text_unchanged() {
    match plan_polish("key", "raw words", &PromptMode::Direct, "", "m") {
        PolishPlan::Unchanged(t) => assert_eq!(t, "raw words"),
        PolishPlan::Request(_) => panic!("direct mode must not polish"),
    }
}

#[test]
fn missing_key_leaves_text_unchanged() {
    match plan_polish("", "raw words", &PromptMode::Email, "", "m") {
        PolishPlan::Unchanged(t) => assert_eq!(t, "raw words"),
        PolishPlan::Request(_) => panic!("no key, no request"),
    }
}

#[test]
fn request_carries_prompts_and_model() {
    match plan_polish("key", "fix the bug", &PromptMode::Custom, "Only fix.", "my-model") {
        PolishPlan::Request(req) => {
            assert_eq!(req.model, "my-model");
            assert_eq!(req.max_tokens, MAX_TOKENS);
            assert_eq!(req.max_tokens, 1024);
            assert_eq!(req.messages.len(), 2);
            assert_eq!(req.messages[0].role, "system");
            assert_eq!(req.messages[0].content, "Only fix.");
            assert_eq!(req.messages[1].role, "user");
            assert_eq!(req.messages[1].content, "fix the bug");
        }
        PolishPlan::Unchanged(_) => panic!("expected a request"),
    }
}

#[test]
fn empty_model_falls_back() {
    match plan_polish("key", "t", &PromptMode::General, "", "") {
        PolishPlan::Request(req) => assert_eq!(req.model, "llama-3.1-8b-instant"),
        PolishPlan::Unchanged(_) => panic!("expected a request"),
    }
}

#[test]
fn first_answer_is_trimmed() {
    assert_eq!(polished_text("raw", Some(reply(&["  Polished.\n", "other"]))), "Polished.");
}

#[test]
fn failures_fall_back_to_raw() {
    assert_eq!(polished_text("raw text", None), "raw text");
    assert_eq!(polished_text("raw text", Some(reply(&[]))), "raw text");
}

#[test]
fn blank_answer_is_kept_blank() {
    assert_eq!(polished_text("raw", Some(reply(&["   "]))), "");
}

#[test]
fn bearer_header() {
    assert_eq!(voxforge::groq::bearer_value("k-1"), "Bearer k-1");
}

#[test]
fn chat_completions_endpoint() {
    assert_eq!(
        voxforge::groq::chat_completions_url(),
        "https://api.groq.com/openai/v1/chat/completions"
    );
}
