use voxforge::deepgram::TranscriptResult;
use voxforge::groq::PromptMode;
use voxforge::pipeline::{Action, Status};
use voxforge::settings::AppSettings;
use voxforge::streaming::{after_send, Flow, SilenceDetector, StreamSession, SILENCE_NANOS};

fn settings(mode: &str, llm: bool, auto_paste: bool) -> AppSettings {
    AppSettings {
        deepgram_api_key: "dg".to_string(),
        groq_api_key: "gq".to_string(),
        stt_engine: "deepgram".to_string(),
        prompt_mode: mode.to_string(),
        custom_prompt: String::new(),
        auto_paste,
        llm_enabled: llm,
        groq_model: String::new(),
        whisper_model: String::new(),
    }
}

fn result(text: &str, is_final: bool) -> TranscriptResult {
    TranscriptResult { text: text.to_string(), is_final, speech_final: false }
}

#[test]
fn chunks_follow_each_other() {
    let mut s = StreamSession::new(&settings("direct", false, true));
    assert_eq!(s.next_chunk(0), None);
    assert_eq!(s.next_chunk(320), Some((0, 320)));
    assert_eq!(s.next_chunk(320), None);
    assert_eq!(s.next_chunk(1000), Some((320, 1000)));
}

#[test]
fn final_sentences_are_pasted_without_llm() {
    let mut s = StreamSession::new(&settings("direct", false, true));
    let acts = s.on_result(result("Hello there.", true));
    assert_eq!(
        acts,
        vec![
            Action::EmitText("Hello there.".to_string()),
            Action::RestoreFocus,
            Action::Sleep(30),
            Action::Paste("Hello there.".to_string()),
        ]
    );
    assert_eq!(s.accumulated(), "Hello there. ");
}

#[test]
fn interim_results_are_previews() {
    let mut s = StreamSession::new(&settings("direct", false, true));
    s.on_result(result("One.", true));
    let acts = s.on_result(result("two thr", false));
    assert_eq!(acts, vec![Action::EmitText("One. two thr".to_string())]);
    assert_eq!(s.accumulated(), "One. ");
    assert_eq!(s.on_result(result("", true)), vec![]);
    assert_eq!(s.accumulated(), "One. ");
}

#[test]
fn with_llm_sentences_are_collected_and_polished() {
    let mut s = StreamSession::new(&settings("coding", true, true));
    assert!(!s.watches_silence());
    let acts = s.on_result(result("add a test", true));
    assert_eq!(acts, vec![Action::EmitText("add a test".to_string())]);
    s.on_result(result("for login", true));
    assert_eq!(s.accumulated(), "add a test for login ");
    assert!(s.watches_silence());
    assert_eq!(
        s.ending_actions(),
        vec![
            Action::EmitStatus(Status::Polishing),
            Action::Polish("add a test for login".to_string(), PromptMode::Coding),
        ]
    );
    assert_eq!(
        StreamSession::after_polish("Add a login test.".to_string()),
        vec![
            Action::EmitText("Add a login test.".to_string()),
            Action::RestoreFocus,
            Action::Sleep(100),
            Action::Paste("Add a login test.".to_string()),
        ]
    );
}

#[test]
fn nothing_to_polish_without_text_or_mode() {
    let s = StreamSession::new(&settings("coding", true, true));
    assert_eq!(s.ending_actions(), vec![]);
    let mut d = StreamSession::new(&settings("direct", true, true));
    d.on_result(result("hi", true));
    assert_eq!(d.ending_actions(), vec![]);
    let mut blank = StreamSession::new(&settings("coding", true, true));
    blank.on_result(result(" ", true));
    assert_eq!(blank.accumulated(), "  ");
    assert_eq!(blank.ending_actions(), vec![]);
}

#[test]
fn silence_after_speech_stops_the_recording() {
    let mut s = StreamSession::new(&settings("general", true, true));
    s.on_result(result("hello", true));
    assert_eq!(s.on_level(false, 5 * SILENCE_NANOS), vec![]); // no speech yet
    assert_eq!(s.on_level(true, 100), vec![]);
    assert_eq!(s.on_level(false, 100 + SILENCE_NANOS - 1), vec![]);
    assert_eq!(
        s.on_level(false, 100 + SILENCE_NANOS),
        vec![Action::EmitStatus(Status::Silence), Action::StopCapture, Action::CloseStream]
    );
    assert!(!s.watches_silence());
    assert_eq!(s.closing_actions(), vec![Action::EmitStatus(Status::Done)]);
}

#[test]
fn user_stop_reports_done_elsewhere() {
    let s = StreamSession::new(&settings("general", true, true));
    assert_eq!(s.closing_actions(), vec![]);
}

#[test]
fn detector_waits_two_seconds_after_last_speech() {
    let mut d = SilenceDetector::new();
    assert!(!d.observe(false, 10 * SILENCE_NANOS));
    assert!(!d.observe(true, 1_000));
    assert!(!d.observe(true, 1_500_000_000));
    assert!(!d.observe(false, 3_000_000_000));
    assert!(d.observe(false, 3_500_000_000));
    assert!(d.triggered());
}

#[test]
fn clock_reading_before_last_speech_is_no_silence() {
    let mut d = SilenceDetector::new();
    assert!(!d.observe(true, 5 * SILENCE_NANOS));
    assert!(!d.observe(false, 0));
}

#[test]
fn failed_connection_shows_the_error_only() {
    assert_eq!(
        voxforge::streaming::connect_failed("WebSocket connect failed: refused".to_string()),
        vec![Action::EmitError("WebSocket connect failed: refused".to_string())]
    );
}

#[test]
fn stop_request_closes_the_stream() {
    let s = StreamSession::new(&settings("direct", false, true));
    assert_eq!(s.on_round(false), (Flow::Continue, vec![]));
    assert_eq!(s.on_round(true), (Flow::Stop, vec![Action::CloseStream]));
}

#[test]
fn send_failure_ends_the_session() {
    assert_eq!(after_send(&Ok(())), Flow::Continue);
    assert_eq!(after_send(&Err("Send error: broken pipe".to_string())), Flow::Stop);
}

#[test]
fn draining_stops_when_nothing_waits_or_on_error() {
    let mut s = StreamSession::new(&settings("direct", false, false));
    let (flow, acts) = s.on_received(Ok(Some(result("Hi.", true))));
    assert_eq!(flow, Flow::Continue);
    assert_eq!(acts, vec![Action::EmitText("Hi.".to_string())]);
    assert_eq!(s.on_received(Ok(None)), (Flow::Stop, vec![]));
    assert_eq!(s.on_received(Err("Recv error: reset".to_string())), (Flow::Stop, vec![]));
    assert_eq!(s.accumulated(), "Hi. ");
}
