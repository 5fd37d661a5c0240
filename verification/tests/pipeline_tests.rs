use voxforge::groq::PromptMode;
use voxforge::pipeline::{
    start_actions, stop_actions, Action, FinishJob, FinishStage, OverlayPlacement,
    OverlayPositioner, Status, Toggle, ToggleFlags,
};
use voxforge::settings::AppSettings;

fn settings(engine: &str, mode: &str, llm: bool, auto_paste: bool) -> AppSettings {
    AppSettings {
        deepgram_api_key: "dg".to_string(),
        groq_api_key: "gq".to_string(),
        stt_engine: engine.to_string(),
        prompt_mode: mode.to_string(),
        custom_prompt: String::new(),
        auto_paste,
        llm_enabled: llm,
        groq_model: String::new(),
        whisper_model: "ggml-small-q8_0.bin".to_string(),
    }
}

#[test]
fn status_names() {
    assert_eq!(Status::Recording.name(), "recording");
    assert_eq!(Status::Processing.name(), "processing");
    assert_eq!(Status::Transcribing.name(), "transcribing");
    assert_eq!(Status::Polishing.name(), "polishing");
    assert_eq!(Status::Silence.name(), "silence");
    assert_eq!(Status::Done.name(), "done");
}

#[test]
fn presses_alternate() {
    let mut f = ToggleFlags::new();
    assert_eq!(f.toggle(), Toggle::Start);
    assert_eq!(f, ToggleFlags { is_recording: true, stop_streaming: false });
    assert_eq!(f.toggle(), Toggle::Stop);
    assert_eq!(f, ToggleFlags { is_recording: false, stop_streaming: true });
    assert_eq!(f.toggle(), Toggle::Start);
    f.halt();
    assert_eq!(f, ToggleFlags { is_recording: false, stop_streaming: true });
}

#[test]
fn start_with_live_streaming() {
    let mut flags = ToggleFlags::new();
    assert_eq!(flags.toggle(), Toggle::Start);
    let acts = start_actions(&settings("deepgram", "direct", false, true), Ok(()));
    assert_eq!(flags, ToggleFlags { is_recording: true, stop_streaming: false });
    assert_eq!(
        acts,
        vec![
            Action::EmitStatus(Status::Recording),
            Action::ShowOverlay,
            Action::RestoreFocusLater(300),
            Action::StartStreaming,
        ]
    );
}

#[test]
fn start_offline_does_not_stream() {
    let mut flags = ToggleFlags::new();
    flags.toggle();
    let acts = start_actions(&settings("whisper", "direct", false, true), Ok(()));
    assert_eq!(
        acts,
        vec![Action::EmitStatus(Status::Recording), Action::ShowOverlay, Action::RestoreFocusLater(300)]
    );
}

#[test]
fn failed_start_reports_the_error() {
    let mut flags = ToggleFlags::new();
    assert_eq!(flags.toggle(), Toggle::Start);
    let acts = start_actions(
        &settings("deepgram", "direct", false, true),
        Err("No input device found".to_string()),
    );
    assert_eq!(acts, vec![Action::EmitError("No input device found".to_string())]);
    // The flags stay as the press set them, so the next press takes the stopping path.
    assert_eq!(flags, ToggleFlags { is_recording: true, stop_streaming: false });
    assert_eq!(flags.toggle(), Toggle::Stop);
}

#[test]
fn stop_stops_capture_first() {
    assert_eq!(stop_actions(), vec![Action::StopCapture, Action::EmitStatus(Status::Processing)]);
}

#[test]
fn streamed_recording_finishes_at_once() {
    let (job, acts) = FinishJob::begin(&settings("deepgram", "direct", false, true));
    assert_eq!(job.stage, FinishStage::Finished);
    assert_eq!(acts, vec![Action::RestoreFocus, Action::Sleep(150), Action::EmitStatus(Status::Done)]);
}

#[test]
fn offline_transcript_is_pasted() {
    let (mut job, acts) = FinishJob::begin(&settings("whisper", "direct", false, true));
    assert_eq!(acts, vec![Action::EmitStatus(Status::Transcribing), Action::Transcribe]);
    let acts = job.on_transcript(Ok("hello world".to_string()));
    assert_eq!(
        acts,
        vec![
            Action::EmitText("hello world".to_string()),
            Action::RestoreFocus,
            Action::Sleep(100),
            Action::Paste("hello world".to_string()),
            Action::EmitStatus(Status::Done),
        ]
    );
    assert_eq!(job.stage, FinishStage::Finished);
}

#[test]
fn offline_transcript_without_auto_paste() {
    let (mut job, _) = FinishJob::begin(&settings("whisper", "direct", false, false));
    let acts = job.on_transcript(Ok("hi".to_string()));
    assert_eq!(acts, vec![Action::EmitText("hi".to_string()), Action::EmitStatus(Status::Done)]);
}

#[test]
fn offline_transcript_is_polished_then_pasted() {
    let (mut job, _) = FinishJob::begin(&settings("whisper", "email", true, true));
    assert_eq!(job.polish, Some(PromptMode::Email));
    let acts = job.on_transcript(Ok("hi bob".to_string()));
    assert_eq!(
        acts,
        vec![
            Action::EmitText("hi bob".to_string()),
            Action::EmitStatus(Status::Polishing),
            Action::Polish("hi bob".to_string(), PromptMode::Email),
        ]
    );
    assert_eq!(job.stage, FinishStage::AwaitPolish);
    let acts = job.on_polished("Hi Bob,".to_string());
    assert_eq!(
        acts,
        vec![
            Action::EmitText("Hi Bob,".to_string()),
            Action::RestoreFocus,
            Action::Sleep(100),
            Action::Paste("Hi Bob,".to_string()),
            Action::EmitStatus(Status::Done),
        ]
    );
    assert_eq!(job.stage, FinishStage::Finished);
}

#[test]
fn empty_transcript_ends_quietly() {
    let (mut job, _) = FinishJob::begin(&settings("whisper", "email", true, true));
    assert_eq!(job.on_transcript(Ok(String::new())), vec![Action::EmitStatus(Status::Done)]);
}

#[test]
fn transcription_error_is_reported() {
    let (mut job, _) = FinishJob::begin(&settings("whisper", "direct", false, true));
    assert_eq!(
        job.on_transcript(Err("Whisper init error".to_string())),
        vec![Action::EmitError("Whisper init error".to_string()), Action::EmitStatus(Status::Done)]
    );
}

#[test]
fn overlay_is_placed_only_once() {
    let mut p = OverlayPositioner::new();
    assert_eq!(p.place(false), OverlayPlacement::BottomCenter);
    assert_eq!(p.place(true), OverlayPlacement::Keep);
    let mut q = OverlayPositioner::new();
    assert_eq!(q.place(true), OverlayPlacement::Saved);
    assert_eq!(q.place(false), OverlayPlacement::Keep);
}
