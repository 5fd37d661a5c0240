//! The recording pipeline as state machines: each step takes the outcome of
//! the outside work just done and returns the actions to perform next, in order.

use vstd::prelude::*;
use crate::groq::PromptMode;
use crate::settings::AppSettings;

verus! {

/// A status shown by the interface while the pipeline works.
#[derive(Debug, Clone, Copy, PartialEq, Eq, Structural)]
pub enum Status {
    Recording,
    Processing,
    Transcribing,
    Polishing,
    Silence,
    Done,
}

/// The name of a status as the interface knows it.
pub open spec fn status_name(s: Status) -> Seq<char> {
    match s {
        Status::Recording => "recording"@,
        Status::Processing => "processing"@,
        Status::Transcribing => "transcribing"@,
        Status::Polishing => "polishing"@,
        Status::Silence => "silence"@,
        Status::Done => "done"@,
    }
}

impl Status {
    /// The name of the status as the interface knows it.
    pub fn name(&self) -> (n: &'static str)
        ensures
            n@ == status_name(*self),
    {
        match self {
            Status::Recording => "recording",
            Status::Processing => "processing",
            Status::Transcribing => "transcribing",
            Status::Polishing => "polishing",
            Status::Silence => "silence",
            Status::Done => "done",
        }
    }
}

/// Something the application does for the pipeline.
#[derive(Debug, PartialEq, Eq)]
pub enum Action {
    /// Show a status.
    EmitStatus(Status),
    /// Show the text transcribed so far, or the final text.
    EmitText(String),
    /// Report an error.
    EmitError(String),
    /// Show the recording bubble.
    ShowOverlay,
    /// In the background, wait this many milliseconds, then give the focus back.
    RestoreFocusLater(u64),
    /// Give the focus back to the application the user worked in.
    RestoreFocus,
    /// Wait this many milliseconds.
    Sleep(u64),
    /// Paste this text into the focused application.
    Paste(String),
    /// Start streaming the recording for live transcription.
    StartStreaming,
    /// Transcribe the captured audio offline.
    Transcribe,
    /// Have this text rewritten in this mode.
    Polish(String, PromptMode),
    /// Mark the pipeline as not recording and stop capturing audio.
    StopCapture,
    /// Close the live transcription stream.
    CloseStream,
}

/// An action, with its texts as character sequences.
pub enum ActionView {
    EmitStatus(Status),
    EmitText(Seq<char>),
    EmitError(Seq<char>),
    ShowOverlay,
    RestoreFocusLater(u64),
    RestoreFocus,
    Sleep(u64),
    Paste(Seq<char>),
    StartStreaming,
    Transcribe,
    Polish(Seq<char>, PromptMode),
    StopCapture,
    CloseStream,
}

impl View for Action {
    type V = ActionView;

    open spec fn view(&self) -> ActionView {
        match self {
            Action::EmitStatus(s) => ActionView::EmitStatus(*s),
            Action::EmitText(t) => ActionView::EmitText(t@),
            Action::EmitError(e) => ActionView::EmitError(e@),
            Action::ShowOverlay => ActionView::ShowOverlay,
            Action::RestoreFocusLater(ms) => ActionView::RestoreFocusLater(*ms),
            Action::RestoreFocus => ActionView::RestoreFocus,
            Action::Sleep(ms) => ActionView::Sleep(*ms),
            Action::Paste(t) => ActionView::Paste(t@),
            Action::StartStreaming => ActionView::StartStreaming,
            Action::Transcribe => ActionView::Transcribe,
            Action::Polish(t, m) => ActionView::Polish(t@, *m),
            Action::StopCapture => ActionView::StopCapture,
            Action::CloseStream => ActionView::CloseStream,
        }
    }
}

/// A list of actions, with their texts as character sequences.
pub open spec fn actions_view(acts: Seq<Action>) -> Seq<ActionView> {
    acts.map_values(|a: Action| a@)
}

/// Pasting `text` into the application the user worked in, after `wait_ms`.
pub open spec fn paste_steps(text: Seq<char>, wait_ms: u64) -> Seq<ActionView> {
    seq![ActionView::RestoreFocus, ActionView::Sleep(wait_ms), ActionView::Paste(text)]
}

fn push_paste(acts: &mut Vec<Action>, text: String, wait_ms: u64)
    ensures
        actions_view(final(acts)@) == actions_view(old(acts)@) + paste_steps(text@, wait_ms),
{
    let ghost before = acts@;
    acts.push(Action::RestoreFocus);
    acts.push(Action::Sleep(wait_ms));
    acts.push(Action::Paste(text));
    assert(actions_view(acts@) =~= actions_view(before) + paste_steps(text@, wait_ms));
}

fn push_one(acts: &mut Vec<Action>, a: Action)
    ensures
        actions_view(final(acts)@) == actions_view(old(acts)@).push(a@),
{
    let ghost before = acts@;
    let ghost v = a@;
    acts.push(a);
    assert(actions_view(acts@) =~= actions_view(before).push(v));
}

/// Whether a recording is under way, and whether live streaming must stop.
#[derive(Debug, Clone, Copy, PartialEq, Eq, Structural)]
pub struct ToggleFlags {
    pub is_recording: bool,
    pub stop_streaming: bool,
}

/// What a press of the record control does.
#[derive(Debug, Clone, Copy, PartialEq, Eq, Structural)]
pub enum Toggle {
    Start,
    Stop,
}

impl ToggleFlags {
    /// Not recording, nothing to stop.
    pub fn new() -> (f: Self)
        ensures
            !f.is_recording,
            !f.stop_streaming,
    {
        ToggleFlags { is_recording: false, stop_streaming: false }
    }

    /// A press of the record control: stops a recording under way (and the
    /// stream with it), or starts one.
    pub fn toggle(&mut self) -> (t: Toggle)
        ensures
            *final(self) == toggled(*old(self)),
            t == (if old(self).is_recording {
                Toggle::Stop
            } else {
                Toggle::Start
            }),
    {
        if self.is_recording {
            self.is_recording = false;
            self.stop_streaming = true;
            Toggle::Stop
        } else {
            self.is_recording = true;
            self.stop_streaming = false;
            Toggle::Start
        }
    }

    /// Silence ended the recording: not recording, and the stream stops.
    pub fn halt(&mut self)
        ensures
            !final(self).is_recording,
            final(self).stop_streaming,
    {
        self.is_recording = false;
        self.stop_streaming = true;
    }
}

/// The flags after a press of the record control.
pub open spec fn toggled(f: ToggleFlags) -> ToggleFlags {
    if f.is_recording {
        ToggleFlags { is_recording: false, stop_streaming: true }
    } else {
        ToggleFlags { is_recording: true, stop_streaming: false }
    }
}

/// Presses alternate between starting and stopping: a press changes whether
/// a recording is under way, a stop always halts streaming and a start always
/// lets it run, so two presses bring back the recording state of before.
pub proof fn presses_alternate(f: ToggleFlags)
    ensures
        toggled(f).is_recording == !f.is_recording,
        toggled(f).stop_streaming == f.is_recording,
        toggled(toggled(f)).is_recording == f.is_recording,
{
}

/// Milliseconds after a recording starts before the focus goes back.
pub const START_FOCUS_DELAY_MS: u64 = 300;

/// The actions after trying to start capturing audio.
pub open spec fn start_steps(settings: AppSettings, started: Result<(), Seq<char>>) -> Seq<
    ActionView,
> {
    match started {
        Ok(_) => {
            let base = seq![
                ActionView::EmitStatus(Status::Recording),
                ActionView::ShowOverlay,
                ActionView::RestoreFocusLater(START_FOCUS_DELAY_MS),
            ];
            if settings.deepgram_api_key@.len() > 0 && settings.stt_engine@ == "deepgram"@ {
                base.push(ActionView::StartStreaming)
            } else {
                base
            }
        },
        Err(e) => seq![ActionView::EmitError(e)],
    }
}

/// What follows an attempt to start capturing audio: on success the status,
/// the bubble, giving the focus back, and live streaming when it is configured;
/// on failure the error. The flags are left as the press set them, so after a
/// failed start the next press takes the stopping path.
pub fn start_actions(settings: &AppSettings, started: Result<(), String>) -> (acts: Vec<Action>)
    ensures
        actions_view(acts@) == start_steps(
            *settings,
            match started {
                Ok(u) => Ok(u),
                Err(e) => Err(e@),
            },
        ),
{
    let mut acts: Vec<Action> = Vec::new();
    match started {
        Ok(_) => {
            push_one(&mut acts, Action::EmitStatus(Status::Recording));
            push_one(&mut acts, Action::ShowOverlay);
            push_one(&mut acts, Action::RestoreFocusLater(START_FOCUS_DELAY_MS));
            if settings.streams_live() {
                push_one(&mut acts, Action::StartStreaming);
            }
        },
        Err(e) => {
            push_one(&mut acts, Action::EmitError(e));
        },
    }
    acts
}

/// The actions right after a press that stops a recording.
pub fn stop_actions() -> (acts: Vec<Action>)
    ensures
        actions_view(acts@) == seq![
            ActionView::StopCapture,
            ActionView::EmitStatus(Status::Processing),
        ],
{
    let mut acts: Vec<Action> = Vec::new();
    push_one(&mut acts, Action::StopCapture);
    push_one(&mut acts, Action::EmitStatus(Status::Processing));
    acts
}

/// Where a finishing recording stands.
#[derive(Debug, Clone, Copy, PartialEq, Eq, Structural)]
pub enum FinishStage {
    /// The offline transcript is awaited.
    AwaitTranscript,
    /// The polished text is awaited.
    AwaitPolish,
    /// Nothing more happens.
    Finished,
}

/// Milliseconds to wait after giving the focus back when the text was streamed live.
pub const STREAMED_FOCUS_WAIT_MS: u64 = 150;

/// Milliseconds to wait after giving the focus back before pasting a final text.
pub const PASTE_WAIT_MS: u64 = 100;

/// The work that follows a stopped recording.
#[derive(Debug, Clone, Copy, PartialEq, Eq, Structural)]
pub struct FinishJob {
    pub auto_paste: bool,
    pub polish: Option<PromptMode>,
    pub stage: FinishStage,
}

/// Delivering the final text: shown, pasted when auto-paste is on, then done.
pub open spec fn deliver_steps(auto_paste: bool, text: Seq<char>) -> Seq<ActionView> {
    if auto_paste {
        paste_steps(text, PASTE_WAIT_MS).push(ActionView::EmitStatus(Status::Done))
    } else {
        seq![ActionView::EmitStatus(Status::Done)]
    }
}

/// The first actions of a finishing job: start the offline transcription, or,
/// when the text was streamed live, give the focus back and be done.
pub open spec fn begin_steps(offline: bool) -> Seq<ActionView> {
    if offline {
        seq![ActionView::EmitStatus(Status::Transcribing), ActionView::Transcribe]
    } else {
        seq![
            ActionView::RestoreFocus,
            ActionView::Sleep(STREAMED_FOCUS_WAIT_MS),
            ActionView::EmitStatus(Status::Done),
        ]
    }
}

/// The stage a job reaches when the offline transcript arrives.
pub open spec fn transcript_stage(polish: Option<PromptMode>, result: Result<Seq<char>, Seq<char>>) -> FinishStage {
    match result {
        Ok(text) => if text.len() > 0 && polish is Some {
            FinishStage::AwaitPolish
        } else {
            FinishStage::Finished
        },
        Err(_) => FinishStage::Finished,
    }
}

/// The actions when the offline transcript arrives.
pub open spec fn transcript_steps(
    auto_paste: bool,
    polish: Option<PromptMode>,
    result: Result<Seq<char>, Seq<char>>,
) -> Seq<ActionView> {
    match result {
        Ok(text) => if text.len() == 0 {
            seq![ActionView::EmitStatus(Status::Done)]
        } else {
            match polish {
                Some(m) => seq![
                    ActionView::EmitText(text),
                    ActionView::EmitStatus(Status::Polishing),
                    ActionView::Polish(text, m),
                ],
                None => seq![ActionView::EmitText(text)] + deliver_steps(auto_paste, text),
            }
        },
        Err(e) => seq![ActionView::EmitError(e), ActionView::EmitStatus(Status::Done)],
    }
}

/// The actions when the polished text arrives.
pub open spec fn polished_steps(auto_paste: bool, polished: Seq<char>) -> Seq<ActionView> {
    seq![ActionView::EmitText(polished)] + deliver_steps(auto_paste, polished)
}

/// A transcript result with its texts as character sequences.
pub open spec fn result_view(r: Result<String, String>) -> Result<Seq<char>, Seq<char>> {
    match r {
        Ok(t) => Ok(t@),
        Err(e) => Err(e@),
    }
}

/// How many times `acts` reports that the pipeline is done.
pub open spec fn done_count(acts: Seq<ActionView>) -> nat
    decreases acts.len(),
{
    if acts.len() == 0 {
        0
    } else {
        done_count(acts.drop_last()) + if acts.last() == ActionView::EmitStatus(Status::Done) {
            1nat
        } else {
            0nat
        }
    }
}

proof fn lemma_done_count_concat(a: Seq<ActionView>, b: Seq<ActionView>)
    ensures
        done_count(a + b) == done_count(a) + done_count(b),
    decreases b.len(),
{
    if b.len() == 0 {
        assert(a + b =~= a);
    } else {
        lemma_done_count_concat(a, b.drop_last());
        assert((a + b).drop_last() =~= a + b.drop_last());
    }
}

proof fn lemma_done_count_small(s: Seq<ActionView>)
    requires
        s.len() <= 5,
    ensures
        done_count(s) == (if s.len() > 0 && s[0] == ActionView::EmitStatus(Status::Done) { 1nat } else { 0nat })
            + (if s.len() > 1 && s[1] == ActionView::EmitStatus(Status::Done) { 1nat } else { 0nat })
            + (if s.len() > 2 && s[2] == ActionView::EmitStatus(Status::Done) { 1nat } else { 0nat })
            + (if s.len() > 3 && s[3] == ActionView::EmitStatus(Status::Done) { 1nat } else { 0nat })
            + (if s.len() > 4 && s[4] == ActionView::EmitStatus(Status::Done) { 1nat } else { 0nat }),
    decreases s.len(),
{
    if s.len() > 0 {
        let t = s.drop_last();
        lemma_done_count_small(t);
    }
}

/// A finished recording reports that the pipeline is done exactly once, as its
/// last action, whatever the transcript and the polished text turn out to be:
/// for a streamed recording at once, for an offline one after the transcript
/// (and, when it is polished, after the polished text).
pub proof fn finishing_reports_done_once(
    auto_paste: bool,
    polish: Option<PromptMode>,
    result: Result<Seq<char>, Seq<char>>,
    polished: Seq<char>,
)
    ensures
        done_count(begin_steps(false)) == 1,
        begin_steps(false).last() == ActionView::EmitStatus(Status::Done),
        ({
            let run = begin_steps(true) + transcript_steps(auto_paste, polish, result) + (
            if transcript_stage(polish, result) == FinishStage::AwaitPolish {
                polished_steps(auto_paste, polished)
            } else {
                Seq::empty()
            });
            done_count(run) == 1 && run.last() == ActionView::EmitStatus(Status::Done)
        }),
{
    lemma_done_count_small(begin_steps(false));
    lemma_done_count_small(begin_steps(true));
    let t = transcript_steps(auto_paste, polish, result);
    let rest = if transcript_stage(polish, result) == FinishStage::AwaitPolish {
        polished_steps(auto_paste, polished)
    } else {
        Seq::empty()
    };
    lemma_done_count_concat(begin_steps(true), t);
    lemma_done_count_concat(begin_steps(true) + t, rest);
    lemma_done_count_small(t);
    lemma_done_count_small(rest);
}

/// Whether `acts` pastes anything.
pub open spec fn pastes(acts: Seq<ActionView>) -> bool {
    exists|i: int| 0 <= i < acts.len() && #[trigger] acts[i] is Paste
}

/// A finishing recording pastes only when auto-paste is on, and then it pastes
/// the final text: the polished text when the transcript was polished, the
/// transcript itself otherwise. With auto-paste off the polished text is only
/// shown, then the job is done.
pub proof fn finishing_pastes_only_with_auto_paste(
    auto_paste: bool,
    polish: Option<PromptMode>,
    result: Result<Seq<char>, Seq<char>>,
    polished: Seq<char>,
)
    ensures
        !auto_paste ==> polished_steps(auto_paste, polished) == seq![
            ActionView::EmitText(polished),
            ActionView::EmitStatus(Status::Done),
        ],
        auto_paste ==> polished_steps(auto_paste, polished) == seq![
            ActionView::EmitText(polished),
            ActionView::RestoreFocus,
            ActionView::Sleep(PASTE_WAIT_MS),
            ActionView::Paste(polished),
            ActionView::EmitStatus(Status::Done),
        ],
        ({
            let run = begin_steps(true) + transcript_steps(auto_paste, polish, result) + (
            if transcript_stage(polish, result) == FinishStage::AwaitPolish {
                polished_steps(auto_paste, polished)
            } else {
                Seq::empty()
            });
            &&& !auto_paste ==> !pastes(run)
            &&& !pastes(begin_steps(false))
            &&& forall|i: int|
                0 <= i < run.len() && #[trigger] run[i] is Paste ==> run[i] == ActionView::Paste(
                    if transcript_stage(polish, result) == FinishStage::AwaitPolish {
                        polished
                    } else {
                        result->Ok_0
                    },
                )
        }),
{
    let pre = begin_steps(true);
    let t = transcript_steps(auto_paste, polish, result);
    let rest = if transcript_stage(polish, result) == FinishStage::AwaitPolish {
        polished_steps(auto_paste, polished)
    } else {
        Seq::empty()
    };
    let run = pre + t + rest;
    assert(polished_steps(auto_paste, polished) =~= if auto_paste {
        seq![
            ActionView::EmitText(polished),
            ActionView::RestoreFocus,
            ActionView::Sleep(PASTE_WAIT_MS),
            ActionView::Paste(polished),
            ActionView::EmitStatus(Status::Done),
        ]
    } else {
        seq![ActionView::EmitText(polished), ActionView::EmitStatus(Status::Done)]
    });
    match result {
        Ok(text) => {
            if text.len() > 0 {
                match polish {
                    Some(m) => {},
                    None => {
                        assert(t =~= if auto_paste {
                            seq![
                                ActionView::EmitText(text),
                                ActionView::RestoreFocus,
                                ActionView::Sleep(PASTE_WAIT_MS),
                                ActionView::Paste(text),
                                ActionView::EmitStatus(Status::Done),
                            ]
                        } else {
                            seq![ActionView::EmitText(text), ActionView::EmitStatus(Status::Done)]
                        });
                    },
                }
            }
        },
        Err(_) => {},
    }
    assert forall|i: int| 0 <= i < run.len() && #[trigger] run[i] is Paste implies (auto_paste
        && run[i] == ActionView::Paste(
        if transcript_stage(polish, result) == FinishStage::AwaitPolish {
            polished
        } else {
            result->Ok_0
        },
    )) by {
        if i < pre.len() {
            assert(run[i] == pre[i]);
        } else if i < pre.len() + t.len() {
            assert(run[i] == t[i - pre.len()]);
        } else {
            assert(run[i] == rest[i - pre.len() - t.len()]);
        }
    }
    assert forall|i: int| 0 <= i < begin_steps(false).len() implies !(#[trigger] begin_steps(false)[i] is Paste) by {}
}

impl FinishJob {
    /// Begins finishing a stopped recording. Offline transcription is started
    /// when it is the chosen engine; otherwise the text was already streamed,
    /// and only the focus goes back before the pipeline is done.
    pub fn begin(settings: &AppSettings) -> (r: (FinishJob, Vec<Action>))
        ensures
            r.0.auto_paste == settings.auto_paste,
            r.0.polish == settings.spec_polish_mode(),
            r.0.stage == (if settings.stt_engine@ == "whisper"@ {
                FinishStage::AwaitTranscript
            } else {
                FinishStage::Finished
            }),
            actions_view(r.1@) == begin_steps(settings.stt_engine@ == "whisper"@),
    {
        let polish = settings.polish_mode();
        let mut acts: Vec<Action> = Vec::new();
        if settings.uses_whisper() {
            push_one(&mut acts, Action::EmitStatus(Status::Transcribing));
            push_one(&mut acts, Action::Transcribe);
            (FinishJob { auto_paste: settings.auto_paste, polish, stage: FinishStage::AwaitTranscript }, acts)
        } else {
            push_one(&mut acts, Action::RestoreFocus);
            push_one(&mut acts, Action::Sleep(STREAMED_FOCUS_WAIT_MS));
            push_one(&mut acts, Action::EmitStatus(Status::Done));
            (FinishJob { auto_paste: settings.auto_paste, polish, stage: FinishStage::Finished }, acts)
        }
    }

    /// The offline transcript arrived (or failed). A text is shown, then either
    /// sent for polishing or delivered; an empty text ends the job quietly; a
    /// failure is reported.
    pub fn on_transcript(&mut self, result: Result<String, String>) -> (acts: Vec<Action>)
        requires
            old(self).stage == FinishStage::AwaitTranscript,
        ensures
            final(self).auto_paste == old(self).auto_paste,
            final(self).polish == old(self).polish,
            final(self).stage == transcript_stage(old(self).polish, result_view(result)),
            actions_view(acts@) == transcript_steps(
                old(self).auto_paste,
                old(self).polish,
                result_view(result),
            ),
    {
        let mut acts: Vec<Action> = Vec::new();
        match result {
            Ok(text) => {
                if text.as_str().is_empty() {
                    push_one(&mut acts, Action::EmitStatus(Status::Done));
                    self.stage = FinishStage::Finished;
                } else {
                    push_one(&mut acts, Action::EmitText(text.clone()));
                    match self.polish {
                        Some(m) => {
                            push_one(&mut acts, Action::EmitStatus(Status::Polishing));
                            push_one(&mut acts, Action::Polish(text, m));
                            self.stage = FinishStage::AwaitPolish;
                        },
                        None => {
                            if self.auto_paste {
                                push_paste(&mut acts, text, PASTE_WAIT_MS);
                            }
                            push_one(&mut acts, Action::EmitStatus(Status::Done));
                            self.stage = FinishStage::Finished;
                        },
                    }
                }
            },
            Err(e) => {
                push_one(&mut acts, Action::EmitError(e));
                push_one(&mut acts, Action::EmitStatus(Status::Done));
                self.stage = FinishStage::Finished;
            },
        }
        acts
    }

    /// The polished text arrived: it is shown and delivered in place of the transcript.
    pub fn on_polished(&mut self, polished: String) -> (acts: Vec<Action>)
        requires
            old(self).stage == FinishStage::AwaitPolish,
        ensures
            final(self).auto_paste == old(self).auto_paste,
            final(self).polish == old(self).polish,
            final(self).stage == FinishStage::Finished,
            actions_view(acts@) == polished_steps(old(self).auto_paste, polished@),
    {
        let mut acts: Vec<Action> = Vec::new();
        push_one(&mut acts, Action::EmitText(polished.clone()));
        if self.auto_paste {
            push_paste(&mut acts, polished, PASTE_WAIT_MS);
        }
        push_one(&mut acts, Action::EmitStatus(Status::Done));
        self.stage = FinishStage::Finished;
        acts
    }
}

/// Where the recording bubble goes when it is shown.
#[derive(Debug, Clone, Copy, PartialEq, Eq, Structural)]
pub enum OverlayPlacement {
    /// Leave it where it is (the user may have dragged it).
    Keep,
    /// Put it at the position saved in the settings.
    Saved,
    /// Put it at the bottom centre of the primary screen.
    BottomCenter,
}

/// Remembers whether the bubble was placed in this run of the application.
pub struct OverlayPositioner {
    positioned: bool,
}

impl OverlayPositioner {
    /// Whether the bubble was placed already.
    pub closed spec fn spec_positioned(self) -> bool {
        self.positioned
    }

    /// The bubble was not placed yet.
    pub fn new() -> (p: Self)
        ensures
            !p.spec_positioned(),
    {
        OverlayPositioner { positioned: false }
    }

    /// Where to put the bubble as it is shown: only the first time is it
    /// placed, at the saved position when there is one and at the bottom
    /// centre otherwise; afterwards it stays where the user left it.
    pub fn place(&mut self, has_saved_position: bool) -> (where_: OverlayPlacement)
        ensures
            final(self).spec_positioned(),
            old(self).spec_positioned() ==> where_ == OverlayPlacement::Keep,
            !old(self).spec_positioned() && has_saved_position ==> where_ == OverlayPlacement::Saved,
            !old(self).spec_positioned() && !has_saved_position ==> where_
                == OverlayPlacement::BottomCenter,
    {
        if self.positioned {
            OverlayPlacement::Keep
        } else {
            self.positioned = true;
            if has_saved_position {
                OverlayPlacement::Saved
            } else {
                OverlayPlacement::BottomCenter
            }
        }
    }
}

} // verus!
