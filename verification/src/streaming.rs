//! A live transcription session: which audio goes out next, how returned
//! transcripts become text on screen and in the focused application, and when
//! a long silence ends the recording.

use vstd::prelude::*;
use vstd::string::StringExecFns;
use crate::deepgram::TranscriptResult;
use crate::groq::PromptMode;
use crate::pipeline::{Action, ActionView, Status, actions_view, paste_steps};
use crate::settings::AppSettings;
use crate::text::{trim, trimmed};

verus! {

/// How long (in nanoseconds) the input must stay quiet after speech before
/// the recording stops by itself.
pub const SILENCE_NANOS: u64 = 2_000_000_000;

/// Milliseconds between giving the focus back and pasting one sentence.
pub const SENTENCE_PASTE_WAIT_MS: u64 = 30;

/// Milliseconds between giving the focus back and pasting the polished text.
pub const POLISHED_PASTE_WAIT_MS: u64 = 100;

/// At least `SILENCE_NANOS` have passed from `last` to `now` (no time passes
/// when the clock reads earlier than `last`).
pub open spec fn quiet_long_enough(last: u64, now: u64) -> bool {
    now >= last && now - last >= SILENCE_NANOS
}

/// The time of the last loud reading and whether there was one, after a reading.
pub open spec fn silence_step(state: (u64, bool), loud: bool, now: u64) -> (u64, bool) {
    if loud {
        (now, true)
    } else {
        state
    }
}

/// The state after readings `obs` (loud or not, and when), from the start of the stream.
pub open spec fn silence_after(obs: Seq<(bool, u64)>) -> (u64, bool)
    decreases obs.len(),
{
    if obs.len() == 0 {
        (0, false)
    } else {
        silence_step(silence_after(obs.drop_last()), obs.last().0, obs.last().1)
    }
}

/// A reading ends the recording: it is quiet, there was speech, and the last
/// speech was long enough ago.
pub open spec fn silence_fires(state: (u64, bool), loud: bool, now: u64) -> bool {
    !loud && state.1 && quiet_long_enough(state.0, now)
}

/// Watches the smoothed input level for a long silence after speech.
pub struct SilenceDetector {
    last_speech_ns: u64,
    has_speech: bool,
    triggered: bool,
}

impl SilenceDetector {
    /// The time of the last loud reading (the stream's start before any) and whether there was one.
    pub closed spec fn spec_state(self) -> (u64, bool) {
        (self.last_speech_ns, self.has_speech)
    }

    /// Whether the silence has ended the recording.
    pub closed spec fn spec_triggered(self) -> bool {
        self.triggered
    }

    /// A detector at the start of the stream (time 0).
    pub fn new() -> (d: Self)
        ensures
            d.spec_state() == (0u64, false),
            !d.spec_triggered(),
    {
        SilenceDetector { last_speech_ns: 0, has_speech: false, triggered: false }
    }

    /// Whether the silence has ended the recording.
    pub fn triggered(&self) -> (t: bool)
        ensures
            t == self.spec_triggered(),
    {
        self.triggered
    }

    /// A reading of the smoothed level: `loud` when above the threshold, at
    /// `now_ns` nanoseconds since the stream started. Returns whether it ends the recording.
    pub fn observe(&mut self, loud: bool, now_ns: u64) -> (fired: bool)
        requires
            !old(self).spec_triggered(),
        ensures
            fired == silence_fires(old(self).spec_state(), loud, now_ns),
            final(self).spec_triggered() == fired,
            final(self).spec_state() == silence_step(old(self).spec_state(), loud, now_ns),
    {
        if loud {
            self.last_speech_ns = now_ns;
            self.has_speech = true;
            false
        } else if self.has_speech && now_ns.saturating_sub(self.last_speech_ns) >= SILENCE_NANOS {
            self.triggered = true;
            true
        } else {
            false
        }
    }
}

/// A recording stops by itself only after speech followed by silence: a reading
/// ends it exactly when it is quiet, some earlier reading was loud, no reading
/// since the last loud one was loud, and that loud reading is at least
/// `SILENCE_NANOS` before it.
pub proof fn silence_fires_only_after_speech(obs: Seq<(bool, u64)>, loud: bool, now: u64)
    ensures
        silence_fires(silence_after(obs), loud, now) <==> (!loud && exists|i: int|
            0 <= i < obs.len() && (#[trigger] obs[i]).0 && (forall|k: int|
                i < k < obs.len() ==> !(#[trigger] obs[k]).0) && quiet_long_enough(obs[i].1, now)),
    decreases obs.len(),
{
    if obs.len() > 0 {
        let init = obs.drop_last();
        let n = obs.len() - 1;
        silence_fires_only_after_speech(init, loud, now);
        if obs[n].0 {
            if silence_fires(silence_after(obs), loud, now) {
                assert(obs[n].0);
            }
            if !loud && exists|i: int|
                0 <= i < obs.len() && (#[trigger] obs[i]).0 && (forall|k: int|
                    i < k < obs.len() ==> !(#[trigger] obs[k]).0) && quiet_long_enough(obs[i].1, now) {
                let i = choose|i: int|
                    0 <= i < obs.len() && (#[trigger] obs[i]).0 && (forall|k: int|
                        i < k < obs.len() ==> !(#[trigger] obs[k]).0) && quiet_long_enough(obs[i].1, now);
                if i < n {
                    assert(!obs[n].0);
                }
            }
        } else {
            if silence_fires(silence_after(obs), loud, now) {
                let i = choose|i: int|
                    0 <= i < init.len() && (#[trigger] init[i]).0 && (forall|k: int|
                        i < k < init.len() ==> !(#[trigger] init[k]).0) && quiet_long_enough(init[i].1, now);
                assert(obs[i] == init[i]);
                assert forall|k: int| i < k < obs.len() implies !(#[trigger] obs[k]).0 by {
                    if k < n {
                        assert(obs[k] == init[k]);
                    }
                }
            }
            if !loud && exists|i: int|
                0 <= i < obs.len() && (#[trigger] obs[i]).0 && (forall|k: int|
                    i < k < obs.len() ==> !(#[trigger] obs[k]).0) && quiet_long_enough(obs[i].1, now) {
                let i = choose|i: int|
                    0 <= i < obs.len() && (#[trigger] obs[i]).0 && (forall|k: int|
                        i < k < obs.len() ==> !(#[trigger] obs[k]).0) && quiet_long_enough(obs[i].1, now);
                assert(i < n);
                assert(init[i] == obs[i]);
                assert forall|k: int| i < k < init.len() implies !(#[trigger] init[k]).0 by {
                    assert(init[k] == obs[k]);
                }
            }
        }
    }
}

/// The text a transcript adds to the accumulated final text: a final, non-empty
/// transcript followed by one space; nothing otherwise.
pub open spec fn final_piece(r: TranscriptResult) -> Seq<char> {
    if r.is_final && r.text@.len() > 0 {
        r.text@ + " "@
    } else {
        Seq::empty()
    }
}

/// The actions for a transcript, given the confirmed text before it: nothing
/// for an empty one; for a final one the new confirmed text, trimmed, then the
/// sentence pasted when auto-paste is on and the language model is not in use;
/// for an interim one the confirmed text followed by it, trimmed.
pub open spec fn result_steps(
    acc: Seq<char>,
    auto_paste: bool,
    use_llm: bool,
    r: TranscriptResult,
) -> Seq<ActionView> {
    if r.text@.len() == 0 {
        Seq::empty()
    } else if r.is_final {
        seq![ActionView::EmitText(trimmed(acc + final_piece(r)))] + (if auto_paste && !use_llm {
            paste_steps(r.text@, SENTENCE_PASTE_WAIT_MS)
        } else {
            Seq::empty()
        })
    } else {
        seq![ActionView::EmitText(trimmed(acc + r.text@))]
    }
}

/// Whether a loop of the session goes on.
#[derive(Debug, Clone, Copy, PartialEq, Eq, Structural)]
pub enum Flow {
    Continue,
    Stop,
}

/// The live connection could not be opened: the error is shown, and the
/// session ends without reporting that the pipeline is done.
pub fn connect_failed(error: String) -> (acts: Vec<Action>)
    ensures
        actions_view(acts@) == seq![ActionView::EmitError(error@)],
{
    let ghost e = error@;
    let mut acts: Vec<Action> = Vec::new();
    acts.push(Action::EmitError(error));
    assert(actions_view(acts@) =~= seq![ActionView::EmitError(e)]);
    acts
}

/// After sending a chunk of audio: the session goes on when it was sent, and
/// ends when sending failed.
pub fn after_send(sent: &Result<(), String>) -> (flow: Flow)
    ensures
        flow == (if sent is Ok {
            Flow::Continue
        } else {
            Flow::Stop
        }),
{
    match sent {
        Ok(_) => Flow::Continue,
        Err(_) => Flow::Stop,
    }
}

/// One live transcription session.
pub struct StreamSession {
    use_llm: bool,
    auto_paste: bool,
    polish: Option<PromptMode>,
    last_sent: usize,
    accumulated: String,
    silence: SilenceDetector,
}

impl StreamSession {
    /// The language model is in use: sentences are not pasted one by one.
    pub closed spec fn spec_use_llm(self) -> bool {
        self.use_llm
    }

    /// Sentences are pasted as they are confirmed (unless the language model is in use).
    pub closed spec fn spec_auto_paste(self) -> bool {
        self.auto_paste
    }

    /// The mode in which the final text is polished, if it is.
    pub closed spec fn spec_polish(self) -> Option<PromptMode> {
        self.polish
    }

    /// Number of captured samples already sent.
    pub closed spec fn spec_last_sent(self) -> usize {
        self.last_sent
    }

    /// The confirmed text so far.
    pub closed spec fn spec_accumulated(self) -> Seq<char> {
        self.accumulated@
    }

    /// The silence detector.
    pub closed spec fn spec_silence(self) -> SilenceDetector {
        self.silence
    }

    /// Silence is watched for: the language model is in use, some text is
    /// confirmed, and silence has not ended the recording yet.
    pub open spec fn spec_watches_silence(self) -> bool {
        self.spec_use_llm() && self.spec_accumulated().len() > 0
            && !self.spec_silence().spec_triggered()
    }

    /// A session for the given settings, with nothing sent or confirmed yet.
    pub fn new(settings: &AppSettings) -> (s: Self)
        ensures
            s.spec_use_llm() == settings.spec_uses_llm(),
            s.spec_auto_paste() == settings.auto_paste,
            s.spec_polish() == settings.spec_polish_mode(),
            s.spec_last_sent() == 0,
            s.spec_accumulated().len() == 0,
            s.spec_silence().spec_state() == (0u64, false),
            !s.spec_silence().spec_triggered(),
    {
        StreamSession {
            use_llm: settings.uses_llm(),
            auto_paste: settings.auto_paste,
            polish: settings.polish_mode(),
            last_sent: 0,
            accumulated: String::new(),
            silence: SilenceDetector::new(),
        }
    }

    /// The confirmed text so far.
    pub fn accumulated(&self) -> (t: &str)
        ensures
            t@ == self.spec_accumulated(),
    {
        self.accumulated.as_str()
    }

    /// The range of captured samples to send next, given how many are captured:
    /// everything not sent yet, when there is any.
    pub fn next_chunk(&mut self, captured: usize) -> (chunk: Option<(usize, usize)>)
        ensures
            captured > old(self).spec_last_sent() ==> chunk == Some((old(self).spec_last_sent(), captured))
                && final(self).spec_last_sent() == captured,
            captured <= old(self).spec_last_sent() ==> chunk is None && final(self).spec_last_sent()
                == old(self).spec_last_sent(),
            final(self).spec_accumulated() == old(self).spec_accumulated(),
            final(self).spec_use_llm() == old(self).spec_use_llm(),
            final(self).spec_auto_paste() == old(self).spec_auto_paste(),
            final(self).spec_polish() == old(self).spec_polish(),
            final(self).spec_silence() == old(self).spec_silence(),
    {
        if captured > self.last_sent {
            let start = self.last_sent;
            self.last_sent = captured;
            Some((start, captured))
        } else {
            None
        }
    }

    /// A transcript arrived. A final one is added to the confirmed text, which
    /// is shown, and is pasted at once when auto-paste is on and the language
    /// model is not in use; an interim one is shown after the confirmed text.
    pub fn on_result(&mut self, r: TranscriptResult) -> (acts: Vec<Action>)
        ensures
            final(self).spec_accumulated() == old(self).spec_accumulated() + final_piece(r),
            final(self).spec_last_sent() == old(self).spec_last_sent(),
            final(self).spec_use_llm() == old(self).spec_use_llm(),
            final(self).spec_auto_paste() == old(self).spec_auto_paste(),
            final(self).spec_polish() == old(self).spec_polish(),
            final(self).spec_silence() == old(self).spec_silence(),
            actions_view(acts@) == result_steps(
                old(self).spec_accumulated(),
                old(self).spec_auto_paste(),
                old(self).spec_use_llm(),
                r,
            ),
    {
        let ghost acc = self.accumulated@;
        let ghost steps = result_steps(acc, self.auto_paste, self.use_llm, r);
        let mut acts: Vec<Action> = Vec::new();
        if r.text.as_str().is_empty() {
            assert(actions_view(acts@) =~= steps);
            return acts;
        }
        if r.is_final {
            self.accumulated.append(r.text.as_str());
            self.accumulated.append(" ");
            assert(self.accumulated@ =~= acc + final_piece(r));
            let shown = trim(self.accumulated.as_str());
            acts.push(Action::EmitText(shown));
            if self.auto_paste && !self.use_llm {
                acts.push(Action::RestoreFocus);
                acts.push(Action::Sleep(SENTENCE_PASTE_WAIT_MS));
                acts.push(Action::Paste(r.text));
            }
        } else {
            let mut preview = self.accumulated.clone();
            preview.append(r.text.as_str());
            let shown = trim(preview.as_str());
            acts.push(Action::EmitText(shown));
        }
        assert(actions_view(acts@) =~= steps);
        acts
    }

    /// The start of each round of the session: when streaming must stop, the
    /// stream is closed and the session ends; otherwise it goes on.
    pub fn on_round(&self, stop_requested: bool) -> (r: (Flow, Vec<Action>))
        ensures
            stop_requested ==> r.0 == Flow::Stop && actions_view(r.1@) == seq![
                ActionView::CloseStream,
            ],
            !stop_requested ==> r.0 == Flow::Continue && r.1@.len() == 0,
    {
        let mut acts: Vec<Action> = Vec::new();
        if stop_requested {
            acts.push(Action::CloseStream);
            assert(actions_view(acts@) =~= seq![ActionView::CloseStream]);
            (Flow::Stop, acts)
        } else {
            (Flow::Continue, acts)
        }
    }

    /// One read while draining what the service sent: a transcript is handled
    /// and draining goes on; when nothing is waiting, or the read failed,
    /// draining stops for this round and nothing changes.
    pub fn on_received(&mut self, got: Result<Option<TranscriptResult>, String>) -> (r: (
        Flow,
        Vec<Action>,
    ))
        ensures
            got matches Ok(Some(t)) ==> {
                &&& r.0 == Flow::Continue
                &&& final(self).spec_accumulated() == old(self).spec_accumulated() + final_piece(t)
                &&& final(self).spec_last_sent() == old(self).spec_last_sent()
                &&& final(self).spec_use_llm() == old(self).spec_use_llm()
                &&& final(self).spec_auto_paste() == old(self).spec_auto_paste()
                &&& final(self).spec_polish() == old(self).spec_polish()
                &&& final(self).spec_silence() == old(self).spec_silence()
                &&& actions_view(r.1@) == result_steps(
                    old(self).spec_accumulated(),
                    old(self).spec_auto_paste(),
                    old(self).spec_use_llm(),
                    t,
                )
            },
            !(got matches Ok(Some(_))) ==> r.0 == Flow::Stop && r.1@.len() == 0 && *final(self)
                == *old(self),
    {
        match got {
            Ok(Some(t)) => (Flow::Continue, self.on_result(t)),
            _ => (Flow::Stop, Vec::new()),
        }
    }

    /// Whether the input level must be read to watch for silence.
    pub fn watches_silence(&self) -> (w: bool)
        ensures
            w == self.spec_watches_silence(),
    {
        self.use_llm && !self.accumulated.as_str().is_empty() && !self.silence.triggered()
    }

    /// A reading of the smoothed level while silence is watched for: `loud`
    /// when above the threshold, at `now_ns` nanoseconds since the stream
    /// started. When it ends the recording, the status is shown, capture stops
    /// and the stream closes.
    pub fn on_level(&mut self, loud: bool, now_ns: u64) -> (acts: Vec<Action>)
        requires
            old(self).spec_watches_silence(),
        ensures
            final(self).spec_silence().spec_state() == silence_step(
                old(self).spec_silence().spec_state(),
                loud,
                now_ns,
            ),
            final(self).spec_silence().spec_triggered() == silence_fires(
                old(self).spec_silence().spec_state(),
                loud,
                now_ns,
            ),
            final(self).spec_silence().spec_triggered() ==> actions_view(acts@) == seq![
                ActionView::EmitStatus(Status::Silence),
                ActionView::StopCapture,
                ActionView::CloseStream,
            ],
            !final(self).spec_silence().spec_triggered() ==> acts@.len() == 0,
            final(self).spec_accumulated() == old(self).spec_accumulated(),
            final(self).spec_last_sent() == old(self).spec_last_sent(),
            final(self).spec_use_llm() == old(self).spec_use_llm(),
            final(self).spec_auto_paste() == old(self).spec_auto_paste(),
            final(self).spec_polish() == old(self).spec_polish(),
    {
        let mut acts: Vec<Action> = Vec::new();
        if self.silence.observe(loud, now_ns) {
            acts.push(Action::EmitStatus(Status::Silence));
            acts.push(Action::StopCapture);
            acts.push(Action::CloseStream);
            assert(actions_view(acts@) =~= seq![
                ActionView::EmitStatus(Status::Silence),
                ActionView::StopCapture,
                ActionView::CloseStream,
            ]);
        }
        acts
    }

    /// After the stream ends: when polishing is configured and the confirmed
    /// text, trimmed, is not empty, show the polishing status and have that
    /// text polished; otherwise nothing.
    pub fn ending_actions(&self) -> (acts: Vec<Action>)
        ensures
            match self.spec_polish() {
                Some(m) => if trimmed(self.spec_accumulated()).len() > 0 {
                    actions_view(acts@) == seq![
                        ActionView::EmitStatus(Status::Polishing),
                        ActionView::Polish(trimmed(self.spec_accumulated()), m),
                    ]
                } else {
                    acts@.len() == 0
                },
                None => acts@.len() == 0,
            },
    {
        let mut acts: Vec<Action> = Vec::new();
        match self.polish {
            Some(m) => {
                let t = trim(self.accumulated.as_str());
                if !t.as_str().is_empty() {
                    let ghost tv = t@;
                    acts.push(Action::EmitStatus(Status::Polishing));
                    acts.push(Action::Polish(t, m));
                    assert(actions_view(acts@) =~= seq![
                        ActionView::EmitStatus(Status::Polishing),
                        ActionView::Polish(tv, m),
                    ]);
                }
            },
            None => {},
        }
        acts
    }

    /// The polished text arrived: it is shown, and pasted into the application
    /// the user worked in.
    pub fn after_polish(polished: String) -> (acts: Vec<Action>)
        ensures
            actions_view(acts@) == seq![ActionView::EmitText(polished@)] + paste_steps(
                polished@,
                POLISHED_PASTE_WAIT_MS,
            ),
    {
        let mut acts: Vec<Action> = Vec::new();
        acts.push(Action::EmitText(polished.clone()));
        acts.push(Action::RestoreFocus);
        acts.push(Action::Sleep(POLISHED_PASTE_WAIT_MS));
        acts.push(Action::Paste(polished));
        assert(actions_view(acts@) =~= seq![ActionView::EmitText(polished@)] + paste_steps(
            polished@,
            POLISHED_PASTE_WAIT_MS,
        ));
        acts
    }

    /// The last actions of the session: the pipeline is done here only when
    /// silence ended the recording (a stop by the user reports it elsewhere).
    pub fn closing_actions(&self) -> (acts: Vec<Action>)
        ensures
            self.spec_silence().spec_triggered() ==> actions_view(acts@) == seq![
                ActionView::EmitStatus(Status::Done),
            ],
            !self.spec_silence().spec_triggered() ==> acts@.len() == 0,
    {
        let mut acts: Vec<Action> = Vec::new();
        if self.silence.triggered() {
            acts.push(Action::EmitStatus(Status::Done));
            assert(actions_view(acts@) =~= seq![ActionView::EmitStatus(Status::Done)]);
        }
        acts
    }
}

/// The texts pasted by `acts`, in order.
pub open spec fn pasted_texts(acts: Seq<ActionView>) -> Seq<Seq<char>>
    decreases acts.len(),
{
    if acts.len() == 0 {
        Seq::empty()
    } else {
        let earlier = pasted_texts(acts.drop_last());
        match acts.last() {
            ActionView::Paste(t) => earlier.push(t),
            _ => earlier,
        }
    }
}

proof fn lemma_pasted_concat(a: Seq<ActionView>, b: Seq<ActionView>)
    ensures
        pasted_texts(a + b) == pasted_texts(a) + pasted_texts(b),
    decreases b.len(),
{
    if b.len() == 0 {
        assert(a + b =~= a);
        assert(pasted_texts(a) + pasted_texts(b) =~= pasted_texts(a));
    } else {
        lemma_pasted_concat(a, b.drop_last());
        assert((a + b).drop_last() =~= a + b.drop_last());
        assert((a + b).last() == b.last());
        match b.last() {
            ActionView::Paste(t) => {
                assert(pasted_texts(a) + pasted_texts(b.drop_last()).push(t) =~= (pasted_texts(a)
                    + pasted_texts(b.drop_last())).push(t));
            },
            _ => {},
        }
    }
}

proof fn lemma_pasted_one(x: ActionView)
    ensures
        pasted_texts(seq![x]) == (match x {
            ActionView::Paste(t) => seq![t],
            _ => Seq::<Seq<char>>::empty(),
        }),
{
    assert(seq![x].drop_last() =~= Seq::<ActionView>::empty());
    assert(seq![x].last() == x);
    assert(pasted_texts(Seq::<ActionView>::empty()) == Seq::<Seq<char>>::empty());
    match x {
        ActionView::Paste(t) => {
            assert(Seq::<Seq<char>>::empty().push(t) =~= seq![t]);
        },
        _ => {},
    }
}

proof fn lemma_pasted_result_steps(acc: Seq<char>, auto_paste: bool, use_llm: bool, r: TranscriptResult)
    ensures
        pasted_texts(result_steps(acc, auto_paste, use_llm, r)) == (if r.is_final && r.text@.len() > 0
            && auto_paste && !use_llm {
            seq![r.text@]
        } else {
            Seq::<Seq<char>>::empty()
        }),
{
    let steps = result_steps(acc, auto_paste, use_llm, r);
    if r.text@.len() == 0 {
        assert(pasted_texts(steps) =~= Seq::<Seq<char>>::empty());
    } else if r.is_final {
        let head = seq![ActionView::EmitText(trimmed(acc + final_piece(r)))];
        lemma_pasted_one(head[0]);
        assert(head =~= seq![head[0]]);
        if auto_paste && !use_llm {
            let tail = paste_steps(r.text@, SENTENCE_PASTE_WAIT_MS);
            lemma_pasted_concat(head, tail);
            let t1 = seq![ActionView::RestoreFocus, ActionView::Sleep(SENTENCE_PASTE_WAIT_MS)];
            let t2 = seq![ActionView::Paste(r.text@)];
            assert(tail =~= t1 + t2);
            lemma_pasted_concat(t1, t2);
            lemma_pasted_concat(seq![ActionView::RestoreFocus], seq![ActionView::Sleep(SENTENCE_PASTE_WAIT_MS)]);
            assert(t1 =~= seq![ActionView::RestoreFocus] + seq![ActionView::Sleep(SENTENCE_PASTE_WAIT_MS)]);
            lemma_pasted_one(ActionView::RestoreFocus);
            lemma_pasted_one(ActionView::Sleep(SENTENCE_PASTE_WAIT_MS));
            lemma_pasted_one(ActionView::Paste(r.text@));
            assert(pasted_texts(steps) =~= seq![r.text@]);
        } else {
            assert(steps =~= head + Seq::<ActionView>::empty());
            lemma_pasted_concat(head, Seq::<ActionView>::empty());
            assert(pasted_texts(steps) =~= Seq::<Seq<char>>::empty());
        }
    } else {
        lemma_pasted_one(steps[0]);
        assert(steps =~= seq![steps[0]]);
    }
}

/// A confirmed sentence is pasted on its own: for a final, non-empty
/// transcript with auto-paste on and no language model, the actions are the
/// confirmed text shown, the focus given back, a short wait, and a paste of
/// exactly that transcript, whatever was confirmed before it; interim and
/// empty transcripts, and sessions with the language model or without
/// auto-paste, paste nothing.
pub proof fn each_sentence_pasted_alone(acc: Seq<char>, auto_paste: bool, use_llm: bool, r: TranscriptResult)
    ensures
        r.is_final && r.text@.len() > 0 && auto_paste && !use_llm ==> result_steps(
            acc,
            auto_paste,
            use_llm,
            r,
        ) == seq![
            ActionView::EmitText(trimmed(acc + r.text@ + " "@)),
            ActionView::RestoreFocus,
            ActionView::Sleep(SENTENCE_PASTE_WAIT_MS),
            ActionView::Paste(r.text@),
        ],
        !(r.is_final && r.text@.len() > 0 && auto_paste && !use_llm) ==> pasted_texts(
            result_steps(acc, auto_paste, use_llm, r),
        ).len() == 0,
{
    lemma_pasted_result_steps(acc, auto_paste, use_llm, r);
    if r.is_final && r.text@.len() > 0 && auto_paste && !use_llm {
        assert(acc + final_piece(r) =~= acc + r.text@ + " "@);
        assert(result_steps(acc, auto_paste, use_llm, r) =~= seq![
            ActionView::EmitText(trimmed(acc + r.text@ + " "@)),
            ActionView::RestoreFocus,
            ActionView::Sleep(SENTENCE_PASTE_WAIT_MS),
            ActionView::Paste(r.text@),
        ]);
    }
}

/// The confirmed text after transcripts `rs`, starting from `acc`.
pub open spec fn accumulated_after(acc: Seq<char>, rs: Seq<TranscriptResult>) -> Seq<char>
    decreases rs.len(),
{
    if rs.len() == 0 {
        acc
    } else {
        accumulated_after(acc, rs.drop_last()) + final_piece(rs.last())
    }
}

/// The actions of a session for transcripts `rs` handled one after another,
/// starting from the confirmed text `acc`.
pub open spec fn session_steps(
    acc: Seq<char>,
    auto_paste: bool,
    use_llm: bool,
    rs: Seq<TranscriptResult>,
) -> Seq<ActionView>
    decreases rs.len(),
{
    if rs.len() == 0 {
        Seq::empty()
    } else {
        session_steps(acc, auto_paste, use_llm, rs.drop_last()) + result_steps(
            accumulated_after(acc, rs.drop_last()),
            auto_paste,
            use_llm,
            rs.last(),
        )
    }
}

/// The texts of the final, non-empty transcripts among `rs`, in order.
pub open spec fn confirmed_sentences(rs: Seq<TranscriptResult>) -> Seq<Seq<char>>
    decreases rs.len(),
{
    if rs.len() == 0 {
        Seq::empty()
    } else {
        let earlier = confirmed_sentences(rs.drop_last());
        if rs.last().is_final && rs.last().text@.len() > 0 {
            earlier.push(rs.last().text@)
        } else {
            earlier
        }
    }
}

/// Over a whole session with auto-paste on and no language model, the texts
/// pasted are the confirmed sentences, each once and in order; with the
/// language model in use, or auto-paste off, nothing is pasted while streaming.
pub proof fn session_pastes_each_sentence_once(
    acc: Seq<char>,
    auto_paste: bool,
    use_llm: bool,
    rs: Seq<TranscriptResult>,
)
    ensures
        auto_paste && !use_llm ==> pasted_texts(session_steps(acc, auto_paste, use_llm, rs))
            == confirmed_sentences(rs),
        !(auto_paste && !use_llm) ==> pasted_texts(session_steps(acc, auto_paste, use_llm, rs)).len()
            == 0,
    decreases rs.len(),
{
    if rs.len() == 0 {
        assert(pasted_texts(Seq::<ActionView>::empty()) =~= Seq::<Seq<char>>::empty());
    } else {
        let init = rs.drop_last();
        session_pastes_each_sentence_once(acc, auto_paste, use_llm, init);
        let prev = session_steps(acc, auto_paste, use_llm, init);
        let step = result_steps(accumulated_after(acc, init), auto_paste, use_llm, rs.last());
        lemma_pasted_concat(prev, step);
        lemma_pasted_result_steps(accumulated_after(acc, init), auto_paste, use_llm, rs.last());
        if auto_paste && !use_llm {
            if rs.last().is_final && rs.last().text@.len() > 0 {
                assert(confirmed_sentences(init) + seq![rs.last().text@] =~= confirmed_sentences(
                    init,
                ).push(rs.last().text@));
            } else {
                assert(confirmed_sentences(init) + Seq::<Seq<char>>::empty() =~= confirmed_sentences(
                    init,
                ));
            }
        }
    }
}

/// The accumulated text after a session is the starting text followed by
/// every confirmed sentence, each followed by one space.
pub proof fn accumulated_is_confirmed_sentences(acc: Seq<char>, rs: Seq<TranscriptResult>)
    ensures
        accumulated_after(acc, rs) == acc + spaced(confirmed_sentences(rs)),
    decreases rs.len(),
{
    if rs.len() > 0 {
        let init = rs.drop_last();
        accumulated_is_confirmed_sentences(acc, init);
        if rs.last().is_final && rs.last().text@.len() > 0 {
            let c = confirmed_sentences(init).push(rs.last().text@);
            assert(c.drop_last() =~= confirmed_sentences(init));
            assert(acc + spaced(confirmed_sentences(init)) + (rs.last().text@ + " "@) =~= acc + (
            spaced(confirmed_sentences(init)) + rs.last().text@ + " "@));
        } else {
            assert(final_piece(rs.last()) =~= Seq::<char>::empty());
            assert(accumulated_after(acc, init) + Seq::<char>::empty() =~= accumulated_after(acc, init));
        }
    }
}

/// Sentences each followed by one space, joined.
pub open spec fn spaced(sentences: Seq<Seq<char>>) -> Seq<char>
    decreases sentences.len(),
{
    if sentences.len() == 0 {
        Seq::empty()
    } else {
        spaced(sentences.drop_last()) + sentences.last() + " "@
    }
}

/// Silence is watched only while the language model is in use: a session
/// whose settings leave it off never stops by itself, whatever it confirmed.
pub proof fn silence_watched_only_with_llm(s: StreamSession, settings: AppSettings)
    ensures
        s.spec_watches_silence() ==> s.spec_use_llm(),
        s.spec_use_llm() == settings.spec_uses_llm() ==> (s.spec_watches_silence()
            ==> settings.llm_enabled && settings.prompt_mode@ != "direct"@),
{
}

/// With the language model switched off in the settings, a live session that
/// has auto-paste on pastes every confirmed sentence as it arrives.
pub proof fn llm_off_pastes_sentences(
    settings: AppSettings,
    acc: Seq<char>,
    rs: Seq<TranscriptResult>,
)
    requires
        !settings.llm_enabled,
        settings.auto_paste,
    ensures
        pasted_texts(session_steps(acc, settings.auto_paste, settings.spec_uses_llm(), rs))
            == confirmed_sentences(rs),
{
    session_pastes_each_sentence_once(acc, settings.auto_paste, settings.spec_uses_llm(), rs);
}

} // verus!
