//! Live transcription: the request that opens the stream, the framing of audio
//! sent on it, and what each received event means for the caller.

use vstd::prelude::*;
use vstd::string::StringExecFns;
use crate::text::{contains_text, has_substring};

verus! {

/// One transcript delivered by the live service.
#[derive(Debug, PartialEq, Eq)]
pub struct TranscriptResult {
    pub text: String,
    /// The text of this span will not change any more.
    pub is_final: bool,
    /// The speaker paused after this span.
    pub speech_final: bool,
}

impl Clone for TranscriptResult {
    fn clone(&self) -> (c: Self)
        ensures
            c == *self,
    {
        TranscriptResult {
            text: self.text.clone(),
            is_final: self.is_final,
            speech_final: self.speech_final,
        }
    }
}

/// One transcription hypothesis; its confidence is not read.
#[derive(Debug)]
pub struct Alternative {
    pub transcript: String,
}

/// The hypotheses for the audio channel.
#[derive(Debug)]
pub struct Channel {
    pub alternatives: Vec<Alternative>,
}

/// A message of the live service, as far as it is read.
#[derive(Debug)]
pub struct DeepgramResponse {
    pub msg_type: Option<String>,
    pub channel: Option<Channel>,
    pub is_final: Option<bool>,
    pub speech_final: Option<bool>,
}

/// An absent flag counts as false.
pub open spec fn flag(b: Option<bool>) -> bool {
    match b {
        Some(v) => v,
        None => false,
    }
}

/// The message carries a channel whose first hypothesis has some text.
pub open spec fn has_transcript(resp: DeepgramResponse) -> bool {
    &&& resp.channel is Some
    &&& resp.channel->0.alternatives@.len() > 0
    &&& resp.channel->0.alternatives@[0].transcript@.len() > 0
}

/// `t` is the transcript that `resp` carries.
pub open spec fn is_transcript_of(t: TranscriptResult, resp: DeepgramResponse) -> bool {
    &&& t.text@ == resp.channel->0.alternatives@[0].transcript@
    &&& t.is_final == flag(resp.is_final)
    &&& t.speech_final == flag(resp.speech_final)
}

/// The transcript of a service message: the first hypothesis, when it is not empty.
pub fn transcript_from_response(resp: DeepgramResponse) -> (t: Option<TranscriptResult>)
    ensures
        t is Some <==> has_transcript(resp),
        t matches Some(r) ==> is_transcript_of(r, resp),
{
    let is_final = match resp.is_final {
        Some(b) => b,
        None => false,
    };
    let speech_final = match resp.speech_final {
        Some(b) => b,
        None => false,
    };
    match resp.channel {
        Some(channel) => {
            if channel.alternatives.len() > 0 {
                let text = &channel.alternatives[0].transcript;
                if !text.as_str().is_empty() {
                    return Some(TranscriptResult { text: text.clone(), is_final, speech_final });
                }
            }
            None
        },
        None => None,
    }
}

/// What a read from the live connection gave.
#[derive(Debug)]
pub enum RecvEvent {
    /// A text message, read as a service message; `None` when it could not be read.
    Text(Option<DeepgramResponse>),
    /// The service closed the connection.
    Close,
    /// Any other frame.
    Other,
    /// No data is waiting.
    WouldBlock,
    /// The read failed; the error as text.
    Failed(String),
}

/// A failure text that only says that no data is waiting yet.
pub open spec fn is_transient_failure(msg: Seq<char>) -> bool {
    has_substring(msg, "WouldBlock"@) || has_substring(msg, "Resource temporarily unavailable"@)
}

/// What a read means to the caller: a transcript, nothing yet, or an error that ends the stream.
pub fn recv_outcome(event: RecvEvent) -> (out: Result<Option<TranscriptResult>, String>)
    ensures
        event matches RecvEvent::Text(None) ==> out matches Ok(None),
        event matches RecvEvent::Text(Some(resp)) ==> (out matches Ok(o) && (o is Some
            <==> has_transcript(resp)) && (o matches Some(t) ==> is_transcript_of(t, resp))),
        event is Close ==> (out matches Err(e) && e@ == "Connection closed"@),
        event is Other ==> out matches Ok(None),
        event is WouldBlock ==> out matches Ok(None),
        event matches RecvEvent::Failed(m) ==> (if is_transient_failure(m@) {
            out matches Ok(None)
        } else {
            out matches Err(e) && e@ == "Recv error: "@ + m@
        }),
{
    match event {
        RecvEvent::Text(None) => Ok(None),
        RecvEvent::Text(Some(resp)) => Ok(transcript_from_response(resp)),
        RecvEvent::Close => Err("Connection closed".to_owned()),
        RecvEvent::Other => Ok(None),
        RecvEvent::WouldBlock => Ok(None),
        RecvEvent::Failed(m) => {
            if contains_text(m.as_str(), "WouldBlock") || contains_text(
                m.as_str(),
                "Resource temporarily unavailable",
            ) {
                Ok(None)
            } else {
                let mut e = "Recv error: ".to_owned();
                e.append(m.as_str());
                Err(e)
            }
        },
    }
}

/// The two's-complement bit pattern of a sample.
pub open spec fn sample_bits(s: i16) -> int {
    if s >= 0 {
        s as int
    } else {
        s as int + 0x10000
    }
}

/// `bytes` holds `samples` as 16-bit little-endian PCM.
pub open spec fn is_pcm16_le(samples: Seq<i16>, bytes: Seq<u8>) -> bool {
    &&& bytes.len() == 2 * samples.len()
    &&& forall|i: int|
        0 <= i < samples.len() ==> {
            &&& #[trigger] bytes[2 * i] == sample_bits(samples[i]) % 0x100
            &&& bytes[2 * i + 1] == sample_bits(samples[i]) / 0x100
        }
}

/// Frames samples as 16-bit little-endian PCM for the live service.
pub fn encode_pcm16_le(samples: &[i16]) -> (bytes: Vec<u8>)
    requires
        samples@.len() * 2 <= usize::MAX,
    ensures
        is_pcm16_le(samples@, bytes@),
{
    let mut bytes: Vec<u8> = Vec::new();
    let mut i: usize = 0;
    while i < samples.len()
        invariant
            i <= samples@.len(),
            bytes@.len() == 2 * i,
            forall|k: int|
                0 <= k < i ==> {
                    &&& #[trigger] bytes@[2 * k] == sample_bits(samples@[k]) % 0x100
                    &&& bytes@[2 * k + 1] == sample_bits(samples@[k]) / 0x100
                },
        decreases samples@.len() - i,
    {
        let s = samples[i];
        let u = #[verifier::truncate] (s as u16);
        let lo = #[verifier::truncate] ((u & 0xff) as u8);
        let hi = #[verifier::truncate] ((u >> 8) as u8);
        assert(u as int == sample_bits(s)) by (bit_vector)
            requires
                u == s as u16,
        ;
        assert(lo as int == (u as int) % 0x100 && hi as int == (u as int) / 0x100) by (bit_vector)
            requires
                lo == (u & 0xff) as u8,
                hi == (u >> 8) as u8,
        ;
        let ghost before = bytes@;
        bytes.push(lo);
        bytes.push(hi);
        assert forall|k: int| 0 <= k < i + 1 implies {
            &&& #[trigger] bytes@[2 * k] == sample_bits(samples@[k]) % 0x100
            &&& bytes@[2 * k + 1] == sample_bits(samples@[k]) / 0x100
        } by {
            if k < i {
                assert(bytes@[2 * k] == before[2 * k]);
                assert(bytes@[2 * k + 1] == before[2 * k + 1]);
            }
        }
        i = i + 1;
    }
    bytes
}

/// The streaming endpoint with its query: model, language, formatting, interim
/// results, utterance and voice-activity events, and the audio format sent.
pub open spec fn listen_url_text() -> Seq<char> {
    "wss://api.deepgram.com/v1/listen?\
     model=nova-3&\
     language=en&\
     smart_format=true&\
     punctuate=true&\
     interim_results=true&\
     utterance_end_ms=1000&\
     vad_events=true&\
     encoding=linear16&\
     sample_rate=16000&\
     channels=1"@
}

/// The address the live connection is opened to.
pub fn listen_url() -> (url: String)
    ensures
        url@ == listen_url_text(),
{
    "wss://api.deepgram.com/v1/listen?\
     model=nova-3&\
     language=en&\
     smart_format=true&\
     punctuate=true&\
     interim_results=true&\
     utterance_end_ms=1000&\
     vad_events=true&\
     encoding=linear16&\
     sample_rate=16000&\
     channels=1".to_owned()
}

/// The value of the `Authorization` header for an API key.
pub fn authorization_value(api_key: &str) -> (v: String)
    ensures
        v@ == "Token "@ + api_key@,
{
    let mut v = "Token ".to_owned();
    v.append(api_key);
    v
}

} // verus!
