use voxforge::deepgram::{
    authorization_value, encode_pcm16_le, listen_url, recv_outcome, transcript_from_response,
    Alternative, Channel, DeepgramResponse, RecvEvent, TranscriptResult,
};

fn response(texts: &[&str], is_final: Option<bool>, speech_final: Option<bool>) -> DeepgramResponse {
    DeepgramResponse {
        msg_type: Some("Results".to_string()),
        channel: Some(Channel {
            alternatives: texts.iter().map(|t| Alternative { transcript: t.to_string() }).collect(),
        }),
        is_final,
        speech_final,
    }
}

#[test]
fn first_alternative_becomes_the_transcript() {
    let t = transcript_from_response(response(&["hello there", "hello their"], Some(true), None));
    assert_eq!(
        t,
        Some(TranscriptResult { text: "hello there".to_string(), is_final: true, speech_final: false })
    );
}

#[test]
fn empty_or_missing_transcripts_are_skipped() {
    assert_eq!(transcript_from_response(response(&[""], Some(true), Some(true))), None);
    assert_eq!(transcript_from_response(response(&[], None, None)), None);
    let no_channel = DeepgramResponse {
        msg_type: Some("UtteranceEnd".to_string()),
        channel: None,
        is_final: None,
        speech_final: None,
    };
    assert_eq!(transcript_from_response(no_channel), None);
}

#[test]
fn recv_text_message() {
    let out = recv_outcome(RecvEvent::Text(Some(response(&["hi"], None, Some(true)))));
    assert_eq!(
        out,
        Ok(Some(TranscriptResult { text: "hi".to_string(), is_final: false, speech_final: true }))
    );
    assert_eq!(recv_outcome(RecvEvent::Text(None)), Ok(None));
}

#[test]
fn recv_close_is_an_error() {
    assert_eq!(recv_outcome(RecvEvent::Close), Err("Connection closed".to_string()));
}

#[test]
fn recv_nothing_waiting() {
    assert_eq!(recv_outcome(RecvEvent::Other), Ok(None));
    assert_eq!(recv_outcome(RecvEvent::WouldBlock), Ok(None));
    assert_eq!(recv_outcome(RecvEvent::Failed("IO error: WouldBlock".to_string())), Ok(None));
    assert_eq!(
        recv_outcome(RecvEvent::Failed("Resource temporarily unavailable (os error 11)".to_string())),
        Ok(None)
    );
}

#[test]
fn recv_other_failures_are_errors() {
    assert_eq!(
        recv_outcome(RecvEvent::Failed("Connection reset".to_string())),
        Err("Recv error: Connection reset".to_string())
    );
}

#[test]
fn pcm16_is_little_endian_twos_complement() {
    assert_eq!(
        encode_pcm16_le(&[1, -1, 256, -32768, 32767, 0]),
        vec![1, 0, 255, 255, 0, 1, 0, 128, 255, 127, 0, 0]
    );
    assert_eq!(encode_pcm16_le(&[]), Vec::<u8>::new());
}

#[test]
fn pcm16_matches_std_encoding() {
    let samples: Vec<i16> = vec![-12345, 12345, 7, -7, i16::MIN, i16::MAX];
    let expected: Vec<u8> = samples.iter().flat_map(|s| s.to_le_bytes()).collect();
    assert_eq!(encode_pcm16_le(&samples), expected);
}

#[test]
fn listen_url_and_header() {
    assert_eq!(
        listen_url(),
        "wss://api.deepgram.com/v1/listen?model=nova-3&language=en&smart_format=true&punctuate=true&interim_results=true&utterance_end_ms=1000&vad_events=true&encoding=linear16&sample_rate=16000&channels=1"
    );
    assert_eq!(authorization_value("abc123"), "Token abc123");
}
