use jp_dict_bridge::error::{BridgeError, Payload};
use jp_dict_bridge::google_tts::{
    decode_audio, extract_synthesized_audio, read_audio, read_decoded, GoogleTTS,
};
use jp_dict_bridge::json::{parse_text, Json, Member};
use jp_dict_bridge::transport::{Header, HttpOutcome};

fn member(name: &str, value: Json) -> Member {
    Member { name: name.to_string(), value }
}

#[test]
fn encoded_audio_is_decoded() {
    let envelope = parse_text("{\"audioContent\":\"QUJD\"}").unwrap();
    assert_eq!(read_audio(envelope), Ok(vec![0x41, 0x42, 0x43]));
}

#[test]
fn envelope_without_audio_has_none() {
    for text in ["{}", "[]", "{\"audioContent\":null}", "{\"audioContent\":[\"QUJD\"]}", "{\"audio\":\"QUJD\"}"] {
        let read = extract_synthesized_audio(parse_text(text).unwrap());
        assert_eq!(read, Err(BridgeError::FieldNotFound(Payload::Audio)));
        assert_eq!(
            read_audio(parse_text(text).unwrap()),
            Err(BridgeError::FieldNotFound(Payload::Audio))
        );
    }
    assert_eq!(
        BridgeError::FieldNotFound(Payload::Audio).message(),
        "json error: synthesized audio not found"
    );
}

#[test]
fn fences_around_the_audio_are_removed() {
    let envelope = Json::record_of("audioContent", Json::text("```json\nQUJD\n```\n```"));
    assert_eq!(extract_synthesized_audio(envelope), Ok("QUJD".to_string()));
    let envelope = Json::record_of("audioContent", Json::text("  ```QUJD```  "));
    assert_eq!(extract_synthesized_audio(envelope), Ok("```QUJD".to_string()));
}

#[test]
fn decodes_standard_base64() {
    assert_eq!(decode_audio(""), Ok(vec![]));
    assert_eq!(decode_audio("QQ=="), Ok(vec![0x41]));
    assert_eq!(decode_audio("//79"), Ok(vec![0xff, 0xfe, 0xfd]));
    assert_eq!(decode_audio("+/+/"), Ok(vec![0xfb, 0xff, 0xbf]));
}

#[test]
fn bad_base64_is_a_decode_error() {
    assert_eq!(
        decode_audio("QU!D"),
        Err(BridgeError::DecodeError("Invalid symbol 33, offset 2.".to_string()))
    );
    assert_eq!(
        decode_audio("QQ"),
        Err(BridgeError::DecodeError("Invalid padding".to_string()))
    );
    assert!(matches!(decode_audio("_-_-"), Err(BridgeError::DecodeError(_))));
    assert!(matches!(decode_audio("QUJD\n"), Err(BridgeError::DecodeError(_))));
    assert_eq!(
        decode_audio("QU!D").unwrap_err().message(),
        "Invalid symbol 33, offset 2."
    );
}

#[test]
fn decoded_audio_is_settled() {
    assert_eq!(read_decoded(Ok(vec![1, 2])), Ok(vec![1, 2]));
    assert_eq!(
        read_decoded(Err("bad".to_string())),
        Err(BridgeError::DecodeError("bad".to_string()))
    );
}

#[test]
fn synthesis_request_is_fixed_but_for_text_and_key() {
    let request = GoogleTTS::new(" secret \t").synthesis_request("  猫が好き ");
    assert_eq!(request.url, "https://texttospeech.googleapis.com/v1beta1/text:synthesize");
    assert_eq!(
        request.headers,
        vec![
            Header { name: "X-Goog-Api-Key".to_string(), value: "secret".to_string() },
            Header {
                name: "Content-Type".to_string(),
                value: "application/json; charset=utf-8".to_string(),
            },
        ]
    );
    let expected = Json::Record(vec![
        member(
            "input",
            Json::Record(vec![member("text", Json::Text("  猫が好き ".to_string()))]),
        ),
        member(
            "voice",
            Json::Record(vec![
                member("languageCode", Json::Text("ja-JP".to_string())),
                member("name", Json::Text("ja-JP-Neural2-D".to_string())),
            ]),
        ),
        member(
            "audioConfig",
            Json::Record(vec![member("audioEncoding", Json::Text("MP3".to_string()))]),
        ),
    ]);
    assert_eq!(request.body, expected);
}

#[test]
fn outcome_of_an_exchange_is_settled_for_audio() {
    let speech = GoogleTTS::new("key");
    let ok = HttpOutcome::Response { status: 200, body: b"{\"audioContent\":\"QUJD\"}".to_vec() };
    assert_eq!(speech.audio_from_outcome(&ok), Ok(b"ABC".to_vec()));
    let denied =
        HttpOutcome::Response { status: 401, body: b"{\"audioContent\":\"QUJD\"}".to_vec() };
    assert_eq!(
        speech.audio_from_outcome(&denied).unwrap_err().message(),
        "request error: 401 Unauthorized"
    );
    let garbled = HttpOutcome::Response { status: 200, body: b"QUJD".to_vec() };
    assert!(matches!(speech.audio_from_outcome(&garbled), Err(BridgeError::MalformedResponse(_))));
    let undecodable =
        HttpOutcome::Response { status: 200, body: b"{\"audioContent\":\"?\"}".to_vec() };
    assert!(matches!(speech.audio_from_outcome(&undecodable), Err(BridgeError::DecodeError(_))));
    let lost = HttpOutcome::SendFailed("dns".to_string());
    assert_eq!(speech.audio_from_outcome(&lost).unwrap_err().message(), "request error: dns");
}
