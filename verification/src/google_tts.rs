//! The speech service: a text is sent, and audio comes back as base64.

use vstd::prelude::*;
use crate::error::{BridgeError, BridgeErrorView, Payload};
use crate::fence::{strip_fences, stripped};
use crate::json::{members_model, Json, JsonModel, Member, MemberModel};
use crate::text::{trim, trimmed};
use crate::transport::{
    outcome_meaning, read_response, Header, HeaderView, HttpOutcome, HttpOutcomeView,
    HttpRequest, HttpRequestView,
};

verus! {

/// Where a synthesis is asked for.
pub const SYNTHESIS_ENDPOINT: &'static str =
    "https://texttospeech.googleapis.com/v1beta1/text:synthesize";

/// The language that is spoken.
pub const VOICE_LANGUAGE: &'static str = "ja-JP";

/// The voice that speaks.
pub const VOICE_NAME: &'static str = "ja-JP-Neural2-D";

/// The encoding of the audio that is asked for.
pub const AUDIO_ENCODING: &'static str = "MP3";

/// The header that carries the key.
pub const KEY_HEADER: &'static str = "X-Goog-Api-Key";

/// The header that tells what the body is.
pub const CONTENT_TYPE_HEADER: &'static str = "Content-Type";

/// What the body is.
pub const CONTENT_TYPE: &'static str = "application/json; charset=utf-8";

/// The object whose one member holds the string `text` under `name`.
pub open spec fn text_record(name: Seq<char>, text: Seq<char>) -> JsonModel {
    JsonModel::Record(seq![MemberModel { name, value: JsonModel::Text(text) }])
}

/// The body of the request that asks for `text` to be spoken: the text as it
/// was given, the voice and the encoding of the audio.
pub open spec fn synthesis_body(text: Seq<char>) -> JsonModel {
    let voice = JsonModel::Record(
        seq![
            MemberModel { name: "languageCode"@, value: JsonModel::Text(VOICE_LANGUAGE@) },
            MemberModel { name: "name"@, value: JsonModel::Text(VOICE_NAME@) },
        ],
    );
    JsonModel::Record(
        seq![
            MemberModel { name: "input"@, value: text_record("text"@, text) },
            MemberModel { name: "voice"@, value: voice },
            MemberModel {
                name: "audioConfig"@,
                value: text_record("audioEncoding"@, AUDIO_ENCODING@),
            },
        ],
    )
}

/// The request that asks the service, under `key`, to speak `text`. The key
/// travels in a header of its own, never in the address.
pub open spec fn synthesis_request(key: Seq<char>, text: Seq<char>) -> HttpRequestView {
    HttpRequestView {
        url: SYNTHESIS_ENDPOINT@,
        body: synthesis_body(text),
        headers: seq![
            HeaderView { name: KEY_HEADER@, value: key },
            HeaderView { name: CONTENT_TYPE_HEADER@, value: CONTENT_TYPE@ },
        ],
    }
}

/// The encoded audio in a response of the service: the string
/// `audioContent`.
pub open spec fn audio_text(envelope: JsonModel) -> Option<Seq<char>> {
    match envelope.member("audioContent"@) {
        Some(JsonModel::Text(text)) => Some(text),
        _ => None,
    }
}

/// What a response holds as encoded audio: the string `audioContent`, with
/// fences and surrounding white space removed as from a reply.
pub open spec fn audio_extraction(envelope: JsonModel) -> Result<Seq<char>, BridgeErrorView> {
    match audio_text(envelope) {
        None => Err(BridgeErrorView::FieldNotFound(Payload::Audio)),
        Some(text) => Ok(stripped(text)),
    }
}

/// What the standard base64 alphabet, with padding, makes of a text: the
/// bytes that the text encodes, or the diagnostic with which it is turned
/// down.
pub uninterp spec fn base64_decoded(text: Seq<char>) -> Result<Seq<u8>, Seq<char>>;

/// `base64::Engine::decode` of the engine
/// `base64::engine::general_purpose::STANDARD`. The outcome depends on the
/// text alone; a failure is handed on as the error's rendering.
#[verifier::external_body]
fn decode_standard(text: &str) -> (r: Result<Vec<u8>, String>)
    ensures
        match r {
            Ok(bytes) => base64_decoded(text@) == Ok::<Seq<u8>, Seq<char>>(bytes@),
            Err(detail) => base64_decoded(text@) == Err::<Seq<u8>, Seq<char>>(detail@),
        },
{
    base64::Engine::decode(&base64::engine::general_purpose::STANDARD, text).map_err(
        |e| e.to_string(),
    )
}

/// The model of what a decoding has returned.
pub open spec fn decoded_model(r: Result<Vec<u8>, String>) -> Result<Seq<u8>, Seq<char>> {
    match r {
        Ok(bytes) => Ok(bytes@),
        Err(detail) => Err(detail@),
    }
}

/// The model of what a call for audio has returned.
pub open spec fn audio_outcome(r: Result<Vec<u8>, BridgeError>) -> Result<
    Seq<u8>,
    BridgeErrorView,
> {
    match r {
        Ok(bytes) => Ok(bytes@),
        Err(error) => Err(error@),
    }
}

/// The model of what an extraction of encoded audio has returned.
pub open spec fn encoded_outcome(r: Result<String, BridgeError>) -> Result<
    Seq<char>,
    BridgeErrorView,
> {
    match r {
        Ok(text) => Ok(text@),
        Err(error) => Err(error@),
    }
}

/// What a decoding means: the bytes, or a decode error with the diagnostic.
pub open spec fn decoding_meaning(decoded: Result<Seq<u8>, Seq<char>>) -> Result<
    Seq<u8>,
    BridgeErrorView,
> {
    match decoded {
        Ok(bytes) => Ok(bytes),
        Err(detail) => Err(BridgeErrorView::DecodeError(detail)),
    }
}

/// What a response means for a synthesis.
pub open spec fn audio_reading(envelope: JsonModel) -> Result<Seq<u8>, BridgeErrorView> {
    match audio_extraction(envelope) {
        Err(error) => Err(error),
        Ok(encoded) => decoding_meaning(base64_decoded(encoded)),
    }
}

/// What the outcome of an exchange means for a synthesis.
pub open spec fn audio_answer(outcome: HttpOutcomeView) -> Result<Seq<u8>, BridgeErrorView> {
    match outcome_meaning(outcome) {
        Err(error) => Err(error),
        Ok(envelope) => audio_reading(envelope),
    }
}

/// A failed exchange is handed on unchanged, and a response without encoded
/// audio fails with nothing found: no audio is made up.
pub proof fn lemma_audio_fails_closed(outcome: HttpOutcomeView, envelope: JsonModel)
    ensures
        outcome_meaning(outcome) is Err ==> audio_answer(outcome) == Err::<
            Seq<u8>,
            BridgeErrorView,
        >(outcome_meaning(outcome)->Err_0),
        audio_text(envelope) is None ==> audio_reading(envelope) == Err::<
            Seq<u8>,
            BridgeErrorView,
        >(BridgeErrorView::FieldNotFound(Payload::Audio)),
        envelope.member("audioContent"@) is None ==> audio_text(envelope) is None,
{
}

/// Reads the encoded audio out of a response of the service.
pub fn extract_synthesized_audio(res_body: Json) -> (r: Result<String, BridgeError>)
    ensures
        encoded_outcome(r) == audio_extraction(res_body@),
{
    match res_body.get("audioContent") {
        None => Err(BridgeError::FieldNotFound(Payload::Audio)),
        Some(value) => match value.as_text() {
            None => Err(BridgeError::FieldNotFound(Payload::Audio)),
            Some(text) => Ok(strip_fences(text).to_owned()),
        },
    }
}

/// Settles what encoded audio has been decoded to.
pub fn read_decoded(decoded: Result<Vec<u8>, String>) -> (r: Result<Vec<u8>, BridgeError>)
    ensures
        audio_outcome(r) == decoding_meaning(decoded_model(decoded)),
{
    match decoded {
        Ok(bytes) => Ok(bytes),
        Err(detail) => Err(BridgeError::DecodeError(detail)),
    }
}

/// Decodes audio from base64.
pub fn decode_audio(encoded: &str) -> (r: Result<Vec<u8>, BridgeError>)
    ensures
        audio_outcome(r) == decoding_meaning(base64_decoded(encoded@)),
{
    read_decoded(decode_standard(encoded))
}

/// Reads the audio out of a response of the service.
pub fn read_audio(res_body: Json) -> (r: Result<Vec<u8>, BridgeError>)
    ensures
        audio_outcome(r) == audio_reading(res_body@),
{
    match extract_synthesized_audio(res_body) {
        Err(error) => Err(error),
        Ok(encoded) => decode_audio(encoded.as_str()),
    }
}

/// The speech service, bound to the key that its calls are made with.
pub struct GoogleTTS {
    api_key: String,
}

impl GoogleTTS {
    /// The key that the calls are made with.
    pub closed spec fn key(&self) -> Seq<char> {
        self.api_key@
    }

    /// Binds the service to a key. White space around the key is dropped.
    pub fn new(api_key: &str) -> (r: Self)
        ensures
            r.key() == trimmed(api_key@),
    {
        Self { api_key: trim(api_key).to_owned() }
    }

    /// The request that asks for `text` to be spoken. The text is sent as
    /// it is.
    pub fn synthesis_request(&self, text: &str) -> (r: HttpRequest)
        ensures
            r@ == synthesis_request(self.key(), text@),
            r@.well_formed(),
    {
        let mut voice: Vec<Member> = Vec::new();
        voice.push(Member::new("languageCode", Json::text(VOICE_LANGUAGE)));
        voice.push(Member::new("name", Json::text(VOICE_NAME)));
        let ghost voice_model = members_model(voice@);
        let mut members: Vec<Member> = Vec::new();
        members.push(Member::new("input", Json::record_of("text", Json::text(text))));
        members.push(Member::new("voice", Json::record(voice)));
        members.push(
            Member::new("audioConfig", Json::record_of("audioEncoding", Json::text(AUDIO_ENCODING))),
        );
        let ghost body_model = members_model(members@);
        let mut headers: Vec<Header> = Vec::new();
        headers.push(Header { name: KEY_HEADER.to_owned(), value: self.api_key.clone() });
        headers.push(Header { name: CONTENT_TYPE_HEADER.to_owned(), value: CONTENT_TYPE.to_owned() });
        let r = HttpRequest {
            url: SYNTHESIS_ENDPOINT.to_owned(),
            body: Json::record(members),
            headers,
        };
        proof {
            assert(voice_model =~= synthesis_body(text@)->Record_0[1].value->Record_0);
            assert(body_model =~= synthesis_body(text@)->Record_0);
            assert(r@.headers =~= synthesis_request(self.key(), text@).headers);
            reveal_strlit("X-Goog-Api-Key");
            reveal_strlit("Content-Type");
            assert(KEY_HEADER@.len() != CONTENT_TYPE_HEADER@.len());
        }
        r
    }

    /// Settles a call for audio from the outcome of its exchange. A failure
    /// of the exchange is handed on as it is; a response is read.
    pub fn audio_from_outcome(&self, outcome: &HttpOutcome) -> (r: Result<Vec<u8>, BridgeError>)
        ensures
            audio_outcome(r) == audio_answer(outcome@),
    {
        match read_response(outcome) {
            Err(error) => Err(error),
            Ok(envelope) => read_audio(envelope),
        }
    }
}

} // verus!
