//! The definition service: a generative-language model that is asked, in
//! plain words, for a dictionary entry in JSON.

use vstd::prelude::*;
use vstd::string::*;
use crate::error::{BridgeError, BridgeErrorView, MismatchCause, MismatchCauseView, Payload};
use crate::fence::{fence, json_fence, lemma_strip_fenced_object, strip_fences, stripped};
use crate::json::{json_of_text, parse_text, parsed_model, Json, JsonModel, MemberModel};
use crate::records::{
    grammar_from_json, grammar_of, in_grammar, in_sentence, in_word, lemma_grammar_needs_member,
    lemma_sentence_needs_member, lemma_word_needs_member, sentence_from_json, sentence_of,
    word_from_json, word_of, Field, GrammarDefinition, GrammarDefinitionView,
    SentenceDefinition, SentenceDefinitionView, WordDefinition, WordDefinitionView,
};
use crate::text::{is_blank, lemma_trimmed, lemma_trimmed_pad, trim, trimmed};
use crate::transport::{
    outcome_meaning, read_response, HttpOutcome, HttpOutcomeView, HttpRequest, HttpRequestView,
};

verus! {

/// The instruction that asks for the definition of a word, up to the place
/// of the word.
pub const WORD_PROMPT_BEFORE: &'static str = "Please act as a Japanese to English dictionary, including the pronunciation in hiragana, explanation, and example grammars with English translations. The word is `";

/// The instruction that asks for the definition of a word, from the place
/// of the word on. It ends in a sketch of the JSON that is asked for.
pub const WORD_PROMPT_AFTER: &'static str = "`. Please output the result in json format, the json keys are `word`, `pronunciation`, `definition`, and `examples`.\n\
please limit the number of definitions and examples to the most important ones. `word` should be just the dictionary form. Do not include romaji. \n\
{\n\
\"word\": \"Placeholder word\",\n\
\"pronunciation\": \"Placeholder pronunciation\",\n\
\"definition\": [\n\
\"Placeholder definition 1\",\n\
\"Placeholder definition 2\"\n\
],\n\
\"examples\": [\n\
{\n\
\"japanese\": \"Placeholder Japanese grammar 1.\",\n\
\"english\": \"Placeholder English translation 1.\"\n\
\"japanese\": \"Placeholder Japanese grammar 2.\",\n\
\"english\": \"Placeholder English translation 2.\"\n\
}\n\
]\n\
}\n\
Only output a json code block";

/// The instruction that asks for the explanation of a grammar point, up to
/// the place of the grammar point.
pub const GRAMMAR_PROMPT_BEFORE: &'static str = "Please act as a Japanese to English Dictionary. Please explain the grammar point in English: `";

/// The instruction that asks for the explanation of a grammar point, from
/// the place of the grammar point on. It ends in a sketch of the JSON that
/// is asked for.
pub const GRAMMAR_PROMPT_AFTER: &'static str = "`.\n\
Output the result in json format, the json keys are `grammar`, `explanations`, and `examples`. Each explanation is its own element of a vector.\n\
please limit the number of explanations and examples to the most important ones.\n\
Use standard markdown sytax for bold and italics, and surround any words with double carets to ^^highlight^^ them.\n\
Limit highlights to the explanation and do so sparingly. Bold the grammar point in the explanation and examples.\n\
Make sure to add a space AFTER the furigana in brackets, and if a word with furigana is directly after a ”、” then add a space before the word as well.\n\
For example: `授業[じゅぎょう] しているうちに、  宿題[しゅくだい] を完成[かんせい] した。`.\n\
Use furigana for advanced words ONLY (Starting at JLPT N2). DO NOT use furigana for basic words.\n\
Do NOT include romaji ANYWHERE.\n\
{\n\
\"grammar\": \"Placeholder grammar\",\n\
\"explanations\": [\n\
\"Placeholder explanation 1\",\n\
\"Placeholder explanation 2\"\n\
],\n\
\"examples\": [\n\
{\n\
\"japanese\": \"Placeholder Japanese example sentence 1.\",\n\
\"english\": \"Placeholder English translation 1.\"\n\
\"japanese\": \"Placeholder Japanese example sentence 2.\",\n\
\"english\": \"Placeholder English translation 2.\"\n\
}\n\
]\n\
}\n\
Only output a json code block";

/// Where a generation is asked for; the key follows.
pub const GENERATION_ENDPOINT: &'static str =
    "https://generativelanguage.googleapis.com/v1beta/models/gemini-2.0-flash:generateContent?key=";

/// The instruction for a word: the one template, with the word, trimmed, in
/// its one place.
pub open spec fn word_prompt(word: Seq<char>) -> Seq<char> {
    WORD_PROMPT_BEFORE@ + trimmed(word) + WORD_PROMPT_AFTER@
}

/// The instruction for a grammar point: the one template, with the grammar
/// point, trimmed, in its one place.
pub open spec fn grammar_prompt(grammar: Seq<char>) -> Seq<char> {
    GRAMMAR_PROMPT_BEFORE@ + trimmed(grammar) + GRAMMAR_PROMPT_AFTER@
}

/// The body of a single-turn generation request whose sole content is
/// `prompt`.
pub open spec fn generation_body(prompt: Seq<char>) -> JsonModel {
    let part = JsonModel::Record(seq![MemberModel { name: "text"@, value: JsonModel::Text(prompt) }]);
    let content = JsonModel::Record(
        seq![MemberModel { name: "parts"@, value: JsonModel::List(seq![part]) }],
    );
    JsonModel::Record(seq![MemberModel { name: "contents"@, value: JsonModel::List(seq![content]) }])
}

/// The request that asks the service, under `key`, to answer `prompt`.
pub open spec fn generation_request(key: Seq<char>, prompt: Seq<char>) -> HttpRequestView {
    HttpRequestView {
        url: GENERATION_ENDPOINT@ + key,
        body: generation_body(prompt),
        headers: Seq::empty(),
    }
}

/// The member `name` of a value that may be absent.
pub open spec fn member_of(j: Option<JsonModel>, name: Seq<char>) -> Option<JsonModel> {
    match j {
        Some(j) => j.member(name),
        None => None,
    }
}

/// The item at `index` of a value that may be absent.
pub open spec fn item_of(j: Option<JsonModel>, index: int) -> Option<JsonModel> {
    match j {
        Some(j) => j.item(index),
        None => None,
    }
}

/// The text of the reply in a response of the service: the string `text` of
/// the first of the `parts` of the `content` of the first of the
/// `candidates`.
pub open spec fn reply_text(envelope: JsonModel) -> Option<Seq<char>> {
    let first = item_of(envelope.member("candidates"@), 0);
    let part = item_of(member_of(member_of(first, "content"@), "parts"@), 0);
    match member_of(part, "text"@) {
        Some(JsonModel::Text(text)) => Some(text),
        _ => None,
    }
}

/// The model of what the reading of a word has returned.
pub open spec fn word_outcome(r: Result<WordDefinition, BridgeError>) -> Result<
    WordDefinitionView,
    BridgeErrorView,
> {
    match r {
        Ok(record) => Ok(record@),
        Err(error) => Err(error@),
    }
}

/// The model of what the reading of a grammar point has returned.
pub open spec fn grammar_outcome(r: Result<GrammarDefinition, BridgeError>) -> Result<
    GrammarDefinitionView,
    BridgeErrorView,
> {
    match r {
        Ok(record) => Ok(record@),
        Err(error) => Err(error@),
    }
}

/// The failure of a reply that is not the record that was asked for.
pub open spec fn mismatch(cause: MismatchCauseView, reply: Seq<char>) -> BridgeErrorView {
    BridgeErrorView::SchemaMismatch { cause, reply }
}

/// What a reply means once it has been parsed: the word definition that the
/// parsed value denotes, or a mismatch that carries the cause and the reply.
pub open spec fn word_reading(reply: Seq<char>, parsed: Result<JsonModel, Seq<char>>) -> Result<
    WordDefinitionView,
    BridgeErrorView,
> {
    match parsed {
        Err(detail) => Err(mismatch(MismatchCauseView::Syntax(detail), reply)),
        Ok(j) => match word_of(j) {
            Ok(record) => Ok(record),
            Err(fault) => Err(mismatch(MismatchCauseView::Shape(fault), reply)),
        },
    }
}

/// What a reply means once it has been parsed: the grammar definition that
/// the parsed value denotes, or a mismatch that carries the cause and the
/// reply.
pub open spec fn grammar_reading(reply: Seq<char>, parsed: Result<JsonModel, Seq<char>>) -> Result<
    GrammarDefinitionView,
    BridgeErrorView,
> {
    match parsed {
        Err(detail) => Err(mismatch(MismatchCauseView::Syntax(detail), reply)),
        Ok(j) => match grammar_of(j) {
            Ok(record) => Ok(record),
            Err(fault) => Err(mismatch(MismatchCauseView::Shape(fault), reply)),
        },
    }
}

/// The model of what the reading of a sentence has returned.
pub open spec fn sentence_outcome(r: Result<SentenceDefinition, BridgeError>) -> Result<
    SentenceDefinitionView,
    BridgeErrorView,
> {
    match r {
        Ok(record) => Ok(record@),
        Err(error) => Err(error@),
    }
}

/// What a reply means once it has been parsed: the sentence definition that
/// the parsed value denotes, or a mismatch that carries the cause and the
/// reply.
pub open spec fn sentence_reading(reply: Seq<char>, parsed: Result<JsonModel, Seq<char>>) -> Result<
    SentenceDefinitionView,
    BridgeErrorView,
> {
    match parsed {
        Err(detail) => Err(mismatch(MismatchCauseView::Syntax(detail), reply)),
        Ok(j) => match sentence_of(j) {
            Ok(record) => Ok(record),
            Err(fault) => Err(mismatch(MismatchCauseView::Shape(fault), reply)),
        },
    }
}

/// What a response means for a sentence: without the text of a reply,
/// nothing was found; else the text, fences removed, is parsed and read.
pub open spec fn sentence_extraction(envelope: JsonModel) -> Result<
    SentenceDefinitionView,
    BridgeErrorView,
> {
    match reply_text(envelope) {
        None => Err(BridgeErrorView::FieldNotFound(Payload::Dictionary)),
        Some(text) => sentence_reading(stripped(text), json_of_text(stripped(text))),
    }
}

/// What a response means for a word: without the text of a reply, nothing
/// was found; else the text, fences removed, is parsed and read.
pub open spec fn word_extraction(envelope: JsonModel) -> Result<
    WordDefinitionView,
    BridgeErrorView,
> {
    match reply_text(envelope) {
        None => Err(BridgeErrorView::FieldNotFound(Payload::Dictionary)),
        Some(text) => word_reading(stripped(text), json_of_text(stripped(text))),
    }
}

/// What a response means for a grammar point: without the text of a reply,
/// nothing was found; else the text, fences removed, is parsed and read.
pub open spec fn grammar_extraction(envelope: JsonModel) -> Result<
    GrammarDefinitionView,
    BridgeErrorView,
> {
    match reply_text(envelope) {
        None => Err(BridgeErrorView::FieldNotFound(Payload::Dictionary)),
        Some(text) => grammar_reading(stripped(text), json_of_text(stripped(text))),
    }
}

/// What the outcome of an exchange means for a word.
pub open spec fn word_answer(outcome: HttpOutcomeView) -> Result<
    WordDefinitionView,
    BridgeErrorView,
> {
    match outcome_meaning(outcome) {
        Err(error) => Err(error),
        Ok(envelope) => word_extraction(envelope),
    }
}

/// What the outcome of an exchange means for a grammar point.
pub open spec fn grammar_answer(outcome: HttpOutcomeView) -> Result<
    GrammarDefinitionView,
    BridgeErrorView,
> {
    match outcome_meaning(outcome) {
        Err(error) => Err(error),
        Ok(envelope) => grammar_extraction(envelope),
    }
}

/// Whether `prompt` is `before`, then `term`, then `after`, and nothing
/// else.
pub open spec fn stands_between(
    prompt: Seq<char>,
    before: Seq<char>,
    term: Seq<char>,
    after: Seq<char>,
) -> bool {
    let at = before.len() as int;
    let end = at + term.len();
    &&& prompt.len() == end + after.len()
    &&& prompt.take(at) == before
    &&& prompt.subrange(at, end) == term
    &&& prompt.skip(end) == after
}

/// The term stands in the instruction at one place, which is the same for
/// every term; before it and after it the instruction is the fixed text of
/// the template, whatever the term is.
pub proof fn lemma_term_stands_at_one_place(term: Seq<char>)
    ensures
        stands_between(word_prompt(term), WORD_PROMPT_BEFORE@, trimmed(term), WORD_PROMPT_AFTER@),
        stands_between(
            grammar_prompt(term),
            GRAMMAR_PROMPT_BEFORE@,
            trimmed(term),
            GRAMMAR_PROMPT_AFTER@,
        ),
{
    let t = trimmed(term);
    let w = word_prompt(term);
    let wa = WORD_PROMPT_BEFORE@.len() as int;
    assert(w.take(wa) =~= WORD_PROMPT_BEFORE@);
    assert(w.subrange(wa, wa + t.len()) =~= t);
    assert(w.skip(wa + t.len()) =~= WORD_PROMPT_AFTER@);
    let g = grammar_prompt(term);
    let ga = GRAMMAR_PROMPT_BEFORE@.len() as int;
    assert(g.take(ga) =~= GRAMMAR_PROMPT_BEFORE@);
    assert(g.subrange(ga, ga + t.len()) =~= t);
    assert(g.skip(ga + t.len()) =~= GRAMMAR_PROMPT_AFTER@);
}

/// White space around a term makes no difference to the instruction that
/// is built for it.
pub proof fn lemma_prompt_ignores_padding(left: Seq<char>, term: Seq<char>, right: Seq<char>)
    requires
        is_blank(left),
        is_blank(right),
    ensures
        word_prompt(left + term + right) == word_prompt(term),
        grammar_prompt(left + term + right) == grammar_prompt(term),
{
    lemma_trimmed_pad(left, term, right);
}

/// Two terms that are the same once trimmed get the same instruction, and
/// a term gets the instruction of what trimming leaves of it.
pub proof fn lemma_prompt_of_trimmed(a: Seq<char>, b: Seq<char>)
    ensures
        trimmed(a) == trimmed(b) ==> word_prompt(a) == word_prompt(b) && grammar_prompt(a)
            == grammar_prompt(b),
        word_prompt(trimmed(a)) == word_prompt(a),
        grammar_prompt(trimmed(a)) == grammar_prompt(a),
{
    lemma_trimmed(a);
    lemma_trimmed(trimmed(a));
}

/// A response without the text of a reply fails with nothing found,
/// whatever record was asked for; a response without candidates is
/// such a response.
pub proof fn lemma_absent_reply_fails(envelope: JsonModel)
    ensures
        envelope.member("candidates"@) is None ==> reply_text(envelope) is None,
        reply_text(envelope) is None ==> word_extraction(envelope) == Err::<
            WordDefinitionView,
            BridgeErrorView,
        >(BridgeErrorView::FieldNotFound(Payload::Dictionary)),
        reply_text(envelope) is None ==> grammar_extraction(envelope) == Err::<
            GrammarDefinitionView,
            BridgeErrorView,
        >(BridgeErrorView::FieldNotFound(Payload::Dictionary)),
        reply_text(envelope) is None ==> sentence_extraction(envelope) == Err::<
            SentenceDefinitionView,
            BridgeErrorView,
        >(BridgeErrorView::FieldNotFound(Payload::Dictionary)),
{
}

/// A reply that parses to a value without one of the members of the record
/// is a mismatch that carries the reply: no record is made up from the
/// rest.
pub proof fn lemma_missing_member_is_mismatch(reply: Seq<char>, j: JsonModel, field: Field)
    requires
        j.member(field.name()) is None,
    ensures
        in_word(field) ==> word_of(j) is Err && word_reading(reply, Ok(j)) == Err::<
            WordDefinitionView,
            BridgeErrorView,
        >(mismatch(MismatchCauseView::Shape(word_of(j)->Err_0), reply)),
        in_grammar(field) ==> grammar_of(j) is Err && grammar_reading(reply, Ok(j)) == Err::<
            GrammarDefinitionView,
            BridgeErrorView,
        >(mismatch(MismatchCauseView::Shape(grammar_of(j)->Err_0), reply)),
        in_sentence(field) ==> sentence_of(j) is Err && sentence_reading(reply, Ok(j)) == Err::<
            SentenceDefinitionView,
            BridgeErrorView,
        >(mismatch(MismatchCauseView::Shape(sentence_of(j)->Err_0), reply)),
{
    if in_sentence(field) {
        lemma_sentence_needs_member(j, field);
    }
    if in_word(field) {
        lemma_word_needs_member(j, field);
    }
    if in_grammar(field) {
        lemma_grammar_needs_member(j, field);
    }
}

/// A reply that begins with an opening brace and ends with a closing one is
/// read alike whether it stands alone or in a block of three lines: the
/// tagged fence, the reply, the bare fence. Either way the reply itself is
/// what is parsed, and what a mismatch carries.
pub proof fn lemma_fenced_reply_reads_as_bare(fenced: JsonModel, bare: JsonModel, body: Seq<char>)
    requires
        body.len() >= 2,
        body[0] == '{',
        body.last() == '}',
        reply_text(fenced) == Some(json_fence() + seq!['\n'] + body + seq!['\n'] + fence()),
        reply_text(bare) == Some(body),
    ensures
        word_extraction(fenced) == word_reading(body, json_of_text(body)),
        word_extraction(bare) == word_extraction(fenced),
        grammar_extraction(fenced) == grammar_reading(body, json_of_text(body)),
        grammar_extraction(bare) == grammar_extraction(fenced),
        sentence_extraction(fenced) == sentence_reading(body, json_of_text(body)),
        sentence_extraction(bare) == sentence_extraction(fenced),
{
    lemma_strip_fenced_object(body);
}

/// A failed exchange is handed on unchanged, whatever was asked for.
pub proof fn lemma_failure_is_handed_on(outcome: HttpOutcomeView)
    requires
        outcome_meaning(outcome) is Err,
    ensures
        word_answer(outcome) == Err::<WordDefinitionView, BridgeErrorView>(
            outcome_meaning(outcome)->Err_0,
        ),
        grammar_answer(outcome) == Err::<GrammarDefinitionView, BridgeErrorView>(
            outcome_meaning(outcome)->Err_0,
        ),
{
}

/// The instruction that asks for the definition of `word`.
pub fn default_word_prompt(word: &str) -> (r: String)
    ensures
        r@ == word_prompt(word@),
{
    let mut prompt = String::from_str(WORD_PROMPT_BEFORE);
    prompt.append(trim(word));
    prompt.append(WORD_PROMPT_AFTER);
    prompt
}

/// The instruction that asks for the explanation of `grammar`.
pub fn default_grammar_prompt(grammar: &str) -> (r: String)
    ensures
        r@ == grammar_prompt(grammar@),
{
    let mut prompt = String::from_str(GRAMMAR_PROMPT_BEFORE);
    prompt.append(trim(grammar));
    prompt.append(GRAMMAR_PROMPT_AFTER);
    prompt
}

/// Finds the text of the reply in a response of the service.
pub fn find_reply_text(envelope: &Json) -> (r: Option<&str>)
    ensures
        match r {
            Some(text) => reply_text(envelope@) == Some(text@),
            None => reply_text(envelope@) is None,
        },
{
    let candidates = match envelope.get("candidates") {
        Some(j) => j,
        None => {
            return None;
        },
    };
    let first = match candidates.at(0) {
        Some(j) => j,
        None => {
            return None;
        },
    };
    let content = match first.get("content") {
        Some(j) => j,
        None => {
            return None;
        },
    };
    let parts = match content.get("parts") {
        Some(j) => j,
        None => {
            return None;
        },
    };
    let part = match parts.at(0) {
        Some(j) => j,
        None => {
            return None;
        },
    };
    match part.get("text") {
        Some(j) => j.as_text(),
        None => None,
    }
}

/// Settles what a reply, fences removed, has been parsed to: a word
/// definition, or a mismatch that carries the cause and the reply.
pub fn read_word_reply(reply: &str, parsed: Result<Json, String>) -> (r: Result<
    WordDefinition,
    BridgeError,
>)
    ensures
        word_outcome(r) == word_reading(reply@, parsed_model(parsed)),
{
    match parsed {
        Err(detail) => Err(
            BridgeError::SchemaMismatch {
                cause: MismatchCause::Syntax(detail),
                reply: reply.to_owned(),
            },
        ),
        Ok(j) => match word_from_json(&j) {
            Ok(record) => Ok(record),
            Err(fault) => Err(
                BridgeError::SchemaMismatch {
                    cause: MismatchCause::Shape(fault),
                    reply: reply.to_owned(),
                },
            ),
        },
    }
}

/// Settles what a reply, fences removed, has been parsed to: a grammar
/// definition, or a mismatch that carries the cause and the reply.
pub fn read_grammar_reply(reply: &str, parsed: Result<Json, String>) -> (r: Result<
    GrammarDefinition,
    BridgeError,
>)
    ensures
        grammar_outcome(r) == grammar_reading(reply@, parsed_model(parsed)),
{
    match parsed {
        Err(detail) => Err(
            BridgeError::SchemaMismatch {
                cause: MismatchCause::Syntax(detail),
                reply: reply.to_owned(),
            },
        ),
        Ok(j) => match grammar_from_json(&j) {
            Ok(record) => Ok(record),
            Err(fault) => Err(
                BridgeError::SchemaMismatch {
                    cause: MismatchCause::Shape(fault),
                    reply: reply.to_owned(),
                },
            ),
        },
    }
}

/// Reads the word definition out of a response of the service. Either the
/// whole record is returned, or a failure. A reply that holds a name twice
/// in one object is read by the last value under that name, as the parser
/// hands it on; it is no mismatch on that account.
pub fn extract_word_dictionary(res_body: Json) -> (r: Result<WordDefinition, BridgeError>)
    ensures
        word_outcome(r) == word_extraction(res_body@),
{
    match find_reply_text(&res_body) {
        None => Err(BridgeError::FieldNotFound(Payload::Dictionary)),
        Some(text) => {
            let reply = strip_fences(text);
            read_word_reply(reply, parse_text(reply))
        },
    }
}

/// Reads the grammar definition out of a response of the service. Either
/// the whole record is returned, or a failure. A reply that holds a name
/// twice in one object is read by the last value under that name, as the
/// parser hands it on; it is no mismatch on that account.
pub fn extract_grammar_dictionary(res_body: Json) -> (r: Result<GrammarDefinition, BridgeError>)
    ensures
        grammar_outcome(r) == grammar_extraction(res_body@),
{
    match find_reply_text(&res_body) {
        None => Err(BridgeError::FieldNotFound(Payload::Dictionary)),
        Some(text) => {
            let reply = strip_fences(text);
            read_grammar_reply(reply, parse_text(reply))
        },
    }
}

/// Settles what a reply, fences removed, has been parsed to: a sentence
/// definition, or a mismatch that carries the cause and the reply.
pub fn read_sentence_reply(reply: &str, parsed: Result<Json, String>) -> (r: Result<
    SentenceDefinition,
    BridgeError,
>)
    ensures
        sentence_outcome(r) == sentence_reading(reply@, parsed_model(parsed)),
{
    match parsed {
        Err(detail) => Err(
            BridgeError::SchemaMismatch {
                cause: MismatchCause::Syntax(detail),
                reply: reply.to_owned(),
            },
        ),
        Ok(j) => match sentence_from_json(&j) {
            Ok(record) => Ok(record),
            Err(fault) => Err(
                BridgeError::SchemaMismatch {
                    cause: MismatchCause::Shape(fault),
                    reply: reply.to_owned(),
                },
            ),
        },
    }
}

/// Reads the sentence definition out of a response of the service. Either
/// the whole record is returned, or a failure. A reply that holds a name
/// twice in one object is read by the last value under that name, as the
/// parser hands it on; it is no mismatch on that account.
pub fn extract_sentence_dictionary(res_body: Json) -> (r: Result<SentenceDefinition, BridgeError>)
    ensures
        sentence_outcome(r) == sentence_extraction(res_body@),
{
    match find_reply_text(&res_body) {
        None => Err(BridgeError::FieldNotFound(Payload::Dictionary)),
        Some(text) => {
            let reply = strip_fences(text);
            read_sentence_reply(reply, parse_text(reply))
        },
    }
}

/// Builds the request that asks the service, under `key`, to answer
/// `prompt`.
fn build_generation_request(key: &str, prompt: String) -> (r: HttpRequest)
    ensures
        r@ == generation_request(key@, prompt@),
{
    let part = Json::record_of("text", Json::Text(prompt));
    let content = Json::record_of("parts", Json::list_of(part));
    let body = Json::record_of("contents", Json::list_of(content));
    let mut url = String::from_str(GENERATION_ENDPOINT);
    url.append(key);
    let r = HttpRequest { url, body, headers: Vec::new() };
    proof {
        assert(r@.headers =~= Seq::empty());
    }
    r
}

/// The definition service, bound to the key that its calls are made with.
pub struct GeminiDictionary {
    api_key: String,
}

impl GeminiDictionary {
    /// The key that the calls are made with.
    pub closed spec fn key(&self) -> Seq<char> {
        self.api_key@
    }

    /// Binds the service to a key. White space around the key is dropped.
    pub fn new(api_key: &str) -> (r: Self)
        ensures
            r.key() == trimmed(api_key@),
    {
        Self { api_key: trim(api_key).to_owned() }
    }

    /// The instruction that asks for the definition of `word`.
    pub fn default_word_prompt(&self, word: &str) -> (r: String)
        ensures
            r@ == word_prompt(word@),
    {
        default_word_prompt(word)
    }

    /// The instruction that asks for the explanation of `grammar`.
    pub fn default_grammar_prompt(&self, grammar: &str) -> (r: String)
        ensures
            r@ == grammar_prompt(grammar@),
    {
        default_grammar_prompt(grammar)
    }

    /// The request that asks for the definition of `word`: the instruction
    /// for the word is the sole content of a single-turn generation, and the
    /// key stands in the address.
    pub fn word_request(&self, word: &str) -> (r: HttpRequest)
        ensures
            r@ == generation_request(self.key(), word_prompt(word@)),
            r@.well_formed(),
    {
        build_generation_request(self.api_key.as_str(), self.default_word_prompt(word))
    }

    /// The request that asks for the explanation of `grammar`.
    pub fn grammar_request(&self, grammar: &str) -> (r: HttpRequest)
        ensures
            r@ == generation_request(self.key(), grammar_prompt(grammar@)),
            r@.well_formed(),
    {
        build_generation_request(self.api_key.as_str(), self.default_grammar_prompt(grammar))
    }

    /// Settles a call for a word from the outcome of its exchange. A
    /// failure of the exchange is handed on as it is; a response is read.
    pub fn word_from_outcome(&self, outcome: &HttpOutcome) -> (r: Result<
        WordDefinition,
        BridgeError,
    >)
        ensures
            word_outcome(r) == word_answer(outcome@),
    {
        match read_response(outcome) {
            Err(error) => Err(error),
            Ok(envelope) => extract_word_dictionary(envelope),
        }
    }

    /// Settles a call for a grammar point from the outcome of its exchange.
    /// A failure of the exchange is handed on as it is; a response is read.
    pub fn grammar_from_outcome(&self, outcome: &HttpOutcome) -> (r: Result<
        GrammarDefinition,
        BridgeError,
    >)
        ensures
            grammar_outcome(r) == grammar_answer(outcome@),
    {
        match read_response(outcome) {
            Err(error) => Err(error),
            Ok(envelope) => extract_grammar_dictionary(envelope),
        }
    }
}

} // verus!
