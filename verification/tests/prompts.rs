use jp_dict_bridge::gemini_dictionary::{
    default_grammar_prompt, default_word_prompt, GeminiDictionary, GENERATION_ENDPOINT,
    GRAMMAR_PROMPT_AFTER, GRAMMAR_PROMPT_BEFORE, WORD_PROMPT_AFTER, WORD_PROMPT_BEFORE,
};
use jp_dict_bridge::json::Json;

#[test]
fn word_prompt_ignores_surrounding_white_space() {
    let dictionary = GeminiDictionary::new("key");
    assert_eq!(dictionary.default_word_prompt("  猫  "), dictionary.default_word_prompt("猫"));
    assert_eq!(
        dictionary.default_word_prompt("\n\t猫\u{3000}"),
        dictionary.default_word_prompt("猫")
    );
    assert_eq!(
        dictionary.default_grammar_prompt(" 〜うちに\r\n"),
        dictionary.default_grammar_prompt("〜うちに")
    );
}

#[test]
fn word_prompt_is_the_same_on_every_call_and_for_every_key() {
    let one = GeminiDictionary::new("a");
    let other = GeminiDictionary::new("b");
    assert_eq!(one.default_word_prompt("猫"), one.default_word_prompt("猫"));
    assert_eq!(one.default_word_prompt("猫"), other.default_word_prompt("猫"));
    assert_ne!(one.default_word_prompt("猫"), one.default_word_prompt("犬"));
}

#[test]
fn word_prompt_holds_the_word_in_its_one_place() {
    let prompt = GeminiDictionary::new("key").default_word_prompt(" 猫 ");
    assert!(prompt.starts_with(
        "Please act as a Japanese to English dictionary, including the pronunciation in hiragana, explanation, and example grammars with English translations. The word is `猫`. Please output the result in json format, the json keys are `word`, `pronunciation`, `definition`, and `examples`.\nplease limit"
    ));
    assert!(prompt.ends_with("}\n]\n}\nOnly output a json code block"));
    assert_eq!(prompt, format!("{}猫{}", WORD_PROMPT_BEFORE, WORD_PROMPT_AFTER));
    assert_eq!(prompt.matches("猫").count(), 1);
    assert_eq!(prompt.find("猫"), Some(WORD_PROMPT_BEFORE.len()));
    assert!(!prompt.contains("{:"));
}

#[test]
fn grammar_prompt_holds_the_grammar_point_in_its_one_place() {
    let prompt = GeminiDictionary::new("key").default_grammar_prompt("ながら");
    assert!(prompt.starts_with(
        "Please act as a Japanese to English Dictionary. Please explain the grammar point in English: `ながら`.\nOutput the result"
    ));
    assert!(prompt.contains("Bold the grammar point in the explanation and examples."));
    assert!(prompt.ends_with("}\n]\n}\nOnly output a json code block"));
    assert_eq!(prompt, format!("{}ながら{}", GRAMMAR_PROMPT_BEFORE, GRAMMAR_PROMPT_AFTER));
    assert_eq!(prompt.matches("ながら").count(), 1);
    assert_eq!(prompt.chars().position(|c| c == 'な'), Some(94));
    assert!(!prompt.contains("{:"));
}

#[test]
fn templates_hold_the_sketch_of_the_answer() {
    assert!(WORD_PROMPT_AFTER.contains(
        "{\n\"word\": \"Placeholder word\",\n\"pronunciation\": \"Placeholder pronunciation\",\n\"definition\": [\n"
    ));
    assert!(GRAMMAR_PROMPT_AFTER.contains("{\n\"grammar\": \"Placeholder grammar\",\n\"explanations\": [\n"));
    assert!(WORD_PROMPT_BEFORE.ends_with("The word is `"));
    assert!(GRAMMAR_PROMPT_BEFORE.ends_with("in English: `"));
    assert_eq!(GRAMMAR_PROMPT_BEFORE.chars().count(), 94);
}

#[test]
fn empty_term_leaves_the_rest_of_the_template() {
    let prompt = GeminiDictionary::new("key").default_word_prompt("   ");
    assert_eq!(prompt, format!("{}{}", WORD_PROMPT_BEFORE, WORD_PROMPT_AFTER));
    assert!(prompt.contains("The word is ``. Please"));
}

#[test]
fn term_is_put_in_as_it_is() {
    let prompt = GeminiDictionary::new("key").default_grammar_prompt("〜て `x` \"y\"");
    assert_eq!(
        prompt,
        format!("{}〜て `x` \"y\"{}", GRAMMAR_PROMPT_BEFORE, GRAMMAR_PROMPT_AFTER)
    );
    let prompt = GeminiDictionary::new("key").default_word_prompt("猫 と 犬");
    assert_eq!(prompt, format!("{}猫 と 犬{}", WORD_PROMPT_BEFORE, WORD_PROMPT_AFTER));
}

#[test]
fn word_request_carries_the_trimmed_key_and_the_prompt() {
    let dictionary = GeminiDictionary::new("  secret-key \n");
    let request = dictionary.word_request(" 猫 ");
    assert_eq!(
        request.url,
        "https://generativelanguage.googleapis.com/v1beta/models/gemini-2.0-flash:generateContent?key=secret-key"
    );
    assert_eq!(request.url, format!("{}secret-key", GENERATION_ENDPOINT));
    assert!(request.headers.is_empty());
    let prompt = dictionary.default_word_prompt("猫");
    let expected = Json::record_of(
        "contents",
        Json::list_of(Json::record_of(
            "parts",
            Json::list_of(Json::record_of("text", Json::text(&prompt))),
        )),
    );
    assert_eq!(request.body, expected);
    let text = request
        .body
        .get("contents")
        .and_then(|j| j.at(0))
        .and_then(|j| j.get("parts"))
        .and_then(|j| j.at(0))
        .and_then(|j| j.get("text"))
        .and_then(|j| j.as_text());
    assert_eq!(text, Some(prompt.as_str()));
}

#[test]
fn grammar_request_carries_the_grammar_prompt() {
    let dictionary = GeminiDictionary::new("k");
    let request = dictionary.grammar_request("うちに");
    assert_eq!(request.url, format!("{}k", GENERATION_ENDPOINT));
    let prompt = dictionary.default_grammar_prompt("うちに");
    let expected = Json::record_of(
        "contents",
        Json::list_of(Json::record_of(
            "parts",
            Json::list_of(Json::record_of("text", Json::text(&prompt))),
        )),
    );
    assert_eq!(request.body, expected);
}

#[test]
fn prompts_need_no_service() {
    let dictionary = GeminiDictionary::new("key");
    assert_eq!(default_word_prompt(" 猫"), dictionary.default_word_prompt("猫 "));
    assert_eq!(default_grammar_prompt("うちに "), dictionary.default_grammar_prompt(" うちに"));
}
