use jp_dict_bridge::gemini_dictionary::{extract_grammar_dictionary, extract_word_dictionary};
use jp_dict_bridge::json::Json;
use jp_dict_bridge::records::{Example, GrammarDefinition, WordDefinition};
use serde_json::Value;

fn envelope_with(reply: &str) -> Json {
    Json::record_of(
        "candidates",
        Json::list_of(Json::record_of(
            "content",
            Json::record_of("parts", Json::list_of(Json::record_of("text", Json::text(reply)))),
        )),
    )
}

fn texts(list: &[String]) -> Value {
    Value::Array(list.iter().map(|t| Value::String(t.clone())).collect())
}

fn examples(list: &[Example]) -> Value {
    let mut items = Vec::new();
    for example in list {
        let mut object = serde_json::Map::new();
        object.insert("japanese".to_string(), Value::String(example.japanese.clone()));
        object.insert("english".to_string(), Value::String(example.english.clone()));
        items.push(Value::Object(object));
    }
    Value::Array(items)
}

fn word_text(word: &WordDefinition) -> String {
    let mut object = serde_json::Map::new();
    object.insert("word".to_string(), Value::String(word.word.clone()));
    object.insert("pronunciation".to_string(), Value::String(word.pronunciation.clone()));
    object.insert("definition".to_string(), texts(&word.definition));
    object.insert("examples".to_string(), examples(&word.examples));
    serde_json::to_string(&Value::Object(object)).unwrap()
}

fn grammar_text(grammar: &GrammarDefinition) -> String {
    let mut object = serde_json::Map::new();
    object.insert("grammar".to_string(), Value::String(grammar.grammar.clone()));
    object.insert("explanations".to_string(), texts(&grammar.explanations));
    object.insert("examples".to_string(), examples(&grammar.examples));
    serde_json::to_string(&Value::Object(object)).unwrap()
}

fn sample_examples() -> Vec<Example> {
    vec![
        Example { japanese: "猫が好きだ。".to_string(), english: "I like cats.".to_string() },
        Example {
            japanese: "「猫」と言う\nもの".to_string(),
            english: "a thing called \"cat\" \\ ```".to_string(),
        },
        Example { japanese: String::new(), english: " ".to_string() },
    ]
}

fn word_of(word: &str, definition: Vec<String>, examples: Vec<Example>) -> WordDefinition {
    WordDefinition {
        word: word.to_string(),
        pronunciation: "ねこ".to_string(),
        definition,
        examples,
    }
}

#[test]
fn fenced_word_record_is_read_back() {
    let records = [
        || word_of("猫", vec!["cat".to_string()], vec![]),
        || word_of("", vec![], vec![]),
        || {
            word_of(
                "猫\t{}",
                vec!["```json".to_string(), "b\u{3000}".to_string(), "c".to_string()],
                sample_examples(),
            )
        },
    ];
    for make in records {
        let text = word_text(&make());
        let fenced = format!("```json\n{}\n```", text);
        assert_eq!(extract_word_dictionary(envelope_with(&fenced)), Ok(make()), "{}", text);
        assert_eq!(extract_word_dictionary(envelope_with(&text)), Ok(make()), "{}", text);
    }
}

#[test]
fn fenced_grammar_record_is_read_back() {
    let records = [
        || GrammarDefinition { grammar: "ながら".to_string(), explanations: vec![], examples: vec![] },
        || GrammarDefinition {
            grammar: "**〜うちに**".to_string(),
            explanations: vec!["^^while^^ \"x\"".to_string(), "before\n".to_string()],
            examples: sample_examples(),
        },
    ];
    for make in records {
        let text = grammar_text(&make());
        let fenced = format!("```json\n{}\n```", text);
        assert_eq!(extract_grammar_dictionary(envelope_with(&fenced)), Ok(make()), "{}", text);
        assert_eq!(extract_grammar_dictionary(envelope_with(&text)), Ok(make()), "{}", text);
    }
}

#[test]
fn order_of_items_is_kept() {
    let word = || {
        word_of(
            "猫",
            vec!["3".to_string(), "1".to_string(), "2".to_string(), "1".to_string()],
            vec![
                Example { japanese: "z".to_string(), english: "a".to_string() },
                Example { japanese: "a".to_string(), english: "z".to_string() },
            ],
        )
    };
    let read = extract_word_dictionary(envelope_with(&word_text(&word()))).unwrap();
    assert_eq!(read.definition, vec!["3", "1", "2", "1"]);
    assert_eq!(read.examples[0].japanese, "z");
    assert_eq!(read.examples[1].japanese, "a");
    assert_eq!(read, word());
}
