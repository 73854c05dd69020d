//! The records that a definition is returned in, and the rules by which a
//! JSON value is accepted as one of them.

use vstd::prelude::*;
use crate::json::{Json, JsonModel};

verus! {

/// A pair of sentences that say the same in both languages.
#[derive(Debug, PartialEq, Eq)]
pub struct Example {
    pub japanese: String,
    pub english: String,
}

/// What is known of a word: its dictionary form, its reading, its senses
/// and some examples of its use.
#[derive(Debug, PartialEq, Eq)]
pub struct WordDefinition {
    pub word: String,
    pub pronunciation: String,
    pub definition: Vec<String>,
    pub examples: Vec<Example>,
}

/// What is known of a grammar point: how it works, and some examples.
#[derive(Debug, PartialEq, Eq)]
pub struct GrammarDefinition {
    pub grammar: String,
    pub explanations: Vec<String>,
    pub examples: Vec<Example>,
}

/// What is known of a sentence: what it means and how it is built.
#[derive(Debug, PartialEq, Eq)]
pub struct SentenceDefinition {
    pub sentence: String,
    pub translation: String,
    pub explanation: Vec<String>,
}

pub struct ExampleView {
    pub japanese: Seq<char>,
    pub english: Seq<char>,
}

pub struct WordDefinitionView {
    pub word: Seq<char>,
    pub pronunciation: Seq<char>,
    pub definition: Seq<Seq<char>>,
    pub examples: Seq<ExampleView>,
}

pub struct GrammarDefinitionView {
    pub grammar: Seq<char>,
    pub explanations: Seq<Seq<char>>,
    pub examples: Seq<ExampleView>,
}

pub struct SentenceDefinitionView {
    pub sentence: Seq<char>,
    pub translation: Seq<char>,
    pub explanation: Seq<Seq<char>>,
}

/// The characters of each string of `v`, in order.
pub open spec fn texts_view(v: Seq<String>) -> Seq<Seq<char>> {
    Seq::new(v.len(), |i: int| v[i]@)
}

/// The view of each example of `v`, in order.
pub open spec fn examples_view(v: Seq<Example>) -> Seq<ExampleView> {
    Seq::new(v.len(), |i: int| v[i]@)
}

impl View for Example {
    type V = ExampleView;

    open spec fn view(&self) -> ExampleView {
        ExampleView { japanese: self.japanese@, english: self.english@ }
    }
}

impl View for WordDefinition {
    type V = WordDefinitionView;

    open spec fn view(&self) -> WordDefinitionView {
        WordDefinitionView {
            word: self.word@,
            pronunciation: self.pronunciation@,
            definition: texts_view(self.definition@),
            examples: examples_view(self.examples@),
        }
    }
}

impl View for GrammarDefinition {
    type V = GrammarDefinitionView;

    open spec fn view(&self) -> GrammarDefinitionView {
        GrammarDefinitionView {
            grammar: self.grammar@,
            explanations: texts_view(self.explanations@),
            examples: examples_view(self.examples@),
        }
    }
}

impl View for SentenceDefinition {
    type V = SentenceDefinitionView;

    open spec fn view(&self) -> SentenceDefinitionView {
        SentenceDefinitionView {
            sentence: self.sentence@,
            translation: self.translation@,
            explanation: texts_view(self.explanation@),
        }
    }
}

/// The members that the records are read from.
#[derive(Clone, Copy, Debug, PartialEq, Eq, Structural)]
pub enum Field {
    Word,
    Pronunciation,
    Definition,
    Examples,
    Grammar,
    Explanations,
    Japanese,
    English,
    Sentence,
    Translation,
    Explanation,
}

impl Field {
    /// The name under which the member stands in an object.
    pub open spec fn name(self) -> Seq<char> {
        match self {
            Field::Word => "word"@,
            Field::Pronunciation => "pronunciation"@,
            Field::Definition => "definition"@,
            Field::Examples => "examples"@,
            Field::Grammar => "grammar"@,
            Field::Explanations => "explanations"@,
            Field::Japanese => "japanese"@,
            Field::English => "english"@,
            Field::Sentence => "sentence"@,
            Field::Translation => "translation"@,
            Field::Explanation => "explanation"@,
        }
    }

    /// The name under which the member stands in an object.
    pub fn key(self) -> (r: &'static str)
        ensures
            r@ == self.name(),
    {
        match self {
            Field::Word => "word",
            Field::Pronunciation => "pronunciation",
            Field::Definition => "definition",
            Field::Examples => "examples",
            Field::Grammar => "grammar",
            Field::Explanations => "explanations",
            Field::Japanese => "japanese",
            Field::English => "english",
            Field::Sentence => "sentence",
            Field::Translation => "translation",
            Field::Explanation => "explanation",
        }
    }
}

/// Why a JSON value is not the record that was asked for.
#[derive(Clone, Copy, Debug, PartialEq, Eq, Structural)]
pub enum SchemaFault {
    /// The value is no object.
    NotAnObject,
    /// The object has no member of this name.
    Missing(Field),
    /// The member of this name does not hold what the record needs there.
    Invalid(Field),
}

/// The string that `j` holds under `field`.
pub open spec fn text_member(j: JsonModel, field: Field) -> Result<Seq<char>, SchemaFault> {
    match j.member(field.name()) {
        None => Err(SchemaFault::Missing(field)),
        Some(JsonModel::Text(t)) => Ok(t),
        Some(_) => Err(SchemaFault::Invalid(field)),
    }
}

/// Whether every one of `items` is a string.
pub open spec fn all_text(items: Seq<JsonModel>) -> bool {
    forall|i: int| 0 <= i < items.len() ==> (#[trigger] items[i]) is Text
}

/// The characters of each of `items`, which are strings.
pub open spec fn texts_of(items: Seq<JsonModel>) -> Seq<Seq<char>> {
    Seq::new(items.len(), |i: int| items[i]->Text_0)
}

/// The strings that `j` holds, as an array, under `field`.
pub open spec fn text_list_member(j: JsonModel, field: Field) -> Result<
    Seq<Seq<char>>,
    SchemaFault,
> {
    match j.member(field.name()) {
        None => Err(SchemaFault::Missing(field)),
        Some(JsonModel::List(items)) => if all_text(items) {
            Ok(texts_of(items))
        } else {
            Err(SchemaFault::Invalid(field))
        },
        Some(_) => Err(SchemaFault::Invalid(field)),
    }
}

/// The example that `j` denotes: an object with both sentences as strings.
pub open spec fn example_of(j: JsonModel) -> Result<ExampleView, SchemaFault> {
    if !(j is Record) {
        Err(SchemaFault::Invalid(Field::Examples))
    } else {
        match text_member(j, Field::Japanese) {
            Err(fault) => Err(fault),
            Ok(japanese) => match text_member(j, Field::English) {
                Err(fault) => Err(fault),
                Ok(english) => Ok(ExampleView { japanese, english }),
            },
        }
    }
}

/// The fault of the first of `items` that is no example.
pub open spec fn first_example_fault(items: Seq<JsonModel>) -> Option<SchemaFault>
    decreases items.len(),
{
    if items.len() == 0 {
        None
    } else {
        match example_of(items[0]) {
            Err(fault) => Some(fault),
            Ok(_) => first_example_fault(items.skip(1)),
        }
    }
}

/// The examples that `items` denote, or the fault of the first that denotes
/// none.
pub open spec fn examples_of(items: Seq<JsonModel>) -> Result<Seq<ExampleView>, SchemaFault> {
    match first_example_fault(items) {
        Some(fault) => Err(fault),
        None => Ok(Seq::new(items.len(), |i: int| example_of(items[i])->Ok_0)),
    }
}

/// The examples that `j` holds, as an array, under `field`.
pub open spec fn example_list_member(j: JsonModel, field: Field) -> Result<
    Seq<ExampleView>,
    SchemaFault,
> {
    match j.member(field.name()) {
        None => Err(SchemaFault::Missing(field)),
        Some(JsonModel::List(items)) => examples_of(items),
        Some(_) => Err(SchemaFault::Invalid(field)),
    }
}

/// The word definition that `j` denotes: an object that holds every member
/// of the record, each of the type that the record has there. The members
/// are examined in the order of the record, and the first fault is the one
/// reported.
pub open spec fn word_of(j: JsonModel) -> Result<WordDefinitionView, SchemaFault> {
    if !(j is Record) {
        Err(SchemaFault::NotAnObject)
    } else {
        match text_member(j, Field::Word) {
            Err(fault) => Err(fault),
            Ok(word) => match text_member(j, Field::Pronunciation) {
                Err(fault) => Err(fault),
                Ok(pronunciation) => match text_list_member(j, Field::Definition) {
                    Err(fault) => Err(fault),
                    Ok(definition) => match example_list_member(j, Field::Examples) {
                        Err(fault) => Err(fault),
                        Ok(examples) => Ok(
                            WordDefinitionView { word, pronunciation, definition, examples },
                        ),
                    },
                },
            },
        }
    }
}

/// The grammar definition that `j` denotes, by the same rules.
pub open spec fn grammar_of(j: JsonModel) -> Result<GrammarDefinitionView, SchemaFault> {
    if !(j is Record) {
        Err(SchemaFault::NotAnObject)
    } else {
        match text_member(j, Field::Grammar) {
            Err(fault) => Err(fault),
            Ok(grammar) => match text_list_member(j, Field::Explanations) {
                Err(fault) => Err(fault),
                Ok(explanations) => match example_list_member(j, Field::Examples) {
                    Err(fault) => Err(fault),
                    Ok(examples) => Ok(GrammarDefinitionView { grammar, explanations, examples }),
                },
            },
        }
    }
}

/// The sentence definition that `j` denotes, by the same rules.
pub open spec fn sentence_of(j: JsonModel) -> Result<SentenceDefinitionView, SchemaFault> {
    if !(j is Record) {
        Err(SchemaFault::NotAnObject)
    } else {
        match text_member(j, Field::Sentence) {
            Err(fault) => Err(fault),
            Ok(sentence) => match text_member(j, Field::Translation) {
                Err(fault) => Err(fault),
                Ok(translation) => match text_list_member(j, Field::Explanation) {
                    Err(fault) => Err(fault),
                    Ok(explanation) => Ok(
                        SentenceDefinitionView { sentence, translation, explanation },
                    ),
                },
            },
        }
    }
}

/// Whether a word definition is read from `field`.
pub open spec fn in_word(field: Field) -> bool {
    field == Field::Word || field == Field::Pronunciation || field == Field::Definition || field
        == Field::Examples
}

/// Whether a grammar definition is read from `field`.
pub open spec fn in_grammar(field: Field) -> bool {
    field == Field::Grammar || field == Field::Explanations || field == Field::Examples
}

/// Whether a sentence definition is read from `field`.
pub open spec fn in_sentence(field: Field) -> bool {
    field == Field::Sentence || field == Field::Translation || field == Field::Explanation
}

/// An array of strings is read item by item: nothing is added, dropped or
/// reordered.
pub proof fn lemma_text_list_exact(j: JsonModel, field: Field)
    requires
        text_list_member(j, field) is Ok,
    ensures
        j.member(field.name()) matches Some(JsonModel::List(items)) && items.len()
            == text_list_member(j, field)->Ok_0.len() && forall|i: int|
            0 <= i < items.len() ==> #[trigger] items[i] == JsonModel::Text(
                text_list_member(j, field)->Ok_0[i],
            ),
{
}

/// Examples are read item by item: where any item is no example, none is
/// returned; else there is one example for each item, in order.
pub proof fn lemma_examples_exact(items: Seq<JsonModel>)
    ensures
        examples_of(items) is Ok <==> forall|i: int|
            0 <= i < items.len() ==> (#[trigger] example_of(items[i])) is Ok,
        examples_of(items) matches Ok(list) ==> list.len() == items.len() && forall|i: int|
            0 <= i < items.len() ==> #[trigger] example_of(items[i]) == Ok::<
                ExampleView,
                SchemaFault,
            >(list[i]),
    decreases items.len(),
{
    if items.len() > 0 {
        let rest = items.skip(1);
        lemma_examples_exact(rest);
        assert forall|i: int| 1 <= i < items.len() implies items[i] == rest[i - 1] by {}
        if example_of(items[0]) is Ok && first_example_fault(rest) is None {
            assert forall|i: int| 0 <= i < items.len() implies (#[trigger] example_of(
                items[i],
            )) is Ok by {
                if i > 0 {
                    assert(example_of(rest[i - 1]) is Ok);
                }
            }
        } else if example_of(items[0]) is Ok {
            let k = choose|k: int| 0 <= k < rest.len() && !(#[trigger] example_of(rest[k]) is Ok);
            assert(!(example_of(items[k + 1]) is Ok));
        }
    }
}

/// No word definition is read from an object that lacks one of its members.
pub proof fn lemma_word_needs_member(j: JsonModel, field: Field)
    requires
        in_word(field),
        j.member(field.name()) is None,
    ensures
        word_of(j) is Err,
{
}

/// No grammar definition is read from an object that lacks one of its
/// members.
pub proof fn lemma_grammar_needs_member(j: JsonModel, field: Field)
    requires
        in_grammar(field),
        j.member(field.name()) is None,
    ensures
        grammar_of(j) is Err,
{
}

/// No sentence definition is read from an object that lacks one of its
/// members.
pub proof fn lemma_sentence_needs_member(j: JsonModel, field: Field)
    requires
        in_sentence(field),
        j.member(field.name()) is None,
    ensures
        sentence_of(j) is Err,
{
}

/// A word definition holds in each field what the object holds under the
/// field's name, and nothing else.
pub proof fn lemma_word_is_whole(j: JsonModel)
    requires
        word_of(j) is Ok,
    ensures
        j is Record,
        j.member(Field::Word.name()) == Some(JsonModel::Text(word_of(j)->Ok_0.word)),
        j.member(Field::Pronunciation.name()) == Some(
            JsonModel::Text(word_of(j)->Ok_0.pronunciation),
        ),
        text_list_member(j, Field::Definition) == Ok::<Seq<Seq<char>>, SchemaFault>(
            word_of(j)->Ok_0.definition,
        ),
        example_list_member(j, Field::Examples) == Ok::<Seq<ExampleView>, SchemaFault>(
            word_of(j)->Ok_0.examples,
        ),
{
}

/// A grammar definition holds in each field what the object holds under the
/// field's name, and nothing else.
pub proof fn lemma_grammar_is_whole(j: JsonModel)
    requires
        grammar_of(j) is Ok,
    ensures
        j is Record,
        j.member(Field::Grammar.name()) == Some(JsonModel::Text(grammar_of(j)->Ok_0.grammar)),
        text_list_member(j, Field::Explanations) == Ok::<Seq<Seq<char>>, SchemaFault>(
            grammar_of(j)->Ok_0.explanations,
        ),
        example_list_member(j, Field::Examples) == Ok::<Seq<ExampleView>, SchemaFault>(
            grammar_of(j)->Ok_0.examples,
        ),
{
}

/// A sentence definition holds in each field what the object holds under
/// the field's name, and nothing else.
pub proof fn lemma_sentence_is_whole(j: JsonModel)
    requires
        sentence_of(j) is Ok,
    ensures
        j is Record,
        j.member(Field::Sentence.name()) == Some(JsonModel::Text(sentence_of(j)->Ok_0.sentence)),
        j.member(Field::Translation.name()) == Some(
            JsonModel::Text(sentence_of(j)->Ok_0.translation),
        ),
        text_list_member(j, Field::Explanation) == Ok::<Seq<Seq<char>>, SchemaFault>(
            sentence_of(j)->Ok_0.explanation,
        ),
{
}

/// Reads the string under `field`.
pub fn read_text(j: &Json, field: Field) -> (r: Result<String, SchemaFault>)
    ensures
        match r {
            Ok(t) => text_member(j@, field) == Ok::<Seq<char>, SchemaFault>(t@),
            Err(fault) => text_member(j@, field) == Err::<Seq<char>, SchemaFault>(fault),
        },
{
    match j.get(field.key()) {
        None => Err(SchemaFault::Missing(field)),
        Some(value) => match value.as_text() {
            Some(t) => Ok(t.to_owned()),
            None => Err(SchemaFault::Invalid(field)),
        },
    }
}

/// Reads the array of strings under `field`.
pub fn read_text_list(j: &Json, field: Field) -> (r: Result<Vec<String>, SchemaFault>)
    ensures
        match r {
            Ok(list) => text_list_member(j@, field) == Ok::<Seq<Seq<char>>, SchemaFault>(
                texts_view(list@),
            ),
            Err(fault) => text_list_member(j@, field) == Err::<Seq<Seq<char>>, SchemaFault>(fault),
        },
{
    match j.get(field.key()) {
        None => Err(SchemaFault::Missing(field)),
        Some(Json::List(items)) => {
            let ghost models = j@.member(field.name())->Some_0->List_0;
            let mut list: Vec<String> = Vec::new();
            let mut i: usize = 0;
            while i < items.len()
                invariant
                    i <= items.len(),
                    list@.len() == i,
                    j@.member(field.name()) == Some(JsonModel::List(models)),
                    models.len() == items@.len(),
                    forall|k: int| 0 <= k < items@.len() ==> models[k] == (#[trigger] items@[k])@,
                    forall|k: int| 0 <= k < i ==> (#[trigger] models[k]) is Text,
                    forall|k: int| 0 <= k < i ==> (#[trigger] list@[k])@ == models[k]->Text_0,
                decreases items.len() - i,
            {
                match items[i].as_text() {
                    Some(t) => {
                        list.push(t.to_owned());
                    },
                    None => {
                        proof {
                            assert(!(models[i as int] is Text));
                        }
                        return Err(SchemaFault::Invalid(field));
                    },
                }
                i += 1;
            }
            proof {
                assert(texts_view(list@) =~= texts_of(models));
            }
            Ok(list)
        },
        Some(_) => Err(SchemaFault::Invalid(field)),
    }
}

/// Reads one example.
pub fn read_example(j: &Json) -> (r: Result<Example, SchemaFault>)
    ensures
        match r {
            Ok(example) => example_of(j@) == Ok::<ExampleView, SchemaFault>(example@),
            Err(fault) => example_of(j@) == Err::<ExampleView, SchemaFault>(fault),
        },
{
    match j {
        Json::Record(_) => {},
        _ => {
            return Err(SchemaFault::Invalid(Field::Examples));
        },
    }
    let japanese = match read_text(j, Field::Japanese) {
        Ok(t) => t,
        Err(fault) => {
            return Err(fault);
        },
    };
    let english = match read_text(j, Field::English) {
        Ok(t) => t,
        Err(fault) => {
            return Err(fault);
        },
    };
    Ok(Example { japanese, english })
}

/// Reads the array of examples under `field`.
pub fn read_example_list(j: &Json, field: Field) -> (r: Result<Vec<Example>, SchemaFault>)
    ensures
        match r {
            Ok(list) => example_list_member(j@, field) == Ok::<Seq<ExampleView>, SchemaFault>(
                examples_view(list@),
            ),
            Err(fault) => example_list_member(j@, field) == Err::<Seq<ExampleView>, SchemaFault>(
                fault,
            ),
        },
{
    match j.get(field.key()) {
        None => Err(SchemaFault::Missing(field)),
        Some(Json::List(items)) => {
            let ghost models = j@.member(field.name())->Some_0->List_0;
            let mut list: Vec<Example> = Vec::new();
            let mut i: usize = 0;
            proof {
                assert(models.skip(0) =~= models);
            }
            while i < items.len()
                invariant
                    i <= items.len(),
                    list@.len() == i,
                    j@.member(field.name()) == Some(JsonModel::List(models)),
                    models.len() == items@.len(),
                    forall|k: int| 0 <= k < items@.len() ==> models[k] == (#[trigger] items@[k])@,
                    first_example_fault(models) == first_example_fault(models.skip(i as int)),
                    forall|k: int|
                        0 <= k < i ==> example_of(models[k]) == Ok::<ExampleView, SchemaFault>(
                            (#[trigger] list@[k])@,
                        ),
                decreases items.len() - i,
            {
                proof {
                    assert(models.skip(i as int).skip(1) =~= models.skip(i + 1));
                    assert(models.skip(i as int)[0] == models[i as int]);
                }
                match read_example(&items[i]) {
                    Ok(example) => {
                        list.push(example);
                    },
                    Err(fault) => {
                        return Err(fault);
                    },
                }
                i += 1;
            }
            proof {
                assert(examples_view(list@) =~= Seq::new(
                    models.len(),
                    |k: int| example_of(models[k])->Ok_0,
                ));
            }
            Ok(list)
        },
        Some(_) => Err(SchemaFault::Invalid(field)),
    }
}

/// Whether `j` is an object.
fn is_record(j: &Json) -> (r: bool)
    ensures
        r == (j@ is Record),
{
    match j {
        Json::Record(_) => true,
        _ => false,
    }
}

/// Reads a word definition. Either the whole record is there, or the first
/// fault is returned: no member is ever filled in.
pub fn word_from_json(j: &Json) -> (r: Result<WordDefinition, SchemaFault>)
    ensures
        match r {
            Ok(record) => word_of(j@) == Ok::<WordDefinitionView, SchemaFault>(record@),
            Err(fault) => word_of(j@) == Err::<WordDefinitionView, SchemaFault>(fault),
        },
{
    if !is_record(j) {
        return Err(SchemaFault::NotAnObject);
    }
    let word = match read_text(j, Field::Word) {
        Ok(t) => t,
        Err(fault) => {
            return Err(fault);
        },
    };
    let pronunciation = match read_text(j, Field::Pronunciation) {
        Ok(t) => t,
        Err(fault) => {
            return Err(fault);
        },
    };
    let definition = match read_text_list(j, Field::Definition) {
        Ok(list) => list,
        Err(fault) => {
            return Err(fault);
        },
    };
    let examples = match read_example_list(j, Field::Examples) {
        Ok(list) => list,
        Err(fault) => {
            return Err(fault);
        },
    };
    Ok(WordDefinition { word, pronunciation, definition, examples })
}

/// Reads a grammar definition. Either the whole record is there, or the
/// first fault is returned: no member is ever filled in.
pub fn grammar_from_json(j: &Json) -> (r: Result<GrammarDefinition, SchemaFault>)
    ensures
        match r {
            Ok(record) => grammar_of(j@) == Ok::<GrammarDefinitionView, SchemaFault>(record@),
            Err(fault) => grammar_of(j@) == Err::<GrammarDefinitionView, SchemaFault>(fault),
        },
{
    if !is_record(j) {
        return Err(SchemaFault::NotAnObject);
    }
    let grammar = match read_text(j, Field::Grammar) {
        Ok(t) => t,
        Err(fault) => {
            return Err(fault);
        },
    };
    let explanations = match read_text_list(j, Field::Explanations) {
        Ok(list) => list,
        Err(fault) => {
            return Err(fault);
        },
    };
    let examples = match read_example_list(j, Field::Examples) {
        Ok(list) => list,
        Err(fault) => {
            return Err(fault);
        },
    };
    Ok(GrammarDefinition { grammar, explanations, examples })
}

/// Reads a sentence definition. Either the whole record is there, or the
/// first fault is returned: no member is ever filled in.
pub fn sentence_from_json(j: &Json) -> (r: Result<SentenceDefinition, SchemaFault>)
    ensures
        match r {
            Ok(record) => sentence_of(j@) == Ok::<SentenceDefinitionView, SchemaFault>(record@),
            Err(fault) => sentence_of(j@) == Err::<SentenceDefinitionView, SchemaFault>(fault),
        },
{
    if !is_record(j) {
        return Err(SchemaFault::NotAnObject);
    }
    let sentence = match read_text(j, Field::Sentence) {
        Ok(t) => t,
        Err(fault) => {
            return Err(fault);
        },
    };
    let translation = match read_text(j, Field::Translation) {
        Ok(t) => t,
        Err(fault) => {
            return Err(fault);
        },
    };
    let explanation = match read_text_list(j, Field::Explanation) {
        Ok(list) => list,
        Err(fault) => {
            return Err(fault);
        },
    };
    Ok(SentenceDefinition { sentence, translation, explanation })
}

} // verus!
