//! JSON values as the bridge reads and writes them.

use vstd::prelude::*;

verus! {

/// One member of a JSON object: a name and the value that stands under it.
#[derive(Debug, PartialEq, Eq)]
pub struct Member {
    pub name: String,
    pub value: Json,
}

/// A JSON value. A number is kept as the text that denotes it: the bridge
/// never computes with one.
#[derive(Debug, PartialEq, Eq)]
pub enum Json {
    Null,
    Bool(bool),
    Number(String),
    Text(String),
    List(Vec<Json>),
    Record(Vec<Member>),
}

/// The mathematical value that a `Member` stands for.
pub struct MemberModel {
    pub name: Seq<char>,
    pub value: JsonModel,
}

/// The mathematical value that a `Json` stands for.
pub enum JsonModel {
    Null,
    Bool(bool),
    Number(Seq<char>),
    Text(Seq<char>),
    List(Seq<JsonModel>),
    Record(Seq<MemberModel>),
}

impl View for Json {
    type V = JsonModel;

    open spec fn view(&self) -> JsonModel
        decreases self,
    {
        match self {
            Json::Null => JsonModel::Null,
            Json::Bool(b) => JsonModel::Bool(*b),
            Json::Number(n) => JsonModel::Number(n@),
            Json::Text(t) => JsonModel::Text(t@),
            Json::List(items) => JsonModel::List(
                Seq::new(
                    items@.len(),
                    |i: int|
                        if 0 <= i < items@.len() {
                            items@[i]@
                        } else {
                            JsonModel::Null
                        },
                ),
            ),
            Json::Record(members) => JsonModel::Record(
                Seq::new(
                    members@.len(),
                    |i: int|
                        if 0 <= i < members@.len() {
                            MemberModel { name: members@[i].name@, value: members@[i].value@ }
                        } else {
                            MemberModel { name: Seq::empty(), value: JsonModel::Null }
                        },
                ),
            ),
        }
    }
}

impl View for Member {
    type V = MemberModel;

    open spec fn view(&self) -> MemberModel {
        MemberModel { name: self.name@, value: self.value@ }
    }
}

/// The models of the values of `items`, in order.
pub open spec fn list_model(items: Seq<Json>) -> Seq<JsonModel> {
    Seq::new(items.len(), |i: int| items[i]@)
}

/// The models of `members`, in order.
pub open spec fn members_model(members: Seq<Member>) -> Seq<MemberModel> {
    Seq::new(members.len(), |i: int| members[i]@)
}

impl Member {
    /// The member that holds `value` under `name`.
    pub fn new(name: &str, value: Json) -> (r: Member)
        ensures
            r@ == (MemberModel { name: name@, value: value@ }),
    {
        Member { name: name.to_owned(), value }
    }
}

impl Json {
    /// The string that holds the characters of `text`.
    pub fn text(text: &str) -> (r: Json)
        ensures
            r@ == JsonModel::Text(text@),
    {
        Json::Text(text.to_owned())
    }

    /// The array that holds `items` in their order.
    pub fn list(items: Vec<Json>) -> (r: Json)
        ensures
            r@ == JsonModel::List(list_model(items@)),
    {
        let r = Json::List(items);
        proof {
            assert(r@->List_0 =~= list_model(items@));
        }
        r
    }

    /// The object that holds `members` in their order.
    pub fn record(members: Vec<Member>) -> (r: Json)
        ensures
            r@ == JsonModel::Record(members_model(members@)),
    {
        let r = Json::Record(members);
        proof {
            assert(r@->Record_0 =~= members_model(members@));
        }
        r
    }

    /// The array whose one item is `item`.
    pub fn list_of(item: Json) -> (r: Json)
        ensures
            r@ == JsonModel::List(seq![item@]),
    {
        let mut items: Vec<Json> = Vec::new();
        items.push(item);
        proof {
            assert(list_model(items@) =~= seq![item@]);
        }
        Json::list(items)
    }

    /// The object whose one member holds `value` under `name`.
    pub fn record_of(name: &str, value: Json) -> (r: Json)
        ensures
            r@ == JsonModel::Record(seq![MemberModel { name: name@, value: value@ }]),
    {
        let mut members: Vec<Member> = Vec::new();
        members.push(Member::new(name, value));
        proof {
            assert(members_model(members@) =~= seq![MemberModel { name: name@, value: value@ }]);
        }
        Json::record(members)
    }
}

/// The value of the first of `members` that is called `name`.
pub open spec fn first_named(members: Seq<MemberModel>, name: Seq<char>) -> Option<JsonModel>
    decreases members.len(),
{
    if members.len() == 0 {
        None
    } else if members[0].name == name {
        Some(members[0].value)
    } else {
        first_named(members.skip(1), name)
    }
}

impl JsonModel {
    /// The value under `name`, where this is an object that has such a
    /// member.
    pub open spec fn member(self, name: Seq<char>) -> Option<JsonModel> {
        match self {
            JsonModel::Record(members) => first_named(members, name),
            _ => None,
        }
    }

    /// The item at `index`, where this is an array that is long enough.
    pub open spec fn item(self, index: int) -> Option<JsonModel> {
        match self {
            JsonModel::List(items) => if 0 <= index < items.len() {
                Some(items[index])
            } else {
                None
            },
            _ => None,
        }
    }

    /// The characters of this value, where it is a string.
    pub open spec fn text(self) -> Option<Seq<char>> {
        match self {
            JsonModel::Text(t) => Some(t),
            _ => None,
        }
    }
}

/// The model of an optional reference to a value.
pub open spec fn model_of(j: Option<&Json>) -> Option<JsonModel> {
    match j {
        Some(j) => Some(j@),
        None => None,
    }
}

impl Json {
    /// Looks up the member called `name`. Where several members carry the
    /// name, the first one counts.
    pub fn get(&self, name: &str) -> (r: Option<&Json>)
        ensures
            model_of(r) == self@.member(name@),
    {
        match self {
            Json::Record(members) => {
                let ghost all = self@->Record_0;
                let wanted = name.to_owned();
                let mut i: usize = 0;
                proof {
                    assert(all.skip(0) =~= all);
                }
                while i < members.len()
                    invariant
                        i <= members.len(),
                        wanted@ == name@,
                        self@ == JsonModel::Record(all),
                        all.len() == members@.len(),
                        forall|k: int|
                            0 <= k < members@.len() ==> all[k].name == (#[trigger] members@[k]).name@
                                && all[k].value == members@[k].value@,
                        first_named(all, name@) == first_named(all.skip(i as int), name@),
                    decreases members.len() - i,
                {
                    if members[i].name == wanted {
                        return Some(&members[i].value);
                    }
                    proof {
                        assert(all.skip(i as int).skip(1) =~= all.skip(i + 1));
                    }
                    i += 1;
                }
                None
            },
            _ => None,
        }
    }

    /// Looks up the item at `index`.
    pub fn at(&self, index: usize) -> (r: Option<&Json>)
        ensures
            model_of(r) == self@.item(index as int),
    {
        match self {
            Json::List(items) => if index < items.len() {
                Some(&items[index])
            } else {
                None
            },
            _ => None,
        }
    }

    /// The characters of this value, where it is a string.
    pub fn as_text(&self) -> (r: Option<&str>)
        ensures
            match r {
                Some(t) => self@.text() == Some(t@),
                None => self@.text() is None,
            },
    {
        match self {
            Json::Text(t) => Some(t.as_str()),
            _ => None,
        }
    }
}

/// `serde_json::Value`, which is carried from the parser to the conversion
/// and never looked into.
#[verifier::external_type_specification]
#[verifier::external_body]
pub struct ExValue(serde_json::Value);

/// What a value of `serde_json` holds.
pub uninterp spec fn value_model(value: serde_json::Value) -> JsonModel;

/// What `serde_json` makes of a text: the value that the text denotes, or
/// the diagnostic with which the text is turned down. Where an object of the
/// text repeats a name, the value holds one member of that name, with the
/// last of its values.
pub uninterp spec fn json_of_text(text: Seq<char>) -> Result<JsonModel, Seq<char>>;

/// What `serde_json` makes of a run of bytes: the value that they denote, or
/// the diagnostic with which they are turned down. A repeated name is
/// treated as in a text.
pub uninterp spec fn json_of_bytes(bytes: Seq<u8>) -> Result<JsonModel, Seq<char>>;

/// `serde_json::from_str` at the type `serde_json::Value`. The outcome
/// depends on the text alone; a failure is handed on as the error's
/// rendering.
#[verifier::external_body]
fn value_from_text(text: &str) -> (r: Result<serde_json::Value, String>)
    ensures
        match r {
            Ok(value) => json_of_text(text@) == Ok::<JsonModel, Seq<char>>(value_model(value)),
            Err(diagnostic) => json_of_text(text@) == Err::<JsonModel, Seq<char>>(diagnostic@),
        },
{
    serde_json::from_str::<serde_json::Value>(text).map_err(|e| e.to_string())
}

/// `serde_json::from_slice` at the type `serde_json::Value`. The outcome
/// depends on the bytes alone; a failure is handed on as the error's
/// rendering.
#[verifier::external_body]
fn value_from_bytes(bytes: &[u8]) -> (r: Result<serde_json::Value, String>)
    ensures
        match r {
            Ok(value) => json_of_bytes(bytes@) == Ok::<JsonModel, Seq<char>>(value_model(value)),
            Err(diagnostic) => json_of_bytes(bytes@) == Err::<JsonModel, Seq<char>>(diagnostic@),
        },
{
    serde_json::from_slice::<serde_json::Value>(bytes).map_err(|e| e.to_string())
}

/// Takes a `serde_json::Value` apart, variant by variant, and puts the same
/// value together as a `Json`. A number is rendered as `serde_json` prints
/// it; the members of an object come in the order in which its map hands
/// them out.
#[verifier::external_body]
fn json_from_value(value: serde_json::Value) -> (j: Json)
    ensures
        j@ == value_model(value),
{
    match value {
        serde_json::Value::Null => Json::Null,
        serde_json::Value::Bool(b) => Json::Bool(b),
        serde_json::Value::Number(n) => Json::Number(n.to_string()),
        serde_json::Value::String(s) => Json::Text(s),
        serde_json::Value::Array(items) => Json::List(
            items.into_iter().map(json_from_value).collect(),
        ),
        serde_json::Value::Object(members) => Json::Record(
            members.into_iter().map(|(name, v)| Member { name, value: json_from_value(v) }).collect(),
        ),
    }
}

/// The model of what a parse has returned.
pub open spec fn parsed_model(r: Result<Json, String>) -> Result<JsonModel, Seq<char>> {
    match r {
        Ok(j) => Ok(j@),
        Err(diagnostic) => Err(diagnostic@),
    }
}

/// Reads a text as JSON. The parser keeps one member for each name of an
/// object: where the text repeats a name, the last of its values counts, and
/// nothing in the result tells that there was a repeat.
pub fn parse_text(text: &str) -> (r: Result<Json, String>)
    ensures
        parsed_model(r) == json_of_text(text@),
{
    match value_from_text(text) {
        Ok(value) => Ok(json_from_value(value)),
        Err(diagnostic) => Err(diagnostic),
    }
}

/// Reads a run of bytes as JSON. As in a text, the last value of a repeated
/// name counts.
pub fn parse_bytes(bytes: &[u8]) -> (r: Result<Json, String>)
    ensures
        parsed_model(r) == json_of_bytes(bytes@),
{
    match value_from_bytes(bytes) {
        Ok(value) => Ok(json_from_value(value)),
        Err(diagnostic) => Err(diagnostic),
    }
}

} // verus!
