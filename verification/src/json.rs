//! A JSON document as plain data, with its mathematical model.
use vstd::prelude::*;
use vstd::string::StringExecFns;

verus! {

broadcast use vstd::std_specs::vec::axiom_vec_index_decreases;

/// A JSON number: a non-negative integer, a negative integer, or the decimal
/// text of a number that is neither.
#[derive(Debug, PartialEq, Eq)]
pub enum JsonNumber {
    PosInt(u64),
    NegInt(i64),
    Real(String),
}

/// A JSON document. An object is a list of members; in a well-formed
/// document no key occurs twice in it (see [`JsonModel::wf`]). Two documents
/// are equal where they hold the same values with the members of each
/// object in the same order.
#[derive(Debug, PartialEq, Eq)]
pub enum Json {
    Null,
    Bool(bool),
    Number(JsonNumber),
    Str(String),
    Array(Vec<Json>),
    Object(Vec<(String, Json)>),
}

/// The model of a [`JsonNumber`].
pub enum NumberModel {
    PosInt(u64),
    NegInt(i64),
    Real(Seq<char>),
}

/// The model of a [`Json`] document.
pub enum JsonModel {
    Null,
    Bool(bool),
    Number(NumberModel),
    Str(Seq<char>),
    Array(Seq<JsonModel>),
    Object(Seq<(Seq<char>, JsonModel)>),
}

impl View for JsonNumber {
    type V = NumberModel;

    open spec fn view(&self) -> NumberModel {
        match self {
            JsonNumber::PosInt(n) => NumberModel::PosInt(*n),
            JsonNumber::NegInt(n) => NumberModel::NegInt(*n),
            JsonNumber::Real(text) => NumberModel::Real(text@),
        }
    }
}

impl Json {
    /// The document as a mathematical value.
    pub open spec fn model(self) -> JsonModel
        decreases self,
    {
        match self {
            Json::Null => JsonModel::Null,
            Json::Bool(b) => JsonModel::Bool(b),
            Json::Number(n) => JsonModel::Number(n@),
            Json::Str(s) => JsonModel::Str(s@),
            Json::Array(items) => JsonModel::Array(
                Seq::new(
                    items.len() as nat,
                    |i: int|
                        if 0 <= i < items.len() {
                            items[i].model()
                        } else {
                            JsonModel::Null
                        },
                ),
            ),
            Json::Object(members) => JsonModel::Object(
                Seq::new(
                    members.len() as nat,
                    |i: int|
                        if 0 <= i < members.len() {
                            (members[i].0@, members[i].1.model())
                        } else {
                            (Seq::empty(), JsonModel::Null)
                        },
                ),
            ),
        }
    }
}

impl View for Json {
    type V = JsonModel;

    open spec fn view(&self) -> JsonModel {
        self.model()
    }
}

/// The value that the first member with the key `key` holds, if there is
/// such a member.
pub open spec fn lookup(members: Seq<(Seq<char>, JsonModel)>, key: Seq<char>) -> Option<JsonModel>
    decreases members.len(),
{
    if members.len() == 0 {
        None
    } else if members[0].0 == key {
        Some(members[0].1)
    } else {
        lookup(members.drop_first(), key)
    }
}

/// No key occurs twice among the members.
pub open spec fn distinct_keys(members: Seq<(Seq<char>, JsonModel)>) -> bool {
    forall|i: int, j: int|
        0 <= i < j < members.len() ==> (#[trigger] members[i]).0 != (#[trigger] members[j]).0
}

impl JsonModel {
    /// In every object of the document no key occurs twice.
    pub open spec fn wf(self) -> bool
        decreases self,
    {
        match self {
            JsonModel::Array(items) => forall|i: int|
                0 <= i < items.len() ==> (#[trigger] items[i]).wf(),
            JsonModel::Object(members) => {
                &&& distinct_keys(members)
                &&& forall|i: int| 0 <= i < members.len() ==> (#[trigger] members[i]).1.wf()
            },
            _ => true,
        }
    }

    /// The member of an object under a key; nothing for any other document.
    pub open spec fn get(self, key: Seq<char>) -> Option<JsonModel> {
        match self {
            JsonModel::Object(members) => lookup(members, key),
            _ => None,
        }
    }

    /// The non-negative integer `n` as a document.
    pub open spec fn number(n: u64) -> JsonModel {
        JsonModel::Number(NumberModel::PosInt(n))
    }

    /// The integer `n` as a document where it is present, `null` where it
    /// is not.
    pub open spec fn optional_number(n: Option<u64>) -> JsonModel {
        match n {
            Some(v) => JsonModel::number(v),
            None => JsonModel::Null,
        }
    }

    /// The list without items.
    pub open spec fn empty_list() -> JsonModel {
        JsonModel::Array(Seq::empty())
    }
}

/// The models of the members of an object.
pub open spec fn members_model(members: Seq<(String, Json)>) -> Seq<(Seq<char>, JsonModel)> {
    Seq::new(members.len(), |i: int| (members[i].0@, members[i].1@))
}

/// The model of an object is made of the models of its members.
pub proof fn lemma_object_model(members: Vec<(String, Json)>)
    ensures
        Json::Object(members)@ == JsonModel::Object(members_model(members@)),
{
    let whole = Json::Object(members);
    let built = whole@->Object_0;
    assert(built.len() == members.len() as nat);
    assert forall|i: int| 0 <= i < built.len() implies built[i] == members_model(members@)[i] by {
        assert(members[i] == members@[i]);
    }
    assert(built =~= members_model(members@));
}

impl Json {
    /// The non-negative integer `n` as a document.
    pub fn from_u64(n: u64) -> (r: Json)
        ensures
            r@ == JsonModel::number(n),
    {
        Json::Number(JsonNumber::PosInt(n))
    }

    /// The integer `n` as a document where it is present, `null` where it
    /// is not.
    pub fn from_optional_u64(n: Option<u64>) -> (r: Json)
        ensures
            r@ == JsonModel::optional_number(n),
    {
        match n {
            Some(v) => Json::Number(JsonNumber::PosInt(v)),
            None => Json::Null,
        }
    }

    /// The text `s` as a document.
    pub fn from_text(s: &str) -> (r: Json)
        ensures
            r@ == JsonModel::Str(s@),
    {
        Json::Str(String::from_str(s))
    }

    /// The list without items.
    pub fn empty_list() -> (r: Json)
        ensures
            r@ == JsonModel::empty_list(),
    {
        let items: Vec<Json> = Vec::new();
        let r = Json::Array(items);
        assert(r@->Array_0 =~= Seq::<JsonModel>::empty());
        r
    }

    /// The object with the given members.
    pub fn object(members: Vec<(String, Json)>) -> (r: Json)
        ensures
            r@ == JsonModel::Object(members_model(members@)),
    {
        proof {
            lemma_object_model(members);
        }
        Json::Object(members)
    }

    /// The member of an object under `key`; nothing where there is no such
    /// member or the document is no object.
    pub fn get(&self, key: &str) -> (r: Option<&Json>)
        ensures
            match r {
                Some(v) => self@.get(key@) == Some(v@),
                None => self@.get(key@) is None,
            },
    {
        match self {
            Json::Object(members) => {
                proof {
                    lemma_object_model(*members);
                }
                let wanted = String::from_str(key);
                let mut i: usize = 0;
                assert(members_model(members@).subrange(0, members.len() as int)
                    =~= members_model(members@));
                while i < members.len()
                    invariant
                        i <= members.len(),
                        wanted@ == key@,
                        self@ == JsonModel::Object(members_model(members@)),
                        lookup(members_model(members@), key@) == lookup(
                            members_model(members@).subrange(i as int, members.len() as int),
                            key@,
                        ),
                    decreases members.len() - i,
                {
                    let ghost rest = members_model(members@).subrange(
                        i as int,
                        members.len() as int,
                    );
                    assert(rest[0] == members_model(members@)[i as int]);
                    if members[i].0 == wanted {
                        return Some(&members[i].1);
                    }
                    assert(rest.drop_first() =~= members_model(members@).subrange(
                        i + 1,
                        members.len() as int,
                    ));
                    i = i + 1;
                }
                None
            },
            _ => None,
        }
    }

    /// The truth value that the document is, if it is one.
    pub fn as_bool(&self) -> (r: Option<bool>)
        ensures
            r == match self@ {
                JsonModel::Bool(b) => Some(b),
                _ => None,
            },
    {
        match self {
            Json::Bool(b) => Some(*b),
            _ => None,
        }
    }

    /// The text that the document is, if it is one.
    pub fn as_str(&self) -> (r: Option<&str>)
        ensures
            match self@ {
                JsonModel::Str(s) => r matches Some(t) && t@ == s,
                _ => r is None,
            },
    {
        match self {
            Json::Str(s) => Some(s.as_str()),
            _ => None,
        }
    }
}

/// `serde_json::Value`, a parsed document as the parser holds it.
#[verifier::external_type_specification]
#[verifier::external_body]
pub struct ExValue(serde_json::Value);

/// `serde_json::Number`, a parsed number as the parser holds it.
#[verifier::external_type_specification]
#[verifier::external_body]
pub struct ExNumber(serde_json::Number);

/// The document that a text is read as, where it is a JSON document.
pub uninterp spec fn json_document(text: Seq<char>) -> Option<JsonModel>;

/// The document that a parsed value holds.
pub uninterp spec fn value_document(value: serde_json::Value) -> JsonModel;

/// The number that a parsed number holds.
pub uninterp spec fn number_value(number: serde_json::Number) -> NumberModel;

/// Calls `serde_json::from_str` for a `serde_json::Value`. The parser
/// succeeds on the texts that are JSON documents; what it reads from such
/// a text is known here only by its name, [`json_document`].
#[verifier::external_body]
pub(crate) fn parse_value(text: &str) -> (r: Option<serde_json::Value>)
    ensures
        match r {
            Some(value) => json_document(text@) == Some(value_document(value)),
            None => json_document(text@) is None,
        },
{
    match serde_json::from_str::<serde_json::Value>(text) {
        Ok(value) => Some(value),
        Err(_) => None,
    }
}

/// Tells the variants of `serde_json::Number` apart with its `as_u64` and
/// `as_i64`: an integer is taken as it is, any other number as the decimal
/// text that its `to_string` gives.
#[verifier::external_body]
pub(crate) fn from_number(number: &serde_json::Number) -> (r: JsonNumber)
    ensures
        r@ == number_value(*number),
{
    match (number.as_u64(), number.as_i64()) {
        (Some(n), _) => JsonNumber::PosInt(n),
        (None, Some(n)) => JsonNumber::NegInt(n),
        (None, None) => JsonNumber::Real(number.to_string()),
    }
}

/// The nesting depth of a parsed value.
pub uninterp spec fn value_depth(value: serde_json::Value) -> nat;

/// The top level of a parsed value: a scalar as it is, an array or an
/// object as the list of its children, which stay where they are.
pub enum Level<'a> {
    Null,
    Bool(bool),
    Number(&'a serde_json::Number),
    Str(String),
    Array(Vec<&'a serde_json::Value>),
    Object(Vec<(String, &'a serde_json::Value)>),
}

impl<'a> Level<'a> {
    /// The document that the level stands for, given what its children
    /// hold.
    pub open spec fn document(self) -> JsonModel {
        match self {
            Level::Null => JsonModel::Null,
            Level::Bool(b) => JsonModel::Bool(b),
            Level::Number(n) => JsonModel::Number(number_value(*n)),
            Level::Str(s) => JsonModel::Str(s@),
            Level::Array(children) => JsonModel::Array(
                Seq::new(children@.len(), |i: int| value_document(*children@[i])),
            ),
            Level::Object(children) => JsonModel::Object(
                Seq::new(children@.len(), |i: int| (children@[i].0@, value_document(*children@[i].1))),
            ),
        }
    }

    /// Every child is nested less deeply than `depth`.
    pub open spec fn below(self, depth: nat) -> bool {
        match self {
            Level::Array(children) => forall|i: int|
                0 <= i < children@.len() ==> #[trigger] value_depth(*children@[i]) < depth,
            Level::Object(children) => forall|i: int|
                0 <= i < children@.len() ==> #[trigger] value_depth(*children@[i].1) < depth,
            _ => true,
        }
    }

    /// No key occurs twice among the members of an object.
    pub open spec fn keys_differ(self) -> bool {
        match self {
            Level::Object(children) => forall|i: int, j: int|
                0 <= i < j < children@.len() ==> (#[trigger] children@[i]).0@ != (
                #[trigger] children@[j]).0@,
            _ => true,
        }
    }
}

/// Tells the variants of `serde_json::Value` apart and hands out what each
/// holds: a scalar as it is, the items of an array in their order, the
/// members of an object in the order in which its map hands them out. A
/// `serde_json::Map` holds each key once, and what a value holds is nested
/// less deeply than the value.
#[verifier::external_body]
pub(crate) fn open_value<'a>(value: &'a serde_json::Value) -> (level: Level<'a>)
    ensures
        level.document() == value_document(*value),
        level.below(value_depth(*value)),
        level.keys_differ(),
{
    match value {
        serde_json::Value::Null => Level::Null,
        serde_json::Value::Bool(b) => Level::Bool(*b),
        serde_json::Value::Number(n) => Level::Number(n),
        serde_json::Value::String(s) => Level::Str(s.clone()),
        serde_json::Value::Array(items) => Level::Array(items.iter().collect()),
        serde_json::Value::Object(members) => Level::Object(
            members.iter().map(|(k, v)| (k.clone(), v)).collect(),
        ),
    }
}

/// The model of an array is made of the models of its items.
pub proof fn lemma_array_model(items: Vec<Json>)
    ensures
        Json::Array(items)@ == JsonModel::Array(Seq::new(items@.len(), |i: int| items@[i]@)),
{
    let whole = Json::Array(items);
    let built = whole@->Array_0;
    let expected = Seq::new(items@.len(), |i: int| items@[i]@);
    assert(built.len() == items.len() as nat);
    assert forall|i: int| 0 <= i < built.len() implies built[i] == expected[i] by {
        assert(items[i] == items@[i]);
    }
    assert(built =~= expected);
}

/// Copies a parsed value into a document of its own, level by level.
pub(crate) fn from_value(value: &serde_json::Value) -> (r: Json)
    ensures
        r@ == value_document(*value),
        r@.wf(),
    decreases value_depth(*value),
{
    match open_value(value) {
        Level::Null => Json::Null,
        Level::Bool(b) => Json::Bool(b),
        Level::Number(n) => Json::Number(from_number(n)),
        Level::Str(s) => Json::Str(s),
        Level::Array(children) => {
            let mut items: Vec<Json> = Vec::new();
            let mut i: usize = 0;
            while i < children.len()
                invariant
                    i <= children.len(),
                    items@.len() == i,
                    forall|j: int|
                        0 <= j < children@.len() ==> #[trigger] value_depth(*children@[j])
                            < value_depth(*value),
                    forall|j: int|
                        0 <= j < i ==> (#[trigger] items@[j])@ == value_document(*children@[j])
                            && items@[j]@.wf(),
                decreases children.len() - i,
            {
                assert(value_depth(*children@[i as int]) < value_depth(*value));
                let child = from_value(children[i]);
                items.push(child);
                i = i + 1;
            }
            proof {
                lemma_array_model(items);
                let models = Seq::new(items@.len(), |j: int| items@[j]@);
                assert(models =~= Seq::new(
                    children@.len(),
                    |j: int| value_document(*children@[j]),
                ));
                assert forall|j: int| 0 <= j < models.len() implies (#[trigger] models[j]).wf() by {
                    assert(items@[j]@.wf());
                }
            }
            Json::Array(items)
        },
        Level::Object(children) => {
            let mut members: Vec<(String, Json)> = Vec::new();
            let mut i: usize = 0;
            while i < children.len()
                invariant
                    i <= children.len(),
                    members@.len() == i,
                    forall|j: int|
                        0 <= j < children@.len() ==> #[trigger] value_depth(*children@[j].1)
                            < value_depth(*value),
                    forall|j: int|
                        0 <= j < i ==> (#[trigger] members@[j]).0@ == children@[j].0@
                            && members@[j].1@ == value_document(*children@[j].1)
                            && members@[j].1@.wf(),
                decreases children.len() - i,
            {
                assert(value_depth(*children@[i as int].1) < value_depth(*value));
                let child = from_value(children[i].1);
                members.push((children[i].0.clone(), child));
                i = i + 1;
            }
            proof {
                lemma_object_model(members);
                let models = members_model(members@);
                assert(models =~= Seq::new(
                    children@.len(),
                    |j: int| (children@[j].0@, value_document(*children@[j].1)),
                ));
                assert(distinct_keys(models)) by {
                    assert forall|a: int, b: int| 0 <= a < b < models.len() implies (
                    #[trigger] models[a]).0 != (#[trigger] models[b]).0 by {
                        assert(children@[a].0@ != children@[b].0@);
                    }
                }
                assert forall|j: int| 0 <= j < models.len() implies (#[trigger] models[j]).1.wf() by {
                    assert(members@[j].1@.wf());
                }
            }
            Json::Object(members)
        },
    }
}

/// Reads a text as a JSON document: the document where the text is one,
/// nothing where it is not.
pub fn parse_document(text: &str) -> (r: Option<Json>)
    ensures
        match r {
            Some(doc) => json_document(text@) == Some(doc@) && doc@.wf(),
            None => json_document(text@) is None,
        },
{
    match parse_value(text) {
        Some(value) => Some(from_value(&value)),
        None => None,
    }
}

impl Clone for JsonNumber {
    /// A number that holds the same value.
    fn clone(&self) -> (r: JsonNumber)
        ensures
            r@ == self@,
    {
        match self {
            JsonNumber::PosInt(n) => JsonNumber::PosInt(*n),
            JsonNumber::NegInt(n) => JsonNumber::NegInt(*n),
            JsonNumber::Real(text) => JsonNumber::Real(text.clone()),
        }
    }
}

impl Clone for Json {
    /// A document that holds the same value.
    fn clone(&self) -> (r: Json)
        ensures
            r@ == self@,
        decreases self,
    {
        match self {
            Json::Null => Json::Null,
            Json::Bool(b) => Json::Bool(*b),
            Json::Number(n) => Json::Number(n.clone()),
            Json::Str(s) => Json::Str(s.clone()),
            Json::Array(items) => {
                let mut copies: Vec<Json> = Vec::new();
                let mut i: usize = 0;
                while i < items.len()
                    invariant
                        i <= items.len(),
                        copies@.len() == i,
                        forall|j: int| 0 <= j < i ==> (#[trigger] copies@[j])@ == items@[j]@,
                        forall|j: int| 0 <= j < items@.len() ==> decreases_to!(self => items@[j]),
                    decreases items.len() - i,
                {
                    copies.push(items[i].clone());
                    i = i + 1;
                }
                proof {
                    lemma_array_model(copies);
                    lemma_array_model(*items);
                    assert(Seq::new(copies@.len(), |j: int| copies@[j]@) =~= Seq::new(
                        items@.len(),
                        |j: int| items@[j]@,
                    ));
                }
                Json::Array(copies)
            },
            Json::Object(members) => {
                let mut copies: Vec<(String, Json)> = Vec::new();
                let mut i: usize = 0;
                while i < members.len()
                    invariant
                        i <= members.len(),
                        copies@.len() == i,
                        forall|j: int|
                            0 <= j < i ==> (#[trigger] copies@[j]).0@ == members@[j].0@
                                && copies@[j].1@ == members@[j].1@,
                        forall|j: int|
                            0 <= j < members@.len() ==> decreases_to!(self => members@[j].1),
                    decreases members.len() - i,
                {
                    copies.push((members[i].0.clone(), members[i].1.clone()));
                    i = i + 1;
                }
                proof {
                    lemma_object_model(copies);
                    lemma_object_model(*members);
                    assert(members_model(copies@) =~= members_model(members@));
                }
                Json::Object(copies)
            },
        }
    }
}

/// Adds a member at the end of a list of members.
pub fn push_member(members: &mut Vec<(String, Json)>, key: &str, value: Json)
    ensures
        members_model(final(members)@) == members_model(old(members)@).push((key@, value@)),
{
    members.push((String::from_str(key), value));
    assert(members_model(members@) =~= members_model(old(members)@).push((key@, value@)));
}

} // verus!
