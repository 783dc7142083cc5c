//! JSON documents as plain values, and the property readers that Activity
//! handling is written with.

use vstd::prelude::*;

use crate::text::same_text;

verus! {

/// A JSON value.
#[derive(Debug, PartialEq, Eq)]
pub enum Json {
    Null,
    Bool(bool),
    /// An integer that an `i64` holds.
    Int(i64),
    /// Any other number, by its notation.
    Decimal(String),
    Str(String),
    Array(Vec<Json>),
    Object(JsonObject),
}

/// A JSON object: keys and values in the order they were set. A key that is
/// set again shadows its earlier value.
#[derive(Debug, PartialEq, Eq)]
pub struct JsonObject {
    pub entries: Vec<(String, Json)>,
}

/// What a JSON value stands for.
pub enum JsonModel {
    Null,
    Bool(bool),
    Int(int),
    Decimal(Seq<char>),
    Str(Seq<char>),
    Array(Seq<JsonModel>),
    Object(Map<Seq<char>, JsonModel>),
}

/// The mapping that a row of entries stands for.
pub open spec fn entries_model(entries: Seq<(String, Json)>) -> Map<Seq<char>, JsonModel>
    decreases entries,
{
    if entries.len() == 0 {
        Map::empty()
    } else {
        entries_model(entries.drop_last()).insert(
            entries.last().0@,
            json_model(entries.last().1),
        )
    }
}

/// What a JSON value stands for.
pub open spec fn json_model(value: Json) -> JsonModel
    decreases value,
{
    match value {
        Json::Null => JsonModel::Null,
        Json::Bool(b) => JsonModel::Bool(b),
        Json::Int(n) => JsonModel::Int(n as int),
        Json::Decimal(s) => JsonModel::Decimal(s@),
        Json::Str(s) => JsonModel::Str(s@),
        Json::Array(items) => JsonModel::Array(items_model(items@)),
        Json::Object(object) => JsonModel::Object(entries_model(object.entries@)),
    }
}

/// What a row of JSON values stands for.
pub open spec fn items_model(items: Seq<Json>) -> Seq<JsonModel>
    decreases items,
{
    if items.len() == 0 {
        Seq::empty()
    } else {
        items_model(items.drop_last()).push(json_model(items.last()))
    }
}

impl View for Json {
    type V = JsonModel;

    open spec fn view(&self) -> JsonModel {
        json_model(*self)
    }
}

impl View for JsonObject {
    type V = Map<Seq<char>, JsonModel>;

    open spec fn view(&self) -> Map<Seq<char>, JsonModel> {
        entries_model(self.entries@)
    }
}

pub proof fn lemma_items_model(items: Seq<Json>)
    ensures
        items_model(items).len() == items.len(),
        forall|i: int|
            0 <= i < items.len() ==> #[trigger] items_model(items)[i] == json_model(items[i]),
    decreases items.len(),
{
    if items.len() > 0 {
        lemma_items_model(items.drop_last());
        assert forall|i: int| 0 <= i < items.len() implies #[trigger] items_model(items)[i]
            == json_model(items[i]) by {
            if i < items.len() - 1 {
                assert(items.drop_last()[i] == items[i]);
            }
        }
    }
}

/// The value of a property, if the object has it.
pub open spec fn prop(object: Map<Seq<char>, JsonModel>, key: Seq<char>) -> Option<JsonModel> {
    if object.dom().contains(key) {
        Some(object[key])
    } else {
        None
    }
}

/// The text of a property that holds a string.
pub open spec fn text_prop(object: Map<Seq<char>, JsonModel>, key: Seq<char>) -> Option<
    Seq<char>,
> {
    match prop(object, key) {
        Some(JsonModel::Str(s)) => Some(s),
        _ => None,
    }
}

/// The value of a property that holds a boolean; `false` for any other.
pub open spec fn flag_prop(object: Map<Seq<char>, JsonModel>, key: Seq<char>) -> bool {
    match prop(object, key) {
        Some(JsonModel::Bool(b)) => b,
        _ => false,
    }
}

/// The text of a property that holds a string; empty for any other.
pub open spec fn text_or_empty(object: Map<Seq<char>, JsonModel>, key: Seq<char>) -> Seq<char> {
    match text_prop(object, key) {
        Some(s) => s,
        None => Seq::empty(),
    }
}

/// The texts among a row of values, in order.
pub open spec fn texts_of(items: Seq<JsonModel>) -> Seq<Seq<char>>
    decreases items.len(),
{
    if items.len() == 0 {
        Seq::empty()
    } else {
        match items.last() {
            JsonModel::Str(s) => texts_of(items.drop_last()).push(s),
            _ => texts_of(items.drop_last()),
        }
    }
}

/// The texts that a property lists: those of an array, or the one string.
pub open spec fn texts_prop(object: Map<Seq<char>, JsonModel>, key: Seq<char>) -> Seq<Seq<char>> {
    match prop(object, key) {
        Some(JsonModel::Str(s)) => seq![s],
        Some(JsonModel::Array(items)) => texts_of(items),
        _ => Seq::empty(),
    }
}

/// What a property refers to: the string itself, or the `id` of an embedded
/// object.
pub open spec fn reference_prop(object: Map<Seq<char>, JsonModel>, key: Seq<char>) -> Option<
    Seq<char>,
> {
    match prop(object, key) {
        Some(JsonModel::Str(s)) => Some(s),
        Some(JsonModel::Object(inner)) => text_prop(inner, "id"@),
        _ => None,
    }
}

/// The texts that a row of strings holds.
pub open spec fn string_views(items: Seq<String>) -> Seq<Seq<char>> {
    items.map_values(|s: String| s@)
}

impl JsonObject {
    /// An object without properties.
    pub fn new() -> (r: JsonObject)
        ensures
            r@ == Map::<Seq<char>, JsonModel>::empty(),
    {
        JsonObject { entries: Vec::new() }
    }

    /// Sets a property.
    pub fn insert(&mut self, key: &str, value: Json)
        ensures
            final(self)@ == old(self)@.insert(key@, value@),
    {
        let ghost before = self.entries@;
        self.entries.push((key.to_owned(), value));
        proof {
            assert(self.entries@.drop_last() =~= before);
        }
    }

    /// Sets a property to a string.
    pub fn insert_text(&mut self, key: &str, value: &str)
        ensures
            final(self)@ == old(self)@.insert(key@, JsonModel::Str(value@)),
    {
        self.insert(key, Json::Str(value.to_owned()));
    }

    /// The place of the entry that holds the value of a property.
    pub fn find(&self, key: &str) -> (r: Option<usize>)
        ensures
            match r {
                Some(i) => i < self.entries.len() && prop(self@, key@) == Some(
                    json_model(self.entries@[i as int].1),
                ),
                None => prop(self@, key@) is None,
            },
    {
        let mut i: usize = self.entries.len();
        proof {
            assert(self.entries@.take(i as int) =~= self.entries@);
        }
        while i > 0
            invariant
                i <= self.entries.len(),
                prop(entries_model(self.entries@), key@) == prop(
                    entries_model(self.entries@.take(i as int)),
                    key@,
                ),
            decreases i,
        {
            i -= 1;
            proof {
                let upto = self.entries@.take(i + 1);
                assert(upto.drop_last() =~= self.entries@.take(i as int));
                assert(upto.last() == self.entries@[i as int]);
            }
            if same_text(self.entries[i].0.as_str(), key) {
                return Some(i);
            }
        }
        None
    }

    /// The value of a property.
    pub fn get(&self, key: &str) -> (r: Option<&Json>)
        ensures
            match r {
                Some(value) => prop(self@, key@) == Some(value@),
                None => prop(self@, key@) is None,
            },
    {
        match self.find(key) {
            Some(i) => Some(&self.entries[i].1),
            None => None,
        }
    }

    /// The text of a property that holds a string.
    pub fn get_text(&self, key: &str) -> (r: Option<&String>)
        ensures
            match r {
                Some(s) => text_prop(self@, key@) == Some(s@),
                None => text_prop(self@, key@) is None,
            },
    {
        match self.get(key) {
            Some(Json::Str(s)) => Some(s),
            _ => None,
        }
    }

    /// The boolean of a property; `false` where it holds none.
    pub fn get_flag(&self, key: &str) -> (r: bool)
        ensures
            r == flag_prop(self@, key@),
    {
        match self.get(key) {
            Some(Json::Bool(b)) => *b,
            _ => false,
        }
    }

    /// Whether a property holds exactly the given string.
    pub fn has_text(&self, key: &str, value: &str) -> (r: bool)
        ensures
            r == (text_prop(self@, key@) == Some(value@)),
    {
        match self.get_text(key) {
            Some(s) => same_text(s.as_str(), value),
            None => false,
        }
    }

    /// The object that a property holds.
    pub fn get_object(&self, key: &str) -> (r: Option<&JsonObject>)
        ensures
            match r {
                Some(inner) => prop(self@, key@) == Some(JsonModel::Object(inner@)),
                None => !(prop(self@, key@) matches Some(JsonModel::Object(_))),
            },
    {
        match self.get(key) {
            Some(Json::Object(inner)) => Some(inner),
            _ => None,
        }
    }
}

/// The text of a property that holds a string, as an owned value.
pub fn optional_string(object: &JsonObject, key: &str) -> (r: Option<String>)
    ensures
        match r {
            Some(s) => text_prop(object@, key@) == Some(s@),
            None => text_prop(object@, key@) is None,
        },
{
    match object.get_text(key) {
        Some(s) => Some(s.clone()),
        None => None,
    }
}

/// The text of a property that holds a string; empty for any other.
pub fn string_or_empty(object: &JsonObject, key: &str) -> (r: String)
    ensures
        r@ == text_or_empty(object@, key@),
{
    match object.get_text(key) {
        Some(s) => s.clone(),
        None => String::new(),
    }
}

/// The texts that a property lists: those of an array, or the one string.
pub fn string_array_prop(object: &JsonObject, key: &str) -> (r: Vec<String>)
    ensures
        string_views(r@) == texts_prop(object@, key@),
{
    match object.get(key) {
        Some(Json::Str(s)) => {
            let mut out: Vec<String> = Vec::new();
            out.push(s.clone());
            assert(string_views(out@) =~= seq![s@]);
            out
        },
        Some(Json::Array(items)) => {
            let mut out: Vec<String> = Vec::new();
            let mut i: usize = 0;
            let ghost models = items_model(items@);
            proof {
                lemma_items_model(items@);
            }
            assert(string_views(out@) =~= texts_of(models.take(0)));
            while i < items.len()
                invariant
                    i <= items.len(),
                    models.len() == items.len(),
                    forall|j: int|
                        0 <= j < items.len() ==> #[trigger] models[j] == json_model(items@[j]),
                    string_views(out@) == texts_of(models.take(i as int)),
                decreases items.len() - i,
            {
                proof {
                    let upto = models.take(i + 1);
                    assert(upto.drop_last() =~= models.take(i as int));
                    assert(upto.last() == json_model(items@[i as int]));
                }
                if let Json::Str(s) = &items[i] {
                    let ghost before = out@;
                    out.push(s.clone());
                    assert(string_views(out@) =~= string_views(before).push(s@));
                }
                i += 1;
            }
            assert(models.take(i as int) =~= models);
            out
        },
        _ => {
            let out: Vec<String> = Vec::new();
            assert(string_views(out@) =~= Seq::<Seq<char>>::empty());
            out
        },
    }
}

/// What a property refers to: the string itself, or the `id` of an embedded
/// object.
pub fn object_reference_uri<'a>(object: &'a JsonObject, key: &str) -> (r: Option<&'a String>)
    ensures
        match r {
            Some(s) => reference_prop(object@, key@) == Some(s@),
            None => reference_prop(object@, key@) is None,
        },
{
    match object.get(key) {
        Some(Json::Str(s)) => Some(s),
        Some(Json::Object(inner)) => inner.get_text("id"),
        _ => None,
    }
}

/// What an array of strings stands for.
pub open spec fn text_array(items: Seq<Seq<char>>) -> JsonModel {
    JsonModel::Array(items.map_values(|s: Seq<char>| JsonModel::Str(s)))
}

/// The array of the given strings.
pub fn string_array(items: &[String]) -> (r: Json)
    ensures
        r@ == text_array(string_views(items@)),
{
    let mut out: Vec<Json> = Vec::new();
    let mut i: usize = 0;
    let ghost goal = string_views(items@).map_values(|s: Seq<char>| JsonModel::Str(s));
    assert(items_model(out@) =~= goal.take(0));
    while i < items.len()
        invariant
            i <= items.len(),
            goal == string_views(items@).map_values(|s: Seq<char>| JsonModel::Str(s)),
            items_model(out@) == goal.take(i as int),
        decreases items.len() - i,
    {
        let ghost before = out@;
        out.push(Json::Str(items[i].clone()));
        proof {
            assert(out@.drop_last() =~= before);
            assert(json_model(out@.last()) == JsonModel::Str(items@[i as int]@));
            assert(goal.take(i + 1) =~= goal.take(i as int).push(JsonModel::Str(items@[i as int]@)));
        }
        i += 1;
    }
    assert(goal.take(i as int) =~= goal);
    Json::Array(out)
}

} // verus!
