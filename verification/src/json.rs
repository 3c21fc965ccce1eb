//! The document model: the JSON values that the library renders into.
//!
//! [`Json`] is the executable tree; [`JsonModel`] is what it means.  An object
//! is kept as a list of entries in the order in which they were written, and
//! means the map that results from writing them one after another, so that a
//! later entry replaces an earlier one with the same key.
use vstd::prelude::*;

verus! {

/// A JSON value, as far as index mappings need one.
#[derive(Debug, PartialEq, Eq)]
pub enum Json {
    Bool(bool),
    Number(u64),
    Text(String),
    Array(Vec<Json>),
    Object(Vec<(String, Json)>),
}

/// The meaning of a [`Json`] value: objects are maps from key to value.
pub enum JsonModel {
    Bool(bool),
    Number(nat),
    Text(Seq<char>),
    Array(Seq<JsonModel>),
    Object(Map<Seq<char>, JsonModel>),
}

/// The value that `j` stands for.
pub open spec fn json_model(j: Json) -> JsonModel
    decreases j,
{
    match j {
        Json::Bool(b) => JsonModel::Bool(b),
        Json::Number(n) => JsonModel::Number(n as nat),
        Json::Text(s) => JsonModel::Text(s@),
        Json::Array(items) => JsonModel::Array(
            Seq::new(
                items@.len(),
                |i: int|
                    if 0 <= i < items@.len() {
                        json_model(items@[i])
                    } else {
                        arbitrary()
                    },
            ),
        ),
        Json::Object(entries) => JsonModel::Object(object_model(entries@)),
    }
}

/// The map that a list of entries stands for: the entries written in order
/// into an empty map.
pub open spec fn object_model(entries: Seq<(String, Json)>) -> Map<Seq<char>, JsonModel>
    decreases entries,
{
    if entries.len() == 0 {
        Map::empty()
    } else {
        object_model(entries.drop_last()).insert(
            entries.last().0@,
            json_model(entries.last().1),
        )
    }
}

impl DeepView for Json {
    type V = JsonModel;

    open spec fn deep_view(&self) -> JsonModel {
        json_model(*self)
    }
}

/// The array of the given strings.
pub open spec fn text_array(items: Seq<Seq<char>>) -> JsonModel {
    JsonModel::Array(items.map_values(|s: Seq<char>| JsonModel::Text(s)))
}

/// Writing one more entry extends the map by that entry.
pub proof fn lemma_object_push(entries: Seq<(String, Json)>, key: String, value: Json)
    ensures
        object_model(entries.push((key, value))) == object_model(entries).insert(
            key@,
            json_model(value),
        ),
{
    assert(entries.push((key, value)).drop_last() =~= entries);
}

impl Json {
    /// The string `s` as a JSON value.
    pub fn text(s: &str) -> (j: Json)
        ensures
            j.deep_view() == JsonModel::Text(s@),
    {
        Json::Text(s.to_owned())
    }

    /// The array of the given strings, in their order.
    pub fn strings(items: &Vec<String>) -> (j: Json)
        ensures
            j.deep_view() == text_array(items.deep_view()),
    {
        let mut out: Vec<Json> = Vec::new();
        let mut i: usize = 0;
        while i < items.len()
            invariant
                i <= items.len(),
                out.len() == i,
                forall|k: int|
                    0 <= k < i ==> json_model(#[trigger] out[k]) == JsonModel::Text(items[k]@),
            decreases items.len() - i,
        {
            out.push(Json::Text(items[i].clone()));
            i += 1;
        }
        let j = Json::Array(out);
        assert(j.deep_view()->Array_0 =~= text_array(items.deep_view())->Array_0);
        j
    }

    /// An object with the given entries, written in their order.
    pub fn object(entries: Vec<(String, Json)>) -> (j: Json)
        ensures
            j.deep_view() == JsonModel::Object(object_model(entries@)),
    {
        Json::Object(entries)
    }
}

/// Appends the entry `key: value` to `entries`.
pub fn put(entries: &mut Vec<(String, Json)>, key: &str, value: Json)
    ensures
        final(entries)@.len() == old(entries)@.len() + 1,
        final(entries)@.drop_last() == old(entries)@,
        final(entries)@.last().0@ == key@,
        final(entries)@.last().1 == value,
        object_model(final(entries)@) == object_model(old(entries)@).insert(
            key@,
            value.deep_view(),
        ),
{
    let k = key.to_owned();
    proof {
        lemma_object_push(entries@, k, value);
    }
    entries.push((k, value));
    assert(entries@.drop_last() =~= old(entries)@);
}

impl Clone for Json {
    fn clone(&self) -> (r: Self)
        ensures
            r.deep_view() == self.deep_view(),
        decreases self,
    {
        match self {
            Json::Bool(b) => Json::Bool(*b),
            Json::Number(n) => Json::Number(*n),
            Json::Text(s) => Json::Text(s.clone()),
            Json::Array(items) => {
                let mut out: Vec<Json> = Vec::new();
                let mut i: usize = 0;
                while i < items.len()
                    invariant
                        *self == Json::Array(*items),
                        i <= items.len(),
                        out.len() == i,
                        forall|k: int|
                            0 <= k < i ==> json_model(#[trigger] out[k]) == json_model(items[k]),
                    decreases items.len() - i,
                {
                    proof {
                        assert(decreases_to!(*self => self->Array_0));
                        assert(decreases_to!(items@ => items@[i as int]));
                    }
                    out.push(items[i].clone());
                    i += 1;
                }
                let r = Json::Array(out);
                assert(r.deep_view()->Array_0 =~= self.deep_view()->Array_0);
                r
            },
            Json::Object(entries) => {
                let mut out: Vec<(String, Json)> = Vec::new();
                let mut i: usize = 0;
                while i < entries.len()
                    invariant
                        *self == Json::Object(*entries),
                        i <= entries.len(),
                        object_model(out@) == object_model(entries@.take(i as int)),
                    decreases entries.len() - i,
                {
                    proof {
                        assert(decreases_to!(*self => self->Object_0));
                        assert(decreases_to!(entries@ => entries@[i as int]));
                        assert(decreases_to!(entries@[i as int] => entries@[i as int].1));
                    }
                    let value = entries[i].1.clone();
                    let key = entries[i].0.clone();
                    proof {
                        lemma_object_push(out@, key, value);
                        assert(entries@.take(i + 1).drop_last() =~= entries@.take(i as int));
                    }
                    out.push((key, value));
                    i += 1;
                }
                assert(entries@.take(i as int) =~= entries@);
                Json::Object(out)
            },
        }
    }
}

} // verus!
