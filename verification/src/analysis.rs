//! Analysis units: the named pipelines that process the text of a field.
//!
//! A [`Normalizer`] runs character filters and a tokenizer over the value of
//! a keyword field; an [`Analyzer`] adds token filters and serves text
//! fields.  Both own their parts by value.  Where the engine's settings list
//! a unit, its parts appear by name only.
use crate::character_filters::{CharacterFilter, CharacterFilterModel};
use crate::dictionary::Definition;
use crate::json::{put, text_array, Json, JsonModel};
use crate::token_processing::{TokenFilter, TokenFilterModel};
use crate::tokenizers::{default_tokenizer, Tokenizer, TokenizerModel};
use vstd::prelude::*;

verus! {

/// Character filters, a tokenizer and token filters, under one name.
#[derive(PartialEq, Eq, Hash, Debug)]
pub struct Analyzer {
    pub name: String,
    pub character_filters: Vec<CharacterFilter>,
    pub tokenizer: Tokenizer,
    pub token_filters: Vec<TokenFilter>,
}

/// Character filters and a tokenizer, under one name.
#[derive(PartialEq, Eq, Hash, Debug)]
pub struct Normalizer {
    pub name: String,
    pub character_filters: Vec<CharacterFilter>,
    pub tokenizer: Tokenizer,
}

/// What an [`Analyzer`] holds, as contracts see it.
pub struct AnalyzerModel {
    pub name: Seq<char>,
    pub character_filters: Seq<CharacterFilterModel>,
    pub tokenizer: TokenizerModel,
    pub token_filters: Seq<TokenFilterModel>,
}

/// What a [`Normalizer`] holds, as contracts see it.
pub struct NormalizerModel {
    pub name: Seq<char>,
    pub character_filters: Seq<CharacterFilterModel>,
    pub tokenizer: TokenizerModel,
}

impl DeepView for Analyzer {
    type V = AnalyzerModel;

    open spec fn deep_view(&self) -> AnalyzerModel {
        AnalyzerModel {
            name: self.name@,
            character_filters: self.character_filters.deep_view(),
            tokenizer: self.tokenizer.deep_view(),
            token_filters: self.token_filters.deep_view(),
        }
    }
}

impl DeepView for Normalizer {
    type V = NormalizerModel;

    open spec fn deep_view(&self) -> NormalizerModel {
        NormalizerModel {
            name: self.name@,
            character_filters: self.character_filters.deep_view(),
            tokenizer: self.tokenizer.deep_view(),
        }
    }
}

/// The names of the given character filters, in their order.
pub open spec fn character_filter_names(filters: Seq<CharacterFilterModel>) -> Seq<Seq<char>> {
    filters.map_values(|f: CharacterFilterModel| f.name)
}

/// The names of the given token filters, in their order.
pub open spec fn token_filter_names(filters: Seq<TokenFilterModel>) -> Seq<Seq<char>> {
    filters.map_values(|f: TokenFilterModel| f.name)
}

/// The settings of a normalizer: its character filters and its tokenizer,
/// each by name.
pub open spec fn normalizer_settings(n: NormalizerModel) -> JsonModel {
    JsonModel::Object(
        Map::empty().insert(
            "char_filter"@,
            text_array(character_filter_names(n.character_filters)),
        ).insert("tokenizer"@, JsonModel::Text(n.tokenizer.name)),
    )
}

/// The settings of an analyzer: its character filters, its tokenizer and its
/// token filters, each by name.
pub open spec fn analyzer_settings(a: AnalyzerModel) -> JsonModel {
    JsonModel::Object(
        Map::empty().insert(
            "char_filter"@,
            text_array(character_filter_names(a.character_filters)),
        ).insert("tokenizer"@, JsonModel::Text(a.tokenizer.name)).insert(
            "filter"@,
            text_array(token_filter_names(a.token_filters)),
        ),
    )
}

/// The normalizer that keyword fields get when none is chosen.
pub open spec fn default_normalizer() -> NormalizerModel {
    NormalizerModel {
        name: "sedk_default_normalizer"@,
        character_filters: Seq::empty(),
        tokenizer: default_tokenizer(),
    }
}

/// The analyzer that text fields get when none is chosen.  It goes by the
/// name of the default normalizer; the two live in different dictionaries.
pub open spec fn default_analyzer() -> AnalyzerModel {
    AnalyzerModel {
        name: "sedk_default_normalizer"@,
        character_filters: Seq::empty(),
        tokenizer: default_tokenizer(),
        token_filters: Seq::empty(),
    }
}

/// A copy of `filters`.
pub fn clone_character_filters(filters: &Vec<CharacterFilter>) -> (r: Vec<CharacterFilter>)
    ensures
        r.deep_view() == filters.deep_view(),
{
    let mut out: Vec<CharacterFilter> = Vec::new();
    let mut i: usize = 0;
    while i < filters.len()
        invariant
            i <= filters.len(),
            out.len() == i,
            forall|k: int| 0 <= k < i ==> out[k].deep_view() == filters[k].deep_view(),
        decreases filters.len() - i,
    {
        out.push(filters[i].clone());
        i += 1;
    }
    assert(out.deep_view() =~= filters.deep_view());
    out
}

/// A copy of `filters`.
pub fn clone_token_filters(filters: &Vec<TokenFilter>) -> (r: Vec<TokenFilter>)
    ensures
        r.deep_view() == filters.deep_view(),
{
    let mut out: Vec<TokenFilter> = Vec::new();
    let mut i: usize = 0;
    while i < filters.len()
        invariant
            i <= filters.len(),
            out.len() == i,
            forall|k: int| 0 <= k < i ==> out[k].deep_view() == filters[k].deep_view(),
        decreases filters.len() - i,
    {
        out.push(filters[i].clone());
        i += 1;
    }
    assert(out.deep_view() =~= filters.deep_view());
    out
}

/// The names of `filters`, as a JSON array.
fn character_filter_names_json(filters: &Vec<CharacterFilter>) -> (j: Json)
    ensures
        j.deep_view() == text_array(character_filter_names(filters.deep_view())),
{
    let mut names: Vec<String> = Vec::new();
    let mut i: usize = 0;
    while i < filters.len()
        invariant
            i <= filters.len(),
            names.len() == i,
            forall|k: int| 0 <= k < i ==> names[k]@ == filters[k].name@,
        decreases filters.len() - i,
    {
        names.push(filters[i].name.clone());
        i += 1;
    }
    assert(names.deep_view() =~= character_filter_names(filters.deep_view()));
    Json::strings(&names)
}

/// The names of `filters`, as a JSON array.
fn token_filter_names_json(filters: &Vec<TokenFilter>) -> (j: Json)
    ensures
        j.deep_view() == text_array(token_filter_names(filters.deep_view())),
{
    let mut names: Vec<String> = Vec::new();
    let mut i: usize = 0;
    while i < filters.len()
        invariant
            i <= filters.len(),
            names.len() == i,
            forall|k: int| 0 <= k < i ==> names[k]@ == filters[k].name@,
        decreases filters.len() - i,
    {
        names.push(filters[i].name.clone());
        i += 1;
    }
    assert(names.deep_view() =~= token_filter_names(filters.deep_view()));
    Json::strings(&names)
}

impl Analyzer {
    /// The analyzer `name` that filters characters and tokenizes as `n` does
    /// and then applies `token_filters`.
    pub fn from_normalizer(n: &Normalizer, name: String, token_filters: Vec<TokenFilter>) -> (a:
        Analyzer)
        ensures
            a.deep_view() == (AnalyzerModel {
                name: name@,
                character_filters: n.deep_view().character_filters,
                tokenizer: n.deep_view().tokenizer,
                token_filters: token_filters.deep_view(),
            }),
    {
        Analyzer {
            name: name,
            token_filters: token_filters,
            tokenizer: n.tokenizer(),
            character_filters: n.character_filters(),
        }
    }

    /// The settings of this analyzer, as the engine's `analyzer` dictionary
    /// holds them: every part by its name.
    pub fn to_json(&self) -> (j: Json)
        ensures
            j.deep_view() == analyzer_settings(self.deep_view()),
    {
        let mut entries: Vec<(String, Json)> = Vec::new();
        put(&mut entries, "char_filter", character_filter_names_json(&self.character_filters));
        put(&mut entries, "tokenizer", Json::text(self.tokenizer.name.as_str()));
        put(&mut entries, "filter", token_filter_names_json(&self.token_filters));
        Json::object(entries)
    }
}

impl Normalizer {
    /// A copy of this normalizer's tokenizer.
    pub fn tokenizer(&self) -> (t: Tokenizer)
        ensures
            t.deep_view() == self.deep_view().tokenizer,
    {
        self.tokenizer.clone()
    }

    /// A copy of this normalizer's character filters.
    pub fn character_filters(&self) -> (filters: Vec<CharacterFilter>)
        ensures
            filters.deep_view() == self.deep_view().character_filters,
    {
        clone_character_filters(&self.character_filters)
    }

    /// The settings of this normalizer, as the engine's `normalizer`
    /// dictionary holds them: every part by its name.
    pub fn to_json(&self) -> (j: Json)
        ensures
            j.deep_view() == normalizer_settings(self.deep_view()),
    {
        let mut entries: Vec<(String, Json)> = Vec::new();
        put(&mut entries, "char_filter", character_filter_names_json(&self.character_filters));
        put(&mut entries, "tokenizer", Json::text(self.tokenizer.name.as_str()));
        Json::object(entries)
    }
}

impl Clone for Analyzer {
    fn clone(&self) -> (r: Self)
        ensures
            r.deep_view() == self.deep_view(),
    {
        Analyzer {
            name: self.name.clone(),
            character_filters: clone_character_filters(&self.character_filters),
            tokenizer: self.tokenizer.clone(),
            token_filters: clone_token_filters(&self.token_filters),
        }
    }
}

impl Clone for Normalizer {
    fn clone(&self) -> (r: Self)
        ensures
            r.deep_view() == self.deep_view(),
    {
        Normalizer {
            name: self.name.clone(),
            character_filters: clone_character_filters(&self.character_filters),
            tokenizer: self.tokenizer.clone(),
        }
    }
}

impl Default for Analyzer {
    fn default() -> (r: Self)
        ensures
            r.deep_view() == default_analyzer(),
    {
        let r = Analyzer {
            name: "sedk_default_normalizer".to_owned(),
            character_filters: Vec::new(),
            token_filters: Vec::new(),
            tokenizer: Tokenizer::default(),
        };
        assert(r.character_filters.deep_view() =~= Seq::empty());
        assert(r.token_filters.deep_view() =~= Seq::empty());
        r
    }
}

impl Default for Normalizer {
    fn default() -> (r: Self)
        ensures
            r.deep_view() == default_normalizer(),
    {
        let r = Normalizer {
            name: "sedk_default_normalizer".to_owned(),
            character_filters: Vec::new(),
            tokenizer: Tokenizer::default(),
        };
        assert(r.character_filters.deep_view() =~= Seq::empty());
        r
    }
}

impl Definition for Analyzer {
    open spec fn settings(model: AnalyzerModel) -> JsonModel {
        analyzer_settings(model)
    }

    fn settings_json(&self) -> (j: Json) {
        self.to_json()
    }
}

impl Definition for Normalizer {
    open spec fn settings(model: NormalizerModel) -> JsonModel {
        normalizer_settings(model)
    }

    fn settings_json(&self) -> (j: Json) {
        self.to_json()
    }
}

} // verus!
