//! From a field tree to the engine's index-mapping document.
//!
//! The tree is walked once, children before their parent.  Every normalizer
//! and analyzer that a field owns is written into a dictionary under its
//! name, and so are its tokenizer, its character filters and its token
//! filters.  The document then has two sections: `analysis`, with the five
//! dictionaries, and `mappings`, with the tree itself.
use crate::analysis::{Analyzer, AnalyzerModel, Normalizer, NormalizerModel};
use crate::character_filters::{
    CharacterFilter, CharacterFilterModel, CharacterFilterType, CharacterFilterTypeModel,
};
use crate::dictionary::{settings_map, Dictionary};
use crate::field::{
    lemma_field_children, properties, serialize_fields, Field, FieldModel, FieldType,
    FieldTypeModel, IndexMapping, IndexMappingModel,
};
use crate::json::{put, Json, JsonModel};
use crate::token_processing::{
    TokenFilter, TokenFilterModel, TokenFilterType, TokenFilterTypeModel,
};
use crate::tokenizers::{TokenizerType, TokenizerTypeModel};
use vstd::prelude::*;

verus! {

/// The five dictionaries of the `analysis` section.
#[derive(Debug)]
pub struct AnalysisDTO {
    pub char_filter: Dictionary<CharacterFilterType>,
    pub tokenizer: Dictionary<TokenizerType>,
    pub filter: Dictionary<TokenFilterType>,
    pub normalizer: Dictionary<Normalizer>,
    pub analyzer: Dictionary<Analyzer>,
}

/// The `mappings` section: the tree.
#[derive(Debug)]
pub struct MappingsDTO {
    pub properties: Vec<Field>,
}

/// The index-mapping document.
#[derive(Debug)]
pub struct IndexMappingDTO {
    pub analysis: AnalysisDTO,
    pub mappings: MappingsDTO,
}

/// What an [`AnalysisDTO`] holds, as contracts see it: each dictionary as a map.
pub struct AnalysisModel {
    pub char_filter: Map<Seq<char>, CharacterFilterTypeModel>,
    pub tokenizer: Map<Seq<char>, TokenizerTypeModel>,
    pub filter: Map<Seq<char>, TokenFilterTypeModel>,
    pub normalizer: Map<Seq<char>, NormalizerModel>,
    pub analyzer: Map<Seq<char>, AnalyzerModel>,
}

/// What a [`MappingsDTO`] holds, as contracts see it.
pub struct MappingsModel {
    pub properties: Seq<FieldModel>,
}

/// What an [`IndexMappingDTO`] holds, as contracts see it.
pub struct IndexMappingDTOModel {
    pub analysis: AnalysisModel,
    pub mappings: MappingsModel,
}

impl DeepView for AnalysisDTO {
    type V = AnalysisModel;

    open spec fn deep_view(&self) -> AnalysisModel {
        AnalysisModel {
            char_filter: self.char_filter.deep_view(),
            tokenizer: self.tokenizer.deep_view(),
            filter: self.filter.deep_view(),
            normalizer: self.normalizer.deep_view(),
            analyzer: self.analyzer.deep_view(),
        }
    }
}

impl DeepView for MappingsDTO {
    type V = MappingsModel;

    open spec fn deep_view(&self) -> MappingsModel {
        MappingsModel { properties: self.properties.deep_view() }
    }
}

impl DeepView for IndexMappingDTO {
    type V = IndexMappingDTOModel;

    open spec fn deep_view(&self) -> IndexMappingDTOModel {
        IndexMappingDTOModel {
            analysis: self.analysis.deep_view(),
            mappings: self.mappings.deep_view(),
        }
    }
}

/// The analysis section in which nothing is defined.
pub open spec fn empty_analysis() -> AnalysisModel {
    AnalysisModel {
        char_filter: Map::empty(),
        tokenizer: Map::empty(),
        filter: Map::empty(),
        normalizer: Map::empty(),
        analyzer: Map::empty(),
    }
}

/// `dict` after each of `filters` has been written under its name, in order.
pub open spec fn with_character_filters(
    dict: Map<Seq<char>, CharacterFilterTypeModel>,
    filters: Seq<CharacterFilterModel>,
) -> Map<Seq<char>, CharacterFilterTypeModel>
    decreases filters.len(),
{
    if filters.len() == 0 {
        dict
    } else {
        with_character_filters(dict, filters.drop_last()).insert(
            filters.last().name,
            filters.last().character_filter_type,
        )
    }
}

/// `dict` after each of `filters` has been written under its name, in order.
pub open spec fn with_token_filters(
    dict: Map<Seq<char>, TokenFilterTypeModel>,
    filters: Seq<TokenFilterModel>,
) -> Map<Seq<char>, TokenFilterTypeModel>
    decreases filters.len(),
{
    if filters.len() == 0 {
        dict
    } else {
        with_token_filters(dict, filters.drop_last()).insert(
            filters.last().name,
            filters.last().filter_type,
        )
    }
}

/// What a keyword field adds: its normalizer, and the normalizer's
/// tokenizer and character filters.
pub open spec fn collect_keyword(a: AnalysisModel, n: NormalizerModel) -> AnalysisModel {
    AnalysisModel {
        normalizer: a.normalizer.insert(n.name, n),
        tokenizer: a.tokenizer.insert(n.tokenizer.name, n.tokenizer.tokenizer_type),
        char_filter: with_character_filters(a.char_filter, n.character_filters),
        ..a
    }
}

/// What a text field adds: its analyzer, and the analyzer's tokenizer,
/// character filters and token filters.
pub open spec fn collect_text(a: AnalysisModel, an: AnalyzerModel) -> AnalysisModel {
    AnalysisModel {
        analyzer: a.analyzer.insert(an.name, an),
        tokenizer: a.tokenizer.insert(an.tokenizer.name, an.tokenizer.tokenizer_type),
        char_filter: with_character_filters(a.char_filter, an.character_filters),
        filter: with_token_filters(a.filter, an.token_filters),
        ..a
    }
}

/// What a field of kind `t` adds by itself.  Only keyword and text fields
/// add anything.
pub open spec fn collect_node(a: AnalysisModel, t: FieldTypeModel) -> AnalysisModel {
    match t {
        FieldTypeModel::Keyword { normalizer } => collect_keyword(a, normalizer),
        FieldTypeModel::Text { analyzer } => collect_text(a, analyzer),
        _ => a,
    }
}

/// `a` after the walk over `fields`: the fields in order, for each one first
/// its sub-fields and then the field itself.
pub open spec fn collect_fields(a: AnalysisModel, fields: Seq<FieldModel>) -> AnalysisModel
    decreases fields,
{
    if fields.len() == 0 {
        a
    } else {
        let before = collect_fields(a, fields.drop_last());
        let below = collect_fields(before, fields.last().fields);
        collect_node(below, fields.last().field_type)
    }
}

/// The `analysis` section: each dictionary under its key, each definition
/// by its settings.
pub open spec fn analysis_json(a: AnalysisModel) -> JsonModel {
    JsonModel::Object(
        Map::empty().insert(
            "char_filter"@,
            JsonModel::Object(settings_map::<CharacterFilterType>(a.char_filter)),
        ).insert(
            "tokenizer"@,
            JsonModel::Object(settings_map::<TokenizerType>(a.tokenizer)),
        ).insert(
            "filter"@,
            JsonModel::Object(settings_map::<TokenFilterType>(a.filter)),
        ).insert(
            "normalizer"@,
            JsonModel::Object(settings_map::<Normalizer>(a.normalizer)),
        ).insert("analyzer"@, JsonModel::Object(settings_map::<Analyzer>(a.analyzer))),
    )
}

/// The `mappings` section: the top-level fields under `properties`.
pub open spec fn mappings_json(m: MappingsModel) -> JsonModel {
    JsonModel::Object(
        Map::empty().insert("properties"@, JsonModel::Object(properties(m.properties))),
    )
}

/// The document of given sections.
pub open spec fn document_json(d: IndexMappingDTOModel) -> JsonModel {
    JsonModel::Object(
        Map::empty().insert("analysis"@, analysis_json(d.analysis)).insert(
            "mappings"@,
            mappings_json(d.mappings),
        ),
    )
}

/// The sections that a mapping gives: what the walk over its fields
/// collects, and the fields themselves.
pub open spec fn document_of(m: IndexMappingModel) -> IndexMappingDTOModel {
    IndexMappingDTOModel {
        analysis: collect_fields(empty_analysis(), m.fields),
        mappings: MappingsModel { properties: m.fields },
    }
}

/// The index-mapping document of a mapping.
pub open spec fn index_mapping_json(m: IndexMappingModel) -> JsonModel {
    document_json(document_of(m))
}

/// Writes each of `filters` into `dict` under its name.
fn insert_character_filters(
    dict: &mut Dictionary<CharacterFilterType>,
    filters: &Vec<CharacterFilter>,
)
    ensures
        final(dict).deep_view() == with_character_filters(
            old(dict).deep_view(),
            filters.deep_view(),
        ),
{
    let mut i: usize = 0;
    while i < filters.len()
        invariant
            i <= filters.len(),
            dict.deep_view() == with_character_filters(
                old(dict).deep_view(),
                filters.deep_view().take(i as int),
            ),
        decreases filters.len() - i,
    {
        proof {
            let all = filters.deep_view();
            assert(all.take(i + 1).drop_last() =~= all.take(i as int));
            assert(all.take(i + 1).last() == filters[i as int].deep_view());
        }
        dict.insert(filters[i].name.clone(), filters[i].character_filter_type.clone());
        i += 1;
    }
    assert(filters.deep_view().take(i as int) =~= filters.deep_view());
}

/// Writes each of `filters` into `dict` under its name.
fn insert_token_filters(dict: &mut Dictionary<TokenFilterType>, filters: &Vec<TokenFilter>)
    ensures
        final(dict).deep_view() == with_token_filters(old(dict).deep_view(), filters.deep_view()),
{
    let mut i: usize = 0;
    while i < filters.len()
        invariant
            i <= filters.len(),
            dict.deep_view() == with_token_filters(
                old(dict).deep_view(),
                filters.deep_view().take(i as int),
            ),
        decreases filters.len() - i,
    {
        proof {
            let all = filters.deep_view();
            assert(all.take(i + 1).drop_last() =~= all.take(i as int));
            assert(all.take(i + 1).last() == filters[i as int].deep_view());
        }
        dict.insert(filters[i].name.clone(), filters[i].filter_type.clone());
        i += 1;
    }
    assert(filters.deep_view().take(i as int) =~= filters.deep_view());
}

/// Walks `fields` and writes every definition that they and their
/// sub-fields own into `analysis`.
pub fn process_fields(fields: &[Field], analysis: &mut AnalysisDTO)
    ensures
        final(analysis).deep_view() == collect_fields(
            old(analysis).deep_view(),
            fields.deep_view(),
        ),
    decreases fields.deep_view(),
{
    let mut i: usize = 0;
    while i < fields.len()
        invariant
            i <= fields.len(),
            analysis.deep_view() == collect_fields(
                old(analysis).deep_view(),
                fields.deep_view().take(i as int),
            ),
        decreases fields.len() - i,
    {
        let field = &fields[i];
        proof {
            let all = fields.deep_view();
            assert(all.take(i + 1).drop_last() =~= all.take(i as int));
            assert(all.take(i + 1).last() == field.deep_view());
            assert(all[i as int] == field.deep_view());
            assert(decreases_to!(all => all[i as int]));
            lemma_field_children(*field);
        }
        process_fields(field.fields.as_slice(), analysis);
        match &field.field_type {
            FieldType::Keyword { normalizer: n } => {
                analysis.normalizer.insert(n.name.clone(), n.clone());
                analysis.tokenizer.insert(
                    n.tokenizer.name.clone(),
                    n.tokenizer.tokenizer_type.clone(),
                );
                insert_character_filters(&mut analysis.char_filter, &n.character_filters);
            },
            FieldType::Text { analyzer: a } => {
                analysis.analyzer.insert(a.name.clone(), a.clone());
                analysis.tokenizer.insert(
                    a.tokenizer.name.clone(),
                    a.tokenizer.tokenizer_type.clone(),
                );
                insert_character_filters(&mut analysis.char_filter, &a.character_filters);
                insert_token_filters(&mut analysis.filter, &a.token_filters);
            },
            _ => (),
        }
        i += 1;
    }
    assert(fields.deep_view().take(i as int) =~= fields.deep_view());
}

impl AnalysisDTO {
    /// The section in which nothing is defined.
    pub fn new() -> (a: Self)
        ensures
            a.deep_view() == empty_analysis(),
    {
        AnalysisDTO {
            char_filter: Dictionary::new(),
            tokenizer: Dictionary::new(),
            filter: Dictionary::new(),
            normalizer: Dictionary::new(),
            analyzer: Dictionary::new(),
        }
    }

    /// This section as the document shows it.
    pub fn to_json(&self) -> (j: Json)
        ensures
            j.deep_view() == analysis_json(self.deep_view()),
    {
        let mut entries: Vec<(String, Json)> = Vec::new();
        put(&mut entries, "char_filter", self.char_filter.to_json());
        put(&mut entries, "tokenizer", self.tokenizer.to_json());
        put(&mut entries, "filter", self.filter.to_json());
        put(&mut entries, "normalizer", self.normalizer.to_json());
        put(&mut entries, "analyzer", self.analyzer.to_json());
        Json::object(entries)
    }
}

impl MappingsDTO {
    /// This section as the document shows it.
    pub fn to_json(&self) -> (j: Json)
        ensures
            j.deep_view() == mappings_json(self.deep_view()),
    {
        let mut entries: Vec<(String, Json)> = Vec::new();
        put(&mut entries, "properties", serialize_fields(self.properties.as_slice()));
        Json::object(entries)
    }
}

/// An `IndexMappingDTO` is known to contracts by its content alone, so what
/// the conversion returns is stated by the `ensures` of `from`, not by
/// `from_spec`.
impl vstd::std_specs::convert::FromSpecImpl<IndexMapping> for IndexMappingDTO {
    open spec fn obeys_from_spec() -> bool {
        false
    }

    open spec fn from_spec(mapping: IndexMapping) -> IndexMappingDTO {
        arbitrary()
    }
}

impl From<IndexMapping> for IndexMappingDTO {
    /// The document of `mapping`: the definitions that its fields own, and
    /// the fields.
    fn from(mapping: IndexMapping) -> (dto: IndexMappingDTO)
        ensures
            dto.deep_view() == document_of(mapping.deep_view()),
    {
        let mut analysis = AnalysisDTO::new();
        process_fields(mapping.fields.as_slice(), &mut analysis);
        IndexMappingDTO { analysis: analysis, mappings: MappingsDTO { properties: mapping.fields } }
    }
}

impl IndexMappingDTO {
    /// This document as the engine reads it.
    pub fn to_json(&self) -> (j: Json)
        ensures
            j.deep_view() == document_json(self.deep_view()),
    {
        let mut entries: Vec<(String, Json)> = Vec::new();
        put(&mut entries, "analysis", self.analysis.to_json());
        put(&mut entries, "mappings", self.mappings.to_json());
        Json::object(entries)
    }
}

impl IndexMapping {
    /// The index-mapping document of this mapping, as the engine reads it.
    pub fn to_json(&self) -> (j: Json)
        ensures
            j.deep_view() == index_mapping_json(self.deep_view()),
    {
        IndexMappingDTO::from(self.clone()).to_json()
    }
}

} // verus!
