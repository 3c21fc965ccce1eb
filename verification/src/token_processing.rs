//! Token filters: transforms applied to the tokens that a tokenizer gives.
use crate::dictionary::Definition;
use crate::json::{put, text_array, Json, JsonModel};
use crate::text::{arrow, arrow_string, clone_strings, join, join_strings};
use vstd::prelude::*;

verus! {

/// The languages and algorithms that the engine's stemmer knows.
#[derive(PartialEq, Eq, Hash, Clone, Copy, Debug)]
pub enum StemmerLanguage {
    Arabic,
    Armenian,
    Basque,
    Bengali,
    Brazilian,
    Bulgarian,
    Catalan,
    Czech,
    Danish,
    Dutch,
    DutchKp,
    English,
    LightEnglish,
    Lovins,
    MinimalEnglish,
    Porter2,
    PossessiveEnglish,
    Estonian,
    Finnish,
    LightFinnish,
    French,
    LightFrench,
    MinimalFrench,
    Galician,
    MinimalGalician,
    German,
    LightGerman,
    German2,
    MinimalGerman,
    Greek,
    Hindi,
    Hungarian,
    LightHungarian,
    Indonesian,
    Irish,
    Italian,
    LightItalian,
    Sorani,
    Latvian,
    Lithuanian,
    Norwegian,
    LightNorwegian,
    MinimalNorwegian,
    LightNynorsk,
    MinimalNynorsk,
    Portueguese,
    LightPortuguese,
    MinimalPortuguese,
    PortugueseRslp,
    Romanian,
    Russian,
    LightRussian,
    Spanish,
    LightSpanish,
    Swedish,
    LightSwedish,
    Turkish,
}

/// Words that are to be treated as the same: each of `from` is read as each
/// of `to`.
#[derive(PartialEq, Eq, Hash, Debug)]
pub struct Synonym {
    pub from: Vec<String>,
    pub to: Vec<String>,
}

/// What a token filter does.
#[derive(PartialEq, Eq, Hash, Debug)]
pub enum TokenFilterType {
    Lowercase,
    Stemmer { language: StemmerLanguage },
    SynonymGraph { expand: bool, lenient: bool, synonyms: Vec<Synonym> },
    FlattenGraph,
    Reverse,
    Shingle {
        max_shingle_size: u8,
        min_shingle_size: u8,
        output_unigrams: bool,
        output_unigrams_if_no_shingles: bool,
        token_separator: String,
        filler_token: String,
    },
}

/// A token filter under its name.
#[derive(PartialEq, Eq, Hash, Debug)]
pub struct TokenFilter {
    pub name: String,
    pub filter_type: TokenFilterType,
}

/// What a [`Synonym`] holds, as contracts see it.
pub struct SynonymModel {
    pub from: Seq<Seq<char>>,
    pub to: Seq<Seq<char>>,
}

/// What a [`TokenFilterType`] holds, as contracts see it.
pub enum TokenFilterTypeModel {
    Lowercase,
    Stemmer { language: StemmerLanguage },
    SynonymGraph { expand: bool, lenient: bool, synonyms: Seq<SynonymModel> },
    FlattenGraph,
    Reverse,
    Shingle {
        max_shingle_size: u8,
        min_shingle_size: u8,
        output_unigrams: bool,
        output_unigrams_if_no_shingles: bool,
        token_separator: Seq<char>,
        filler_token: Seq<char>,
    },
}

/// What a [`TokenFilter`] holds, as contracts see it.
pub struct TokenFilterModel {
    pub name: Seq<char>,
    pub filter_type: TokenFilterTypeModel,
}

impl DeepView for Synonym {
    type V = SynonymModel;

    open spec fn deep_view(&self) -> SynonymModel {
        SynonymModel { from: self.from.deep_view(), to: self.to.deep_view() }
    }
}

impl DeepView for TokenFilterType {
    type V = TokenFilterTypeModel;

    open spec fn deep_view(&self) -> TokenFilterTypeModel {
        match self {
            TokenFilterType::Lowercase => TokenFilterTypeModel::Lowercase,
            TokenFilterType::Stemmer { language } => TokenFilterTypeModel::Stemmer {
                language: *language,
            },
            TokenFilterType::SynonymGraph {
                expand,
                lenient,
                synonyms,
            } => TokenFilterTypeModel::SynonymGraph {
                expand: *expand,
                lenient: *lenient,
                synonyms: synonyms.deep_view(),
            },
            TokenFilterType::FlattenGraph => TokenFilterTypeModel::FlattenGraph,
            TokenFilterType::Reverse => TokenFilterTypeModel::Reverse,
            TokenFilterType::Shingle {
                max_shingle_size,
                min_shingle_size,
                output_unigrams,
                output_unigrams_if_no_shingles,
                token_separator,
                filler_token,
            } => TokenFilterTypeModel::Shingle {
                max_shingle_size: *max_shingle_size,
                min_shingle_size: *min_shingle_size,
                output_unigrams: *output_unigrams,
                output_unigrams_if_no_shingles: *output_unigrams_if_no_shingles,
                token_separator: token_separator@,
                filler_token: filler_token@,
            },
        }
    }
}

impl DeepView for TokenFilter {
    type V = TokenFilterModel;

    open spec fn deep_view(&self) -> TokenFilterModel {
        TokenFilterModel { name: self.name@, filter_type: self.filter_type.deep_view() }
    }
}

/// The name under which the engine knows a stemmer.
pub open spec fn stemmer_language_name(language: StemmerLanguage) -> Seq<char> {
    match language {
        StemmerLanguage::Arabic => "arabic"@,
        StemmerLanguage::Armenian => "armenian"@,
        StemmerLanguage::Basque => "basque"@,
        StemmerLanguage::Bengali => "bengali"@,
        StemmerLanguage::Brazilian => "brazilian"@,
        StemmerLanguage::Bulgarian => "bulgarian"@,
        StemmerLanguage::Catalan => "catalan"@,
        StemmerLanguage::Czech => "czech"@,
        StemmerLanguage::Danish => "danish"@,
        StemmerLanguage::Dutch => "dutch"@,
        StemmerLanguage::DutchKp => "dutch_kp"@,
        StemmerLanguage::English => "english"@,
        StemmerLanguage::LightEnglish => "light_english"@,
        StemmerLanguage::Lovins => "lovins"@,
        StemmerLanguage::MinimalEnglish => "minimal_english"@,
        StemmerLanguage::Porter2 => "porter2"@,
        StemmerLanguage::PossessiveEnglish => "possessive_english"@,
        StemmerLanguage::Estonian => "estonian"@,
        StemmerLanguage::Finnish => "finnish"@,
        StemmerLanguage::LightFinnish => "light_finnish"@,
        StemmerLanguage::French => "french"@,
        StemmerLanguage::LightFrench => "light_french"@,
        StemmerLanguage::MinimalFrench => "minimal_french"@,
        StemmerLanguage::Galician => "galician"@,
        StemmerLanguage::MinimalGalician => "minimal_galician"@,
        StemmerLanguage::German => "german"@,
        StemmerLanguage::LightGerman => "light_german"@,
        StemmerLanguage::German2 => "german2"@,
        StemmerLanguage::MinimalGerman => "minimal_german"@,
        StemmerLanguage::Greek => "greek"@,
        StemmerLanguage::Hindi => "hindi"@,
        StemmerLanguage::Hungarian => "hungarian"@,
        StemmerLanguage::LightHungarian => "light_hungarian"@,
        StemmerLanguage::Indonesian => "indonesian"@,
        StemmerLanguage::Irish => "irish"@,
        StemmerLanguage::Italian => "italian"@,
        StemmerLanguage::LightItalian => "light_italian"@,
        StemmerLanguage::Sorani => "sorani"@,
        StemmerLanguage::Latvian => "latvian"@,
        StemmerLanguage::Lithuanian => "lithuanian"@,
        StemmerLanguage::Norwegian => "norwegian"@,
        StemmerLanguage::LightNorwegian => "light_norwegian"@,
        StemmerLanguage::MinimalNorwegian => "minimal_norwegian"@,
        StemmerLanguage::LightNynorsk => "light_nynorsk"@,
        StemmerLanguage::MinimalNynorsk => "minimal_nynorsk"@,
        StemmerLanguage::Portueguese => "portueguese"@,
        StemmerLanguage::LightPortuguese => "light_portuguese"@,
        StemmerLanguage::MinimalPortuguese => "minimal_portuguese"@,
        StemmerLanguage::PortugueseRslp => "portuguese_rslp"@,
        StemmerLanguage::Romanian => "romanian"@,
        StemmerLanguage::Russian => "russian"@,
        StemmerLanguage::LightRussian => "light_russian"@,
        StemmerLanguage::Spanish => "spanish"@,
        StemmerLanguage::LightSpanish => "light_spanish"@,
        StemmerLanguage::Swedish => "swedish"@,
        StemmerLanguage::LightSwedish => "light_swedish"@,
        StemmerLanguage::Turkish => "turkish"@,
    }
}

/// A synonym as the engine reads it: `from1,from2 => to1,to2`.
pub open spec fn synonym_text(s: SynonymModel) -> Seq<char> {
    arrow(join(s.from, ","@), join(s.to, ","@))
}

/// The settings of a token filter: its kind under `type`, then what the kind
/// needs.
pub open spec fn token_filter_settings(t: TokenFilterTypeModel) -> JsonModel {
    match t {
        TokenFilterTypeModel::Lowercase => JsonModel::Object(
            Map::empty().insert("type"@, JsonModel::Text("lowercase"@)),
        ),
        TokenFilterTypeModel::Stemmer { language } => JsonModel::Object(
            Map::empty().insert("type"@, JsonModel::Text("stemmer"@)).insert(
                "language"@,
                JsonModel::Text(stemmer_language_name(language)),
            ),
        ),
        TokenFilterTypeModel::SynonymGraph { expand, lenient, synonyms } => JsonModel::Object(
            Map::empty().insert("type"@, JsonModel::Text("synonym_graph"@)).insert(
                "expand"@,
                JsonModel::Bool(expand),
            ).insert("lenient"@, JsonModel::Bool(lenient)).insert(
                "synonyms"@,
                text_array(synonyms.map_values(|s: SynonymModel| synonym_text(s))),
            ),
        ),
        TokenFilterTypeModel::FlattenGraph => JsonModel::Object(
            Map::empty().insert("type"@, JsonModel::Text("flatten_graph"@)),
        ),
        TokenFilterTypeModel::Reverse => JsonModel::Object(
            Map::empty().insert("type"@, JsonModel::Text("reverse"@)),
        ),
        TokenFilterTypeModel::Shingle {
            max_shingle_size,
            min_shingle_size,
            output_unigrams,
            output_unigrams_if_no_shingles,
            token_separator,
            filler_token,
        } => JsonModel::Object(
            Map::empty().insert("type"@, JsonModel::Text("shingle"@)).insert(
                "max_shingle_size"@,
                JsonModel::Number(max_shingle_size as nat),
            ).insert("min_shingle_size"@, JsonModel::Number(min_shingle_size as nat)).insert(
                "output_unigrams"@,
                JsonModel::Bool(output_unigrams),
            ).insert(
                "output_unigrams_if_no_shingles"@,
                JsonModel::Bool(output_unigrams_if_no_shingles),
            ).insert("token_separator"@, JsonModel::Text(token_separator)).insert(
                "filler_token"@,
                JsonModel::Text(filler_token),
            ),
        ),
    }
}

impl StemmerLanguage {
    /// The name under which the engine knows this stemmer.
    pub fn name(&self) -> (s: String)
        ensures
            s@ == stemmer_language_name(*self),
    {
        match self {
            StemmerLanguage::Arabic => "arabic".to_string(),
            StemmerLanguage::Armenian => "armenian".to_string(),
            StemmerLanguage::Basque => "basque".to_string(),
            StemmerLanguage::Bengali => "bengali".to_string(),
            StemmerLanguage::Brazilian => "brazilian".to_string(),
            StemmerLanguage::Bulgarian => "bulgarian".to_string(),
            StemmerLanguage::Catalan => "catalan".to_string(),
            StemmerLanguage::Czech => "czech".to_string(),
            StemmerLanguage::Danish => "danish".to_string(),
            StemmerLanguage::Dutch => "dutch".to_string(),
            StemmerLanguage::DutchKp => "dutch_kp".to_string(),
            StemmerLanguage::English => "english".to_string(),
            StemmerLanguage::LightEnglish => "light_english".to_string(),
            StemmerLanguage::Lovins => "lovins".to_string(),
            StemmerLanguage::MinimalEnglish => "minimal_english".to_string(),
            StemmerLanguage::Porter2 => "porter2".to_string(),
            StemmerLanguage::PossessiveEnglish => "possessive_english".to_string(),
            StemmerLanguage::Estonian => "estonian".to_string(),
            StemmerLanguage::Finnish => "finnish".to_string(),
            StemmerLanguage::LightFinnish => "light_finnish".to_string(),
            StemmerLanguage::French => "french".to_string(),
            StemmerLanguage::LightFrench => "light_french".to_string(),
            StemmerLanguage::MinimalFrench => "minimal_french".to_string(),
            StemmerLanguage::Galician => "galician".to_string(),
            StemmerLanguage::MinimalGalician => "minimal_galician".to_string(),
            StemmerLanguage::German => "german".to_string(),
            StemmerLanguage::LightGerman => "light_german".to_string(),
            StemmerLanguage::German2 => "german2".to_string(),
            StemmerLanguage::MinimalGerman => "minimal_german".to_string(),
            StemmerLanguage::Greek => "greek".to_string(),
            StemmerLanguage::Hindi => "hindi".to_string(),
            StemmerLanguage::Hungarian => "hungarian".to_string(),
            StemmerLanguage::LightHungarian => "light_hungarian".to_string(),
            StemmerLanguage::Indonesian => "indonesian".to_string(),
            StemmerLanguage::Irish => "irish".to_string(),
            StemmerLanguage::Italian => "italian".to_string(),
            StemmerLanguage::LightItalian => "light_italian".to_string(),
            StemmerLanguage::Sorani => "sorani".to_string(),
            StemmerLanguage::Latvian => "latvian".to_string(),
            StemmerLanguage::Lithuanian => "lithuanian".to_string(),
            StemmerLanguage::Norwegian => "norwegian".to_string(),
            StemmerLanguage::LightNorwegian => "light_norwegian".to_string(),
            StemmerLanguage::MinimalNorwegian => "minimal_norwegian".to_string(),
            StemmerLanguage::LightNynorsk => "light_nynorsk".to_string(),
            StemmerLanguage::MinimalNynorsk => "minimal_nynorsk".to_string(),
            StemmerLanguage::Portueguese => "portueguese".to_string(),
            StemmerLanguage::LightPortuguese => "light_portuguese".to_string(),
            StemmerLanguage::MinimalPortuguese => "minimal_portuguese".to_string(),
            StemmerLanguage::PortugueseRslp => "portuguese_rslp".to_string(),
            StemmerLanguage::Romanian => "romanian".to_string(),
            StemmerLanguage::Russian => "russian".to_string(),
            StemmerLanguage::LightRussian => "light_russian".to_string(),
            StemmerLanguage::Spanish => "spanish".to_string(),
            StemmerLanguage::LightSpanish => "light_spanish".to_string(),
            StemmerLanguage::Swedish => "swedish".to_string(),
            StemmerLanguage::LightSwedish => "light_swedish".to_string(),
            StemmerLanguage::Turkish => "turkish".to_string(),
        }
    }
}

impl Synonym {
    /// This synonym as the engine reads it.
    pub fn text(&self) -> (s: String)
        ensures
            s@ == synonym_text(self.deep_view()),
    {
        let from = join_strings(&self.from, ",");
        let to = join_strings(&self.to, ",");
        arrow_string(from.as_str(), to.as_str())
    }

    /// This synonym as a JSON string.
    pub fn to_json(&self) -> (j: Json)
        ensures
            j.deep_view() == JsonModel::Text(synonym_text(self.deep_view())),
    {
        Json::Text(self.text())
    }
}

impl TokenFilterType {
    /// The settings of this filter, as the engine's `filter` dictionary holds
    /// them.
    pub fn to_json(&self) -> (j: Json)
        ensures
            j.deep_view() == token_filter_settings(self.deep_view()),
    {
        let mut entries: Vec<(String, Json)> = Vec::new();
        match self {
            TokenFilterType::Lowercase => {
                put(&mut entries, "type", Json::text("lowercase"));
            },
            TokenFilterType::Stemmer { language } => {
                put(&mut entries, "type", Json::text("stemmer"));
                put(&mut entries, "language", Json::Text(language.name()));
            },
            TokenFilterType::SynonymGraph { expand, lenient, synonyms } => {
                let mut texts: Vec<String> = Vec::new();
                let mut i: usize = 0;
                while i < synonyms.len()
                    invariant
                        i <= synonyms.len(),
                        texts.len() == i,
                        forall|k: int|
                            0 <= k < i ==> texts[k]@ == synonym_text(synonyms[k].deep_view()),
                    decreases synonyms.len() - i,
                {
                    texts.push(synonyms[i].text());
                    i += 1;
                }
                assert(texts.deep_view() =~= synonyms.deep_view().map_values(
                    |s: SynonymModel| synonym_text(s),
                ));
                put(&mut entries, "type", Json::text("synonym_graph"));
                put(&mut entries, "expand", Json::Bool(*expand));
                put(&mut entries, "lenient", Json::Bool(*lenient));
                put(&mut entries, "synonyms", Json::strings(&texts));
            },
            TokenFilterType::FlattenGraph => {
                put(&mut entries, "type", Json::text("flatten_graph"));
            },
            TokenFilterType::Reverse => {
                put(&mut entries, "type", Json::text("reverse"));
            },
            TokenFilterType::Shingle {
                max_shingle_size,
                min_shingle_size,
                output_unigrams,
                output_unigrams_if_no_shingles,
                token_separator,
                filler_token,
            } => {
                put(&mut entries, "type", Json::text("shingle"));
                put(&mut entries, "max_shingle_size", Json::Number(*max_shingle_size as u64));
                put(&mut entries, "min_shingle_size", Json::Number(*min_shingle_size as u64));
                put(&mut entries, "output_unigrams", Json::Bool(*output_unigrams));
                put(
                    &mut entries,
                    "output_unigrams_if_no_shingles",
                    Json::Bool(*output_unigrams_if_no_shingles),
                );
                put(&mut entries, "token_separator", Json::text(token_separator.as_str()));
                put(&mut entries, "filler_token", Json::text(filler_token.as_str()));
            },
        }
        Json::object(entries)
    }
}

impl Clone for Synonym {
    fn clone(&self) -> (r: Self)
        ensures
            r.deep_view() == self.deep_view(),
    {
        Synonym { from: clone_strings(&self.from), to: clone_strings(&self.to) }
    }
}

impl Clone for TokenFilterType {
    fn clone(&self) -> (r: Self)
        ensures
            r.deep_view() == self.deep_view(),
    {
        match self {
            TokenFilterType::Lowercase => TokenFilterType::Lowercase,
            TokenFilterType::Stemmer { language } => TokenFilterType::Stemmer {
                language: *language,
            },
            TokenFilterType::SynonymGraph { expand, lenient, synonyms } => {
                let mut out: Vec<Synonym> = Vec::new();
                let mut i: usize = 0;
                while i < synonyms.len()
                    invariant
                        i <= synonyms.len(),
                        out.len() == i,
                        forall|k: int| 0 <= k < i ==> out[k].deep_view() == synonyms[k].deep_view(),
                    decreases synonyms.len() - i,
                {
                    out.push(synonyms[i].clone());
                    i += 1;
                }
                assert(out.deep_view() =~= synonyms.deep_view());
                TokenFilterType::SynonymGraph { expand: *expand, lenient: *lenient, synonyms: out }
            },
            TokenFilterType::FlattenGraph => TokenFilterType::FlattenGraph,
            TokenFilterType::Reverse => TokenFilterType::Reverse,
            TokenFilterType::Shingle {
                max_shingle_size,
                min_shingle_size,
                output_unigrams,
                output_unigrams_if_no_shingles,
                token_separator,
                filler_token,
            } => TokenFilterType::Shingle {
                max_shingle_size: *max_shingle_size,
                min_shingle_size: *min_shingle_size,
                output_unigrams: *output_unigrams,
                output_unigrams_if_no_shingles: *output_unigrams_if_no_shingles,
                token_separator: token_separator.clone(),
                filler_token: filler_token.clone(),
            },
        }
    }
}

impl Clone for TokenFilter {
    fn clone(&self) -> (r: Self)
        ensures
            r.deep_view() == self.deep_view(),
    {
        TokenFilter { name: self.name.clone(), filter_type: self.filter_type.clone() }
    }
}

impl Definition for TokenFilterType {
    open spec fn settings(model: TokenFilterTypeModel) -> JsonModel {
        token_filter_settings(model)
    }

    fn settings_json(&self) -> (j: Json) {
        self.to_json()
    }
}

} // verus!
