//! A typed schema builder for search-engine index mappings.
//!
//! Records to be indexed are described as a tree of [`Field`]s.  Keyword and
//! text fields own the normalizer or analyzer that processes them.  From such
//! a tree the crate derives the engine's index-mapping document: a flat,
//! name-keyed `analysis` section holding every definition the tree mentions,
//! and a nested `mappings.properties` section in which each field refers to
//! its analysis unit by name only.
//!
//! Every data type has a mathematical model, reached through `deep_view()`,
//! and every function states over those models what it returns.  Documents
//! are rendered into [`Json`], whose model reads an object as a map.
pub mod aggregate;
pub mod analysis;
pub mod character_filters;
pub mod dictionary;
pub mod field;
pub mod json;
pub mod laws;
pub mod primitives;
pub mod text;
pub mod token_processing;
pub mod tokenizers;

pub use aggregate::{process_fields, AnalysisDTO, IndexMappingDTO, MappingsDTO};
pub use analysis::{Analyzer, Normalizer};
pub use character_filters::{
    serialize_flags, serialize_mappings, CharacterFilter, CharacterFilterType, RegexFlag,
};
pub use dictionary::{Definition, Dictionary};
pub use field::{
    serialize_fields, serialize_keyword, serialize_text, Field, FieldType, IndexMapping,
};
pub use json::Json;
pub use primitives::{
    index_mapping_of, member_name, record_index_mapping, record_into_fields, Indexable,
    IntoFields, Member, MemberType,
};
pub use token_processing::{StemmerLanguage, Synonym, TokenFilter, TokenFilterType};
pub use tokenizers::{CharacterGroups, Tokenizer, TokenizerType};
