use sedk::{
    process_fields, AnalysisDTO, Analyzer, CharacterFilter, CharacterFilterType, CharacterGroups,
    Dictionary, Field, FieldType, IndexMapping, IndexMappingDTO, IntoFields, Json, Normalizer,
    StemmerLanguage, TokenFilter, TokenFilterType, Tokenizer, TokenizerType,
};
use serde_json::{from_str, Value};

fn as_value(j: &Json) -> Value {
    match j {
        Json::Bool(b) => Value::Bool(*b),
        Json::Number(n) => Value::Number((*n).into()),
        Json::Text(s) => Value::String(s.clone()),
        Json::Array(items) => Value::Array(items.iter().map(as_value).collect()),
        Json::Object(entries) => {
            let mut map = serde_json::Map::new();
            for (key, value) in entries {
                map.insert(key.clone(), as_value(value));
            }
            Value::Object(map)
        }
    }
}

fn parsed(text: &str) -> Value {
    from_str(text).unwrap()
}

fn char_filter(name: &str, from: &str, to: &str) -> CharacterFilter {
    CharacterFilter {
        name: name.to_string(),
        character_filter_type: CharacterFilterType::Mapping {
            mappings: vec![(from.to_string(), to.to_string())],
        },
    }
}

fn tokenizer(name: &str, group: CharacterGroups) -> Tokenizer {
    Tokenizer {
        name: name.to_string(),
        tokenizer_type: TokenizerType::CharacterGroup { tokenize_on_chars: vec![group] },
    }
}

fn my_normalizer() -> Normalizer {
    Normalizer {
        name: "my_normalizer".to_string(),
        character_filters: vec![char_filter("my_char_filter", "-", "_")],
        tokenizer: tokenizer("my_tokenizer", CharacterGroups::Whitespace),
    }
}

fn leaf(name: &str, field_type: FieldType) -> Field {
    Field { name: name.to_string(), field_type, fields: vec![] }
}

fn names<V: sedk::Definition>(dict: &Dictionary<V>) -> Vec<String> {
    let mut names: Vec<String> = dict.entries().iter().map(|(name, _)| name.clone()).collect();
    names.sort();
    names
}

fn collected(fields: &[Field]) -> AnalysisDTO {
    let mut analysis = AnalysisDTO::new();
    process_fields(fields, &mut analysis);
    analysis
}

#[test]
fn round_trip_of_a_float_and_a_keyword_field() {
    let index = IndexMapping {
        fields: vec![
            Field {
                name: "number".to_string(),
                field_type: FieldType::Float,
                fields: vec![leaf("int", FieldType::Integer)],
            },
            leaf("keyword", FieldType::Keyword { normalizer: my_normalizer() }),
        ],
    };
    let document = as_value(&index.to_json());
    assert_eq!(
        document.pointer("/analysis/normalizer/my_normalizer"),
        Some(&parsed(r#"{"char_filter":["my_char_filter"], "tokenizer":"my_tokenizer"}"#))
    );
    assert_eq!(
        document.pointer("/analysis/char_filter/my_char_filter"),
        Some(&parsed(r#"{"type":"mapping","mappings":["- => _"]}"#))
    );
    assert_eq!(
        document.pointer("/mappings/properties/keyword"),
        Some(&parsed(r#"{"type":"keyword","normalizer":"my_normalizer","fields":{}}"#))
    );
    assert_eq!(
        document,
        parsed(
            r#"{
                "analysis": {
                    "analyzer": {},
                    "filter": {},
                    "char_filter": {
                        "my_char_filter": {"type": "mapping", "mappings": ["- => _"]}
                    },
                    "tokenizer": {
                        "my_tokenizer": {"type": "char_group", "tokenize_on_chars": ["whitespace"]}
                    },
                    "normalizer": {
                        "my_normalizer": {
                            "char_filter": ["my_char_filter"],
                            "tokenizer": "my_tokenizer"
                        }
                    }
                },
                "mappings": {
                    "properties": {
                        "number": {
                            "type": "float",
                            "fields": {"int": {"type": "integer", "fields": {}}}
                        },
                        "keyword": {
                            "type": "keyword",
                            "normalizer": "my_normalizer",
                            "fields": {}
                        }
                    }
                }
            }"#
        )
    );
}

#[test]
fn two_analyzers_are_collected_without_mixing() {
    let first = Analyzer {
        name: "first".to_string(),
        character_filters: vec![char_filter("dashes", "-", "_")],
        tokenizer: tokenizer("on_space", CharacterGroups::Whitespace),
        token_filters: vec![TokenFilter {
            name: "lower".to_string(),
            filter_type: TokenFilterType::Lowercase,
        }],
    };
    let second = Analyzer {
        name: "second".to_string(),
        character_filters: vec![char_filter("dots", ".", " "), char_filter("commas", ",", " ")],
        tokenizer: tokenizer("on_digits", CharacterGroups::Digit),
        token_filters: vec![
            TokenFilter {
                name: "stem".to_string(),
                filter_type: TokenFilterType::Stemmer { language: StemmerLanguage::English },
            },
            TokenFilter { name: "backwards".to_string(), filter_type: TokenFilterType::Reverse },
        ],
    };
    let fields = vec![
        leaf("title", FieldType::Text { analyzer: first.clone() }),
        leaf("body", FieldType::Text { analyzer: second.clone() }),
    ];
    let analysis = collected(&fields);

    assert_eq!(names(&analysis.analyzer), ["first", "second"]);
    assert_eq!(names(&analysis.tokenizer), ["on_digits", "on_space"]);
    assert_eq!(names(&analysis.char_filter), ["commas", "dashes", "dots"]);
    assert_eq!(names(&analysis.filter), ["backwards", "lower", "stem"]);
    assert_eq!(analysis.normalizer.len(), 0);

    assert_eq!(analysis.analyzer.get("first"), Some(&first));
    assert_eq!(analysis.analyzer.get("second"), Some(&second));
    assert_eq!(analysis.tokenizer.get("on_space"), Some(&first.tokenizer.tokenizer_type));
    assert_eq!(analysis.tokenizer.get("on_digits"), Some(&second.tokenizer.tokenizer_type));
    assert_eq!(
        analysis.char_filter.get("dashes"),
        Some(&first.character_filters[0].character_filter_type)
    );
    assert_eq!(
        analysis.char_filter.get("dots"),
        Some(&second.character_filters[0].character_filter_type)
    );
    assert_eq!(
        analysis.char_filter.get("commas"),
        Some(&second.character_filters[1].character_filter_type)
    );
    assert_eq!(analysis.filter.get("lower"), Some(&TokenFilterType::Lowercase));
    assert_eq!(
        analysis.filter.get("stem"),
        Some(&TokenFilterType::Stemmer { language: StemmerLanguage::English })
    );
    assert_eq!(analysis.filter.get("backwards"), Some(&TokenFilterType::Reverse));

    assert_eq!(
        as_value(&analysis.to_json()),
        parsed(
            r#"{
                "char_filter": {
                    "dashes": {"type": "mapping", "mappings": ["- => _"]},
                    "dots": {"type": "mapping", "mappings": [". =>  "]},
                    "commas": {"type": "mapping", "mappings": [", =>  "]}
                },
                "tokenizer": {
                    "on_space": {"type": "char_group", "tokenize_on_chars": ["whitespace"]},
                    "on_digits": {"type": "char_group", "tokenize_on_chars": ["digit"]}
                },
                "filter": {
                    "lower": {"type": "lowercase"},
                    "stem": {"type": "stemmer", "language": "english"},
                    "backwards": {"type": "reverse"}
                },
                "normalizer": {},
                "analyzer": {
                    "first": {
                        "char_filter": ["dashes"],
                        "tokenizer": "on_space",
                        "filter": ["lower"]
                    },
                    "second": {
                        "char_filter": ["dots", "commas"],
                        "tokenizer": "on_digits",
                        "filter": ["stem", "backwards"]
                    }
                }
            }"#
        )
    );
}

#[test]
fn only_keyword_and_text_fields_contribute() {
    let scalars = vec![
        FieldType::Binary,
        FieldType::Boolean,
        FieldType::Date,
        FieldType::Long,
        FieldType::Integer,
        FieldType::Short,
        FieldType::Byte,
        FieldType::Double,
        FieldType::Float,
        FieldType::HalfFloat,
        FieldType::ScaledFloat,
        FieldType::UnsignedLong,
    ];
    for field_type in scalars {
        let analysis = collected(&[leaf("f", field_type)]);
        assert_eq!(analysis.char_filter.len(), 0);
        assert_eq!(analysis.tokenizer.len(), 0);
        assert_eq!(analysis.filter.len(), 0);
        assert_eq!(analysis.normalizer.len(), 0);
        assert_eq!(analysis.analyzer.len(), 0);
    }

    let keyword = collected(&[leaf("k", FieldType::Keyword { normalizer: my_normalizer() })]);
    assert_eq!(names(&keyword.normalizer), ["my_normalizer"]);
    assert_eq!(keyword.normalizer.get("my_normalizer"), Some(&my_normalizer()));
    assert_eq!(keyword.analyzer.len(), 0);
    assert_eq!(keyword.filter.len(), 0);

    let analyzer = Analyzer::from_normalizer(&my_normalizer(), "my_analyzer".to_string(), vec![]);
    let text = collected(&[leaf("t", FieldType::Text { analyzer: analyzer.clone() })]);
    assert_eq!(names(&text.analyzer), ["my_analyzer"]);
    assert_eq!(text.analyzer.get("my_analyzer"), Some(&analyzer));
    assert_eq!(text.normalizer.len(), 0);
}

#[test]
fn fields_refer_to_their_unit_by_name_only() {
    let keyword = leaf("k", FieldType::Keyword { normalizer: my_normalizer() });
    assert_eq!(
        as_value(&keyword.to_json()),
        parsed(r#"{"type": "keyword", "normalizer": "my_normalizer", "fields": {}}"#)
    );
    let analyzer = Analyzer::from_normalizer(&my_normalizer(), "my_analyzer".to_string(), vec![]);
    let text = leaf("t", FieldType::Text { analyzer });
    assert_eq!(
        as_value(&text.to_json()),
        parsed(r#"{"type": "text", "analyzer": "my_analyzer", "fields": {}}"#)
    );
    assert_eq!(
        as_value(&text.field_type.to_json()),
        parsed(r#"{"type": "text", "analyzer": "my_analyzer"}"#)
    );
}

#[test]
fn units_of_nested_fields_are_collected() {
    let analyzer = Analyzer::from_normalizer(&my_normalizer(), "deep".to_string(), vec![]);
    let tree = vec![Field {
        name: "a".to_string(),
        field_type: FieldType::Long,
        fields: vec![Field {
            name: "b".to_string(),
            field_type: FieldType::Date,
            fields: vec![leaf("c", FieldType::Text { analyzer: analyzer.clone() })],
        }],
    }];
    let analysis = collected(&tree);
    assert_eq!(analysis.analyzer.get("deep"), Some(&analyzer));
    assert_eq!(names(&analysis.tokenizer), ["my_tokenizer"]);
    assert_eq!(names(&analysis.char_filter), ["my_char_filter"]);
}

#[test]
fn a_parent_is_written_after_its_children() {
    let child = Normalizer {
        name: "same".to_string(),
        character_filters: vec![],
        tokenizer: tokenizer("child_tokenizer", CharacterGroups::Letter),
    };
    let parent = Normalizer {
        name: "same".to_string(),
        character_filters: vec![],
        tokenizer: tokenizer("parent_tokenizer", CharacterGroups::Digit),
    };
    let tree = vec![Field {
        name: "p".to_string(),
        field_type: FieldType::Keyword { normalizer: parent.clone() },
        fields: vec![leaf("c", FieldType::Keyword { normalizer: child })],
    }];
    let analysis = collected(&tree);
    assert_eq!(analysis.normalizer.len(), 1);
    assert_eq!(analysis.normalizer.get("same"), Some(&parent));
    assert_eq!(names(&analysis.tokenizer), ["child_tokenizer", "parent_tokenizer"]);
}

#[test]
fn a_later_definition_replaces_an_earlier_one_of_the_same_name() {
    let earlier = Normalizer {
        name: "shared".to_string(),
        character_filters: vec![char_filter("cf", "a", "b")],
        tokenizer: tokenizer("t", CharacterGroups::Letter),
    };
    let later = Normalizer {
        name: "shared".to_string(),
        character_filters: vec![char_filter("cf", "c", "d")],
        tokenizer: tokenizer("t", CharacterGroups::Symbol),
    };
    let analysis = collected(&[
        leaf("one", FieldType::Keyword { normalizer: earlier }),
        leaf("two", FieldType::Keyword { normalizer: later.clone() }),
    ]);
    assert_eq!(analysis.normalizer.len(), 1);
    assert_eq!(analysis.normalizer.get("shared"), Some(&later));
    assert_eq!(analysis.tokenizer.len(), 1);
    assert_eq!(analysis.tokenizer.get("t"), Some(&later.tokenizer.tokenizer_type));
    assert_eq!(analysis.char_filter.len(), 1);
    assert_eq!(
        analysis.char_filter.get("cf"),
        Some(&later.character_filters[0].character_filter_type)
    );
}

#[test]
fn the_same_definition_twice_is_one_entry() {
    let analysis = collected(&[
        leaf("one", FieldType::Keyword { normalizer: my_normalizer() }),
        leaf("two", FieldType::Keyword { normalizer: my_normalizer() }),
    ]);
    let once = collected(&[leaf("one", FieldType::Keyword { normalizer: my_normalizer() })]);
    assert_eq!(analysis.normalizer.len(), 1);
    assert_eq!(analysis.tokenizer.len(), 1);
    assert_eq!(analysis.char_filter.len(), 1);
    assert_eq!(as_value(&analysis.to_json()), as_value(&once.to_json()));
}

#[test]
fn dictionary_insertion_is_idempotent() {
    let mut dict: Dictionary<TokenFilterType> = Dictionary::new();
    assert_eq!(dict.len(), 0);
    assert_eq!(dict.get("lower"), None);
    dict.insert("lower".to_string(), TokenFilterType::Lowercase);
    assert_eq!(dict.len(), 1);
    dict.insert("lower".to_string(), TokenFilterType::Lowercase);
    assert_eq!(dict.len(), 1);
    assert_eq!(dict.entries().len(), 1);
    assert_eq!(dict.get("lower"), Some(&TokenFilterType::Lowercase));
    assert_eq!(as_value(&dict.to_json()), parsed(r#"{"lower": {"type": "lowercase"}}"#));
}

#[test]
fn dictionary_keeps_the_last_value_written_under_a_name() {
    let mut dict: Dictionary<TokenFilterType> = Dictionary::new();
    dict.insert("a".to_string(), TokenFilterType::Lowercase);
    dict.insert("b".to_string(), TokenFilterType::Reverse);
    dict.insert("a".to_string(), TokenFilterType::FlattenGraph);
    assert_eq!(dict.len(), 2);
    assert_eq!(dict.get("a"), Some(&TokenFilterType::FlattenGraph));
    assert_eq!(dict.get("b"), Some(&TokenFilterType::Reverse));
    assert_eq!(dict.get("c"), None);
    let order: Vec<&str> = dict.entries().iter().map(|(name, _)| name.as_str()).collect();
    assert_eq!(order, ["a", "b"]);
    assert_eq!(
        as_value(&dict.to_json()),
        parsed(r#"{"a": {"type": "flatten_graph"}, "b": {"type": "reverse"}}"#)
    );
}

#[test]
fn default_units_share_a_name_in_separate_dictionaries() {
    let fields = String::into_fields(Some("bio"));
    let analysis = collected(&fields);
    assert_eq!(names(&analysis.analyzer), ["sedk_default_normalizer"]);
    assert_eq!(names(&analysis.normalizer), ["sedk_default_normalizer"]);
    assert_eq!(analysis.analyzer.get("sedk_default_normalizer"), Some(&Analyzer::default()));
    assert_eq!(analysis.normalizer.get("sedk_default_normalizer"), Some(&Normalizer::default()));
    assert_eq!(names(&analysis.tokenizer), ["sedk_default_tokenizer"]);
    assert_eq!(
        as_value(&IndexMapping { fields }.to_json()),
        parsed(
            r#"{
                "analysis": {
                    "char_filter": {},
                    "tokenizer": {
                        "sedk_default_tokenizer": {
                            "type": "char_group",
                            "tokenize_on_chars": ["whitespace"]
                        }
                    },
                    "filter": {},
                    "normalizer": {
                        "sedk_default_normalizer": {
                            "char_filter": [],
                            "tokenizer": "sedk_default_tokenizer"
                        }
                    },
                    "analyzer": {
                        "sedk_default_normalizer": {
                            "char_filter": [],
                            "tokenizer": "sedk_default_tokenizer",
                            "filter": []
                        }
                    }
                },
                "mappings": {
                    "properties": {
                        "bio": {
                            "type": "text",
                            "analyzer": "sedk_default_normalizer",
                            "fields": {
                                "bio.keyword": {
                                    "type": "keyword",
                                    "normalizer": "sedk_default_normalizer",
                                    "fields": {}
                                }
                            }
                        }
                    }
                }
            }"#
        )
    );
}

#[test]
fn of_two_children_with_one_name_the_later_stays() {
    let parent = Field {
        name: "p".to_string(),
        field_type: FieldType::Binary,
        fields: vec![leaf("twin", FieldType::Long), leaf("twin", FieldType::Short)],
    };
    assert_eq!(
        as_value(&parent.to_json()),
        parsed(r#"{"type": "binary", "fields": {"twin": {"type": "short", "fields": {}}}}"#)
    );
}

#[test]
fn an_empty_mapping_has_empty_sections() {
    let index = IndexMapping { fields: vec![] };
    assert_eq!(
        as_value(&index.to_json()),
        parsed(
            r#"{
                "analysis": {
                    "char_filter": {}, "tokenizer": {}, "filter": {},
                    "normalizer": {}, "analyzer": {}
                },
                "mappings": {"properties": {}}
            }"#
        )
    );
}

#[test]
fn the_document_keeps_the_fields_of_the_mapping() {
    let index = IndexMapping {
        fields: vec![
            leaf("k", FieldType::Keyword { normalizer: my_normalizer() }),
            leaf("n", FieldType::Long),
        ],
    };
    let document = IndexMappingDTO::from(index.clone());
    assert_eq!(document.mappings.properties, index.fields);
    assert_eq!(document.analysis.normalizer.get("my_normalizer"), Some(&my_normalizer()));
    assert_eq!(as_value(&document.to_json()), as_value(&index.to_json()));
}

#[test]
fn walking_into_a_filled_section_keeps_what_it_held() {
    let mut analysis = AnalysisDTO::new();
    analysis.filter.insert("kept".to_string(), TokenFilterType::Reverse);
    analysis.normalizer.insert("my_normalizer".to_string(), Normalizer::default());
    process_fields(
        &[leaf("k", FieldType::Keyword { normalizer: my_normalizer() })],
        &mut analysis,
    );
    assert_eq!(analysis.filter.get("kept"), Some(&TokenFilterType::Reverse));
    assert_eq!(analysis.normalizer.len(), 1);
    assert_eq!(analysis.normalizer.get("my_normalizer"), Some(&my_normalizer()));
}
