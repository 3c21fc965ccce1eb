use sedk::text::{arrow_string, join_strings};
use sedk::{
    serialize_fields, serialize_flags, serialize_keyword, serialize_mappings, serialize_text,
    Analyzer, CharacterFilter, CharacterFilterType, CharacterGroups, Field, FieldType, Json,
    Normalizer, RegexFlag, StemmerLanguage, Synonym, TokenFilter, TokenFilterType, Tokenizer,
    TokenizerType,
};

fn strings(items: &[&str]) -> Vec<String> {
    items.iter().map(|s| s.to_string()).collect()
}

fn text(s: &str) -> Json {
    Json::Text(s.to_string())
}

fn entry(key: &str, value: Json) -> (String, Json) {
    (key.to_string(), value)
}

#[test]
fn joining_puts_the_separator_between_neighbours() {
    assert_eq!(join_strings(&strings(&[]), "|"), "");
    assert_eq!(join_strings(&strings(&["a"]), "|"), "a");
    assert_eq!(join_strings(&strings(&["a", "b"]), "|"), "a|b");
    assert_eq!(join_strings(&strings(&["a", "", "c"]), ", "), "a, , c");
    assert_eq!(join_strings(&strings(&["", ""]), "-"), "-");
}

#[test]
fn a_rule_is_written_with_an_arrow() {
    assert_eq!(arrow_string("from", "to"), "from => to");
    assert_eq!(arrow_string("", ""), " => ");
}

#[test]
fn every_regex_flag_has_its_name() {
    let cases = [
        (RegexFlag::CannonEq, "CANNON_EQ"),
        (RegexFlag::CaseInsensitive, "CASE_INSENSITIVE"),
        (RegexFlag::Comments, "COMMENTS"),
        (RegexFlag::Dotall, "DOTALL"),
        (RegexFlag::Literal, "LITERAL"),
        (RegexFlag::Multiline, "MULTILINE"),
        (RegexFlag::UnicodeCase, "UNICODE_CASE"),
        (RegexFlag::UnicodeCharacterClass, "UNICODE_CHARACTER_CLASS"),
        (RegexFlag::UnixLines, "UNIX_LINES"),
    ];
    for (flag, name) in cases {
        assert_eq!(String::from(&flag), name);
        assert_eq!(flag.name(), name);
    }
}

#[test]
fn flags_are_joined_by_bars() {
    assert_eq!(serialize_flags(&vec![]), "");
    assert_eq!(serialize_flags(&vec![RegexFlag::Dotall]), "DOTALL");
    assert_eq!(
        serialize_flags(&vec![RegexFlag::UnixLines, RegexFlag::UnicodeCharacterClass]),
        "UNIX_LINES|UNICODE_CHARACTER_CLASS"
    );
    assert_eq!(
        serialize_flags(&vec![RegexFlag::Comments, RegexFlag::Comments, RegexFlag::Literal]),
        "COMMENTS|COMMENTS|LITERAL"
    );
}

#[test]
fn mappings_are_written_as_rules() {
    assert_eq!(serialize_mappings(&vec![]), Vec::<String>::new());
    assert_eq!(
        serialize_mappings(&vec![
            ("a".to_string(), "b".to_string()),
            ("".to_string(), "x y".to_string())
        ]),
        strings(&["a => b", " => x y"])
    );
}

#[test]
fn every_character_group_has_its_name() {
    let cases = [
        (CharacterGroups::Whitespace, "whitespace"),
        (CharacterGroups::Letter, "letter"),
        (CharacterGroups::Digit, "digit"),
        (CharacterGroups::Punctuation, "punctuation"),
        (CharacterGroups::Symbol, "symbol"),
        (CharacterGroups::Arbitrary('-'), "-"),
        (CharacterGroups::Arbitrary('\n'), "\n"),
        (CharacterGroups::Arbitrary('é'), "é"),
        (CharacterGroups::Arbitrary('\u{1F600}'), "\u{1F600}"),
    ];
    for (group, name) in cases {
        assert_eq!(group.name(), name);
        assert_eq!(group.to_json(), text(name));
    }
}

#[test]
fn every_stemmer_has_its_name() {
    let cases = [
        (StemmerLanguage::Arabic, "arabic"),
        (StemmerLanguage::Armenian, "armenian"),
        (StemmerLanguage::Basque, "basque"),
        (StemmerLanguage::Bengali, "bengali"),
        (StemmerLanguage::Brazilian, "brazilian"),
        (StemmerLanguage::Bulgarian, "bulgarian"),
        (StemmerLanguage::Catalan, "catalan"),
        (StemmerLanguage::Czech, "czech"),
        (StemmerLanguage::Danish, "danish"),
        (StemmerLanguage::Dutch, "dutch"),
        (StemmerLanguage::DutchKp, "dutch_kp"),
        (StemmerLanguage::English, "english"),
        (StemmerLanguage::LightEnglish, "light_english"),
        (StemmerLanguage::Lovins, "lovins"),
        (StemmerLanguage::MinimalEnglish, "minimal_english"),
        (StemmerLanguage::Porter2, "porter2"),
        (StemmerLanguage::PossessiveEnglish, "possessive_english"),
        (StemmerLanguage::Estonian, "estonian"),
        (StemmerLanguage::Finnish, "finnish"),
        (StemmerLanguage::LightFinnish, "light_finnish"),
        (StemmerLanguage::French, "french"),
        (StemmerLanguage::LightFrench, "light_french"),
        (StemmerLanguage::MinimalFrench, "minimal_french"),
        (StemmerLanguage::Galician, "galician"),
        (StemmerLanguage::MinimalGalician, "minimal_galician"),
        (StemmerLanguage::German, "german"),
        (StemmerLanguage::LightGerman, "light_german"),
        (StemmerLanguage::German2, "german2"),
        (StemmerLanguage::MinimalGerman, "minimal_german"),
        (StemmerLanguage::Greek, "greek"),
        (StemmerLanguage::Hindi, "hindi"),
        (StemmerLanguage::Hungarian, "hungarian"),
        (StemmerLanguage::LightHungarian, "light_hungarian"),
        (StemmerLanguage::Indonesian, "indonesian"),
        (StemmerLanguage::Irish, "irish"),
        (StemmerLanguage::Italian, "italian"),
        (StemmerLanguage::LightItalian, "light_italian"),
        (StemmerLanguage::Sorani, "sorani"),
        (StemmerLanguage::Latvian, "latvian"),
        (StemmerLanguage::Lithuanian, "lithuanian"),
        (StemmerLanguage::Norwegian, "norwegian"),
        (StemmerLanguage::LightNorwegian, "light_norwegian"),
        (StemmerLanguage::MinimalNorwegian, "minimal_norwegian"),
        (StemmerLanguage::LightNynorsk, "light_nynorsk"),
        (StemmerLanguage::MinimalNynorsk, "minimal_nynorsk"),
        (StemmerLanguage::Portueguese, "portueguese"),
        (StemmerLanguage::LightPortuguese, "light_portuguese"),
        (StemmerLanguage::MinimalPortuguese, "minimal_portuguese"),
        (StemmerLanguage::PortugueseRslp, "portuguese_rslp"),
        (StemmerLanguage::Romanian, "romanian"),
        (StemmerLanguage::Russian, "russian"),
        (StemmerLanguage::LightRussian, "light_russian"),
        (StemmerLanguage::Spanish, "spanish"),
        (StemmerLanguage::LightSpanish, "light_spanish"),
        (StemmerLanguage::Swedish, "swedish"),
        (StemmerLanguage::LightSwedish, "light_swedish"),
        (StemmerLanguage::Turkish, "turkish"),
    ];
    assert_eq!(cases.len(), 57);
    for (language, name) in cases {
        assert_eq!(language.name(), name);
    }
}

#[test]
fn every_kind_of_field_has_its_tag() {
    let cases = [
        (FieldType::Binary, "binary"),
        (FieldType::Boolean, "boolean"),
        (FieldType::Keyword { normalizer: Normalizer::default() }, "keyword"),
        (FieldType::Text { analyzer: Analyzer::default() }, "text"),
        (FieldType::Date, "date"),
        (FieldType::Long, "long"),
        (FieldType::Integer, "integer"),
        (FieldType::Short, "short"),
        (FieldType::Byte, "byte"),
        (FieldType::Double, "double"),
        (FieldType::Float, "float"),
        (FieldType::HalfFloat, "half_float"),
        (FieldType::ScaledFloat, "scaled_float"),
        (FieldType::UnsignedLong, "unsigned_long"),
    ];
    for (field_type, tag) in cases {
        assert_eq!(field_type.tag(), tag);
        match field_type.to_json() {
            Json::Object(entries) => assert_eq!(entries[0], entry("type", text(tag))),
            other => panic!("not an object: {:?}", other),
        }
    }
    assert_eq!(FieldType::Date.to_json(), Json::Object(vec![entry("type", text("date"))]));
}

#[test]
fn synonyms_are_written_with_commas_and_an_arrow() {
    let synonym = Synonym { from: strings(&["short", "small", "little"]), to: strings(&["small"]) };
    assert_eq!(synonym.text(), "short,small,little => small");
    assert_eq!(synonym.to_json(), text("short,small,little => small"));
    let many = Synonym { from: strings(&["a", "b"]), to: strings(&["c", "d"]) };
    assert_eq!(many.text(), "a,b => c,d");
    let none = Synonym { from: vec![], to: vec![] };
    assert_eq!(none.text(), " => ");
}

#[test]
fn token_filters_without_settings_show_their_kind_only() {
    assert_eq!(
        TokenFilterType::FlattenGraph.to_json(),
        Json::Object(vec![entry("type", text("flatten_graph"))])
    );
    assert_eq!(
        TokenFilterType::Reverse.to_json(),
        Json::Object(vec![entry("type", text("reverse"))])
    );
}

#[test]
fn shingle_sizes_are_numbers() {
    let shingle = TokenFilterType::Shingle {
        max_shingle_size: 255,
        min_shingle_size: 0,
        output_unigrams: true,
        output_unigrams_if_no_shingles: false,
        token_separator: " ".to_string(),
        filler_token: "_".to_string(),
    };
    assert_eq!(
        shingle.to_json(),
        Json::Object(vec![
            entry("type", text("shingle")),
            entry("max_shingle_size", Json::Number(255)),
            entry("min_shingle_size", Json::Number(0)),
            entry("output_unigrams", Json::Bool(true)),
            entry("output_unigrams_if_no_shingles", Json::Bool(false)),
            entry("token_separator", text(" ")),
            entry("filler_token", text("_")),
        ])
    );
}

#[test]
fn an_analyzer_from_a_normalizer_takes_its_filters_and_tokenizer() {
    let normalizer = Normalizer {
        name: "n".to_string(),
        character_filters: vec![CharacterFilter {
            name: "strip".to_string(),
            character_filter_type: CharacterFilterType::HtmlStrip {
                escaped_tags: strings(&["b", "i"]),
            },
        }],
        tokenizer: Tokenizer {
            name: "t".to_string(),
            tokenizer_type: TokenizerType::CharacterGroup {
                tokenize_on_chars: vec![CharacterGroups::Letter, CharacterGroups::Arbitrary('x')],
            },
        },
    };
    let filters =
        vec![TokenFilter { name: "lower".to_string(), filter_type: TokenFilterType::Lowercase }];
    let analyzer = Analyzer::from_normalizer(&normalizer, "a".to_string(), filters.clone());
    assert_eq!(analyzer.name, "a");
    assert_eq!(analyzer.character_filters, normalizer.character_filters);
    assert_eq!(analyzer.tokenizer, normalizer.tokenizer);
    assert_eq!(analyzer.token_filters, filters);
    assert_eq!(normalizer.tokenizer(), normalizer.tokenizer);
    assert_eq!(normalizer.character_filters(), normalizer.character_filters);
}

#[test]
fn the_defaults_split_on_whitespace() {
    let tokenizer = Tokenizer::default();
    assert_eq!(tokenizer.name, "sedk_default_tokenizer");
    assert_eq!(
        tokenizer.tokenizer_type,
        TokenizerType::CharacterGroup { tokenize_on_chars: vec![CharacterGroups::Whitespace] }
    );
    let normalizer = Normalizer::default();
    assert_eq!(normalizer.name, "sedk_default_normalizer");
    assert!(normalizer.character_filters.is_empty());
    assert_eq!(normalizer.tokenizer, tokenizer);
    let analyzer = Analyzer::default();
    assert_eq!(analyzer.name, "sedk_default_normalizer");
    assert!(analyzer.character_filters.is_empty());
    assert!(analyzer.token_filters.is_empty());
    assert_eq!(analyzer.tokenizer, tokenizer);
}

#[test]
fn copies_are_equal_to_what_they_copy() {
    let analyzer = Analyzer::from_normalizer(
        &Normalizer::default(),
        "a".to_string(),
        vec![TokenFilter {
            name: "syn".to_string(),
            filter_type: TokenFilterType::SynonymGraph {
                expand: true,
                lenient: false,
                synonyms: vec![Synonym { from: strings(&["x"]), to: strings(&["y", "z"]) }],
            },
        }],
    );
    let field = Field {
        name: "f".to_string(),
        field_type: FieldType::Text { analyzer },
        fields: vec![Field {
            name: "g".to_string(),
            field_type: FieldType::Keyword { normalizer: Normalizer::default() },
            fields: vec![],
        }],
    };
    assert_eq!(field.clone(), field);
    let filter = CharacterFilterType::PatternReplace {
        pattern: "p".to_string(),
        replacement: "r".to_string(),
        flags: vec![RegexFlag::Multiline],
    };
    assert_eq!(filter.clone(), filter);
}

#[test]
fn unit_references_are_written_into_the_entries() {
    let mut entries = vec![entry("type", text("keyword"))];
    serialize_keyword(&Normalizer::default(), &mut entries);
    assert_eq!(
        entries,
        vec![entry("type", text("keyword")), entry("normalizer", text("sedk_default_normalizer"))]
    );
    let mut entries = Vec::new();
    serialize_text(&Analyzer::default(), &mut entries);
    assert_eq!(entries, vec![entry("analyzer", text("sedk_default_normalizer"))]);
}

#[test]
fn fields_are_written_under_their_names() {
    let fields = vec![
        Field { name: "a".to_string(), field_type: FieldType::Byte, fields: vec![] },
        Field { name: "b".to_string(), field_type: FieldType::HalfFloat, fields: vec![] },
    ];
    assert_eq!(
        serialize_fields(&fields),
        Json::Object(vec![
            entry(
                "a",
                Json::Object(vec![
                    entry("type", text("byte")),
                    entry("fields", Json::Object(vec![]))
                ])
            ),
            entry(
                "b",
                Json::Object(vec![
                    entry("type", text("half_float")),
                    entry("fields", Json::Object(vec![]))
                ])
            ),
        ])
    );
    assert_eq!(serialize_fields(&[]), Json::Object(vec![]));
}

#[test]
fn json_helpers_build_what_they_say() {
    assert_eq!(Json::text("x"), text("x"));
    assert_eq!(Json::strings(&strings(&["a", "b"])), Json::Array(vec![text("a"), text("b")]));
    assert_eq!(Json::strings(&vec![]), Json::Array(vec![]));
    let mut entries = Vec::new();
    sedk::json::put(&mut entries, "k", Json::Bool(true));
    assert_eq!(Json::object(entries), Json::Object(vec![entry("k", Json::Bool(true))]));
}
