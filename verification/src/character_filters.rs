//! Character filters: transforms applied to text before it is tokenized.
use crate::dictionary::Definition;
use crate::json::{put, text_array, Json, JsonModel};
use crate::text::{arrow, arrow_string, clone_strings, join, join_strings};
use vstd::prelude::*;

verus! {

/// A flag of a regular expression, with the meaning that Java's `Pattern`
/// gives it.
#[derive(PartialEq, Eq, Hash, Clone, Copy, Debug)]
pub enum RegexFlag {
    CannonEq,
    CaseInsensitive,
    Comments,
    Dotall,
    Literal,
    Multiline,
    UnicodeCase,
    UnicodeCharacterClass,
    UnixLines,
}

/// What a character filter does.
#[derive(PartialEq, Eq, Hash, Debug)]
pub enum CharacterFilterType {
    HtmlStrip { escaped_tags: Vec<String> },
    Mapping { mappings: Vec<(String, String)> },
    PatternReplace { pattern: String, replacement: String, flags: Vec<RegexFlag> },
}

/// A character filter under its name.  Two filters with one name are taken to
/// be the same filter.
#[derive(PartialEq, Eq, Hash, Debug)]
pub struct CharacterFilter {
    pub name: String,
    pub character_filter_type: CharacterFilterType,
}

/// What a [`CharacterFilterType`] holds, as contracts see it.
pub enum CharacterFilterTypeModel {
    HtmlStrip { escaped_tags: Seq<Seq<char>> },
    Mapping { mappings: Seq<(Seq<char>, Seq<char>)> },
    PatternReplace { pattern: Seq<char>, replacement: Seq<char>, flags: Seq<RegexFlag> },
}

/// What a [`CharacterFilter`] holds, as contracts see it.
pub struct CharacterFilterModel {
    pub name: Seq<char>,
    pub character_filter_type: CharacterFilterTypeModel,
}

impl DeepView for CharacterFilterType {
    type V = CharacterFilterTypeModel;

    open spec fn deep_view(&self) -> CharacterFilterTypeModel {
        match self {
            CharacterFilterType::HtmlStrip { escaped_tags } => CharacterFilterTypeModel::HtmlStrip {
                escaped_tags: escaped_tags.deep_view(),
            },
            CharacterFilterType::Mapping { mappings } => CharacterFilterTypeModel::Mapping {
                mappings: mappings.deep_view(),
            },
            CharacterFilterType::PatternReplace {
                pattern,
                replacement,
                flags,
            } => CharacterFilterTypeModel::PatternReplace {
                pattern: pattern@,
                replacement: replacement@,
                flags: flags@,
            },
        }
    }
}

impl DeepView for CharacterFilter {
    type V = CharacterFilterModel;

    open spec fn deep_view(&self) -> CharacterFilterModel {
        CharacterFilterModel {
            name: self.name@,
            character_filter_type: self.character_filter_type.deep_view(),
        }
    }
}

/// The name under which the engine knows `flag`.
pub open spec fn regex_flag_name(flag: RegexFlag) -> Seq<char> {
    match flag {
        RegexFlag::CannonEq => "CANNON_EQ"@,
        RegexFlag::CaseInsensitive => "CASE_INSENSITIVE"@,
        RegexFlag::Comments => "COMMENTS"@,
        RegexFlag::Dotall => "DOTALL"@,
        RegexFlag::Literal => "LITERAL"@,
        RegexFlag::Multiline => "MULTILINE"@,
        RegexFlag::UnicodeCase => "UNICODE_CASE"@,
        RegexFlag::UnicodeCharacterClass => "UNICODE_CHARACTER_CLASS"@,
        RegexFlag::UnixLines => "UNIX_LINES"@,
    }
}

/// The flags as one string: their names in order, joined by `|`.
pub open spec fn flags_text(flags: Seq<RegexFlag>) -> Seq<char> {
    join(flags.map_values(|f: RegexFlag| regex_flag_name(f)), "|"@)
}

/// The mapping rules as strings, each `from => to`.
pub open spec fn mapping_rules(mappings: Seq<(Seq<char>, Seq<char>)>) -> Seq<Seq<char>> {
    mappings.map_values(|m: (Seq<char>, Seq<char>)| arrow(m.0, m.1))
}

/// The settings of a character filter: its kind under `type`, then what the
/// kind needs.
pub open spec fn character_filter_settings(t: CharacterFilterTypeModel) -> JsonModel {
    match t {
        CharacterFilterTypeModel::HtmlStrip { escaped_tags } => JsonModel::Object(
            Map::empty().insert("type"@, JsonModel::Text("html_strip"@)).insert(
                "escaped_tags"@,
                text_array(escaped_tags),
            ),
        ),
        CharacterFilterTypeModel::Mapping { mappings } => JsonModel::Object(
            Map::empty().insert("type"@, JsonModel::Text("mapping"@)).insert(
                "mappings"@,
                text_array(mapping_rules(mappings)),
            ),
        ),
        CharacterFilterTypeModel::PatternReplace {
            pattern,
            replacement,
            flags,
        } => JsonModel::Object(
            Map::empty().insert("type"@, JsonModel::Text("pattern_replace"@)).insert(
                "pattern"@,
                JsonModel::Text(pattern),
            ).insert("replacement"@, JsonModel::Text(replacement)).insert(
                "flags"@,
                JsonModel::Text(flags_text(flags)),
            ),
        ),
    }
}

impl RegexFlag {
    /// The name under which the engine knows this flag.
    pub fn name(&self) -> (s: String)
        ensures
            s@ == regex_flag_name(*self),
    {
        match self {
            RegexFlag::CannonEq => "CANNON_EQ".to_string(),
            RegexFlag::CaseInsensitive => "CASE_INSENSITIVE".to_string(),
            RegexFlag::Comments => "COMMENTS".to_string(),
            RegexFlag::Dotall => "DOTALL".to_string(),
            RegexFlag::Literal => "LITERAL".to_string(),
            RegexFlag::Multiline => "MULTILINE".to_string(),
            RegexFlag::UnicodeCase => "UNICODE_CASE".to_string(),
            RegexFlag::UnicodeCharacterClass => "UNICODE_CHARACTER_CLASS".to_string(),
            RegexFlag::UnixLines => "UNIX_LINES".to_string(),
        }
    }
}

/// A `String` is known to contracts by its content alone, so what the
/// conversion returns is stated by the `ensures` of `from`, not by `from_spec`.
impl vstd::std_specs::convert::FromSpecImpl<&RegexFlag> for String {
    open spec fn obeys_from_spec() -> bool {
        false
    }

    open spec fn from_spec(flag: &RegexFlag) -> String {
        arbitrary()
    }
}

impl From<&RegexFlag> for String {
    fn from(flag: &RegexFlag) -> (s: String)
        ensures
            s@ == regex_flag_name(*flag),
    {
        flag.name()
    }
}

/// Renders the flags as one string, joined by `|`.
pub fn serialize_flags(flags: &Vec<RegexFlag>) -> (s: String)
    ensures
        s@ == flags_text(flags@),
{
    let mut names: Vec<String> = Vec::new();
    let mut i: usize = 0;
    while i < flags.len()
        invariant
            i <= flags.len(),
            names.len() == i,
            forall|k: int| 0 <= k < i ==> names[k]@ == regex_flag_name(flags[k]),
        decreases flags.len() - i,
    {
        names.push(flags[i].name());
        i += 1;
    }
    assert(names.deep_view() =~= flags@.map_values(|f: RegexFlag| regex_flag_name(f)));
    join_strings(&names, "|")
}

/// Renders each mapping rule as `from => to`.
pub fn serialize_mappings(mappings: &Vec<(String, String)>) -> (rules: Vec<String>)
    ensures
        rules.deep_view() == mapping_rules(mappings.deep_view()),
{
    let mut rules: Vec<String> = Vec::new();
    let mut i: usize = 0;
    while i < mappings.len()
        invariant
            i <= mappings.len(),
            rules.len() == i,
            forall|k: int| 0 <= k < i ==> rules[k]@ == arrow(mappings[k].0@, mappings[k].1@),
        decreases mappings.len() - i,
    {
        rules.push(arrow_string(mappings[i].0.as_str(), mappings[i].1.as_str()));
        i += 1;
    }
    assert(rules.deep_view() =~= mapping_rules(mappings.deep_view()));
    rules
}

impl CharacterFilterType {
    /// The settings of this filter, as the engine's `char_filter` dictionary
    /// holds them.
    pub fn to_json(&self) -> (j: Json)
        ensures
            j.deep_view() == character_filter_settings(self.deep_view()),
    {
        let mut entries: Vec<(String, Json)> = Vec::new();
        match self {
            CharacterFilterType::HtmlStrip { escaped_tags } => {
                put(&mut entries, "type", Json::text("html_strip"));
                put(&mut entries, "escaped_tags", Json::strings(escaped_tags));
            },
            CharacterFilterType::Mapping { mappings } => {
                let rules = serialize_mappings(mappings);
                put(&mut entries, "type", Json::text("mapping"));
                put(&mut entries, "mappings", Json::strings(&rules));
            },
            CharacterFilterType::PatternReplace { pattern, replacement, flags } => {
                let joined = serialize_flags(flags);
                put(&mut entries, "type", Json::text("pattern_replace"));
                put(&mut entries, "pattern", Json::text(pattern.as_str()));
                put(&mut entries, "replacement", Json::text(replacement.as_str()));
                put(&mut entries, "flags", Json::text(joined.as_str()));
            },
        }
        Json::object(entries)
    }
}

impl Clone for CharacterFilterType {
    fn clone(&self) -> (r: Self)
        ensures
            r.deep_view() == self.deep_view(),
    {
        match self {
            CharacterFilterType::HtmlStrip { escaped_tags } => CharacterFilterType::HtmlStrip {
                escaped_tags: clone_strings(escaped_tags),
            },
            CharacterFilterType::Mapping { mappings } => {
                let mut out: Vec<(String, String)> = Vec::new();
                let mut i: usize = 0;
                while i < mappings.len()
                    invariant
                        i <= mappings.len(),
                        out.len() == i,
                        forall|k: int| 0 <= k < i ==> out[k].deep_view() == mappings[k].deep_view(),
                    decreases mappings.len() - i,
                {
                    out.push((mappings[i].0.clone(), mappings[i].1.clone()));
                    i += 1;
                }
                assert(out.deep_view() =~= mappings.deep_view());
                CharacterFilterType::Mapping { mappings: out }
            },
            CharacterFilterType::PatternReplace { pattern, replacement, flags } => {
                let mut out: Vec<RegexFlag> = Vec::new();
                let mut i: usize = 0;
                while i < flags.len()
                    invariant
                        i <= flags.len(),
                        out.len() == i,
                        forall|k: int| 0 <= k < i ==> out[k] == flags[k],
                    decreases flags.len() - i,
                {
                    out.push(flags[i]);
                    i += 1;
                }
                assert(out@ =~= flags@);
                CharacterFilterType::PatternReplace {
                    pattern: pattern.clone(),
                    replacement: replacement.clone(),
                    flags: out,
                }
            },
        }
    }
}

impl Clone for CharacterFilter {
    fn clone(&self) -> (r: Self)
        ensures
            r.deep_view() == self.deep_view(),
    {
        CharacterFilter {
            name: self.name.clone(),
            character_filter_type: self.character_filter_type.clone(),
        }
    }
}

impl Definition for CharacterFilterType {
    open spec fn settings(model: CharacterFilterTypeModel) -> JsonModel {
        character_filter_settings(model)
    }

    fn settings_json(&self) -> (j: Json) {
        self.to_json()
    }
}

} // verus!
