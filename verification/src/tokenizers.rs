//! Tokenizers: how text is split into tokens.
use crate::dictionary::Definition;
use crate::json::{put, text_array, Json, JsonModel};
use crate::text::char_to_string;
use vstd::prelude::*;

verus! {

/// A class of characters on which a tokenizer splits, or one character.
#[derive(PartialEq, Eq, Hash, Clone, Copy, Debug)]
pub enum CharacterGroups {
    Whitespace,
    Letter,
    Digit,
    Punctuation,
    Symbol,
    Arbitrary(char),
}

/// What a tokenizer does.
#[derive(PartialEq, Eq, Hash, Debug)]
pub enum TokenizerType {
    CharacterGroup { tokenize_on_chars: Vec<CharacterGroups> },
}

/// A tokenizer under its name.
#[derive(PartialEq, Eq, Hash, Debug)]
pub struct Tokenizer {
    pub name: String,
    pub tokenizer_type: TokenizerType,
}

/// What a [`TokenizerType`] holds, as contracts see it.
pub enum TokenizerTypeModel {
    CharacterGroup { tokenize_on_chars: Seq<CharacterGroups> },
}

/// What a [`Tokenizer`] holds, as contracts see it.
pub struct TokenizerModel {
    pub name: Seq<char>,
    pub tokenizer_type: TokenizerTypeModel,
}

impl DeepView for TokenizerType {
    type V = TokenizerTypeModel;

    open spec fn deep_view(&self) -> TokenizerTypeModel {
        match self {
            TokenizerType::CharacterGroup {
                tokenize_on_chars,
            } => TokenizerTypeModel::CharacterGroup { tokenize_on_chars: tokenize_on_chars@ },
        }
    }
}

impl DeepView for Tokenizer {
    type V = TokenizerModel;

    open spec fn deep_view(&self) -> TokenizerModel {
        TokenizerModel { name: self.name@, tokenizer_type: self.tokenizer_type.deep_view() }
    }
}

/// How the engine writes a character group: the name of a class, or the
/// character itself.
pub open spec fn character_group_name(group: CharacterGroups) -> Seq<char> {
    match group {
        CharacterGroups::Whitespace => "whitespace"@,
        CharacterGroups::Letter => "letter"@,
        CharacterGroups::Digit => "digit"@,
        CharacterGroups::Punctuation => "punctuation"@,
        CharacterGroups::Symbol => "symbol"@,
        CharacterGroups::Arbitrary(c) => seq![c],
    }
}

/// The settings of a tokenizer: its kind under `type`, then the groups it
/// splits on.
pub open spec fn tokenizer_settings(t: TokenizerTypeModel) -> JsonModel {
    match t {
        TokenizerTypeModel::CharacterGroup { tokenize_on_chars } => JsonModel::Object(
            Map::empty().insert("type"@, JsonModel::Text("char_group"@)).insert(
                "tokenize_on_chars"@,
                text_array(
                    tokenize_on_chars.map_values(|g: CharacterGroups| character_group_name(g)),
                ),
            ),
        ),
    }
}

/// The tokenizer that fields get when none is chosen: it splits on
/// whitespace.
pub open spec fn default_tokenizer() -> TokenizerModel {
    TokenizerModel {
        name: "sedk_default_tokenizer"@,
        tokenizer_type: TokenizerTypeModel::CharacterGroup {
            tokenize_on_chars: seq![CharacterGroups::Whitespace],
        },
    }
}

impl CharacterGroups {
    /// How the engine writes this group.
    pub fn name(&self) -> (s: String)
        ensures
            s@ == character_group_name(*self),
    {
        match self {
            CharacterGroups::Whitespace => "whitespace".to_string(),
            CharacterGroups::Letter => "letter".to_string(),
            CharacterGroups::Digit => "digit".to_string(),
            CharacterGroups::Punctuation => "punctuation".to_string(),
            CharacterGroups::Symbol => "symbol".to_string(),
            CharacterGroups::Arbitrary(c) => char_to_string(*c),
        }
    }

    /// This group as a JSON string.
    pub fn to_json(&self) -> (j: Json)
        ensures
            j.deep_view() == JsonModel::Text(character_group_name(*self)),
    {
        Json::Text(self.name())
    }
}

impl TokenizerType {
    /// The settings of this tokenizer, as the engine's `tokenizer` dictionary
    /// holds them.
    pub fn to_json(&self) -> (j: Json)
        ensures
            j.deep_view() == tokenizer_settings(self.deep_view()),
    {
        match self {
            TokenizerType::CharacterGroup { tokenize_on_chars } => {
                let mut names: Vec<String> = Vec::new();
                let mut i: usize = 0;
                while i < tokenize_on_chars.len()
                    invariant
                        i <= tokenize_on_chars.len(),
                        names.len() == i,
                        forall|k: int|
                            0 <= k < i ==> names[k]@ == character_group_name(tokenize_on_chars[k]),
                    decreases tokenize_on_chars.len() - i,
                {
                    names.push(tokenize_on_chars[i].name());
                    i += 1;
                }
                assert(names.deep_view() =~= tokenize_on_chars@.map_values(
                    |g: CharacterGroups| character_group_name(g),
                ));
                let mut entries: Vec<(String, Json)> = Vec::new();
                put(&mut entries, "type", Json::text("char_group"));
                put(&mut entries, "tokenize_on_chars", Json::strings(&names));
                Json::object(entries)
            },
        }
    }
}

impl Clone for TokenizerType {
    fn clone(&self) -> (r: Self)
        ensures
            r.deep_view() == self.deep_view(),
    {
        match self {
            TokenizerType::CharacterGroup { tokenize_on_chars } => {
                let mut out: Vec<CharacterGroups> = Vec::new();
                let mut i: usize = 0;
                while i < tokenize_on_chars.len()
                    invariant
                        i <= tokenize_on_chars.len(),
                        out.len() == i,
                        forall|k: int| 0 <= k < i ==> out[k] == tokenize_on_chars[k],
                    decreases tokenize_on_chars.len() - i,
                {
                    out.push(tokenize_on_chars[i]);
                    i += 1;
                }
                assert(out@ =~= tokenize_on_chars@);
                TokenizerType::CharacterGroup { tokenize_on_chars: out }
            },
        }
    }
}

impl Clone for Tokenizer {
    fn clone(&self) -> (r: Self)
        ensures
            r.deep_view() == self.deep_view(),
    {
        Tokenizer { name: self.name.clone(), tokenizer_type: self.tokenizer_type.clone() }
    }
}

impl Default for Tokenizer {
    fn default() -> (r: Self)
        ensures
            r.deep_view() == default_tokenizer(),
    {
        let mut groups: Vec<CharacterGroups> = Vec::new();
        groups.push(CharacterGroups::Whitespace);
        assert(groups@ =~= seq![CharacterGroups::Whitespace]);
        Tokenizer {
            name: "sedk_default_tokenizer".to_owned(),
            tokenizer_type: TokenizerType::CharacterGroup { tokenize_on_chars: groups },
        }
    }
}

impl Definition for TokenizerType {
    open spec fn settings(model: TokenizerTypeModel) -> JsonModel {
        tokenizer_settings(model)
    }

    fn settings_json(&self) -> (j: Json) {
        self.to_json()
    }
}

} // verus!
