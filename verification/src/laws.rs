//! What holds of every field tree and of every document made from one.
use crate::aggregate::{
    collect_fields, collect_node, empty_analysis, with_character_filters, with_token_filters,
    AnalysisModel,
};
use crate::analysis::{AnalyzerModel, NormalizerModel};
use crate::character_filters::{CharacterFilterModel, CharacterFilterTypeModel};
use crate::field::{
    field_json, field_type_entries, occurs, properties, FieldModel, FieldTypeModel,
};
use crate::json::JsonModel;
use crate::primitives::{member_fields, record_fields, MemberModel, MemberTypeModel};
use crate::token_processing::{TokenFilterModel, TokenFilterTypeModel};
use crate::tokenizers::TokenizerModel;
use vstd::prelude::*;

verus! {

/// A field adds to the normalizers exactly if it is a keyword field, and to
/// the analyzers exactly if it is a text field: a keyword field writes its
/// normalizer under the normalizer's name and leaves the analyzers as they
/// are, a text field does the same the other way round, and a field of any
/// other kind leaves the whole analysis section as it is.
pub proof fn lemma_only_keyword_and_text_contribute(a: AnalysisModel, t: FieldTypeModel)
    ensures
        t matches FieldTypeModel::Keyword { normalizer } ==> collect_node(a, t).normalizer
            == a.normalizer.insert(normalizer.name, normalizer),
        !(t is Keyword) ==> collect_node(a, t).normalizer == a.normalizer,
        t matches FieldTypeModel::Text { analyzer } ==> collect_node(a, t).analyzer
            == a.analyzer.insert(analyzer.name, analyzer),
        !(t is Text) ==> collect_node(a, t).analyzer == a.analyzer,
        !(t is Keyword) && !(t is Text) ==> collect_node(a, t) == a,
{
}

/// Writing character filters into a dictionary removes no name from it, and
/// puts the name of each of them into it.
pub proof fn lemma_character_filters_present(
    dict: Map<Seq<char>, CharacterFilterTypeModel>,
    filters: Seq<CharacterFilterModel>,
)
    ensures
        dict.dom().subset_of(with_character_filters(dict, filters).dom()),
        forall|i: int|
            0 <= i < filters.len() ==> with_character_filters(dict, filters).contains_key(
                #[trigger] filters[i].name,
            ),
    decreases filters.len(),
{
    if filters.len() > 0 {
        lemma_character_filters_present(dict, filters.drop_last());
        assert forall|i: int| 0 <= i < filters.len() implies with_character_filters(
            dict,
            filters,
        ).contains_key(#[trigger] filters[i].name) by {
            if i < filters.len() - 1 {
                assert(filters.drop_last()[i] == filters[i]);
            }
        }
    }
}

/// Writing token filters into a dictionary removes no name from it, and puts
/// the name of each of them into it.
pub proof fn lemma_token_filters_present(
    dict: Map<Seq<char>, TokenFilterTypeModel>,
    filters: Seq<TokenFilterModel>,
)
    ensures
        dict.dom().subset_of(with_token_filters(dict, filters).dom()),
        forall|i: int|
            0 <= i < filters.len() ==> with_token_filters(dict, filters).contains_key(
                #[trigger] filters[i].name,
            ),
    decreases filters.len(),
{
    if filters.len() > 0 {
        lemma_token_filters_present(dict, filters.drop_last());
        assert forall|i: int| 0 <= i < filters.len() implies with_token_filters(
            dict,
            filters,
        ).contains_key(#[trigger] filters[i].name) by {
            if i < filters.len() - 1 {
                assert(filters.drop_last()[i] == filters[i]);
            }
        }
    }
}

/// Every name that `a` defines, `b` defines too, in each of the five
/// dictionaries.
pub open spec fn keeps_names(a: AnalysisModel, b: AnalysisModel) -> bool {
    &&& a.char_filter.dom().subset_of(b.char_filter.dom())
    &&& a.tokenizer.dom().subset_of(b.tokenizer.dom())
    &&& a.filter.dom().subset_of(b.filter.dom())
    &&& a.normalizer.dom().subset_of(b.normalizer.dom())
    &&& a.analyzer.dom().subset_of(b.analyzer.dom())
}

/// The walk removes no name from any dictionary.
pub proof fn lemma_walk_keeps_names(a: AnalysisModel, fields: Seq<FieldModel>)
    ensures
        keeps_names(a, collect_fields(a, fields)),
    decreases fields,
{
    if fields.len() > 0 {
        let before = collect_fields(a, fields.drop_last());
        let below = collect_fields(before, fields.last().fields);
        lemma_walk_keeps_names(a, fields.drop_last());
        lemma_walk_keeps_names(before, fields.last().fields);
        lemma_node_keeps_names(below, fields.last().field_type);
    }
}

/// A single field removes no name from any dictionary.
pub proof fn lemma_node_keeps_names(a: AnalysisModel, t: FieldTypeModel)
    ensures
        keeps_names(a, collect_node(a, t)),
{
    match t {
        FieldTypeModel::Keyword { normalizer } => {
            lemma_character_filters_present(a.char_filter, normalizer.character_filters);
        },
        FieldTypeModel::Text { analyzer } => {
            lemma_character_filters_present(a.char_filter, analyzer.character_filters);
            lemma_token_filters_present(a.filter, analyzer.token_filters);
        },
        _ => {},
    }
}

/// All of a unit is in the dictionaries of `a`: the unit itself under its
/// name, and its tokenizer and each of its filters under theirs.
pub open spec fn holds_unit(a: AnalysisModel, t: FieldTypeModel) -> bool {
    match t {
        FieldTypeModel::Keyword { normalizer } => {
            &&& a.normalizer.contains_key(normalizer.name)
            &&& a.tokenizer.contains_key(normalizer.tokenizer.name)
            &&& forall|i: int|
                0 <= i < normalizer.character_filters.len() ==> a.char_filter.contains_key(
                    #[trigger] normalizer.character_filters[i].name,
                )
        },
        FieldTypeModel::Text { analyzer } => {
            &&& a.analyzer.contains_key(analyzer.name)
            &&& a.tokenizer.contains_key(analyzer.tokenizer.name)
            &&& forall|i: int|
                0 <= i < analyzer.character_filters.len() ==> a.char_filter.contains_key(
                    #[trigger] analyzer.character_filters[i].name,
                )
            &&& forall|i: int|
                0 <= i < analyzer.token_filters.len() ==> a.filter.contains_key(
                    #[trigger] analyzer.token_filters[i].name,
                )
        },
        _ => true,
    }
}

/// After the walk the dictionaries hold, for every keyword and text field of
/// the tree, at whatever depth, the field's analysis unit and all that the
/// unit is made of.
pub proof fn lemma_every_unit_is_collected(
    a: AnalysisModel,
    fields: Seq<FieldModel>,
    node: FieldModel,
)
    requires
        occurs(fields, node),
    ensures
        holds_unit(collect_fields(a, fields), node.field_type),
    decreases fields,
{
    let before = collect_fields(a, fields.drop_last());
    let below = collect_fields(before, fields.last().fields);
    let after = collect_fields(a, fields);
    lemma_walk_keeps_names(before, fields.last().fields);
    lemma_node_keeps_names(below, fields.last().field_type);
    if occurs(fields.drop_last(), node) {
        lemma_every_unit_is_collected(a, fields.drop_last(), node);
        lemma_holds_unit_kept(before, after, node.field_type);
    } else if occurs(fields.last().fields, node) {
        lemma_every_unit_is_collected(before, fields.last().fields, node);
        lemma_holds_unit_kept(below, after, node.field_type);
    } else {
        match node.field_type {
            FieldTypeModel::Keyword { normalizer } => {
                lemma_character_filters_present(below.char_filter, normalizer.character_filters);
            },
            FieldTypeModel::Text { analyzer } => {
                lemma_character_filters_present(below.char_filter, analyzer.character_filters);
                lemma_token_filters_present(below.filter, analyzer.token_filters);
            },
            _ => {},
        }
    }
}

/// What one analysis section holds of a unit, a section with all its names
/// holds too.
proof fn lemma_holds_unit_kept(a: AnalysisModel, b: AnalysisModel, t: FieldTypeModel)
    requires
        holds_unit(a, t),
        keeps_names(a, b),
    ensures
        holds_unit(b, t),
{
}

/// The walk from `before` to `after` wrote the entry under `name`: it is
/// there now, and it was not there before or held something else.
pub open spec fn written<V>(
    before: Map<Seq<char>, V>,
    after: Map<Seq<char>, V>,
    name: Seq<char>,
) -> bool {
    after.contains_key(name) && !(before.contains_key(name) && before[name] == after[name])
}

/// The tokenizer of the analysis unit of a field, if the field has a unit.
pub open spec fn unit_tokenizer(t: FieldTypeModel) -> Option<TokenizerModel> {
    match t {
        FieldTypeModel::Keyword { normalizer } => Some(normalizer.tokenizer),
        FieldTypeModel::Text { analyzer } => Some(analyzer.tokenizer),
        _ => None,
    }
}

/// The character filters of the analysis unit of a field.
pub open spec fn unit_character_filters(t: FieldTypeModel) -> Seq<CharacterFilterModel> {
    match t {
        FieldTypeModel::Keyword { normalizer } => normalizer.character_filters,
        FieldTypeModel::Text { analyzer } => analyzer.character_filters,
        _ => Seq::empty(),
    }
}

/// The token filters of the analysis unit of a field.
pub open spec fn unit_token_filters(t: FieldTypeModel) -> Seq<TokenFilterModel> {
    match t {
        FieldTypeModel::Text { analyzer } => analyzer.token_filters,
        _ => Seq::empty(),
    }
}

/// An entry that the walk wrote into the normalizers is the normalizer of a
/// keyword field of the tree, under the normalizer's own name.  The field is
/// returned.
pub proof fn lemma_normalizer_comes_from_keyword_field(
    a: AnalysisModel,
    fields: Seq<FieldModel>,
    name: Seq<char>,
) -> (node: FieldModel)
    requires
        written(a.normalizer, collect_fields(a, fields).normalizer, name),
    ensures
        occurs(fields, node),
        node.field_type == (FieldTypeModel::Keyword {
            normalizer: collect_fields(a, fields).normalizer[name],
        }),
        collect_fields(a, fields).normalizer[name].name == name,
    decreases fields,
{
    let before = collect_fields(a, fields.drop_last());
    let below = collect_fields(before, fields.last().fields);
    let after = collect_fields(a, fields);
    lemma_only_keyword_and_text_contribute(below, fields.last().field_type);
    if written(below.normalizer, after.normalizer, name) {
        fields.last()
    } else if written(before.normalizer, below.normalizer, name) {
        lemma_normalizer_comes_from_keyword_field(before, fields.last().fields, name)
    } else {
        lemma_normalizer_comes_from_keyword_field(a, fields.drop_last(), name)
    }
}

/// An entry that the walk wrote into the analyzers is the analyzer of a text
/// field of the tree, under the analyzer's own name.  The field is returned.
pub proof fn lemma_analyzer_comes_from_text_field(
    a: AnalysisModel,
    fields: Seq<FieldModel>,
    name: Seq<char>,
) -> (node: FieldModel)
    requires
        written(a.analyzer, collect_fields(a, fields).analyzer, name),
    ensures
        occurs(fields, node),
        node.field_type == (FieldTypeModel::Text {
            analyzer: collect_fields(a, fields).analyzer[name],
        }),
        collect_fields(a, fields).analyzer[name].name == name,
    decreases fields,
{
    let before = collect_fields(a, fields.drop_last());
    let below = collect_fields(before, fields.last().fields);
    let after = collect_fields(a, fields);
    lemma_only_keyword_and_text_contribute(below, fields.last().field_type);
    if written(below.analyzer, after.analyzer, name) {
        fields.last()
    } else if written(before.analyzer, below.analyzer, name) {
        lemma_analyzer_comes_from_text_field(before, fields.last().fields, name)
    } else {
        lemma_analyzer_comes_from_text_field(a, fields.drop_last(), name)
    }
}

/// An entry that the walk wrote into the tokenizers is the tokenizer of the
/// analysis unit of a field of the tree, under the tokenizer's own name.
/// The field is returned.
pub proof fn lemma_tokenizer_comes_from_unit(
    a: AnalysisModel,
    fields: Seq<FieldModel>,
    name: Seq<char>,
) -> (node: FieldModel)
    requires
        written(a.tokenizer, collect_fields(a, fields).tokenizer, name),
    ensures
        occurs(fields, node),
        unit_tokenizer(node.field_type) == Some(
            TokenizerModel { name, tokenizer_type: collect_fields(a, fields).tokenizer[name] },
        ),
    decreases fields,
{
    let before = collect_fields(a, fields.drop_last());
    let below = collect_fields(before, fields.last().fields);
    let after = collect_fields(a, fields);
    if written(below.tokenizer, after.tokenizer, name) {
        fields.last()
    } else if written(before.tokenizer, below.tokenizer, name) {
        lemma_tokenizer_comes_from_unit(before, fields.last().fields, name)
    } else {
        lemma_tokenizer_comes_from_unit(a, fields.drop_last(), name)
    }
}

/// An entry that was written into a dictionary of character filters is one
/// of the filters written, under its own name.  Its place is returned.
pub proof fn lemma_character_filter_comes_from(
    dict: Map<Seq<char>, CharacterFilterTypeModel>,
    filters: Seq<CharacterFilterModel>,
    name: Seq<char>,
) -> (i: int)
    requires
        written(dict, with_character_filters(dict, filters), name),
    ensures
        0 <= i < filters.len(),
        filters[i] == (CharacterFilterModel {
            name,
            character_filter_type: with_character_filters(dict, filters)[name],
        }),
    decreases filters.len(),
{
    if filters.last().name == name {
        filters.len() - 1
    } else {
        lemma_character_filter_comes_from(dict, filters.drop_last(), name)
    }
}

/// An entry that was written into a dictionary of token filters is one of
/// the filters written, under its own name.  Its place is returned.
pub proof fn lemma_token_filter_comes_from(
    dict: Map<Seq<char>, TokenFilterTypeModel>,
    filters: Seq<TokenFilterModel>,
    name: Seq<char>,
) -> (i: int)
    requires
        written(dict, with_token_filters(dict, filters), name),
    ensures
        0 <= i < filters.len(),
        filters[i] == (TokenFilterModel {
            name,
            filter_type: with_token_filters(dict, filters)[name],
        }),
    decreases filters.len(),
{
    if filters.last().name == name {
        filters.len() - 1
    } else {
        lemma_token_filter_comes_from(dict, filters.drop_last(), name)
    }
}

/// An entry that the walk wrote into the character filters is a character
/// filter of the analysis unit of a field of the tree, under the filter's
/// own name.  The field and the filter's place in the unit are returned.
pub proof fn lemma_character_filter_comes_from_unit(
    a: AnalysisModel,
    fields: Seq<FieldModel>,
    name: Seq<char>,
) -> (found: (FieldModel, int))
    requires
        written(a.char_filter, collect_fields(a, fields).char_filter, name),
    ensures
        occurs(fields, found.0),
        0 <= found.1 < unit_character_filters(found.0.field_type).len(),
        unit_character_filters(found.0.field_type)[found.1] == (CharacterFilterModel {
            name,
            character_filter_type: collect_fields(a, fields).char_filter[name],
        }),
    decreases fields,
{
    let before = collect_fields(a, fields.drop_last());
    let below = collect_fields(before, fields.last().fields);
    let after = collect_fields(a, fields);
    if written(below.char_filter, after.char_filter, name) {
        let i = lemma_character_filter_comes_from(
            below.char_filter,
            unit_character_filters(fields.last().field_type),
            name,
        );
        (fields.last(), i)
    } else if written(before.char_filter, below.char_filter, name) {
        lemma_character_filter_comes_from_unit(before, fields.last().fields, name)
    } else {
        lemma_character_filter_comes_from_unit(a, fields.drop_last(), name)
    }
}

/// An entry that the walk wrote into the token filters is a token filter of
/// the analyzer of a text field of the tree, under the filter's own name.
/// The field and the filter's place in the analyzer are returned.
pub proof fn lemma_token_filter_comes_from_unit(
    a: AnalysisModel,
    fields: Seq<FieldModel>,
    name: Seq<char>,
) -> (found: (FieldModel, int))
    requires
        written(a.filter, collect_fields(a, fields).filter, name),
    ensures
        occurs(fields, found.0),
        0 <= found.1 < unit_token_filters(found.0.field_type).len(),
        unit_token_filters(found.0.field_type)[found.1] == (TokenFilterModel {
            name,
            filter_type: collect_fields(a, fields).filter[name],
        }),
    decreases fields,
{
    let before = collect_fields(a, fields.drop_last());
    let below = collect_fields(before, fields.last().fields);
    let after = collect_fields(a, fields);
    if written(below.filter, after.filter, name) {
        let i = lemma_token_filter_comes_from(
            below.filter,
            unit_token_filters(fields.last().field_type),
            name,
        );
        (fields.last(), i)
    } else if written(before.filter, below.filter, name) {
        lemma_token_filter_comes_from_unit(before, fields.last().fields, name)
    } else {
        lemma_token_filter_comes_from_unit(a, fields.drop_last(), name)
    }
}

/// The names of the normalizers after the walk are those from before and
/// those of the normalizers of the keyword fields of the tree: a field adds a
/// name to the normalizers if and only if it is a keyword field.
pub proof fn lemma_normalizers_are_those_of_keyword_fields(
    a: AnalysisModel,
    fields: Seq<FieldModel>,
    name: Seq<char>,
)
    ensures
        collect_fields(a, fields).normalizer.contains_key(name) <==> a.normalizer.contains_key(name)
            || exists|node: FieldModel|
            #[trigger] occurs(fields, node) && node.field_type is Keyword
                && node.field_type->normalizer.name == name,
{
    lemma_walk_keeps_names(a, fields);
    if collect_fields(a, fields).normalizer.contains_key(name) && !a.normalizer.contains_key(name) {
        let node = lemma_normalizer_comes_from_keyword_field(a, fields, name);
        assert(occurs(fields, node) && node.field_type is Keyword
            && node.field_type->normalizer.name == name);
    }
    if exists|node: FieldModel|
        #[trigger] occurs(fields, node) && node.field_type is Keyword
            && node.field_type->normalizer.name == name {
        let node = choose|node: FieldModel|
            #[trigger] occurs(fields, node) && node.field_type is Keyword
                && node.field_type->normalizer.name == name;
        lemma_every_unit_is_collected(a, fields, node);
    }
}

/// The names of the analyzers after the walk are those from before and those
/// of the analyzers of the text fields of the tree: a field adds a name to
/// the analyzers if and only if it is a text field.
pub proof fn lemma_analyzers_are_those_of_text_fields(
    a: AnalysisModel,
    fields: Seq<FieldModel>,
    name: Seq<char>,
)
    ensures
        collect_fields(a, fields).analyzer.contains_key(name) <==> a.analyzer.contains_key(name)
            || exists|node: FieldModel|
            #[trigger] occurs(fields, node) && node.field_type is Text
                && node.field_type->analyzer.name == name,
{
    lemma_walk_keeps_names(a, fields);
    if collect_fields(a, fields).analyzer.contains_key(name) && !a.analyzer.contains_key(name) {
        let node = lemma_analyzer_comes_from_text_field(a, fields, name);
        assert(occurs(fields, node) && node.field_type is Text && node.field_type->analyzer.name
            == name);
    }
    if exists|node: FieldModel|
        #[trigger] occurs(fields, node) && node.field_type is Text
            && node.field_type->analyzer.name == name {
        let node = choose|node: FieldModel|
            #[trigger] occurs(fields, node) && node.field_type is Text
                && node.field_type->analyzer.name == name;
        lemma_every_unit_is_collected(a, fields, node);
    }
}

/// A keyword field shows its normalizer by name only: the object of the
/// field holds the kind, the normalizer's name and the sub-fields, and
/// nothing else, so nothing of what the normalizer is made of.
pub proof fn lemma_keyword_field_refers_by_name(f: FieldModel)
    requires
        f.field_type is Keyword,
    ensures
        field_type_entries(f.field_type).dom() == set!["type"@, "normalizer"@],
        field_type_entries(f.field_type)["type"@] == JsonModel::Text("keyword"@),
        field_type_entries(f.field_type)["normalizer"@] == JsonModel::Text(
            f.field_type->normalizer.name,
        ),
        field_json(f) is Object,
        field_json(f)->Object_0.dom() == set!["type"@, "normalizer"@, "fields"@],
        field_json(f)->Object_0["type"@] == JsonModel::Text("keyword"@),
        field_json(f)->Object_0["normalizer"@] == JsonModel::Text(f.field_type->normalizer.name),
        field_json(f)->Object_0["fields"@] == JsonModel::Object(properties(f.fields)),
{
    reveal_strlit("type");
    reveal_strlit("normalizer");
    reveal_strlit("fields");
    assert("type"@.len() == 4 && "normalizer"@.len() == 10 && "fields"@.len() == 6);
    assert(field_type_entries(f.field_type).dom() =~= set!["type"@, "normalizer"@]);
    assert(field_json(f)->Object_0.dom() =~= set!["type"@, "normalizer"@, "fields"@]);
}

/// A text field shows its analyzer by name only: the object of the field
/// holds the kind, the analyzer's name and the sub-fields, and nothing else,
/// so nothing of what the analyzer is made of.
pub proof fn lemma_text_field_refers_by_name(f: FieldModel)
    requires
        f.field_type is Text,
    ensures
        field_type_entries(f.field_type).dom() == set!["type"@, "analyzer"@],
        field_type_entries(f.field_type)["type"@] == JsonModel::Text("text"@),
        field_type_entries(f.field_type)["analyzer"@] == JsonModel::Text(
            f.field_type->analyzer.name,
        ),
        field_json(f) is Object,
        field_json(f)->Object_0.dom() == set!["type"@, "analyzer"@, "fields"@],
        field_json(f)->Object_0["type"@] == JsonModel::Text("text"@),
        field_json(f)->Object_0["analyzer"@] == JsonModel::Text(f.field_type->analyzer.name),
        field_json(f)->Object_0["fields"@] == JsonModel::Object(properties(f.fields)),
{
    reveal_strlit("type");
    reveal_strlit("analyzer");
    reveal_strlit("fields");
    assert("type"@.len() == 4 && "analyzer"@.len() == 8 && "fields"@.len() == 6);
    assert(field_type_entries(f.field_type).dom() =~= set!["type"@, "analyzer"@]);
    assert(field_json(f)->Object_0.dom() =~= set!["type"@, "analyzer"@, "fields"@]);
}

/// Writing a definition a second time under the same name changes nothing:
/// the dictionary holds what it held after the first time, one entry under
/// that name.
pub proof fn lemma_insert_twice<V>(dict: Map<Seq<char>, V>, name: Seq<char>, definition: V)
    requires
        dict.dom().finite(),
    ensures
        dict.insert(name, definition).insert(name, definition) == dict.insert(name, definition),
        dict.insert(name, definition).insert(name, definition).len() == if dict.contains_key(
            name,
        ) {
            dict.len()
        } else {
            dict.len() + 1
        },
{
    assert(dict.insert(name, definition).insert(name, definition) =~= dict.insert(
        name,
        definition,
    ));
}

/// The text fields of `fields` and below agree on the analyzer that is
/// called as the analyzer of `node` is: each of them that has an analyzer of
/// that name is of the same kind as `node`.
pub open spec fn analyzer_is_agreed(fields: Seq<FieldModel>, node: FieldModel) -> bool {
    forall|other: FieldModel|
        #[trigger] occurs(fields, other) && other.field_type is Text
            && other.field_type->analyzer.name == node.field_type->analyzer.name
            ==> other.field_type == node.field_type
}

/// The keyword fields of `fields` and below agree on the normalizer that is
/// called as the normalizer of `node` is.
pub open spec fn normalizer_is_agreed(fields: Seq<FieldModel>, node: FieldModel) -> bool {
    forall|other: FieldModel|
        #[trigger] occurs(fields, other) && other.field_type is Keyword
            && other.field_type->normalizer.name == node.field_type->normalizer.name
            ==> other.field_type == node.field_type
}

/// Definitions do not get mixed up: where the text fields of a tree agree on
/// the analyzer of a name, the analyzers hold under that name just that
/// analyzer after the walk, whatever they held before and whatever else the
/// tree defines.
pub proof fn lemma_agreed_analyzer_is_held(
    a: AnalysisModel,
    fields: Seq<FieldModel>,
    node: FieldModel,
)
    requires
        occurs(fields, node),
        node.field_type is Text,
        analyzer_is_agreed(fields, node),
    ensures
        collect_fields(a, fields).analyzer.contains_key(node.field_type->analyzer.name),
        collect_fields(a, fields).analyzer[node.field_type->analyzer.name]
            == node.field_type->analyzer,
    decreases fields,
{
    let name = node.field_type->analyzer.name;
    let last = fields.last();
    let before = collect_fields(a, fields.drop_last());
    let below = collect_fields(before, last.fields);
    lemma_every_unit_is_collected(a, fields, node);
    lemma_only_keyword_and_text_contribute(below, last.field_type);
    assert(occurs(fields, last));
    if last.field_type is Text && last.field_type->analyzer.name == name {
    } else if exists|other: FieldModel|
        #[trigger] occurs(last.fields, other) && other.field_type is Text
            && other.field_type->analyzer.name == name {
        let other = choose|other: FieldModel|
            #[trigger] occurs(last.fields, other) && other.field_type is Text
                && other.field_type->analyzer.name == name;
        assert(occurs(fields, other));
        assert forall|third: FieldModel|
            #[trigger] occurs(last.fields, third) && third.field_type is Text
                && third.field_type->analyzer.name == other.field_type->analyzer.name implies
            third.field_type == other.field_type by {
            assert(occurs(fields, third));
        }
        lemma_agreed_analyzer_is_held(before, last.fields, other);
    } else {
        assert(last != node);
        assert(!occurs(last.fields, node));
        assert(occurs(fields.drop_last(), node));
        assert forall|third: FieldModel|
            #[trigger] occurs(fields.drop_last(), third) && third.field_type is Text
                && third.field_type->analyzer.name == name implies third.field_type
            == node.field_type by {
            assert(occurs(fields, third));
        }
        lemma_agreed_analyzer_is_held(a, fields.drop_last(), node);
        lemma_walk_keeps_names(before, last.fields);
        if written(before.analyzer, below.analyzer, name) {
            let found = lemma_analyzer_comes_from_text_field(before, last.fields, name);
            assert(occurs(last.fields, found) && found.field_type is Text
                && found.field_type->analyzer.name == name);
        }
    }
}

/// Definitions do not get mixed up: where the keyword fields of a tree agree
/// on the normalizer of a name, the normalizers hold under that name just
/// that normalizer after the walk, whatever they held before and whatever
/// else the tree defines.
pub proof fn lemma_agreed_normalizer_is_held(
    a: AnalysisModel,
    fields: Seq<FieldModel>,
    node: FieldModel,
)
    requires
        occurs(fields, node),
        node.field_type is Keyword,
        normalizer_is_agreed(fields, node),
    ensures
        collect_fields(a, fields).normalizer.contains_key(node.field_type->normalizer.name),
        collect_fields(a, fields).normalizer[node.field_type->normalizer.name]
            == node.field_type->normalizer,
    decreases fields,
{
    let name = node.field_type->normalizer.name;
    let last = fields.last();
    let before = collect_fields(a, fields.drop_last());
    let below = collect_fields(before, last.fields);
    lemma_every_unit_is_collected(a, fields, node);
    lemma_only_keyword_and_text_contribute(below, last.field_type);
    assert(occurs(fields, last));
    if last.field_type is Keyword && last.field_type->normalizer.name == name {
    } else if exists|other: FieldModel|
        #[trigger] occurs(last.fields, other) && other.field_type is Keyword
            && other.field_type->normalizer.name == name {
        let other = choose|other: FieldModel|
            #[trigger] occurs(last.fields, other) && other.field_type is Keyword
                && other.field_type->normalizer.name == name;
        assert(occurs(fields, other));
        assert forall|third: FieldModel|
            #[trigger] occurs(last.fields, third) && third.field_type is Keyword
                && third.field_type->normalizer.name
                == other.field_type->normalizer.name implies third.field_type
            == other.field_type by {
            assert(occurs(fields, third));
        }
        lemma_agreed_normalizer_is_held(before, last.fields, other);
    } else {
        assert(last != node);
        assert(!occurs(last.fields, node));
        assert(occurs(fields.drop_last(), node));
        assert forall|third: FieldModel|
            #[trigger] occurs(fields.drop_last(), third) && third.field_type is Keyword
                && third.field_type->normalizer.name == name implies third.field_type
            == node.field_type by {
            assert(occurs(fields, third));
        }
        lemma_agreed_normalizer_is_held(a, fields.drop_last(), node);
        lemma_walk_keeps_names(before, last.fields);
        if written(before.normalizer, below.normalizer, name) {
            let found = lemma_normalizer_comes_from_keyword_field(before, last.fields, name);
            assert(occurs(last.fields, found) && found.field_type is Keyword
                && found.field_type->normalizer.name == name);
        }
    }
}

/// Two text fields without sub-fields whose analyzers go by different names
/// give, from an empty analysis section, just these two analyzers, each
/// under its own name, together with all that the two are made of; and no
/// normalizer.
pub proof fn lemma_two_analyzers_stay_apart(first: FieldModel, second: FieldModel)
    requires
        first.field_type is Text,
        second.field_type is Text,
        first.fields.len() == 0,
        second.fields.len() == 0,
        first.field_type->analyzer.name != second.field_type->analyzer.name,
    ensures
        ({
            let after = collect_fields(empty_analysis(), seq![first, second]);
            &&& after.analyzer == Map::<Seq<char>, AnalyzerModel>::empty().insert(
                first.field_type->analyzer.name,
                first.field_type->analyzer,
            ).insert(second.field_type->analyzer.name, second.field_type->analyzer)
            &&& after.normalizer == Map::<Seq<char>, NormalizerModel>::empty()
            &&& holds_unit(after, first.field_type)
            &&& holds_unit(after, second.field_type)
        }),
{
    let fields = seq![first, second];
    let after = collect_fields(empty_analysis(), fields);
    reveal_with_fuel(occurs, 3);
    reveal_with_fuel(collect_fields, 3);
    assert(fields.drop_last() =~= seq![first]);
    assert(seq![first].drop_last() =~= Seq::<FieldModel>::empty());
    assert(fields.last() == second && seq![first].last() == first);
    assert(occurs(fields, first) && occurs(fields, second));
    lemma_every_unit_is_collected(empty_analysis(), fields, first);
    lemma_every_unit_is_collected(empty_analysis(), fields, second);
    assert(after.analyzer =~= Map::<Seq<char>, AnalyzerModel>::empty().insert(
        first.field_type->analyzer.name,
        first.field_type->analyzer,
    ).insert(second.field_type->analyzer.name, second.field_type->analyzer));
    assert(after.normalizer =~= Map::<Seq<char>, NormalizerModel>::empty());
}

/// Under an enclosing name every field that a record yields bears that
/// name and a dot in front of its own, however deep the member lies from
/// which it comes.
pub proof fn lemma_fields_bear_the_enclosing_name(
    members: Seq<MemberModel>,
    prefix: Seq<char>,
    i: int,
)
    requires
        0 <= i < record_fields(members, Some(prefix)).len(),
    ensures
        (prefix + "."@).is_prefix_of(record_fields(members, Some(prefix))[i].name),
    decreases members,
{
    let all = record_fields(members, Some(prefix));
    let front = record_fields(members.drop_last(), Some(prefix));
    let last = members.last();
    let qualified = prefix + "."@ + last.name;
    let tail = member_fields(last.member_type, Some(qualified));
    assert(members.len() > 0);
    assert(all == front + tail);
    assert((prefix + "."@).is_prefix_of(qualified));
    if i < front.len() {
        lemma_fields_bear_the_enclosing_name(members.drop_last(), prefix, i);
    } else {
        assert(all[i] == tail[i - front.len()]);
        match last.member_type {
            MemberTypeModel::Record { members: inner } => {
                assert(decreases_to!(members => last));
                assert(decreases_to!(last => last.member_type));
                assert(decreases_to!(last.member_type => inner));
                lemma_fields_bear_the_enclosing_name(inner, qualified, i - front.len());
                assert(qualified.is_prefix_of(qualified + "."@));
            },
            _ => {},
        }
    }
}

} // verus!
