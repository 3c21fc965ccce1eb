//! The field tree: what is indexed, under which name and as what.
use crate::analysis::{Analyzer, AnalyzerModel, Normalizer, NormalizerModel};
use crate::json::{object_model, put, Json, JsonModel};
use vstd::prelude::*;

verus! {

/// The kind of a field.  A keyword field owns its normalizer and a text
/// field its analyzer: the tree is where analysis units are defined.
#[derive(PartialEq, Eq, Debug)]
pub enum FieldType {
    Binary,
    Boolean,
    Keyword { normalizer: Normalizer },
    Text { analyzer: Analyzer },
    Date,
    Long,
    Integer,
    Short,
    Byte,
    Double,
    Float,
    HalfFloat,
    ScaledFloat,
    UnsignedLong,
}

/// One node of the tree.  `fields` are the sub-fields: other ways of
/// indexing the same value.
#[derive(PartialEq, Eq, Debug)]
pub struct Field {
    pub name: String,
    pub field_type: FieldType,
    pub fields: Vec<Field>,
}

/// The root: the fields of one index.
#[derive(PartialEq, Eq, Debug)]
pub struct IndexMapping {
    pub fields: Vec<Field>,
}

/// What a [`FieldType`] holds, as contracts see it.
pub enum FieldTypeModel {
    Binary,
    Boolean,
    Keyword { normalizer: NormalizerModel },
    Text { analyzer: AnalyzerModel },
    Date,
    Long,
    Integer,
    Short,
    Byte,
    Double,
    Float,
    HalfFloat,
    ScaledFloat,
    UnsignedLong,
}

/// What a [`Field`] holds, as contracts see it.
pub struct FieldModel {
    pub name: Seq<char>,
    pub field_type: FieldTypeModel,
    pub fields: Seq<FieldModel>,
}

/// What an [`IndexMapping`] holds, as contracts see it.
pub struct IndexMappingModel {
    pub fields: Seq<FieldModel>,
}

impl DeepView for FieldType {
    type V = FieldTypeModel;

    open spec fn deep_view(&self) -> FieldTypeModel {
        match self {
            FieldType::Binary => FieldTypeModel::Binary,
            FieldType::Boolean => FieldTypeModel::Boolean,
            FieldType::Keyword { normalizer } => FieldTypeModel::Keyword {
                normalizer: normalizer.deep_view(),
            },
            FieldType::Text { analyzer } => FieldTypeModel::Text { analyzer: analyzer.deep_view() },
            FieldType::Date => FieldTypeModel::Date,
            FieldType::Long => FieldTypeModel::Long,
            FieldType::Integer => FieldTypeModel::Integer,
            FieldType::Short => FieldTypeModel::Short,
            FieldType::Byte => FieldTypeModel::Byte,
            FieldType::Double => FieldTypeModel::Double,
            FieldType::Float => FieldTypeModel::Float,
            FieldType::HalfFloat => FieldTypeModel::HalfFloat,
            FieldType::ScaledFloat => FieldTypeModel::ScaledFloat,
            FieldType::UnsignedLong => FieldTypeModel::UnsignedLong,
        }
    }
}

/// The tree that `f` stands for.
pub open spec fn field_model(f: Field) -> FieldModel
    decreases f,
{
    FieldModel {
        name: f.name@,
        field_type: f.field_type.deep_view(),
        fields: Seq::new(
            f.fields@.len(),
            |i: int|
                if 0 <= i < f.fields@.len() {
                    field_model(f.fields@[i])
                } else {
                    arbitrary()
                },
        ),
    }
}

impl DeepView for Field {
    type V = FieldModel;

    open spec fn deep_view(&self) -> FieldModel {
        field_model(*self)
    }
}

impl DeepView for IndexMapping {
    type V = IndexMappingModel;

    open spec fn deep_view(&self) -> IndexMappingModel {
        IndexMappingModel { fields: self.fields.deep_view() }
    }
}

/// The sub-fields of a field, seen through its model, are the models of its
/// sub-fields.
pub proof fn lemma_field_children(f: Field)
    ensures
        f.deep_view().fields == f.fields.deep_view(),
{
    assert(field_model(f).fields =~= f.fields.deep_view());
}

/// The tag by which the engine knows a kind of field.
pub open spec fn field_type_tag(t: FieldTypeModel) -> Seq<char> {
    match t {
        FieldTypeModel::Binary => "binary"@,
        FieldTypeModel::Boolean => "boolean"@,
        FieldTypeModel::Keyword { .. } => "keyword"@,
        FieldTypeModel::Text { .. } => "text"@,
        FieldTypeModel::Date => "date"@,
        FieldTypeModel::Long => "long"@,
        FieldTypeModel::Integer => "integer"@,
        FieldTypeModel::Short => "short"@,
        FieldTypeModel::Byte => "byte"@,
        FieldTypeModel::Double => "double"@,
        FieldTypeModel::Float => "float"@,
        FieldTypeModel::HalfFloat => "half_float"@,
        FieldTypeModel::ScaledFloat => "scaled_float"@,
        FieldTypeModel::UnsignedLong => "unsigned_long"@,
    }
}

/// What a kind of field writes into the object of its field: the tag under
/// `type` and, for a keyword or text field, the name of its analysis unit.
pub open spec fn field_type_entries(t: FieldTypeModel) -> Map<Seq<char>, JsonModel> {
    let tagged = Map::empty().insert("type"@, JsonModel::Text(field_type_tag(t)));
    match t {
        FieldTypeModel::Keyword { normalizer } => tagged.insert(
            "normalizer"@,
            JsonModel::Text(normalizer.name),
        ),
        FieldTypeModel::Text { analyzer } => tagged.insert(
            "analyzer"@,
            JsonModel::Text(analyzer.name),
        ),
        _ => tagged,
    }
}

/// A kind of field on its own.
pub open spec fn field_type_json(t: FieldTypeModel) -> JsonModel {
    JsonModel::Object(field_type_entries(t))
}

/// A field as the mapping shows it: what its kind writes, and its
/// sub-fields under `fields`.  The field's own name is its key in the object
/// of its parent.
pub open spec fn field_json(f: FieldModel) -> JsonModel
    decreases f,
{
    JsonModel::Object(
        field_type_entries(f.field_type).insert("fields"@, JsonModel::Object(properties(f.fields))),
    )
}

/// The fields keyed by name, written in their order: of two fields with one
/// name the later one stays.
pub open spec fn properties(fields: Seq<FieldModel>) -> Map<Seq<char>, JsonModel>
    decreases fields,
{
    if fields.len() == 0 {
        Map::empty()
    } else {
        properties(fields.drop_last()).insert(fields.last().name, field_json(fields.last()))
    }
}

/// `node` is one of `fields` or lies below one of them.
pub open spec fn occurs(fields: Seq<FieldModel>, node: FieldModel) -> bool
    decreases fields,
{
    if fields.len() == 0 {
        false
    } else {
        ||| occurs(fields.drop_last(), node)
        ||| fields.last() == node
        ||| occurs(fields.last().fields, node)
    }
}

/// Writes the name of the normalizer of a keyword field.
pub fn serialize_keyword(n: &Normalizer, entries: &mut Vec<(String, Json)>)
    ensures
        final(entries)@.len() == old(entries)@.len() + 1,
        final(entries)@.drop_last() == old(entries)@,
        final(entries)@.last().0@ == "normalizer"@,
        final(entries)@.last().1.deep_view() == JsonModel::Text(n.name@),
        object_model(final(entries)@) == object_model(old(entries)@).insert(
            "normalizer"@,
            JsonModel::Text(n.name@),
        ),
{
    put(entries, "normalizer", Json::text(n.name.as_str()));
}

/// Writes the name of the analyzer of a text field.
pub fn serialize_text(a: &Analyzer, entries: &mut Vec<(String, Json)>)
    ensures
        final(entries)@.len() == old(entries)@.len() + 1,
        final(entries)@.drop_last() == old(entries)@,
        final(entries)@.last().0@ == "analyzer"@,
        final(entries)@.last().1.deep_view() == JsonModel::Text(a.name@),
        object_model(final(entries)@) == object_model(old(entries)@).insert(
            "analyzer"@,
            JsonModel::Text(a.name@),
        ),
{
    put(entries, "analyzer", Json::text(a.name.as_str()));
}

impl FieldType {
    /// The tag by which the engine knows this kind of field.
    pub fn tag(&self) -> (s: String)
        ensures
            s@ == field_type_tag(self.deep_view()),
    {
        match self {
            FieldType::Binary => "binary".to_string(),
            FieldType::Boolean => "boolean".to_string(),
            FieldType::Keyword { .. } => "keyword".to_string(),
            FieldType::Text { .. } => "text".to_string(),
            FieldType::Date => "date".to_string(),
            FieldType::Long => "long".to_string(),
            FieldType::Integer => "integer".to_string(),
            FieldType::Short => "short".to_string(),
            FieldType::Byte => "byte".to_string(),
            FieldType::Double => "double".to_string(),
            FieldType::Float => "float".to_string(),
            FieldType::HalfFloat => "half_float".to_string(),
            FieldType::ScaledFloat => "scaled_float".to_string(),
            FieldType::UnsignedLong => "unsigned_long".to_string(),
        }
    }

    /// What this kind of field writes into the object of its field.
    pub fn entries(&self) -> (entries: Vec<(String, Json)>)
        ensures
            object_model(entries@) == field_type_entries(self.deep_view()),
    {
        let mut entries: Vec<(String, Json)> = Vec::new();
        put(&mut entries, "type", Json::Text(self.tag()));
        match self {
            FieldType::Keyword { normalizer } => serialize_keyword(normalizer, &mut entries),
            FieldType::Text { analyzer } => serialize_text(analyzer, &mut entries),
            _ => {},
        }
        entries
    }

    /// This kind of field on its own: a keyword or text field shows its
    /// analysis unit by name only.
    pub fn to_json(&self) -> (j: Json)
        ensures
            j.deep_view() == field_type_json(self.deep_view()),
    {
        Json::object(self.entries())
    }
}

/// Renders `fields` as one object, each field under its name.
pub fn serialize_fields(fields: &[Field]) -> (j: Json)
    ensures
        j.deep_view() == JsonModel::Object(properties(fields.deep_view())),
    decreases fields.deep_view(), 0int,
{
    let mut entries: Vec<(String, Json)> = Vec::new();
    let mut i: usize = 0;
    while i < fields.len()
        invariant
            i <= fields.len(),
            object_model(entries@) == properties(fields.deep_view().take(i as int)),
        decreases fields.len() - i,
    {
        proof {
            let all = fields.deep_view();
            assert(all[i as int] == fields[i as int].deep_view());
            assert(decreases_to!(all => all[i as int]));
        }
        let child = fields[i].to_json();
        proof {
            let all = fields.deep_view();
            assert(all.take(i + 1).drop_last() =~= all.take(i as int));
            assert(all.take(i + 1).last() == fields[i as int].deep_view());
        }
        put(&mut entries, fields[i].name.as_str(), child);
        i += 1;
    }
    assert(fields.deep_view().take(i as int) =~= fields.deep_view());
    Json::object(entries)
}

impl Field {
    /// This field as the mapping shows it.
    pub fn to_json(&self) -> (j: Json)
        ensures
            j.deep_view() == field_json(self.deep_view()),
        decreases self.deep_view(), 1int,
    {
        let mut entries = self.field_type.entries();
        proof {
            lemma_field_children(*self);
        }
        let children = serialize_fields(self.fields.as_slice());
        put(&mut entries, "fields", children);
        Json::object(entries)
    }
}

impl Clone for FieldType {
    fn clone(&self) -> (r: Self)
        ensures
            r.deep_view() == self.deep_view(),
    {
        match self {
            FieldType::Binary => FieldType::Binary,
            FieldType::Boolean => FieldType::Boolean,
            FieldType::Keyword { normalizer } => FieldType::Keyword {
                normalizer: normalizer.clone(),
            },
            FieldType::Text { analyzer } => FieldType::Text { analyzer: analyzer.clone() },
            FieldType::Date => FieldType::Date,
            FieldType::Long => FieldType::Long,
            FieldType::Integer => FieldType::Integer,
            FieldType::Short => FieldType::Short,
            FieldType::Byte => FieldType::Byte,
            FieldType::Double => FieldType::Double,
            FieldType::Float => FieldType::Float,
            FieldType::HalfFloat => FieldType::HalfFloat,
            FieldType::ScaledFloat => FieldType::ScaledFloat,
            FieldType::UnsignedLong => FieldType::UnsignedLong,
        }
    }
}

impl Clone for Field {
    fn clone(&self) -> (r: Self)
        ensures
            r.deep_view() == self.deep_view(),
        decreases self,
    {
        let mut fields: Vec<Field> = Vec::new();
        let mut i: usize = 0;
        while i < self.fields.len()
            invariant
                i <= self.fields.len(),
                fields.len() == i,
                forall|k: int| 0 <= k < i ==> fields[k].deep_view() == self.fields[k].deep_view(),
            decreases self.fields.len() - i,
        {
            fields.push(self.fields[i].clone());
            i += 1;
        }
        let r = Field { name: self.name.clone(), field_type: self.field_type.clone(), fields };
        assert(r.deep_view().fields =~= self.deep_view().fields);
        r
    }
}

/// A copy of `fields`.
pub fn clone_fields(fields: &Vec<Field>) -> (r: Vec<Field>)
    ensures
        r.deep_view() == fields.deep_view(),
{
    let mut out: Vec<Field> = Vec::new();
    let mut i: usize = 0;
    while i < fields.len()
        invariant
            i <= fields.len(),
            out.len() == i,
            forall|k: int| 0 <= k < i ==> out[k].deep_view() == fields[k].deep_view(),
        decreases fields.len() - i,
    {
        out.push(fields[i].clone());
        i += 1;
    }
    assert(out.deep_view() =~= fields.deep_view());
    out
}

impl Clone for IndexMapping {
    fn clone(&self) -> (r: Self)
        ensures
            r.deep_view() == self.deep_view(),
    {
        IndexMapping { fields: clone_fields(&self.fields) }
    }
}

} // verus!
