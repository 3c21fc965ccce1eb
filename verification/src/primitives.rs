//! From the shape of a record to its fields.
//!
//! A member of a record yields fields according to its type: a number or a
//! truth value yields one field, a string a text field with a keyword
//! sub-field, and a record the fields of its own members, each under the
//! names of the members that enclose it, joined by `.`.
use crate::analysis::{default_analyzer, default_normalizer, Analyzer, Normalizer};
use crate::field::{Field, FieldModel, FieldType, FieldTypeModel, IndexMapping, IndexMappingModel};
use vstd::prelude::*;
use vstd::string::StringExecFns;

verus! {

/// A type whose values can stand as a member of an indexed record.  What a
/// type yields is for the type to say: each implementation states it.
pub trait IntoFields {
    /// The fields that a member of this type yields under `name`; with no
    /// name, the fields of a record of this type at top level.
    fn into_fields(name: Option<&str>) -> Vec<Field>;
}

/// A record type that has an index of its own.
pub trait Indexable {
    /// The mapping of the index.
    fn index_mapping() -> IndexMapping;
}

/// The type of a member, as far as the fields it yields depend on it.
#[derive(PartialEq, Eq, Debug)]
pub enum MemberType {
    Text,
    Long,
    Integer,
    Short,
    UnsignedLong,
    Double,
    Float,
    Boolean,
    Record { members: Vec<Member> },
}

/// A named member of a record.
#[derive(PartialEq, Eq, Debug)]
pub struct Member {
    pub name: String,
    pub member_type: MemberType,
}

/// What a [`MemberType`] holds, as contracts see it.
pub enum MemberTypeModel {
    Text,
    Long,
    Integer,
    Short,
    UnsignedLong,
    Double,
    Float,
    Boolean,
    Record { members: Seq<MemberModel> },
}

/// What a [`Member`] holds, as contracts see it.
pub struct MemberModel {
    pub name: Seq<char>,
    pub member_type: MemberTypeModel,
}

/// The member that `m` stands for.
pub open spec fn member_model(m: Member) -> MemberModel
    decreases m,
{
    MemberModel { name: m.name@, member_type: member_type_model(m.member_type) }
}

/// The type that `t` stands for.
pub open spec fn member_type_model(t: MemberType) -> MemberTypeModel
    decreases t,
{
    match t {
        MemberType::Text => MemberTypeModel::Text,
        MemberType::Long => MemberTypeModel::Long,
        MemberType::Integer => MemberTypeModel::Integer,
        MemberType::Short => MemberTypeModel::Short,
        MemberType::UnsignedLong => MemberTypeModel::UnsignedLong,
        MemberType::Double => MemberTypeModel::Double,
        MemberType::Float => MemberTypeModel::Float,
        MemberType::Boolean => MemberTypeModel::Boolean,
        MemberType::Record { members } => MemberTypeModel::Record {
            members: Seq::new(
                members@.len(),
                |i: int|
                    if 0 <= i < members@.len() {
                        member_model(members@[i])
                    } else {
                        arbitrary()
                    },
            ),
        },
    }
}

impl DeepView for Member {
    type V = MemberModel;

    open spec fn deep_view(&self) -> MemberModel {
        member_model(*self)
    }
}

impl DeepView for MemberType {
    type V = MemberTypeModel;

    open spec fn deep_view(&self) -> MemberTypeModel {
        member_type_model(*self)
    }
}

/// The members of a record type, seen through its model, are the models of
/// its members.
pub proof fn lemma_record_members(members: Vec<Member>)
    ensures
        (MemberType::Record { members }).deep_view() == (MemberTypeModel::Record {
            members: members.deep_view(),
        }),
{
    assert(member_type_model(MemberType::Record { members })->members =~= members.deep_view());
}

/// The name of a member under the names that enclose it.
pub open spec fn qualified_name(prefix: Option<Seq<char>>, member: Seq<char>) -> Seq<char> {
    match prefix {
        None => member,
        Some(outer) => outer + "."@ + member,
    }
}

/// A field without sub-fields.
pub open spec fn leaf(name: Seq<char>, field_type: FieldTypeModel) -> FieldModel {
    FieldModel { name, field_type, fields: Seq::empty() }
}

/// What a member of a scalar type yields: one field of kind `field_type`
/// under its name, and nothing where there is no name.
pub open spec fn scalar_fields(name: Option<Seq<char>>, field_type: FieldTypeModel) -> Seq<
    FieldModel,
> {
    match name {
        None => Seq::empty(),
        Some(s) => seq![leaf(s, field_type)],
    }
}

/// What a string member yields: a text field under its name, with one
/// keyword sub-field `name.keyword` for exact matches.
pub open spec fn string_fields(name: Option<Seq<char>>) -> Seq<FieldModel> {
    match name {
        None => Seq::empty(),
        Some(s) => seq![
            FieldModel {
                name: s,
                field_type: FieldTypeModel::Text { analyzer: default_analyzer() },
                fields: seq![
                    leaf(
                        s + ".keyword"@,
                        FieldTypeModel::Keyword { normalizer: default_normalizer() },
                    ),
                ],
            },
        ],
    }
}

/// What a member of type `t` yields under `name`.
pub open spec fn member_fields(t: MemberTypeModel, name: Option<Seq<char>>) -> Seq<FieldModel>
    decreases t,
{
    match t {
        MemberTypeModel::Text => string_fields(name),
        MemberTypeModel::Long => scalar_fields(name, FieldTypeModel::Long),
        MemberTypeModel::Integer => scalar_fields(name, FieldTypeModel::Integer),
        MemberTypeModel::Short => scalar_fields(name, FieldTypeModel::Short),
        MemberTypeModel::UnsignedLong => scalar_fields(name, FieldTypeModel::UnsignedLong),
        MemberTypeModel::Double => scalar_fields(name, FieldTypeModel::Double),
        MemberTypeModel::Float => scalar_fields(name, FieldTypeModel::Float),
        MemberTypeModel::Boolean => scalar_fields(name, FieldTypeModel::Boolean),
        MemberTypeModel::Record { members } => record_fields(members, name),
    }
}

/// What a record with the given members yields under `name`: the fields of
/// its members in order, each member under its qualified name.
pub open spec fn record_fields(members: Seq<MemberModel>, name: Option<Seq<char>>) -> Seq<
    FieldModel,
>
    decreases members,
{
    if members.len() == 0 {
        Seq::empty()
    } else {
        record_fields(members.drop_last(), name) + member_fields(
            members.last().member_type,
            Some(qualified_name(name, members.last().name)),
        )
    }
}

/// The name of `member` under the names that enclose it.
pub fn member_name(prefix: Option<&str>, member: &str) -> (name: String)
    ensures
        name@ == qualified_name(prefix.deep_view(), member@),
{
    match prefix {
        None => member.to_owned(),
        Some(outer) => {
            let mut name = outer.to_owned();
            name.append(".");
            name.append(member);
            name
        },
    }
}

/// What a member of a scalar type yields under `name`.
pub fn scalar_into_fields(name: Option<&str>, field_type: FieldType) -> (fields: Vec<Field>)
    ensures
        fields.deep_view() == scalar_fields(name.deep_view(), field_type.deep_view()),
{
    let mut fields: Vec<Field> = Vec::new();
    match name {
        None => {
            assert(fields.deep_view() =~= Seq::empty());
        },
        Some(s) => {
            let field = Field { name: s.to_owned(), fields: Vec::new(), field_type: field_type };
            assert(field.deep_view().fields =~= Seq::empty());
            fields.push(field);
            assert(fields.deep_view() =~= seq![leaf(s@, field_type.deep_view())]);
        },
    }
    fields
}

/// What a string member yields under `name`.
pub fn string_into_fields(name: Option<&str>) -> (fields: Vec<Field>)
    ensures
        fields.deep_view() == string_fields(name.deep_view()),
{
    let mut fields: Vec<Field> = Vec::new();
    match name {
        None => {
            assert(fields.deep_view() =~= Seq::empty());
        },
        Some(s) => {
            let keyword = Field {
                name: s.to_owned().concat(".keyword"),
                fields: Vec::new(),
                field_type: FieldType::Keyword { normalizer: Normalizer::default() },
            };
            assert(keyword.deep_view().fields =~= Seq::empty());
            let mut sub: Vec<Field> = Vec::new();
            sub.push(keyword);
            let text = Field {
                name: s.to_owned(),
                fields: sub,
                field_type: FieldType::Text { analyzer: Analyzer::default() },
            };
            assert(text.deep_view().fields =~= seq![keyword.deep_view()]);
            fields.push(text);
            assert(fields.deep_view() =~= string_fields(name.deep_view()));
        },
    }
    fields
}

/// Appends the fields in `more` to `fields`.
pub fn append_fields(fields: &mut Vec<Field>, more: Vec<Field>)
    ensures
        final(fields).deep_view() == old(fields).deep_view() + more.deep_view(),
{
    let mut more = more;
    let ghost before = fields.deep_view();
    let ghost added = more.deep_view();
    fields.append(&mut more);
    assert(fields.deep_view() =~= before + added);
}

impl MemberType {
    /// What a member of this type yields under `name`.
    pub fn into_fields(&self, name: Option<&str>) -> (fields: Vec<Field>)
        ensures
            fields.deep_view() == member_fields(self.deep_view(), name.deep_view()),
        decreases self.deep_view(), 1int,
    {
        match self {
            MemberType::Text => string_into_fields(name),
            MemberType::Long => scalar_into_fields(name, FieldType::Long),
            MemberType::Integer => scalar_into_fields(name, FieldType::Integer),
            MemberType::Short => scalar_into_fields(name, FieldType::Short),
            MemberType::UnsignedLong => scalar_into_fields(name, FieldType::UnsignedLong),
            MemberType::Double => scalar_into_fields(name, FieldType::Double),
            MemberType::Float => scalar_into_fields(name, FieldType::Float),
            MemberType::Boolean => scalar_into_fields(name, FieldType::Boolean),
            MemberType::Record { members } => {
                let slice = members.as_slice();
                proof {
                    lemma_record_members(*members);
                    assert(slice.deep_view() =~= members.deep_view());
                    assert(decreases_to!(self.deep_view() => self.deep_view()->members));
                }
                record_into_fields(slice, name)
            },
        }
    }
}

/// What a record with the given members yields under `name`; with no name,
/// the fields of the record at top level.
pub fn record_into_fields(members: &[Member], name: Option<&str>) -> (fields: Vec<Field>)
    ensures
        fields.deep_view() == record_fields(members.deep_view(), name.deep_view()),
    decreases members.deep_view(), 0int,
{
    let mut fields: Vec<Field> = Vec::new();
    let mut i: usize = 0;
    assert(fields.deep_view() =~= Seq::empty());
    while i < members.len()
        invariant
            i <= members.len(),
            fields.deep_view() == record_fields(
                members.deep_view().take(i as int),
                name.deep_view(),
            ),
        decreases members.len() - i,
    {
        let member = &members[i];
        proof {
            let all = members.deep_view();
            assert(all.take(i + 1).drop_last() =~= all.take(i as int));
            assert(all.take(i + 1).last() == member.deep_view());
            assert(all[i as int] == member.deep_view());
            assert(decreases_to!(all => all[i as int]));
            assert(decreases_to!(all[i as int] => all[i as int].member_type));
        }
        let qualified = member_name(name, member.name.as_str());
        let more = member.member_type.into_fields(Some(qualified.as_str()));
        append_fields(&mut fields, more);
        i += 1;
    }
    assert(members.deep_view().take(i as int) =~= members.deep_view());
    fields
}

/// The mapping of the index of a record with the given members.
pub fn record_index_mapping(members: &[Member]) -> (mapping: IndexMapping)
    ensures
        mapping.deep_view() == (IndexMappingModel {
            fields: record_fields(members.deep_view(), None),
        }),
{
    IndexMapping { fields: record_into_fields(members, None) }
}

/// The mapping of the index of records of type `T`: what `T` yields at top
/// level.
pub fn index_mapping_of<T: IntoFields>() -> (mapping: IndexMapping)
    ensures
        call_ensures(T::into_fields, (None,), mapping.fields),
{
    IndexMapping { fields: T::into_fields(None) }
}

impl IntoFields for String {
    fn into_fields(name: Option<&str>) -> (fields: Vec<Field>)
        ensures
            fields.deep_view() == string_fields(name.deep_view()),
    {
        string_into_fields(name)
    }
}

impl IntoFields for i64 {
    fn into_fields(name: Option<&str>) -> (fields: Vec<Field>)
        ensures
            fields.deep_view() == scalar_fields(name.deep_view(), FieldTypeModel::Long),
    {
        scalar_into_fields(name, FieldType::Long)
    }
}

impl IntoFields for i32 {
    fn into_fields(name: Option<&str>) -> (fields: Vec<Field>)
        ensures
            fields.deep_view() == scalar_fields(name.deep_view(), FieldTypeModel::Integer),
    {
        scalar_into_fields(name, FieldType::Integer)
    }
}

impl IntoFields for i16 {
    fn into_fields(name: Option<&str>) -> (fields: Vec<Field>)
        ensures
            fields.deep_view() == scalar_fields(name.deep_view(), FieldTypeModel::Short),
    {
        scalar_into_fields(name, FieldType::Short)
    }
}

impl IntoFields for u64 {
    fn into_fields(name: Option<&str>) -> (fields: Vec<Field>)
        ensures
            fields.deep_view() == scalar_fields(name.deep_view(), FieldTypeModel::UnsignedLong),
    {
        scalar_into_fields(name, FieldType::UnsignedLong)
    }
}

impl IntoFields for bool {
    fn into_fields(name: Option<&str>) -> (fields: Vec<Field>)
        ensures
            fields.deep_view() == scalar_fields(name.deep_view(), FieldTypeModel::Boolean),
    {
        scalar_into_fields(name, FieldType::Boolean)
    }
}

} // verus!
