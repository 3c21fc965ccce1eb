use sedk::primitives::{append_fields, scalar_into_fields, string_into_fields};
use sedk::{
    member_name, record_index_mapping, record_into_fields, Analyzer, Field, FieldType,
    IndexMapping, Indexable, IntoFields, Member, MemberType, Normalizer,
};

fn member(name: &str, member_type: MemberType) -> Member {
    Member { name: name.to_owned(), member_type }
}

fn text_with_keyword(name: &str) -> Field {
    Field {
        name: name.to_owned(),
        field_type: FieldType::Text { analyzer: Analyzer::default() },
        fields: vec![Field {
            name: name.to_owned() + ".keyword",
            field_type: FieldType::Keyword { normalizer: Normalizer::default() },
            fields: Vec::new(),
        }],
    }
}

fn integer(name: &str) -> Field {
    Field { name: name.to_owned(), field_type: FieldType::Integer, fields: Vec::new() }
}

// A record type written out by hand: `Child { integer: i32, string: String }`.
struct Child;

impl IntoFields for Child {
    fn into_fields(name: Option<&str>) -> Vec<Field> {
        let mut fields = Vec::new();
        append_fields(&mut fields, i32::into_fields(Some(&member_name(name, "integer"))));
        append_fields(&mut fields, String::into_fields(Some(&member_name(name, "string"))));
        fields
    }
}

// `Parent { child: Child }`.
struct Parent;

impl IntoFields for Parent {
    fn into_fields(name: Option<&str>) -> Vec<Field> {
        let mut fields = Vec::new();
        append_fields(&mut fields, Child::into_fields(Some(&member_name(name, "child"))));
        fields
    }
}

impl Indexable for Parent {
    fn index_mapping() -> IndexMapping {
        IndexMapping { fields: Parent::into_fields(None) }
    }
}

#[test]
fn string_member_yields_text_with_keyword_child() {
    let fields = record_into_fields(&[member("bio", MemberType::Text)], None);
    assert_eq!(fields.len(), 1);
    assert_eq!(fields[0].name, "bio");
    assert_eq!(fields[0].field_type, FieldType::Text { analyzer: Analyzer::default() });
    assert_eq!(fields[0].fields.len(), 1);
    assert_eq!(fields[0].fields[0].name, "bio.keyword");
    assert_eq!(
        fields[0].fields[0].field_type,
        FieldType::Keyword { normalizer: Normalizer::default() }
    );
    assert!(fields[0].fields[0].fields.is_empty());
    assert_eq!(String::into_fields(Some("bio")), fields);
}

#[test]
fn nested_record_member_prefixes_its_fields() {
    let child = MemberType::Record {
        members: vec![member("integer", MemberType::Integer), member("label", MemberType::Text)],
    };
    let fields = record_into_fields(&[member("child", child)], None);
    assert_eq!(fields, vec![integer("child.integer"), text_with_keyword("child.label")]);
    assert_eq!(fields[1].fields[0].name, "child.label.keyword");
}

#[test]
fn primitives() {
    let members = [member("integer", MemberType::Integer), member("string", MemberType::Text)];
    let fields = record_into_fields(&members, None);
    let mapping = record_index_mapping(&members);
    assert_eq!(fields, vec![integer("integer"), text_with_keyword("string")]);
    assert_eq!(fields, mapping.fields);
    assert_eq!(Child::into_fields(None), fields);
}

#[test]
fn composition() {
    assert_eq!(
        Parent::into_fields(None),
        vec![integer("child.integer"), text_with_keyword("child.string")]
    );
    assert_eq!(Parent::index_mapping().fields, Parent::into_fields(None));
}

#[test]
fn enclosing_name_prefixes_every_field() {
    let members = [member("integer", MemberType::Integer), member("string", MemberType::Text)];
    assert_eq!(
        record_into_fields(&members, Some("outer")),
        vec![integer("outer.integer"), text_with_keyword("outer.string")]
    );
    assert_eq!(Child::into_fields(Some("outer")), record_into_fields(&members, Some("outer")));
}

#[test]
fn member_names_are_joined_by_dots() {
    assert_eq!(member_name(None, "m"), "m");
    assert_eq!(member_name(Some("a"), "m"), "a.m");
    assert_eq!(member_name(Some("a.b"), "m"), "a.b.m");
}

#[test]
fn scalar_members_map_to_their_field_types() {
    let cases = [
        (MemberType::Long, FieldType::Long),
        (MemberType::Integer, FieldType::Integer),
        (MemberType::Short, FieldType::Short),
        (MemberType::UnsignedLong, FieldType::UnsignedLong),
        (MemberType::Double, FieldType::Double),
        (MemberType::Float, FieldType::Float),
        (MemberType::Boolean, FieldType::Boolean),
    ];
    for (member_type, field_type) in cases {
        let fields = member_type.into_fields(Some("m"));
        assert_eq!(
            fields,
            vec![Field { name: "m".to_owned(), field_type, fields: Vec::new() }]
        );
        assert!(member_type.into_fields(None).is_empty());
    }
}

#[test]
fn primitive_types_map_to_their_field_types() {
    let leaf = |field_type| vec![Field { name: "m".to_owned(), field_type, fields: Vec::new() }];
    assert_eq!(i64::into_fields(Some("m")), leaf(FieldType::Long));
    assert_eq!(i32::into_fields(Some("m")), leaf(FieldType::Integer));
    assert_eq!(i16::into_fields(Some("m")), leaf(FieldType::Short));
    assert_eq!(u64::into_fields(Some("m")), leaf(FieldType::UnsignedLong));
    assert_eq!(bool::into_fields(Some("m")), leaf(FieldType::Boolean));
    assert_eq!(scalar_into_fields(Some("m"), FieldType::Double), leaf(FieldType::Double));
    assert_eq!(scalar_into_fields(Some("m"), FieldType::Float), leaf(FieldType::Float));
    assert_eq!(string_into_fields(Some("m")), vec![text_with_keyword("m")]);
}

#[test]
fn nothing_is_yielded_without_a_name() {
    assert!(String::into_fields(None).is_empty());
    assert!(i64::into_fields(None).is_empty());
    assert!(i32::into_fields(None).is_empty());
    assert!(i16::into_fields(None).is_empty());
    assert!(u64::into_fields(None).is_empty());
    assert!(bool::into_fields(None).is_empty());
    assert!(MemberType::Text.into_fields(None).is_empty());
    assert!(record_into_fields(&[], None).is_empty());
    assert!(record_into_fields(&[], Some("outer")).is_empty());
}

#[test]
fn records_nest_to_any_depth() {
    let inner = MemberType::Record { members: vec![member("flag", MemberType::Boolean)] };
    let middle = MemberType::Record {
        members: vec![member("inner", inner), member("count", MemberType::Long)],
    };
    let fields = record_into_fields(&[member("middle", middle)], None);
    assert_eq!(
        fields,
        vec![
            Field {
                name: "middle.inner.flag".to_owned(),
                field_type: FieldType::Boolean,
                fields: Vec::new()
            },
            Field {
                name: "middle.count".to_owned(),
                field_type: FieldType::Long,
                fields: Vec::new()
            },
        ]
    );
}
