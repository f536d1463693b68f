use ls_types::config::{CodegenOption, Config};
use ls_types::schema::{
    BaseType, EntryValue, Enumeration, EnumerationEntry, EnumerationType, EnumerationTypeKind,
    MetaData, MetaModel, Property, Structure, StructureLiteral, Type,
};
use ls_types::target::{Enum, EnumVariants, Item, Struct, StructFields, TypeRef, Version, VersionError};
use ls_types::translate::{
    translate_schema, Drift, EntityKind, EnumerationError, StructureError, TranslateError,
    Translation, Translator, TypeError,
};

fn base(name: BaseType) -> Type {
    Type::Base { name }
}

fn null() -> Type {
    base(BaseType::Null)
}

fn reference(name: &str) -> Type {
    Type::Reference { name: name.to_string() }
}

fn array(element: Type) -> Type {
    Type::Array { element: Box::new(element) }
}

fn map(key: Type, value: Type) -> Type {
    Type::Mapping { key: Box::new(key), value: Box::new(value) }
}

fn or(items: Vec<Type>) -> Type {
    Type::Or { items }
}

fn string_literal(value: &str) -> Type {
    Type::StringLiteral { value: value.to_string() }
}

fn property(name: &str, type_: Type) -> Property {
    Property {
        name: name.to_string(),
        type_,
        documentation: None,
        optional: None,
        since: None,
        since_tags: None,
        proposed: None,
        deprecated: None,
    }
}

fn literal(properties: Vec<Property>) -> Type {
    Type::Literal {
        value: StructureLiteral {
            properties,
            documentation: None,
            since: None,
            since_tags: None,
            proposed: false,
            deprecated: None,
        },
    }
}

fn empty_literal() -> Type {
    literal(vec![])
}

fn structure(name: &str, properties: Vec<Property>) -> Structure {
    Structure {
        name: name.to_string(),
        properties,
        extends: vec![],
        mixins: vec![],
        documentation: None,
        since: None,
        since_tags: None,
        proposed: None,
        deprecated: None,
    }
}

fn entry(name: &str, since: Option<&str>) -> EnumerationEntry {
    EnumerationEntry {
        name: name.to_string(),
        value: EntryValue::String(name.to_lowercase()),
        documentation: None,
        since: since.map(|s| s.to_string()),
        proposed: false,
    }
}

fn enumeration(name: &str, kind: EnumerationTypeKind, values: Vec<EnumerationEntry>) -> Enumeration {
    Enumeration {
        name: name.to_string(),
        type_: EnumerationType::Base { name: kind },
        values,
        supports_custom_values: false,
        documentation: None,
        since: None,
        proposed: false,
        deprecated: None,
    }
}

fn model(structures: Vec<Structure>, enumerations: Vec<Enumeration>) -> MetaModel {
    MetaModel {
        meta_data: MetaData { version: "3.17.0".to_string() },
        requests: vec![],
        notifications: vec![],
        structures,
        enumerations,
        type_aliases: vec![],
    }
}

fn config(
    anon: &[(&str, &str)],
    structs: Vec<(&str, CodegenOption)>,
    enums: Vec<(&str, CodegenOption)>,
) -> Config {
    Config {
        version: "1".to_string(),
        anon_mappings: anon.iter().map(|(k, v)| (k.to_string(), v.to_string())).collect(),
        structs: structs.into_iter().map(|(k, v)| (k.to_string(), v)).collect(),
        enums: enums.into_iter().map(|(k, v)| (k.to_string(), v)).collect(),
    }
}

fn translator(config: &Config) -> Translator<'_> {
    Translator {
        config,
        structs_missing: vec![],
        enums_missing: vec![],
        anon_missing: vec![],
        drifted: vec![],
    }
}

/// Translates one type under a table of anonymous unions and gives the
/// text of the result and the keys that were recorded.
fn translate(t: &Type, anon: &[(&str, &str)]) -> (Result<Option<String>, TypeError>, Vec<String>) {
    let config = config(anon, vec![], vec![]);
    let mut state = translator(&config);
    let result = t.translate(&mut state).map(|r| r.map(|r| r.as_str().to_string()));
    assert!(state.structs_missing.is_empty());
    assert!(state.enums_missing.is_empty());
    assert!(state.drifted.is_empty());
    (result, state.anon_missing)
}

fn ok(text: &str) -> Result<Option<String>, TypeError> {
    Ok(Some(text.to_string()))
}

fn field(name: &str, ty: &str) -> StructFields {
    StructFields {
        name: name.to_string(),
        ty: TypeRef::new(ty),
        doc: None,
        since: Version::Unknown,
        deprecated: None,
    }
}

fn declared(name: &str, fields: Vec<StructFields>) -> Struct {
    Struct {
        name: name.to_string(),
        extends: vec![],
        fields,
        doc: None,
        deprecated: None,
        since: Version::Unknown,
    }
}

fn no_keys() -> Vec<String> {
    vec![]
}

#[test]
fn primitives_translate_to_their_target_types() {
    assert_eq!(translate(&base(BaseType::Uri), &[]), (ok("crate::Uri"), no_keys()));
    assert_eq!(
        translate(&base(BaseType::DocumentUri), &[]),
        (ok("crate::DocumentUri"), no_keys())
    );
    assert_eq!(translate(&base(BaseType::Integer), &[]), (ok("i64"), no_keys()));
    assert_eq!(translate(&base(BaseType::Uinteger), &[]), (ok("u32"), no_keys()));
    assert_eq!(translate(&base(BaseType::Decimal), &[]), (ok("f32"), no_keys()));
    assert_eq!(translate(&base(BaseType::String), &[]), (ok("String"), no_keys()));
    assert_eq!(translate(&base(BaseType::Boolean), &[]), (ok("bool"), no_keys()));
}

#[test]
fn regexp_and_null_have_no_translation() {
    assert_eq!(translate(&base(BaseType::RegExp), &[]), (Err(TypeError::RegExp), no_keys()));
    assert_eq!(translate(&null(), &[]), (Err(TypeError::Null), no_keys()));
}

#[test]
fn a_reference_passes_through_unresolved() {
    assert_eq!(translate(&reference("Nowhere"), &[]), (ok("Nowhere"), no_keys()));
}

#[test]
fn an_array_is_a_vec_of_its_element() {
    assert_eq!(translate(&array(reference("Foo")), &[]), (ok("Vec<Foo>"), no_keys()));
    assert_eq!(translate(&array(string_literal("x")), &[]), (Ok(None), no_keys()));
    assert_eq!(
        translate(&array(base(BaseType::RegExp)), &[]),
        (Err(TypeError::RegExp), no_keys())
    );
}

#[test]
fn a_map_is_a_hash_map_of_its_key_and_value() {
    assert_eq!(
        translate(&map(base(BaseType::String), reference("Foo")), &[]),
        (ok("std::collections::HashMap<String,Foo>"), no_keys())
    );
    assert_eq!(
        translate(&map(string_literal("k"), reference("Foo")), &[]),
        (Ok(None), no_keys())
    );
    assert_eq!(
        translate(&map(base(BaseType::String), string_literal("v")), &[]),
        (Ok(None), no_keys())
    );
    assert_eq!(
        translate(&map(null(), base(BaseType::RegExp)), &[]),
        (Err(TypeError::Null), no_keys())
    );
    assert_eq!(
        translate(&map(base(BaseType::String), base(BaseType::RegExp)), &[]),
        (Err(TypeError::RegExp), no_keys())
    );
}

#[test]
fn a_dropped_key_keeps_the_value_from_being_translated() {
    let value = or(vec![reference("A"), reference("B")]);
    assert_eq!(translate(&map(string_literal("k"), value), &[]), (Ok(None), no_keys()));
}

#[test]
fn a_union_with_null_second_is_an_option_of_the_first() {
    assert_eq!(
        translate(&or(vec![reference("Bar"), null()]), &[]),
        (ok("Option<Bar>"), no_keys())
    );
    assert_eq!(
        translate(&or(vec![array(base(BaseType::Uinteger)), null()]), &[]),
        (ok("Option<Vec<u32>>"), no_keys())
    );
    assert_eq!(translate(&or(vec![string_literal("x"), null()]), &[]), (Ok(None), no_keys()));
    assert_eq!(
        translate(&or(vec![base(BaseType::RegExp), null()]), &[]),
        (Err(TypeError::RegExp), no_keys())
    );
    assert_eq!(translate(&or(vec![null(), null()]), &[]), (Err(TypeError::Null), no_keys()));
}

#[test]
fn a_union_with_null_first_is_not_read_as_optional() {
    assert_eq!(
        translate(&or(vec![null(), reference("Bar")]), &[]),
        (Err(TypeError::UndecidableUnion), no_keys())
    );
    assert_eq!(
        translate(&or(vec![null(), reference("Bar")]), &[("Bar", "Bar")]),
        (Err(TypeError::UndecidableUnion), no_keys())
    );
}

#[test]
fn an_empty_structure_and_null_leave_null_alone() {
    assert_eq!(
        translate(&or(vec![empty_literal(), null()]), &[]),
        (Err(TypeError::Null), no_keys())
    );
}

#[test]
fn a_union_of_one_remaining_arm_is_that_arm() {
    assert_eq!(translate(&or(vec![reference("Foo")]), &[]), (ok("Foo"), no_keys()));
    assert_eq!(
        translate(&or(vec![empty_literal(), reference("Foo")]), &[]),
        (ok("Foo"), no_keys())
    );
    assert_eq!(
        translate(&or(vec![reference("Foo"), empty_literal(), empty_literal()]), &[]),
        (ok("Foo"), no_keys())
    );
    assert_eq!(
        translate(&or(vec![empty_literal(), string_literal("x")]), &[]),
        (Ok(None), no_keys())
    );
    assert_eq!(
        translate(&or(vec![empty_literal(), or(vec![reference("T"), null()])]), &[]),
        (ok("Option<T>"), no_keys())
    );
}

#[test]
fn empty_structures_are_left_out_before_null_is_looked_for() {
    assert_eq!(
        translate(&or(vec![reference("Foo"), empty_literal(), null()]), &[]),
        (ok("Option<Foo>"), no_keys())
    );
}

#[test]
fn a_structure_with_properties_is_kept_as_an_arm() {
    let full = literal(vec![property("x", base(BaseType::Integer))]);
    assert_eq!(translate(&or(vec![full]), &[]), (Err(TypeError::Literal), no_keys()));
}

#[test]
fn a_named_union_is_the_configured_type() {
    assert_eq!(
        translate(&or(vec![reference("A"), reference("B")]), &[("A|B", "AOrB")]),
        (ok("AOrB"), no_keys())
    );
    assert_eq!(
        translate(
            &or(vec![reference("A"), reference("B"), null()]),
            &[("A|B", "AOrB")]
        ),
        (Err(TypeError::UndecidableUnion), no_keys())
    );
}

#[test]
fn a_union_without_a_name_is_the_placeholder_and_records_its_key() {
    assert_eq!(
        translate(&or(vec![reference("A"), reference("B")]), &[]),
        (ok("todo!()"), vec!["A|B".to_string()])
    );
    assert_eq!(
        translate(&or(vec![]), &[]),
        (ok("todo!()"), vec!["".to_string()])
    );
    assert_eq!(
        translate(
            &or(vec![empty_literal(), base(BaseType::Integer), array(reference("A")), empty_literal()]),
            &[("A|B", "AOrB")]
        ),
        (ok("todo!()"), vec!["i64|Vec<A>".to_string()])
    );
}

#[test]
fn keys_are_recorded_once_and_kept_sorted() {
    let ab = or(vec![reference("A"), reference("B")]);
    let cd = or(vec![reference("C"), reference("D")]);
    let ab_again = or(vec![reference("A"), reference("B")]);
    let outer = map(array(cd), or(vec![map(ab, ab_again), null()]));
    assert_eq!(
        translate(&outer, &[]),
        (
            ok("std::collections::HashMap<Vec<todo!()>,Option<std::collections::HashMap<todo!(),todo!()>>>"),
            vec!["A|B".to_string(), "C|D".to_string()]
        )
    );
}

#[test]
fn keys_met_before_an_error_stay_recorded() {
    let ab = or(vec![reference("A"), reference("B")]);
    assert_eq!(
        translate(&map(ab, base(BaseType::RegExp)), &[]),
        (Err(TypeError::RegExp), vec!["A|B".to_string()])
    );
}

#[test]
fn keys_are_added_to_those_the_translator_holds() {
    let config = config(&[], vec![], vec![]);
    let mut state = translator(&config);
    state.anon_missing = vec!["A|B".to_string(), "X".to_string()];
    let t = map(
        or(vec![reference("C"), reference("D")]),
        or(vec![reference("A"), reference("B")]),
    );
    t.translate(&mut state).unwrap();
    assert_eq!(state.anon_missing, vec!["A|B", "C|D", "X"]);
}

#[test]
fn tuples_and_literals_have_no_translation() {
    assert_eq!(
        translate(&Type::Tuple { items: vec![reference("A")] }, &[]),
        (Err(TypeError::Tuple), no_keys())
    );
    assert_eq!(translate(&Type::Tuple { items: vec![] }, &[]), (Err(TypeError::Tuple), no_keys()));
    assert_eq!(translate(&empty_literal(), &[]), (Err(TypeError::Literal), no_keys()));
    assert_eq!(
        translate(&Type::IntegerLiteral { value: 7 }, &[]),
        (Err(TypeError::IntegerLiteral), no_keys())
    );
    assert_eq!(
        translate(&Type::BooleanLiteral { value: false }, &[]),
        (Err(TypeError::BooleanLiteral), no_keys())
    );
}

#[test]
fn a_string_literal_is_dropped() {
    assert_eq!(translate(&string_literal("kind"), &[]), (Ok(None), no_keys()));
}

#[test]
fn a_structure_becomes_a_struct_with_its_fields_in_order() {
    let mut s = structure(
        "Foo",
        vec![
            property("b", base(BaseType::Boolean)),
            property("kind", string_literal("foo")),
            property("a", array(reference("Bar"))),
        ],
    );
    s.documentation = Some("A foo.".to_string());
    s.since = Some("3.16.0".to_string());
    s.deprecated = Some("Use Bar.".to_string());
    s.properties[0].documentation = Some("The flag.".to_string());
    s.properties[0].since = Some("version 3.17.0 - later".to_string());
    s.properties[2].deprecated = Some("Gone.".to_string());
    let config = config(&[], vec![], vec![]);
    let mut state = translator(&config);
    let made = s.translate(&mut state).unwrap();
    assert_eq!(
        made,
        Struct {
            name: "Foo".to_string(),
            extends: vec![],
            fields: vec![
                StructFields {
                    name: "b".to_string(),
                    ty: TypeRef::new("bool"),
                    doc: Some("The flag.".to_string()),
                    since: Version::V3_17_0,
                    deprecated: None,
                },
                StructFields {
                    name: "a".to_string(),
                    ty: TypeRef::new("Vec<Bar>"),
                    doc: None,
                    since: Version::Unknown,
                    deprecated: Some("Gone.".to_string()),
                },
            ],
            doc: Some("A foo.".to_string()),
            deprecated: Some("Use Bar.".to_string()),
            since: Version::V3_16_0,
        }
    );
    assert!(state.anon_missing.is_empty());
}

#[test]
fn bases_are_extends_followed_by_mixins_without_deduplication() {
    let mut s = structure("Foo", vec![]);
    s.extends = vec![reference("B"), reference("A")];
    s.mixins = vec![reference("A"), array(base(BaseType::String)), reference("C")];
    let config = config(&[], vec![], vec![]);
    let made = s.translate(&mut translator(&config)).unwrap();
    assert_eq!(made.extends, vec!["B", "A", "A", "Vec<String>", "C"]);
    assert!(made.fields.is_empty());
}

#[test]
fn a_base_that_does_not_collapse_ends_the_structure() {
    let config = config(&[], vec![], vec![]);
    let mut s = structure("Foo", vec![property("x", base(BaseType::RegExp))]);
    s.extends = vec![reference("A"), null()];
    s.mixins = vec![empty_literal()];
    assert_eq!(s.translate(&mut translator(&config)), Err(StructureError::Extends(1)));
    s.extends = vec![reference("A")];
    assert_eq!(s.translate(&mut translator(&config)), Err(StructureError::Mixin(0)));
}

#[test]
fn a_property_that_fails_ends_the_structure_with_its_name() {
    let config = config(&[], vec![], vec![]);
    let s = structure(
        "Foo",
        vec![
            property("u", or(vec![reference("A"), reference("B")])),
            property("x", base(BaseType::RegExp)),
            property("y", null()),
        ],
    );
    let mut state = translator(&config);
    assert_eq!(
        s.translate(&mut state),
        Err(StructureError::Property {
            name: "x".to_string(),
            cause: TypeError::RegExp
        })
    );
    assert_eq!(state.anon_missing, vec!["A|B"]);
}

#[test]
fn a_tag_that_names_no_version_ends_the_structure() {
    let config = config(&[], vec![], vec![]);
    let mut s = structure("Foo", vec![property("x", base(BaseType::Integer))]);
    s.properties[0].since = Some("4.0".to_string());
    s.since = Some("5.0".to_string());
    assert_eq!(
        s.translate(&mut translator(&config)),
        Err(StructureError::Version(VersionError { token: "4.0".to_string() }))
    );
    s.properties[0].since = None;
    assert_eq!(
        s.translate(&mut translator(&config)),
        Err(StructureError::Version(VersionError { token: "5.0".to_string() }))
    );
}

#[test]
fn the_tag_of_a_dropped_property_is_not_read() {
    let config = config(&[], vec![], vec![]);
    let mut s = structure("Foo", vec![property("kind", string_literal("foo"))]);
    s.properties[0].since = Some("4.0".to_string());
    assert_eq!(s.translate(&mut translator(&config)), Ok(declared("Foo", vec![])));
}

#[test]
fn an_enumeration_of_strings_becomes_an_enum_with_its_variants_in_order() {
    let mut e = enumeration(
        "Kind",
        EnumerationTypeKind::String,
        vec![entry("Zeta", Some("3.16")), entry("Alpha", None)],
    );
    e.documentation = Some("Kinds.".to_string());
    e.since = Some("3.15.0".to_string());
    e.deprecated = Some("Old.".to_string());
    e.values[1].documentation = Some("First letter.".to_string());
    assert_eq!(
        e.translate(),
        Ok(Enum {
            name: "Kind".to_string(),
            variants: vec![
                EnumVariants {
                    name: "Zeta".to_string(),
                    doc: None,
                    since: Version::V3_17_0,
                },
                EnumVariants {
                    name: "Alpha".to_string(),
                    doc: Some("First letter.".to_string()),
                    since: Version::Unknown,
                },
            ],
            doc: Some("Kinds.".to_string()),
            deprecated: Some("Old.".to_string()),
            since: Version::V3_15_0,
        })
    );
}

#[test]
fn enumerations_of_numbers_have_no_translation() {
    let e = enumeration("Kind", EnumerationTypeKind::Integer, vec![entry("A", Some("bad"))]);
    assert_eq!(e.translate(), Err(EnumerationError::IntegerKind));
    let e = enumeration("Kind", EnumerationTypeKind::Uinteger, vec![]);
    assert_eq!(e.translate(), Err(EnumerationError::UintegerKind));
}

#[test]
fn a_tag_that_names_no_version_ends_the_enumeration() {
    let mut e = enumeration(
        "Kind",
        EnumerationTypeKind::String,
        vec![entry("A", None), entry("B", Some("nine")), entry("C", Some("ten"))],
    );
    e.since = Some("eleven".to_string());
    assert_eq!(
        e.translate(),
        Err(EnumerationError::Version(VersionError { token: "nine".to_string() }))
    );
    e.values[1].since = None;
    e.values[2].since = None;
    assert_eq!(
        e.translate(),
        Err(EnumerationError::Version(VersionError { token: "eleven".to_string() }))
    );
}

#[test]
fn scenario_optional_field() {
    let schema = model(
        vec![structure(
            "Foo",
            vec![property("x", or(vec![reference("Bar"), null()]))],
        )],
        vec![],
    );
    let config = config(&[], vec![("Foo", CodegenOption::Generate(true))], vec![]);
    let out = translate_schema(&schema, &config).unwrap();
    assert_eq!(
        out.items,
        vec![Item::Struct(declared("Foo", vec![field("x", "Option<Bar>")]))]
    );
    assert!(out.structs_missing.is_empty());
    assert!(out.enums_missing.is_empty());
    assert!(out.anon_missing.is_empty());
    assert!(out.drifted.is_empty());
}

#[test]
fn scenario_union_without_a_mapping() {
    let schema = model(
        vec![structure(
            "Foo",
            vec![property("x", or(vec![reference("A"), reference("B")]))],
        )],
        vec![],
    );
    let config = config(&[], vec![("Foo", CodegenOption::Generate(true))], vec![]);
    let out = translate_schema(&schema, &config).unwrap();
    assert_eq!(
        out.items,
        vec![Item::Struct(declared("Foo", vec![field("x", "todo!()")]))]
    );
    assert_eq!(out.anon_missing, vec!["A|B"]);
}

#[test]
fn both_flags_of_generate_translate() {
    let schema = model(
        vec![structure("T", vec![]), structure("F", vec![])],
        vec![
            enumeration("ET", EnumerationTypeKind::String, vec![]),
            enumeration("EF", EnumerationTypeKind::String, vec![]),
        ],
    );
    let config = config(
        &[],
        vec![
            ("F", CodegenOption::Generate(false)),
            ("T", CodegenOption::Generate(true)),
        ],
        vec![
            ("ET", CodegenOption::Generate(true)),
            ("EF", CodegenOption::Generate(false)),
        ],
    );
    let out = translate_schema(&schema, &config).unwrap();
    let names: Vec<&str> = out
        .items
        .iter()
        .map(|item| match item {
            Item::Struct(s) => s.name.as_str(),
            Item::Enum(e) => e.name.as_str(),
            Item::TraitImpl(t) => t.implementor.as_str(),
        })
        .collect();
    assert_eq!(names, vec!["T", "F", "ET", "EF"]);
    assert!(matches!(out.items[1], Item::Struct(_)));
    assert!(matches!(out.items[2], Item::Enum(_)));
}

#[test]
fn entities_without_a_directive_are_left_out_and_reported() {
    let schema = model(
        vec![structure("B", vec![]), structure("Kept", vec![]), structure("A", vec![])],
        vec![
            enumeration("Y", EnumerationTypeKind::Integer, vec![]),
            enumeration("X", EnumerationTypeKind::String, vec![]),
        ],
    );
    let config = config(
        &[],
        vec![("Kept", CodegenOption::Generate(true)), ("Unused", CodegenOption::Generate(true))],
        vec![],
    );
    let out = translate_schema(&schema, &config).unwrap();
    assert_eq!(out.items, vec![Item::Struct(declared("Kept", vec![]))]);
    assert_eq!(out.structs_missing, vec!["A", "B"]);
    assert_eq!(out.enums_missing, vec!["X", "Y"]);
}

#[test]
fn a_directive_serves_the_first_entity_of_its_name() {
    let schema = model(
        vec![
            structure("Foo", vec![property("first", base(BaseType::Integer))]),
            structure("Foo", vec![property("second", base(BaseType::RegExp))]),
            structure("Gone", vec![]),
            structure("Gone", vec![]),
        ],
        vec![],
    );
    let config = config(&[], vec![("Foo", CodegenOption::Generate(true))], vec![]);
    let out = translate_schema(&schema, &config).unwrap();
    assert_eq!(
        out.items,
        vec![Item::Struct(declared("Foo", vec![field("first", "i64")]))]
    );
    assert_eq!(out.structs_missing, vec!["Foo", "Gone"]);
}

#[test]
fn structures_and_enumerations_have_tables_of_their_own() {
    let schema = model(
        vec![structure("Same", vec![])],
        vec![enumeration("Same", EnumerationTypeKind::String, vec![])],
    );
    let config = config(&[], vec![("Same", CodegenOption::Generate(true))], vec![]);
    let out = translate_schema(&schema, &config).unwrap();
    assert_eq!(out.items, vec![Item::Struct(declared("Same", vec![]))]);
    assert!(out.structs_missing.is_empty());
    assert_eq!(out.enums_missing, vec!["Same"]);
}

#[test]
fn a_generated_structure_appears_once_with_the_fields_that_are_not_dropped() {
    let properties = vec![
        property("kind", string_literal("foo")),
        property("a", base(BaseType::Integer)),
        property("tag", string_literal("bar")),
        property("b", reference("B")),
        property("c", array(string_literal("deep"))),
    ];
    let schema = model(
        vec![structure("Other", vec![]), structure("Foo", properties)],
        vec![enumeration("Foo", EnumerationTypeKind::String, vec![])],
    );
    let config = config(
        &[],
        vec![("Foo", CodegenOption::Generate(true)), ("Other", CodegenOption::Generate(true))],
        vec![("Foo", CodegenOption::Generate(true))],
    );
    let out = translate_schema(&schema, &config).unwrap();
    let found: Vec<&Struct> = out
        .items
        .iter()
        .filter_map(|item| match item {
            Item::Struct(s) if s.name == "Foo" => Some(s),
            _ => None,
        })
        .collect();
    assert_eq!(found.len(), 1);
    let names: Vec<&str> = found[0].fields.iter().map(|f| f.name.as_str()).collect();
    assert_eq!(names, vec!["a", "b"]);
    assert_eq!(found[0].fields.len(), 5 - 3);
}

#[test]
fn translating_twice_gives_the_same() {
    let schema = model(
        vec![
            structure("Foo", vec![property("x", or(vec![reference("A"), reference("B")]))]),
            structure("Frozen", vec![]),
            structure("Missing", vec![]),
        ],
        vec![enumeration("Kind", EnumerationTypeKind::String, vec![entry("A", None)])],
    );
    let config = config(
        &[],
        vec![
            ("Foo", CodegenOption::Generate(true)),
            ("Frozen", CodegenOption::Checksum("0".to_string())),
        ],
        vec![("Kind", CodegenOption::Generate(false))],
    );
    let first = translate_schema(&schema, &config);
    let second = translate_schema(&schema, &config);
    assert_eq!(first, second);
    assert!(first.is_ok());
    let failing = model(vec![structure("Foo", vec![property("x", null())])], vec![]);
    assert_eq!(translate_schema(&failing, &config), translate_schema(&failing, &config));
}

#[test]
fn a_frozen_structure_is_left_out_and_not_reported_while_its_checksum_holds() {
    let frozen = structure("Frozen", vec![property("x", base(BaseType::RegExp))]);
    let checksum = frozen.fingerprint();
    let schema = model(vec![frozen], vec![]);
    let config = config(&[], vec![("Frozen", CodegenOption::Checksum(checksum))], vec![]);
    let out = translate_schema(&schema, &config).unwrap();
    assert_eq!(
        out,
        Translation {
            items: vec![],
            structs_missing: vec![],
            enums_missing: vec![],
            anon_missing: vec![],
            drifted: vec![],
        }
    );
}

#[test]
fn a_frozen_structure_that_changed_is_reported_as_drifted() {
    let before = structure("Frozen", vec![property("x", base(BaseType::Integer))]);
    let checksum = before.fingerprint();
    let after = structure("Frozen", vec![property("x", base(BaseType::Uinteger))]);
    let now = after.fingerprint();
    assert_ne!(checksum, now);
    let schema = model(vec![after], vec![]);
    let config = config(&[], vec![("Frozen", CodegenOption::Checksum(checksum.clone()))], vec![]);
    let out = translate_schema(&schema, &config).unwrap();
    assert!(out.items.is_empty());
    assert_eq!(
        out.drifted,
        vec![Drift {
            kind: EntityKind::Structure,
            name: "Frozen".to_string(),
            expected: checksum,
            actual: now,
        }]
    );
}

#[test]
fn a_frozen_enumeration_is_checked_like_a_structure() {
    let e = enumeration("Kind", EnumerationTypeKind::Integer, vec![entry("A", None)]);
    let checksum = e.fingerprint();
    let schema = model(vec![], vec![e]);
    let held = config(&[], vec![], vec![("Kind", CodegenOption::Checksum(checksum.clone()))]);
    let out = translate_schema(&schema, &held).unwrap();
    assert!(out.items.is_empty());
    assert!(out.drifted.is_empty());
    let stale = config(&[], vec![], vec![("Kind", CodegenOption::Checksum("stale".to_string()))]);
    let out = translate_schema(&schema, &stale).unwrap();
    assert!(out.items.is_empty());
    assert_eq!(
        out.drifted,
        vec![Drift {
            kind: EntityKind::Enumeration,
            name: "Kind".to_string(),
            expected: "stale".to_string(),
            actual: checksum,
        }]
    );
}

#[test]
fn the_first_entity_that_fails_ends_the_pass() {
    let schema = model(
        vec![
            structure("Fine", vec![]),
            structure("Broken", vec![property("x", Type::Tuple { items: vec![] })]),
            structure("Worse", vec![property("y", null())]),
        ],
        vec![enumeration("Kind", EnumerationTypeKind::Integer, vec![])],
    );
    let all = vec![
        ("Fine", CodegenOption::Generate(true)),
        ("Broken", CodegenOption::Generate(true)),
        ("Worse", CodegenOption::Generate(true)),
    ];
    let config_all = config(&[], all, vec![("Kind", CodegenOption::Generate(true))]);
    assert_eq!(
        translate_schema(&schema, &config_all),
        Err(TranslateError::Structure {
            name: "Broken".to_string(),
            cause: StructureError::Property {
                name: "x".to_string(),
                cause: TypeError::Tuple
            }
        })
    );
    let config_enum = config(
        &[],
        vec![("Fine", CodegenOption::Generate(true))],
        vec![("Kind", CodegenOption::Generate(true))],
    );
    assert_eq!(
        translate_schema(&schema, &config_enum),
        Err(TranslateError::Enumeration {
            name: "Kind".to_string(),
            cause: EnumerationError::IntegerKind
        })
    );
}

#[test]
fn keys_of_all_structures_are_collected_without_repetition() {
    let ab = || or(vec![reference("A"), reference("B")]);
    let schema = model(
        vec![
            structure("One", vec![property("x", ab()), property("y", or(vec![reference("C"), reference("D")]))]),
            structure("Two", vec![property("z", ab())]),
        ],
        vec![],
    );
    let config = config(
        &[("C|D", "CD")],
        vec![("One", CodegenOption::Generate(true)), ("Two", CodegenOption::Generate(true))],
        vec![],
    );
    let out = translate_schema(&schema, &config).unwrap();
    assert_eq!(out.anon_missing, vec!["A|B"]);
    assert_eq!(
        out.items,
        vec![
            Item::Struct(declared("One", vec![field("x", "todo!()"), field("y", "CD")])),
            Item::Struct(declared("Two", vec![field("z", "todo!()")])),
        ]
    );
}

#[test]
fn the_pass_of_a_meta_model_adds_to_its_translator() {
    let schema = model(vec![structure("Missing", vec![]), structure("Foo", vec![])], vec![]);
    let config = config(&[], vec![("Foo", CodegenOption::Generate(true))], vec![]);
    let mut state = translator(&config);
    state.structs_missing = vec!["Earlier".to_string()];
    let items = schema.translate(&mut state).unwrap();
    assert_eq!(items, vec![Item::Struct(declared("Foo", vec![]))]);
    assert_eq!(state.structs_missing, vec!["Earlier", "Missing"]);
}
