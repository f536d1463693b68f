use ls_types::config::Config;
use ls_types::schema::{references, BaseType, Property, StructureLiteral, Type};

fn base(name: BaseType) -> Type {
    Type::Base { name }
}

fn reference(name: &str) -> Type {
    Type::Reference { name: name.to_string() }
}

fn array(element: Type) -> Type {
    Type::Array { element: Box::new(element) }
}

fn tuple(items: Vec<Type>) -> Type {
    Type::Tuple { items }
}

fn literal(properties: Vec<Property>) -> Type {
    Type::Literal {
        value: StructureLiteral {
            properties,
            documentation: None,
            since: None,
            since_tags: None,
            proposed: false,
            deprecated: None,
        },
    }
}

fn text(t: Type) -> Option<String> {
    t.into_reference().map(|r| r.as_str().to_string())
}

fn some(s: &str) -> Option<String> {
    Some(s.to_string())
}

fn config(mappings: &[(&str, &str)]) -> Config {
    Config {
        version: "1".to_string(),
        anon_mappings: mappings
            .iter()
            .map(|(k, v)| (k.to_string(), v.to_string()))
            .collect(),
        structs: vec![],
        enums: vec![],
    }
}

#[test]
fn a_named_reference_collapses_to_its_name() {
    assert_eq!(text(reference("Foo")), some("Foo"));
}

#[test]
fn primitives_collapse_to_their_target_names() {
    assert_eq!(text(base(BaseType::Uri)), some("Uri"));
    assert_eq!(text(base(BaseType::DocumentUri)), some("DocumentUri"));
    assert_eq!(text(base(BaseType::Integer)), some("i64"));
    assert_eq!(text(base(BaseType::Uinteger)), some("u32"));
    assert_eq!(text(base(BaseType::String)), some("String"));
    assert_eq!(text(base(BaseType::Boolean)), some("bool"));
}

#[test]
fn decimal_regexp_and_null_collapse_to_nothing() {
    assert_eq!(text(base(BaseType::Decimal)), None);
    assert_eq!(text(base(BaseType::RegExp)), None);
    assert_eq!(text(base(BaseType::Null)), None);
}

#[test]
fn an_array_collapses_to_a_vec_of_its_element() {
    assert_eq!(text(array(reference("Foo"))), some("Vec<Foo>"));
    assert_eq!(text(array(array(base(BaseType::Integer)))), some("Vec<Vec<i64>>"));
    assert_eq!(text(array(base(BaseType::Null))), None);
}

#[test]
fn a_tuple_collapses_to_the_tuple_of_its_elements() {
    assert_eq!(
        text(tuple(vec![reference("A"), base(BaseType::Boolean)])),
        some("(A,bool)")
    );
    assert_eq!(text(tuple(vec![])), some("()"));
    assert_eq!(
        text(tuple(vec![array(reference("A")), tuple(vec![reference("B")])])),
        some("(Vec<A>,(B))")
    );
}

#[test]
fn the_other_shapes_collapse_to_nothing() {
    assert_eq!(
        text(Type::Mapping {
            key: Box::new(base(BaseType::String)),
            value: Box::new(base(BaseType::String)),
        }),
        None
    );
    assert_eq!(text(Type::Or { items: vec![reference("A")] }), None);
    assert_eq!(text(literal(vec![])), None);
    assert_eq!(text(Type::StringLiteral { value: "x".to_string() }), None);
    assert_eq!(text(Type::IntegerLiteral { value: 1 }), None);
    assert_eq!(text(Type::BooleanLiteral { value: true }), None);
}

#[test]
fn a_tuple_with_an_element_that_does_not_collapse_is_not_clean() {
    let bad = tuple(vec![reference("A"), base(BaseType::Null)]);
    assert!(!bad.references_cleanly());
    assert!(bad.reference().is_none());
    assert!(!array(tuple(vec![literal(vec![])])).references_cleanly());
    assert!(tuple(vec![reference("A")]).references_cleanly());
    assert!(base(BaseType::Null).references_cleanly());
    assert!(array(base(BaseType::Null)).references_cleanly());
}

#[test]
fn references_of_a_list_keep_its_order() {
    let all = references(&vec![reference("B"), reference("A")]).unwrap();
    let texts: Vec<&str> = all.iter().map(|r| r.as_str()).collect();
    assert_eq!(texts, vec!["B", "A"]);
    assert!(references(&vec![reference("B"), base(BaseType::Null), reference("A")]).is_none());
    assert_eq!(references(&vec![]).map(|v| v.len()), Some(0));
}

#[test]
fn a_lookup_that_the_table_holds_gives_the_configured_type() {
    let config = config(&[("A|B", "AOrB"), ("Vec<A>|bool|String", "Mixed")]);
    let found = config.lookup_anon(&[reference("A"), reference("B")]);
    assert_eq!(found.map(|r| r.as_str().to_string()), Ok("AOrB".to_string()));
    let found = config.lookup_anon(&[
        array(reference("A")),
        base(BaseType::Boolean),
        base(BaseType::String),
    ]);
    assert_eq!(found.map(|r| r.as_str().to_string()), Ok("Mixed".to_string()));
}

#[test]
fn a_lookup_that_the_table_lacks_gives_the_key() {
    let config = config(&[("A|B", "AOrB")]);
    let missed = config.lookup_anon(&[reference("A"), reference("C")]);
    assert_eq!(missed.map(|r| r.as_str().to_string()), Err(some("A|C")));
    let single = config.lookup_anon(&[reference("A")]);
    assert_eq!(single.map(|r| r.as_str().to_string()), Err(some("A")));
    let empty = config.lookup_anon(&[]);
    assert_eq!(empty.map(|r| r.as_str().to_string()), Err(some("")));
}

#[test]
fn a_lookup_of_an_arm_that_does_not_collapse_gives_no_key() {
    let config = config(&[("A|B", "AOrB")]);
    let undecidable = config.lookup_anon(&[reference("A"), base(BaseType::Null)]);
    assert_eq!(undecidable.map(|r| r.as_str().to_string()), Err(None));
    let undecidable = config.lookup_anon(&[literal(vec![]), reference("B")]);
    assert_eq!(undecidable.map(|r| r.as_str().to_string()), Err(None));
}

#[test]
fn a_lookup_depends_on_the_order_of_the_arms() {
    let config = config(&[("A|B", "AOrB")]);
    let forward = config.lookup_anon(&[reference("A"), reference("B")]);
    let backward = config.lookup_anon(&[reference("B"), reference("A")]);
    assert_eq!(
        forward.map(|r| r.as_str().to_string()),
        Ok("AOrB".to_string())
    );
    assert_eq!(backward.map(|r| r.as_str().to_string()), Err(some("B|A")));
    let neither = config.lookup_anon(&[reference("C"), reference("D")]);
    let reversed = config.lookup_anon(&[reference("D"), reference("C")]);
    assert_ne!(
        neither.map(|r| r.as_str().to_string()),
        reversed.map(|r| r.as_str().to_string())
    );
}

#[test]
fn both_orders_give_the_same_where_the_table_names_both_keys_alike() {
    let config = config(&[("A|B", "Either"), ("B|A", "Either")]);
    let forward = config.lookup_anon(&[reference("A"), reference("B")]);
    let backward = config.lookup_anon(&[reference("B"), reference("A")]);
    assert_eq!(
        forward.map(|r| r.as_str().to_string()),
        backward.map(|r| r.as_str().to_string())
    );
}

#[test]
fn of_two_entries_with_one_key_the_first_counts() {
    let config = config(&[("A|B", "First"), ("A|B", "Second")]);
    let found = config.lookup_anon(&[reference("A"), reference("B")]);
    assert_eq!(found.map(|r| r.as_str().to_string()), Ok("First".to_string()));
}

#[test]
fn a_config_is_well_formed_while_no_key_stands_twice() {
    assert!(config(&[]).is_well_formed());
    assert!(config(&[("A|B", "X"), ("B|A", "X")]).is_well_formed());
    assert!(!config(&[("A|B", "X"), ("C", "Y"), ("A|B", "Z")]).is_well_formed());
    let mut twice = config(&[]);
    twice.structs = vec![
        ("Foo".to_string(), ls_types::config::CodegenOption::Generate(true)),
        ("Bar".to_string(), ls_types::config::CodegenOption::Checksum("0".to_string())),
        ("Foo".to_string(), ls_types::config::CodegenOption::Generate(false)),
    ];
    assert!(!twice.is_well_formed());
    twice.structs.pop();
    assert!(twice.is_well_formed());
    twice.enums = twice.structs.clone();
    assert!(twice.is_well_formed());
    twice.enums.push(("Bar".to_string(), ls_types::config::CodegenOption::Generate(true)));
    assert!(!twice.is_well_formed());
}
