use std::hash::{Hash, Hasher};

use ls_types::fingerprint::hex8;
use ls_types::schema::{
    BaseType, EntryValue, Enumeration, EnumerationEntry, EnumerationType, EnumerationTypeKind,
    Property, Structure, StructureLiteral, Type,
};

fn property(name: &str, type_: Type) -> Property {
    Property {
        name: name.to_string(),
        type_,
        documentation: None,
        optional: None,
        since: None,
        since_tags: None,
        proposed: None,
        deprecated: None,
    }
}

fn structure(name: &str, properties: Vec<Property>) -> Structure {
    Structure {
        name: name.to_string(),
        properties,
        extends: vec![],
        mixins: vec![],
        documentation: None,
        since: None,
        since_tags: None,
        proposed: None,
        deprecated: None,
    }
}

fn rich_structure() -> Structure {
    let inline = Type::Literal {
        value: StructureLiteral {
            properties: vec![property("inner", Type::BooleanLiteral { value: true })],
            documentation: Some("An inline structure.".to_string()),
            since: None,
            since_tags: Some(vec!["3.17.0".to_string()]),
            proposed: true,
            deprecated: None,
        },
    };
    let mut first = property(
        "first",
        Type::Or {
            items: vec![
                Type::Reference { name: "Other".to_string() },
                Type::Array { element: Box::new(Type::Base { name: BaseType::Uinteger }) },
                Type::Mapping {
                    key: Box::new(Type::Base { name: BaseType::String }),
                    value: Box::new(inline),
                },
                Type::Tuple { items: vec![Type::IntegerLiteral { value: -5 }] },
                Type::StringLiteral { value: "tag \u{e9}\u{4e2d}".to_string() },
                Type::Base { name: BaseType::Null },
            ],
        },
    );
    first.documentation = Some("The first.".to_string());
    first.optional = Some(true);
    first.since = Some("3.16.0".to_string());
    first.since_tags = Some(vec![]);
    first.proposed = Some(false);
    first.deprecated = Some("Soon.".to_string());
    Structure {
        name: "Rich".to_string(),
        properties: vec![first, property("second", Type::Base { name: BaseType::Decimal })],
        extends: vec![Type::Reference { name: "Base".to_string() }],
        mixins: vec![
            Type::Reference { name: "MixA".to_string() },
            Type::Reference { name: "MixB".to_string() },
        ],
        documentation: Some("A structure with everything.".to_string()),
        since: Some("3.15.0".to_string()),
        since_tags: Some(vec!["3.15.0".to_string(), "3.16.0".to_string()]),
        proposed: Some(true),
        deprecated: None,
    }
}

fn enumeration() -> Enumeration {
    Enumeration {
        name: "Kind".to_string(),
        type_: EnumerationType::Base { name: EnumerationTypeKind::Uinteger },
        values: vec![
            EnumerationEntry {
                name: "One".to_string(),
                value: EntryValue::Integer(1),
                documentation: Some("The first.".to_string()),
                since: None,
                proposed: false,
            },
            EnumerationEntry {
                name: "Text".to_string(),
                value: EntryValue::String("t".to_string()),
                documentation: None,
                since: Some("3.17.0".to_string()),
                proposed: true,
            },
        ],
        supports_custom_values: true,
        documentation: None,
        since: Some("3.16.0".to_string()),
        proposed: false,
        deprecated: Some("Old.".to_string()),
    }
}

/// The hash of what `#[derive(Hash)]` feeds a 32-bit xxHash, as the
/// fingerprint writes it.
fn streamed<T: Hash>(value: &T) -> String {
    let mut hasher = fasthash::xx::Hasher32::default();
    value.hash(&mut hasher);
    format!("{:08x}", hasher.finish())
}

fn word(n: u64) -> Vec<u8> {
    n.to_le_bytes().to_vec()
}

#[test]
fn hashes_are_written_as_eight_hexadecimal_digits() {
    assert_eq!(hex8(0), "00000000");
    assert_eq!(hex8(1), "00000001");
    assert_eq!(hex8(0xabcdef), "00abcdef");
    assert_eq!(hex8(0x1234_5678), "12345678");
    assert_eq!(hex8(0x9abc_def0), "9abcdef0");
    assert_eq!(hex8(4211111929), "fb0077f9");
    assert_eq!(hex8(u32::MAX), "ffffffff");
}

#[test]
fn the_bytes_of_a_bare_structure() {
    let mut expected = vec![0x41, 0xff];
    for _ in 0..8 {
        expected.extend(word(0));
    }
    assert_eq!(structure("A", vec![]).encode(), expected);
}

#[test]
fn the_bytes_of_a_structure_with_a_property() {
    let mut s = structure("S\u{e9}", vec![property("p", Type::Array {
        element: Box::new(Type::Base { name: BaseType::Boolean }),
    })]);
    s.properties[0].optional = Some(true);
    s.deprecated = Some("d".to_string());
    let mut expected = vec![0x53, 0xc3, 0xa9, 0xff];
    expected.extend(word(1));
    expected.extend([0x70, 0xff]);
    expected.extend(word(2));
    expected.extend(word(0));
    expected.extend(word(7));
    expected.extend(word(0));
    expected.extend(word(1));
    expected.push(1);
    expected.extend(word(0));
    expected.extend(word(0));
    expected.extend(word(0));
    expected.extend(word(0));
    expected.extend(word(0));
    expected.extend(word(0));
    expected.extend(word(0));
    expected.extend(word(0));
    expected.extend(word(0));
    expected.extend(word(0));
    expected.extend(word(1));
    expected.extend([0x64, 0xff]);
    assert_eq!(s.encode(), expected);
}

#[test]
fn the_bytes_of_an_enumeration() {
    let e = Enumeration {
        name: "K".to_string(),
        type_: EnumerationType::Base { name: EnumerationTypeKind::Integer },
        values: vec![
            EnumerationEntry {
                name: "a".to_string(),
                value: EntryValue::Integer(-2),
                documentation: None,
                since: None,
                proposed: true,
            },
            EnumerationEntry {
                name: "b".to_string(),
                value: EntryValue::String("s".to_string()),
                documentation: None,
                since: None,
                proposed: false,
            },
        ],
        supports_custom_values: true,
        documentation: None,
        since: None,
        proposed: false,
        deprecated: None,
    };
    let mut expected = vec![0x4b, 0xff];
    expected.extend(word(1));
    expected.extend(word(2));
    expected.extend([0x61, 0xff]);
    expected.extend(word(2));
    expected.extend((-2i64).to_le_bytes());
    expected.extend(word(0));
    expected.extend(word(0));
    expected.push(1);
    expected.extend([0x62, 0xff]);
    expected.extend(word(3));
    expected.extend([0x73, 0xff]);
    expected.extend(word(0));
    expected.extend(word(0));
    expected.push(0);
    expected.push(1);
    expected.extend(word(0));
    expected.extend(word(0));
    expected.push(0);
    expected.extend(word(0));
    assert_eq!(e.encode(), expected);
}

#[test]
fn a_fingerprint_is_the_hash_of_the_bytes() {
    let s = rich_structure();
    assert_eq!(s.fingerprint(), format!("{:08x}", fasthash::xx::hash32(s.encode())));
    let e = enumeration();
    assert_eq!(e.fingerprint(), format!("{:08x}", fasthash::xx::hash32(e.encode())));
    assert_eq!(s.fingerprint().len(), 8);
}

#[test]
fn the_fingerprint_of_known_bytes() {
    let mut bytes = vec![0x41, 0xff];
    for _ in 0..8 {
        bytes.extend(word(0));
    }
    let expected = format!("{:08x}", fasthash::xx::hash32(&bytes));
    assert_eq!(structure("A", vec![]).fingerprint(), expected);
    assert_ne!(structure("A", vec![]).fingerprint(), structure("B", vec![]).fingerprint());
}

#[test]
fn the_bytes_of_a_structure_are_what_its_hash_impl_feeds() {
    assert_eq!(rich_structure().fingerprint(), streamed(&rich_structure()));
    assert_eq!(structure("A", vec![]).fingerprint(), streamed(&structure("A", vec![])));
}

#[test]
fn a_fingerprint_is_the_same_each_time() {
    assert_eq!(rich_structure().fingerprint(), rich_structure().fingerprint());
    assert_eq!(enumeration().fingerprint(), enumeration().fingerprint());
}

#[test]
fn each_part_of_a_structure_counts() {
    let base = rich_structure();
    let mut changed: Vec<Structure> = vec![];
    let mut s = rich_structure();
    s.name = "Poor".to_string();
    changed.push(s);
    let mut s = rich_structure();
    s.properties.pop();
    changed.push(s);
    let mut s = rich_structure();
    s.properties[1].type_ = Type::Base { name: BaseType::Integer };
    changed.push(s);
    let mut s = rich_structure();
    s.properties[0].optional = None;
    changed.push(s);
    let mut s = rich_structure();
    s.properties[0].since_tags = None;
    changed.push(s);
    let mut s = rich_structure();
    s.properties.swap(0, 1);
    changed.push(s);
    let mut s = rich_structure();
    s.extends.clear();
    changed.push(s);
    let mut s = rich_structure();
    s.mixins.swap(0, 1);
    changed.push(s);
    let mut s = rich_structure();
    s.extends.push(s.mixins.remove(0));
    changed.push(s);
    let mut s = rich_structure();
    s.documentation = None;
    changed.push(s);
    let mut s = rich_structure();
    s.since = Some("3.15.1".to_string());
    changed.push(s);
    let mut s = rich_structure();
    s.since_tags = Some(vec!["3.15.03.16.0".to_string()]);
    changed.push(s);
    let mut s = rich_structure();
    s.proposed = Some(false);
    changed.push(s);
    let mut s = rich_structure();
    s.deprecated = Some(String::new());
    changed.push(s);
    for other in &changed {
        assert_ne!(base.encode(), other.encode());
        assert_ne!(base.fingerprint(), other.fingerprint());
    }
}

#[test]
fn each_part_of_an_enumeration_counts() {
    let base = enumeration();
    let mut changed: Vec<Enumeration> = vec![];
    let mut e = enumeration();
    e.type_ = EnumerationType::Base { name: EnumerationTypeKind::String };
    changed.push(e);
    let mut e = enumeration();
    e.values[0].value = EntryValue::Integer(2);
    changed.push(e);
    let mut e = enumeration();
    e.values[0].value = EntryValue::String("1".to_string());
    changed.push(e);
    let mut e = enumeration();
    e.values.swap(0, 1);
    changed.push(e);
    let mut e = enumeration();
    e.supports_custom_values = false;
    changed.push(e);
    let mut e = enumeration();
    e.proposed = true;
    changed.push(e);
    let mut e = enumeration();
    e.deprecated = None;
    changed.push(e);
    for other in &changed {
        assert_ne!(base.encode(), other.encode());
        assert_ne!(base.fingerprint(), other.fingerprint());
    }
}
