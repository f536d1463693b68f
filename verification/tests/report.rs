use ls_types::report::decimal;
use ls_types::target::VersionError;
use ls_types::translate::{
    Drift, EntityKind, EnumerationError, StructureError, TranslateError, Translation, TypeError,
};

fn translation(structs: &[&str], enums: &[&str], anon: &[&str]) -> Translation {
    Translation {
        items: vec![],
        structs_missing: structs.iter().map(|s| s.to_string()).collect(),
        enums_missing: enums.iter().map(|s| s.to_string()).collect(),
        anon_missing: anon.iter().map(|s| s.to_string()).collect(),
        drifted: vec![],
    }
}

#[test]
fn nothing_missing_gives_no_hint() {
    let t = translation(&[], &[], &[]);
    assert_eq!(t.structs_hint(), "");
    assert_eq!(t.enums_hint(), "");
    assert_eq!(t.anon_hint(), "");
}

#[test]
fn missing_structures_are_marked_to_be_generated() {
    let t = translation(&["Foo", "Bar"], &[], &[]);
    assert_eq!(
        t.structs_hint(),
        "These structs are missing. Add them.\n```toml\n[structs]\nFoo = true\nBar = true\n```\n"
    );
    assert_eq!(t.enums_hint(), "");
}

#[test]
fn missing_enumerations_are_marked_to_be_generated() {
    let t = translation(&[], &["Kind"], &[]);
    assert_eq!(
        t.enums_hint(),
        "These enums are missing. Add them.\n```toml\n[enums]\nKind = true\n```\n"
    );
}

#[test]
fn missing_unions_get_a_mapping_to_fill_in() {
    let t = translation(&[], &[], &["A|B", "Vec<A>|bool"]);
    assert_eq!(
        t.anon_hint(),
        "These anon mappings are missing. Add them.\n```toml\n[anon-mappings]\n\"A|B\" = \"todo\"\n\"Vec<A>|bool\" = \"todo\"\n```\n"
    );
}

#[test]
fn a_drift_names_the_entity_and_quotes_both_texts() {
    let drift = Drift {
        kind: EntityKind::Structure,
        name: "Foo".to_string(),
        expected: "0123abcd".to_string(),
        actual: "89ef4567".to_string(),
    };
    assert_eq!(
        drift.message(),
        "Hash mismatch for structure Foo, expected \"0123abcd\", got \"89ef4567\""
    );
    let drift = Drift {
        kind: EntityKind::Enumeration,
        name: "Kind".to_string(),
        expected: "say \"x\"\n".to_string(),
        actual: "00000000".to_string(),
    };
    assert_eq!(
        drift.message(),
        "Hash mismatch for enumeration Kind, expected \"say \\\"x\\\"\\n\", got \"00000000\""
    );
}

#[test]
fn numbers_are_written_in_decimal() {
    assert_eq!(decimal(0), "0");
    assert_eq!(decimal(7), "7");
    assert_eq!(decimal(10), "10");
    assert_eq!(decimal(109), "109");
    assert_eq!(decimal(1234567890), "1234567890");
    assert_eq!(decimal(usize::MAX), usize::MAX.to_string());
}

#[test]
fn each_type_error_has_its_message() {
    assert_eq!(
        TypeError::RegExp.message(),
        "RegExp is documented for the protocol but absent from the meta-model"
    );
    assert_eq!(TypeError::Null.message(), "translate null");
    assert_eq!(TypeError::Tuple.message(), "translate tuples");
    assert_eq!(TypeError::Literal.message(), "translate literal type");
    assert_eq!(TypeError::IntegerLiteral.message(), "translate string integer type");
    assert_eq!(TypeError::BooleanLiteral.message(), "translate string boolean type");
    assert_eq!(
        TypeError::UndecidableUnion.message(),
        "invalid collection of items for an enum"
    );
}

#[test]
fn an_error_of_a_pass_names_its_contexts_from_the_outside_in() {
    let error = TranslateError::Structure {
        name: "Foo".to_string(),
        cause: StructureError::Property {
            name: "x".to_string(),
            cause: TypeError::Tuple,
        },
    };
    assert_eq!(
        error.messages(),
        vec![
            "translating structure Foo",
            "while translating property: x",
            "translate tuples"
        ]
    );
    let error = TranslateError::Structure {
        name: "Foo".to_string(),
        cause: StructureError::Version(VersionError { token: "4.0".to_string() }),
    };
    assert_eq!(error.messages(), vec!["translating structure Foo", "invalid version 4.0"]);
    let error = TranslateError::Structure {
        name: "Foo".to_string(),
        cause: StructureError::Extends(12),
    };
    assert_eq!(
        error.messages(),
        vec!["translating structure Foo", "no name for the base of extends at 12"]
    );
    assert_eq!(
        StructureError::Mixin(0).messages(),
        vec!["no name for the base of mixins at 0"]
    );
    let error = TranslateError::Enumeration {
        name: "Kind".to_string(),
        cause: EnumerationError::IntegerKind,
    };
    assert_eq!(error.messages(), vec!["translating enumeration Kind", "translate int enums"]);
    assert_eq!(EnumerationError::UintegerKind.message(), "translate uint enums");
    assert_eq!(
        EnumerationError::Version(VersionError { token: "x".to_string() }).message(),
        "invalid version x"
    );
}
