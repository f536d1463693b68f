use ls_types::target::{TypeRef, Version, VersionError};

fn parse(s: &str) -> Result<Version, VersionError> {
    Version::parse(Some(s))
}

fn invalid(token: &str) -> Result<Version, VersionError> {
    Err(VersionError {
        token: token.to_string(),
    })
}

#[test]
fn a_missing_tag_is_the_unknown_version() {
    assert_eq!(Version::parse(None), Ok(Version::Unknown));
}

#[test]
fn each_known_token_names_its_version() {
    assert_eq!(parse("3.2.0"), Ok(Version::V3_2_0));
    assert_eq!(parse("3.6.0"), Ok(Version::V3_6_0));
    assert_eq!(parse("3.8.0"), Ok(Version::V3_8_0));
    assert_eq!(parse("3.10.0"), Ok(Version::V3_10_0));
    assert_eq!(parse("3.12.0"), Ok(Version::V3_12_0));
    assert_eq!(parse("3.13.0"), Ok(Version::V3_13_0));
    assert_eq!(parse("3.14.0"), Ok(Version::V3_14_0));
    assert_eq!(parse("3.15.0"), Ok(Version::V3_15_0));
    assert_eq!(parse("3.16.0"), Ok(Version::V3_16_0));
    assert_eq!(parse("3.17.0"), Ok(Version::V3_17_0));
    assert_eq!(parse("3.18.0"), Ok(Version::V3_18_0));
}

#[test]
fn the_short_tokens_name_the_seventeenth() {
    assert_eq!(parse("3.16"), Ok(Version::V3_17_0));
    assert_eq!(parse("3.17"), Ok(Version::V3_17_0));
}

#[test]
fn the_word_version_and_what_follows_the_token_are_left_out() {
    assert_eq!(parse("version 3.16.0"), Ok(Version::V3_16_0));
    assert_eq!(parse("3.16.0 - proposed"), Ok(Version::V3_16_0));
    assert_eq!(parse("version 3.17.0 and later"), Ok(Version::V3_17_0));
    assert_eq!(parse("3.17.0 "), Ok(Version::V3_17_0));
}

#[test]
fn one_trailing_full_stop_is_left_out() {
    assert_eq!(parse("3.17.0."), Ok(Version::V3_17_0));
    assert_eq!(parse("version 3.15.0. More text"), Ok(Version::V3_15_0));
    assert_eq!(parse("3.17.0.."), invalid("3.17.0."));
}

#[test]
fn any_other_token_is_an_error_that_holds_it() {
    assert_eq!(parse("4.0.0"), invalid("4.0.0"));
    assert_eq!(parse(""), invalid(""));
    assert_eq!(parse("version "), invalid(""));
    assert_eq!(parse("version"), invalid("version"));
    assert_eq!(parse(" 3.17.0"), invalid(""));
    assert_eq!(parse("Version 3.17.0"), invalid("Version"));
    assert_eq!(parse("version  3.17.0"), invalid(""));
    assert_eq!(parse("3.17.0-beta"), invalid("3.17.0-beta"));
    assert_eq!(parse("."), invalid(""));
    assert_eq!(parse("v\u{e9}rsion 3.17.0"), invalid("v\u{e9}rsion"));
}

#[test]
fn a_bare_reference_is_its_name() {
    assert_eq!(TypeRef::new("Foo").as_str(), "Foo");
    assert_eq!(TypeRef::new("").as_str(), "");
}

#[test]
fn generics_stand_between_angle_brackets() {
    let a = TypeRef::new("A");
    let b = TypeRef::new("B");
    assert_eq!(TypeRef::new_generics("Vec", &[a]).as_str(), "Vec<A>");
    let a = TypeRef::new("A");
    assert_eq!(TypeRef::new_generics("Pair", &[a, b]).as_str(), "Pair<A,B>");
    assert_eq!(TypeRef::new_generics("Unit", &[]).as_str(), "Unit<>");
    let inner = TypeRef::new_generics("Vec", &[TypeRef::new("u32")]);
    assert_eq!(
        TypeRef::new_generics("Option", &[inner]).as_str(),
        "Option<Vec<u32>>"
    );
}

#[test]
fn tuples_stand_between_round_brackets() {
    let a = TypeRef::new("A");
    let b = TypeRef::new("B");
    let c = TypeRef::new("C");
    assert_eq!(TypeRef::new_tuple(&[a, b, c]).as_str(), "(A,B,C)");
    assert_eq!(TypeRef::new_tuple(&[TypeRef::new("A")]).as_str(), "(A)");
    assert_eq!(TypeRef::new_tuple(&[]).as_str(), "()");
}

#[test]
fn a_tuple_and_a_generic_of_the_same_parts_differ() {
    let tuple = TypeRef::new_tuple(&[TypeRef::new("A"), TypeRef::new("B")]);
    let generic = TypeRef::new_generics("", &[TypeRef::new("A"), TypeRef::new("B")]);
    assert_ne!(tuple.as_str(), generic.as_str());
}
