use ls_types::text::{clone_opt, insert_unique, str_eq, str_lt};

#[test]
fn slices_are_equal_as_their_characters_are() {
    assert!(str_eq("", ""));
    assert!(str_eq("abc", "abc"));
    assert!(!str_eq("abc", "abd"));
    assert!(!str_eq("abc", "ab"));
    assert!(str_eq("\u{444}", "\u{444}"));
}

#[test]
fn slices_are_ordered_as_the_standard_order_has_them() {
    let samples = [
        "", "A", "B", "a", "ab", "abc", "b", "A|B", "Vec<A>", "\u{7f}", "\u{80}", "\u{e9}",
        "\u{444}", "\u{444}a", "\u{4e2d}", "\u{1f600}", "\u{10ffff}", "z",
    ];
    for a in samples {
        for b in samples {
            assert_eq!(str_lt(a, b), a < b, "{a:?} < {b:?}");
        }
    }
}

#[test]
fn a_key_is_put_in_where_it_belongs() {
    let mut list: Vec<String> = vec![];
    for key in ["m", "b", "x", "a", "m", "c", "x", "", "b"] {
        insert_unique(&mut list, key.to_string());
    }
    assert_eq!(list, vec!["", "a", "b", "c", "m", "x"]);
}

#[test]
fn a_key_that_is_held_leaves_the_list_as_it_is() {
    let mut list = vec!["z".to_string(), "a".to_string()];
    insert_unique(&mut list, "a".to_string());
    assert_eq!(list, vec!["z", "a"]);
    insert_unique(&mut list, "b".to_string());
    assert_eq!(list, vec!["b", "z", "a"]);
}

#[test]
fn an_optional_string_is_copied() {
    assert_eq!(clone_opt(&None), None);
    assert_eq!(clone_opt(&Some("x".to_string())), Some("x".to_string()));
}
