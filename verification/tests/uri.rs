use ls_types::uri::{
    capitalize_drive_letter, file_path_from, forward_slashes, percent_encode, FilePath, Uri,
    UriError, UriErrorKind,
};

fn with_schema(path: &str, windows: bool) -> String {
    let expected_schema = if windows { "file:///" } else { "file://" };
    format!("{expected_schema}{path}")
}

fn local(path: &str) -> Option<FilePath> {
    Some(FilePath::Local(path.to_string()))
}

#[test]
fn uri_test_path_roundtrip_conversion() {
    let sources = [
        "/some/path/to/file.txt",
        "/some/path/to/file with spaces.txt",
        "/some/path/[[...rest]]/file.txt",
        "/some/path/to/файл.txt",
        "/some/path/to/文件.txt",
    ];

    for source in sources {
        let conv = Uri::from_file_path(source, false).unwrap();
        let roundtrip = conv.to_file_path(false).unwrap();
        assert_eq!(FilePath::Local(source.to_string()), roundtrip, "conv={conv:?}");
    }

    let sources = [
        "C:\\some\\path\\to\\file.txt",
        "C:\\some\\path\\to\\file with spaces.txt",
        "C:\\some\\path\\[[...rest]]\\file.txt",
        "C:\\some\\path\\to\\файл.txt",
        "C:\\some\\path\\to\\文件.txt",
    ];

    for source in sources {
        let conv = Uri::from_file_path(source, true).unwrap();
        let roundtrip = conv.to_file_path(true).unwrap();
        assert_eq!(FilePath::Local(forward_slashes(source)), roundtrip, "conv={conv:?}");
    }
}

#[test]
fn test_windows_uri_roundtrip_conversion() {
    let uris = [
        Uri::from_str("file:///C:/some/path/to/file.txt").unwrap(),
        Uri::from_str("file:///c:/some/path/to/file.txt").unwrap(),
        Uri::from_str("file:///c%3A/some/path/to/file.txt").unwrap(),
    ];

    let final_uri = Uri::from_str("file:///C%3A/some/path/to/file.txt").unwrap();

    for uri in uris {
        let path = match uri.to_file_path(true).unwrap() {
            FilePath::Local(path) => path,
            hosted => panic!("uri={uri:?} gave {hosted:?}"),
        };
        assert_eq!(
            capitalize_drive_letter(&path),
            forward_slashes("C:\\some\\path\\to\\file.txt"),
            "uri={uri:?}"
        );

        let conv = Uri::from_file_path(&path, true).unwrap();

        assert_eq!(
            final_uri,
            conv,
            "path={path:?} left={} right={}",
            final_uri.as_str(),
            conv.as_str()
        );
    }
}

#[test]
fn test_path_to_uri() {
    let paths = [
        "/some/path/to/file.txt",
        "/some/path/to/file with spaces.txt",
        "/some/path/[[...rest]]/file.txt",
        "/some/path/to/файл.txt",
        "/some/path/to/文件.txt",
    ];

    let expected = [
        with_schema("/some/path/to/file.txt", false),
        with_schema("/some/path/to/file%20with%20spaces.txt", false),
        with_schema("/some/path/%5B%5B...rest%5D%5D/file.txt", false),
        with_schema("/some/path/to/%D1%84%D0%B0%D0%B9%D0%BB.txt", false),
        with_schema("/some/path/to/%E6%96%87%E4%BB%B6.txt", false),
    ];

    for (path, expected) in paths.iter().zip(expected) {
        let uri = Uri::from_file_path(path, false).unwrap();
        assert_eq!(uri.as_str().to_string(), expected);
    }
}

#[test]
fn test_path_to_uri_windows() {
    let paths = [
        "C:\\some\\path\\to\\file.txt",
        "C:\\some\\path\\to\\file with spaces.txt",
        "C:\\some\\path\\[[...rest]]\\file.txt",
        "C:\\some\\path\\to\\файл.txt",
        "C:\\some\\path\\to\\文件.txt",
    ];

    let expected = [
        with_schema("C%3A/some/path/to/file.txt", true),
        with_schema("C%3A/some/path/to/file%20with%20spaces.txt", true),
        with_schema("C%3A/some/path/%5B%5B...rest%5D%5D/file.txt", true),
        with_schema("C%3A/some/path/to/%D1%84%D0%B0%D0%B9%D0%BB.txt", true),
        with_schema("C%3A/some/path/to/%E6%96%87%E4%BB%B6.txt", true),
    ];

    for (path, expected) in paths.iter().zip(expected) {
        let uri = Uri::from_file_path(path, true).unwrap();
        assert_eq!(uri.as_str().to_string(), expected);
    }
}

#[test]
fn test_invalid_uri_on_windows() {
    let uri = Uri::from_str("file://").unwrap();
    let path = uri.to_file_path(true);
    assert!(path.is_none());
    assert!(uri.to_file_path(false).is_none());
}

#[test]
fn a_text_that_is_no_uri_is_refused_with_the_place() {
    assert_eq!(
        Uri::from_str("no scheme"),
        Err(UriError { index: 2, kind: UriErrorKind::UnexpectedChar })
    );
    assert_eq!(
        Uri::from_str("file:///a%zz"),
        Err(UriError { index: 9, kind: UriErrorKind::InvalidPctEncodedOctet })
    );
    assert_eq!(
        Uri::from_str("http://[:]"),
        Err(UriError { index: 8, kind: UriErrorKind::InvalidIpv6Addr })
    );
    assert!(Uri::from_str("").is_err());
    assert!(Uri::from_str("/relative/reference").is_err());
}

#[test]
fn a_uri_keeps_its_text() {
    let uri = Uri::from_str("https://www.example.com/a%20b?q#L11").unwrap();
    assert_eq!(uri.as_str(), "https://www.example.com/a%20b?q#L11");
    assert_eq!(uri.clone(), uri);
}

#[test]
fn uris_are_compared_by_their_text() {
    let a = Uri::from_str("file:///a").unwrap();
    let b = Uri::from_str("file:///b").unwrap();
    let upper = Uri::from_str("FILE:///a").unwrap();
    assert!(a < b);
    assert_ne!(a, upper);
    assert_eq!(a, Uri::from_str("file:///a").unwrap());
    assert_eq!(a.cmp(&b), a.as_str().cmp(b.as_str()));
}

#[test]
fn the_path_of_a_uri_is_decoded() {
    let uri = Uri::from_str("file:///etc/pass%20wd").unwrap();
    assert_eq!(uri.to_file_path(false), local("/etc/pass wd"));
    let lossy = Uri::from_str("file:///a%ffb").unwrap();
    assert_eq!(lossy.to_file_path(false), local("/a\u{fffd}b"));
    let other = Uri::from_str("mailto:user@example.com").unwrap();
    assert_eq!(other.to_file_path(false), local("user@example.com"));
}

#[test]
fn on_windows_a_host_stands_for_the_share() {
    let uri = Uri::from_str("file://server/share/file.txt").unwrap();
    assert_eq!(
        uri.to_file_path(true),
        Some(FilePath::Hosted {
            host: "server".to_string(),
            path: "/share/file.txt".to_string()
        })
    );
    assert_eq!(uri.to_file_path(false), local("/share/file.txt"));
}

#[test]
fn on_windows_a_path_without_a_host_loses_its_first_character() {
    assert_eq!(
        file_path_from("/c:/dir".to_string(), String::new(), true),
        local("c:/dir")
    );
    assert_eq!(file_path_from("/".to_string(), String::new(), true), local(""));
    assert_eq!(file_path_from("\u{e9}tc".to_string(), String::new(), true), None);
    assert_eq!(file_path_from(String::new(), "host".to_string(), true), None);
    assert_eq!(file_path_from(String::new(), String::new(), false), None);
    assert_eq!(
        file_path_from("\u{e9}tc".to_string(), String::new(), false),
        local("\u{e9}tc")
    );
}

#[test]
fn letters_digits_and_five_marks_stand_for_themselves() {
    assert_eq!(percent_encode("azAZ09-._~/"), "azAZ09-._~/");
    assert_eq!(percent_encode(""), "");
    assert_eq!(percent_encode(" "), "%20");
    assert_eq!(percent_encode(":\\%?#[]@"), "%3A%5C%25%3F%23%5B%5D%40");
    assert_eq!(percent_encode("\u{0}\u{7f}"), "%00%7F");
    assert_eq!(percent_encode("\u{e9}"), "%C3%A9");
    assert_eq!(percent_encode("\u{1f600}"), "%F0%9F%98%80");
    assert_eq!(percent_encode("a b/c\u{444}"), "a%20b/c%D1%84");
}

#[test]
fn the_letter_of_a_drive_is_made_a_capital() {
    assert_eq!(capitalize_drive_letter("c:/dir"), "C:/dir");
    assert_eq!(capitalize_drive_letter("z:"), "Z:");
    assert_eq!(capitalize_drive_letter("C:/dir"), "C:/dir");
    assert_eq!(capitalize_drive_letter("1:/dir"), "1:/dir");
    assert_eq!(capitalize_drive_letter("\u{e9}:/dir"), "\u{e9}:/dir");
    assert_eq!(capitalize_drive_letter("/c:/dir"), "/c:/dir");
    assert_eq!(capitalize_drive_letter("c"), "c");
    assert_eq!(capitalize_drive_letter(":"), ":");
    assert_eq!(capitalize_drive_letter(""), "");
    assert_eq!(capitalize_drive_letter("ab:"), "ab:");
}

#[test]
fn backslashes_become_slashes() {
    assert_eq!(forward_slashes("C:\\a\\b/c"), "C:/a/b/c");
    assert_eq!(forward_slashes("\\\\"), "//");
    assert_eq!(forward_slashes("\u{444}\\\u{444}"), "\u{444}/\u{444}");
    assert_eq!(forward_slashes(""), "");
}

#[test]
fn a_path_is_encoded_whatever_it_holds() {
    assert_eq!(
        Uri::from_file_path("rel:8x/%zz", false).map(|u| u.as_str().to_string()),
        Some("file://rel%3A8x/%25zz".to_string())
    );
    assert_eq!(
        Uri::from_file_path("relative", false).map(|u| u.as_str().to_string()),
        Some("file://relative".to_string())
    );
}
