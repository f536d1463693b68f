//! URIs as the protocol passes them: validated text, with the conversion
//! from and to file paths.

use vstd::prelude::*;
use vstd::string::*;
use vstd::utf8::encode_utf8;

verus! {

/// Whether `text` is a URI: whether it matches the `URI` rule of RFC 3986.
pub uninterp spec fn is_uri(text: Seq<char>) -> bool;

/// The path component of the URI `text`, with its percent-encoded octets
/// decoded and octets that are not UTF-8 replaced.
pub uninterp spec fn uri_decoded_path(text: Seq<char>) -> Seq<char>;

/// The host of the authority of the URI `text`; empty where the URI has no
/// authority.
pub uninterp spec fn uri_host(text: Seq<char>) -> Seq<char>;

/// Why a text is no URI.
#[derive(Debug, Clone, Copy, PartialEq, Eq, Structural)]
pub enum UriErrorKind {
    /// A `%` that two hexadecimal digits do not follow.
    InvalidPctEncodedOctet,
    /// A character that the syntax does not allow at its place.
    UnexpectedChar,
    /// An IPv6 address that is not one.
    InvalidIpv6Addr,
}

/// A text that is no URI: where it fails, and why.
#[derive(Debug, Clone, Copy, PartialEq, Eq, Structural)]
pub struct UriError {
    pub index: usize,
    pub kind: UriErrorKind,
}

/// Calls `fluent_uri::Uri::parse` on the text and drops the parsed value.
/// The call succeeds exactly on the texts that match the `URI` rule.
#[verifier::external_body]
fn check_uri(text: &str) -> (r: Result<(), UriError>)
    ensures
        r is Ok <==> is_uri(text@),
{
    match fluent_uri::Uri::<&str>::parse(text) {
        Ok(_) => Ok(()),
        Err(e) => Err(
            UriError {
                index: e.index(),
                kind: match e.kind() {
                    fluent_uri::ParseErrorKind::InvalidPctEncodedOctet => UriErrorKind::InvalidPctEncodedOctet,
                    fluent_uri::ParseErrorKind::UnexpectedChar => UriErrorKind::UnexpectedChar,
                    fluent_uri::ParseErrorKind::InvalidIpv6Addr => UriErrorKind::InvalidIpv6Addr,
                },
            },
        ),
    }
}

/// Calls `path().decode().to_string_lossy()` on the URI that
/// `fluent_uri::Uri::parse` reads from the text.
#[verifier::external_body]
fn decoded_path(text: &str) -> (path: String)
    requires
        is_uri(text@),
    ensures
        path@ == uri_decoded_path(text@),
{
    match fluent_uri::Uri::<&str>::parse(text) {
        Ok(uri) => uri.path().decode().to_string_lossy().into_owned(),
        Err(_) => String::new(),
    }
}

/// Calls `authority()` and, on an authority, `host()` on the URI that
/// `fluent_uri::Uri::parse` reads from the text.
#[verifier::external_body]
fn host(text: &str) -> (host: String)
    requires
        is_uri(text@),
    ensures
        host@ == uri_host(text@),
{
    match fluent_uri::Uri::<&str>::parse(text) {
        Ok(uri) => match uri.authority() {
            Some(authority) => authority.host().to_owned(),
            None => String::new(),
        },
        Err(_) => String::new(),
    }
}

/// The digit for a value below sixteen, with capital letters.
pub open spec fn upper_hex_digit(n: u8) -> char {
    if n < 10 {
        (('0' as u8) + n) as char
    } else {
        (('A' as u8) + (n - 10) as u8) as char
    }
}

/// A byte as `%` and two hexadecimal digits.
pub open spec fn percent_triplet(byte: u8) -> Seq<char> {
    seq!['%', upper_hex_digit(byte / 16), upper_hex_digit(byte % 16)]
}

/// Calls `percent_encoding::percent_encode_byte`, which gives the byte as
/// `%` and two capital hexadecimal digits whatever the byte is.
#[verifier::external_body]
fn encode_byte(byte: u8) -> (s: &'static str)
    ensures
        s@ == percent_triplet(byte),
{
    percent_encoding::percent_encode_byte(byte)
}

/// Whether a character stands for itself in the path of a file URI: the
/// letters and digits of ASCII, `-`, `.`, `_`, `~`, and the separator `/`.
pub open spec fn is_kept(c: char) -> bool {
    ||| 'a' <= c <= 'z'
    ||| 'A' <= c <= 'Z'
    ||| '0' <= c <= '9'
    ||| c == '-'
    ||| c == '.'
    ||| c == '_'
    ||| c == '~'
    ||| c == '/'
}

/// The bytes as triplets, one after another.
pub open spec fn triplets(bytes: Seq<u8>) -> Seq<char>
    decreases bytes.len(),
{
    if bytes.len() == 0 {
        Seq::empty()
    } else {
        triplets(bytes.drop_last()) + percent_triplet(bytes.last())
    }
}

/// What a character becomes in the path of a file URI: itself, or the
/// triplets of its UTF-8 bytes.
pub open spec fn encoded_char(c: char) -> Seq<char> {
    if is_kept(c) {
        seq![c]
    } else {
        triplets(encode_utf8(seq![c]))
    }
}

/// A text percent-encoded for the path of a file URI.
pub open spec fn percent_encoded(text: Seq<char>) -> Seq<char>
    decreases text.len(),
{
    if text.len() == 0 {
        Seq::empty()
    } else {
        percent_encoded(text.drop_last()) + encoded_char(text.last())
    }
}

fn keeps(c: char) -> (kept: bool)
    ensures
        kept == is_kept(c),
{
    ('a' <= c && c <= 'z') || ('A' <= c && c <= 'Z') || ('0' <= c && c <= '9') || c == '-' || c
        == '.' || c == '_' || c == '~' || c == '/'
}

/// Percent-encodes a text for the path of a file URI.
pub fn percent_encode(text: &str) -> (out: String)
    ensures
        out@ == percent_encoded(text@),
{
    let mut out = String::new();
    let n = text.unicode_len();
    let mut i: usize = 0;
    proof {
        assert(text@.take(0) =~= Seq::<char>::empty());
    }
    while i < n
        invariant
            n == text@.len(),
            i <= n,
            out@ == percent_encoded(text@.take(i as int)),
        decreases n - i,
    {
        let c = text.get_char(i);
        let one = text.substring_char(i, i + 1);
        proof {
            assert(one@ =~= seq![c]);
            assert(text@.take(i + 1).drop_last() == text@.take(i as int));
            assert(text@.take(i + 1).last() == c);
        }
        if keeps(c) {
            out.append(one);
        } else {
            let bytes = one.as_bytes();
            let ghost start = out@;
            let m = bytes.len();
            let mut k: usize = 0;
            proof {
                assert(bytes@.take(0) =~= Seq::<u8>::empty());
            }
            while k < m
                invariant
                    m == bytes@.len(),
                    k <= m,
                    out@ == start + triplets(bytes@.take(k as int)),
                decreases m - k,
            {
                out.append(encode_byte(bytes[k]));
                k = k + 1;
                proof {
                    assert(bytes@.take(k as int).drop_last() == bytes@.take(k - 1));
                    assert(out@ =~= start + triplets(bytes@.take(k as int)));
                }
            }
            proof {
                assert(bytes@.take(m as int) == bytes@);
            }
        }
        i = i + 1;
    }
    proof {
        assert(text@.take(n as int) == text@);
    }
    out
}

/// The capital of a small letter of ASCII; every other character is itself.
pub open spec fn ascii_upper(c: char) -> char {
    if 'a' <= c <= 'z' {
        ((c as u8) - 32) as u8 as char
    } else {
        c
    }
}

/// A path with the letter of its drive in capitals: where the second
/// character is `:`, the first is made a capital.
pub open spec fn drive_capitalized(path: Seq<char>) -> Seq<char> {
    if path.len() >= 2 && path[1] == ':' {
        seq![ascii_upper(path[0])] + path.skip(1)
    } else {
        path
    }
}

fn capital_of(c: char) -> (s: Option<&'static str>)
    ensures
        match s {
            Some(text) => 'a' <= c <= 'z' && text@ == seq![ascii_upper(c)],
            None => !('a' <= c <= 'z'),
        },
{
    proof {
        reveal_strlit("A");
        reveal_strlit("B");
        reveal_strlit("C");
        reveal_strlit("D");
        reveal_strlit("E");
        reveal_strlit("F");
        reveal_strlit("G");
        reveal_strlit("H");
        reveal_strlit("I");
        reveal_strlit("J");
        reveal_strlit("K");
        reveal_strlit("L");
        reveal_strlit("M");
        reveal_strlit("N");
        reveal_strlit("O");
        reveal_strlit("P");
        reveal_strlit("Q");
        reveal_strlit("R");
        reveal_strlit("S");
        reveal_strlit("T");
        reveal_strlit("U");
        reveal_strlit("V");
        reveal_strlit("W");
        reveal_strlit("X");
        reveal_strlit("Y");
        reveal_strlit("Z");
    }
    let s = match c {
        'a' => Some("A"),
        'b' => Some("B"),
        'c' => Some("C"),
        'd' => Some("D"),
        'e' => Some("E"),
        'f' => Some("F"),
        'g' => Some("G"),
        'h' => Some("H"),
        'i' => Some("I"),
        'j' => Some("J"),
        'k' => Some("K"),
        'l' => Some("L"),
        'm' => Some("M"),
        'n' => Some("N"),
        'o' => Some("O"),
        'p' => Some("P"),
        'q' => Some("Q"),
        'r' => Some("R"),
        's' => Some("S"),
        't' => Some("T"),
        'u' => Some("U"),
        'v' => Some("V"),
        'w' => Some("W"),
        'x' => Some("X"),
        'y' => Some("Y"),
        'z' => Some("Z"),
        _ => None,
    };
    proof {
        if let Some(text) = s {
            assert(text@ =~= seq![ascii_upper(c)]);
        }
    }
    s
}

/// Writes the letter of a drive in capitals: `c:/dir` becomes `C:/dir`. A
/// path whose second character is not `:` is returned as it is.
pub fn capitalize_drive_letter(path: &str) -> (out: String)
    ensures
        out@ == drive_capitalized(path@),
{
    let n = path.unicode_len();
    if n >= 2 && path.get_char(1) == ':' {
        match capital_of(path.get_char(0)) {
            Some(capital) => {
                let mut out = String::from_str(capital);
                out.append(path.substring_char(1, n));
                proof {
                    assert(path@.subrange(1, n as int) =~= path@.skip(1));
                }
                out
            },
            None => {
                proof {
                    assert(seq![path@[0]] + path@.skip(1) =~= path@);
                }
                String::from_str(path)
            },
        }
    } else {
        String::from_str(path)
    }
}

/// A path with `/` in place of each `\`.
pub open spec fn slashed(path: Seq<char>) -> Seq<char> {
    Seq::new(path.len(), |i: int| if path[i] == '\\' { '/' } else { path[i] })
}

/// Writes `/` in place of each `\` of a path.
pub fn forward_slashes(path: &str) -> (out: String)
    ensures
        out@ == slashed(path@),
{
    let mut out = String::new();
    let n = path.unicode_len();
    let mut i: usize = 0;
    proof {
        reveal_strlit("/");
    }
    while i < n
        invariant
            n == path@.len(),
            i <= n,
            "/"@ == seq!['/'],
            out@ == slashed(path@).take(i as int),
        decreases n - i,
    {
        if path.get_char(i) == '\\' {
            out.append("/");
        } else {
            out.append(path.substring_char(i, i + 1));
        }
        i = i + 1;
        proof {
            assert(out@ =~= slashed(path@).take(i as int));
        }
    }
    proof {
        assert(slashed(path@).take(n as int) =~= slashed(path@));
    }
    out
}

/// The text of the file URI of an absolute path. On Windows the path is
/// written with `/`, its drive in capitals, behind three slashes.
pub open spec fn file_uri_text(path: Seq<char>, windows: bool) -> Seq<char> {
    if windows {
        "file:///"@ + percent_encoded(drive_capitalized(slashed(path)))
    } else {
        "file://"@ + percent_encoded(path)
    }
}

/// The path of a file, as a URI gives it.
#[derive(Debug, Clone, PartialEq, Eq)]
pub enum FilePath {
    /// A path on this machine.
    Local(String),
    /// A path on the named host: the host stands for the drive or share
    /// that the path is joined to.
    Hosted { host: String, path: String },
}

/// The mathematical value of a `FilePath`.
pub enum FilePathView {
    Local(Seq<char>),
    Hosted { host: Seq<char>, path: Seq<char> },
}

impl View for FilePath {
    type V = FilePathView;

    open spec fn view(&self) -> FilePathView {
        match self {
            FilePath::Local(path) => FilePathView::Local(path@),
            FilePath::Hosted { host, path } => FilePathView::Hosted { host: host@, path: path@ },
        }
    }
}

/// The file path that a decoded URI path and a host give. An empty path
/// gives none. Off Windows the path is taken as it is. On Windows a path
/// without a host loses its leading character, which is the `/` before
/// the drive, and gives nothing where that character is not of ASCII; a
/// path with a host is joined to the host.
pub open spec fn file_path_of(path: Seq<char>, host: Seq<char>, windows: bool) -> Option<
    FilePathView,
> {
    if path.len() == 0 {
        None
    } else if !windows {
        Some(FilePathView::Local(path))
    } else if host.len() == 0 {
        if (path[0] as u32) < 128 {
            Some(FilePathView::Local(path.skip(1)))
        } else {
            None
        }
    } else {
        Some(FilePathView::Hosted { host, path })
    }
}

/// The value of an optional file path.
pub open spec fn opt_file_path(p: Option<FilePath>) -> Option<FilePathView> {
    match p {
        Some(p) => Some(p@),
        None => None,
    }
}

/// The file path that the decoded path and the host of a URI give.
pub fn file_path_from(path: String, host: String, windows: bool) -> (r: Option<FilePath>)
    ensures
        opt_file_path(r) == file_path_of(path@, host@, windows),
{
    let n = path.as_str().unicode_len();
    if n == 0 {
        return None;
    }
    if !windows {
        return Some(FilePath::Local(path));
    }
    if host.as_str().unicode_len() == 0 {
        if (path.as_str().get_char(0) as u32) < 128 {
            let rest = String::from_str(path.as_str().substring_char(1, n));
            proof {
                assert(path@.subrange(1, n as int) =~= path@.skip(1));
            }
            Some(FilePath::Local(rest))
        } else {
            None
        }
    } else {
        Some(FilePath::Hosted { host, path })
    }
}

/// A URI, held as its text. Two URIs are equal, and ordered, as their
/// texts are.
#[derive(Debug, PartialEq, Eq, PartialOrd, Ord, Hash)]
pub struct Uri {
    text: String,
}

impl View for Uri {
    type V = Seq<char>;

    closed spec fn view(&self) -> Seq<char> {
        self.text@
    }
}

impl Clone for Uri {
    fn clone(&self) -> (copy: Self)
        ensures
            copy@ == self@,
    {
        proof {
            use_type_invariant(self);
        }
        Uri { text: self.text.clone() }
    }
}

impl Uri {
    #[verifier::type_invariant]
    spec fn well_formed(self) -> bool {
        is_uri(self.text@)
    }

    /// Reads a URI from its text.
    pub fn from_str(s: &str) -> (r: Result<Uri, UriError>)
        ensures
            r is Ok <==> is_uri(s@),
            r is Ok ==> r->Ok_0@ == s@,
    {
        match check_uri(s) {
            Ok(_) => Ok(Uri { text: String::from_str(s) }),
            Err(e) => Err(e),
        }
    }

    /// The text of the URI.
    pub fn as_str(&self) -> (text: &str)
        ensures
            text@ == self@,
            is_uri(self@),
    {
        proof {
            use_type_invariant(self);
        }
        self.text.as_str()
    }

    /// The path of the file that the URI names, taken from the path of
    /// the URI whatever its scheme is. `windows` says whether paths are
    /// read as Windows reads them.
    pub fn to_file_path(&self, windows: bool) -> (r: Option<FilePath>)
        ensures
            opt_file_path(r) == file_path_of(uri_decoded_path(self@), uri_host(self@), windows),
    {
        proof {
            use_type_invariant(self);
        }
        let path = decoded_path(self.text.as_str());
        let host = host(self.text.as_str());
        file_path_from(path, host, windows)
    }

    /// The file URI of an absolute path, or `None` where the encoded path
    /// makes no URI. `windows` says whether the path is a Windows path.
    pub fn from_file_path(path: &str, windows: bool) -> (r: Option<Uri>)
        ensures
            match r {
                Some(uri) => uri@ == file_uri_text(path@, windows),
                None => !is_uri(file_uri_text(path@, windows)),
            },
    {
        let raw = if windows {
            let slashed = forward_slashes(path);
            let capitalized = capitalize_drive_letter(slashed.as_str());
            let mut raw = String::from_str("file:///");
            raw.append(percent_encode(capitalized.as_str()).as_str());
            raw
        } else {
            let mut raw = String::from_str("file://");
            raw.append(percent_encode(path).as_str());
            raw
        };
        match Uri::from_str(raw.as_str()) {
            Ok(uri) => Some(uri),
            Err(_) => None,
        }
    }
}

} // verus!
