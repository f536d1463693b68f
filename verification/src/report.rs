//! The diagnostics of a pass as text: hints in the form of config
//! fragments for what the config lacks, a message for each entity that
//! drifted from its checksum, and the messages of the errors that end a
//! pass, each with its context.

use vstd::prelude::*;
use vstd::string::*;
use crate::target::VersionError;
use crate::text::texts;
use crate::translate::{
    Drift, EntityKind, EnumerationError, EnumerationErrorView, StructureError,
    StructureErrorView, TranslateError, TranslateErrorView, Translation, TypeError,
};

verus! {

/// A text as `{:?}` writes a string slice: between double quotes, with
/// quotes, backslashes and characters that do not print escaped.
pub uninterp spec fn debug_quoted(text: Seq<char>) -> Seq<char>;

/// Formats the text with `{:?}`, the `Debug` form of `str`.
#[verifier::external_body]
fn quoted(text: &str) -> (out: String)
    ensures
        out@ == debug_quoted(text@),
{
    format!("{:?}", text)
}

/// The lines of a hint, one for each name: the name, written between
/// `open` and `close`, and a line feed.
pub open spec fn hint_lines(names: Seq<Seq<char>>, open: Seq<char>, close: Seq<char>) -> Seq<char>
    decreases names.len(),
{
    if names.len() == 0 {
        Seq::empty()
    } else {
        hint_lines(names.drop_last(), open, close) + open + names.last() + close
    }
}

/// A hint: nothing for no names, else the heading, a line for each name
/// and the closing fence.
pub open spec fn hint_text(
    names: Seq<Seq<char>>,
    heading: Seq<char>,
    open: Seq<char>,
    close: Seq<char>,
) -> Seq<char> {
    if names.len() == 0 {
        Seq::empty()
    } else {
        heading + hint_lines(names, open, close) + "```\n"@
    }
}

/// The hint for the structures that the config lacks.
pub open spec fn structs_hint_text(names: Seq<Seq<char>>) -> Seq<char> {
    hint_text(names, "These structs are missing. Add them.\n```toml\n[structs]\n"@, ""@, " = true\n"@)
}

/// The hint for the enumerations that the config lacks.
pub open spec fn enums_hint_text(names: Seq<Seq<char>>) -> Seq<char> {
    hint_text(names, "These enums are missing. Add them.\n```toml\n[enums]\n"@, ""@, " = true\n"@)
}

/// The hint for the anonymous unions that the config lacks.
pub open spec fn anon_hint_text(keys: Seq<Seq<char>>) -> Seq<char> {
    hint_text(
        keys,
        "These anon mappings are missing. Add them.\n```toml\n[anon-mappings]\n"@,
        "\""@,
        "\" = \"todo\"\n"@,
    )
}

fn hint(names: &Vec<String>, heading: &str, open: &str, close: &str) -> (out: String)
    ensures
        out@ == hint_text(texts(names@), heading@, open@, close@),
{
    let n = names.len();
    if n == 0 {
        return String::new();
    }
    let ghost all = texts(names@);
    let mut out = String::from_str(heading);
    let mut i: usize = 0;
    proof {
        assert(all.take(0) =~= Seq::<Seq<char>>::empty());
        assert(out@ =~= heading@ + hint_lines(all.take(0), open@, close@));
    }
    while i < n
        invariant
            n == names@.len(),
            i <= n,
            all == texts(names@),
            out@ == heading@ + hint_lines(all.take(i as int), open@, close@),
        decreases n - i,
    {
        out.append(open);
        out.append(names[i].as_str());
        out.append(close);
        i = i + 1;
        proof {
            assert(all.take(i as int).drop_last() == all.take(i - 1));
            assert(all.take(i as int).last() == names@[i - 1]@);
            assert(out@ =~= heading@ + hint_lines(all.take(i as int), open@, close@));
        }
    }
    proof {
        assert(all.take(n as int) == all);
    }
    out.append("```\n");
    out
}

/// What a drift says: the kind and the name of the entity, the checksum
/// that was expected and the fingerprint that was found.
pub open spec fn drift_text(
    kind: EntityKind,
    name: Seq<char>,
    expected: Seq<char>,
    actual: Seq<char>,
) -> Seq<char> {
    (match kind {
        EntityKind::Structure => "Hash mismatch for structure "@,
        EntityKind::Enumeration => "Hash mismatch for enumeration "@,
    }) + name + ", expected "@ + debug_quoted(expected) + ", got "@ + debug_quoted(actual)
}

impl Drift {
    /// The message that reports the drift.
    pub fn message(&self) -> (out: String)
        ensures
            out@ == drift_text(self.kind, self.name@, self.expected@, self.actual@),
    {
        let mut out = match self.kind {
            EntityKind::Structure => String::from_str("Hash mismatch for structure "),
            EntityKind::Enumeration => String::from_str("Hash mismatch for enumeration "),
        };
        out.append(self.name.as_str());
        out.append(", expected ");
        out.append(quoted(self.expected.as_str()).as_str());
        out.append(", got ");
        out.append(quoted(self.actual.as_str()).as_str());
        out
    }
}

impl Translation {
    /// The hint for the structures that the config lacks: a fragment of
    /// config that marks each of them to be generated. Empty where no
    /// structure is missing.
    pub fn structs_hint(&self) -> (out: String)
        ensures
            out@ == structs_hint_text(self@.structs_missing),
    {
        hint(
            &self.structs_missing,
            "These structs are missing. Add them.\n```toml\n[structs]\n",
            "",
            " = true\n",
        )
    }

    /// The hint for the enumerations that the config lacks.
    pub fn enums_hint(&self) -> (out: String)
        ensures
            out@ == enums_hint_text(self@.enums_missing),
    {
        hint(
            &self.enums_missing,
            "These enums are missing. Add them.\n```toml\n[enums]\n",
            "",
            " = true\n",
        )
    }

    /// The hint for the anonymous unions that the config lacks: a fragment
    /// of config with a mapping to fill in for each key.
    pub fn anon_hint(&self) -> (out: String)
        ensures
            out@ == anon_hint_text(self@.anon_missing),
    {
        hint(
            &self.anon_missing,
            "These anon mappings are missing. Add them.\n```toml\n[anon-mappings]\n",
            "\"",
            "\" = \"todo\"\n",
        )
    }
}

/// The digit for a number below ten.
pub open spec fn decimal_digit(n: nat) -> char {
    if n == 0 {
        '0'
    } else if n == 1 {
        '1'
    } else if n == 2 {
        '2'
    } else if n == 3 {
        '3'
    } else if n == 4 {
        '4'
    } else if n == 5 {
        '5'
    } else if n == 6 {
        '6'
    } else if n == 7 {
        '7'
    } else if n == 8 {
        '8'
    } else {
        '9'
    }
}

/// A number in decimal digits, without leading zeros.
pub open spec fn decimal_text(n: nat) -> Seq<char>
    decreases n,
{
    if n < 10 {
        seq![decimal_digit(n)]
    } else {
        decimal_text(n / 10) + seq![decimal_digit(n % 10)]
    }
}

fn digit_str(n: usize) -> (s: &'static str)
    requires
        n < 10,
    ensures
        s@ == seq![decimal_digit(n as nat)],
{
    proof {
        reveal_strlit("0");
        reveal_strlit("1");
        reveal_strlit("2");
        reveal_strlit("3");
        reveal_strlit("4");
        reveal_strlit("5");
        reveal_strlit("6");
        reveal_strlit("7");
        reveal_strlit("8");
        reveal_strlit("9");
    }
    let s = if n == 0 {
        "0"
    } else if n == 1 {
        "1"
    } else if n == 2 {
        "2"
    } else if n == 3 {
        "3"
    } else if n == 4 {
        "4"
    } else if n == 5 {
        "5"
    } else if n == 6 {
        "6"
    } else if n == 7 {
        "7"
    } else if n == 8 {
        "8"
    } else {
        "9"
    };
    assert(s@ =~= seq![decimal_digit(n as nat)]);
    s
}

/// Writes a number in decimal digits.
pub fn decimal(n: usize) -> (text: String)
    ensures
        text@ == decimal_text(n as nat),
    decreases n,
{
    if n < 10 {
        String::from_str(digit_str(n))
    } else {
        let mut text = decimal(n / 10);
        text.append(digit_str(n % 10));
        text
    }
}

/// What is said of a type that has no translation.
pub open spec fn type_error_text(e: TypeError) -> Seq<char> {
    match e {
        TypeError::RegExp => "RegExp is documented for the protocol but absent from the meta-model"@,
        TypeError::Null => "translate null"@,
        TypeError::Tuple => "translate tuples"@,
        TypeError::Literal => "translate literal type"@,
        TypeError::IntegerLiteral => "translate string integer type"@,
        TypeError::BooleanLiteral => "translate string boolean type"@,
        TypeError::UndecidableUnion => "invalid collection of items for an enum"@,
    }
}

/// What is said of a tag that names no version.
pub open spec fn version_error_text(token: Seq<char>) -> Seq<char> {
    "invalid version "@ + token
}

/// What is said of a structure that has no translation: the context of
/// the failure, where it has one, and then the failure itself.
pub open spec fn structure_error_texts(e: StructureErrorView) -> Seq<Seq<char>> {
    match e {
        StructureErrorView::Extends(at) => seq![
            "no name for the base of extends at "@ + decimal_text(at as nat),
        ],
        StructureErrorView::Mixin(at) => seq![
            "no name for the base of mixins at "@ + decimal_text(at as nat),
        ],
        StructureErrorView::Property { name, cause } => seq![
            "while translating property: "@ + name,
            type_error_text(cause),
        ],
        StructureErrorView::Version(token) => seq![version_error_text(token)],
    }
}

/// What is said of an enumeration that has no translation.
pub open spec fn enumeration_error_text(e: EnumerationErrorView) -> Seq<char> {
    match e {
        EnumerationErrorView::IntegerKind => "translate int enums"@,
        EnumerationErrorView::UintegerKind => "translate uint enums"@,
        EnumerationErrorView::Version(token) => version_error_text(token),
    }
}

/// What is said of a pass that was given up: the entity that was being
/// translated, and then what is said of its failure.
pub open spec fn translate_error_texts(e: TranslateErrorView) -> Seq<Seq<char>> {
    match e {
        TranslateErrorView::Structure { name, cause } => seq!["translating structure "@ + name]
            + structure_error_texts(cause),
        TranslateErrorView::Enumeration { name, cause } => seq![
            "translating enumeration "@ + name,
            enumeration_error_text(cause),
        ],
    }
}

impl TypeError {
    /// The message of the error.
    pub fn message(&self) -> (text: &'static str)
        ensures
            text@ == type_error_text(*self),
    {
        match self {
            TypeError::RegExp => "RegExp is documented for the protocol but absent from the meta-model",
            TypeError::Null => "translate null",
            TypeError::Tuple => "translate tuples",
            TypeError::Literal => "translate literal type",
            TypeError::IntegerLiteral => "translate string integer type",
            TypeError::BooleanLiteral => "translate string boolean type",
            TypeError::UndecidableUnion => "invalid collection of items for an enum",
        }
    }
}

impl VersionError {
    /// The message of the error.
    pub fn message(&self) -> (text: String)
        ensures
            text@ == version_error_text(self.token@),
    {
        let mut text = String::from_str("invalid version ");
        text.append(self.token.as_str());
        text
    }
}

impl StructureError {
    /// The messages of the error: its context, where it has one, and then
    /// the failure itself.
    pub fn messages(&self) -> (lines: Vec<String>)
        ensures
            texts(lines@) == structure_error_texts(self@),
    {
        let mut lines: Vec<String> = Vec::new();
        match self {
            StructureError::Extends(at) => {
                let mut text = String::from_str("no name for the base of extends at ");
                text.append(decimal(*at).as_str());
                lines.push(text);
            },
            StructureError::Mixin(at) => {
                let mut text = String::from_str("no name for the base of mixins at ");
                text.append(decimal(*at).as_str());
                lines.push(text);
            },
            StructureError::Property { name, cause } => {
                let mut text = String::from_str("while translating property: ");
                text.append(name.as_str());
                lines.push(text);
                lines.push(String::from_str(cause.message()));
            },
            StructureError::Version(e) => {
                lines.push(e.message());
            },
        }
        assert(texts(lines@) =~= structure_error_texts(self@));
        lines
    }
}

impl EnumerationError {
    /// The message of the error.
    pub fn message(&self) -> (text: String)
        ensures
            text@ == enumeration_error_text(self@),
    {
        match self {
            EnumerationError::IntegerKind => String::from_str("translate int enums"),
            EnumerationError::UintegerKind => String::from_str("translate uint enums"),
            EnumerationError::Version(e) => e.message(),
        }
    }
}

impl TranslateError {
    /// The messages of the error from the outermost context to the
    /// failure itself.
    pub fn messages(&self) -> (lines: Vec<String>)
        ensures
            texts(lines@) == translate_error_texts(self@),
    {
        match self {
            TranslateError::Structure { name, cause } => {
                let mut text = String::from_str("translating structure ");
                text.append(name.as_str());
                let mut lines: Vec<String> = Vec::new();
                lines.push(text);
                let ghost first = texts(lines@);
                let mut inner = cause.messages();
                let ghost rest = texts(inner@);
                lines.append(&mut inner);
                assert(texts(lines@) =~= first + rest);
                assert(first =~= seq!["translating structure "@ + name@]);
                lines
            },
            TranslateError::Enumeration { name, cause } => {
                let mut text = String::from_str("translating enumeration ");
                text.append(name.as_str());
                let mut lines: Vec<String> = Vec::new();
                lines.push(text);
                lines.push(cause.message());
                assert(texts(lines@) =~= translate_error_texts(self@));
                lines
            },
        }
    }
}

} // verus!
