//! The target model: the declarations that a translation produces, and the
//! textual type references that their fields carry.

use vstd::prelude::*;
use vstd::string::*;
use crate::text::{join, lemma_join_push, opt_text, str_eq, texts};

verus! {

/// The protocol version in which an entity first appeared.
#[allow(non_camel_case_types)]
#[derive(Debug, Clone, Copy, PartialEq, Eq, Structural)]
pub enum Version {
    Unknown,
    V3_2_0,
    V3_6_0,
    V3_8_0,
    V3_10_0,
    V3_12_0,
    V3_13_0,
    V3_14_0,
    V3_15_0,
    V3_16_0,
    V3_17_0,
    V3_18_0,
}

/// A version tag that names no known protocol version.
#[derive(Debug, Clone, PartialEq, Eq)]
pub struct VersionError {
    /// The tag as it was compared against the known versions.
    pub token: String,
}

/// `s` without a leading `"version "`.
pub open spec fn strip_version_word(s: Seq<char>) -> Seq<char> {
    if "version "@.is_prefix_of(s) {
        s.skip("version "@.len() as int)
    } else {
        s
    }
}

/// `s` up to its first space, or all of it where it holds none.
pub open spec fn first_word(s: Seq<char>) -> Seq<char> {
    match s.index_of_first(' ') {
        Some(i) => s.take(i),
        None => s,
    }
}

/// `s` without one trailing full stop.
pub open spec fn strip_full_stop(s: Seq<char>) -> Seq<char> {
    if s.len() > 0 && s.last() == '.' {
        s.drop_last()
    } else {
        s
    }
}

/// The part of a `since` tag that is compared against the known versions:
/// the word after an optional `"version "`, without a trailing full stop.
pub open spec fn version_token(s: Seq<char>) -> Seq<char> {
    strip_full_stop(first_word(strip_version_word(s)))
}

/// The version that a token names. Both `3.16` and `3.17` stand for 3.17.0.
pub open spec fn version_of_token(t: Seq<char>) -> Option<Version> {
    if t == "3.2.0"@ {
        Some(Version::V3_2_0)
    } else if t == "3.6.0"@ {
        Some(Version::V3_6_0)
    } else if t == "3.8.0"@ {
        Some(Version::V3_8_0)
    } else if t == "3.10.0"@ {
        Some(Version::V3_10_0)
    } else if t == "3.12.0"@ {
        Some(Version::V3_12_0)
    } else if t == "3.13.0"@ {
        Some(Version::V3_13_0)
    } else if t == "3.14.0"@ {
        Some(Version::V3_14_0)
    } else if t == "3.15.0"@ {
        Some(Version::V3_15_0)
    } else if t == "3.16.0"@ {
        Some(Version::V3_16_0)
    } else if t == "3.16"@ {
        Some(Version::V3_17_0)
    } else if t == "3.17.0"@ {
        Some(Version::V3_17_0)
    } else if t == "3.17"@ {
        Some(Version::V3_17_0)
    } else if t == "3.18.0"@ {
        Some(Version::V3_18_0)
    } else {
        None
    }
}

/// What `Version::parse` returns: `Unknown` for a missing tag, the named
/// version for a known token, and the token itself for any other.
pub open spec fn parse_version(s: Option<Seq<char>>) -> Result<Version, Seq<char>> {
    match s {
        None => Ok(Version::Unknown),
        Some(text) => match version_of_token(version_token(text)) {
            Some(v) => Ok(v),
            None => Err(version_token(text)),
        },
    }
}

/// The index of the first space of `s` at or after `from`, or the length.
fn find_space(s: &str, from: usize, len: usize) -> (at: usize)
    requires
        len == s@.len(),
        from <= len,
    ensures
        from <= at <= len,
        at < len ==> s@[at as int] == ' ',
        forall|j: int| from <= j < at ==> s@[j] != ' ',
{
    let mut at: usize = from;
    while at < len
        invariant
            len == s@.len(),
            from <= at <= len,
            forall|j: int| from <= j < at ==> s@[j] != ' ',
        decreases len - at,
    {
        if s.get_char(at) == ' ' {
            return at;
        }
        at = at + 1;
    }
    at
}

fn token_version(t: &str) -> (v: Option<Version>)
    ensures
        v == version_of_token(t@),
{
    if str_eq(t, "3.2.0") {
        Some(Version::V3_2_0)
    } else if str_eq(t, "3.6.0") {
        Some(Version::V3_6_0)
    } else if str_eq(t, "3.8.0") {
        Some(Version::V3_8_0)
    } else if str_eq(t, "3.10.0") {
        Some(Version::V3_10_0)
    } else if str_eq(t, "3.12.0") {
        Some(Version::V3_12_0)
    } else if str_eq(t, "3.13.0") {
        Some(Version::V3_13_0)
    } else if str_eq(t, "3.14.0") {
        Some(Version::V3_14_0)
    } else if str_eq(t, "3.15.0") {
        Some(Version::V3_15_0)
    } else if str_eq(t, "3.16.0") {
        Some(Version::V3_16_0)
    } else if str_eq(t, "3.16") {
        Some(Version::V3_17_0)
    } else if str_eq(t, "3.17.0") {
        Some(Version::V3_17_0)
    } else if str_eq(t, "3.17") {
        Some(Version::V3_17_0)
    } else if str_eq(t, "3.18.0") {
        Some(Version::V3_18_0)
    } else {
        None
    }
}

impl Version {
    /// Reads a `since` tag such as `"3.17.0"` or `"version 3.16.0 - proposed"`.
    pub fn parse(s: Option<&str>) -> (r: Result<Version, VersionError>)
        ensures
            match parse_version(
                match s {
                    Some(text) => Some(text@),
                    None => None,
                },
            ) {
                Ok(v) => r == Ok::<Version, VersionError>(v),
                Err(token) => r is Err && r->Err_0.token@ == token,
            },
    {
        let text = match s {
            None => {
                return Ok(Version::Unknown);
            },
            Some(text) => text,
        };
        let len = text.unicode_len();
        proof {
            reveal_strlit("version ");
        }
        let mut start: usize = 0;
        if len >= 8 {
            if str_eq(text.substring_char(0, 8), "version ") {
                start = 8;
            }
        }
        let ghost rest = strip_version_word(text@);
        assert(rest == text@.skip(start as int)) by {
            if start == 0 {
                assert(text@.skip(0) == text@);
                if len >= 8 {
                    assert(!"version "@.is_prefix_of(text@));
                }
            }
        }
        let space = find_space(text, start, len);
        let ghost word = first_word(rest);
        assert(word == text@.subrange(start as int, space as int)) by {
            rest.index_of_first_ensures(' ');
            match rest.index_of_first(' ') {
                Some(i) => {
                    assert(rest[i] == text@[start + i]);
                    if i < space - start {
                        assert(text@[start + i] != ' ');
                    }
                    if space < len && space - start < i {
                        assert(rest[space - start] == ' ');
                    }
                    assert(i == space - start);
                    assert(rest.take(i) == text@.subrange(start as int, space as int));
                },
                None => {
                    if space < len {
                        assert(rest[space - start] == ' ');
                        assert(rest.contains(' '));
                    }
                    assert(rest == text@.subrange(start as int, space as int));
                },
            }
        }
        let mut end: usize = space;
        if end > start {
            if text.get_char(end - 1) == '.' {
                end = end - 1;
            }
        }
        let token = text.substring_char(start, end);
        assert(token@ == version_token(text@)) by {
            if word.len() > 0 {
                assert(word.last() == text@[space - 1]);
            }
            if end < space {
                assert(word.drop_last() == text@.subrange(start as int, end as int));
            }
        }
        match token_version(token) {
            Some(v) => Ok(v),
            None => Err(VersionError { token: String::from_str(token) }),
        }
    }
}

/// A reference to a target type, held as the text that names it.
#[derive(Debug, Clone, PartialEq, Eq)]
pub struct TypeRef(String);

impl View for TypeRef {
    type V = Seq<char>;

    closed spec fn view(&self) -> Seq<char> {
        self.0@
    }
}

/// The text of each reference of a list.
pub open spec fn ref_texts(refs: Seq<TypeRef>) -> Seq<Seq<char>> {
    refs.map_values(|t: TypeRef| t@)
}

/// The text of a generic instantiation: `name<a1,...,an>`.
pub open spec fn generic_text(name: Seq<char>, args: Seq<Seq<char>>) -> Seq<char> {
    name + seq!['<'] + join(args, seq![',']) + seq!['>']
}

/// The text of a tuple: `(e1,...,en)`.
pub open spec fn tuple_text(elements: Seq<Seq<char>>) -> Seq<char> {
    seq!['('] + join(elements, seq![',']) + seq![')']
}

/// The references' texts joined by commas.
fn comma_joined(refs: &[TypeRef]) -> (out: String)
    ensures
        out@ == join(ref_texts(refs@), seq![',']),
{
    let mut out = String::new();
    let ghost all = ref_texts(refs@);
    proof {
        reveal_strlit(",");
        assert(all.take(0) =~= Seq::<Seq<char>>::empty());
    }
    let n = refs.len();
    let mut i: usize = 0;
    while i < n
        invariant
            n == refs@.len(),
            i <= n,
            all == ref_texts(refs@),
            ","@ == seq![','],
            out@ == join(all.take(i as int), seq![',']),
        decreases n - i,
    {
        proof {
            lemma_join_push(all.take(i as int), all[i as int], seq![',']);
            assert(all.take(i as int).push(all[i as int]) == all.take(i + 1));
        }
        if i > 0 {
            out.append(",");
        }
        out.append(refs[i].as_str());
        i = i + 1;
    }
    proof {
        assert(all.take(n as int) == all);
    }
    out
}

impl TypeRef {
    /// The reference that is the bare name.
    pub fn new(name: &str) -> (r: Self)
        ensures
            r@ == name@,
    {
        TypeRef(String::from_str(name))
    }

    /// The text of the reference.
    pub fn as_str(&self) -> (text: &str)
        ensures
            text@ == self@,
    {
        self.0.as_str()
    }

    /// The instantiation of the generic type `name` with `generics`.
    pub fn new_generics(name: &str, generics: &[TypeRef]) -> (r: Self)
        ensures
            r@ == generic_text(name@, ref_texts(generics@)),
    {
        proof {
            reveal_strlit("<");
            reveal_strlit(">");
            assert("<"@ == seq!['<']);
            assert(">"@ == seq!['>']);
        }
        let mut text = String::from_str(name);
        text.append("<");
        let args = comma_joined(generics);
        text.append(args.as_str());
        text.append(">");
        TypeRef(text)
    }

    /// The tuple of `elements`.
    pub fn new_tuple(elements: &[TypeRef]) -> (r: Self)
        ensures
            r@ == tuple_text(ref_texts(elements@)),
    {
        proof {
            reveal_strlit("(");
            reveal_strlit(")");
            assert("("@ == seq!['(']);
            assert(")"@ == seq![')']);
        }
        let mut text = String::from_str("(");
        let inner = comma_joined(elements);
        text.append(inner.as_str());
        text.append(")");
        TypeRef(text)
    }
}

/// One field of a struct declaration.
#[derive(Debug, Clone, PartialEq, Eq)]
pub struct StructFields {
    pub name: String,
    pub ty: TypeRef,
    pub doc: Option<String>,
    pub since: Version,
    pub deprecated: Option<String>,
}

/// The mathematical value of a `StructFields`.
pub struct StructFieldsView {
    pub name: Seq<char>,
    pub ty: Seq<char>,
    pub doc: Option<Seq<char>>,
    pub since: Version,
    pub deprecated: Option<Seq<char>>,
}

impl View for StructFields {
    type V = StructFieldsView;

    open spec fn view(&self) -> StructFieldsView {
        StructFieldsView {
            name: self.name@,
            ty: self.ty@,
            doc: opt_text(self.doc),
            since: self.since,
            deprecated: opt_text(self.deprecated),
        }
    }
}

/// A struct declaration.
#[derive(Debug, Clone, PartialEq, Eq)]
pub struct Struct {
    pub name: String,
    pub extends: Vec<String>,
    pub fields: Vec<StructFields>,
    pub doc: Option<String>,
    pub deprecated: Option<String>,
    pub since: Version,
}

/// The mathematical value of a `Struct`.
pub struct StructView {
    pub name: Seq<char>,
    pub extends: Seq<Seq<char>>,
    pub fields: Seq<StructFieldsView>,
    pub doc: Option<Seq<char>>,
    pub deprecated: Option<Seq<char>>,
    pub since: Version,
}

impl View for Struct {
    type V = StructView;

    open spec fn view(&self) -> StructView {
        StructView {
            name: self.name@,
            extends: texts(self.extends@),
            fields: self.fields@.map_values(|f: StructFields| f@),
            doc: opt_text(self.doc),
            deprecated: opt_text(self.deprecated),
            since: self.since,
        }
    }
}

/// One variant of an enum declaration.
#[derive(Debug, Clone, PartialEq, Eq)]
pub struct EnumVariants {
    pub name: String,
    pub doc: Option<String>,
    pub since: Version,
}

/// The mathematical value of an `EnumVariants`.
pub struct EnumVariantsView {
    pub name: Seq<char>,
    pub doc: Option<Seq<char>>,
    pub since: Version,
}

impl View for EnumVariants {
    type V = EnumVariantsView;

    open spec fn view(&self) -> EnumVariantsView {
        EnumVariantsView { name: self.name@, doc: opt_text(self.doc), since: self.since }
    }
}

/// An enum declaration.
#[derive(Debug, Clone, PartialEq, Eq)]
pub struct Enum {
    pub name: String,
    pub variants: Vec<EnumVariants>,
    pub doc: Option<String>,
    pub deprecated: Option<String>,
    pub since: Version,
}

/// The mathematical value of an `Enum`.
pub struct EnumView {
    pub name: Seq<char>,
    pub variants: Seq<EnumVariantsView>,
    pub doc: Option<Seq<char>>,
    pub deprecated: Option<Seq<char>>,
    pub since: Version,
}

impl View for Enum {
    type V = EnumView;

    open spec fn view(&self) -> EnumView {
        EnumView {
            name: self.name@,
            variants: self.variants@.map_values(|v: EnumVariants| v@),
            doc: opt_text(self.doc),
            deprecated: opt_text(self.deprecated),
            since: self.since,
        }
    }
}

/// An implementation of an interface for a declared type.
#[derive(Debug, Clone, PartialEq, Eq)]
pub struct TraitImpl {
    pub interface: String,
    pub implementor: String,
    pub assoc_types: Vec<(String, TypeRef)>,
    pub assoc_const: Vec<(String, String)>,
}

/// The mathematical value of a `TraitImpl`.
pub struct TraitImplView {
    pub interface: Seq<char>,
    pub implementor: Seq<char>,
    pub assoc_types: Seq<(Seq<char>, Seq<char>)>,
    pub assoc_const: Seq<(Seq<char>, Seq<char>)>,
}

impl View for TraitImpl {
    type V = TraitImplView;

    open spec fn view(&self) -> TraitImplView {
        TraitImplView {
            interface: self.interface@,
            implementor: self.implementor@,
            assoc_types: self.assoc_types@.map_values(|p: (String, TypeRef)| (p.0@, p.1@)),
            assoc_const: self.assoc_const@.map_values(|p: (String, String)| (p.0@, p.1@)),
        }
    }
}

/// One declaration of the target model.
#[derive(Debug, Clone, PartialEq, Eq)]
pub enum Item {
    Struct(Struct),
    Enum(Enum),
    TraitImpl(TraitImpl),
}

/// The mathematical value of an `Item`.
pub enum ItemView {
    Struct(StructView),
    Enum(EnumView),
    TraitImpl(TraitImplView),
}

impl View for Item {
    type V = ItemView;

    open spec fn view(&self) -> ItemView {
        match self {
            Item::Struct(s) => ItemView::Struct(s@),
            Item::Enum(e) => ItemView::Enum(e@),
            Item::TraitImpl(t) => ItemView::TraitImpl(t@),
        }
    }
}

/// The value of each item of a list.
pub open spec fn item_views(items: Seq<Item>) -> Seq<ItemView> {
    items.map_values(|i: Item| i@)
}

} // verus!
