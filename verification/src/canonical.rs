//! The canonical encoding tells structures apart: two structures with the
//! same bytes hold the same names, types and texts throughout.

use vstd::prelude::*;
use vstd::bytes::{lemma_auto_spec_u64_to_from_le_bytes, spec_u64_to_le_bytes};
use vstd::utf8::{encode_scalar, encode_utf8, encode_utf8_decode_utf8};
use crate::fingerprint::{
    base_index, enc_bool, enc_literal, enc_opt_bool, enc_opt_text, enc_opt_texts, enc_property,
    enc_property_run, enc_text, enc_text_run, enc_type, enc_type_run, structure_bytes, word,
};
use crate::schema::{BaseType, Property, Structure, StructureLiteral, Type};
use crate::text::{opt_text, texts};

verus! {

/// Byte strings are joined in any grouping.
proof fn lemma_cat(a: Seq<u8>, b: Seq<u8>, c: Seq<u8>)
    ensures
        (a + b) + c == a + (b + c),
{
    assert((a + b) + c =~= a + (b + c));
}

/// Two byte strings that begin with eight-byte words are the same only if
/// the words hold the same number and what follows is the same.
pub proof fn lemma_word_first(x: u64, rest_x: Seq<u8>, y: u64, rest_y: Seq<u8>)
    requires
        word(x) + rest_x == word(y) + rest_y,
    ensures
        x == y,
        rest_x == rest_y,
{
    lemma_auto_spec_u64_to_from_le_bytes();
    let a = word(x) + rest_x;
    let b = word(y) + rest_y;
    assert(word(x).len() == 8);
    assert(word(y).len() == 8);
    assert(a.subrange(0, 8) =~= word(x));
    assert(b.subrange(0, 8) =~= word(y));
    assert(a.subrange(8, a.len() as int) =~= rest_x);
    assert(b.subrange(8, b.len() as int) =~= rest_y);
}

/// No byte of the UTF-8 encoding of a character is `0xff`.
proof fn lemma_scalar_bytes(c: char, i: int)
    requires
        0 <= i < encode_scalar(c as u32).len(),
    ensures
        encode_scalar(c as u32)[i] != 0xff,
{
    let s = c as u32;
    assert((s & 0x7F) as u8 != 0xff) by (bit_vector);
    assert(0xC0u8 | ((s >> 6) & 0x1F) as u8 != 0xff) by (bit_vector);
    assert(0xE0u8 | ((s >> 12) & 0x0F) as u8 != 0xff) by (bit_vector);
    assert(0xF0u8 | ((s >> 18) & 0x7) as u8 != 0xff) by (bit_vector);
    assert(0x80u8 | (s & 0x3F) as u8 != 0xff) by (bit_vector);
    assert(0x80u8 | ((s >> 6) & 0x3F) as u8 != 0xff) by (bit_vector);
    assert(0x80u8 | ((s >> 12) & 0x3F) as u8 != 0xff) by (bit_vector);
}

/// No byte of the UTF-8 encoding of a text is `0xff`.
proof fn lemma_text_bytes(text: Seq<char>, i: int)
    requires
        0 <= i < encode_utf8(text).len(),
    ensures
        encode_utf8(text)[i] != 0xff,
    decreases text.len(),
{
    if text.len() > 0 {
        let first = encode_scalar(text[0] as u32);
        if i < first.len() {
            lemma_scalar_bytes(text[0], i);
        } else {
            lemma_text_bytes(text.drop_first(), i - first.len());
        }
    }
}

/// Two byte strings that begin with encoded texts are the same only if
/// the texts are the same and what follows is the same.
pub proof fn lemma_text_first(s: Seq<char>, rest_s: Seq<u8>, t: Seq<char>, rest_t: Seq<u8>)
    requires
        enc_text(s) + rest_s == enc_text(t) + rest_t,
    ensures
        s == t,
        rest_s == rest_t,
{
    let a = enc_text(s) + rest_s;
    let b = enc_text(t) + rest_t;
    let p = encode_utf8(s).len() as int;
    let q = encode_utf8(t).len() as int;
    assert(a[p] == 0xff);
    assert(b[q] == 0xff);
    if p < q {
        lemma_text_bytes(t, p);
        assert(b[p] == encode_utf8(t)[p]);
    }
    if q < p {
        lemma_text_bytes(s, q);
        assert(a[q] == encode_utf8(s)[q]);
    }
    assert(a.subrange(0, p) =~= encode_utf8(s));
    assert(b.subrange(0, p) =~= encode_utf8(t));
    assert(a.subrange(p + 1, a.len() as int) =~= rest_s);
    assert(b.subrange(p + 1, b.len() as int) =~= rest_t);
    encode_utf8_decode_utf8(s);
    encode_utf8_decode_utf8(t);
}

/// Two byte strings that begin with encoded flags are the same only if
/// the flags are the same and what follows is the same.
pub proof fn lemma_bool_first(x: bool, rest_x: Seq<u8>, y: bool, rest_y: Seq<u8>)
    requires
        enc_bool(x) + rest_x == enc_bool(y) + rest_y,
    ensures
        x == y,
        rest_x == rest_y,
{
    let a = enc_bool(x) + rest_x;
    let b = enc_bool(y) + rest_y;
    assert(a[0] == enc_bool(x)[0]);
    assert(b[0] == enc_bool(y)[0]);
    assert(a.subrange(1, a.len() as int) =~= rest_x);
    assert(b.subrange(1, b.len() as int) =~= rest_y);
}

/// Two byte strings that begin with encoded optional texts are the same
/// only if the texts are the same and what follows is the same.
pub proof fn lemma_opt_text_first(
    a: Option<String>,
    rest_a: Seq<u8>,
    b: Option<String>,
    rest_b: Seq<u8>,
)
    requires
        enc_opt_text(a) + rest_a == enc_opt_text(b) + rest_b,
    ensures
        opt_text(a) == opt_text(b),
        rest_a == rest_b,
{
    let tag_a: u64 = if a is Some { 1 } else { 0 };
    let tag_b: u64 = if b is Some { 1 } else { 0 };
    let body_a = match a {
        Some(s) => enc_text(s@),
        None => Seq::empty(),
    };
    let body_b = match b {
        Some(s) => enc_text(s@),
        None => Seq::empty(),
    };
    assert(enc_opt_text(a) + rest_a =~= word(tag_a) + (body_a + rest_a));
    assert(enc_opt_text(b) + rest_b =~= word(tag_b) + (body_b + rest_b));
    lemma_word_first(tag_a, body_a + rest_a, tag_b, body_b + rest_b);
    if a is Some {
        lemma_text_first(a->0@, rest_a, b->0@, rest_b);
    } else {
        assert(body_a + rest_a =~= rest_a);
        assert(body_b + rest_b =~= rest_b);
    }
}

/// Two byte strings that begin with encoded optional flags are the same
/// only if the flags are the same and what follows is the same.
pub proof fn lemma_opt_bool_first(
    a: Option<bool>,
    rest_a: Seq<u8>,
    b: Option<bool>,
    rest_b: Seq<u8>,
)
    requires
        enc_opt_bool(a) + rest_a == enc_opt_bool(b) + rest_b,
    ensures
        a == b,
        rest_a == rest_b,
{
    let tag_a: u64 = if a is Some { 1 } else { 0 };
    let tag_b: u64 = if b is Some { 1 } else { 0 };
    let body_a = match a {
        Some(x) => enc_bool(x),
        None => Seq::empty(),
    };
    let body_b = match b {
        Some(x) => enc_bool(x),
        None => Seq::empty(),
    };
    assert(enc_opt_bool(a) + rest_a =~= word(tag_a) + (body_a + rest_a));
    assert(enc_opt_bool(b) + rest_b =~= word(tag_b) + (body_b + rest_b));
    lemma_word_first(tag_a, body_a + rest_a, tag_b, body_b + rest_b);
    if a is Some {
        lemma_bool_first(a->0, rest_a, b->0, rest_b);
    } else {
        assert(body_a + rest_a =~= rest_a);
        assert(body_b + rest_b =~= rest_b);
    }
}

/// Two byte strings that begin with as many encoded texts are the same
/// only if the texts are the same and what follows is the same.
pub proof fn lemma_text_run_first(
    v: Seq<String>,
    rest_v: Seq<u8>,
    w: Seq<String>,
    rest_w: Seq<u8>,
)
    requires
        v.len() == w.len(),
        enc_text_run(v) + rest_v == enc_text_run(w) + rest_w,
    ensures
        texts(v) == texts(w),
        rest_v == rest_w,
    decreases v.len(),
{
    if v.len() == 0 {
        assert(enc_text_run(v) + rest_v =~= rest_v);
        assert(enc_text_run(w) + rest_w =~= rest_w);
        assert(texts(v) =~= texts(w));
    } else {
        let front_v = v.drop_last();
        let front_w = w.drop_last();
        let last_v = enc_text(v.last()@);
        let last_w = enc_text(w.last()@);
        assert(enc_text_run(v) + rest_v =~= enc_text_run(front_v) + (last_v + rest_v));
        assert(enc_text_run(w) + rest_w =~= enc_text_run(front_w) + (last_w + rest_w));
        lemma_text_run_first(front_v, last_v + rest_v, front_w, last_w + rest_w);
        lemma_text_first(v.last()@, rest_v, w.last()@, rest_w);
        assert(texts(v) =~= texts(w)) by {
            assert forall|i: int| 0 <= i < v.len() implies texts(v)[i] == texts(w)[i] by {
                if i < v.len() - 1 {
                    assert(texts(front_v)[i] == texts(front_w)[i]);
                    assert(front_v[i] == v[i]);
                    assert(front_w[i] == w[i]);
                }
            }
        }
    }
}

/// Whether two optional lists of texts hold the same.
pub open spec fn same_opt_texts(a: Option<Vec<String>>, b: Option<Vec<String>>) -> bool {
    match (a, b) {
        (None, None) => true,
        (Some(v), Some(w)) => texts(v@) == texts(w@),
        _ => false,
    }
}

/// Two byte strings that begin with encoded optional lists of texts are
/// the same only if the lists are the same and what follows is the same.
pub proof fn lemma_opt_texts_first(
    a: Option<Vec<String>>,
    rest_a: Seq<u8>,
    b: Option<Vec<String>>,
    rest_b: Seq<u8>,
)
    requires
        enc_opt_texts(a) + rest_a == enc_opt_texts(b) + rest_b,
    ensures
        same_opt_texts(a, b),
        rest_a == rest_b,
{
    let tag_a: u64 = if a is Some { 1 } else { 0 };
    let tag_b: u64 = if b is Some { 1 } else { 0 };
    let body_a = match a {
        Some(v) => word(v@.len() as u64) + enc_text_run(v@),
        None => Seq::empty(),
    };
    let body_b = match b {
        Some(v) => word(v@.len() as u64) + enc_text_run(v@),
        None => Seq::empty(),
    };
    assert(enc_opt_texts(a) + rest_a =~= word(tag_a) + (body_a + rest_a));
    assert(enc_opt_texts(b) + rest_b =~= word(tag_b) + (body_b + rest_b));
    lemma_word_first(tag_a, body_a + rest_a, tag_b, body_b + rest_b);
    if a is Some {
        let v = a->0;
        let w = b->0;
        assert(body_a + rest_a =~= word(v@.len() as u64) + (enc_text_run(v@) + rest_a));
        assert(body_b + rest_b =~= word(w@.len() as u64) + (enc_text_run(w@) + rest_b));
        lemma_word_first(
            v@.len() as u64,
            enc_text_run(v@) + rest_a,
            w@.len() as u64,
            enc_text_run(w@) + rest_b,
        );
        assert(v@.len() == v.len());
        assert(w@.len() == w.len());
        lemma_text_run_first(v@, rest_a, w@, rest_b);
    } else {
        assert(body_a + rest_a =~= rest_a);
        assert(body_b + rest_b =~= rest_b);
    }
}

/// Whether two types are the same throughout: the same shape, with the
/// same names, texts and numbers at every place.
pub open spec fn same_type(a: Type, b: Type) -> bool
    decreases a,
{
    match a {
        Type::Base { name } => b matches Type::Base { name: other } && name == other,
        Type::Reference { name } => b matches Type::Reference { name: other } && name@ == other@,
        Type::Array { element } => b matches Type::Array { element: other } && same_type(
            *element,
            *other,
        ),
        Type::Mapping { key, value } => b matches Type::Mapping { key: other_key, value: other }
            && same_type(*key, *other_key) && same_type(*value, *other),
        Type::Or { items } => b matches Type::Or { items: other } && same_types(items@, other@),
        Type::Tuple { items } => b matches Type::Tuple { items: other } && same_types(
            items@,
            other@,
        ),
        Type::Literal { value } => b matches Type::Literal { value: other } && same_literal(
            value,
            other,
        ),
        Type::StringLiteral { value } => b matches Type::StringLiteral { value: other } && value@
            == other@,
        Type::IntegerLiteral { value } => b matches Type::IntegerLiteral { value: other } && value
            == other,
        Type::BooleanLiteral { value } => b matches Type::BooleanLiteral { value: other } && value
            == other,
    }
}

/// Whether two lists of types are as long and the same at every place.
pub open spec fn same_types(a: Seq<Type>, b: Seq<Type>) -> bool
    decreases a,
{
    if a.len() == 0 {
        b.len() == 0
    } else {
        b.len() > 0 && same_types(a.drop_last(), b.drop_last()) && same_type(a.last(), b.last())
    }
}

/// Whether two inline structures are the same throughout.
pub open spec fn same_literal(a: StructureLiteral, b: StructureLiteral) -> bool
    decreases a,
{
    &&& same_properties(a.properties@, b.properties@)
    &&& opt_text(a.documentation) == opt_text(b.documentation)
    &&& opt_text(a.since) == opt_text(b.since)
    &&& same_opt_texts(a.since_tags, b.since_tags)
    &&& a.proposed == b.proposed
    &&& opt_text(a.deprecated) == opt_text(b.deprecated)
}

/// Whether two lists of properties are as long and the same at every place.
pub open spec fn same_properties(a: Seq<Property>, b: Seq<Property>) -> bool
    decreases a,
{
    if a.len() == 0 {
        b.len() == 0
    } else {
        b.len() > 0 && same_properties(a.drop_last(), b.drop_last()) && same_property(
            a.last(),
            b.last(),
        )
    }
}

/// Whether two properties are the same throughout.
pub open spec fn same_property(a: Property, b: Property) -> bool
    decreases a,
{
    &&& a.name@ == b.name@
    &&& same_type(a.type_, b.type_)
    &&& opt_text(a.documentation) == opt_text(b.documentation)
    &&& a.optional == b.optional
    &&& opt_text(a.since) == opt_text(b.since)
    &&& same_opt_texts(a.since_tags, b.since_tags)
    &&& a.proposed == b.proposed
    &&& opt_text(a.deprecated) == opt_text(b.deprecated)
}

/// Whether two structures are the same throughout.
pub open spec fn same_structure(a: Structure, b: Structure) -> bool {
    &&& a.name@ == b.name@
    &&& same_properties(a.properties@, b.properties@)
    &&& same_types(a.extends@, b.extends@)
    &&& same_types(a.mixins@, b.mixins@)
    &&& opt_text(a.documentation) == opt_text(b.documentation)
    &&& opt_text(a.since) == opt_text(b.since)
    &&& same_opt_texts(a.since_tags, b.since_tags)
    &&& a.proposed == b.proposed
    &&& opt_text(a.deprecated) == opt_text(b.deprecated)
}

/// The index that the encoding of a type begins with.
pub open spec fn type_tag(t: Type) -> u64 {
    match t {
        Type::Base { .. } => 0,
        Type::Reference { .. } => 1,
        Type::Array { .. } => 2,
        Type::Mapping { .. } => 3,
        Type::Or { .. } => 4,
        Type::Tuple { .. } => 5,
        Type::Literal { .. } => 6,
        Type::StringLiteral { .. } => 7,
        Type::IntegerLiteral { .. } => 8,
        Type::BooleanLiteral { .. } => 9,
    }
}

/// What follows the index in the encoding of a type.
pub open spec fn type_body(t: Type) -> Seq<u8> {
    match t {
        Type::Base { name } => word(base_index(name)),
        Type::Reference { name } => enc_text(name@),
        Type::Array { element } => enc_type(*element),
        Type::Mapping { key, value } => enc_type(*key) + enc_type(*value),
        Type::Or { items } => word(items@.len() as u64) + enc_type_run(items@),
        Type::Tuple { items } => word(items@.len() as u64) + enc_type_run(items@),
        Type::Literal { value } => enc_literal(value),
        Type::StringLiteral { value } => enc_text(value@),
        Type::IntegerLiteral { value } => word(#[verifier::truncate] (value as u64)),
        Type::BooleanLiteral { value } => enc_bool(value),
    }
}

/// What follows the first `k` parts in the encoding of a property that
/// `rest` follows.
pub open spec fn property_tail(p: Property, rest: Seq<u8>, k: int) -> Seq<u8>
    decreases 8 - k,
{
    if k >= 8 {
        rest
    } else if k == 7 {
        enc_opt_text(p.deprecated) + property_tail(p, rest, 8)
    } else if k == 6 {
        enc_opt_bool(p.proposed) + property_tail(p, rest, 7)
    } else if k == 5 {
        enc_opt_texts(p.since_tags) + property_tail(p, rest, 6)
    } else if k == 4 {
        enc_opt_text(p.since) + property_tail(p, rest, 5)
    } else if k == 3 {
        enc_opt_bool(p.optional) + property_tail(p, rest, 4)
    } else if k == 2 {
        enc_opt_text(p.documentation) + property_tail(p, rest, 3)
    } else if k == 1 {
        enc_type(p.type_) + property_tail(p, rest, 2)
    } else {
        enc_text(p.name@) + property_tail(p, rest, 1)
    }
}

/// The encoding of a property is its parts one after another.
proof fn lemma_property_parts(p: Property, rest: Seq<u8>)
    ensures
        enc_property(p) + rest == enc_text(p.name@) + property_tail(p, rest, 1),
        property_tail(p, rest, 1) == enc_type(p.type_) + property_tail(p, rest, 2),
        property_tail(p, rest, 2) == enc_opt_text(p.documentation) + property_tail(p, rest, 3),
        property_tail(p, rest, 3) == enc_opt_bool(p.optional) + property_tail(p, rest, 4),
        property_tail(p, rest, 4) == enc_opt_text(p.since) + property_tail(p, rest, 5),
        property_tail(p, rest, 5) == enc_opt_texts(p.since_tags) + property_tail(p, rest, 6),
        property_tail(p, rest, 6) == enc_opt_bool(p.proposed) + property_tail(p, rest, 7),
        property_tail(p, rest, 7) == enc_opt_text(p.deprecated) + rest,
{
    let t0 = enc_text(p.name@);
    let t1 = enc_type(p.type_);
    let t2 = enc_opt_text(p.documentation);
    let t3 = enc_opt_bool(p.optional);
    let t4 = enc_opt_text(p.since);
    let t5 = enc_opt_texts(p.since_tags);
    let t6 = enc_opt_bool(p.proposed);
    let t7 = enc_opt_text(p.deprecated);
    assert(property_tail(p, rest, 8) == rest);
    assert(property_tail(p, rest, 7) == t7 + rest);
    assert(property_tail(p, rest, 6) == t6 + property_tail(p, rest, 7));
    assert(property_tail(p, rest, 5) == t5 + property_tail(p, rest, 6));
    assert(property_tail(p, rest, 4) == t4 + property_tail(p, rest, 5));
    assert(property_tail(p, rest, 3) == t3 + property_tail(p, rest, 4));
    assert(property_tail(p, rest, 2) == t2 + property_tail(p, rest, 3));
    assert(property_tail(p, rest, 1) == t1 + property_tail(p, rest, 2));
    lemma_cat(t0 + t1 + t2 + t3 + t4 + t5 + t6, t7, rest);
    lemma_cat(t0 + t1 + t2 + t3 + t4 + t5, t6, property_tail(p, rest, 7));
    lemma_cat(t0 + t1 + t2 + t3 + t4, t5, property_tail(p, rest, 6));
    lemma_cat(t0 + t1 + t2 + t3, t4, property_tail(p, rest, 5));
    lemma_cat(t0 + t1 + t2, t3, property_tail(p, rest, 4));
    lemma_cat(t0 + t1, t2, property_tail(p, rest, 3));
    lemma_cat(t0, t1, property_tail(p, rest, 2));
}

/// What follows the first `k` parts, after the count of the properties,
/// in the encoding of an inline structure that `rest` follows.
pub open spec fn literal_tail(l: StructureLiteral, rest: Seq<u8>, k: int) -> Seq<u8>
    decreases 6 - k,
{
    if k >= 6 {
        rest
    } else if k == 5 {
        enc_opt_text(l.deprecated) + literal_tail(l, rest, 6)
    } else if k == 4 {
        enc_bool(l.proposed) + literal_tail(l, rest, 5)
    } else if k == 3 {
        enc_opt_texts(l.since_tags) + literal_tail(l, rest, 4)
    } else if k == 2 {
        enc_opt_text(l.since) + literal_tail(l, rest, 3)
    } else if k == 1 {
        enc_opt_text(l.documentation) + literal_tail(l, rest, 2)
    } else {
        enc_property_run(l.properties@) + literal_tail(l, rest, 1)
    }
}

/// The encoding of an inline structure is its parts one after another.
proof fn lemma_literal_parts(l: StructureLiteral, rest: Seq<u8>)
    ensures
        enc_literal(l) + rest == word(l.properties@.len() as u64) + literal_tail(l, rest, 0),
        literal_tail(l, rest, 0) == enc_property_run(l.properties@) + literal_tail(l, rest, 1),
        literal_tail(l, rest, 1) == enc_opt_text(l.documentation) + literal_tail(l, rest, 2),
        literal_tail(l, rest, 2) == enc_opt_text(l.since) + literal_tail(l, rest, 3),
        literal_tail(l, rest, 3) == enc_opt_texts(l.since_tags) + literal_tail(l, rest, 4),
        literal_tail(l, rest, 4) == enc_bool(l.proposed) + literal_tail(l, rest, 5),
        literal_tail(l, rest, 5) == enc_opt_text(l.deprecated) + rest,
{
    let w = word(l.properties@.len() as u64);
    let t0 = enc_property_run(l.properties@);
    let t1 = enc_opt_text(l.documentation);
    let t2 = enc_opt_text(l.since);
    let t3 = enc_opt_texts(l.since_tags);
    let t4 = enc_bool(l.proposed);
    let t5 = enc_opt_text(l.deprecated);
    assert(literal_tail(l, rest, 6) == rest);
    assert(literal_tail(l, rest, 5) == t5 + rest);
    assert(literal_tail(l, rest, 4) == t4 + literal_tail(l, rest, 5));
    assert(literal_tail(l, rest, 3) == t3 + literal_tail(l, rest, 4));
    assert(literal_tail(l, rest, 2) == t2 + literal_tail(l, rest, 3));
    assert(literal_tail(l, rest, 1) == t1 + literal_tail(l, rest, 2));
    assert(literal_tail(l, rest, 0) == t0 + literal_tail(l, rest, 1));
    lemma_cat(w + t0 + t1 + t2 + t3 + t4, t5, rest);
    lemma_cat(w + t0 + t1 + t2 + t3, t4, literal_tail(l, rest, 5));
    lemma_cat(w + t0 + t1 + t2, t3, literal_tail(l, rest, 4));
    lemma_cat(w + t0 + t1, t2, literal_tail(l, rest, 3));
    lemma_cat(w + t0, t1, literal_tail(l, rest, 2));
    lemma_cat(w, t0, literal_tail(l, rest, 1));
}

/// What follows the name and the first `k` parts in the encoding of a
/// structure.
pub open spec fn structure_tail(s: Structure, k: int) -> Seq<u8>
    decreases 9 - k,
{
    if k >= 9 {
        Seq::empty()
    } else if k == 8 {
        enc_opt_text(s.deprecated) + structure_tail(s, 9)
    } else if k == 7 {
        enc_opt_bool(s.proposed) + structure_tail(s, 8)
    } else if k == 6 {
        enc_opt_texts(s.since_tags) + structure_tail(s, 7)
    } else if k == 5 {
        enc_opt_text(s.since) + structure_tail(s, 6)
    } else if k == 4 {
        enc_opt_text(s.documentation) + structure_tail(s, 5)
    } else if k == 3 {
        word(s.mixins@.len() as u64) + enc_type_run(s.mixins@) + structure_tail(s, 4)
    } else if k == 2 {
        word(s.extends@.len() as u64) + enc_type_run(s.extends@) + structure_tail(s, 3)
    } else if k == 1 {
        enc_property_run(s.properties@) + structure_tail(s, 2)
    } else {
        word(s.properties@.len() as u64) + structure_tail(s, 1)
    }
}

/// The encoding of a structure is its parts one after another.
proof fn lemma_structure_parts(s: Structure)
    ensures
        structure_bytes(s) == enc_text(s.name@) + structure_tail(s, 0),
        structure_tail(s, 0) == word(s.properties@.len() as u64) + structure_tail(s, 1),
        structure_tail(s, 1) == enc_property_run(s.properties@) + structure_tail(s, 2),
        structure_tail(s, 2) == word(s.extends@.len() as u64) + enc_type_run(s.extends@)
            + structure_tail(s, 3),
        structure_tail(s, 3) == word(s.mixins@.len() as u64) + enc_type_run(s.mixins@)
            + structure_tail(s, 4),
        structure_tail(s, 4) == enc_opt_text(s.documentation) + structure_tail(s, 5),
        structure_tail(s, 5) == enc_opt_text(s.since) + structure_tail(s, 6),
        structure_tail(s, 6) == enc_opt_texts(s.since_tags) + structure_tail(s, 7),
        structure_tail(s, 7) == enc_opt_bool(s.proposed) + structure_tail(s, 8),
        structure_tail(s, 8) == enc_opt_text(s.deprecated) + Seq::<u8>::empty(),
{
    let n = enc_text(s.name@);
    let w = word(s.properties@.len() as u64);
    let p = enc_property_run(s.properties@);
    let we = word(s.extends@.len() as u64);
    let e = enc_type_run(s.extends@);
    let wm = word(s.mixins@.len() as u64);
    let m = enc_type_run(s.mixins@);
    let t4 = enc_opt_text(s.documentation);
    let t5 = enc_opt_text(s.since);
    let t6 = enc_opt_texts(s.since_tags);
    let t7 = enc_opt_bool(s.proposed);
    let t8 = enc_opt_text(s.deprecated);
    assert(structure_tail(s, 9) == Seq::<u8>::empty());
    assert(structure_tail(s, 8) == t8 + Seq::<u8>::empty());
    assert(structure_tail(s, 7) == t7 + structure_tail(s, 8));
    assert(structure_tail(s, 6) == t6 + structure_tail(s, 7));
    assert(structure_tail(s, 5) == t5 + structure_tail(s, 6));
    assert(structure_tail(s, 4) == t4 + structure_tail(s, 5));
    assert(structure_tail(s, 3) == wm + m + structure_tail(s, 4));
    assert(structure_tail(s, 2) == we + e + structure_tail(s, 3));
    assert(structure_tail(s, 1) == p + structure_tail(s, 2));
    assert(structure_tail(s, 0) == w + structure_tail(s, 1));
    let x8 = n + w + p + we + e + wm + m + t4 + t5 + t6 + t7;
    assert(structure_bytes(s) == x8 + t8);
    assert(x8 + t8 =~= x8 + structure_tail(s, 8));
    lemma_cat(n + w + p + we + e + wm + m + t4 + t5 + t6, t7, structure_tail(s, 8));
    lemma_cat(n + w + p + we + e + wm + m + t4 + t5, t6, structure_tail(s, 7));
    lemma_cat(n + w + p + we + e + wm + m + t4, t5, structure_tail(s, 6));
    lemma_cat(n + w + p + we + e + wm + m, t4, structure_tail(s, 5));
    lemma_cat(n + w + p + we + e + wm, m, structure_tail(s, 4));
    lemma_cat(n + w + p + we + e, wm, m + structure_tail(s, 4));
    lemma_cat(wm, m, structure_tail(s, 4));
    lemma_cat(n + w + p + we, e, structure_tail(s, 3));
    lemma_cat(n + w + p, we, e + structure_tail(s, 3));
    lemma_cat(we, e, structure_tail(s, 3));
    lemma_cat(n + w + p, we + e, structure_tail(s, 3));
    lemma_cat(n + w, p, structure_tail(s, 2));
    lemma_cat(n, w, structure_tail(s, 1));
}

/// The encoding of a type is its index and then its body.
proof fn lemma_type_parts(t: Type, rest: Seq<u8>)
    ensures
        enc_type(t) + rest == word(type_tag(t)) + (type_body(t) + rest),
{
    assert(enc_type(t) + rest =~= word(type_tag(t)) + (type_body(t) + rest));
}

/// Two byte strings that begin with counted lists of types are the same
/// only if the lists are the same and what follows is the same.
proof fn lemma_types_first(a: Vec<Type>, rest_a: Seq<u8>, b: Vec<Type>, rest_b: Seq<u8>)
    requires
        word(a@.len() as u64) + enc_type_run(a@) + rest_a == word(b@.len() as u64) + enc_type_run(
            b@,
        ) + rest_b,
    ensures
        same_types(a@, b@),
        rest_a == rest_b,
    decreases a, 1int,
{
    assert(word(a@.len() as u64) + enc_type_run(a@) + rest_a =~= word(a@.len() as u64) + (
    enc_type_run(a@) + rest_a));
    assert(word(b@.len() as u64) + enc_type_run(b@) + rest_b =~= word(b@.len() as u64) + (
    enc_type_run(b@) + rest_b));
    lemma_word_first(
        a@.len() as u64,
        enc_type_run(a@) + rest_a,
        b@.len() as u64,
        enc_type_run(b@) + rest_b,
    );
    assert(a@.len() == a.len());
    assert(b@.len() == b.len());
    lemma_type_run_first(a@, rest_a, b@, rest_b);
}

/// Two byte strings that begin with encoded types are the same only if
/// the types are the same and what follows is the same.
pub proof fn lemma_type_first(a: Type, rest_a: Seq<u8>, b: Type, rest_b: Seq<u8>)
    requires
        enc_type(a) + rest_a == enc_type(b) + rest_b,
    ensures
        same_type(a, b),
        rest_a == rest_b,
    decreases a, 0int,
{
    lemma_type_parts(a, rest_a);
    lemma_type_parts(b, rest_b);
    lemma_word_first(type_tag(a), type_body(a) + rest_a, type_tag(b), type_body(b) + rest_b);
    match a {
        Type::Base { name } => {
            let other = b->Base_name;
            lemma_word_first(base_index(name), rest_a, base_index(other), rest_b);
        },
        Type::Reference { name } => {
            lemma_text_first(name@, rest_a, b->Reference_name@, rest_b);
        },
        Type::Array { element } => {
            lemma_type_first(*element, rest_a, *b->Array_element, rest_b);
        },
        Type::Mapping { key, value } => {
            let other_key = *b->Mapping_key;
            let other = *b->Mapping_value;
            assert(type_body(a) + rest_a =~= enc_type(*key) + (enc_type(*value) + rest_a));
            assert(type_body(b) + rest_b =~= enc_type(other_key) + (enc_type(other) + rest_b));
            lemma_type_first(*key, enc_type(*value) + rest_a, other_key, enc_type(other) + rest_b);
            lemma_type_first(*value, rest_a, other, rest_b);
        },
        Type::Or { items } => {
            lemma_types_first(items, rest_a, b->Or_items, rest_b);
        },
        Type::Tuple { items } => {
            lemma_types_first(items, rest_a, b->Tuple_items, rest_b);
        },
        Type::Literal { value } => {
            lemma_literal_first(value, rest_a, b->Literal_value, rest_b);
        },
        Type::StringLiteral { value } => {
            lemma_text_first(value@, rest_a, b->StringLiteral_value@, rest_b);
        },
        Type::IntegerLiteral { value } => {
            let other = b->IntegerLiteral_value;
            let x = #[verifier::truncate] (value as u64);
            let y = #[verifier::truncate] (other as u64);
            lemma_word_first(x, rest_a, y, rest_b);
            assert(value as u64 == other as u64 ==> value == other) by (bit_vector);
        },
        Type::BooleanLiteral { value } => {
            lemma_bool_first(value, rest_a, b->BooleanLiteral_value, rest_b);
        },
    }
}

/// Two byte strings that begin with as many encoded types are the same
/// only if the types are the same and what follows is the same.
pub proof fn lemma_type_run_first(a: Seq<Type>, rest_a: Seq<u8>, b: Seq<Type>, rest_b: Seq<u8>)
    requires
        a.len() == b.len(),
        enc_type_run(a) + rest_a == enc_type_run(b) + rest_b,
    ensures
        same_types(a, b),
        rest_a == rest_b,
    decreases a, 0int,
{
    if a.len() == 0 {
        assert(enc_type_run(a) + rest_a =~= rest_a);
        assert(enc_type_run(b) + rest_b =~= rest_b);
    } else {
        let last_a = enc_type(a.last());
        let last_b = enc_type(b.last());
        assert(enc_type_run(a) + rest_a =~= enc_type_run(a.drop_last()) + (last_a + rest_a));
        assert(enc_type_run(b) + rest_b =~= enc_type_run(b.drop_last()) + (last_b + rest_b));
        lemma_type_run_first(a.drop_last(), last_a + rest_a, b.drop_last(), last_b + rest_b);
        lemma_type_first(a.last(), rest_a, b.last(), rest_b);
    }
}

/// Two byte strings that begin with encoded inline structures are the
/// same only if the structures are the same and what follows is the same.
pub proof fn lemma_literal_first(
    a: StructureLiteral,
    rest_a: Seq<u8>,
    b: StructureLiteral,
    rest_b: Seq<u8>,
)
    requires
        enc_literal(a) + rest_a == enc_literal(b) + rest_b,
    ensures
        same_literal(a, b),
        rest_a == rest_b,
    decreases a, 0int,
{
    let a0 = literal_tail(a, rest_a, 0);
    let b0 = literal_tail(b, rest_b, 0);
    let a1 = literal_tail(a, rest_a, 1);
    let b1 = literal_tail(b, rest_b, 1);
    let a2 = literal_tail(a, rest_a, 2);
    let b2 = literal_tail(b, rest_b, 2);
    let a3 = literal_tail(a, rest_a, 3);
    let b3 = literal_tail(b, rest_b, 3);
    let a4 = literal_tail(a, rest_a, 4);
    let b4 = literal_tail(b, rest_b, 4);
    let a5 = literal_tail(a, rest_a, 5);
    let b5 = literal_tail(b, rest_b, 5);
    lemma_literal_parts(a, rest_a);
    lemma_literal_parts(b, rest_b);
    lemma_word_first(a.properties@.len() as u64, a0, b.properties@.len() as u64, b0);
    assert(a.properties@.len() == a.properties.len());
    assert(b.properties@.len() == b.properties.len());
    lemma_property_run_first(a.properties@, a1, b.properties@, b1);
    lemma_opt_text_first(a.documentation, a2, b.documentation, b2);
    lemma_opt_text_first(a.since, a3, b.since, b3);
    lemma_opt_texts_first(a.since_tags, a4, b.since_tags, b4);
    lemma_bool_first(a.proposed, a5, b.proposed, b5);
    lemma_opt_text_first(a.deprecated, rest_a, b.deprecated, rest_b);
}

/// Two byte strings that begin with as many encoded properties are the
/// same only if the properties are the same and what follows is the same.
pub proof fn lemma_property_run_first(
    a: Seq<Property>,
    rest_a: Seq<u8>,
    b: Seq<Property>,
    rest_b: Seq<u8>,
)
    requires
        a.len() == b.len(),
        enc_property_run(a) + rest_a == enc_property_run(b) + rest_b,
    ensures
        same_properties(a, b),
        rest_a == rest_b,
    decreases a, 0int,
{
    if a.len() == 0 {
        assert(enc_property_run(a) + rest_a =~= rest_a);
        assert(enc_property_run(b) + rest_b =~= rest_b);
    } else {
        let last_a = enc_property(a.last());
        let last_b = enc_property(b.last());
        assert(enc_property_run(a) + rest_a =~= enc_property_run(a.drop_last()) + (last_a
            + rest_a));
        assert(enc_property_run(b) + rest_b =~= enc_property_run(b.drop_last()) + (last_b
            + rest_b));
        lemma_property_run_first(a.drop_last(), last_a + rest_a, b.drop_last(), last_b + rest_b);
        lemma_property_first(a.last(), rest_a, b.last(), rest_b);
    }
}

/// Two byte strings that begin with encoded properties are the same only
/// if the properties are the same and what follows is the same.
pub proof fn lemma_property_first(a: Property, rest_a: Seq<u8>, b: Property, rest_b: Seq<u8>)
    requires
        enc_property(a) + rest_a == enc_property(b) + rest_b,
    ensures
        same_property(a, b),
        rest_a == rest_b,
    decreases a, 0int,
{
    let a1 = property_tail(a, rest_a, 1);
    let b1 = property_tail(b, rest_b, 1);
    let a2 = property_tail(a, rest_a, 2);
    let b2 = property_tail(b, rest_b, 2);
    let a3 = property_tail(a, rest_a, 3);
    let b3 = property_tail(b, rest_b, 3);
    let a4 = property_tail(a, rest_a, 4);
    let b4 = property_tail(b, rest_b, 4);
    let a5 = property_tail(a, rest_a, 5);
    let b5 = property_tail(b, rest_b, 5);
    let a6 = property_tail(a, rest_a, 6);
    let b6 = property_tail(b, rest_b, 6);
    let a7 = property_tail(a, rest_a, 7);
    let b7 = property_tail(b, rest_b, 7);
    lemma_property_parts(a, rest_a);
    lemma_property_parts(b, rest_b);
    lemma_text_first(a.name@, a1, b.name@, b1);
    lemma_type_first(a.type_, a2, b.type_, b2);
    lemma_opt_text_first(a.documentation, a3, b.documentation, b3);
    lemma_opt_bool_first(a.optional, a4, b.optional, b4);
    lemma_opt_text_first(a.since, a5, b.since, b5);
    lemma_opt_texts_first(a.since_tags, a6, b.since_tags, b6);
    lemma_opt_bool_first(a.proposed, a7, b.proposed, b7);
    lemma_opt_text_first(a.deprecated, rest_a, b.deprecated, rest_b);
}

/// Two structures with the same canonical bytes are the same throughout.
pub proof fn lemma_structure_bytes_tell_apart(a: Structure, b: Structure)
    requires
        structure_bytes(a) == structure_bytes(b),
    ensures
        same_structure(a, b),
{
    let none = Seq::<u8>::empty();
    let a0 = structure_tail(a, 0);
    let b0 = structure_tail(b, 0);
    let a1 = structure_tail(a, 1);
    let b1 = structure_tail(b, 1);
    let a2 = structure_tail(a, 2);
    let b2 = structure_tail(b, 2);
    let a3 = structure_tail(a, 3);
    let b3 = structure_tail(b, 3);
    let a4 = structure_tail(a, 4);
    let b4 = structure_tail(b, 4);
    let a5 = structure_tail(a, 5);
    let b5 = structure_tail(b, 5);
    let a6 = structure_tail(a, 6);
    let b6 = structure_tail(b, 6);
    let a7 = structure_tail(a, 7);
    let b7 = structure_tail(b, 7);
    let a8 = structure_tail(a, 8);
    let b8 = structure_tail(b, 8);
    lemma_structure_parts(a);
    lemma_structure_parts(b);
    lemma_text_first(a.name@, a0, b.name@, b0);
    lemma_word_first(a.properties@.len() as u64, a1, b.properties@.len() as u64, b1);
    assert(a.properties@.len() == a.properties.len());
    assert(b.properties@.len() == b.properties.len());
    lemma_property_run_first(a.properties@, a2, b.properties@, b2);
    lemma_types_first(a.extends, a3, b.extends, b3);
    lemma_types_first(a.mixins, a4, b.mixins, b4);
    lemma_opt_text_first(a.documentation, a5, b.documentation, b5);
    lemma_opt_text_first(a.since, a6, b.since, b6);
    lemma_opt_texts_first(a.since_tags, a7, b.since_tags, b7);
    lemma_opt_bool_first(a.proposed, a8, b.proposed, b8);
    lemma_opt_text_first(a.deprecated, none, b.deprecated, none);
}

} // verus!
