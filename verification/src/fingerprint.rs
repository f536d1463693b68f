//! Content fingerprints of schema entities: a canonical byte encoding of
//! the whole entity, hashed with 32-bit xxHash and written as eight
//! lower-case hexadecimal digits.
//!
//! The encoding writes the fields in declaration order. A text is its
//! UTF-8 bytes followed by `0xff`; a list is its length and then its
//! elements; a choice is the index of its variant and then the variant's
//! fields; a flag is one byte. Lengths, indices and integers are eight
//! bytes, least significant first.

use vstd::prelude::*;
use vstd::bytes::{spec_u64_to_le_bytes, u64_to_le_bytes};
use vstd::string::*;
use vstd::utf8::encode_utf8;
use crate::schema::{
    BaseType, EntryValue, Enumeration, EnumerationEntry, EnumerationType, EnumerationTypeKind,
    Property, Structure, StructureLiteral, Type,
};

verus! {

/// The 32-bit xxHash, with seed 0, of a byte string.
pub uninterp spec fn xx_hash32(bytes: Seq<u8>) -> u32;

/// Calls `fasthash::xx::hash32`, which hashes the bytes with `XXH32` and
/// seed 0. The result depends on the bytes alone and is the same on every
/// platform.
#[verifier::external_body]
fn xx32(bytes: &[u8]) -> (h: u32)
    ensures
        h == xx_hash32(bytes@),
{
    fasthash::xx::hash32(bytes)
}

/// The digit for a value below sixteen.
pub open spec fn hex_digit(n: u8) -> char {
    if n == 0 {
        '0'
    } else if n == 1 {
        '1'
    } else if n == 2 {
        '2'
    } else if n == 3 {
        '3'
    } else if n == 4 {
        '4'
    } else if n == 5 {
        '5'
    } else if n == 6 {
        '6'
    } else if n == 7 {
        '7'
    } else if n == 8 {
        '8'
    } else if n == 9 {
        '9'
    } else if n == 10 {
        'a'
    } else if n == 11 {
        'b'
    } else if n == 12 {
        'c'
    } else if n == 13 {
        'd'
    } else if n == 14 {
        'e'
    } else {
        'f'
    }
}

/// The `i`-th group of four bits of `h`, counted from the most significant.
pub open spec fn nibble(h: u32, i: int) -> u8 {
    ((h >> ((28 - 4 * i) as u32)) & 0xf) as u8
}

/// `h` as eight lower-case hexadecimal digits, padded with zeros.
pub open spec fn hex8_text(h: u32) -> Seq<char> {
    Seq::new(8, |i: int| hex_digit(nibble(h, i)))
}

fn digit_str(n: u8) -> (s: &'static str)
    requires
        n < 16,
    ensures
        s@ == seq![hex_digit(n)],
{
    proof {
        reveal_strlit("0");
        reveal_strlit("1");
        reveal_strlit("2");
        reveal_strlit("3");
        reveal_strlit("4");
        reveal_strlit("5");
        reveal_strlit("6");
        reveal_strlit("7");
        reveal_strlit("8");
        reveal_strlit("9");
        reveal_strlit("a");
        reveal_strlit("b");
        reveal_strlit("c");
        reveal_strlit("d");
        reveal_strlit("e");
        reveal_strlit("f");
    }
    let s = if n == 0 {
        "0"
    } else if n == 1 {
        "1"
    } else if n == 2 {
        "2"
    } else if n == 3 {
        "3"
    } else if n == 4 {
        "4"
    } else if n == 5 {
        "5"
    } else if n == 6 {
        "6"
    } else if n == 7 {
        "7"
    } else if n == 8 {
        "8"
    } else if n == 9 {
        "9"
    } else if n == 10 {
        "a"
    } else if n == 11 {
        "b"
    } else if n == 12 {
        "c"
    } else if n == 13 {
        "d"
    } else if n == 14 {
        "e"
    } else {
        "f"
    };
    assert(s@ =~= seq![hex_digit(n)]);
    s
}

/// Writes a hash as eight lower-case hexadecimal digits.
pub fn hex8(h: u32) -> (s: String)
    ensures
        s@ == hex8_text(h),
{
    let mut s = String::new();
    let mut i: u32 = 0;
    while i < 8
        invariant
            i <= 8,
            s@.len() == i,
            forall|j: int| 0 <= j < i ==> s@[j] == hex_digit(nibble(h, j)),
        decreases 8 - i,
    {
        let shift: u32 = 28 - 4 * i;
        let n: u32 = (h >> shift) & 0xf;
        assert(n < 16) by (bit_vector)
            requires
                n == (h >> shift) & 0xf,
        ;
        s.append(digit_str(n as u8));
        i = i + 1;
    }
    assert(s@ =~= hex8_text(h));
    s
}

/// Different hashes are written differently.
pub proof fn lemma_hex8_injective(a: u32, b: u32)
    requires
        hex8_text(a) == hex8_text(b),
    ensures
        a == b,
{
    assert forall|i: int| 0 <= i < 8 implies nibble(a, i) == nibble(b, i) by {
        let x = nibble(a, i);
        let y = nibble(b, i);
        let shift = (28 - 4 * i) as u32;
        assert((a >> shift) & 0xf < 16) by (bit_vector);
        assert((b >> shift) & 0xf < 16) by (bit_vector);
        assert(hex8_text(a)[i] == hex_digit(x));
        assert(hex8_text(b)[i] == hex_digit(y));
    }
    assert(nibble(a, 0) == nibble(b, 0));
    assert(nibble(a, 1) == nibble(b, 1));
    assert(nibble(a, 2) == nibble(b, 2));
    assert(nibble(a, 3) == nibble(b, 3));
    assert(nibble(a, 4) == nibble(b, 4));
    assert(nibble(a, 5) == nibble(b, 5));
    assert(nibble(a, 6) == nibble(b, 6));
    assert(nibble(a, 7) == nibble(b, 7));
    assert(a == b) by (bit_vector)
        requires
            ((a >> 28u32) & 0xf) as u8 == ((b >> 28u32) & 0xf) as u8,
            ((a >> 24u32) & 0xf) as u8 == ((b >> 24u32) & 0xf) as u8,
            ((a >> 20u32) & 0xf) as u8 == ((b >> 20u32) & 0xf) as u8,
            ((a >> 16u32) & 0xf) as u8 == ((b >> 16u32) & 0xf) as u8,
            ((a >> 12u32) & 0xf) as u8 == ((b >> 12u32) & 0xf) as u8,
            ((a >> 8u32) & 0xf) as u8 == ((b >> 8u32) & 0xf) as u8,
            ((a >> 4u32) & 0xf) as u8 == ((b >> 4u32) & 0xf) as u8,
            ((a >> 0u32) & 0xf) as u8 == ((b >> 0u32) & 0xf) as u8,
    ;
}

/// Two structures have the same fingerprint exactly if their canonical
/// bytes have the same hash.
pub proof fn lemma_fingerprint_is_hash(a: Structure, b: Structure)
    ensures
        structure_fingerprint(a) == structure_fingerprint(b) <==> xx_hash32(structure_bytes(a))
            == xx_hash32(structure_bytes(b)),
{
    if structure_fingerprint(a) == structure_fingerprint(b) {
        lemma_hex8_injective(xx_hash32(structure_bytes(a)), xx_hash32(structure_bytes(b)));
    }
}

/// Eight bytes for a length, an index or an integer.
pub open spec fn word(n: u64) -> Seq<u8> {
    spec_u64_to_le_bytes(n)
}

/// A text: its UTF-8 bytes and the byte `0xff`.
pub open spec fn enc_text(s: Seq<char>) -> Seq<u8> {
    encode_utf8(s) + seq![0xffu8]
}

/// A flag: one byte.
pub open spec fn enc_bool(b: bool) -> Seq<u8> {
    seq![if b { 1u8 } else { 0u8 }]
}

pub open spec fn enc_opt_text(o: Option<String>) -> Seq<u8> {
    match o {
        None => word(0),
        Some(s) => word(1) + enc_text(s@),
    }
}

pub open spec fn enc_opt_bool(o: Option<bool>) -> Seq<u8> {
    match o {
        None => word(0),
        Some(b) => word(1) + enc_bool(b),
    }
}

/// The texts of a list one after another.
pub open spec fn enc_text_run(v: Seq<String>) -> Seq<u8>
    decreases v.len(),
{
    if v.len() == 0 {
        Seq::empty()
    } else {
        enc_text_run(v.drop_last()) + enc_text(v.last()@)
    }
}

pub open spec fn enc_opt_texts(o: Option<Vec<String>>) -> Seq<u8> {
    match o {
        None => word(0),
        Some(v) => word(1) + word(v@.len() as u64) + enc_text_run(v@),
    }
}

/// The index of a primitive among the primitives.
pub open spec fn base_index(name: BaseType) -> u64 {
    match name {
        BaseType::Uri => 0,
        BaseType::DocumentUri => 1,
        BaseType::Integer => 2,
        BaseType::Uinteger => 3,
        BaseType::Decimal => 4,
        BaseType::RegExp => 5,
        BaseType::String => 6,
        BaseType::Boolean => 7,
        BaseType::Null => 8,
    }
}

pub open spec fn enc_type(t: Type) -> Seq<u8>
    decreases t,
{
    match t {
        Type::Base { name } => word(0) + word(base_index(name)),
        Type::Reference { name } => word(1) + enc_text(name@),
        Type::Array { element } => word(2) + enc_type(*element),
        Type::Mapping { key, value } => word(3) + enc_type(*key) + enc_type(*value),
        Type::Or { items } => word(4) + word(items@.len() as u64) + enc_type_run(items@),
        Type::Tuple { items } => word(5) + word(items@.len() as u64) + enc_type_run(items@),
        Type::Literal { value } => word(6) + enc_literal(value),
        Type::StringLiteral { value } => word(7) + enc_text(value@),
        Type::IntegerLiteral { value } => word(8) + word(#[verifier::truncate] (value as u64)),
        Type::BooleanLiteral { value } => word(9) + enc_bool(value),
    }
}

pub open spec fn enc_type_run(items: Seq<Type>) -> Seq<u8>
    decreases items,
{
    if items.len() == 0 {
        Seq::empty()
    } else {
        enc_type_run(items.drop_last()) + enc_type(items.last())
    }
}

pub open spec fn enc_literal(l: StructureLiteral) -> Seq<u8>
    decreases l,
{
    word(l.properties@.len() as u64) + enc_property_run(l.properties@) + enc_opt_text(
        l.documentation,
    ) + enc_opt_text(l.since) + enc_opt_texts(l.since_tags) + enc_bool(l.proposed)
        + enc_opt_text(l.deprecated)
}

pub open spec fn enc_property_run(ps: Seq<Property>) -> Seq<u8>
    decreases ps,
{
    if ps.len() == 0 {
        Seq::empty()
    } else {
        enc_property_run(ps.drop_last()) + enc_property(ps.last())
    }
}

pub open spec fn enc_property(p: Property) -> Seq<u8>
    decreases p,
{
    enc_text(p.name@) + enc_type(p.type_) + enc_opt_text(p.documentation) + enc_opt_bool(
        p.optional,
    ) + enc_opt_text(p.since) + enc_opt_texts(p.since_tags) + enc_opt_bool(p.proposed)
        + enc_opt_text(p.deprecated)
}

/// The canonical bytes of a structure.
pub open spec fn structure_bytes(s: Structure) -> Seq<u8> {
    enc_text(s.name@) + word(s.properties@.len() as u64) + enc_property_run(s.properties@)
        + word(s.extends@.len() as u64) + enc_type_run(s.extends@) + word(
        s.mixins@.len() as u64,
    ) + enc_type_run(s.mixins@) + enc_opt_text(s.documentation) + enc_opt_text(s.since)
        + enc_opt_texts(s.since_tags) + enc_opt_bool(s.proposed) + enc_opt_text(s.deprecated)
}

pub open spec fn kind_index(t: EnumerationType) -> u64 {
    match t {
        EnumerationType::Base { name } => match name {
            EnumerationTypeKind::String => 0,
            EnumerationTypeKind::Integer => 1,
            EnumerationTypeKind::Uinteger => 2,
        },
    }
}

pub open spec fn enc_value(v: EntryValue) -> Seq<u8> {
    match v {
        EntryValue::Integer(i) => word(2) + word(#[verifier::truncate] (i as u64)),
        EntryValue::String(s) => word(3) + enc_text(s@),
    }
}

pub open spec fn enc_entry(e: EnumerationEntry) -> Seq<u8> {
    enc_text(e.name@) + enc_value(e.value) + enc_opt_text(e.documentation) + enc_opt_text(e.since)
        + enc_bool(e.proposed)
}

pub open spec fn enc_entry_run(es: Seq<EnumerationEntry>) -> Seq<u8>
    decreases es.len(),
{
    if es.len() == 0 {
        Seq::empty()
    } else {
        enc_entry_run(es.drop_last()) + enc_entry(es.last())
    }
}

/// The canonical bytes of an enumeration.
pub open spec fn enumeration_bytes(e: Enumeration) -> Seq<u8> {
    enc_text(e.name@) + word(kind_index(e.type_)) + word(e.values@.len() as u64) + enc_entry_run(
        e.values@,
    ) + enc_bool(e.supports_custom_values) + enc_opt_text(e.documentation) + enc_opt_text(
        e.since,
    ) + enc_bool(e.proposed) + enc_opt_text(e.deprecated)
}

/// The fingerprint of a structure.
pub open spec fn structure_fingerprint(s: Structure) -> Seq<char> {
    hex8_text(xx_hash32(structure_bytes(s)))
}

/// The fingerprint of an enumeration.
pub open spec fn enumeration_fingerprint(e: Enumeration) -> Seq<char> {
    hex8_text(xx_hash32(enumeration_bytes(e)))
}

fn put_bytes(out: &mut Vec<u8>, bytes: &[u8])
    ensures
        final(out)@ == old(out)@ + bytes@,
{
    let n = bytes.len();
    let mut i: usize = 0;
    while i < n
        invariant
            n == bytes@.len(),
            i <= n,
            out@ == old(out)@ + bytes@.take(i as int),
        decreases n - i,
    {
        out.push(bytes[i]);
        i = i + 1;
        assert(out@ =~= old(out)@ + bytes@.take(i as int));
    }
    assert(bytes@.take(n as int) == bytes@);
}

fn put_word(out: &mut Vec<u8>, n: u64)
    ensures
        final(out)@ == old(out)@ + word(n),
{
    let bytes = u64_to_le_bytes(n);
    put_bytes(out, bytes.as_slice());
}

fn put_len(out: &mut Vec<u8>, n: usize)
    ensures
        final(out)@ == old(out)@ + word(n as u64),
{
    put_word(out, n as u64);
}

fn put_text(out: &mut Vec<u8>, s: &str)
    ensures
        final(out)@ == old(out)@ + enc_text(s@),
{
    put_bytes(out, s.as_bytes());
    out.push(0xffu8);
    assert(out@ =~= old(out)@ + enc_text(s@));
}

fn put_bool(out: &mut Vec<u8>, b: bool)
    ensures
        final(out)@ == old(out)@ + enc_bool(b),
{
    out.push(if b { 1u8 } else { 0u8 });
    assert(out@ =~= old(out)@ + enc_bool(b));
}

fn put_opt_text(out: &mut Vec<u8>, o: &Option<String>)
    ensures
        final(out)@ == old(out)@ + enc_opt_text(*o),
{
    match o {
        None => {
            put_word(out, 0);
        },
        Some(s) => {
            put_word(out, 1);
            put_text(out, s.as_str());
            assert(out@ =~= old(out)@ + enc_opt_text(*o));
        },
    }
}

fn put_opt_bool(out: &mut Vec<u8>, o: &Option<bool>)
    ensures
        final(out)@ == old(out)@ + enc_opt_bool(*o),
{
    match o {
        None => {
            put_word(out, 0);
        },
        Some(b) => {
            put_word(out, 1);
            put_bool(out, *b);
            assert(out@ =~= old(out)@ + enc_opt_bool(*o));
        },
    }
}

fn put_opt_texts(out: &mut Vec<u8>, o: &Option<Vec<String>>)
    ensures
        final(out)@ == old(out)@ + enc_opt_texts(*o),
{
    match o {
        None => {
            put_word(out, 0);
        },
        Some(v) => {
            put_word(out, 1);
            put_len(out, v.len());
            let ghost start = out@;
            let n = v.len();
            let mut i: usize = 0;
            assert(v@.take(0) =~= Seq::<String>::empty());
            while i < n
                invariant
                    n == v@.len(),
                    i <= n,
                    out@ == start + enc_text_run(v@.take(i as int)),
                decreases n - i,
            {
                let ghost before = out@;
                put_text(out, v[i].as_str());
                i = i + 1;
                proof {
                    assert(v@.take(i as int).drop_last() == v@.take(i - 1));
                    assert(out@ =~= start + enc_text_run(v@.take(i as int)));
                }
            }
            assert(v@.take(n as int) == v@);
            assert(out@ =~= old(out)@ + enc_opt_texts(*o));
        },
    }
}

fn base_number(name: &BaseType) -> (n: u64)
    ensures
        n == base_index(*name),
{
    match name {
        BaseType::Uri => 0,
        BaseType::DocumentUri => 1,
        BaseType::Integer => 2,
        BaseType::Uinteger => 3,
        BaseType::Decimal => 4,
        BaseType::RegExp => 5,
        BaseType::String => 6,
        BaseType::Boolean => 7,
        BaseType::Null => 8,
    }
}

fn put_type(out: &mut Vec<u8>, t: &Type)
    ensures
        final(out)@ == old(out)@ + enc_type(*t),
    decreases *t,
{
    match t {
        Type::Base { name } => {
            put_word(out, 0);
            put_word(out, base_number(name));
        },
        Type::Reference { name } => {
            put_word(out, 1);
            put_text(out, name.as_str());
        },
        Type::Array { element } => {
            put_word(out, 2);
            put_type(out, element);
        },
        Type::Mapping { key, value } => {
            put_word(out, 3);
            put_type(out, key);
            put_type(out, value);
        },
        Type::Or { items } => {
            put_word(out, 4);
            put_types(out, items);
        },
        Type::Tuple { items } => {
            put_word(out, 5);
            put_types(out, items);
        },
        Type::Literal { value } => {
            put_word(out, 6);
            put_literal(out, value);
        },
        Type::StringLiteral { value } => {
            put_word(out, 7);
            put_text(out, value.as_str());
        },
        Type::IntegerLiteral { value } => {
            put_word(out, 8);
            put_word(out, #[verifier::truncate] (*value as u64));
        },
        Type::BooleanLiteral { value } => {
            put_word(out, 9);
            put_bool(out, *value);
        },
    }
    assert(out@ =~= old(out)@ + enc_type(*t));
}

/// Writes the length of the list and then its types.
fn put_types(out: &mut Vec<u8>, items: &Vec<Type>)
    ensures
        final(out)@ == old(out)@ + word(items@.len() as u64) + enc_type_run(items@),
    decreases items,
{
    put_len(out, items.len());
    let ghost start = out@;
    let n = items.len();
    let mut i: usize = 0;
    assert(items@.take(0) =~= Seq::<Type>::empty());
    while i < n
        invariant
            n == items@.len(),
            i <= n,
            out@ == start + enc_type_run(items@.take(i as int)),
        decreases n - i,
    {
        put_type(out, &items[i]);
        i = i + 1;
        proof {
            assert(items@.take(i as int).drop_last() == items@.take(i - 1));
            assert(out@ =~= start + enc_type_run(items@.take(i as int)));
        }
    }
    assert(items@.take(n as int) == items@);
}

/// Writes the length of the list and then its properties.
fn put_properties(out: &mut Vec<u8>, ps: &Vec<Property>)
    ensures
        final(out)@ == old(out)@ + word(ps@.len() as u64) + enc_property_run(ps@),
    decreases ps,
{
    put_len(out, ps.len());
    let ghost start = out@;
    let n = ps.len();
    let mut i: usize = 0;
    assert(ps@.take(0) =~= Seq::<Property>::empty());
    while i < n
        invariant
            n == ps@.len(),
            i <= n,
            out@ == start + enc_property_run(ps@.take(i as int)),
        decreases n - i,
    {
        put_property(out, &ps[i]);
        i = i + 1;
        proof {
            assert(ps@.take(i as int).drop_last() == ps@.take(i - 1));
            assert(out@ =~= start + enc_property_run(ps@.take(i as int)));
        }
    }
    assert(ps@.take(n as int) == ps@);
}

fn put_property(out: &mut Vec<u8>, p: &Property)
    ensures
        final(out)@ == old(out)@ + enc_property(*p),
    decreases *p,
{
    let ghost start = out@;
    put_text(out, p.name.as_str());
    put_type(out, &p.type_);
    let ghost a = enc_text(p.name@) + enc_type(p.type_);
    assert(out@ =~= start + a);
    put_opt_text(out, &p.documentation);
    let ghost b = a + enc_opt_text(p.documentation);
    assert(out@ =~= start + b);
    put_opt_bool(out, &p.optional);
    let ghost c = b + enc_opt_bool(p.optional);
    assert(out@ =~= start + c);
    put_opt_text(out, &p.since);
    let ghost d = c + enc_opt_text(p.since);
    assert(out@ =~= start + d);
    put_opt_texts(out, &p.since_tags);
    let ghost e = d + enc_opt_texts(p.since_tags);
    assert(out@ =~= start + e);
    put_opt_bool(out, &p.proposed);
    let ghost f = e + enc_opt_bool(p.proposed);
    assert(out@ =~= start + f);
    put_opt_text(out, &p.deprecated);
    assert(out@ =~= start + (f + enc_opt_text(p.deprecated)));
}

fn put_literal(out: &mut Vec<u8>, l: &StructureLiteral)
    ensures
        final(out)@ == old(out)@ + enc_literal(*l),
    decreases *l,
{
    let ghost start = out@;
    put_properties(out, &l.properties);
    let ghost a = word(l.properties@.len() as u64) + enc_property_run(l.properties@);
    assert(out@ =~= start + a);
    put_opt_text(out, &l.documentation);
    let ghost b = a + enc_opt_text(l.documentation);
    assert(out@ =~= start + b);
    put_opt_text(out, &l.since);
    let ghost c = b + enc_opt_text(l.since);
    assert(out@ =~= start + c);
    put_opt_texts(out, &l.since_tags);
    let ghost d = c + enc_opt_texts(l.since_tags);
    assert(out@ =~= start + d);
    put_bool(out, l.proposed);
    let ghost e = d + enc_bool(l.proposed);
    assert(out@ =~= start + e);
    put_opt_text(out, &l.deprecated);
    assert(out@ =~= start + (e + enc_opt_text(l.deprecated)));
}

fn put_entry(out: &mut Vec<u8>, e: &EnumerationEntry)
    ensures
        final(out)@ == old(out)@ + enc_entry(*e),
{
    put_text(out, e.name.as_str());
    match &e.value {
        EntryValue::Integer(i) => {
            put_word(out, 2);
            put_word(out, #[verifier::truncate] (*i as u64));
        },
        EntryValue::String(s) => {
            put_word(out, 3);
            put_text(out, s.as_str());
        },
    }
    put_opt_text(out, &e.documentation);
    put_opt_text(out, &e.since);
    put_bool(out, e.proposed);
    assert(out@ =~= old(out)@ + enc_entry(*e));
}

fn kind_number(t: &EnumerationType) -> (n: u64)
    ensures
        n == kind_index(*t),
{
    match t {
        EnumerationType::Base { name } => match name {
            EnumerationTypeKind::String => 0,
            EnumerationTypeKind::Integer => 1,
            EnumerationTypeKind::Uinteger => 2,
        },
    }
}

impl Structure {
    /// The canonical bytes of the structure.
    pub fn encode(&self) -> (bytes: Vec<u8>)
        ensures
            bytes@ == structure_bytes(*self),
    {
        let mut out: Vec<u8> = Vec::new();
        put_text(&mut out, self.name.as_str());
        put_properties(&mut out, &self.properties);
        let ghost a = enc_text(self.name@) + word(self.properties@.len() as u64)
            + enc_property_run(self.properties@);
        assert(out@ =~= a);
        put_types(&mut out, &self.extends);
        let ghost b = a + word(self.extends@.len() as u64) + enc_type_run(self.extends@);
        assert(out@ =~= b);
        put_types(&mut out, &self.mixins);
        let ghost c = b + word(self.mixins@.len() as u64) + enc_type_run(self.mixins@);
        assert(out@ =~= c);
        put_opt_text(&mut out, &self.documentation);
        put_opt_text(&mut out, &self.since);
        let ghost d = c + enc_opt_text(self.documentation) + enc_opt_text(self.since);
        assert(out@ =~= d);
        put_opt_texts(&mut out, &self.since_tags);
        put_opt_bool(&mut out, &self.proposed);
        put_opt_text(&mut out, &self.deprecated);
        out
    }

    /// The fingerprint of the structure: the hash of its canonical bytes
    /// as eight hexadecimal digits.
    pub fn fingerprint(&self) -> (text: String)
        ensures
            text@ == structure_fingerprint(*self),
    {
        let bytes = self.encode();
        hex8(xx32(bytes.as_slice()))
    }
}

impl Enumeration {
    /// The canonical bytes of the enumeration.
    pub fn encode(&self) -> (bytes: Vec<u8>)
        ensures
            bytes@ == enumeration_bytes(*self),
    {
        let mut out: Vec<u8> = Vec::new();
        put_text(&mut out, self.name.as_str());
        put_word(&mut out, kind_number(&self.type_));
        put_len(&mut out, self.values.len());
        let ghost start = out@;
        let n = self.values.len();
        let mut i: usize = 0;
        assert(self.values@.take(0) =~= Seq::<EnumerationEntry>::empty());
        while i < n
            invariant
                n == self.values@.len(),
                i <= n,
                out@ == start + enc_entry_run(self.values@.take(i as int)),
            decreases n - i,
        {
            put_entry(&mut out, &self.values[i]);
            i = i + 1;
            proof {
                assert(self.values@.take(i as int).drop_last() == self.values@.take(i - 1));
                assert(out@ =~= start + enc_entry_run(self.values@.take(i as int)));
            }
        }
        assert(self.values@.take(n as int) == self.values@);
        let ghost a = enc_text(self.name@) + word(kind_index(self.type_)) + word(
            self.values@.len() as u64,
        ) + enc_entry_run(self.values@);
        assert(out@ =~= a);
        put_bool(&mut out, self.supports_custom_values);
        put_opt_text(&mut out, &self.documentation);
        let ghost b = a + enc_bool(self.supports_custom_values) + enc_opt_text(
            self.documentation,
        );
        assert(out@ =~= b);
        put_opt_text(&mut out, &self.since);
        put_bool(&mut out, self.proposed);
        put_opt_text(&mut out, &self.deprecated);
        out
    }

    /// The fingerprint of the enumeration: the hash of its canonical
    /// bytes as eight hexadecimal digits.
    pub fn fingerprint(&self) -> (text: String)
        ensures
            text@ == enumeration_fingerprint(*self),
    {
        let bytes = self.encode();
        hex8(xx32(bytes.as_slice()))
    }
}

} // verus!
