//! Text helpers shared by the models: joining with a separator, comparing
//! string slices, and keeping a list of texts in order, stated over
//! `Seq<char>`.

use vstd::prelude::*;
use vstd::string::*;
use vstd::utf8::{encode_utf8, encode_utf8_decode_utf8};

verus! {

/// The parts written one after another, with `sep` between neighbours.
pub open spec fn join(parts: Seq<Seq<char>>, sep: Seq<char>) -> Seq<char>
    decreases parts.len(),
{
    if parts.len() == 0 {
        Seq::<char>::empty()
    } else if parts.len() == 1 {
        parts[0]
    } else {
        join(parts.drop_last(), sep) + sep + parts.last()
    }
}

/// The characters of an optional string.
pub open spec fn opt_text(o: Option<String>) -> Option<Seq<char>> {
    match o {
        Some(s) => Some(s@),
        None => None,
    }
}

/// The characters of each string of a list.
pub open spec fn texts(v: Seq<String>) -> Seq<Seq<char>> {
    v.map_values(|s: String| s@)
}

/// Joining one part more appends the separator and the part, unless the
/// part is the first.
pub proof fn lemma_join_push(parts: Seq<Seq<char>>, part: Seq<char>, sep: Seq<char>)
    ensures
        join(parts.push(part), sep) == if parts.len() == 0 {
            part
        } else {
            join(parts, sep) + sep + part
        },
{
    assert(parts.push(part).drop_last() == parts);
}

/// A copy of an optional string.
pub fn clone_opt(o: &Option<String>) -> (out: Option<String>)
    ensures
        opt_text(out) == opt_text(*o),
{
    match o {
        Some(s) => Some(s.clone()),
        None => None,
    }
}

/// Whether two string slices hold the same characters.
pub fn str_eq(a: &str, b: &str) -> (same: bool)
    ensures
        same == (a@ == b@),
{
    let x: String = a.to_owned();
    let y: String = b.to_owned();
    x == y
}

/// Whether `a` stands before `b` in the order of byte strings: at the
/// first place where they differ `a` has the smaller byte, or `a` ends
/// there and `b` does not.
pub open spec fn bytes_lt(a: Seq<u8>, b: Seq<u8>) -> bool
    decreases a.len(),
{
    if b.len() == 0 {
        false
    } else if a.len() == 0 {
        true
    } else if a[0] != b[0] {
        a[0] < b[0]
    } else {
        bytes_lt(a.drop_first(), b.drop_first())
    }
}

/// Whether `a` stands before `b` in the order of texts, which is the
/// order of their UTF-8 bytes.
pub open spec fn text_lt(a: Seq<char>, b: Seq<char>) -> bool {
    bytes_lt(encode_utf8(a), encode_utf8(b))
}

/// No byte string stands before itself.
pub proof fn lemma_bytes_lt_irreflexive(a: Seq<u8>)
    ensures
        !bytes_lt(a, a),
    decreases a.len(),
{
    if a.len() > 0 {
        lemma_bytes_lt_irreflexive(a.drop_first());
    }
}

/// The order of byte strings is transitive.
pub proof fn lemma_bytes_lt_transitive(a: Seq<u8>, b: Seq<u8>, c: Seq<u8>)
    requires
        bytes_lt(a, b),
        bytes_lt(b, c),
    ensures
        bytes_lt(a, c),
    decreases a.len(),
{
    if a.len() > 0 && a[0] == b[0] && b[0] == c[0] {
        lemma_bytes_lt_transitive(a.drop_first(), b.drop_first(), c.drop_first());
    }
}

/// Of two different byte strings one stands before the other.
pub proof fn lemma_bytes_lt_total(a: Seq<u8>, b: Seq<u8>)
    requires
        a != b,
    ensures
        bytes_lt(a, b) || bytes_lt(b, a),
    decreases a.len(),
{
    if a.len() > 0 && b.len() > 0 && a[0] == b[0] {
        if a.drop_first() == b.drop_first() {
            assert(a =~= seq![a[0]] + a.drop_first());
            assert(b =~= seq![b[0]] + b.drop_first());
        }
        lemma_bytes_lt_total(a.drop_first(), b.drop_first());
    } else if a.len() == 0 && b.len() == 0 {
        assert(a =~= b);
    }
}

/// The order of texts is transitive.
pub proof fn lemma_text_lt_transitive(a: Seq<char>, b: Seq<char>, c: Seq<char>)
    requires
        text_lt(a, b),
        text_lt(b, c),
    ensures
        text_lt(a, c),
{
    lemma_bytes_lt_transitive(encode_utf8(a), encode_utf8(b), encode_utf8(c));
}

/// Of two different texts one stands before the other, and no text stands
/// before itself.
pub proof fn lemma_text_lt_total(a: Seq<char>, b: Seq<char>)
    ensures
        a != b ==> text_lt(a, b) || text_lt(b, a),
        !text_lt(a, a),
{
    lemma_bytes_lt_irreflexive(encode_utf8(a));
    if a != b {
        encode_utf8_decode_utf8(a);
        encode_utf8_decode_utf8(b);
        lemma_bytes_lt_total(encode_utf8(a), encode_utf8(b));
    }
}

/// Whether the string slice `a` stands before `b`, as `<` orders them.
pub fn str_lt(a: &str, b: &str) -> (before: bool)
    ensures
        before == text_lt(a@, b@),
{
    let x = a.as_bytes();
    let y = b.as_bytes();
    let n = x.len();
    let m = y.len();
    let mut i: usize = 0;
    proof {
        assert(x@.skip(0) == x@);
        assert(y@.skip(0) == y@);
    }
    while i < n && i < m
        invariant
            n == x@.len(),
            m == y@.len(),
            i <= n,
            i <= m,
            x@ == encode_utf8(a@),
            y@ == encode_utf8(b@),
            bytes_lt(x@, y@) == bytes_lt(x@.skip(i as int), y@.skip(i as int)),
        decreases n - i,
    {
        proof {
            assert(x@.skip(i as int)[0] == x@[i as int]);
            assert(y@.skip(i as int)[0] == y@[i as int]);
            assert(x@.skip(i as int).drop_first() == x@.skip(i + 1));
            assert(y@.skip(i as int).drop_first() == y@.skip(i + 1));
        }
        if x[i] != y[i] {
            return x[i] < y[i];
        }
        i = i + 1;
    }
    i < m
}

/// Whether the texts of `list` stand in their order, each before the next.
pub open spec fn sorted(list: Seq<Seq<char>>) -> bool {
    forall|i: int, j: int| 0 <= i < j < list.len() ==> text_lt(list[i], list[j])
}

/// The number of texts at the front of `list` that stand before `key`: in
/// a sorted list, the place where `key` belongs.
pub open spec fn rank(list: Seq<Seq<char>>, key: Seq<char>) -> int
    decreases list.len(),
{
    if list.len() == 0 {
        0
    } else if text_lt(list[0], key) {
        1 + rank(list.drop_first(), key)
    } else {
        0
    }
}

/// `list` with `key` put in where it belongs, unless it is there already.
pub open spec fn record(list: Seq<Seq<char>>, key: Seq<char>) -> Seq<Seq<char>> {
    if list.contains(key) {
        list
    } else {
        list.insert(rank(list, key), key)
    }
}

/// The rank is a place of the list or its end; the texts before it stand
/// before the key, and the text at it does not.
pub proof fn lemma_rank(list: Seq<Seq<char>>, key: Seq<char>)
    ensures
        0 <= rank(list, key) <= list.len(),
        forall|i: int| 0 <= i < rank(list, key) ==> text_lt(#[trigger] list[i], key),
        rank(list, key) < list.len() ==> !text_lt(list[rank(list, key)], key),
    decreases list.len(),
{
    if list.len() > 0 && text_lt(list[0], key) {
        let rest = list.drop_first();
        lemma_rank(rest, key);
        assert forall|i: int| 0 <= i < rank(list, key) implies text_lt(
            #[trigger] list[i],
            key,
        ) by {
            if i > 0 {
                assert(list[i] == rest[i - 1]);
            }
        }
        if rank(list, key) < list.len() {
            assert(list[rank(list, key)] == rest[rank(rest, key)]);
        }
    }
}

/// `list` after each of `keys` was recorded in turn.
pub open spec fn record_all(list: Seq<Seq<char>>, keys: Seq<Seq<char>>) -> Seq<Seq<char>>
    decreases keys.len(),
{
    if keys.len() == 0 {
        list
    } else {
        record(record_all(list, keys.drop_last()), keys.last())
    }
}

/// Whether no text stands twice in `list`.
pub open spec fn distinct(list: Seq<Seq<char>>) -> bool {
    forall|i: int, j: int| 0 <= i < j < list.len() ==> list[i] != list[j]
}

/// In a sorted list no text stands twice.
pub proof fn law_sorted_is_distinct(list: Seq<Seq<char>>)
    requires
        sorted(list),
    ensures
        distinct(list),
{
    assert forall|i: int, j: int| 0 <= i < j < list.len() implies list[i] != list[j] by {
        lemma_text_lt_total(list[i], list[j]);
    }
}

/// Recording keeps a list sorted.
pub proof fn lemma_record_sorted(list: Seq<Seq<char>>, key: Seq<char>)
    requires
        sorted(list),
    ensures
        sorted(record(list, key)),
{
    if !list.contains(key) {
        let r = rank(list, key);
        let after = list.insert(r, key);
        lemma_rank(list, key);
        assert forall|i: int| r <= i < list.len() implies text_lt(key, #[trigger] list[i]) by {
            lemma_text_lt_total(key, list[r]);
            assert(list[r] != key);
            if i > r {
                lemma_text_lt_transitive(key, list[r], list[i]);
            }
        }
        assert forall|i: int, j: int| 0 <= i < j < after.len() implies text_lt(
            after[i],
            after[j],
        ) by {
            if j < r {
                assert(after[i] == list[i] && after[j] == list[j]);
            } else if j == r {
                assert(after[i] == list[i] && after[j] == key);
            } else if i < r {
                assert(after[i] == list[i] && after[j] == list[j - 1]);
                if j - 1 == i {
                } else {
                    assert(text_lt(list[i], list[j - 1]));
                }
                lemma_text_lt_transitive(list[i], key, list[j - 1]);
            } else if i == r {
                assert(after[i] == key && after[j] == list[j - 1]);
            } else {
                assert(after[i] == list[i - 1] && after[j] == list[j - 1]);
            }
        }
    }
}

/// Recording many keys keeps a list sorted.
pub proof fn lemma_record_all_sorted(list: Seq<Seq<char>>, keys: Seq<Seq<char>>)
    requires
        sorted(list),
    ensures
        sorted(record_all(list, keys)),
    decreases keys.len(),
{
    if keys.len() > 0 {
        lemma_record_all_sorted(list, keys.drop_last());
        lemma_record_sorted(record_all(list, keys.drop_last()), keys.last());
    }
}

/// Recording two runs of keys in turn is recording the two runs as one.
pub proof fn lemma_record_all_add(list: Seq<Seq<char>>, first: Seq<Seq<char>>, second: Seq<Seq<char>>)
    ensures
        record_all(record_all(list, first), second) == record_all(list, first + second),
    decreases second.len(),
{
    if second.len() == 0 {
        assert(first + second == first);
    } else {
        lemma_record_all_add(list, first, second.drop_last());
        assert((first + second).drop_last() == first + second.drop_last());
        assert((first + second).last() == second.last());
    }
}

/// The place where `key` belongs in `list`.
fn rank_of(list: &Vec<String>, key: &str) -> (r: usize)
    ensures
        r == rank(texts(list@), key@),
        r <= list@.len(),
{
    let ghost all = texts(list@);
    let n = list.len();
    let mut i: usize = 0;
    proof {
        assert(all.skip(0) == all);
    }
    while i < n
        invariant
            n == list@.len(),
            i <= n,
            all == texts(list@),
            rank(all, key@) == i + rank(all.skip(i as int), key@),
        decreases n - i,
    {
        proof {
            assert(all.skip(i as int)[0] == list@[i as int]@);
            assert(all.skip(i as int).drop_first() == all.skip(i + 1));
        }
        if !str_lt(list[i].as_str(), key) {
            return i;
        }
        i = i + 1;
    }
    i
}

/// Records `key` in `list`: it is put in where it belongs unless the list
/// holds it already.
pub fn insert_unique(list: &mut Vec<String>, key: String)
    ensures
        texts(final(list)@) == record(texts(old(list)@), key@),
{
    let n = list.len();
    let mut i: usize = 0;
    while i < n
        invariant
            n == list@.len(),
            i <= n,
            forall|j: int| 0 <= j < i ==> texts(list@)[j] != key@,
        decreases n - i,
    {
        if list[i] == key {
            proof {
                assert(texts(list@)[i as int] == key@);
            }
            return ;
        }
        i = i + 1;
    }
    let r = rank_of(list, key.as_str());
    proof {
        assert(texts(list@.insert(r as int, key)) =~= texts(list@).insert(r as int, key@));
    }
    list.insert(r, key);
}

} // verus!
