//! The config model: which entities are generated, skipped or frozen by a
//! checksum, and the table that names anonymous unions.

use vstd::prelude::*;
use vstd::string::*;
use crate::schema::{reference_texts, Type};
use crate::target::{ref_texts, TypeRef};
use crate::text::{join, lemma_join_push};

verus! {

/// What to do with one structure or enumeration.
#[derive(Debug, Clone, PartialEq, Eq)]
pub enum CodegenOption {
    /// Translate the entity. Both values translate it.
    Generate(bool),
    /// Do not translate the entity; its fingerprint is expected to be this.
    Checksum(String),
}

/// The mathematical value of a `CodegenOption`.
pub enum CodegenOptionView {
    Generate(bool),
    Checksum(Seq<char>),
}

impl View for CodegenOption {
    type V = CodegenOptionView;

    open spec fn view(&self) -> CodegenOptionView {
        match self {
            CodegenOption::Generate(b) => CodegenOptionView::Generate(*b),
            CodegenOption::Checksum(h) => CodegenOptionView::Checksum(h@),
        }
    }
}

/// The generation policy. Each table is a map from its first components,
/// with no key twice; where a table does hold a key twice, the first entry
/// counts.
#[derive(Debug, Clone)]
pub struct Config {
    pub version: String,
    /// From the composite key of an anonymous union to the type that names it.
    pub anon_mappings: Vec<(String, String)>,
    pub structs: Vec<(String, CodegenOption)>,
    pub enums: Vec<(String, CodegenOption)>,
}

/// The type that `table` gives to `key`.
pub open spec fn mapping_of(table: Seq<(String, String)>, key: Seq<char>) -> Option<Seq<char>>
    decreases table.len(),
{
    if table.len() == 0 {
        None
    } else if table[0].0@ == key {
        Some(table[0].1@)
    } else {
        mapping_of(table.drop_first(), key)
    }
}

/// The directive that `table` gives to the entity called `name`.
pub open spec fn option_of(table: Seq<(String, CodegenOption)>, name: Seq<char>) -> Option<
    CodegenOptionView,
>
    decreases table.len(),
{
    if table.len() == 0 {
        None
    } else if table[0].0@ == name {
        Some(table[0].1@)
    } else {
        option_of(table.drop_first(), name)
    }
}

/// The keys of a table of mappings.
pub open spec fn mapping_keys(table: Seq<(String, String)>) -> Seq<Seq<char>> {
    table.map_values(|entry: (String, String)| entry.0@)
}

/// The keys of a table of directives.
pub open spec fn option_keys(table: Seq<(String, CodegenOption)>) -> Seq<Seq<char>> {
    table.map_values(|entry: (String, CodegenOption)| entry.0@)
}

/// Whether no key stands twice in `keys`.
pub open spec fn unique_keys(keys: Seq<Seq<char>>) -> bool {
    forall|i: int, j: int| 0 <= i < j < keys.len() ==> keys[i] != keys[j]
}

/// In a table without repeated keys every entry is the one that its key
/// finds.
pub proof fn law_mapping_is_found(table: Seq<(String, String)>, i: int)
    requires
        unique_keys(mapping_keys(table)),
        0 <= i < table.len(),
    ensures
        mapping_of(table, table[i].0@) == Some(table[i].1@),
    decreases table.len(),
{
    if i > 0 {
        let rest = table.drop_first();
        assert(mapping_keys(table)[0] != mapping_keys(table)[i]);
        assert forall|a: int, b: int| 0 <= a < b < rest.len() implies mapping_keys(rest)[a]
            != mapping_keys(rest)[b] by {
            assert(mapping_keys(table)[a + 1] != mapping_keys(table)[b + 1]);
        }
        law_mapping_is_found(rest, i - 1);
    }
}

/// In a table without repeated keys every entry is the one that its key
/// finds.
pub proof fn law_option_is_found(table: Seq<(String, CodegenOption)>, i: int)
    requires
        unique_keys(option_keys(table)),
        0 <= i < table.len(),
    ensures
        option_of(table, table[i].0@) == Some(table[i].1@),
    decreases table.len(),
{
    if i > 0 {
        let rest = table.drop_first();
        assert(option_keys(table)[0] != option_keys(table)[i]);
        assert forall|a: int, b: int| 0 <= a < b < rest.len() implies option_keys(rest)[a]
            != option_keys(rest)[b] by {
            assert(option_keys(table)[a + 1] != option_keys(table)[b + 1]);
        }
        law_option_is_found(rest, i - 1);
    }
}

fn distinct_mapping_keys(table: &Vec<(String, String)>) -> (distinct: bool)
    ensures
        distinct == unique_keys(mapping_keys(table@)),
{
    let ghost keys = mapping_keys(table@);
    let n = table.len();
    let mut j: usize = 0;
    while j < n
        invariant
            n == table@.len(),
            j <= n,
            keys == mapping_keys(table@),
            forall|a: int, b: int| 0 <= a < b < j ==> keys[a] != keys[b],
        decreases n - j,
    {
        let mut i: usize = 0;
        while i < j
            invariant
                n == table@.len(),
                i <= j < n,
                keys == mapping_keys(table@),
                forall|a: int| 0 <= a < i ==> keys[a] != keys[j as int],
            decreases j - i,
        {
            if table[i].0 == table[j].0 {
                proof {
                    assert(keys[i as int] == keys[j as int]);
                }
                return false;
            }
            i = i + 1;
        }
        j = j + 1;
    }
    true
}

fn distinct_option_keys(table: &Vec<(String, CodegenOption)>) -> (distinct: bool)
    ensures
        distinct == unique_keys(option_keys(table@)),
{
    let ghost keys = option_keys(table@);
    let n = table.len();
    let mut j: usize = 0;
    while j < n
        invariant
            n == table@.len(),
            j <= n,
            keys == option_keys(table@),
            forall|a: int, b: int| 0 <= a < b < j ==> keys[a] != keys[b],
        decreases n - j,
    {
        let mut i: usize = 0;
        while i < j
            invariant
                n == table@.len(),
                i <= j < n,
                keys == option_keys(table@),
                forall|a: int| 0 <= a < i ==> keys[a] != keys[j as int],
            decreases j - i,
        {
            if table[i].0 == table[j].0 {
                proof {
                    assert(keys[i as int] == keys[j as int]);
                }
                return false;
            }
            i = i + 1;
        }
        j = j + 1;
    }
    true
}

impl Config {
    /// Whether each table is a map: no key stands twice in it.
    pub open spec fn wf(&self) -> bool {
        &&& unique_keys(mapping_keys(self.anon_mappings@))
        &&& unique_keys(option_keys(self.structs@))
        &&& unique_keys(option_keys(self.enums@))
    }

    /// Whether each table is a map.
    pub fn is_well_formed(&self) -> (ok: bool)
        ensures
            ok == self.wf(),
    {
        distinct_mapping_keys(&self.anon_mappings) && distinct_option_keys(&self.structs)
            && distinct_option_keys(&self.enums)
    }
}

/// The composite key of a list of union arms: the arms' reference texts in
/// declaration order, joined by `|`. A list with an arm that does not
/// collapse to a reference has none.
pub open spec fn anon_key(items: Seq<Type>) -> Option<Seq<char>> {
    match reference_texts(items) {
        Some(parts) => Some(join(parts, seq!['|'])),
        None => None,
    }
}

/// What looking up a list of union arms gives: the configured type, or the
/// key that the table lacks, or nothing where the arms form no key.
pub open spec fn anon_lookup(table: Seq<(String, String)>, items: Seq<Type>) -> Result<
    Seq<char>,
    Option<Seq<char>>,
> {
    match anon_key(items) {
        None => Err(None),
        Some(key) => match mapping_of(table, key) {
            Some(name) => Ok(name),
            None => Err(Some(key)),
        },
    }
}

/// The types behind a list of borrowed types.
pub open spec fn borrowed(items: Seq<&Type>) -> Seq<Type> {
    items.map_values(|t: &Type| *t)
}

/// Borrows each type of a list.
pub fn borrow_all(items: &[Type]) -> (out: Vec<&Type>)
    ensures
        borrowed(out@) == items@,
{
    let mut out: Vec<&Type> = Vec::new();
    let n = items.len();
    let mut i: usize = 0;
    while i < n
        invariant
            n == items@.len(),
            i <= n,
            out@.len() == i,
            forall|j: int| 0 <= j < i ==> *(#[trigger] out@[j]) == items@[j],
        decreases n - i,
    {
        out.push(&items[i]);
        i = i + 1;
    }
    proof {
        assert(borrowed(out@) =~= items@);
    }
    out
}

/// The texts joined by `|`.
fn bar_joined(refs: &Vec<TypeRef>) -> (out: String)
    ensures
        out@ == join(ref_texts(refs@), seq!['|']),
{
    let mut out = String::new();
    let ghost all = ref_texts(refs@);
    proof {
        reveal_strlit("|");
        assert(all.take(0) =~= Seq::<Seq<char>>::empty());
    }
    let n = refs.len();
    let mut i: usize = 0;
    while i < n
        invariant
            n == refs@.len(),
            i <= n,
            all == ref_texts(refs@),
            "|"@ == seq!['|'],
            out@ == join(all.take(i as int), seq!['|']),
        decreases n - i,
    {
        proof {
            lemma_join_push(all.take(i as int), all[i as int], seq!['|']);
            assert(all.take(i as int).push(all[i as int]) == all.take(i + 1));
        }
        if i > 0 {
            out.append("|");
        }
        out.append(refs[i].as_str());
        i = i + 1;
    }
    proof {
        assert(all.take(n as int) == all);
    }
    out
}

/// The references that borrowed types collapse to, where each collapses.
fn references_of(items: &Vec<&Type>) -> (r: Option<Vec<TypeRef>>)
    ensures
        match r {
            Some(refs) => reference_texts(borrowed(items@)) == Some(ref_texts(refs@)),
            None => reference_texts(borrowed(items@)) is None,
        },
{
    let mut refs: Vec<TypeRef> = Vec::new();
    let ghost all = borrowed(items@);
    let n = items.len();
    let mut i: usize = 0;
    proof {
        assert(all.take(0) =~= Seq::<Type>::empty());
        assert(ref_texts(refs@) =~= Seq::<Seq<char>>::empty());
    }
    while i < n
        invariant
            n == items@.len(),
            i <= n,
            all == borrowed(items@),
            reference_texts(all.take(i as int)) == Some(ref_texts(refs@)),
        decreases n - i,
    {
        proof {
            assert(all.take(i + 1).drop_last() == all.take(i as int));
            assert(all.take(i + 1).last() == *items@[i as int]);
        }
        match items[i].reference() {
            Some(r) => {
                proof {
                    assert(ref_texts(refs@.push(r)) =~= ref_texts(refs@).push(r@));
                }
                refs.push(r);
            },
            None => {
                proof {
                    crate::schema::lemma_reference_texts_prefix(all, i + 1);
                }
                return None;
            },
        }
        i = i + 1;
    }
    proof {
        assert(all.take(n as int) == all);
    }
    Some(refs)
}

/// The entry of `table` for `key`, where it has one.
pub fn find_mapping<'a>(table: &'a Vec<(String, String)>, key: &str) -> (found: Option<&'a String>)
    ensures
        match found {
            Some(name) => mapping_of(table@, key@) == Some(name@),
            None => mapping_of(table@, key@) is None,
        },
{
    let n = table.len();
    let mut i: usize = 0;
    proof {
        assert(table@.skip(0) == table@);
    }
    while i < n
        invariant
            n == table@.len(),
            i <= n,
            mapping_of(table@, key@) == mapping_of(table@.skip(i as int), key@),
        decreases n - i,
    {
        proof {
            assert(table@.skip(i as int)[0] == table@[i as int]);
            assert(table@.skip(i as int).drop_first() == table@.skip(i + 1));
        }
        if crate::text::str_eq(table[i].0.as_str(), key) {
            return Some(&table[i].1);
        }
        i = i + 1;
    }
    None
}

/// The entry of `table` for the entity called `name`, where it has one.
pub fn find_option<'a>(table: &'a Vec<(String, CodegenOption)>, name: &str) -> (found: Option<
    &'a CodegenOption,
>)
    ensures
        match found {
            Some(option) => option_of(table@, name@) == Some(option@),
            None => option_of(table@, name@) is None,
        },
{
    let n = table.len();
    let mut i: usize = 0;
    proof {
        assert(table@.skip(0) == table@);
    }
    while i < n
        invariant
            n == table@.len(),
            i <= n,
            option_of(table@, name@) == option_of(table@.skip(i as int), name@),
        decreases n - i,
    {
        proof {
            assert(table@.skip(i as int)[0] == table@[i as int]);
            assert(table@.skip(i as int).drop_first() == table@.skip(i + 1));
        }
        if crate::text::str_eq(table[i].0.as_str(), name) {
            return Some(&table[i].1);
        }
        i = i + 1;
    }
    None
}

/// Whether the outcome of a lookup has the value `expected`.
pub open spec fn lookup_is(
    r: Result<TypeRef, Option<String>>,
    expected: Result<Seq<char>, Option<Seq<char>>>,
) -> bool {
    match expected {
        Ok(name) => r is Ok && r->Ok_0@ == name,
        Err(None) => r is Err && r->Err_0 is None,
        Err(Some(key)) => r is Err && r->Err_0 is Some && r->Err_0->0@ == key,
    }
}

impl Config {
    /// Looks up borrowed union arms; see `lookup_anon`.
    pub fn lookup_anon_of(&self, items: &Vec<&Type>) -> (r: Result<TypeRef, Option<String>>)
        ensures
            lookup_is(r, anon_lookup(self.anon_mappings@, borrowed(items@))),
    {
        let refs = match references_of(items) {
            Some(refs) => refs,
            None => {
                return Err(None);
            },
        };
        let key = bar_joined(&refs);
        match find_mapping(&self.anon_mappings, key.as_str()) {
            Some(name) => Ok(TypeRef::new(name.as_str())),
            None => Err(Some(key)),
        }
    }

    /// The canonical type that the table of anonymous unions gives to a
    /// list of union arms. The arms are collapsed to references and joined
    /// by `|` in declaration order to form the key. `Err(None)` says that an
    /// arm does not collapse, `Err(Some(key))` that the table lacks `key`.
    pub fn lookup_anon(&self, items: &[Type]) -> (r: Result<TypeRef, Option<String>>)
        ensures
            lookup_is(r, anon_lookup(self.anon_mappings@, items@)),
    {
        let arms = borrow_all(items);
        self.lookup_anon_of(&arms)
    }
}

} // verus!
