//! Laws of the translator: what holds of every union, every lookup and
//! every pass.

use vstd::prelude::*;
use crate::canonical::{lemma_structure_bytes_tell_apart, same_structure};
use crate::config::{anon_key, anon_lookup, mapping_of, option_of, CodegenOptionView, Config};
use crate::fingerprint::{
    lemma_fingerprint_is_hash, structure_bytes, structure_fingerprint, xx_hash32,
};
use crate::schema::{
    reference_text, reference_texts, BaseType, Enumeration, MetaModel, Property, Structure, Type,
};
use crate::target::{generic_text, tuple_text, ItemView};
use crate::text::join;
use crate::translate::{
    empty_translation, enumerations_pass, fields_outcome, is_empty_literal, is_null, kept_arms,
    named_union_outcome, result_view, schema_outcome, structure_directive, structure_outcome,
    structure_seen_before, structures_pass, type_outcome, wrapped, DriftView, EntityKind,
    TranslateError, Translation, TranslationView, TypeError,
};

verus! {

/// Two arms of which none is an empty inline structure are both kept.
proof fn lemma_kept_pair(first: Type, second: Type)
    requires
        !is_empty_literal(first),
        !is_empty_literal(second),
    ensures
        kept_arms(seq![first, second]) == seq![first, second],
{
    let both = seq![first, second];
    let one = seq![first];
    assert(both.drop_last() =~= one);
    assert(one.drop_last() =~= Seq::<Type>::empty());
    assert(kept_arms(one.drop_last()) =~= Seq::<Type>::empty());
    assert(kept_arms(one) =~= one);
    assert(kept_arms(both) =~= both);
}

/// A union of a type and `Null`, in this order, translates to `Option` of
/// what the type translates to, and records what the type records. The
/// type may be any but the empty inline structure, which is left out of a
/// union before its arms are counted.
pub proof fn law_optional_union(union: Type, first: Type, table: Seq<(String, String)>)
    requires
        union matches Type::Or { items } && items@ == seq![
            first,
            Type::Base { name: BaseType::Null },
        ],
        !is_empty_literal(first),
    ensures
        type_outcome(union, table).result == wrapped("Option"@, type_outcome(first, table).result),
        type_outcome(union, table).missing == type_outcome(first, table).missing,
{
    lemma_kept_pair(first, Type::Base { name: BaseType::Null });
}

/// A union of `Null` and a type, in this order, is not read as optional:
/// it is resolved by the table of anonymous unions, and since `Null`
/// collapses to no reference, it has no translation. The type may be any
/// but `Null` and the empty inline structure.
pub proof fn law_reversed_union(union: Type, second: Type, table: Seq<(String, String)>)
    requires
        union matches Type::Or { items } && items@ == seq![
            Type::Base { name: BaseType::Null },
            second,
        ],
        !is_empty_literal(second),
        !is_null(second),
    ensures
        type_outcome(union, table) == named_union_outcome(
            seq![Type::Base { name: BaseType::Null }, second],
            table,
        ),
        type_outcome(union, table).result == Err::<Option<Seq<char>>, TypeError>(
            TypeError::UndecidableUnion,
        ),
{
    let null = Type::Base { name: BaseType::Null };
    let arms = seq![null, second];
    lemma_kept_pair(null, second);
    assert(arms.drop_last() =~= seq![null]);
    assert(seq![null].drop_last() =~= Seq::<Type>::empty());
    assert(seq![null].last() == null);
    assert(reference_text(null) is None);
    assert(reference_texts(seq![null]) is None);
    assert(reference_texts(arms) is None);
}

/// A union of which one arm remains, once the empty inline structures are
/// left out, translates as that arm does.
pub proof fn law_single_arm_union(union: Type, arm: Type, table: Seq<(String, String)>)
    requires
        union matches Type::Or { items } && kept_arms(items@) == seq![arm],
    ensures
        type_outcome(union, table) == type_outcome(arm, table),
{
}

/// The key of two arms that collapse is the first text, `|`, and the
/// second text.
pub proof fn lemma_pair_key(a: Type, b: Type)
    requires
        reference_text(a) is Some,
        reference_text(b) is Some,
    ensures
        anon_key(seq![a, b]) == Some(reference_text(a)->0 + seq!['|'] + reference_text(b)->0),
{
    let both = seq![a, b];
    let one = seq![a];
    assert(both.drop_last() =~= one);
    assert(one.drop_last() =~= Seq::<Type>::empty());
    assert(reference_texts(one.drop_last()) == Some(Seq::<Seq<char>>::empty()));
    let x = reference_text(a)->0;
    let y = reference_text(b)->0;
    assert(reference_texts(one) == Some(Seq::<Seq<char>>::empty().push(x)));
    let parts = Seq::<Seq<char>>::empty().push(x).push(y);
    assert(reference_texts(both) == Some(parts));
    assert(parts.drop_last() =~= seq![x]);
    assert(seq![x].drop_last() =~= Seq::<Seq<char>>::empty());
    assert(join(seq![x], seq!['|']) == x);
    assert(join(parts, seq!['|']) == x + seq!['|'] + y);
}

/// Two different texts without `|` give different keys in the two orders.
pub proof fn lemma_keys_differ(x: Seq<char>, y: Seq<char>)
    requires
        x != y,
        !x.contains('|'),
        !y.contains('|'),
    ensures
        x + seq!['|'] + y != y + seq!['|'] + x,
{
    let xy = x + seq!['|'] + y;
    let yx = y + seq!['|'] + x;
    if xy == yx {
        if x.len() == y.len() {
            assert forall|i: int| 0 <= i < x.len() implies x[i] == y[i] by {
                assert(xy[i] == x[i]);
                assert(yx[i] == y[i]);
            }
            assert(x =~= y);
        } else if x.len() < y.len() {
            assert(xy[x.len() as int] == '|');
            assert(yx[x.len() as int] == y[x.len() as int]);
            assert(y.contains('|'));
        } else {
            assert(yx[y.len() as int] == '|');
            assert(xy[y.len() as int] == x[y.len() as int]);
            assert(x.contains('|'));
        }
    }
}

/// Looking up two arms depends on their order. Where the arms collapse to
/// different texts that hold no `|`, the lookup of the one order and that
/// of the other give the same only if the table names both keys.
pub proof fn law_lookup_order(table: Seq<(String, String)>, a: Type, b: Type)
    requires
        reference_text(a) is Some,
        reference_text(b) is Some,
        reference_text(a) != reference_text(b),
        !reference_text(a)->0.contains('|'),
        !reference_text(b)->0.contains('|'),
        anon_lookup(table, seq![a, b]) == anon_lookup(table, seq![b, a]),
    ensures
        anon_key(seq![a, b]) != anon_key(seq![b, a]),
        mapping_of(table, anon_key(seq![a, b])->0) is Some,
        mapping_of(table, anon_key(seq![b, a])->0) is Some,
        mapping_of(table, anon_key(seq![a, b])->0) == mapping_of(table, anon_key(seq![b, a])->0),
{
    lemma_pair_key(a, b);
    lemma_pair_key(b, a);
    lemma_keys_differ(reference_text(a)->0, reference_text(b)->0);
}

/// Whether an item is the declaration of a struct called `name`.
pub open spec fn is_struct_named(item: ItemView, name: Seq<char>) -> bool {
    item matches ItemView::Struct(s) && s.name == name
}

/// The number of struct declarations called `name` among `items`.
pub open spec fn structs_named(items: Seq<ItemView>, name: Seq<char>) -> nat
    decreases items.len(),
{
    if items.len() == 0 {
        0
    } else {
        structs_named(items.drop_last(), name) + if is_struct_named(items.last(), name) {
            1nat
        } else {
            0nat
        }
    }
}

/// Whether the type of a property is dropped, so that the property gives
/// no field.
pub open spec fn is_dropped(p: Property, table: Seq<(String, String)>) -> bool {
    type_outcome(p.type_, table).result == Ok::<Option<Seq<char>>, TypeError>(None)
}

/// The number of properties whose type is dropped.
pub open spec fn dropped_count(props: Seq<Property>, table: Seq<(String, String)>) -> nat
    decreases props.len(),
{
    if props.len() == 0 {
        0
    } else {
        dropped_count(props.drop_last(), table) + if is_dropped(props.last(), table) {
            1nat
        } else {
            0nat
        }
    }
}

/// The number of properties whose type is a string literal.
pub open spec fn string_literal_count(props: Seq<Property>) -> nat
    decreases props.len(),
{
    if props.len() == 0 {
        0
    } else {
        string_literal_count(props.drop_last()) + if props.last().type_ is StringLiteral {
            1nat
        } else {
            0nat
        }
    }
}

/// The fields of a list of properties are as many as the properties whose
/// type is not dropped.
pub proof fn lemma_field_count(props: Seq<Property>, table: Seq<(String, String)>)
    requires
        fields_outcome(props, table).result is Ok,
    ensures
        fields_outcome(props, table).result->Ok_0.len() + dropped_count(props, table)
            == props.len(),
    decreases props.len(),
{
    if props.len() > 0 {
        lemma_field_count(props.drop_last(), table);
    }
}

/// Where only string literal types are dropped, the dropped properties
/// are the string literal ones.
pub proof fn lemma_dropped_are_literals(props: Seq<Property>, table: Seq<(String, String)>)
    requires
        forall|k: int|
            0 <= k < props.len() && is_dropped(#[trigger] props[k], table)
                ==> props[k].type_ is StringLiteral,
    ensures
        dropped_count(props, table) == string_literal_count(props),
    decreases props.len(),
{
    if props.len() > 0 {
        let front = props.drop_last();
        assert forall|k: int| 0 <= k < front.len() && is_dropped(
            #[trigger] front[k],
            table,
        ) implies front[k].type_ is StringLiteral by {
            assert(front[k] == props[k]);
        }
        lemma_dropped_are_literals(front, table);
        assert(props.last() == props[props.len() - 1]);
    }
}

/// Whether one of the first `n` structures is called `name` and has the
/// directive to be generated.
pub open spec fn generated_among(
    structures: Seq<Structure>,
    config: Config,
    n: int,
    name: Seq<char>,
) -> bool {
    exists|i: int|
        0 <= i < n && #[trigger] is_generated_at(structures, config, i, name)
}

/// Whether the structure at `i` is called `name` and has the directive to
/// be generated.
pub open spec fn is_generated_at(
    structures: Seq<Structure>,
    config: Config,
    i: int,
    name: Seq<char>,
) -> bool {
    structures[i].name@ == name && structure_directive(structures, config.structs@, i) matches Some(
        CodegenOptionView::Generate(_),
    )
}

/// The pass over structures appends one declaration under a name exactly
/// where a structure of that name has the directive to be generated.
proof fn lemma_structures_pass_count(
    structures: Seq<Structure>,
    config: Config,
    n: int,
    start: TranslationView,
    name: Seq<char>,
)
    requires
        0 <= n <= structures.len(),
        structures_pass(structures, config, n, start) is Ok,
    ensures
        structs_named(structures_pass(structures, config, n, start)->Ok_0.items, name)
            == structs_named(start.items, name) + if generated_among(
            structures,
            config,
            n,
            name,
        ) {
            1nat
        } else {
            0nat
        },
    decreases n,
{
    if n > 0 {
        let i = n - 1;
        lemma_structures_pass_count(structures, config, i, start, name);
        let before = structures_pass(structures, config, i, start)->Ok_0;
        let after = structures_pass(structures, config, n, start)->Ok_0;
        let s = structures[i];
        let directive = structure_directive(structures, config.structs@, i);
        if directive matches Some(CodegenOptionView::Generate(_)) {
            let decl = structure_outcome(s, config.anon_mappings@).result->Ok_0;
            assert(after.items == before.items.push(ItemView::Struct(decl)));
            assert(after.items.drop_last() == before.items);
            assert(decl.name == s.name@);
            if s.name@ == name {
                assert(is_generated_at(structures, config, i, name));
                if generated_among(structures, config, i, name) {
                    let j = choose|j: int|
                        0 <= j < i && #[trigger] is_generated_at(structures, config, j, name);
                    assert(structures[j].name@ == structures[i].name@);
                    assert(structure_seen_before(structures, i));
                }
            } else {
                if generated_among(structures, config, n, name) {
                    let j = choose|j: int|
                        0 <= j < n && #[trigger] is_generated_at(structures, config, j, name);
                    assert(j < i);
                }
                if generated_among(structures, config, i, name) {
                    let j = choose|j: int|
                        0 <= j < i && #[trigger] is_generated_at(structures, config, j, name);
                    assert(is_generated_at(structures, config, j, name));
                }
            }
        } else {
            assert(after.items == before.items);
            if generated_among(structures, config, n, name) {
                let j = choose|j: int|
                    0 <= j < n && #[trigger] is_generated_at(structures, config, j, name);
                assert(j < i);
            }
            if generated_among(structures, config, i, name) {
                let j = choose|j: int|
                    0 <= j < i && #[trigger] is_generated_at(structures, config, j, name);
                assert(is_generated_at(structures, config, j, name));
            }
        }
    }
}

/// The pass over enumerations appends no declaration of a struct.
proof fn lemma_enumerations_pass_count(
    enumerations: Seq<Enumeration>,
    config: Config,
    n: int,
    start: TranslationView,
    name: Seq<char>,
)
    requires
        0 <= n <= enumerations.len(),
        enumerations_pass(enumerations, config, n, start) is Ok,
    ensures
        structs_named(enumerations_pass(enumerations, config, n, start)->Ok_0.items, name)
            == structs_named(start.items, name),
    decreases n,
{
    if n > 0 {
        lemma_enumerations_pass_count(enumerations, config, n - 1, start, name);
        let before = enumerations_pass(enumerations, config, n - 1, start)->Ok_0;
        let after = enumerations_pass(enumerations, config, n, start)->Ok_0;
        if after.items != before.items {
            assert(after.items.drop_last() == before.items);
        }
    }
}

/// A pass over structures keeps the declarations that it has made.
proof fn lemma_structures_pass_keeps(
    structures: Seq<Structure>,
    config: Config,
    n: int,
    m: int,
    start: TranslationView,
)
    requires
        0 <= n <= m <= structures.len(),
        structures_pass(structures, config, m, start) is Ok,
    ensures
        structures_pass(structures, config, n, start) is Ok,
        structures_pass(structures, config, n, start)->Ok_0.items.is_prefix_of(
            structures_pass(structures, config, m, start)->Ok_0.items,
        ),
    decreases m - n,
{
    if n < m {
        lemma_structures_pass_keeps(structures, config, n, m - 1, start);
    }
}

/// A pass over enumerations keeps the declarations that it began with.
proof fn lemma_enumerations_pass_keeps(
    enumerations: Seq<Enumeration>,
    config: Config,
    n: int,
    start: TranslationView,
)
    requires
        0 <= n <= enumerations.len(),
        enumerations_pass(enumerations, config, n, start) is Ok,
    ensures
        start.items.is_prefix_of(enumerations_pass(enumerations, config, n, start)->Ok_0.items),
    decreases n,
{
    if n > 0 {
        lemma_enumerations_pass_keeps(enumerations, config, n - 1, start);
    }
}

/// Every structure has the name of a structure that no earlier one is
/// named like, at its place or before it.
proof fn lemma_first_of_name(structures: Seq<Structure>, i: int) -> (first: int)
    requires
        0 <= i < structures.len(),
    ensures
        0 <= first <= i,
        structures[first].name@ == structures[i].name@,
        !structure_seen_before(structures, first),
    decreases i,
{
    if structure_seen_before(structures, i) {
        let j = choose|j: int| 0 <= j < i && (#[trigger] structures[j]).name@ == structures[i].name@;
        lemma_first_of_name(structures, j)
    } else {
        i
    }
}

/// A structure that the config marks to be generated has exactly one
/// declaration in the result of a pass that succeeds, whichever flag the
/// mark holds. Where no earlier structure has its name, that declaration
/// is its own, and its fields are as many as its properties less those
/// whose type is dropped; where only string literal types are dropped,
/// that is the number of properties less the string literal ones.
pub proof fn law_generated_once(model: MetaModel, config: Config, i: int)
    requires
        0 <= i < model.structures@.len(),
        schema_outcome(model, config) is Ok,
        option_of(config.structs@, model.structures@[i].name@) matches Some(
            CodegenOptionView::Generate(_),
        ),
    ensures
        structs_named(schema_outcome(model, config)->Ok_0.items, model.structures@[i].name@) == 1,
        !structure_seen_before(model.structures@, i) ==> {
            let s = model.structures@[i];
            let outcome = structure_outcome(s, config.anon_mappings@).result;
            &&& outcome is Ok
            &&& schema_outcome(model, config)->Ok_0.items.contains(ItemView::Struct(outcome->Ok_0))
            &&& outcome->Ok_0.fields.len() == s.properties@.len() - dropped_count(
                s.properties@,
                config.anon_mappings@,
            )
            &&& (forall|k: int|
                0 <= k < s.properties@.len() && is_dropped(
                    #[trigger] s.properties@[k],
                    config.anon_mappings@,
                ) ==> s.properties@[k].type_ is StringLiteral) ==> outcome->Ok_0.fields.len()
                == s.properties@.len() - string_literal_count(s.properties@)
        },
{
    let structures = model.structures@;
    let n = structures.len() as int;
    let name = structures[i].name@;
    let start = empty_translation();
    let middle = structures_pass(structures, config, n, start)->Ok_0;
    let out = schema_outcome(model, config)->Ok_0;
    let first = lemma_first_of_name(structures, i);
    assert(is_generated_at(structures, config, first, name));
    lemma_structures_pass_count(structures, config, n, start, name);
    lemma_enumerations_pass_count(
        model.enumerations@,
        config,
        model.enumerations@.len() as int,
        middle,
        name,
    );
    if !structure_seen_before(structures, i) {
        let s = structures[i];
        let table = config.anon_mappings@;
        lemma_structures_pass_keeps(structures, config, i + 1, n, start);
        lemma_structures_pass_keeps(structures, config, i, i + 1, start);
        let before = structures_pass(structures, config, i, start)->Ok_0;
        let after = structures_pass(structures, config, i + 1, start)->Ok_0;
        let outcome = structure_outcome(s, table).result;
        assert(outcome is Ok);
        let item = ItemView::Struct(outcome->Ok_0);
        assert(after.items == before.items.push(item));
        assert(after.items[before.items.len() as int] == item);
        lemma_enumerations_pass_keeps(
            model.enumerations@,
            config,
            model.enumerations@.len() as int,
            middle,
        );
        assert(out.items[before.items.len() as int] == item);
        lemma_field_count(s.properties@, table);
        if forall|k: int|
            0 <= k < s.properties@.len() && is_dropped(#[trigger] s.properties@[k], table)
                ==> s.properties@[k].type_ is StringLiteral {
            lemma_dropped_are_literals(s.properties@, table);
        }
    }
}

/// Two results of translating the same meta-model under the same config
/// have the same value: the same declarations in the same order, and the
/// same diagnostics.
pub proof fn law_idempotent(
    model: MetaModel,
    config: Config,
    first: Result<Translation, TranslateError>,
    second: Result<Translation, TranslateError>,
)
    requires
        result_view(first) == schema_outcome(model, config),
        result_view(second) == schema_outcome(model, config),
    ensures
        result_view(first) == result_view(second),
{
}

/// The drift that a structure is reported with.
pub open spec fn structure_drift(s: Structure, expected: Seq<char>) -> DriftView {
    DriftView {
        kind: EntityKind::Structure,
        name: s.name@,
        expected,
        actual: structure_fingerprint(s),
    }
}

/// Whether `d` reports the structure at `i`: the structure is frozen by a
/// checksum that its fingerprint differs from.
pub open spec fn is_drift_at(structures: Seq<Structure>, config: Config, i: int, d: DriftView) -> bool {
    &&& structure_directive(structures, config.structs@, i) == Some(
        CodegenOptionView::Checksum(d.expected),
    )
    &&& d == structure_drift(structures[i], d.expected)
    &&& structure_fingerprint(structures[i]) != d.expected
}

/// The drifts of a pass over structures are those that it began with and
/// one for each frozen structure whose fingerprint differs.
proof fn lemma_structures_pass_drift(
    structures: Seq<Structure>,
    config: Config,
    n: int,
    start: TranslationView,
)
    requires
        0 <= n <= structures.len(),
        structures_pass(structures, config, n, start) is Ok,
    ensures
        forall|d: DriftView|
            #![trigger structures_pass(structures, config, n, start)->Ok_0.drifted.contains(d)]
            structures_pass(structures, config, n, start)->Ok_0.drifted.contains(d) <==> (
            start.drifted.contains(d) || exists|i: int|
                0 <= i < n && #[trigger] is_drift_at(structures, config, i, d)),
    decreases n,
{
    let after = structures_pass(structures, config, n, start)->Ok_0;
    if n > 0 {
        let i = n - 1;
        lemma_structures_pass_drift(structures, config, i, start);
        let before = structures_pass(structures, config, i, start)->Ok_0;
        let s = structures[i];
        assert forall|d: DriftView| #![trigger after.drifted.contains(d)]
            after.drifted.contains(d) <==> (start.drifted.contains(d) || exists|k: int|
                0 <= k < n && #[trigger] is_drift_at(structures, config, k, d)) by {
            if after.drifted.contains(d) {
                if before.drifted.contains(d) {
                    if !start.drifted.contains(d) {
                        let k = choose|k: int|
                            0 <= k < i && #[trigger] is_drift_at(structures, config, k, d);
                        assert(is_drift_at(structures, config, k, d));
                    }
                } else {
                    let at = choose|at: int| 0 <= at < after.drifted.len() && after.drifted[at] == d;
                    assert(after.drifted != before.drifted);
                    if at < before.drifted.len() {
                        assert(before.drifted[at] == d);
                    }
                    assert(is_drift_at(structures, config, i, d));
                }
            }
            if start.drifted.contains(d) {
                assert(before.drifted.contains(d));
                let at = choose|at: int| 0 <= at < before.drifted.len() && before.drifted[at] == d;
                assert(after.drifted[at] == d);
            }
            if exists|k: int| 0 <= k < n && #[trigger] is_drift_at(structures, config, k, d) {
                let k = choose|k: int|
                    0 <= k < n && #[trigger] is_drift_at(structures, config, k, d);
                if k < i {
                    assert(before.drifted.contains(d));
                    let at = choose|at: int|
                        0 <= at < before.drifted.len() && before.drifted[at] == d;
                    assert(after.drifted[at] == d);
                } else {
                    assert(after.drifted == before.drifted.push(d));
                    assert(after.drifted[before.drifted.len() as int] == d);
                }
            }
        }
    }
}

/// The pass over enumerations keeps the drifts that it began with and
/// adds none of a structure.
proof fn lemma_enumerations_pass_drift(
    enumerations: Seq<Enumeration>,
    config: Config,
    n: int,
    start: TranslationView,
)
    requires
        0 <= n <= enumerations.len(),
        enumerations_pass(enumerations, config, n, start) is Ok,
    ensures
        forall|d: DriftView|
            #![trigger enumerations_pass(enumerations, config, n, start)->Ok_0.drifted.contains(d)]
            d.kind == EntityKind::Structure ==> (enumerations_pass(
                enumerations,
                config,
                n,
                start,
            )->Ok_0.drifted.contains(d) <==> start.drifted.contains(d)),
    decreases n,
{
    let after = enumerations_pass(enumerations, config, n, start)->Ok_0;
    if n > 0 {
        lemma_enumerations_pass_drift(enumerations, config, n - 1, start);
        let before = enumerations_pass(enumerations, config, n - 1, start)->Ok_0;
        assert forall|d: DriftView| #![trigger after.drifted.contains(d)]
            d.kind == EntityKind::Structure implies (after.drifted.contains(d)
            <==> start.drifted.contains(d)) by {
            if after.drifted.contains(d) {
                let at = choose|at: int| 0 <= at < after.drifted.len() && after.drifted[at] == d;
                if at < before.drifted.len() {
                    assert(before.drifted[at] == d);
                }
                assert(before.drifted.contains(d));
            }
            if start.drifted.contains(d) {
                assert(before.drifted.contains(d));
                let at = choose|at: int| 0 <= at < before.drifted.len() && before.drifted[at] == d;
                assert(after.drifted[at] == d);
            }
        }
    }
}

/// A structure that the config freezes by a checksum has no declaration
/// in the result of a pass that succeeds. It is reported as drifted if its
/// fingerprint differs from the checksum, with both texts, and is not
/// reported if the two are the same.
pub proof fn law_checksum(model: MetaModel, config: Config, i: int, expected: Seq<char>)
    requires
        0 <= i < model.structures@.len(),
        schema_outcome(model, config) is Ok,
        structure_directive(model.structures@, config.structs@, i) == Some(
            CodegenOptionView::Checksum(expected),
        ),
    ensures
        structs_named(schema_outcome(model, config)->Ok_0.items, model.structures@[i].name@) == 0,
        structure_fingerprint(model.structures@[i]) != expected ==> schema_outcome(
            model,
            config,
        )->Ok_0.drifted.contains(structure_drift(model.structures@[i], expected)),
        structure_fingerprint(model.structures@[i]) == expected ==> forall|d: DriftView|
            #![trigger schema_outcome(model, config)->Ok_0.drifted.contains(d)]
            schema_outcome(model, config)->Ok_0.drifted.contains(d) ==> !(d.kind
                == EntityKind::Structure && d.name == model.structures@[i].name@),
{
    let structures = model.structures@;
    let n = structures.len() as int;
    let name = structures[i].name@;
    let start = empty_translation();
    let middle = structures_pass(structures, config, n, start)->Ok_0;
    let out = schema_outcome(model, config)->Ok_0;
    let m = model.enumerations@.len() as int;
    assert forall|j: int| 0 <= j < n implies !#[trigger] is_generated_at(
        structures,
        config,
        j,
        name,
    ) by {
        if structures[j].name@ == name && j != i {
            if j < i {
                assert(structure_seen_before(structures, i));
            } else {
                assert(structures[i].name@ == structures[j].name@);
                assert(structure_seen_before(structures, j));
            }
        }
    }
    lemma_structures_pass_count(structures, config, n, start, name);
    lemma_enumerations_pass_count(model.enumerations@, config, m, middle, name);
    lemma_structures_pass_drift(structures, config, n, start);
    lemma_enumerations_pass_drift(model.enumerations@, config, m, middle);
    let own = structure_drift(structures[i], expected);
    if structure_fingerprint(structures[i]) != expected {
        assert(is_drift_at(structures, config, i, own));
        assert(middle.drifted.contains(own));
        assert(out.drifted.contains(own));
    } else {
        assert forall|d: DriftView| #![trigger out.drifted.contains(d)]
            out.drifted.contains(d) implies !(d.kind == EntityKind::Structure && d.name
            == name) by {
            if d.kind == EntityKind::Structure && d.name == name {
                assert(middle.drifted.contains(d));
                let j = choose|j: int|
                    0 <= j < n && #[trigger] is_drift_at(structures, config, j, d);
                assert(structures[j].name@ == name);
                if j < i {
                    assert(structure_seen_before(structures, i));
                } else if j > i {
                    assert(structures[i].name@ == structures[j].name@);
                    assert(structure_seen_before(structures, j));
                }
            }
        }
    }
}

/// A structure that is changed at any place has other canonical bytes.
pub proof fn law_change_shows_in_bytes(before: Structure, after: Structure)
    requires
        !same_structure(before, after),
    ensures
        structure_bytes(before) != structure_bytes(after),
{
    if structure_bytes(before) == structure_bytes(after) {
        lemma_structure_bytes_tell_apart(before, after);
    }
}

/// A structure that the config froze in another state is reported as
/// drifted, as long as the hash tells the canonical bytes of the two
/// states apart: the config holds the fingerprint of `frozen`, and the
/// structure of the meta-model is what became of it.
pub proof fn law_changed_structure_drifts(
    model: MetaModel,
    config: Config,
    i: int,
    frozen: Structure,
)
    requires
        0 <= i < model.structures@.len(),
        schema_outcome(model, config) is Ok,
        structure_directive(model.structures@, config.structs@, i) == Some(
            CodegenOptionView::Checksum(structure_fingerprint(frozen)),
        ),
        xx_hash32(structure_bytes(model.structures@[i])) != xx_hash32(structure_bytes(frozen)),
    ensures
        structure_fingerprint(model.structures@[i]) != structure_fingerprint(frozen),
        schema_outcome(model, config)->Ok_0.drifted.contains(
            structure_drift(model.structures@[i], structure_fingerprint(frozen)),
        ),
{
    lemma_fingerprint_is_hash(model.structures@[i], frozen);
    law_checksum(model, config, i, structure_fingerprint(frozen));
}

/// The text of a tuple is not the text of a generic instantiation, unless
/// the name of the generic type begins with a round bracket.
pub proof fn law_tuple_is_no_generic(
    elements: Seq<Seq<char>>,
    name: Seq<char>,
    args: Seq<Seq<char>>,
)
    requires
        name.len() == 0 || name[0] != '(',
    ensures
        tuple_text(elements) != generic_text(name, args),
{
    assert(tuple_text(elements)[0] == '(');
    if name.len() == 0 {
        assert(generic_text(name, args)[0] == '<');
    } else {
        assert(generic_text(name, args)[0] == name[0]);
    }
}

/// A name that holds no bracket is the text of no generic instantiation
/// and of no tuple.
pub proof fn law_name_is_no_composite(
    name: Seq<char>,
    generic: Seq<char>,
    args: Seq<Seq<char>>,
    elements: Seq<Seq<char>>,
)
    requires
        !name.contains('<'),
        !name.contains('('),
    ensures
        name != generic_text(generic, args),
        name != tuple_text(elements),
{
    assert(generic_text(generic, args)[generic.len() as int] == '<');
    assert(tuple_text(elements)[0] == '(');
}

/// Two generic instantiations with the same text have the same name and
/// the same arguments between the brackets, where neither name holds an
/// angle bracket.
pub proof fn law_generic_name(
    first: Seq<char>,
    first_args: Seq<Seq<char>>,
    second: Seq<char>,
    second_args: Seq<Seq<char>>,
)
    requires
        !first.contains('<'),
        !second.contains('<'),
        generic_text(first, first_args) == generic_text(second, second_args),
    ensures
        first == second,
        join(first_args, seq![',']) == join(second_args, seq![',']),
{
    let a = generic_text(first, first_args);
    let b = generic_text(second, second_args);
    let x = join(first_args, seq![',']);
    let y = join(second_args, seq![',']);
    assert(a[first.len() as int] == '<');
    assert(b[second.len() as int] == '<');
    if first.len() < second.len() {
        assert(b[first.len() as int] == second[first.len() as int]);
        assert(second.contains('<'));
    }
    if second.len() < first.len() {
        assert(a[second.len() as int] == first[second.len() as int]);
        assert(first.contains('<'));
    }
    assert forall|i: int| 0 <= i < first.len() implies first[i] == second[i] by {
        assert(a[i] == first[i]);
        assert(b[i] == second[i]);
    }
    assert(first =~= second);
    assert(a.len() == first.len() + 1 + x.len() + 1);
    assert(b.len() == second.len() + 1 + y.len() + 1);
    assert forall|i: int| 0 <= i < x.len() implies x[i] == y[i] by {
        assert(a[first.len() + 1 + i] == x[i]);
        assert(b[second.len() + 1 + i] == y[i]);
    }
    assert(x =~= y);
}

/// Whether every declaration of a list is one of a struct.
pub open spec fn all_structs(items: Seq<ItemView>) -> bool {
    forall|i: int| 0 <= i < items.len() ==> (#[trigger] items[i]) is Struct
}

/// A pass over structures that begins with declarations of structs only
/// ends with such only.
proof fn lemma_structures_pass_structs(
    structures: Seq<Structure>,
    config: Config,
    n: int,
    start: TranslationView,
)
    requires
        all_structs(start.items),
        structures_pass(structures, config, n, start) is Ok,
    ensures
        all_structs(structures_pass(structures, config, n, start)->Ok_0.items),
    decreases n,
{
    if n > 0 {
        lemma_structures_pass_structs(structures, config, n - 1, start);
    }
}

/// A pass over enumerations appends declarations of enums only.
proof fn lemma_enumerations_pass_enums(
    enumerations: Seq<Enumeration>,
    config: Config,
    n: int,
    start: TranslationView,
)
    requires
        enumerations_pass(enumerations, config, n, start) is Ok,
    ensures
        start.items.is_prefix_of(enumerations_pass(enumerations, config, n, start)->Ok_0.items),
        forall|i: int|
            start.items.len() <= i < enumerations_pass(
                enumerations,
                config,
                n,
                start,
            )->Ok_0.items.len() ==> (#[trigger] enumerations_pass(
                enumerations,
                config,
                n,
                start,
            )->Ok_0.items[i]) is Enum,
    decreases n,
{
    if n > 0 {
        lemma_enumerations_pass_enums(enumerations, config, n - 1, start);
    }
}

/// In the result of a pass the declarations of structs stand before those
/// of enums, and there are no others.
pub proof fn law_structs_before_enums(model: MetaModel, config: Config, i: int, j: int)
    requires
        schema_outcome(model, config) is Ok,
        0 <= i <= j < schema_outcome(model, config)->Ok_0.items.len(),
    ensures
        schema_outcome(model, config)->Ok_0.items[i] is Struct || schema_outcome(
            model,
            config,
        )->Ok_0.items[i] is Enum,
        schema_outcome(model, config)->Ok_0.items[i] is Enum ==> schema_outcome(
            model,
            config,
        )->Ok_0.items[j] is Enum,
{
    let start = empty_translation();
    let n = model.structures@.len() as int;
    let middle = structures_pass(model.structures@, config, n, start)->Ok_0;
    lemma_structures_pass_structs(model.structures@, config, n, start);
    lemma_enumerations_pass_enums(
        model.enumerations@,
        config,
        model.enumerations@.len() as int,
        middle,
    );
    let out = schema_outcome(model, config)->Ok_0;
    if i < middle.items.len() {
        assert(out.items[i] == middle.items[i]);
    }
    if j < middle.items.len() {
        assert(out.items[j] == middle.items[j]);
    }
}

} // verus!
