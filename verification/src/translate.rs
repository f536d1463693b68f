//! The translator: from the schema model and the config model to the
//! declarations of the target model, with the diagnostics of the pass.

use vstd::prelude::*;
use vstd::string::*;
use crate::config::{
    anon_lookup, borrowed, find_option, option_of, CodegenOption, CodegenOptionView, Config,
};
use crate::fingerprint::{enumeration_fingerprint, structure_fingerprint};
use crate::schema::{
    reference_text, BaseType, Enumeration, EnumerationEntry, EnumerationType, EnumerationTypeKind,
    MetaModel, Property, Structure, Type,
};
use crate::target::{
    generic_text, item_views, parse_version, ref_texts, Enum, EnumVariants, EnumVariantsView,
    EnumView, Item, ItemView, Struct, StructFields, StructFieldsView, StructView, TypeRef,
    Version, VersionError,
};
use crate::text::{
    clone_opt, insert_unique, lemma_record_all_add, lemma_record_all_sorted, lemma_record_sorted,
    opt_text, record, record_all, sorted, texts,
};

verus! {

/// Why a type has no translation at all.
#[derive(Debug, Clone, Copy, PartialEq, Eq, Structural)]
pub enum TypeError {
    /// The primitive `RegExp`, which no target type stands for.
    RegExp,
    /// The primitive `Null` outside the second arm of a two-armed union.
    Null,
    /// A tuple.
    Tuple,
    /// An inline structure that is not dropped as an empty union arm.
    Literal,
    /// An integer literal type.
    IntegerLiteral,
    /// A boolean literal type.
    BooleanLiteral,
    /// A union with an arm that does not collapse to a reference, so that
    /// no table of names can resolve it.
    UndecidableUnion,
}

/// What translating one type gives: the text of the target type, `None`
/// for a type that is dropped, or the error; and the keys of the anonymous
/// unions that the table lacks, in the order in which they were met.
pub struct TypeOutcome {
    pub result: Result<Option<Seq<char>>, TypeError>,
    pub missing: Seq<Seq<char>>,
}

/// The target type of a primitive.
pub open spec fn base_target(name: BaseType) -> Result<Option<Seq<char>>, TypeError> {
    match name {
        BaseType::Uri => Ok(Some("crate::Uri"@)),
        BaseType::DocumentUri => Ok(Some("crate::DocumentUri"@)),
        BaseType::Integer => Ok(Some("i64"@)),
        BaseType::Uinteger => Ok(Some("u32"@)),
        BaseType::Decimal => Ok(Some("f32"@)),
        BaseType::RegExp => Err(TypeError::RegExp),
        BaseType::String => Ok(Some("String"@)),
        BaseType::Boolean => Ok(Some("bool"@)),
        BaseType::Null => Err(TypeError::Null),
    }
}

/// Whether a union arm is the inline structure without properties.
pub open spec fn is_empty_literal(t: Type) -> bool {
    t matches Type::Literal { value } && value.properties@.len() == 0
}

/// Whether a type is the primitive `Null`.
pub open spec fn is_null(t: Type) -> bool {
    t matches Type::Base { name } && name == BaseType::Null
}

/// The arms of a union without those that are empty inline structures.
pub open spec fn kept_arms(items: Seq<Type>) -> Seq<Type>
    decreases items.len(),
{
    if items.len() == 0 {
        Seq::empty()
    } else if is_empty_literal(items.last()) {
        kept_arms(items.drop_last())
    } else {
        kept_arms(items.drop_last()).push(items.last())
    }
}

/// The text that stands where the table lacks the key of a union.
pub open spec fn placeholder_text() -> Seq<char> {
    "todo!()"@
}

/// `inner` as the single argument of the generic type `name`; a dropped
/// type and an error pass through.
pub open spec fn wrapped(name: Seq<char>, inner: Result<Option<Seq<char>>, TypeError>) -> Result<
    Option<Seq<char>>,
    TypeError,
> {
    match inner {
        Ok(Some(text)) => Ok(Some(generic_text(name, seq![text]))),
        other => other,
    }
}

/// What a union gives that is resolved by the table of anonymous unions:
/// the configured type; or, where the table lacks the key, the placeholder
/// with the key recorded; or the error, where the arms form no key.
pub open spec fn named_union_outcome(arms: Seq<Type>, table: Seq<(String, String)>) -> TypeOutcome {
    match anon_lookup(table, arms) {
        Ok(name) => TypeOutcome { result: Ok(Some(name)), missing: Seq::empty() },
        Err(None) => TypeOutcome {
            result: Err(TypeError::UndecidableUnion),
            missing: Seq::empty(),
        },
        Err(Some(key)) => TypeOutcome {
            result: Ok(Some(placeholder_text())),
            missing: seq![key],
        },
    }
}

/// Every kept arm is one of the arms.
pub proof fn lemma_kept_arm_is_arm(items: Seq<Type>, k: int)
    requires
        0 <= k < kept_arms(items).len(),
    ensures
        exists|j: int| 0 <= j < items.len() && items[j] == kept_arms(items)[k],
    decreases items.len(),
{
    if items.len() > 0 {
        let front = items.drop_last();
        if k < kept_arms(front).len() {
            lemma_kept_arm_is_arm(front, k);
            let j = choose|j: int| 0 <= j < front.len() && front[j] == kept_arms(front)[k];
            assert(items[j] == kept_arms(items)[k]);
        } else {
            assert(items[items.len() - 1] == kept_arms(items)[k]);
        }
    }
}

/// What translating `t` gives under the table of anonymous unions.
///
/// A primitive has its fixed target type; a named reference passes through
/// unresolved; an array is `Vec` of its element and a map
/// `std::collections::HashMap` of its key and value, each dropped where a
/// part is dropped. Of a union the empty inline structures are left out
/// first: a single arm that remains stands for the union; two arms of
/// which the second is `Null` give `Option` of the first; every other
/// union is looked up in the table, and where the table lacks its key the
/// placeholder stands and the key is recorded. A string literal type is
/// dropped; tuples, inline structures and the other literal types fail.
pub open spec fn type_outcome(t: Type, table: Seq<(String, String)>) -> TypeOutcome
    decreases t,
    via type_outcome_decreases
{
    match t {
        Type::Base { name } => TypeOutcome { result: base_target(name), missing: Seq::empty() },
        Type::Reference { name } => TypeOutcome {
            result: Ok(Some(name@)),
            missing: Seq::empty(),
        },
        Type::Array { element } => {
            let inner = type_outcome(*element, table);
            TypeOutcome { result: wrapped("Vec"@, inner.result), missing: inner.missing }
        },
        Type::Mapping { key, value } => {
            let k = type_outcome(*key, table);
            match k.result {
                Ok(Some(key_text)) => {
                    let v = type_outcome(*value, table);
                    TypeOutcome {
                        result: match v.result {
                            Ok(Some(value_text)) => Ok(
                                Some(
                                    generic_text(
                                        "std::collections::HashMap"@,
                                        seq![key_text, value_text],
                                    ),
                                ),
                            ),
                            other => other,
                        },
                        missing: k.missing + v.missing,
                    }
                },
                _ => k,
            }
        },
        Type::Or { items } => {
            let kept = kept_arms(items@);
            if kept.len() == 1 {
                type_outcome(kept[0], table)
            } else if kept.len() == 2 && is_null(kept[1]) {
                let inner = type_outcome(kept[0], table);
                TypeOutcome { result: wrapped("Option"@, inner.result), missing: inner.missing }
            } else {
                named_union_outcome(kept, table)
            }
        },
        Type::Tuple { items } => TypeOutcome {
            result: Err(TypeError::Tuple),
            missing: Seq::empty(),
        },
        Type::Literal { value } => TypeOutcome {
            result: Err(TypeError::Literal),
            missing: Seq::empty(),
        },
        Type::StringLiteral { value } => TypeOutcome { result: Ok(None), missing: Seq::empty() },
        Type::IntegerLiteral { value } => TypeOutcome {
            result: Err(TypeError::IntegerLiteral),
            missing: Seq::empty(),
        },
        Type::BooleanLiteral { value } => TypeOutcome {
            result: Err(TypeError::BooleanLiteral),
            missing: Seq::empty(),
        },
    }
}

#[via_fn]
proof fn type_outcome_decreases(t: Type, table: Seq<(String, String)>) {
    match t {
        Type::Or { items } => {
            let kept = kept_arms(items@);
            if kept.len() >= 1 {
                lemma_kept_arm_is_arm(items@, 0);
                let j = choose|j: int| 0 <= j < items@.len() && items@[j] == kept[0];
                assert(decreases_to!(t => items@[j]));
            }
        },
        _ => {},
    }
}

/// The state of one pass: the config that is consulted and the names that
/// were found missing so far. A list that is sorted when a pass begins
/// stays sorted, and so free of repetitions.
pub struct Translator<'a> {
    pub config: &'a Config,
    pub structs_missing: Vec<String>,
    pub enums_missing: Vec<String>,
    pub anon_missing: Vec<String>,
    /// The entities whose fingerprint is not the one that the config froze.
    pub drifted: Vec<Drift>,
}

/// The two kinds of entity that a config names.
#[derive(Debug, Clone, Copy, PartialEq, Eq, Structural)]
pub enum EntityKind {
    Structure,
    Enumeration,
}

/// An entity that changed since its checksum was frozen in the config.
#[derive(Debug, Clone, PartialEq, Eq)]
pub struct Drift {
    pub kind: EntityKind,
    pub name: String,
    /// The checksum that the config holds.
    pub expected: String,
    /// The fingerprint that the entity has now.
    pub actual: String,
}

/// The mathematical value of a `Drift`.
pub struct DriftView {
    pub kind: EntityKind,
    pub name: Seq<char>,
    pub expected: Seq<char>,
    pub actual: Seq<char>,
}

impl View for Drift {
    type V = DriftView;

    open spec fn view(&self) -> DriftView {
        DriftView {
            kind: self.kind,
            name: self.name@,
            expected: self.expected@,
            actual: self.actual@,
        }
    }
}

/// Whether the result `r` has the value `expected`.
pub open spec fn type_result_is(
    r: Result<Option<TypeRef>, TypeError>,
    expected: Result<Option<Seq<char>>, TypeError>,
) -> bool {
    match expected {
        Ok(Some(text)) => r is Ok && r->Ok_0 is Some && r->Ok_0->0@ == text,
        Ok(None) => r is Ok && r->Ok_0 is None,
        Err(e) => r is Err && r->Err_0 == e,
    }
}

fn base_type(name: &BaseType) -> (r: Result<Option<TypeRef>, TypeError>)
    ensures
        type_result_is(r, base_target(*name)),
{
    match name {
        BaseType::Uri => Ok(Some(TypeRef::new("crate::Uri"))),
        BaseType::DocumentUri => Ok(Some(TypeRef::new("crate::DocumentUri"))),
        BaseType::Integer => Ok(Some(TypeRef::new("i64"))),
        BaseType::Uinteger => Ok(Some(TypeRef::new("u32"))),
        BaseType::Decimal => Ok(Some(TypeRef::new("f32"))),
        BaseType::RegExp => Err(TypeError::RegExp),
        BaseType::String => Ok(Some(TypeRef::new("String"))),
        BaseType::Boolean => Ok(Some(TypeRef::new("bool"))),
        BaseType::Null => Err(TypeError::Null),
    }
}

/// The arms of a union that are kept, borrowed in their order.
fn keep_arms(items: &Vec<Type>) -> (kept: Vec<&Type>)
    ensures
        borrowed(kept@) == kept_arms(items@),
{
    let mut kept: Vec<&Type> = Vec::new();
    let n = items.len();
    let mut i: usize = 0;
    proof {
        assert(items@.take(0) =~= Seq::<Type>::empty());
        assert(borrowed(kept@) =~= Seq::<Type>::empty());
    }
    while i < n
        invariant
            n == items@.len(),
            i <= n,
            borrowed(kept@) == kept_arms(items@.take(i as int)),
        decreases n - i,
    {
        proof {
            assert(items@.take(i + 1).drop_last() == items@.take(i as int));
            assert(items@.take(i + 1).last() == items@[i as int]);
        }
        let empty = match &items[i] {
            Type::Literal { value } => value.properties.len() == 0,
            _ => false,
        };
        if !empty {
            proof {
                assert(borrowed(kept@.push(&items@[i as int])) =~= borrowed(kept@).push(
                    items@[i as int],
                ));
            }
            kept.push(&items[i]);
        }
        i = i + 1;
    }
    proof {
        assert(items@.take(n as int) == items@);
    }
    kept
}

fn wrap(name: &str, inner: Option<TypeRef>) -> (r: Result<Option<TypeRef>, TypeError>)
    ensures
        type_result_is(
            r,
            wrapped(
                name@,
                Ok(
                    match inner {
                        Some(t) => Some(t@),
                        None => None,
                    },
                ),
            ),
        ),
{
    match inner {
        Some(inner) => {
            let args = vec![inner];
            assert(ref_texts(args@) =~= seq![inner@]);
            Ok(Some(TypeRef::new_generics(name, args.as_slice())))
        },
        None => Ok(None),
    }
}

impl Type {
    /// Translates the type under the config of the pass. The keys of
    /// anonymous unions that the table lacks are recorded in
    /// `anon_missing`, also those met before an error.
    pub fn translate(&self, t: &mut Translator) -> (r: Result<Option<TypeRef>, TypeError>)
        ensures
            type_result_is(r, type_outcome(*self, old(t).config.anon_mappings@).result),
            texts(final(t).anon_missing@) == record_all(
                texts(old(t).anon_missing@),
                type_outcome(*self, old(t).config.anon_mappings@).missing,
            ),
            final(t).config == old(t).config,
            final(t).structs_missing == old(t).structs_missing,
            final(t).enums_missing == old(t).enums_missing,
            final(t).drifted == old(t).drifted,
        decreases *self,
    {
        let ghost before = texts(t.anon_missing@);
        match self {
            Type::Base { name } => base_type(name),
            Type::Reference { name } => Ok(Some(TypeRef::new(name.as_str()))),
            Type::Array { element } => match element.translate(t) {
                Ok(inner) => wrap("Vec", inner),
                Err(e) => Err(e),
            },
            Type::Mapping { key, value } => {
                let ghost k = type_outcome(**key, t.config.anon_mappings@);
                let ghost v = type_outcome(**value, t.config.anon_mappings@);
                let key_ref = match key.translate(t) {
                    Ok(Some(key_ref)) => key_ref,
                    Ok(None) => {
                        return Ok(None);
                    },
                    Err(e) => {
                        return Err(e);
                    },
                };
                proof {
                    lemma_record_all_add(before, k.missing, v.missing);
                }
                match value.translate(t) {
                    Ok(Some(value_ref)) => {
                        let args = vec![key_ref, value_ref];
                        assert(ref_texts(args@) =~= seq![key_ref@, value_ref@]);
                        Ok(
                            Some(
                                TypeRef::new_generics(
                                    "std::collections::HashMap",
                                    args.as_slice(),
                                ),
                            ),
                        )
                    },
                    Ok(None) => Ok(None),
                    Err(e) => Err(e),
                }
            },
            Type::Or { items } => {
                let kept = keep_arms(items);
                proof {
                    if kept@.len() >= 1 {
                        lemma_kept_arm_is_arm(items@, 0);
                        assert(borrowed(kept@)[0] == *kept@[0]);
                    }
                    if kept@.len() >= 2 {
                        assert(borrowed(kept@)[1] == *kept@[1]);
                    }
                }
                if kept.len() == 1 {
                    return kept[0].translate(t);
                }
                let optional = kept.len() == 2 && match kept[1] {
                    Type::Base { name: BaseType::Null } => true,
                    _ => false,
                };
                if optional {
                    match kept[0].translate(t) {
                        Ok(inner) => wrap("Option", inner),
                        Err(e) => Err(e),
                    }
                } else {
                    match t.config.lookup_anon_of(&kept) {
                        Ok(named) => Ok(Some(named)),
                        Err(None) => Err(TypeError::UndecidableUnion),
                        Err(Some(key)) => {
                            proof {
                                assert(seq![key@].drop_last() =~= Seq::<Seq<char>>::empty());
                                assert(record_all(before, Seq::empty()) == before);
                                assert(record_all(before, seq![key@]) == record(before, key@));
                            }
                            insert_unique(&mut t.anon_missing, key);
                            Ok(Some(TypeRef::new("todo!()")))
                        },
                    }
                }
            },
            Type::Tuple { items } => Err(TypeError::Tuple),
            Type::Literal { value } => Err(TypeError::Literal),
            Type::StringLiteral { value } => Ok(None),
            Type::IntegerLiteral { value } => Err(TypeError::IntegerLiteral),
            Type::BooleanLiteral { value } => Err(TypeError::BooleanLiteral),
        }
    }
}

/// Why a structure has no translation.
#[derive(Debug, Clone, PartialEq, Eq)]
pub enum StructureError {
    /// The entry of `extends` at this place does not collapse to a reference.
    Extends(usize),
    /// The entry of `mixins` at this place does not collapse to a reference.
    Mixin(usize),
    /// The type of the property called `name` has no translation.
    Property { name: String, cause: TypeError },
    /// A `since` tag of the structure or of a property names no version.
    Version(VersionError),
}

/// The mathematical value of a `StructureError`.
pub enum StructureErrorView {
    Extends(int),
    Mixin(int),
    Property { name: Seq<char>, cause: TypeError },
    Version(Seq<char>),
}

impl View for StructureError {
    type V = StructureErrorView;

    open spec fn view(&self) -> StructureErrorView {
        match self {
            StructureError::Extends(i) => StructureErrorView::Extends(*i as int),
            StructureError::Mixin(i) => StructureErrorView::Mixin(*i as int),
            StructureError::Property { name, cause } => StructureErrorView::Property {
                name: name@,
                cause: *cause,
            },
            StructureError::Version(e) => StructureErrorView::Version(e.token@),
        }
    }
}

/// The names of a list of bases, or the place of the first that does not
/// collapse to a reference.
pub open spec fn base_names(bases: Seq<Type>) -> Result<Seq<Seq<char>>, int>
    decreases bases.len(),
{
    if bases.len() == 0 {
        Ok(Seq::empty())
    } else {
        match base_names(bases.drop_last()) {
            Err(i) => Err(i),
            Ok(front) => match reference_text(bases.last()) {
                Some(name) => Ok(front.push(name)),
                None => Err(bases.len() - 1),
            },
        }
    }
}

/// What translating the properties of a structure gives.
pub struct FieldsOutcome {
    pub result: Result<Seq<StructFieldsView>, StructureErrorView>,
    pub missing: Seq<Seq<char>>,
}

/// The field that a property becomes where its type translates to `ty`.
pub open spec fn field_of(p: Property, ty: Seq<char>, since: Version) -> StructFieldsView {
    StructFieldsView {
        name: p.name@,
        ty,
        doc: opt_text(p.documentation),
        since,
        deprecated: opt_text(p.deprecated),
    }
}

/// The fields of the properties in their order. A property whose type is
/// dropped gives no field; the first property whose type fails, or whose
/// `since` tag names no version, ends the translation.
pub open spec fn fields_outcome(props: Seq<Property>, table: Seq<(String, String)>) -> FieldsOutcome
    decreases props.len(),
{
    if props.len() == 0 {
        FieldsOutcome { result: Ok(Seq::empty()), missing: Seq::empty() }
    } else {
        let front = fields_outcome(props.drop_last(), table);
        match front.result {
            Err(e) => front,
            Ok(fields) => {
                let p = props.last();
                let o = type_outcome(p.type_, table);
                FieldsOutcome {
                    result: match o.result {
                        Err(e) => Err(StructureErrorView::Property { name: p.name@, cause: e }),
                        Ok(None) => Ok(fields),
                        Ok(Some(ty)) => match parse_version(opt_text(p.since)) {
                            Err(token) => Err(StructureErrorView::Version(token)),
                            Ok(since) => Ok(fields.push(field_of(p, ty, since))),
                        },
                    },
                    missing: front.missing + o.missing,
                }
            },
        }
    }
}

/// What translating a structure gives.
pub struct StructOutcome {
    pub result: Result<StructView, StructureErrorView>,
    pub missing: Seq<Seq<char>>,
}

/// The declaration of a structure: its bases are `extends` followed by
/// `mixins`, each collapsed to its name and none left out; its fields are
/// those of its properties in their order.
pub open spec fn structure_outcome(s: Structure, table: Seq<(String, String)>) -> StructOutcome {
    match (base_names(s.extends@), base_names(s.mixins@)) {
        (Err(i), _) => StructOutcome {
            result: Err(StructureErrorView::Extends(i)),
            missing: Seq::empty(),
        },
        (Ok(_), Err(i)) => StructOutcome {
            result: Err(StructureErrorView::Mixin(i)),
            missing: Seq::empty(),
        },
        (Ok(extends), Ok(mixins)) => {
            let f = fields_outcome(s.properties@, table);
            StructOutcome {
                result: match f.result {
                    Err(e) => Err(e),
                    Ok(fields) => match parse_version(opt_text(s.since)) {
                        Err(token) => Err(StructureErrorView::Version(token)),
                        Ok(since) => Ok(
                            StructView {
                                name: s.name@,
                                extends: extends + mixins,
                                fields,
                                doc: opt_text(s.documentation),
                                deprecated: opt_text(s.deprecated),
                                since,
                            },
                        ),
                    },
                },
                missing: f.missing,
            }
        },
    }
}

/// Whether the result `r` has the value `expected`.
pub open spec fn struct_result_is(
    r: Result<Struct, StructureError>,
    expected: Result<StructView, StructureErrorView>,
) -> bool {
    match expected {
        Ok(s) => r is Ok && r->Ok_0@ == s,
        Err(e) => r is Err && r->Err_0@ == e,
    }
}

/// The view of an optional string slice.
pub open spec fn opt_str_text(o: Option<&str>) -> Option<Seq<char>> {
    match o {
        Some(s) => Some(s@),
        None => None,
    }
}

fn as_opt_str(o: &Option<String>) -> (r: Option<&str>)
    ensures
        opt_str_text(r) == opt_text(*o),
{
    match o {
        Some(s) => Some(s.as_str()),
        None => None,
    }
}

/// Reads the `since` tag of an entity.
fn since_of(o: &Option<String>) -> (r: Result<Version, VersionError>)
    ensures
        match parse_version(opt_text(*o)) {
            Ok(v) => r == Ok::<Version, VersionError>(v),
            Err(token) => r is Err && r->Err_0.token@ == token,
        },
{
    let s = as_opt_str(o);
    assert(opt_text(*o) == match s {
        Some(text) => Some(text@),
        None => None,
    });
    Version::parse(s)
}

/// The names of the bases, or the place of the first that has none.
fn names_of(bases: &Vec<Type>) -> (r: Result<Vec<String>, usize>)
    ensures
        match base_names(bases@) {
            Ok(names) => r is Ok && texts(r->Ok_0@) == names,
            Err(i) => r is Err && r->Err_0 as int == i,
        },
{
    let mut names: Vec<String> = Vec::new();
    let n = bases.len();
    let mut i: usize = 0;
    proof {
        assert(bases@.take(0) =~= Seq::<Type>::empty());
        assert(texts(names@) =~= Seq::<Seq<char>>::empty());
    }
    while i < n
        invariant
            n == bases@.len(),
            i <= n,
            base_names(bases@.take(i as int)) == Ok::<Seq<Seq<char>>, int>(texts(names@)),
        decreases n - i,
    {
        proof {
            assert(bases@.take(i + 1).drop_last() == bases@.take(i as int));
            assert(bases@.take(i + 1).last() == bases@[i as int]);
        }
        match bases[i].reference() {
            Some(name) => {
                let ghost so_far = texts(names@);
                names.push(String::from_str(name.as_str()));
                proof {
                    assert(texts(names@) =~= so_far.push(name@));
                }
            },
            None => {
                proof {
                    lemma_base_names_prefix(bases@, i + 1);
                }
                return Err(i);
            },
        }
        i = i + 1;
    }
    proof {
        assert(bases@.take(n as int) == bases@);
    }
    Ok(names)
}

/// Once a prefix of the bases fails, the whole list fails at the same place.
proof fn lemma_base_names_prefix(bases: Seq<Type>, n: int)
    requires
        0 <= n <= bases.len(),
        base_names(bases.take(n)) is Err,
    ensures
        base_names(bases) == base_names(bases.take(n)),
    decreases bases.len() - n,
{
    if n < bases.len() {
        assert(bases.take(n + 1).drop_last() == bases.take(n));
        lemma_base_names_prefix(bases, n + 1);
    } else {
        assert(bases.take(n) == bases);
    }
}

impl Structure {
    /// Translates the structure into its declaration under the config of
    /// the pass. The keys of anonymous unions that the table lacks are
    /// recorded in `anon_missing`, also those met before an error.
    pub fn translate(&self, t: &mut Translator) -> (r: Result<Struct, StructureError>)
        ensures
            struct_result_is(r, structure_outcome(*self, old(t).config.anon_mappings@).result),
            texts(final(t).anon_missing@) == record_all(
                texts(old(t).anon_missing@),
                structure_outcome(*self, old(t).config.anon_mappings@).missing,
            ),
            final(t).config == old(t).config,
            final(t).structs_missing == old(t).structs_missing,
            final(t).enums_missing == old(t).enums_missing,
            final(t).drifted == old(t).drifted,
    {
        let ghost table = t.config.anon_mappings@;
        let ghost before = texts(t.anon_missing@);
        proof {
            assert(record_all(before, Seq::empty()) == before);
        }
        let mut extends = match names_of(&self.extends) {
            Ok(names) => names,
            Err(i) => {
                return Err(StructureError::Extends(i));
            },
        };
        let mut mixins = match names_of(&self.mixins) {
            Ok(names) => names,
            Err(i) => {
                return Err(StructureError::Mixin(i));
            },
        };
        let ghost extends_texts = texts(extends@);
        let ghost mixins_texts = texts(mixins@);
        extends.append(&mut mixins);
        proof {
            assert(texts(extends@) =~= extends_texts + mixins_texts);
        }
        let mut fields: Vec<StructFields> = Vec::new();
        let n = self.properties.len();
        let mut i: usize = 0;
        proof {
            assert(self.properties@.take(0) =~= Seq::<Property>::empty());
            assert(fields@.map_values(|f: StructFields| f@) =~= Seq::<StructFieldsView>::empty());
        }
        while i < n
            invariant
                n == self.properties@.len(),
                i <= n,
                table == t.config.anon_mappings@,
                before == texts(old(t).anon_missing@),
                base_names(self.extends@) is Ok,
                base_names(self.mixins@) is Ok,
                t.config == old(t).config,
                t.structs_missing == old(t).structs_missing,
                t.enums_missing == old(t).enums_missing,
                t.drifted == old(t).drifted,
                fields_outcome(self.properties@.take(i as int), table).result == Ok::<
                    Seq<StructFieldsView>,
                    StructureErrorView,
                >(fields@.map_values(|f: StructFields| f@)),
                texts(t.anon_missing@) == record_all(
                    before,
                    fields_outcome(self.properties@.take(i as int), table).missing,
                ),
            decreases n - i,
        {
            let p = &self.properties[i];
            let ghost front = fields_outcome(self.properties@.take(i as int), table);
            let ghost o = type_outcome(p.type_, table);
            let ghost now = fields_outcome(self.properties@.take(i + 1), table);
            proof {
                assert(self.properties@.take(i + 1).drop_last() == self.properties@.take(
                    i as int,
                ));
                assert(self.properties@.take(i + 1).last() == *p);
                lemma_record_all_add(before, front.missing, o.missing);
            }
            let translated = p.type_.translate(t);
            let ty = match translated {
                Err(cause) => {
                    proof {
                        lemma_fields_prefix(self.properties@, i + 1, table);
                    }
                    return Err(
                        StructureError::Property { name: p.name.clone(), cause },
                    );
                },
                Ok(None) => {
                    i = i + 1;
                    continue ;
                },
                Ok(Some(ty)) => ty,
            };
            let since = match since_of(&p.since) {
                Ok(since) => since,
                Err(e) => {
                    proof {
                        lemma_fields_prefix(self.properties@, i + 1, table);
                    }
                    return Err(StructureError::Version(e));
                },
            };
            let field = StructFields {
                name: p.name.clone(),
                ty,
                doc: clone_opt(&p.documentation),
                since,
                deprecated: clone_opt(&p.deprecated),
            };
            proof {
                assert(fields@.push(field).map_values(|f: StructFields| f@) =~= fields@.map_values(
                    |f: StructFields| f@,
                ).push(field@));
            }
            fields.push(field);
            i = i + 1;
        }
        proof {
            assert(self.properties@.take(n as int) == self.properties@);
        }
        let since = match since_of(&self.since) {
            Ok(since) => since,
            Err(e) => {
                return Err(StructureError::Version(e));
            },
        };
        Ok(
            Struct {
                name: self.name.clone(),
                extends,
                fields,
                doc: clone_opt(&self.documentation),
                deprecated: clone_opt(&self.deprecated),
                since,
            },
        )
    }
}

/// Once a prefix of the properties fails, the whole list fails alike.
proof fn lemma_fields_prefix(props: Seq<Property>, n: int, table: Seq<(String, String)>)
    requires
        0 <= n <= props.len(),
        fields_outcome(props.take(n), table).result is Err,
    ensures
        fields_outcome(props, table) == fields_outcome(props.take(n), table),
    decreases props.len() - n,
{
    if n < props.len() {
        assert(props.take(n + 1).drop_last() == props.take(n));
        lemma_fields_prefix(props, n + 1, table);
    } else {
        assert(props.take(n) == props);
    }
}

/// Why an enumeration has no translation.
#[derive(Debug, Clone, PartialEq, Eq)]
pub enum EnumerationError {
    /// The enumeration has integer values.
    IntegerKind,
    /// The enumeration has unsigned integer values.
    UintegerKind,
    /// A `since` tag of the enumeration or of an entry names no version.
    Version(VersionError),
}

/// The mathematical value of an `EnumerationError`.
pub enum EnumerationErrorView {
    IntegerKind,
    UintegerKind,
    Version(Seq<char>),
}

impl View for EnumerationError {
    type V = EnumerationErrorView;

    open spec fn view(&self) -> EnumerationErrorView {
        match self {
            EnumerationError::IntegerKind => EnumerationErrorView::IntegerKind,
            EnumerationError::UintegerKind => EnumerationErrorView::UintegerKind,
            EnumerationError::Version(e) => EnumerationErrorView::Version(e.token@),
        }
    }
}

/// The variants of the entries in their order, or the `since` token of the
/// first entry that names no version.
pub open spec fn variants_outcome(entries: Seq<EnumerationEntry>) -> Result<
    Seq<EnumVariantsView>,
    Seq<char>,
>
    decreases entries.len(),
{
    if entries.len() == 0 {
        Ok(Seq::empty())
    } else {
        match variants_outcome(entries.drop_last()) {
            Err(token) => Err(token),
            Ok(front) => {
                let e = entries.last();
                match parse_version(opt_text(e.since)) {
                    Err(token) => Err(token),
                    Ok(since) => Ok(
                        front.push(
                            EnumVariantsView {
                                name: e.name@,
                                doc: opt_text(e.documentation),
                                since,
                            },
                        ),
                    ),
                }
            },
        }
    }
}

/// The declaration of an enumeration. Only enumerations of strings have
/// one; the variants keep the order of the entries.
pub open spec fn enumeration_outcome(e: Enumeration) -> Result<EnumView, EnumerationErrorView> {
    match e.type_ {
        EnumerationType::Base { name: EnumerationTypeKind::Integer } => Err(
            EnumerationErrorView::IntegerKind,
        ),
        EnumerationType::Base { name: EnumerationTypeKind::Uinteger } => Err(
            EnumerationErrorView::UintegerKind,
        ),
        EnumerationType::Base { name: EnumerationTypeKind::String } => match variants_outcome(
            e.values@,
        ) {
            Err(token) => Err(EnumerationErrorView::Version(token)),
            Ok(variants) => match parse_version(opt_text(e.since)) {
                Err(token) => Err(EnumerationErrorView::Version(token)),
                Ok(since) => Ok(
                    EnumView {
                        name: e.name@,
                        variants,
                        doc: opt_text(e.documentation),
                        deprecated: opt_text(e.deprecated),
                        since,
                    },
                ),
            },
        },
    }
}

/// Once a prefix of the entries fails, the whole list fails alike.
proof fn lemma_variants_prefix(entries: Seq<EnumerationEntry>, n: int)
    requires
        0 <= n <= entries.len(),
        variants_outcome(entries.take(n)) is Err,
    ensures
        variants_outcome(entries) == variants_outcome(entries.take(n)),
    decreases entries.len() - n,
{
    if n < entries.len() {
        assert(entries.take(n + 1).drop_last() == entries.take(n));
        lemma_variants_prefix(entries, n + 1);
    } else {
        assert(entries.take(n) == entries);
    }
}

impl Enumeration {
    /// Translates the enumeration into its declaration.
    pub fn translate(&self) -> (r: Result<Enum, EnumerationError>)
        ensures
            match enumeration_outcome(*self) {
                Ok(e) => r is Ok && r->Ok_0@ == e,
                Err(e) => r is Err && r->Err_0@ == e,
            },
    {
        match self.type_ {
            EnumerationType::Base { name: EnumerationTypeKind::Integer } => {
                return Err(EnumerationError::IntegerKind);
            },
            EnumerationType::Base { name: EnumerationTypeKind::Uinteger } => {
                return Err(EnumerationError::UintegerKind);
            },
            EnumerationType::Base { name: EnumerationTypeKind::String } => {},
        }
        let mut variants: Vec<EnumVariants> = Vec::new();
        let n = self.values.len();
        let mut i: usize = 0;
        proof {
            assert(self.values@.take(0) =~= Seq::<EnumerationEntry>::empty());
            assert(variants@.map_values(|v: EnumVariants| v@) =~= Seq::<
                EnumVariantsView,
            >::empty());
        }
        while i < n
            invariant
                n == self.values@.len(),
                i <= n,
                self.type_ == (EnumerationType::Base { name: EnumerationTypeKind::String }),
                variants_outcome(self.values@.take(i as int)) == Ok::<
                    Seq<EnumVariantsView>,
                    Seq<char>,
                >(variants@.map_values(|v: EnumVariants| v@)),
            decreases n - i,
        {
            let e = &self.values[i];
            proof {
                assert(self.values@.take(i + 1).drop_last() == self.values@.take(i as int));
                assert(self.values@.take(i + 1).last() == *e);
            }
            let since = match since_of(&e.since) {
                Ok(since) => since,
                Err(err) => {
                    proof {
                        lemma_variants_prefix(self.values@, i + 1);
                    }
                    return Err(EnumerationError::Version(err));
                },
            };
            let variant = EnumVariants {
                name: e.name.clone(),
                doc: clone_opt(&e.documentation),
                since,
            };
            proof {
                assert(variants@.push(variant).map_values(|v: EnumVariants| v@)
                    =~= variants@.map_values(|v: EnumVariants| v@).push(variant@));
            }
            variants.push(variant);
            i = i + 1;
        }
        proof {
            assert(self.values@.take(n as int) == self.values@);
        }
        let since = match since_of(&self.since) {
            Ok(since) => since,
            Err(err) => {
                return Err(EnumerationError::Version(err));
            },
        };
        Ok(
            Enum {
                name: self.name.clone(),
                variants,
                doc: clone_opt(&self.documentation),
                deprecated: clone_opt(&self.deprecated),
                since,
            },
        )
    }
}

/// Why a pass over a meta-model was given up.
#[derive(Debug, Clone, PartialEq, Eq)]
pub enum TranslateError {
    /// The structure called `name` has no translation.
    Structure { name: String, cause: StructureError },
    /// The enumeration called `name` has no translation.
    Enumeration { name: String, cause: EnumerationError },
}

/// The mathematical value of a `TranslateError`.
pub enum TranslateErrorView {
    Structure { name: Seq<char>, cause: StructureErrorView },
    Enumeration { name: Seq<char>, cause: EnumerationErrorView },
}

impl View for TranslateError {
    type V = TranslateErrorView;

    open spec fn view(&self) -> TranslateErrorView {
        match self {
            TranslateError::Structure { name, cause } => TranslateErrorView::Structure {
                name: name@,
                cause: cause@,
            },
            TranslateError::Enumeration { name, cause } => TranslateErrorView::Enumeration {
                name: name@,
                cause: cause@,
            },
        }
    }
}

/// What a pass yields: the declarations in the order of the meta-model,
/// structures before enumerations, and the diagnostics.
#[derive(Debug, Clone, PartialEq, Eq)]
pub struct Translation {
    pub items: Vec<Item>,
    /// The structures that the config does not name.
    pub structs_missing: Vec<String>,
    /// The enumerations that the config does not name.
    pub enums_missing: Vec<String>,
    /// The keys of the anonymous unions that the config does not name.
    pub anon_missing: Vec<String>,
    /// The entities whose fingerprint is not the one that the config froze.
    pub drifted: Vec<Drift>,
}

/// The mathematical value of a `Translation`, and of a pass under way.
pub struct TranslationView {
    pub items: Seq<ItemView>,
    pub structs_missing: Seq<Seq<char>>,
    pub enums_missing: Seq<Seq<char>>,
    pub anon_missing: Seq<Seq<char>>,
    pub drifted: Seq<DriftView>,
}

impl TranslationView {
    /// Whether each list of missing names is sorted, so that no name
    /// stands twice in it.
    pub open spec fn wf(self) -> bool {
        &&& sorted(self.structs_missing)
        &&& sorted(self.enums_missing)
        &&& sorted(self.anon_missing)
    }
}

/// The value of each drift of a list.
pub open spec fn drift_views(drifted: Seq<Drift>) -> Seq<DriftView> {
    drifted.map_values(|d: Drift| d@)
}

impl View for Translation {
    type V = TranslationView;

    open spec fn view(&self) -> TranslationView {
        TranslationView {
            items: item_views(self.items@),
            structs_missing: texts(self.structs_missing@),
            enums_missing: texts(self.enums_missing@),
            anon_missing: texts(self.anon_missing@),
            drifted: drift_views(self.drifted@),
        }
    }
}

/// The pass that has not met any entity yet.
pub open spec fn empty_translation() -> TranslationView {
    TranslationView {
        items: Seq::empty(),
        structs_missing: Seq::empty(),
        enums_missing: Seq::empty(),
        anon_missing: Seq::empty(),
        drifted: Seq::empty(),
    }
}

/// Whether an earlier structure of the list has the name of the one at `i`.
pub open spec fn structure_seen_before(structures: Seq<Structure>, i: int) -> bool {
    exists|j: int| 0 <= j < i && (#[trigger] structures[j]).name@ == structures[i].name@
}

/// Whether an earlier enumeration of the list has the name of the one at `i`.
pub open spec fn enumeration_seen_before(enumerations: Seq<Enumeration>, i: int) -> bool {
    exists|j: int| 0 <= j < i && (#[trigger] enumerations[j]).name@ == enumerations[i].name@
}

/// The directive for the structure at `i`. An entry of the config serves
/// one entity: a structure whose name an earlier one had finds none.
pub open spec fn structure_directive(
    structures: Seq<Structure>,
    table: Seq<(String, CodegenOption)>,
    i: int,
) -> Option<CodegenOptionView> {
    if structure_seen_before(structures, i) {
        None
    } else {
        option_of(table, structures[i].name@)
    }
}

/// The directive for the enumeration at `i`.
pub open spec fn enumeration_directive(
    enumerations: Seq<Enumeration>,
    table: Seq<(String, CodegenOption)>,
    i: int,
) -> Option<CodegenOptionView> {
    if enumeration_seen_before(enumerations, i) {
        None
    } else {
        option_of(table, enumerations[i].name@)
    }
}

/// The pass after one structure more. Without a directive the name is
/// recorded as missing; `Generate` appends the declaration, or ends the
/// pass where there is none; `Checksum` appends nothing and records a
/// drift where the fingerprint is not the checksum.
pub open spec fn structure_step(
    st: TranslationView,
    s: Structure,
    directive: Option<CodegenOptionView>,
    table: Seq<(String, String)>,
) -> Result<TranslationView, TranslateErrorView> {
    match directive {
        None => Ok(TranslationView { structs_missing: record(st.structs_missing, s.name@), ..st }),
        Some(CodegenOptionView::Generate(_)) => {
            let o = structure_outcome(s, table);
            match o.result {
                Err(cause) => Err(TranslateErrorView::Structure { name: s.name@, cause }),
                Ok(decl) => Ok(
                    TranslationView {
                        items: st.items.push(ItemView::Struct(decl)),
                        anon_missing: record_all(st.anon_missing, o.missing),
                        ..st
                    },
                ),
            }
        },
        Some(CodegenOptionView::Checksum(expected)) => {
            let actual = structure_fingerprint(s);
            if actual == expected {
                Ok(st)
            } else {
                Ok(
                    TranslationView {
                        drifted: st.drifted.push(
                            DriftView { kind: EntityKind::Structure, name: s.name@, expected, actual },
                        ),
                        ..st
                    },
                )
            }
        },
    }
}

/// The pass after one enumeration more; see `structure_step`.
pub open spec fn enumeration_step(
    st: TranslationView,
    e: Enumeration,
    directive: Option<CodegenOptionView>,
) -> Result<TranslationView, TranslateErrorView> {
    match directive {
        None => Ok(TranslationView { enums_missing: record(st.enums_missing, e.name@), ..st }),
        Some(CodegenOptionView::Generate(_)) => match enumeration_outcome(e) {
            Err(cause) => Err(TranslateErrorView::Enumeration { name: e.name@, cause }),
            Ok(decl) => Ok(TranslationView { items: st.items.push(ItemView::Enum(decl)), ..st }),
        },
        Some(CodegenOptionView::Checksum(expected)) => {
            let actual = enumeration_fingerprint(e);
            if actual == expected {
                Ok(st)
            } else {
                Ok(
                    TranslationView {
                        drifted: st.drifted.push(
                            DriftView {
                                kind: EntityKind::Enumeration,
                                name: e.name@,
                                expected,
                                actual,
                            },
                        ),
                        ..st
                    },
                )
            }
        },
    }
}

/// The pass after the first `n` structures, begun at `start`.
pub open spec fn structures_pass(
    structures: Seq<Structure>,
    config: Config,
    n: int,
    start: TranslationView,
) -> Result<TranslationView, TranslateErrorView>
    decreases n,
{
    if n <= 0 {
        Ok(start)
    } else {
        match structures_pass(structures, config, n - 1, start) {
            Err(e) => Err(e),
            Ok(st) => structure_step(
                st,
                structures[n - 1],
                structure_directive(structures, config.structs@, n - 1),
                config.anon_mappings@,
            ),
        }
    }
}

/// The pass after the first `n` enumerations, begun at `start`.
pub open spec fn enumerations_pass(
    enumerations: Seq<Enumeration>,
    config: Config,
    n: int,
    start: TranslationView,
) -> Result<TranslationView, TranslateErrorView>
    decreases n,
{
    if n <= 0 {
        Ok(start)
    } else {
        match enumerations_pass(enumerations, config, n - 1, start) {
            Err(e) => Err(e),
            Ok(st) => enumeration_step(
                st,
                enumerations[n - 1],
                enumeration_directive(enumerations, config.enums@, n - 1),
            ),
        }
    }
}

/// The whole pass from `start`: all structures in their order, then all
/// enumerations in theirs. The first entity without a translation ends it.
pub open spec fn model_outcome(model: MetaModel, config: Config, start: TranslationView) -> Result<
    TranslationView,
    TranslateErrorView,
> {
    match structures_pass(model.structures@, config, model.structures@.len() as int, start) {
        Err(e) => Err(e),
        Ok(st) => enumerations_pass(
            model.enumerations@,
            config,
            model.enumerations@.len() as int,
            st,
        ),
    }
}

/// What translating a meta-model under a config gives.
pub open spec fn schema_outcome(model: MetaModel, config: Config) -> Result<
    TranslationView,
    TranslateErrorView,
> {
    model_outcome(model, config, empty_translation())
}

/// The pass that a translator and the items made so far stand for.
pub open spec fn pass_view(t: Translator, items: Seq<Item>) -> TranslationView {
    TranslationView {
        items: item_views(items),
        structs_missing: texts(t.structs_missing@),
        enums_missing: texts(t.enums_missing@),
        anon_missing: texts(t.anon_missing@),
        drifted: drift_views(t.drifted@),
    }
}

/// The value of the result of a pass.
pub open spec fn result_view(r: Result<Translation, TranslateError>) -> Result<
    TranslationView,
    TranslateErrorView,
> {
    match r {
        Ok(translation) => Ok(translation@),
        Err(e) => Err(e@),
    }
}

fn structure_named_before(structures: &Vec<Structure>, i: usize) -> (seen: bool)
    requires
        i < structures@.len(),
    ensures
        seen == structure_seen_before(structures@, i as int),
{
    let mut j: usize = 0;
    while j < i
        invariant
            j <= i < structures@.len(),
            forall|k: int| 0 <= k < j ==> (#[trigger] structures@[k]).name@ != structures@[i as int].name@,
        decreases i - j,
    {
        if structures[j].name == structures[i].name {
            return true;
        }
        j = j + 1;
    }
    false
}

fn enumeration_named_before(enumerations: &Vec<Enumeration>, i: usize) -> (seen: bool)
    requires
        i < enumerations@.len(),
    ensures
        seen == enumeration_seen_before(enumerations@, i as int),
{
    let mut j: usize = 0;
    while j < i
        invariant
            j <= i < enumerations@.len(),
            forall|k: int|
                0 <= k < j ==> (#[trigger] enumerations@[k]).name@ != enumerations@[i as int].name@,
        decreases i - j,
    {
        if enumerations[j].name == enumerations[i].name {
            return true;
        }
        j = j + 1;
    }
    false
}

impl MetaModel {
    /// Runs the pass over the meta-model: the structures in their order,
    /// then the enumerations in theirs. The declarations are returned; the
    /// diagnostics are added to the translator. Where the pass is given up
    /// nothing is said of the diagnostics that the translator then holds.
    pub fn translate(&self, t: &mut Translator) -> (r: Result<Vec<Item>, TranslateError>)
        ensures
            final(t).config == old(t).config,
            match model_outcome(*self, *old(t).config, pass_view(*old(t), Seq::empty())) {
                Ok(st) => r is Ok && pass_view(*final(t), r->Ok_0@) == st,
                Err(e) => r is Err && r->Err_0@ == e,
            },
    {
        let config: &Config = t.config;
        let mut items: Vec<Item> = Vec::new();
        let ghost start = pass_view(*t, Seq::empty());
        proof {
            assert(item_views(items@) =~= Seq::<ItemView>::empty());
        }
        let n = self.structures.len();
        let mut i: usize = 0;
        while i < n
            invariant
                n == self.structures@.len(),
                i <= n,
                t.config == old(t).config,
                config == t.config,
                start == pass_view(*old(t), Seq::empty()),
                structures_pass(self.structures@, *config, i as int, start) == Ok::<
                    TranslationView,
                    TranslateErrorView,
                >(pass_view(*t, items@)),
            decreases n - i,
        {
            let s = &self.structures[i];
            let ghost st = pass_view(*t, items@);
            let directive = if structure_named_before(&self.structures, i) {
                None
            } else {
                find_option(&config.structs, s.name.as_str())
            };
            match directive {
                Some(CodegenOption::Generate(_)) => {
                    match s.translate(t) {
                        Ok(decl) => {
                            let item = Item::Struct(decl);
                            proof {
                                assert(item_views(items@.push(item)) =~= item_views(items@).push(
                                    item@,
                                ));
                            }
                            items.push(item);
                        },
                        Err(cause) => {
                            proof {
                                lemma_structures_pass_stays_failed(
                                    self.structures@,
                                    *config,
                                    i + 1,
                                    n as int,
                                    start,
                                );
                            }
                            return Err(TranslateError::Structure { name: s.name.clone(), cause });
                        },
                    }
                },
                Some(CodegenOption::Checksum(expected)) => {
                    let actual = s.fingerprint();
                    if actual != *expected {
                        let drift = Drift {
                            kind: EntityKind::Structure,
                            name: s.name.clone(),
                            expected: expected.clone(),
                            actual,
                        };
                        proof {
                            assert(drift_views(t.drifted@.push(drift)) =~= drift_views(
                                t.drifted@,
                            ).push(drift@));
                        }
                        t.drifted.push(drift);
                    }
                },
                None => {
                    insert_unique(&mut t.structs_missing, s.name.clone());
                },
            }
            i = i + 1;
        }
        let ghost middle = pass_view(*t, items@);
        let m = self.enumerations.len();
        let mut k: usize = 0;
        while k < m
            invariant
                m == self.enumerations@.len(),
                k <= m,
                t.config == old(t).config,
                config == t.config,
                start == pass_view(*old(t), Seq::empty()),
                structures_pass(
                    self.structures@,
                    *config,
                    self.structures@.len() as int,
                    start,
                ) == Ok::<TranslationView, TranslateErrorView>(middle),
                enumerations_pass(self.enumerations@, *config, k as int, middle) == Ok::<
                    TranslationView,
                    TranslateErrorView,
                >(pass_view(*t, items@)),
            decreases m - k,
        {
            let e = &self.enumerations[k];
            let directive = if enumeration_named_before(&self.enumerations, k) {
                None
            } else {
                find_option(&config.enums, e.name.as_str())
            };
            match directive {
                Some(CodegenOption::Generate(_)) => {
                    match e.translate() {
                        Ok(decl) => {
                            let item = Item::Enum(decl);
                            proof {
                                assert(item_views(items@.push(item)) =~= item_views(items@).push(
                                    item@,
                                ));
                            }
                            items.push(item);
                        },
                        Err(cause) => {
                            proof {
                                lemma_enumerations_pass_stays_failed(
                                    self.enumerations@,
                                    *config,
                                    k + 1,
                                    m as int,
                                    middle,
                                );
                            }
                            return Err(
                                TranslateError::Enumeration { name: e.name.clone(), cause },
                            );
                        },
                    }
                },
                Some(CodegenOption::Checksum(expected)) => {
                    let actual = e.fingerprint();
                    if actual != *expected {
                        let drift = Drift {
                            kind: EntityKind::Enumeration,
                            name: e.name.clone(),
                            expected: expected.clone(),
                            actual,
                        };
                        proof {
                            assert(drift_views(t.drifted@.push(drift)) =~= drift_views(
                                t.drifted@,
                            ).push(drift@));
                        }
                        t.drifted.push(drift);
                    }
                },
                None => {
                    insert_unique(&mut t.enums_missing, e.name.clone());
                },
            }
            k = k + 1;
        }
        Ok(items)
    }
}

/// A pass over structures that failed stays failed.
proof fn lemma_structures_pass_stays_failed(
    structures: Seq<Structure>,
    config: Config,
    n: int,
    m: int,
    start: TranslationView,
)
    requires
        0 <= n <= m,
        structures_pass(structures, config, n, start) is Err,
    ensures
        structures_pass(structures, config, m, start) == structures_pass(
            structures,
            config,
            n,
            start,
        ),
    decreases m - n,
{
    if n < m {
        lemma_structures_pass_stays_failed(structures, config, n, m - 1, start);
    }
}

/// A pass over enumerations that failed stays failed.
proof fn lemma_enumerations_pass_stays_failed(
    enumerations: Seq<Enumeration>,
    config: Config,
    n: int,
    m: int,
    start: TranslationView,
)
    requires
        0 <= n <= m,
        enumerations_pass(enumerations, config, n, start) is Err,
    ensures
        enumerations_pass(enumerations, config, m, start) == enumerations_pass(
            enumerations,
            config,
            n,
            start,
        ),
    decreases m - n,
{
    if n < m {
        lemma_enumerations_pass_stays_failed(enumerations, config, n, m - 1, start);
    }
}

/// A pass over structures keeps the lists of missing names sorted.
proof fn lemma_structures_pass_wf(
    structures: Seq<Structure>,
    config: Config,
    n: int,
    start: TranslationView,
)
    requires
        start.wf(),
        structures_pass(structures, config, n, start) is Ok,
    ensures
        structures_pass(structures, config, n, start)->Ok_0.wf(),
    decreases n,
{
    if n > 0 {
        lemma_structures_pass_wf(structures, config, n - 1, start);
        let before = structures_pass(structures, config, n - 1, start)->Ok_0;
        let s = structures[n - 1];
        lemma_record_sorted(before.structs_missing, s.name@);
        lemma_record_all_sorted(
            before.anon_missing,
            structure_outcome(s, config.anon_mappings@).missing,
        );
    }
}

/// A pass over enumerations keeps the lists of missing names sorted.
proof fn lemma_enumerations_pass_wf(
    enumerations: Seq<Enumeration>,
    config: Config,
    n: int,
    start: TranslationView,
)
    requires
        start.wf(),
        enumerations_pass(enumerations, config, n, start) is Ok,
    ensures
        enumerations_pass(enumerations, config, n, start)->Ok_0.wf(),
    decreases n,
{
    if n > 0 {
        lemma_enumerations_pass_wf(enumerations, config, n - 1, start);
        let before = enumerations_pass(enumerations, config, n - 1, start)->Ok_0;
        lemma_record_sorted(before.enums_missing, enumerations[n - 1].name@);
    }
}

/// The lists of missing names of a pass are sorted.
pub proof fn lemma_schema_outcome_wf(model: MetaModel, config: Config)
    requires
        schema_outcome(model, config) is Ok,
    ensures
        schema_outcome(model, config)->Ok_0.wf(),
{
    let start = empty_translation();
    let n = model.structures@.len() as int;
    lemma_structures_pass_wf(model.structures@, config, n, start);
    lemma_enumerations_pass_wf(
        model.enumerations@,
        config,
        model.enumerations@.len() as int,
        structures_pass(model.structures@, config, n, start)->Ok_0,
    );
}

/// Translates a meta-model under a config. The declarations come in the
/// order of the meta-model, structures before enumerations. An entity that
/// the config does not name is left out and reported as missing; one that
/// the config froze by a checksum is left out and reported where its
/// fingerprint differs. The first entity that cannot be translated ends
/// the pass with its error.
pub fn translate_schema(meta_model: &MetaModel, config: &Config) -> (r: Result<
    Translation,
    TranslateError,
>)
    ensures
        result_view(r) == schema_outcome(*meta_model, *config),
        r matches Ok(translation) ==> translation@.wf(),
{
    proof {
        if schema_outcome(*meta_model, *config) is Ok {
            lemma_schema_outcome_wf(*meta_model, *config);
        }
    }
    let mut t = Translator {
        config,
        structs_missing: Vec::new(),
        enums_missing: Vec::new(),
        anon_missing: Vec::new(),
        drifted: Vec::new(),
    };
    proof {
        assert(pass_view(t, Seq::empty()) =~= empty_translation()) by {
            assert(item_views(Seq::<Item>::empty()) =~= Seq::<ItemView>::empty());
            assert(texts(t.structs_missing@) =~= Seq::<Seq<char>>::empty());
            assert(texts(t.enums_missing@) =~= Seq::<Seq<char>>::empty());
            assert(texts(t.anon_missing@) =~= Seq::<Seq<char>>::empty());
            assert(drift_views(t.drifted@) =~= Seq::<DriftView>::empty());
        }
    }
    match meta_model.translate(&mut t) {
        Ok(items) => Ok(
            Translation {
                items,
                structs_missing: t.structs_missing,
                enums_missing: t.enums_missing,
                anon_missing: t.anon_missing,
                drifted: t.drifted,
            },
        ),
        Err(e) => Err(e),
    }
}

} // verus!
