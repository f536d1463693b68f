//! The schema model: the protocol's meta-model as it is read, with its
//! requests, notifications, structures, enumerations and type aliases.

use vstd::prelude::*;
use crate::target::{generic_text, ref_texts, tuple_text, TypeRef};

verus! {

/// A whole meta-model.
#[derive(Debug, PartialEq, Hash)]
pub struct MetaModel {
    pub meta_data: MetaData,
    pub requests: Vec<Request>,
    pub notifications: Vec<Notification>,
    pub structures: Vec<Structure>,
    pub enumerations: Vec<Enumeration>,
    pub type_aliases: Vec<TypeAlias>,
}

#[derive(Debug, Clone, PartialEq, Hash)]
pub struct MetaData {
    pub version: String,
}

#[derive(Debug, PartialEq, Hash)]
pub struct Request {
    pub method: String,
    pub ty_name: String,
    pub result: Result,
    pub message_direction: MessageDirection,
    pub client_capability: Option<String>,
    pub server_capability: Option<String>,
    pub params: Option<Type>,
    pub partial_result: Option<Type>,
    pub registration_options: Option<RegistrationOptions>,
    pub documentation: Option<String>,
    pub since: Option<String>,
    pub proposed: Option<bool>,
    pub registration_method: Option<String>,
    pub error_data: Option<Type>,
}

#[derive(Debug, Clone, Copy, PartialEq, Eq, Structural, Hash)]
pub enum MessageDirection {
    ClientToServer,
    ServerToClient,
    Both,
}

#[derive(Debug, PartialEq, Hash)]
pub struct Result {
    pub kind: String,
    pub items: Vec<Item>,
    pub element: Option<Type>,
    pub name: Option<String>,
}

#[derive(Debug, PartialEq, Hash)]
pub struct Item {
    pub kind: String,
    pub name: Option<String>,
    pub element: Option<Element>,
}

#[derive(Debug, PartialEq, Hash)]
pub struct Element {
    pub kind: String,
    pub name: Option<String>,
    pub items: Option<Vec<Type>>,
}

#[derive(Debug, PartialEq, Hash)]
pub struct RegistrationOptions {
    pub kind: String,
    pub name: Option<String>,
    pub items: Option<Vec<Type>>,
}

#[derive(Debug, PartialEq, Hash)]
pub struct Notification {
    pub method: String,
    pub ty_name: String,
    pub message_direction: String,
    pub server_capability: Option<String>,
    pub params: Option<Type>,
    pub documentation: Option<String>,
    pub client_capability: Option<String>,
    pub registration_options: Option<Type>,
    pub since: Option<String>,
    pub registration_method: Option<String>,
}

/// A named structure: its properties and the types whose fields it includes.
#[derive(Debug, PartialEq, Hash)]
pub struct Structure {
    pub name: String,
    pub properties: Vec<Property>,
    pub extends: Vec<Type>,
    pub mixins: Vec<Type>,
    pub documentation: Option<String>,
    pub since: Option<String>,
    pub since_tags: Option<Vec<String>>,
    pub proposed: Option<bool>,
    pub deprecated: Option<String>,
}

#[derive(Debug, PartialEq, Hash)]
pub struct Property {
    pub name: String,
    pub type_: Type,
    pub documentation: Option<String>,
    pub optional: Option<bool>,
    pub since: Option<String>,
    pub since_tags: Option<Vec<String>>,
    pub proposed: Option<bool>,
    pub deprecated: Option<String>,
}

/// A type as the meta-model writes it.
#[derive(Debug, PartialEq, Hash)]
pub enum Type {
    Base { name: BaseType },
    Reference { name: String },
    Array { element: Box<Type> },
    Mapping { key: Box<Type>, value: Box<Type> },
    Or { items: Vec<Type> },
    Tuple { items: Vec<Type> },
    Literal { value: StructureLiteral },
    StringLiteral { value: String },
    IntegerLiteral { value: i64 },
    BooleanLiteral { value: bool },
}

/// The primitive types of the meta-model.
#[derive(Debug, Clone, Copy, PartialEq, Eq, Structural, Hash)]
pub enum BaseType {
    Uri,
    DocumentUri,
    Integer,
    Uinteger,
    Decimal,
    RegExp,
    String,
    Boolean,
    Null,
}

#[derive(Debug, Clone, PartialEq, Hash)]
pub struct Enumeration {
    pub name: String,
    pub type_: EnumerationType,
    pub values: Vec<EnumerationEntry>,
    pub supports_custom_values: bool,
    pub documentation: Option<String>,
    pub since: Option<String>,
    pub proposed: bool,
    pub deprecated: Option<String>,
}

#[derive(Debug, Clone, Copy, PartialEq, Eq, Structural, Hash)]
pub enum EnumerationType {
    Base { name: EnumerationTypeKind },
}

#[derive(Debug, Clone, Copy, PartialEq, Eq, Structural, Hash)]
pub enum EnumerationTypeKind {
    String,
    Integer,
    Uinteger,
}

/// The value that an enumeration entry stands for on the wire.
#[derive(Debug, Clone, PartialEq, Hash)]
pub enum EntryValue {
    String(String),
    Integer(i64),
}

#[derive(Debug, Clone, PartialEq, Hash)]
pub struct EnumerationEntry {
    pub name: String,
    pub value: EntryValue,
    pub documentation: Option<String>,
    pub since: Option<String>,
    pub proposed: bool,
}

#[derive(Debug, PartialEq, Hash)]
pub struct TypeAlias {
    pub name: String,
    pub type_: Type,
    pub documentation: Option<String>,
    pub since: Option<String>,
    pub proposed: bool,
    pub deprecated: Option<String>,
}

/// An inline, anonymous structure.
#[derive(Debug, PartialEq, Hash)]
pub struct StructureLiteral {
    pub properties: Vec<Property>,
    pub documentation: Option<String>,
    pub since: Option<String>,
    pub since_tags: Option<Vec<String>>,
    pub proposed: bool,
    pub deprecated: Option<String>,
}

/// The target name of a primitive where it can stand in a composite key.
pub open spec fn base_reference_text(name: BaseType) -> Option<Seq<char>> {
    match name {
        BaseType::Uri => Some("Uri"@),
        BaseType::DocumentUri => Some("DocumentUri"@),
        BaseType::Integer => Some("i64"@),
        BaseType::Uinteger => Some("u32"@),
        BaseType::String => Some("String"@),
        BaseType::Boolean => Some("bool"@),
        _ => None,
    }
}

/// The text of the single reference that a type collapses to: a named
/// reference is its name, a primitive its target name, an array `Vec<..>`
/// of its element, a tuple the tuple of its elements. Every other shape,
/// and a composite with a part that does not collapse, has none.
pub open spec fn reference_text(t: Type) -> Option<Seq<char>>
    decreases t,
{
    match t {
        Type::Reference { name } => Some(name@),
        Type::Base { name } => base_reference_text(name),
        Type::Array { element } => match reference_text(*element) {
            Some(inner) => Some(generic_text("Vec"@, seq![inner])),
            None => None,
        },
        Type::Tuple { items } => match reference_texts(items@) {
            Some(elements) => Some(tuple_text(elements)),
            None => None,
        },
        _ => None,
    }
}

/// The reference texts of all of `items`, in order, where each collapses.
pub open spec fn reference_texts(items: Seq<Type>) -> Option<Seq<Seq<char>>>
    decreases items,
{
    if items.len() == 0 {
        Some(Seq::empty())
    } else {
        match (reference_texts(items.drop_last()), reference_text(items.last())) {
            (Some(front), Some(last)) => Some(front.push(last)),
            _ => None,
        }
    }
}

/// Whether every tuple that collapsing `t` reaches has only elements that
/// collapse themselves.
pub open spec fn tuples_resolve(t: Type) -> bool
    decreases t,
{
    match t {
        Type::Array { element } => tuples_resolve(*element),
        Type::Tuple { items } => reference_texts(items@) is Some,
        _ => true,
    }
}

/// Once a prefix of `items` fails to collapse, so does the whole list.
pub proof fn lemma_reference_texts_prefix(items: Seq<Type>, n: int)
    requires
        0 <= n <= items.len(),
        reference_texts(items.take(n)) is None,
    ensures
        reference_texts(items) is None,
    decreases items.len() - n,
{
    if n < items.len() {
        assert(items.take(n + 1).drop_last() == items.take(n));
        lemma_reference_texts_prefix(items, n + 1);
    } else {
        assert(items.take(n) == items);
    }
}

/// The text of an optional reference.
pub open spec fn opt_ref_text(r: Option<TypeRef>) -> Option<Seq<char>> {
    match r {
        Some(t) => Some(t@),
        None => None,
    }
}

fn base_reference(name: &BaseType) -> (r: Option<TypeRef>)
    ensures
        opt_ref_text(r) == base_reference_text(*name),
{
    match name {
        BaseType::Uri => Some(TypeRef::new("Uri")),
        BaseType::DocumentUri => Some(TypeRef::new("DocumentUri")),
        BaseType::Integer => Some(TypeRef::new("i64")),
        BaseType::Uinteger => Some(TypeRef::new("u32")),
        BaseType::String => Some(TypeRef::new("String")),
        BaseType::Boolean => Some(TypeRef::new("bool")),
        _ => None,
    }
}

/// The references that the types of `items` collapse to, in order, where
/// each of them collapses.
pub fn references(items: &Vec<Type>) -> (r: Option<Vec<TypeRef>>)
    ensures
        match r {
            Some(refs) => reference_texts(items@) == Some(ref_texts(refs@)),
            None => reference_texts(items@) is None,
        },
    decreases items,
{
    let mut refs: Vec<TypeRef> = Vec::new();
    let n = items.len();
    let mut i: usize = 0;
    proof {
        assert(items@.take(0) =~= Seq::<Type>::empty());
        assert(ref_texts(refs@) =~= Seq::<Seq<char>>::empty());
    }
    while i < n
        invariant
            n == items@.len(),
            i <= n,
            reference_texts(items@.take(i as int)) == Some(ref_texts(refs@)),
        decreases n - i,
    {
        proof {
            assert(items@.take(i + 1).drop_last() == items@.take(i as int));
            assert(items@.take(i + 1).last() == items@[i as int]);
        }
        match items[i].reference() {
            Some(r) => {
                proof {
                    assert(ref_texts(refs@.push(r)) =~= ref_texts(refs@).push(r@));
                }
                refs.push(r);
            },
            None => {
                proof {
                    lemma_reference_texts_prefix(items@, i + 1);
                }
                return None;
            },
        }
        i = i + 1;
    }
    proof {
        assert(items@.take(n as int) == items@);
    }
    Some(refs)
}

impl Type {
    /// The single reference that this type collapses to, if it has one.
    /// A tuple with an element that does not collapse has none.
    pub fn reference(&self) -> (r: Option<TypeRef>)
        ensures
            opt_ref_text(r) == reference_text(*self),
        decreases *self,
    {
        match self {
            Type::Reference { name } => Some(TypeRef::new(name.as_str())),
            Type::Base { name } => base_reference(name),
            Type::Array { element } => match element.reference() {
                Some(inner) => {
                    let args = vec![inner];
                    assert(ref_texts(args@) =~= seq![inner@]);
                    Some(TypeRef::new_generics("Vec", args.as_slice()))
                },
                None => None,
            },
            Type::Tuple { items } => match references(items) {
                Some(refs) => Some(TypeRef::new_tuple(refs.as_slice())),
                None => None,
            },
            _ => None,
        }
    }

    /// Whether `into_reference` may be called on this type: every tuple
    /// that collapsing it reaches has only elements that collapse.
    pub fn references_cleanly(&self) -> (clean: bool)
        ensures
            clean == tuples_resolve(*self),
        decreases *self,
    {
        match self {
            Type::Array { element } => element.references_cleanly(),
            Type::Tuple { items } => references(items).is_some(),
            _ => true,
        }
    }

    /// Collapses the type into a single reference without translating it.
    /// Named references, primitives with a target name, arrays and tuples of
    /// such collapse; every other shape gives `None`.
    pub fn into_reference(self) -> (r: Option<TypeRef>)
        requires
            tuples_resolve(self),
        ensures
            opt_ref_text(r) == reference_text(self),
    {
        self.reference()
    }
}

} // verus!
