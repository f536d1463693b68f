//! The wire forms of protocol types: objects with the protocol's member
//! names, and choices that are told apart by their shape alone.

use vstd::prelude::*;
use vstd::string::*;
use crate::lsp::basic::ResourceOperationKind;
use crate::lsp::progress::WorkDoneProgressOptions;
use crate::lsp::{LanguageString, MarkedString, NumberOrString, OneOf, TagSupport};
use crate::text::str_eq;
use crate::wire::{
    lemma_object_view, member, member_of, members_view, Faithful, Json, JsonView, Wire,
};

verus! {

impl<A: Wire, B: Wire> Wire for OneOf<A, B> {
    open spec fn wire(&self) -> JsonView {
        match self {
            OneOf::Left(a) => a.wire(),
            OneOf::Right(b) => b.wire(),
        }
    }

    open spec fn readable(v: JsonView) -> bool {
        A::readable(v) || B::readable(v)
    }

    open spec fn normal(v: JsonView) -> JsonView {
        if A::readable(v) {
            A::normal(v)
        } else {
            B::normal(v)
        }
    }

    fn to_value(&self) -> (v: Json) {
        match self {
            OneOf::Left(a) => a.to_value(),
            OneOf::Right(b) => b.to_value(),
        }
    }

    fn from_value(v: &Json) -> (r: Option<Self>) {
        match A::from_value(v) {
            Some(a) => Some(OneOf::Left(a)),
            None => match B::from_value(v) {
                Some(b) => Some(OneOf::Right(b)),
                None => None,
            },
        }
    }
}

impl Wire for NumberOrString {
    open spec fn wire(&self) -> JsonView {
        match self {
            NumberOrString::Number(n) => JsonView::Number(*n as int),
            NumberOrString::String(s) => JsonView::String(s@),
        }
    }

    open spec fn readable(v: JsonView) -> bool {
        i32::readable(v) || v is String
    }

    open spec fn normal(v: JsonView) -> JsonView {
        v
    }

    fn to_value(&self) -> (v: Json) {
        match self {
            NumberOrString::Number(n) => n.to_value(),
            NumberOrString::String(s) => s.to_value(),
        }
    }

    fn from_value(v: &Json) -> (r: Option<Self>) {
        match i32::from_value(v) {
            Some(n) => Some(NumberOrString::Number(n)),
            None => match String::from_value(v) {
                Some(s) => Some(NumberOrString::String(s)),
                None => None,
            },
        }
    }
}

/// The members of the object that a language string is.
pub open spec fn language_string_members(language: Seq<char>, value: Seq<char>) -> Seq<
    (Seq<char>, JsonView),
> {
    seq![("language"@, JsonView::String(language)), ("value"@, JsonView::String(value))]
}

impl Wire for LanguageString {
    open spec fn wire(&self) -> JsonView {
        JsonView::Object(language_string_members(self.language@, self.value@))
    }

    open spec fn readable(v: JsonView) -> bool {
        &&& v matches JsonView::Object(members)
        &&& member_of(members, "language"@) matches Some(JsonView::String(_))
        &&& member_of(members, "value"@) matches Some(JsonView::String(_))
    }

    open spec fn normal(v: JsonView) -> JsonView {
        JsonView::Object(
            language_string_members(
                member_of(v->Object_0, "language"@)->0->String_0,
                member_of(v->Object_0, "value"@)->0->String_0,
            ),
        )
    }

    fn to_value(&self) -> (v: Json) {
        let mut members: Vec<(String, Json)> = Vec::new();
        members.push((String::from_str("language"), Json::String(self.language.clone())));
        members.push((String::from_str("value"), Json::String(self.value.clone())));
        proof {
            lemma_object_view(members);
            assert(members_view(members@)
                =~= language_string_members(self.language@, self.value@));
        }
        Json::Object(members)
    }

    fn from_value(v: &Json) -> (r: Option<Self>) {
        match v {
            Json::Object(members) => {
                let language = match member(members, "language") {
                    Some(Json::String(s)) => s.clone(),
                    _ => {
                        return None;
                    },
                };
                let value = match member(members, "value") {
                    Some(Json::String(s)) => s.clone(),
                    _ => {
                        return None;
                    },
                };
                Some(LanguageString { language, value })
            },
            _ => None,
        }
    }
}

impl Wire for MarkedString {
    open spec fn wire(&self) -> JsonView {
        match self {
            MarkedString::String(s) => JsonView::String(s@),
            MarkedString::LanguageString(l) => l.wire(),
        }
    }

    open spec fn readable(v: JsonView) -> bool {
        v is String || LanguageString::readable(v)
    }

    open spec fn normal(v: JsonView) -> JsonView {
        if v is String {
            v
        } else {
            LanguageString::normal(v)
        }
    }

    fn to_value(&self) -> (v: Json) {
        match self {
            MarkedString::String(s) => s.to_value(),
            MarkedString::LanguageString(l) => l.to_value(),
        }
    }

    fn from_value(v: &Json) -> (r: Option<Self>) {
        match String::from_value(v) {
            Some(s) => Some(MarkedString::String(s)),
            None => match LanguageString::from_value(v) {
                Some(l) => Some(MarkedString::LanguageString(l)),
                None => None,
            },
        }
    }
}

/// The members of the object that progress options are: the flag where
/// it is set, and nothing where it is not.
pub open spec fn progress_members(flag: Option<bool>) -> Seq<(Seq<char>, JsonView)> {
    match flag {
        Some(b) => seq![("workDoneProgress"@, JsonView::Bool(b))],
        None => Seq::empty(),
    }
}

/// The flag that the member of progress options is read as. A member that
/// is missing or null is no flag; one that is neither that nor a boolean
/// cannot be read.
pub open spec fn progress_flag(found: Option<JsonView>) -> Option<Option<bool>> {
    match found {
        None => Some(None),
        Some(JsonView::Null) => Some(None),
        Some(JsonView::Bool(b)) => Some(Some(b)),
        Some(_) => None,
    }
}

impl Wire for WorkDoneProgressOptions {
    open spec fn wire(&self) -> JsonView {
        JsonView::Object(progress_members(self.work_done_progress))
    }

    open spec fn readable(v: JsonView) -> bool {
        v matches JsonView::Object(members) && progress_flag(
            member_of(members, "workDoneProgress"@),
        ) is Some
    }

    open spec fn normal(v: JsonView) -> JsonView {
        JsonView::Object(
            progress_members(progress_flag(member_of(v->Object_0, "workDoneProgress"@))->0),
        )
    }

    fn to_value(&self) -> (v: Json) {
        let mut members: Vec<(String, Json)> = Vec::new();
        match self.work_done_progress {
            Some(b) => {
                members.push((String::from_str("workDoneProgress"), Json::Bool(b)));
            },
            None => {},
        }
        proof {
            lemma_object_view(members);
            assert(members_view(members@)
                =~= progress_members(self.work_done_progress));
        }
        Json::Object(members)
    }

    fn from_value(v: &Json) -> (r: Option<Self>) {
        match v {
            Json::Object(members) => match member(members, "workDoneProgress") {
                None => Some(WorkDoneProgressOptions { work_done_progress: None }),
                Some(Json::Null) => Some(WorkDoneProgressOptions { work_done_progress: None }),
                Some(Json::Bool(b)) => Some(
                    WorkDoneProgressOptions { work_done_progress: Some(*b) },
                ),
                Some(_) => None,
            },
            _ => None,
        }
    }
}

/// The name of a kind of resource operation on the wire.
pub open spec fn operation_name(kind: ResourceOperationKind) -> Seq<char> {
    match kind {
        ResourceOperationKind::Create => "create"@,
        ResourceOperationKind::Rename => "rename"@,
        ResourceOperationKind::Delete => "delete"@,
    }
}

impl Wire for ResourceOperationKind {
    open spec fn wire(&self) -> JsonView {
        JsonView::String(operation_name(*self))
    }

    open spec fn readable(v: JsonView) -> bool {
        v matches JsonView::String(s) && (s == "create"@ || s == "rename"@ || s == "delete"@)
    }

    open spec fn normal(v: JsonView) -> JsonView {
        v
    }

    fn to_value(&self) -> (v: Json) {
        match self {
            ResourceOperationKind::Create => Json::String(String::from_str("create")),
            ResourceOperationKind::Rename => Json::String(String::from_str("rename")),
            ResourceOperationKind::Delete => Json::String(String::from_str("delete")),
        }
    }

    fn from_value(v: &Json) -> (r: Option<Self>) {
        match v {
            Json::String(s) => {
                if str_eq(s.as_str(), "create") {
                    Some(ResourceOperationKind::Create)
                } else if str_eq(s.as_str(), "rename") {
                    Some(ResourceOperationKind::Rename)
                } else if str_eq(s.as_str(), "delete") {
                    Some(ResourceOperationKind::Delete)
                } else {
                    None
                }
            },
            _ => None,
        }
    }
}

/// The members of the object that the support for tags is.
pub open spec fn tag_support_members(set: JsonView) -> Seq<(Seq<char>, JsonView)> {
    seq![("valueSet"@, set)]
}

impl<T: Wire> Wire for TagSupport<T> {
    open spec fn wire(&self) -> JsonView {
        JsonView::Object(tag_support_members(self.value_set.wire()))
    }

    open spec fn readable(v: JsonView) -> bool {
        &&& v matches JsonView::Object(members)
        &&& member_of(members, "valueSet"@) matches Some(set)
        &&& Vec::<T>::readable(set)
    }

    open spec fn normal(v: JsonView) -> JsonView {
        JsonView::Object(
            tag_support_members(Vec::<T>::normal(member_of(v->Object_0, "valueSet"@)->0)),
        )
    }

    fn to_value(&self) -> (v: Json) {
        let mut members: Vec<(String, Json)> = Vec::new();
        members.push((String::from_str("valueSet"), self.value_set.to_value()));
        proof {
            lemma_object_view(members);
            assert(members_view(members@)
                =~= tag_support_members(self.value_set.wire()));
        }
        Json::Object(members)
    }

    fn from_value(v: &Json) -> (r: Option<Self>) {
        match v {
            Json::Object(members) => match member(members, "valueSet") {
                Some(set) => match Vec::<T>::from_value(set) {
                    Some(value_set) => Some(TagSupport { value_set }),
                    None => None,
                },
                None => None,
            },
            _ => None,
        }
    }
}

/// A value that cannot be read as the type that was asked for.
#[derive(Debug, Clone, Copy, PartialEq, Eq, Structural)]
pub struct Unreadable;

impl<T: Wire> TagSupport<T> {
    /// Reads the support for tags as older clients wrote it too: `null`
    /// and `false` say that there is none, `true` that there is support
    /// for an empty set of tags; every other value is read as the object.
    pub fn deserialize_compat(v: &Json) -> (r: Result<Option<Self>, Unreadable>)
        ensures
            match v@ {
                JsonView::Null => r == Ok::<Option<Self>, Unreadable>(None),
                JsonView::Bool(false) => r == Ok::<Option<Self>, Unreadable>(None),
                JsonView::Bool(true) => r is Ok && r->Ok_0 is Some && r->Ok_0->0.value_set@.len()
                    == 0,
                other => {
                    &&& r is Ok <==> Self::readable(other)
                    &&& r is Ok ==> r->Ok_0 is Some && r->Ok_0->0.wire() == Self::normal(other)
                },
            },
    {
        match v {
            Json::Null => Ok(None),
            Json::Bool(false) => Ok(None),
            Json::Bool(true) => Ok(Some(TagSupport { value_set: Vec::new() })),
            other => match Self::from_value(other) {
                Some(support) => Ok(Some(support)),
                None => Err(Unreadable),
            },
        }
    }
}

impl Faithful for NumberOrString {
    proof fn lemma_read_back(&self) {
    }
}

impl Faithful for LanguageString {
    proof fn lemma_read_back(&self) {
        let members = language_string_members(self.language@, self.value@);
        reveal_strlit("language");
        reveal_strlit("value");
        assert("language"@ != "value"@) by {
            assert("language"@.len() == 8);
            assert("value"@.len() == 5);
        }
        assert(member_of(members, "language"@) == Some(JsonView::String(self.language@)));
        assert(members.drop_first()[0] == members[1]);
        assert(member_of(members.drop_first(), "value"@) == Some(JsonView::String(self.value@)));
        assert(member_of(members, "value"@) == Some(JsonView::String(self.value@)));
    }
}

impl Faithful for MarkedString {
    proof fn lemma_read_back(&self) {
        match self {
            MarkedString::String(s) => {},
            MarkedString::LanguageString(l) => {
                l.lemma_read_back();
            },
        }
    }
}

impl Faithful for WorkDoneProgressOptions {
    proof fn lemma_read_back(&self) {
        let members = progress_members(self.work_done_progress);
        match self.work_done_progress {
            Some(b) => {
                assert(member_of(members, "workDoneProgress"@) == Some(JsonView::Bool(b)));
            },
            None => {
                assert(member_of(members, "workDoneProgress"@) is None);
            },
        }
    }
}

impl Faithful for ResourceOperationKind {
    proof fn lemma_read_back(&self) {
    }
}

impl<T: Faithful> Faithful for TagSupport<T> {
    proof fn lemma_read_back(&self) {
        let set = self.value_set.wire();
        let members = tag_support_members(set);
        assert(member_of(members, "valueSet"@) == Some(set));
        self.value_set.lemma_read_back();
    }
}

/// A choice of two types is read back as it was written if it is the left
/// one, or if the left type cannot read what the right one wrote.
pub proof fn law_one_of_read_back<A: Faithful, B: Faithful>(value: OneOf<A, B>)
    requires
        value matches OneOf::Right(b) ==> !A::readable(b.wire()),
    ensures
        OneOf::<A, B>::readable(value.wire()),
        OneOf::<A, B>::normal(value.wire()) == value.wire(),
{
    match value {
        OneOf::Left(a) => {
            a.lemma_read_back();
        },
        OneOf::Right(b) => {
            b.lemma_read_back();
        },
    }
}

} // verus!
