//! The wire forms of protocol values: a model of JSON values, and for each
//! type that has one the value that stands for it and the reading of a
//! value as the type.

use vstd::prelude::*;
use vstd::string::*;
use crate::text::str_eq;

verus! {

/// A JSON value whose numbers are integers. The members of an object keep
/// their order; of two members with one name the first is read.
#[derive(Debug, PartialEq, Eq)]
pub enum Json {
    Null,
    Bool(bool),
    Number(i64),
    String(String),
    Array(Vec<Json>),
    Object(Vec<(String, Json)>),
}

/// The mathematical value of a `Json`.
pub enum JsonView {
    Null,
    Bool(bool),
    Number(int),
    String(Seq<char>),
    Array(Seq<JsonView>),
    Object(Seq<(Seq<char>, JsonView)>),
}

/// The mathematical value of a JSON value.
pub open spec fn json_view(v: Json) -> JsonView
    decreases v,
{
    match v {
        Json::Null => JsonView::Null,
        Json::Bool(b) => JsonView::Bool(b),
        Json::Number(n) => JsonView::Number(n as int),
        Json::String(s) => JsonView::String(s@),
        Json::Array(items) => JsonView::Array(
            Seq::new(
                items@.len(),
                |i: int|
                    if 0 <= i < items@.len() {
                        json_view(items@[i])
                    } else {
                        JsonView::Null
                    },
            ),
        ),
        Json::Object(members) => JsonView::Object(
            Seq::new(
                members@.len(),
                |i: int|
                    if 0 <= i < members@.len() {
                        (members@[i].0@, json_view(members@[i].1))
                    } else {
                        (Seq::empty(), JsonView::Null)
                    },
            ),
        ),
    }
}

impl View for Json {
    type V = JsonView;

    open spec fn view(&self) -> JsonView {
        json_view(*self)
    }
}

/// The value of the first member called `name`.
pub open spec fn member_of(members: Seq<(Seq<char>, JsonView)>, name: Seq<char>) -> Option<
    JsonView,
>
    decreases members.len(),
{
    if members.len() == 0 {
        None
    } else if members[0].0 == name {
        Some(members[0].1)
    } else {
        member_of(members.drop_first(), name)
    }
}

/// The value of an optional JSON value.
pub open spec fn opt_json_view(v: Option<&Json>) -> Option<JsonView> {
    match v {
        Some(v) => Some(v@),
        None => None,
    }
}

/// The first member of an object that is called `name`.
pub fn member<'a>(members: &'a Vec<(String, Json)>, name: &str) -> (found: Option<&'a Json>)
    ensures
        opt_json_view(found) == member_of((Json::Object(*members))@->Object_0, name@),
{
    let ghost all = (Json::Object(*members))@->Object_0;
    let n = members.len();
    let mut i: usize = 0;
    proof {
        assert(all.skip(0) == all);
    }
    while i < n
        invariant
            n == members@.len(),
            i <= n,
            all == (Json::Object(*members))@->Object_0,
            member_of(all, name@) == member_of(all.skip(i as int), name@),
        decreases n - i,
    {
        proof {
            assert(all.skip(i as int)[0] == all[i as int]);
            assert(all.skip(i as int).drop_first() == all.skip(i + 1));
        }
        if str_eq(members[i].0.as_str(), name) {
            return Some(&members[i].1);
        }
        i = i + 1;
    }
    None
}

/// A type with a wire form.
pub trait Wire: Sized {
    /// The value that stands for `self` on the wire.
    spec fn wire(&self) -> JsonView;

    /// Whether a value can be read as this type.
    spec fn readable(v: JsonView) -> bool;

    /// The wire form of what a readable value is read as.
    spec fn normal(v: JsonView) -> JsonView;

    /// Writes `self` as a value.
    fn to_value(&self) -> (v: Json)
        ensures
            v@ == self.wire(),
    ;

    /// Reads a value as this type.
    fn from_value(v: &Json) -> (r: Option<Self>)
        ensures
            r is Some <==> Self::readable(v@),
            r is Some ==> r->Some_0.wire() == Self::normal(v@),
    ;
}

impl Wire for bool {
    open spec fn wire(&self) -> JsonView {
        JsonView::Bool(*self)
    }

    open spec fn readable(v: JsonView) -> bool {
        v is Bool
    }

    open spec fn normal(v: JsonView) -> JsonView {
        v
    }

    fn to_value(&self) -> (v: Json) {
        Json::Bool(*self)
    }

    fn from_value(v: &Json) -> (r: Option<Self>) {
        match v {
            Json::Bool(b) => Some(*b),
            _ => None,
        }
    }
}

impl Wire for () {
    open spec fn wire(&self) -> JsonView {
        JsonView::Null
    }

    open spec fn readable(v: JsonView) -> bool {
        v is Null
    }

    open spec fn normal(v: JsonView) -> JsonView {
        v
    }

    fn to_value(&self) -> (v: Json) {
        Json::Null
    }

    fn from_value(v: &Json) -> (r: Option<Self>) {
        match v {
            Json::Null => Some(()),
            _ => None,
        }
    }
}

impl Wire for String {
    open spec fn wire(&self) -> JsonView {
        JsonView::String(self@)
    }

    open spec fn readable(v: JsonView) -> bool {
        v is String
    }

    open spec fn normal(v: JsonView) -> JsonView {
        v
    }

    fn to_value(&self) -> (v: Json) {
        Json::String(self.clone())
    }

    fn from_value(v: &Json) -> (r: Option<Self>) {
        match v {
            Json::String(s) => Some(s.clone()),
            _ => None,
        }
    }
}

impl Wire for i32 {
    open spec fn wire(&self) -> JsonView {
        JsonView::Number(*self as int)
    }

    open spec fn readable(v: JsonView) -> bool {
        v matches JsonView::Number(n) && i32::MIN <= n <= i32::MAX
    }

    open spec fn normal(v: JsonView) -> JsonView {
        v
    }

    fn to_value(&self) -> (v: Json) {
        Json::Number(*self as i64)
    }

    fn from_value(v: &Json) -> (r: Option<Self>) {
        match v {
            Json::Number(n) => {
                if -2147483648 <= *n && *n <= 2147483647 {
                    Some(*n as i32)
                } else {
                    None
                }
            },
            _ => None,
        }
    }
}

impl Wire for u8 {
    open spec fn wire(&self) -> JsonView {
        JsonView::Number(*self as int)
    }

    open spec fn readable(v: JsonView) -> bool {
        v matches JsonView::Number(n) && 0 <= n <= u8::MAX
    }

    open spec fn normal(v: JsonView) -> JsonView {
        v
    }

    fn to_value(&self) -> (v: Json) {
        Json::Number(*self as i64)
    }

    fn from_value(v: &Json) -> (r: Option<Self>) {
        match v {
            Json::Number(n) => {
                if 0 <= *n && *n <= 255 {
                    Some(*n as u8)
                } else {
                    None
                }
            },
            _ => None,
        }
    }
}

/// The wire forms of the elements of a list.
pub open spec fn wires<T: Wire>(items: Seq<T>) -> Seq<JsonView> {
    Seq::new(items.len(), |i: int| items[i].wire())
}

/// The normal forms of the elements of an array.
pub open spec fn normals<T: Wire>(items: Seq<JsonView>) -> Seq<JsonView> {
    Seq::new(items.len(), |i: int| T::normal(items[i]))
}

impl<T: Wire> Wire for Vec<T> {
    open spec fn wire(&self) -> JsonView {
        JsonView::Array(wires(self@))
    }

    open spec fn readable(v: JsonView) -> bool {
        v matches JsonView::Array(items) && forall|i: int|
            0 <= i < items.len() ==> T::readable(#[trigger] items[i])
    }

    open spec fn normal(v: JsonView) -> JsonView {
        JsonView::Array(normals::<T>(v->Array_0))
    }

    fn to_value(&self) -> (v: Json) {
        let mut items: Vec<Json> = Vec::new();
        let n = self.len();
        let mut i: usize = 0;
        while i < n
            invariant
                n == self@.len(),
                i <= n,
                items@.len() == i,
                forall|j: int| 0 <= j < i ==> (#[trigger] items@[j])@ == self@[j].wire(),
            decreases n - i,
        {
            items.push(self[i].to_value());
            i = i + 1;
        }
        let v = Json::Array(items);
        proof {
            assert(v@->Array_0 =~= wires(self@));
        }
        v
    }

    fn from_value(v: &Json) -> (r: Option<Self>) {
        match v {
            Json::Array(items) => {
                let ghost views = v@->Array_0;
                let mut out: Vec<T> = Vec::new();
                let n = items.len();
                let mut i: usize = 0;
                while i < n
                    invariant
                        n == items@.len(),
                        i <= n,
                        views == (Json::Array(*items))@->Array_0,
                        v@ == JsonView::Array(views),
                        out@.len() == i,
                        forall|j: int| 0 <= j < i ==> T::readable(#[trigger] views[j]),
                        forall|j: int|
                            0 <= j < i ==> (#[trigger] out@[j]).wire() == T::normal(views[j]),
                    decreases n - i,
                {
                    proof {
                        assert(views[i as int] == items@[i as int]@);
                    }
                    match T::from_value(&items[i]) {
                        Some(item) => {
                            out.push(item);
                        },
                        None => {
                            proof {
                                assert(!T::readable(views[i as int]));
                            }
                            return None;
                        },
                    }
                    i = i + 1;
                }
                proof {
                    assert(wires(out@) =~= normals::<T>(views));
                }
                Some(out)
            },
            _ => None,
        }
    }
}

impl Wire for u32 {
    open spec fn wire(&self) -> JsonView {
        JsonView::Number(*self as int)
    }

    open spec fn readable(v: JsonView) -> bool {
        v matches JsonView::Number(n) && 0 <= n <= u32::MAX
    }

    open spec fn normal(v: JsonView) -> JsonView {
        v
    }

    fn to_value(&self) -> (v: Json) {
        Json::Number(*self as i64)
    }

    fn from_value(v: &Json) -> (r: Option<Self>) {
        match v {
            Json::Number(n) => {
                if 0 <= *n && *n <= 4294967295 {
                    Some(*n as u32)
                } else {
                    None
                }
            },
            _ => None,
        }
    }
}

/// The members of an object: the name and the value of each.
pub open spec fn members_view(members: Seq<(String, Json)>) -> Seq<(Seq<char>, JsonView)> {
    Seq::new(members.len(), |i: int| (members[i].0@, members[i].1@))
}

/// The value of an object is the object of the values of its members.
pub proof fn lemma_object_view(members: Vec<(String, Json)>)
    ensures
        (Json::Object(members))@ == JsonView::Object(members_view(members@)),
{
    assert((Json::Object(members))@->Object_0 =~= members_view(members@));
}

/// The wire form of an optional value.
pub open spec fn opt_wire<T: Wire>(o: Option<T>) -> Option<JsonView> {
    match o {
        Some(value) => Some(value.wire()),
        None => None,
    }
}

/// One member.
pub open spec fn field(name: Seq<char>, value: JsonView) -> Seq<(Seq<char>, JsonView)> {
    seq![(name, value)]
}

/// One member, or none where there is no value.
pub open spec fn opt_field(name: Seq<char>, value: Option<JsonView>) -> Seq<(Seq<char>, JsonView)> {
    match value {
        Some(value) => seq![(name, value)],
        None => Seq::empty(),
    }
}

/// One member, which is `null` where there is no value.
pub open spec fn nullable_field(name: Seq<char>, value: Option<JsonView>) -> Seq<
    (Seq<char>, JsonView),
> {
    match value {
        Some(value) => seq![(name, value)],
        None => seq![(name, JsonView::Null)],
    }
}

/// Whether the members hold one called `name` that can be read as a `T`.
pub open spec fn has<T: Wire>(members: Seq<(Seq<char>, JsonView)>, name: Seq<char>) -> bool {
    member_of(members, name) matches Some(v) && T::readable(v)
}

/// Whether the member called `name` is missing, `null`, or can be read as a
/// `T`.
pub open spec fn may_have<T: Wire>(members: Seq<(Seq<char>, JsonView)>, name: Seq<char>) -> bool {
    match member_of(members, name) {
        None => true,
        Some(JsonView::Null) => true,
        Some(v) => T::readable(v),
    }
}

/// The normal form of the member called `name`, read as a `T`.
pub open spec fn read<T: Wire>(members: Seq<(Seq<char>, JsonView)>, name: Seq<char>) -> JsonView {
    T::normal(member_of(members, name)->0)
}

/// The normal form of the member called `name`, read as an optional `T`:
/// none where the member is missing or `null`.
pub open spec fn read_opt<T: Wire>(members: Seq<(Seq<char>, JsonView)>, name: Seq<char>) -> Option<
    JsonView,
> {
    match member_of(members, name) {
        None => None,
        Some(JsonView::Null) => None,
        Some(v) => Some(T::normal(v)),
    }
}

/// Appends the member called `name` with the wire form of `value`.
pub fn put<T: Wire>(members: &mut Vec<(String, Json)>, name: &str, value: &T)
    ensures
        members_view(final(members)@) == members_view(old(members)@) + field(name@, value.wire()),
{
    members.push((String::from_str(name), value.to_value()));
    assert(members_view(members@) =~= members_view(old(members)@) + field(name@, value.wire()));
}

/// Appends the member called `name` where there is a value.
pub fn put_opt<T: Wire>(members: &mut Vec<(String, Json)>, name: &str, value: &Option<T>)
    ensures
        members_view(final(members)@) == members_view(old(members)@) + opt_field(
            name@,
            opt_wire(*value),
        ),
{
    match value {
        Some(value) => {
            members.push((String::from_str(name), value.to_value()));
        },
        None => {},
    }
    assert(members_view(members@) =~= members_view(old(members)@) + opt_field(
        name@,
        opt_wire(*value),
    ));
}

/// Appends the member called `name`, `null` where there is no value.
pub fn put_nullable<T: Wire>(members: &mut Vec<(String, Json)>, name: &str, value: &Option<T>)
    ensures
        members_view(final(members)@) == members_view(old(members)@) + nullable_field(
            name@,
            opt_wire(*value),
        ),
{
    match value {
        Some(value) => {
            members.push((String::from_str(name), value.to_value()));
        },
        None => {
            members.push((String::from_str(name), Json::Null));
        },
    }
    assert(members_view(members@) =~= members_view(old(members)@) + nullable_field(
        name@,
        opt_wire(*value),
    ));
}

/// Reads the member called `name` as a `T`.
pub fn get<T: Wire>(members: &Vec<(String, Json)>, name: &str) -> (r: Option<T>)
    ensures
        r is Some <==> has::<T>(members_view(members@), name@),
        r is Some ==> r->Some_0.wire() == read::<T>(members_view(members@), name@),
{
    proof {
        lemma_object_view(*members);
    }
    match member(members, name) {
        Some(v) => T::from_value(v),
        None => None,
    }
}

/// Reads the member called `name` as an optional `T`; the outer `None`
/// says that the member cannot be read.
pub fn get_opt<T: Wire>(members: &Vec<(String, Json)>, name: &str) -> (r: Option<Option<T>>)
    ensures
        r is Some <==> may_have::<T>(members_view(members@), name@),
        r is Some ==> opt_wire(r->Some_0) == read_opt::<T>(members_view(members@), name@),
{
    proof {
        lemma_object_view(*members);
    }
    match member(members, name) {
        None => Some(None),
        Some(Json::Null) => Some(None),
        Some(v) => match T::from_value(v) {
            Some(value) => Some(Some(value)),
            None => None,
        },
    }
}

/// A type whose wire form is read back as it was written.
pub trait Faithful: Wire {
    /// The wire form of a value is readable and is its own normal form.
    proof fn lemma_read_back(&self)
        ensures
            Self::readable(self.wire()),
            Self::normal(self.wire()) == self.wire(),
    ;
}

impl Faithful for bool {
    proof fn lemma_read_back(&self) {
    }
}

impl Faithful for () {
    proof fn lemma_read_back(&self) {
    }
}

impl Faithful for String {
    proof fn lemma_read_back(&self) {
    }
}

impl Faithful for i32 {
    proof fn lemma_read_back(&self) {
    }
}

impl Faithful for u8 {
    proof fn lemma_read_back(&self) {
    }
}

impl<T: Faithful> Faithful for Vec<T> {
    proof fn lemma_read_back(&self) {
        let items = wires(self@);
        assert forall|i: int| 0 <= i < items.len() implies T::readable(#[trigger] items[i]) by {
            self@[i].lemma_read_back();
        }
        assert(normals::<T>(items) =~= items) by {
            assert forall|i: int| 0 <= i < items.len() implies T::normal(items[i]) == items[i] by {
                self@[i].lemma_read_back();
            }
        }
    }
}

} // verus!
