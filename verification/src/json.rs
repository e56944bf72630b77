//! JSON values as the daemon reads and builds them.
//!
//! An object is the sequence of its members. A lookup finds the first member
//! of a name, and [`Json::put`] replaces that member or appends a new one, so
//! an object built through this module holds each name once.
use serde_json::Value;
use vstd::prelude::*;

verus! {

/// A JSON number: an integer in its machine range, or the text of any other
/// number.
#[derive(Debug, PartialEq, Eq)]
pub enum Number {
    Unsigned(u64),
    Negative(i64),
    Other(String),
}

/// A JSON value. An object keeps its members in order.
#[derive(Debug, PartialEq, Eq)]
pub enum Json {
    Null,
    Bool(bool),
    Number(Number),
    Str(String),
    Array(Vec<Json>),
    Object(Vec<(String, Json)>),
}

/// The mathematical number behind a [`Number`].
#[verifier::ext_equal]
pub enum NumberView {
    Unsigned(u64),
    Negative(i64),
    Other(Seq<char>),
}

/// The mathematical value behind a [`Json`].
#[verifier::ext_equal]
pub enum JsonView {
    Null,
    Bool(bool),
    Number(NumberView),
    Str(Seq<char>),
    Array(Seq<JsonView>),
    Object(Seq<(Seq<char>, JsonView)>),
}

impl View for Number {
    type V = NumberView;

    open spec fn view(&self) -> NumberView {
        match self {
            Number::Unsigned(n) => NumberView::Unsigned(*n),
            Number::Negative(n) => NumberView::Negative(*n),
            Number::Other(text) => NumberView::Other(text@),
        }
    }
}

impl View for Json {
    type V = JsonView;

    open spec fn view(&self) -> JsonView {
        value_view(*self)
    }
}

/// The value that a [`Json`] holds.
pub open spec fn value_view(value: Json) -> JsonView
    decreases value,
{
    match value {
        Json::Null => JsonView::Null,
        Json::Bool(b) => JsonView::Bool(b),
        Json::Number(n) => JsonView::Number(n@),
        Json::Str(s) => JsonView::Str(s@),
        Json::Array(items) => JsonView::Array(items_view(items@)),
        Json::Object(members) => JsonView::Object(members_view(members@)),
    }
}

/// The items of a sequence of values.
pub open spec fn items_view(items: Seq<Json>) -> Seq<JsonView>
    decreases items,
{
    if items.len() == 0 {
        Seq::empty()
    } else {
        items_view(items.drop_last()).push(value_view(items[items.len() - 1]))
    }
}

/// The members of an object, by name and value.
pub open spec fn members_view(members: Seq<(String, Json)>) -> Seq<(Seq<char>, JsonView)>
    decreases members,
{
    if members.len() == 0 {
        Seq::empty()
    } else {
        members_view(members.drop_last()).push(
            (members[members.len() - 1].0@, value_view(members[members.len() - 1].1)),
        )
    }
}

/// The items of a sequence of values, one by one.
pub proof fn lemma_items_view(items: Seq<Json>)
    ensures
        (#[trigger] items_view(items)).len() == items.len(),
        forall|i: int| 0 <= i < items.len() ==> (#[trigger] items_view(items)[i]) == items[i]@,
    decreases items.len(),
{
    if items.len() > 0 {
        lemma_items_view(items.drop_last());
    }
}

/// The members of an object, one by one.
pub proof fn lemma_members_view(members: Seq<(String, Json)>)
    ensures
        (#[trigger] members_view(members)).len() == members.len(),
        forall|i: int|
            0 <= i < members.len() ==> (#[trigger] members_view(members)[i]) == (
                members[i].0@,
                members[i].1@,
            ),
    decreases members.len(),
{
    if members.len() > 0 {
        lemma_members_view(members.drop_last());
    }
}

/// The members of an object value, one by one.
pub proof fn lemma_object_view(value: Json)
    requires
        value is Object,
    ensures
        value@ == JsonView::Object(members_view(value->Object_0@)),
        members_view(value->Object_0@).len() == value->Object_0@.len(),
        forall|i: int|
            0 <= i < value->Object_0@.len() ==> (#[trigger] members_view(value->Object_0@)[i]) == (
                value->Object_0@[i].0@,
                value->Object_0@[i].1@,
            ),
{
    lemma_members_view(value->Object_0@);
}

/// The items of an array value, one by one.
pub proof fn lemma_array_view(value: Json)
    requires
        value is Array,
    ensures
        value@ == JsonView::Array(items_view(value->Array_0@)),
        items_view(value->Array_0@).len() == value->Array_0@.len(),
        forall|i: int|
            0 <= i < value->Array_0@.len() ==> (#[trigger] items_view(value->Array_0@)[i])
                == value->Array_0@[i]@,
{
    lemma_items_view(value->Array_0@);
}

/// An optional value.
pub open spec fn opt_view(value: Option<Json>) -> Option<JsonView> {
    match value {
        Some(value) => Some(value@),
        None => None,
    }
}

/// An optional reference to a value.
pub open spec fn opt_ref_view(value: Option<&Json>) -> Option<JsonView> {
    match value {
        Some(value) => Some(value@),
        None => None,
    }
}

/// The value of the first member named `key`.
pub open spec fn lookup(members: Seq<(Seq<char>, JsonView)>, key: Seq<char>) -> Option<JsonView>
    decreases members.len(),
{
    if members.len() == 0 {
        None
    } else if members[0].0 == key {
        Some(members[0].1)
    } else {
        lookup(members.drop_first(), key)
    }
}

/// The members with the first member named `key` set to `value`, or with that
/// member appended where there is none.
pub open spec fn assign(
    members: Seq<(Seq<char>, JsonView)>,
    key: Seq<char>,
    value: JsonView,
) -> Seq<(Seq<char>, JsonView)>
    decreases members.len(),
{
    if members.len() == 0 {
        seq![(key, value)]
    } else if members[0].0 == key {
        members.update(0, (key, value))
    } else {
        seq![members[0]] + assign(members.drop_first(), key, value)
    }
}

/// The members that are not named `key`.
pub open spec fn without_name(members: Seq<(Seq<char>, JsonView)>, key: Seq<char>) -> Seq<
    (Seq<char>, JsonView),
>
    decreases members.len(),
{
    if members.len() == 0 {
        Seq::empty()
    } else {
        let before = without_name(members.drop_last(), key);
        if members.last().0 == key {
            before
        } else {
            before.push(members.last())
        }
    }
}

impl JsonView {
    pub open spec fn object() -> JsonView {
        JsonView::Object(Seq::empty())
    }

    pub open spec fn uint(n: u64) -> JsonView {
        JsonView::Number(NumberView::Unsigned(n))
    }

    /// The object with one more member at its end.
    pub open spec fn field(self, key: Seq<char>, value: JsonView) -> JsonView {
        match self {
            JsonView::Object(members) => JsonView::Object(members.push((key, value))),
            other => other,
        }
    }

    /// The object with a member appended where there is a value for it.
    pub open spec fn field_opt(self, key: Seq<char>, value: Option<JsonView>) -> JsonView {
        match value {
            Some(value) => self.field(key, value),
            None => self,
        }
    }

    /// The object with the member `key` set to `value`.
    pub open spec fn put(self, key: Seq<char>, value: JsonView) -> JsonView {
        match self {
            JsonView::Object(members) => JsonView::Object(assign(members, key, value)),
            other => other,
        }
    }

    /// The object without the members named `key`.
    pub open spec fn without(self, key: Seq<char>) -> JsonView {
        match self {
            JsonView::Object(members) => JsonView::Object(without_name(members, key)),
            other => other,
        }
    }

    /// The object with each of `members` set in turn.
    pub open spec fn put_all(self, members: Seq<(Seq<char>, JsonView)>) -> JsonView
        decreases members.len(),
    {
        if members.len() == 0 {
            self
        } else {
            self.put_all(members.drop_last()).put(members.last().0, members.last().1)
        }
    }

    /// The member of an object; no other value has members.
    pub open spec fn get(self, key: Seq<char>) -> Option<JsonView> {
        match self {
            JsonView::Object(members) => lookup(members, key),
            _ => None,
        }
    }

    pub open spec fn as_str(self) -> Option<Seq<char>> {
        match self {
            JsonView::Str(s) => Some(s),
            _ => None,
        }
    }

    pub open spec fn as_bool(self) -> Option<bool> {
        match self {
            JsonView::Bool(b) => Some(b),
            _ => None,
        }
    }

    pub open spec fn as_u64(self) -> Option<u64> {
        match self {
            JsonView::Number(NumberView::Unsigned(n)) => Some(n),
            _ => None,
        }
    }

    pub open spec fn as_array(self) -> Option<Seq<JsonView>> {
        match self {
            JsonView::Array(items) => Some(items),
            _ => None,
        }
    }

    /// The text of the member `key`, where that member is a string.
    pub open spec fn get_str(self, key: Seq<char>) -> Option<Seq<char>> {
        match self.get(key) {
            Some(value) => value.as_str(),
            None => None,
        }
    }

    pub open spec fn get_bool(self, key: Seq<char>) -> Option<bool> {
        match self.get(key) {
            Some(value) => value.as_bool(),
            None => None,
        }
    }

    pub open spec fn get_u64(self, key: Seq<char>) -> Option<u64> {
        match self.get(key) {
            Some(value) => value.as_u64(),
            None => None,
        }
    }
}

impl JsonView {
    /// Whether an object has a member of this name and value.
    pub open spec fn carries(self, key: Seq<char>, value: JsonView) -> bool {
        self is Object && self->Object_0.contains((key, value))
    }

    /// Whether an object has a member of this name.
    pub open spec fn names(self, key: Seq<char>) -> bool {
        exists|value: JsonView| #[trigger] self.carries(key, value)
    }
}

/// A member that is appended is carried with those before it, and no other is.
pub broadcast proof fn law_appended_members_are_carried(
    object: JsonView,
    key: Seq<char>,
    value: JsonView,
    name: Seq<char>,
    member: JsonView,
)
    requires
        object is Object,
    ensures
        (#[trigger] object.field(key, value).carries(name, member)) == (object.carries(name, member)
            || (name == key && member == value)),
{
    let before = object->Object_0;
    let after = before.push((key, value));
    if before.contains((name, member)) {
        let i = choose|i: int| 0 <= i < before.len() && before[i] == (name, member);
        assert(after[i] == (name, member));
    }
    assert(after[before.len() as int] == (key, value));
    if after.contains((name, member)) && (name, member) != (key, value) {
        let i = choose|i: int| 0 <= i < after.len() && after[i] == (name, member);
        assert(before[i] == (name, member));
    }
}

/// An object without members carries nothing.
pub broadcast proof fn law_empty_objects_carry_nothing(name: Seq<char>, member: JsonView)
    ensures
        !#[trigger] JsonView::object().carries(name, member),
{
}

pub broadcast group group_members {
    law_appended_members_are_carried,
    law_empty_objects_carry_nothing,
}

/// A text, or nothing where there is none.
pub open spec fn or_empty(text: Option<Seq<char>>) -> Seq<char> {
    match text {
        Some(text) => text,
        None => Seq::empty(),
    }
}

/// A value, or null where there is none.
pub open spec fn or_null(value: Option<JsonView>) -> JsonView {
    match value {
        Some(value) => value,
        None => JsonView::Null,
    }
}

/// A lookup after an assignment: the assigned name has the new value and every
/// other name keeps its own.
pub proof fn lemma_lookup_assign(
    members: Seq<(Seq<char>, JsonView)>,
    key: Seq<char>,
    value: JsonView,
    other: Seq<char>,
)
    ensures
        lookup(assign(members, key, value), key) == Some(value),
        other != key ==> lookup(assign(members, key, value), other) == lookup(members, other),
    decreases members.len(),
{
    reveal_with_fuel(lookup, 2);
    let after = assign(members, key, value);
    if members.len() == 0 {
        assert(after.drop_first() =~= Seq::empty());
    } else if members[0].0 == key {
        assert(after.drop_first() =~= members.drop_first());
    } else {
        lemma_lookup_assign(members.drop_first(), key, value, other);
        assert(after.drop_first() =~= assign(members.drop_first(), key, value));
    }
}

/// Reading back a written member: after `put` the member has the written value
/// and every other member keeps its own.
pub proof fn law_put_then_get(
    object: JsonView,
    key: Seq<char>,
    value: JsonView,
    other: Seq<char>,
)
    requires
        object is Object,
    ensures
        object.put(key, value).get(key) == Some(value),
        other != key ==> object.put(key, value).get(other) == object.get(other),
{
    lemma_lookup_assign(object->Object_0, key, value, other);
}

impl Number {
    fn duplicate(&self) -> (r: Number)
        ensures
            r@ == self@,
    {
        match self {
            Number::Unsigned(n) => Number::Unsigned(*n),
            Number::Negative(n) => Number::Negative(*n),
            Number::Other(text) => Number::Other(text.clone()),
        }
    }
}

impl Json {
    /// An object without members.
    pub fn object() -> (r: Json)
        ensures
            r@ == JsonView::object(),
    {
        let r = Json::Object(Vec::new());
        assert(r@->Object_0 =~= Seq::empty());
        r
    }

    /// A string value.
    pub fn string(s: &str) -> (r: Json)
        ensures
            r@ == JsonView::Str(s@),
    {
        Json::Str(s.to_owned())
    }

    /// A number value.
    pub fn uint(n: u64) -> (r: Json)
        ensures
            r@ == JsonView::uint(n),
    {
        Json::Number(Number::Unsigned(n))
    }

    /// An array without items.
    pub fn empty_array() -> (r: Json)
        ensures
            r@ == JsonView::Array(Seq::empty()),
    {
        let r = Json::Array(Vec::new());
        assert(r@->Array_0 =~= Seq::empty());
        r
    }

    /// An array of values.
    pub fn array(items: Vec<Json>) -> (r: Json)
        ensures
            r@ == JsonView::Array(items_view(items@)),
    {
        let r = Json::Array(items);
        assert(r@->Array_0 =~= items_view(items@));
        r
    }

    /// The value with one more member at its end, where it is an object.
    pub fn field(self, key: &str, value: Json) -> (r: Json)
        ensures
            r@ == self@.field(key@, value@),
    {
        let ghost before = self@;
        match self {
            Json::Object(members) => {
                let mut members = members;
                let ghost old_members = members@;
                members.push((key.to_owned(), value));
                let r = Json::Object(members);
                proof {
                    lemma_object_view(self);
                    lemma_object_view(r);
                }
                assert(r@->Object_0 =~= before->Object_0.push((key@, value@)));
                r
            },
            other => other,
        }
    }

    /// The value with a member appended where there is a value for it.
    pub fn field_opt(self, key: &str, value: Option<Json>) -> (r: Json)
        ensures
            r@ == self@.field_opt(key@, opt_view(value)),
    {
        match value {
            Some(value) => self.field(key, value),
            None => self,
        }
    }

    /// The value with a string member appended where there is a text for it.
    pub fn field_opt_str(self, key: &str, value: Option<&str>) -> (r: Json)
        ensures
            r@ == self@.field_opt(
                key@,
                match value {
                    Some(text) => Some(JsonView::Str(text@)),
                    None => None,
                },
            ),
    {
        match value {
            Some(text) => self.field(key, Json::string(text)),
            None => self,
        }
    }

    /// Set a member of an object, replacing the member of that name.
    pub fn put(self, key: &str, value: Json) -> (r: Json)
        ensures
            r@ == self@.put(key@, value@),
    {
        let ghost before = self@;
        match self {
            Json::Object(members) => {
                let mut members = members;
                let ghost start = members@;
                let ghost start_view = members_view(start);
                proof {
                    lemma_object_view(self);
                }
                assert(start_view =~= before->Object_0);
                let name = key.to_owned();
                let mut i: usize = 0;
                assert(start_view.take(0) =~= Seq::empty());
                assert(start_view.skip(0) =~= start_view);
                while i < members.len()
                    invariant
                        i <= members@.len(),
                        members@ == start,
                        start_view == members_view(start),
                        start_view.len() == start.len(),
                        forall|j: int|
                            0 <= j < start.len() ==> #[trigger] start_view[j] == (
                                start[j].0@,
                                start[j].1@,
                            ),
                        name@ == key@,
                        forall|j: int| 0 <= j < i ==> (#[trigger] start_view[j]).0 != key@,
                        before is Object,
                        before == self@,
                        before->Object_0 == start_view,
                        assign(start_view, key@, value@) =~= start_view.take(i as int) + assign(
                            start_view.skip(i as int),
                            key@,
                            value@,
                        ),
                    decreases members@.len() - i,
                {
                    if members[i].0 == name {
                        let ghost rest = start_view.skip(i as int);
                        members[i] = (name, value);
                        let r = Json::Object(members);
                        proof {
                            lemma_object_view(r);
                            assert(rest[0] == start_view[i as int]);
                            assert(r@->Object_0 =~= start_view.update(i as int, (key@, value@)));
                            assert(start_view.take(i as int) + rest.update(0, (key@, value@))
                                =~= start_view.update(i as int, (key@, value@)));
                        }
                        return r;
                    }
                    proof {
                        let rest = start_view.skip(i as int);
                        assert(rest[0] == start_view[i as int]);
                        assert(rest.drop_first() =~= start_view.skip(i + 1));
                        assert(start_view.take(i + 1) =~= start_view.take(i as int) + seq![rest[0]]);
                    }
                    i = i + 1;
                }
                members.push((name, value));
                let r = Json::Object(members);
                proof {
                    lemma_object_view(r);
                    assert(start_view.skip(i as int) =~= Seq::empty());
                    assert(start_view.take(i as int) =~= start_view);
                    assert(r@->Object_0 =~= start_view.push((key@, value@)));
                    assert(assign(start_view, key@, value@) =~= start_view.push((key@, value@)));
                }
                r
            },
            other => other,
        }
    }

    /// The object without the members named `key`.
    pub fn without(&self, key: &str) -> (r: Json)
        ensures
            r@ == self@.without(key@),
    {
        match self {
            Json::Object(members) => {
                let ghost all = members_view(members@);
                proof {
                    lemma_object_view(*self);
                }
                let name = key.to_owned();
                let mut out = Json::object();
                let mut i: usize = 0;
                assert(all.take(0) =~= Seq::empty());
                while i < members.len()
                    invariant
                        i <= members@.len(),
                        all.len() == members@.len(),
                        forall|j: int|
                            0 <= j < members@.len() ==> #[trigger] all[j] == (
                                members@[j].0@,
                                members@[j].1@,
                            ),
                        name@ == key@,
                        out@ == JsonView::Object(without_name(all.take(i as int), key@)),
                    decreases members@.len() - i,
                {
                    assert(all.take(i + 1).drop_last() =~= all.take(i as int));
                    assert(all.take(i + 1).last() == all[i as int]);
                    if members[i].0 != name {
                        out = out.field(members[i].0.as_str(), members[i].1.duplicate());
                    }
                    i = i + 1;
                }
                assert(all.take(i as int) =~= all);
                out
            },
            _ => self.duplicate(),
        }
    }

    /// The object with each member of `other` set in turn; a value that is no
    /// object adds nothing.
    pub fn put_all(self, other: &Json) -> (r: Json)
        ensures
            r@ == match other@ {
                JsonView::Object(members) => self@.put_all(members),
                _ => self@,
            },
    {
        match other {
            Json::Object(members) => {
                let ghost all = members_view(members@);
                proof {
                    lemma_object_view(*other);
                }
                let mut out = self;
                let mut i: usize = 0;
                assert(all.take(0) =~= Seq::empty());
                while i < members.len()
                    invariant
                        i <= members@.len(),
                        all.len() == members@.len(),
                        forall|j: int|
                            0 <= j < members@.len() ==> #[trigger] all[j] == (
                                members@[j].0@,
                                members@[j].1@,
                            ),
                        out@ == self@.put_all(all.take(i as int)),
                    decreases members@.len() - i,
                {
                    assert(all.take(i + 1).drop_last() =~= all.take(i as int));
                    assert(all.take(i + 1).last() == all[i as int]);
                    out = out.put(members[i].0.as_str(), members[i].1.duplicate());
                    i = i + 1;
                }
                assert(all.take(i as int) =~= all);
                out
            },
            _ => self,
        }
    }

    /// The member of an object; no other value has members.
    pub fn get(&self, key: &str) -> (r: Option<&Json>)
        ensures
            opt_ref_view(r) == self@.get(key@),
    {
        match self {
            Json::Object(members) => {
                let ghost view = members_view(members@);
                proof {
                    lemma_object_view(*self);
                }
                let name = key.to_owned();
                let mut i: usize = 0;
                assert(view.skip(0) =~= view);
                while i < members.len()
                    invariant
                        i <= members@.len(),
                        view == members_view(members@),
                        view.len() == members@.len(),
                        forall|j: int|
                            0 <= j < members@.len() ==> #[trigger] view[j] == (
                                members@[j].0@,
                                members@[j].1@,
                            ),
                        name@ == key@,
                        lookup(view, key@) == lookup(view.skip(i as int), key@),
                        self@ == JsonView::Object(view),
                    decreases members@.len() - i,
                {
                    proof {
                        let rest = view.skip(i as int);
                        assert(rest[0] == view[i as int]);
                        assert(rest.drop_first() =~= view.skip(i + 1));
                    }
                    if members[i].0 == name {
                        return Some(&members[i].1);
                    }
                    i = i + 1;
                }
                assert(view.skip(i as int) =~= Seq::empty());
                None
            },
            _ => None,
        }
    }

    pub fn as_str(&self) -> (r: Option<&str>)
        ensures
            r.deep_view() == self@.as_str(),
    {
        match self {
            Json::Str(s) => Some(s.as_str()),
            _ => None,
        }
    }

    pub fn as_bool(&self) -> (r: Option<bool>)
        ensures
            r == self@.as_bool(),
    {
        match self {
            Json::Bool(b) => Some(*b),
            _ => None,
        }
    }

    pub fn as_u64(&self) -> (r: Option<u64>)
        ensures
            r == self@.as_u64(),
    {
        match self {
            Json::Number(Number::Unsigned(n)) => Some(*n),
            _ => None,
        }
    }

    pub fn as_array(&self) -> (r: Option<&Vec<Json>>)
        ensures
            match r {
                Some(items) => self@ == JsonView::Array(items_view(items@)),
                None => self@.as_array() is None,
            },
    {
        match self {
            Json::Array(items) => {
                assert(self@->Array_0 =~= items_view(items@));
                Some(items)
            },
            _ => None,
        }
    }

    pub fn is_object(&self) -> (r: bool)
        ensures
            r == (self@ is Object),
    {
        match self {
            Json::Object(_) => true,
            _ => false,
        }
    }

    pub fn is_null(&self) -> (r: bool)
        ensures
            r == (self@ is Null),
    {
        match self {
            Json::Null => true,
            _ => false,
        }
    }

    /// The text of the member `key`, where that member is a string.
    pub fn get_str(&self, key: &str) -> (r: Option<&str>)
        ensures
            r.deep_view() == self@.get_str(key@),
    {
        match self.get(key) {
            Some(value) => value.as_str(),
            None => None,
        }
    }

    pub fn get_bool(&self, key: &str) -> (r: Option<bool>)
        ensures
            r == self@.get_bool(key@),
    {
        match self.get(key) {
            Some(value) => value.as_bool(),
            None => None,
        }
    }

    pub fn get_u64(&self, key: &str) -> (r: Option<u64>)
        ensures
            r == self@.get_u64(key@),
    {
        match self.get(key) {
            Some(value) => value.as_u64(),
            None => None,
        }
    }

    /// An owned copy of the text of the member `key`.
    pub fn get_string(&self, key: &str) -> (r: Option<String>)
        ensures
            r.deep_view() == self@.get_str(key@),
    {
        match self.get_str(key) {
            Some(text) => Some(text.to_owned()),
            None => None,
        }
    }

    /// The text of the member `key`, or no text where it has none.
    pub fn get_string_or_empty(&self, key: &str) -> (r: String)
        ensures
            r@ == or_empty(self@.get_str(key@)),
    {
        match self.get_str(key) {
            Some(text) => text.to_owned(),
            None => String::new(),
        }
    }

    /// A copy of the member `key`.
    pub fn get_copy(&self, key: &str) -> (r: Option<Json>)
        ensures
            opt_view(r) == self@.get(key@),
    {
        match self.get(key) {
            Some(value) => Some(value.duplicate()),
            None => None,
        }
    }

    /// A copy of the member `key`, or null where there is none.
    pub fn get_or_null(&self, key: &str) -> (r: Json)
        ensures
            r@ == or_null(self@.get(key@)),
    {
        match self.get(key) {
            Some(value) => value.duplicate(),
            None => Json::Null,
        }
    }

    /// A copy of the value.
    pub fn duplicate(&self) -> (r: Json)
        ensures
            r@ == self@,
        decreases self,
    {
        match self {
            Json::Null => Json::Null,
            Json::Bool(b) => Json::Bool(*b),
            Json::Number(n) => Json::Number(n.duplicate()),
            Json::Str(s) => Json::Str(s.clone()),
            Json::Array(items) => {
                let mut out: Vec<Json> = Vec::new();
                let mut i: usize = 0;
                while i < items.len()
                    invariant
                        i <= items@.len(),
                        out@.len() == i,
                        *self == Json::Array(*items),
                        forall|j: int| 0 <= j < i ==> (#[trigger] out@[j])@ == items@[j]@,
                    decreases items@.len() - i,
                {
                    assert(self->Array_0@[i as int] == items@[i as int]);
                    assert(decreases_to!(*self => self->Array_0@[i as int]));
                    out.push(items[i].duplicate());
                    i = i + 1;
                }
                let r = Json::Array(out);
                proof {
                    lemma_array_view(r);
                    lemma_array_view(*self);
                }
                assert(r@->Array_0 =~= self@->Array_0);
                r
            },
            Json::Object(members) => {
                let mut out: Vec<(String, Json)> = Vec::new();
                let mut i: usize = 0;
                while i < members.len()
                    invariant
                        i <= members@.len(),
                        out@.len() == i,
                        *self == Json::Object(*members),
                        forall|j: int|
                            0 <= j < i ==> (#[trigger] out@[j]).0@ == members@[j].0@ && out@[j].1@
                                == members@[j].1@,
                    decreases members@.len() - i,
                {
                    assert(self->Object_0@[i as int] == members@[i as int]);
                    assert(decreases_to!(*self => self->Object_0@[i as int]));
                    out.push((members[i].0.clone(), members[i].1.duplicate()));
                    i = i + 1;
                }
                let r = Json::Object(out);
                proof {
                    lemma_object_view(r);
                    lemma_object_view(*self);
                }
                assert(r@->Object_0 =~= self@->Object_0);
                r
            },
        }
    }

    /// Whether two values are the same.
    pub fn same(&self, other: &Json) -> (r: bool)
        ensures
            r == (self@ == other@),
        decreases self,
    {
        match (self, other) {
            (Json::Null, Json::Null) => true,
            (Json::Bool(a), Json::Bool(b)) => *a == *b,
            (Json::Number(Number::Unsigned(a)), Json::Number(Number::Unsigned(b))) => *a == *b,
            (Json::Number(Number::Negative(a)), Json::Number(Number::Negative(b))) => *a == *b,
            (Json::Number(Number::Other(a)), Json::Number(Number::Other(b))) => *a == *b,
            (Json::Str(a), Json::Str(b)) => *a == *b,
            (Json::Array(a), Json::Array(b)) => {
                proof {
                    lemma_array_view(*self);
                    lemma_array_view(*other);
                }
                if a.len() != b.len() {
                    assert(self@->Array_0.len() != other@->Array_0.len());
                    return false;
                }
                let mut i: usize = 0;
                while i < a.len()
                    invariant
                        i <= a@.len(),
                        a@.len() == b@.len(),
                        *self == Json::Array(*a),
                        *other == Json::Array(*b),
                        self@->Array_0.len() == a@.len(),
                        other@->Array_0.len() == b@.len(),
                        self@ is Array && other@ is Array,
                        forall|j: int|
                            0 <= j < a@.len() ==> #[trigger] self@->Array_0[j] == a@[j]@,
                        forall|j: int|
                            0 <= j < b@.len() ==> #[trigger] other@->Array_0[j] == b@[j]@,
                        forall|j: int| 0 <= j < i ==> (#[trigger] a@[j])@ == b@[j]@,
                    decreases a@.len() - i,
                {
                    assert(decreases_to!(*self => a@[i as int]));
                    if !a[i].same(&b[i]) {
                        assert(self@->Array_0[i as int] != other@->Array_0[i as int]);
                        return false;
                    }
                    i = i + 1;
                }
                assert(self@->Array_0 =~= other@->Array_0);
                true
            },
            (Json::Object(a), Json::Object(b)) => {
                proof {
                    lemma_object_view(*self);
                    lemma_object_view(*other);
                }
                if a.len() != b.len() {
                    assert(self@->Object_0.len() != other@->Object_0.len());
                    return false;
                }
                let mut i: usize = 0;
                while i < a.len()
                    invariant
                        i <= a@.len(),
                        a@.len() == b@.len(),
                        *self == Json::Object(*a),
                        *other == Json::Object(*b),
                        self@->Object_0.len() == a@.len(),
                        other@->Object_0.len() == b@.len(),
                        self@ is Object && other@ is Object,
                        forall|j: int|
                            0 <= j < a@.len() ==> #[trigger] self@->Object_0[j] == (a@[j].0@, a@[j].1@),
                        forall|j: int|
                            0 <= j < b@.len() ==> #[trigger] other@->Object_0[j] == (b@[j].0@, b@[j].1@),
                        forall|j: int|
                            0 <= j < i ==> (#[trigger] a@[j]).0@ == b@[j].0@ && a@[j].1@ == b@[j].1@,
                    decreases a@.len() - i,
                {
                    assert(decreases_to!(*self => a@[i as int]));
                    if a[i].0 != b[i].0 || !a[i].1.same(&b[i].1) {
                        assert(self@->Object_0[i as int] != other@->Object_0[i as int]);
                        return false;
                    }
                    i = i + 1;
                }
                assert(self@->Object_0 =~= other@->Object_0);
                true
            },
            _ => false,
        }
    }
}

/// Copies of a run of values.
pub fn duplicate_all(items: &Vec<Json>) -> (r: Vec<Json>)
    ensures
        items_view(r@) == items_view(items@),
{
    let mut out: Vec<Json> = Vec::new();
    let mut i: usize = 0;
    while i < items.len()
        invariant
            i <= items@.len(),
            out@.len() == i,
            forall|j: int| 0 <= j < i ==> (#[trigger] out@[j])@ == items@[j]@,
        decreases items@.len() - i,
    {
        out.push(items[i].duplicate());
        i = i + 1;
    }
    proof {
        lemma_items_view(out@);
        lemma_items_view(items@);
    }
    assert(items_view(out@) =~= items_view(items@));
    out
}

/// A copy of an optional value.
pub fn duplicate_opt(value: &Option<Json>) -> (r: Option<Json>)
    ensures
        opt_view(r) == opt_view(*value),
{
    match value {
        Some(value) => Some(value.duplicate()),
        None => None,
    }
}

/// `serde_json::Value`, carried from the parser to its conversion.
#[verifier::external_type_specification]
#[verifier::external_body]
pub struct ExValue(serde_json::Value);

/// What `serde_json::from_str` makes of a text as a `serde_json::Value`: the
/// value, or the text of its error.
pub uninterp spec fn json_of_text(text: Seq<char>) -> Result<JsonView, Seq<char>>;

/// A `serde_json::Value` as a [`Json`], variant by variant.
#[verifier::external_body]
fn json_from_value(value: Value) -> Json {
    match value {
        Value::Null => Json::Null,
        Value::Bool(b) => Json::Bool(b),
        Value::Number(n) => match (n.as_u64(), n.as_i64()) {
            (Some(n), _) => Json::Number(Number::Unsigned(n)),
            (None, Some(n)) => Json::Number(Number::Negative(n)),
            (None, None) => Json::Number(Number::Other(n.to_string())),
        },
        Value::String(s) => Json::Str(s),
        Value::Array(items) => Json::Array(items.into_iter().map(json_from_value).collect()),
        Value::Object(members) => Json::Object(
            members.into_iter().map(|(name, value)| (name, json_from_value(value))).collect(),
        ),
    }
}

/// `serde_json::from_str` on a text: the value the text spells, or the message
/// of the parser's error. The result depends on the text alone.
#[verifier::external_body]
pub(crate) fn parse_json(text: &str) -> (r: Result<Json, String>)
    ensures
        match r {
            Ok(value) => json_of_text(text@) == Ok::<JsonView, Seq<char>>(value@),
            Err(message) => json_of_text(text@) == Err::<JsonView, Seq<char>>(message@),
        },
{
    match serde_json::from_str::<serde_json::Value>(text) {
        Ok(value) => Ok(json_from_value(value)),
        Err(error) => Err(error.to_string()),
    }
}

/// What `serde_json::from_slice` makes of bytes as a `serde_json::Value`, where
/// it makes one of them.
pub uninterp spec fn json_of_bytes(bytes: Seq<u8>) -> Option<JsonView>;

/// `serde_json::from_slice` on bytes: the value the bytes spell, or none where
/// the parser fails. The result depends on the bytes alone.
#[verifier::external_body]
pub(crate) fn parse_json_bytes(bytes: &Vec<u8>) -> (r: Option<Json>)
    ensures
        opt_view(r) == json_of_bytes(bytes@),
{
    match serde_json::from_slice::<serde_json::Value>(bytes) {
        Ok(value) => Some(json_from_value(value)),
        Err(_) => None,
    }
}

} // verus!
