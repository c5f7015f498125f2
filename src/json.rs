use vstd::prelude::*;

verus! {

/// A JSON number, kept as the three forms a JSON reader produces.
#[derive(Debug, PartialEq, Eq)]
pub enum JsonNumber {
    PosInt(u64),
    NegInt(i64),
    /// A number with a fraction or exponent, kept as its decimal text.
    Float(String),
}

/// A JSON value. Object members keep their order.
#[derive(Debug, PartialEq, Eq)]
pub enum Json {
    Null,
    Bool(bool),
    Number(JsonNumber),
    Str(String),
    Array(Vec<Json>),
    Object(Vec<(String, Json)>),
}

/// Mathematical model of a JSON number.
pub ghost enum NumberV {
    PosInt(u64),
    NegInt(i64),
    Float(Seq<char>),
}

/// Mathematical model of a JSON value.
pub ghost enum JsonV {
    Null,
    Bool(bool),
    Number(NumberV),
    Str(Seq<char>),
    Array(Seq<JsonV>),
    Object(Seq<(Seq<char>, JsonV)>),
}

impl JsonNumber {
    pub open spec fn view(&self) -> NumberV {
        match self {
            JsonNumber::PosInt(n) => NumberV::PosInt(*n),
            JsonNumber::NegInt(n) => NumberV::NegInt(*n),
            JsonNumber::Float(s) => NumberV::Float(s@),
        }
    }
}

pub open spec fn view_items(items: Seq<Json>) -> Seq<JsonV>
    decreases items,
{
    Seq::new(items.len(), |i: int| if 0 <= i < items.len() { items[i].view() } else { JsonV::Null })
}

pub open spec fn view_members(members: Seq<(String, Json)>) -> Seq<(Seq<char>, JsonV)>
    decreases members,
{
    Seq::new(
        members.len(),
        |i: int|
            if 0 <= i < members.len() {
                (members[i].0@, members[i].1.view())
            } else {
                (Seq::empty(), JsonV::Null)
            },
    )
}

/// The value of the first member named `key`, if any.
pub open spec fn member_of(members: Seq<(Seq<char>, JsonV)>, key: Seq<char>) -> Option<JsonV>
    decreases members.len(),
{
    if members.len() == 0 {
        None
    } else if members[0].0 == key {
        Some(members[0].1)
    } else {
        member_of(members.drop_first(), key)
    }
}

/// The member `key` of `v`, where `v` is an object.
pub open spec fn field_of(v: JsonV, key: Seq<char>) -> Option<JsonV> {
    match v {
        JsonV::Object(members) => member_of(members, key),
        _ => None,
    }
}

/// Follows `path` through nested objects, one key per step.
pub open spec fn path_of(v: JsonV, path: Seq<Seq<char>>) -> Option<JsonV>
    decreases path.len(),
{
    if path.len() == 0 {
        Some(v)
    } else {
        match field_of(v, path[0]) {
            Some(inner) => path_of(inner, path.drop_first()),
            None => None,
        }
    }
}

/// One step along a path: where member `key` of `v` is `inner`, following
/// `key` and then `rest` from `v` is following `rest` from `inner`.
pub proof fn lemma_path_step(v: JsonV, key: Seq<char>, rest: Seq<Seq<char>>, inner: JsonV)
    requires
        field_of(v, key) == Some(inner),
    ensures
        path_of(v, seq![key] + rest) == path_of(inner, rest),
{
    let p = seq![key] + rest;
    assert(p[0] == key);
    assert(p.drop_first() =~= rest);
}

/// The member at position `i` is the first one named `key`, so it is the
/// one found.
pub proof fn lemma_member_at(members: Seq<(Seq<char>, JsonV)>, i: int, key: Seq<char>)
    requires
        0 <= i < members.len(),
        members[i].0 == key,
        forall|j: int| 0 <= j < i ==> #[trigger] members[j].0 != key,
    ensures
        member_of(members, key) == Some(members[i].1),
    decreases i,
{
    if i > 0 {
        let rest = members.drop_first();
        assert forall|j: int| 0 <= j < i - 1 implies #[trigger] rest[j].0 != key by {
            assert(rest[j] == members[j + 1]);
        }
        lemma_member_at(rest, i - 1, key);
    }
}

impl Json {
    pub open spec fn view(&self) -> JsonV
        decreases self,
    {
        match self {
            Json::Null => JsonV::Null,
            Json::Bool(b) => JsonV::Bool(*b),
            Json::Number(n) => JsonV::Number(n.view()),
            Json::Str(s) => JsonV::Str(s@),
            Json::Array(v) => JsonV::Array(view_items(v@)),
            Json::Object(m) => JsonV::Object(view_members(m@)),
        }
    }

    /// The member `key` of this value, where it is an object; the first one
    /// where several share the key.
    pub fn get(&self, key: &str) -> (r: Option<&Json>)
        ensures
            match r {
                Some(x) => field_of(self@, key@) == Some(x@),
                None => field_of(self@, key@) is None,
            },
    {
        match self {
            Json::Object(members) => {
                let ghost mv = view_members(members@);
                let k = key.to_owned();
                let mut i: usize = 0;
                assert(mv.subrange(0, mv.len() as int) =~= mv);
                while i < members.len()
                    invariant
                        0 <= i <= members.len(),
                        mv == view_members(members@),
                        self@ == JsonV::Object(mv),
                        k@ == key@,
                        member_of(mv, key@) == member_of(mv.subrange(i as int, mv.len() as int), key@),
                    decreases members.len() - i,
                {
                    proof {
                        let rest = mv.subrange(i as int, mv.len() as int);
                        assert(rest.drop_first() =~= mv.subrange(i + 1, mv.len() as int));
                        assert(rest[0] == mv[i as int]);
                        assert(mv[i as int] == (members@[i as int].0@, members@[i as int].1@));
                    }
                    if members[i].0 == k {
                        proof {
                            let rest = mv.subrange(i as int, mv.len() as int);
                            assert(rest[0].0 == key@);
                            assert(member_of(rest, key@) == Some(rest[0].1));
                        }
                        return Some(&members[i].1);
                    }
                    i = i + 1;
                }
                proof {
                    assert(mv.subrange(i as int, mv.len() as int).len() == 0);
                }
                None
            },
            _ => None,
        }
    }

    /// The text of this value, where it is a string.
    pub fn as_str(&self) -> (r: Option<&String>)
        ensures
            match r {
                Some(s) => self@ == JsonV::Str(s@),
                None => !(self@ is Str),
            },
    {
        match self {
            Json::Str(s) => Some(s),
            _ => None,
        }
    }

    /// Whether this value is an object.
    pub fn is_object(&self) -> (r: bool)
        ensures
            r == (self@ is Object),
    {
        match self {
            Json::Object(_) => true,
            _ => false,
        }
    }

    /// A copy of this value, members and items in the same order.
    pub fn deep_clone(&self) -> (r: Json)
        ensures
            r@ == self@,
        decreases self,
    {
        match self {
            Json::Null => Json::Null,
            Json::Bool(b) => Json::Bool(*b),
            Json::Number(JsonNumber::PosInt(n)) => Json::Number(JsonNumber::PosInt(*n)),
            Json::Number(JsonNumber::NegInt(n)) => Json::Number(JsonNumber::NegInt(*n)),
            Json::Number(JsonNumber::Float(t)) => Json::Number(JsonNumber::Float(t.clone())),
            Json::Str(s) => Json::Str(s.clone()),
            Json::Array(items) => {
                let mut out: Vec<Json> = Vec::new();
                let mut i: usize = 0;
                while i < items.len()
                    invariant
                        i <= items.len(),
                        out@.len() == i,
                        *self == Json::Array(*items),
                        forall|j: int| 0 <= j < i ==> (#[trigger] out@[j])@ == items@[j]@,
                    decreases items.len() - i,
                {
                    proof {
                        assert(decreases_to!(*self => (*self)->Array_0));
                        assert(decreases_to!(*items => items@));
                        assert(decreases_to!(items@ => items@[i as int]));
                    }
                    out.push(items[i].deep_clone());
                    i = i + 1;
                }
                assert(view_items(out@) =~= view_items(items@));
                Json::Array(out)
            },
            Json::Object(members) => {
                let mut out: Vec<(String, Json)> = Vec::new();
                let mut i: usize = 0;
                while i < members.len()
                    invariant
                        i <= members.len(),
                        out@.len() == i,
                        *self == Json::Object(*members),
                        forall|j: int|
                            0 <= j < i ==> (#[trigger] out@[j]).0@ == members@[j].0@ && out@[j].1@
                                == members@[j].1@,
                    decreases members.len() - i,
                {
                    proof {
                        assert(decreases_to!(*self => (*self)->Object_0));
                        assert(decreases_to!(*members => members@));
                        assert(decreases_to!(members@ => members@[i as int]));
                        assert(decreases_to!(members@[i as int] => members@[i as int].1));
                    }
                    let item = (members[i].0.clone(), members[i].1.deep_clone());
                    out.push(item);
                    i = i + 1;
                }
                assert(view_members(out@) =~= view_members(members@));
                Json::Object(out)
            },
        }
    }

    /// An object with no members.
    pub fn empty_object() -> (r: Json)
        ensures
            r@ == JsonV::Object(Seq::empty()),
    {
        let r = Json::Object(Vec::new());
        assert(view_members(Seq::<(String, Json)>::empty()) =~= Seq::empty());
        r
    }

    /// An array with no items.
    pub fn empty_array() -> (r: Json)
        ensures
            r@ == JsonV::Array(Seq::empty()),
    {
        let r = Json::Array(Vec::new());
        assert(view_items(Seq::<Json>::empty()) =~= Seq::empty());
        r
    }

    /// Appends the member `key: value` to this object.
    pub fn push_member(&mut self, key: &str, value: Json)
        requires
            old(self)@ is Object,
        ensures
            final(self)@ == JsonV::Object(old(self)@->Object_0.push((key@, value@))),
    {
        let ghost v = value@;
        match self {
            Json::Object(members) => {
                let ghost before = members@;
                members.push((key.to_owned(), value));
                assert(view_members(members@) =~= view_members(before).push((key@, v)));
            },
            _ => {},
        }
    }

    /// Appends `item` to this array.
    pub fn push_item(&mut self, item: Json)
        requires
            old(self)@ is Array,
        ensures
            final(self)@ == JsonV::Array(old(self)@->Array_0.push(item@)),
    {
        let ghost v = item@;
        match self {
            Json::Array(items) => {
                let ghost before = items@;
                items.push(item);
                assert(view_items(items@) =~= view_items(before).push(v));
            },
            _ => {},
        }
    }

    /// A string value holding `s`.
    pub fn from_string(s: String) -> (r: Json)
        ensures
            r@ == JsonV::Str(s@),
    {
        Json::Str(s)
    }

    /// A string value with the text of `s`.
    pub fn from_text(s: &str) -> (r: Json)
        ensures
            r@ == JsonV::Str(s@),
    {
        Json::Str(s.to_owned())
    }
}

} // verus!
