use vstd::prelude::*;

verus! {

/// A JSON number as it is held by a parsed document: a non-negative
/// integer, a negative integer, or a floating-point number kept as the
/// decimal text that denotes it.
#[derive(Debug)]
pub enum JsonNumber {
    PosInt(u64),
    NegInt(i64),
    Float(String),
}

/// A JSON document.  Objects keep their members in order.
#[derive(Debug)]
pub enum JsonValue {
    Null,
    Bool(bool),
    Number(JsonNumber),
    Str(String),
    Array(Vec<JsonValue>),
    Object(Vec<(String, JsonValue)>),
}

/// The mathematical model of a JSON number.
pub enum Num {
    PosInt(u64),
    NegInt(i64),
    Float(Seq<char>),
}

/// The mathematical model of a JSON document.
pub enum Json {
    Null,
    Bool(bool),
    Number(Num),
    Str(Seq<char>),
    Array(Seq<Json>),
    Object(Seq<(Seq<char>, Json)>),
}

impl JsonNumber {
    pub open spec fn model(self) -> Num {
        match self {
            JsonNumber::PosInt(n) => Num::PosInt(n),
            JsonNumber::NegInt(n) => Num::NegInt(n),
            JsonNumber::Float(t) => Num::Float(t@),
        }
    }
}

impl JsonValue {
    pub open spec fn model(self) -> Json
        decreases self,
    {
        match self {
            JsonValue::Null => Json::Null,
            JsonValue::Bool(b) => Json::Bool(b),
            JsonValue::Number(n) => Json::Number(n.model()),
            JsonValue::Str(s) => Json::Str(s@),
            JsonValue::Array(items) => Json::Array(items_model(items@)),
            JsonValue::Object(members) => Json::Object(members_model(members@)),
        }
    }
}

pub open spec fn items_model(items: Seq<JsonValue>) -> Seq<Json>
    decreases items,
{
    if items.len() == 0 {
        Seq::empty()
    } else {
        items_model(items.drop_last()).push(items.last().model())
    }
}

pub open spec fn members_model(members: Seq<(String, JsonValue)>) -> Seq<(Seq<char>, Json)>
    decreases members,
{
    if members.len() == 0 {
        Seq::empty()
    } else {
        members_model(members.drop_last()).push((members.last().0@, members.last().1.model()))
    }
}

impl View for JsonValue {
    type V = Json;

    open spec fn view(&self) -> Json {
        self.model()
    }
}

/// The JSON form of an integer that fits in 64 bits.
pub open spec fn int_json(n: int) -> Json {
    if n < 0 {
        Json::Number(Num::NegInt(n as i64))
    } else {
        Json::Number(Num::PosInt(n as u64))
    }
}

/// The first member of `members` named `key`.
pub open spec fn member(members: Seq<(Seq<char>, Json)>, key: Seq<char>) -> Option<Json>
    decreases members.len(),
{
    if members.len() == 0 {
        None
    } else if members[0].0 == key {
        Some(members[0].1)
    } else {
        member(members.drop_first(), key)
    }
}

/// What `value.get(key)` yields: the member named `key` of an object, and
/// nothing for any other kind of value.
pub open spec fn json_get(value: Json, key: Seq<char>) -> Option<Json> {
    match value {
        Json::Object(members) => member(members, key),
        _ => None,
    }
}

/// The text of a string value.
pub open spec fn json_str(value: Json) -> Option<Seq<char>> {
    match value {
        Json::Str(s) => Some(s),
        _ => None,
    }
}

/// A non-negative integer value.
pub open spec fn json_u64(value: Json) -> Option<u64> {
    match value {
        Json::Number(Num::PosInt(n)) => Some(n),
        _ => None,
    }
}

/// A boolean value.
pub open spec fn json_bool(value: Json) -> Option<bool> {
    match value {
        Json::Bool(b) => Some(b),
        _ => None,
    }
}

/// The text member `key` of `value`, if it is there and is a string.
pub open spec fn str_member(value: Json, key: Seq<char>) -> Option<Seq<char>> {
    match json_get(value, key) {
        Some(v) => json_str(v),
        None => None,
    }
}

pub proof fn lemma_items_model(items: Seq<JsonValue>)
    ensures
        items_model(items).len() == items.len(),
        forall|i: int| 0 <= i < items.len() ==> #[trigger] items_model(items)[i] == items[i].model(),
    decreases items.len(),
{
    if items.len() > 0 {
        lemma_items_model(items.drop_last());
    }
}

pub proof fn lemma_members_model(members: Seq<(String, JsonValue)>)
    ensures
        members_model(members).len() == members.len(),
        forall|i: int|
            0 <= i < members.len() ==> #[trigger] members_model(members)[i] == (
                members[i].0@,
                members[i].1.model(),
            ),
    decreases members.len(),
{
    if members.len() > 0 {
        lemma_members_model(members.drop_last());
    }
}

/// `member` finds the first entry with the key.
pub proof fn lemma_member_first(members: Seq<(Seq<char>, Json)>, key: Seq<char>, i: int)
    requires
        0 <= i <= members.len(),
        forall|j: int| 0 <= j < i ==> members[j].0 != key,
    ensures
        i < members.len() && members[i].0 == key ==> member(members, key) == Some(members[i].1),
        i == members.len() ==> member(members, key) == None::<Json>,
    decreases i,
{
    if i > 0 {
        lemma_member_first(members.drop_first(), key, i - 1);
    }
}

/// Adds a member at the end of an object's member list.
pub fn push_member(members: &mut Vec<(String, JsonValue)>, key: &str, value: JsonValue)
    ensures
        members_model(final(members)@) == members_model(old(members)@).push((key@, value@)),
{
    let ghost before = members@;
    members.push((key.to_owned(), value));
    assert(members@.drop_last() =~= before);
}

/// Adds an item at the end of an array's item list.
pub fn push_item(items: &mut Vec<JsonValue>, value: JsonValue)
    ensures
        items_model(final(items)@) == items_model(old(items)@).push(value@),
{
    let ghost before = items@;
    items.push(value);
    assert(items@.drop_last() =~= before);
}

/// Equality of two texts.
pub fn same_text(a: &str, b: &str) -> (r: bool)
    ensures
        r == (a@ == b@),
{
    a.to_owned() == b.to_owned()
}

impl JsonValue {
    /// A string value.
    pub fn text(s: &str) -> (v: JsonValue)
        ensures
            v@ == Json::Str(s@),
    {
        JsonValue::Str(s.to_owned())
    }

    /// The object with no members.
    pub fn empty_object() -> (v: JsonValue)
        ensures
            v@ == Json::Object(Seq::empty()),
    {
        JsonValue::Object(Vec::new())
    }

    /// An integer value, kept as a JSON parser keeps it: non-negative
    /// integers as `PosInt`, negative ones as `NegInt`.
    pub fn integer(n: i64) -> (v: JsonValue)
        ensures
            v@ == int_json(n as int),
    {
        if n < 0 {
            JsonValue::Number(JsonNumber::NegInt(n))
        } else {
            JsonValue::Number(JsonNumber::PosInt(n as u64))
        }
    }

    /// The member `key` of an object; nothing for other values.
    pub fn get(&self, key: &str) -> (res: Option<&JsonValue>)
        ensures
            match res {
                Some(v) => json_get(self@, key@) == Some(v@),
                None => json_get(self@, key@) == None::<Json>,
            },
    {
        match self {
            JsonValue::Object(members) => {
                proof {
                    lemma_members_model(members@);
                }
                let ghost ms = members_model(members@);
                assert(self@ == Json::Object(ms));
                let mut i: usize = 0;
                while i < members.len()
                    invariant
                        0 <= i <= members.len(),
                        ms == members_model(members@),
                        self@ == Json::Object(ms),
                        ms.len() == members.len(),
                        forall|k: int| 0 <= k < members.len() ==> #[trigger] ms[k] == (members@[k].0@, members@[k].1.model()),
                        forall|j: int| 0 <= j < i ==> ms[j].0 != key@,
                    decreases members.len() - i,
                {
                    if same_text(members[i].0.as_str(), key) {
                        proof {
                            lemma_member_first(ms, key@, i as int);
                        }
                        return Some(&members[i].1);
                    }
                    i = i + 1;
                }
                proof {
                    lemma_member_first(ms, key@, i as int);
                }
                None
            },
            _ => None,
        }
    }

    /// Takes the member `key` out of an object; nothing for other values.
    pub fn take(self, key: &str) -> (res: Option<JsonValue>)
        ensures
            match res {
                Some(v) => json_get(self@, key@) == Some(v@),
                None => json_get(self@, key@) == None::<Json>,
            },
    {
        let ghost whole = self@;
        match self {
            JsonValue::Object(mut members) => {
                proof {
                    lemma_members_model(members@);
                }
                let ghost ms = members_model(members@);
                assert(whole == Json::Object(ms));
                let mut i: usize = 0;
                while i < members.len()
                    invariant
                        0 <= i <= members.len(),
                        ms == members_model(members@),
                        whole == Json::Object(ms),
                        whole == self@,
                        ms.len() == members.len(),
                        forall|k: int| 0 <= k < members.len() ==> #[trigger] ms[k] == (members@[k].0@, members@[k].1.model()),
                        forall|j: int| 0 <= j < i ==> ms[j].0 != key@,
                    decreases members.len() - i,
                {
                    if same_text(members[i].0.as_str(), key) {
                        proof {
                            lemma_member_first(ms, key@, i as int);
                        }
                        let ghost entry = members@[i as int];
                        let (_, v) = members.remove(i);
                        assert(v == entry.1);
                        return Some(v);
                    }
                    i = i + 1;
                }
                proof {
                    lemma_member_first(ms, key@, i as int);
                }
                None
            },
            _ => None,
        }
    }

    /// The text of a string value.
    pub fn as_str(&self) -> (res: Option<&str>)
        ensures
            match res {
                Some(s) => json_str(self@) == Some(s@),
                None => json_str(self@) == None::<Seq<char>>,
            },
    {
        match self {
            JsonValue::Str(s) => Some(s.as_str()),
            _ => None,
        }
    }

    /// A non-negative integer value.
    pub fn as_u64(&self) -> (res: Option<u64>)
        ensures
            res == json_u64(self@),
    {
        match self {
            JsonValue::Number(JsonNumber::PosInt(n)) => Some(*n),
            _ => None,
        }
    }

    /// A boolean value.
    pub fn as_bool(&self) -> (res: Option<bool>)
        ensures
            res == json_bool(self@),
    {
        match self {
            JsonValue::Bool(b) => Some(*b),
            _ => None,
        }
    }

    /// The text member `key`, if present and a string.
    pub fn str_member(&self, key: &str) -> (res: Option<&str>)
        ensures
            match res {
                Some(s) => str_member(self@, key@) == Some(s@),
                None => str_member(self@, key@) == None::<Seq<char>>,
            },
    {
        match self.get(key) {
            Some(v) => v.as_str(),
            None => None,
        }
    }
}

} // verus!
