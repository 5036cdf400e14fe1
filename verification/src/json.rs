//! JSON values as the library holds them, and the two places where the JSON
//! crate does the work: reading a text and writing one.

use serde_json::Value;
use vstd::prelude::*;

verus! {

/// A JSON value.
#[derive(Debug)]
pub enum Json {
    Null,
    Bool(bool),
    /// A non-negative integer.
    PosInt(u64),
    /// A negative integer.
    NegInt(i64),
    /// Any other number, as its decimal text.
    Float(String),
    Str(String),
    Array(Vec<Json>),
    /// The members, in the order in which they are held.
    Object(Vec<(String, Json)>),
}

/// What a [`Json`] stands for.
pub enum JsonValue {
    Null,
    Bool(bool),
    PosInt(u64),
    NegInt(i64),
    Float(Seq<char>),
    Str(Seq<char>),
    Array(Seq<JsonValue>),
    Object(Seq<(Seq<char>, JsonValue)>),
}

/// The values of a list of items, one for one.
pub open spec fn items_view(items: Seq<Json>) -> Seq<JsonValue>
    decreases items, 0int,
{
    Seq::new(
        items.len(),
        |i: int|
            if 0 <= i < items.len() {
                value_of(items[i])
            } else {
                JsonValue::Null
            },
    )
}

/// The names and values of a list of members, one for one.
pub open spec fn members_view(members: Seq<(String, Json)>) -> Seq<(Seq<char>, JsonValue)>
    decreases members, 0int,
{
    Seq::new(
        members.len(),
        |i: int|
            if 0 <= i < members.len() {
                (members[i].0@, value_of(members[i].1))
            } else {
                (Seq::empty(), JsonValue::Null)
            },
    )
}

/// The value that `j` stands for.
pub open spec fn value_of(j: Json) -> JsonValue
    decreases j, 1int,
{
    match j {
        Json::Null => JsonValue::Null,
        Json::Bool(b) => JsonValue::Bool(b),
        Json::PosInt(n) => JsonValue::PosInt(n),
        Json::NegInt(n) => JsonValue::NegInt(n),
        Json::Float(s) => JsonValue::Float(s@),
        Json::Str(s) => JsonValue::Str(s@),
        Json::Array(items) => JsonValue::Array(items_view(items@)),
        Json::Object(members) => JsonValue::Object(members_view(members@)),
    }
}

impl View for Json {
    type V = JsonValue;

    open spec fn view(&self) -> JsonValue {
        value_of(*self)
    }
}

/// The value of the first member of `members` named `key`.
pub open spec fn lookup(members: Seq<(Seq<char>, JsonValue)>, key: Seq<char>) -> Option<JsonValue>
    decreases members.len(),
{
    if members.len() == 0 {
        None
    } else if members[0].0 == key {
        Some(members[0].1)
    } else {
        lookup(members.drop_first(), key)
    }
}

impl JsonValue {
    /// The member named `key`, where this is an object that has one.
    pub open spec fn get(self, key: Seq<char>) -> Option<JsonValue> {
        match self {
            JsonValue::Object(members) => lookup(members, key),
            _ => None,
        }
    }

    /// The text, where this is a string.
    pub open spec fn as_str(self) -> Option<Seq<char>> {
        match self {
            JsonValue::Str(s) => Some(s),
            _ => None,
        }
    }

    /// The truth value, where this is one.
    pub open spec fn as_bool(self) -> Option<bool> {
        match self {
            JsonValue::Bool(b) => Some(b),
            _ => None,
        }
    }

    /// The number, where this is a non-negative integer.
    pub open spec fn as_u64(self) -> Option<u64> {
        match self {
            JsonValue::PosInt(n) => Some(n),
            _ => None,
        }
    }
}

/// The JSON number for an integer.
pub open spec fn int_value(n: i64) -> JsonValue {
    if n >= 0 {
        JsonValue::PosInt(n as u64)
    } else {
        JsonValue::NegInt(n)
    }
}

/// The JSON crate's value type, which only the conversions below handle.
#[verifier::external_type_specification]
#[verifier::external_body]
pub struct ExValue(serde_json::Value);

/// What `serde_json::from_str` makes of a text that is read as a
/// `serde_json::Value`: the value, or, where the text is no JSON, the words
/// in which the crate's error says why.
pub uninterp spec fn json_parse(text: Seq<char>) -> Result<JsonValue, Seq<char>>;

/// The text that `serde_json::to_string` writes for a value: compact JSON.
pub uninterp spec fn json_text(value: JsonValue) -> Seq<char>;

/// Takes a `serde_json::Value` apart into a [`Json`], variant by variant. A
/// number becomes `PosInt` where `as_u64` has it, `NegInt` where only `as_i64`
/// has it, and else `Float` with the text that the number prints as; an
/// object's members come in the order in which its map hands them out.
#[verifier::external_body]
fn from_value(v: Value) -> Json {
    match v {
        Value::Null => Json::Null,
        Value::Bool(b) => Json::Bool(b),
        Value::Number(n) => match (n.as_u64(), n.as_i64()) {
            (Some(u), _) => Json::PosInt(u),
            (None, Some(i)) => Json::NegInt(i),
            (None, None) => Json::Float(n.to_string()),
        },
        Value::String(s) => Json::Str(s),
        Value::Array(a) => Json::Array(a.into_iter().map(from_value).collect()),
        Value::Object(m) => Json::Object(m.into_iter().map(|(k, v)| (k, from_value(v))).collect()),
    }
}

/// Builds the `serde_json::Value` for a [`Json`], variant by variant. The
/// members of an object are inserted into its map in their order, so that of
/// two members with one name the later one stays; a `Float` whose text is no
/// finite number becomes `null`, as the crate has it for such floats.
#[verifier::external_body]
fn to_value(j: &Json) -> Value {
    match j {
        Json::Null => Value::Null,
        Json::Bool(b) => Value::Bool(*b),
        Json::PosInt(n) => Value::from(*n),
        Json::NegInt(n) => Value::from(*n),
        Json::Float(s) => s.parse().ok().and_then(serde_json::Number::from_f64).map_or(
            Value::Null,
            Value::Number,
        ),
        Json::Str(s) => Value::String(s.clone()),
        Json::Array(a) => Value::Array(a.iter().map(to_value).collect()),
        Json::Object(m) => Value::Object(m.iter().map(|(k, v)| (k.clone(), to_value(v))).collect()),
    }
}

/// `serde_json::from_str`, reading a `serde_json::Value`. The contract gives
/// the result its name, [`json_parse`]: the value that was read, or the
/// error as the crate prints it.
#[verifier::external_body]
fn parse_text(text: &str) -> (r: Result<Json, String>)
    ensures
        match r {
            Ok(j) => json_parse(text@) == Ok::<JsonValue, Seq<char>>(j@),
            Err(e) => json_parse(text@) == Err::<JsonValue, Seq<char>>(e@),
        },
{
    match serde_json::from_str::<Value>(text) {
        Ok(v) => Ok(from_value(v)),
        Err(e) => Err(e.to_string()),
    }
}

/// `serde_json::to_string` on the `serde_json::Value` built for `j`. The
/// contract gives the result its name, [`json_text`]. The crate documents an
/// error only for maps with keys that are no strings, which a
/// `serde_json::Value` cannot hold.
#[verifier::external_body]
fn print_value(j: &Json) -> (s: String)
    ensures
        s@ == json_text(j@),
{
    serde_json::to_string(&to_value(j)).unwrap_or_default()
}

impl Json {
    /// Reads a JSON text; the error says in words why a text is no JSON.
    pub fn parse(text: &str) -> (r: Result<Json, String>)
        ensures
            match r {
                Ok(j) => json_parse(text@) == Ok::<JsonValue, Seq<char>>(j@),
                Err(e) => json_parse(text@) == Err::<JsonValue, Seq<char>>(e@),
            },
    {
        parse_text(text)
    }

    /// Writes the value as compact JSON.
    pub fn to_text(&self) -> (s: String)
        ensures
            s@ == json_text(self@),
    {
        print_value(self)
    }

    /// A copy of the value.
    pub fn duplicate(&self) -> (r: Json)
        ensures
            r@ == self@,
        decreases self,
    {
        match self {
            Json::Null => Json::Null,
            Json::Bool(b) => Json::Bool(*b),
            Json::PosInt(n) => Json::PosInt(*n),
            Json::NegInt(n) => Json::NegInt(*n),
            Json::Float(s) => Json::Float(s.clone()),
            Json::Str(s) => Json::Str(s.clone()),
            Json::Array(items) => {
                let mut copy: Vec<Json> = Vec::new();
                let mut i: usize = 0;
                while i < items.len()
                    invariant
                        i <= items.len(),
                        decreases_to!(*self => *items),
                        items_view(copy@) == items_view(items@).take(i as int),
                    decreases items.len() - i,
                {
                    copy.push(items[i].duplicate());
                    assert(items_view(items@).take(i + 1) =~= items_view(items@).take(
                        i as int,
                    ).push(items@[i as int]@));
                    i += 1;
                }
                assert(items_view(items@).take(items.len() as int) =~= items_view(items@));
                Json::Array(copy)
            },
            Json::Object(members) => {
                let mut copy: Vec<(String, Json)> = Vec::new();
                let mut i: usize = 0;
                while i < members.len()
                    invariant
                        i <= members.len(),
                        decreases_to!(*self => *members),
                        members_view(copy@) == members_view(members@).take(i as int),
                    decreases members.len() - i,
                {
                    copy.push((members[i].0.clone(), members[i].1.duplicate()));
                    assert(members_view(members@).take(i + 1) =~= members_view(members@).take(
                        i as int,
                    ).push((members@[i as int].0@, members@[i as int].1@)));
                    i += 1;
                }
                assert(members_view(members@).take(members.len() as int) =~= members_view(
                    members@,
                ));
                Json::Object(copy)
            },
        }
    }

    /// Whether two values are the same: the same kind, the same content,
    /// and, in lists and objects, the same items and members in the same
    /// order.
    pub fn same(&self, other: &Json) -> (r: bool)
        ensures
            r == (self@ == other@),
        decreases self,
    {
        match (self, other) {
            (Json::Null, Json::Null) => true,
            (Json::Bool(a), Json::Bool(b)) => *a == *b,
            (Json::PosInt(a), Json::PosInt(b)) => *a == *b,
            (Json::NegInt(a), Json::NegInt(b)) => *a == *b,
            (Json::Float(a), Json::Float(b)) => *a == *b,
            (Json::Str(a), Json::Str(b)) => *a == *b,
            (Json::Array(a), Json::Array(b)) => {
                if a.len() != b.len() {
                    assert(items_view(a@).len() != items_view(b@).len());
                    return false;
                }
                let mut i: usize = 0;
                while i < a.len()
                    invariant
                        i <= a.len(),
                        a.len() == b.len(),
                        decreases_to!(*self => *a),
                        self@ == JsonValue::Array(items_view(a@)),
                        other@ == JsonValue::Array(items_view(b@)),
                        forall|k: int| 0 <= k < i ==> items_view(a@)[k] == items_view(b@)[k],
                    decreases a.len() - i,
                {
                    if !a[i].same(&b[i]) {
                        assert(items_view(a@)[i as int] != items_view(b@)[i as int]);
                        return false;
                    }
                    i += 1;
                }
                assert(items_view(a@) =~= items_view(b@));
                true
            },
            (Json::Object(a), Json::Object(b)) => {
                if a.len() != b.len() {
                    assert(members_view(a@).len() != members_view(b@).len());
                    return false;
                }
                let mut i: usize = 0;
                while i < a.len()
                    invariant
                        i <= a.len(),
                        a.len() == b.len(),
                        decreases_to!(*self => *a),
                        self@ == JsonValue::Object(members_view(a@)),
                        other@ == JsonValue::Object(members_view(b@)),
                        forall|k: int|
                            0 <= k < i ==> members_view(a@)[k] == members_view(b@)[k],
                    decreases a.len() - i,
                {
                    if !(a[i].0 == b[i].0) || !a[i].1.same(&b[i].1) {
                        assert(members_view(a@)[i as int] != members_view(b@)[i as int]);
                        return false;
                    }
                    i += 1;
                }
                assert(members_view(a@) =~= members_view(b@));
                true
            },
            _ => false,
        }
    }

    /// The JSON number for an integer.
    pub fn integer(n: i64) -> (j: Json)
        ensures
            j@ == int_value(n),
    {
        if n >= 0 {
            Json::PosInt(n as u64)
        } else {
            Json::NegInt(n)
        }
    }

    /// A member of an object: a name and a value.
    pub fn member(name: &str, value: Json) -> (m: (String, Json))
        ensures
            m.0@ == name@,
            m.1 == value,
    {
        (name.to_owned(), value)
    }

    /// A JSON string holding `s`.
    pub fn string(s: &str) -> (j: Json)
        ensures
            j@ == JsonValue::Str(s@),
    {
        Json::Str(s.to_owned())
    }

    /// The member named `key`, where this is an object that has one; of
    /// several members with one name, the first.
    pub fn get(&self, key: &str) -> (r: Option<&Json>)
        ensures
            match r {
                Some(v) => self@.get(key@) == Some(v@),
                None => self@.get(key@) is None,
            },
    {
        match self {
            Json::Object(members) => {
                let name = key.to_owned();
                let mut i: usize = 0;
                assert(members_view(members@).skip(0) =~= members_view(members@));
                while i < members.len()
                    invariant
                        i <= members.len(),
                        name@ == key@,
                        self@ == JsonValue::Object(members_view(members@)),
                        lookup(members_view(members@), key@) == lookup(
                            members_view(members@).skip(i as int),
                            key@,
                        ),
                    decreases members.len() - i,
                {
                    let ghost rest = members_view(members@).skip(i as int);
                    assert(rest.drop_first() =~= members_view(members@).skip(i + 1));
                    if members[i].0 == name {
                        return Some(&members[i].1);
                    }
                    i += 1;
                }
                None
            },
            _ => None,
        }
    }

    /// The text, where this is a string.
    pub fn as_str(&self) -> (r: Option<&str>)
        ensures
            match r {
                Some(s) => self@.as_str() == Some(s@),
                None => self@.as_str() is None,
            },
    {
        match self {
            Json::Str(s) => Some(s.as_str()),
            _ => None,
        }
    }

    /// The truth value, where this is one.
    pub fn as_bool(&self) -> (r: Option<bool>)
        ensures
            r == self@.as_bool(),
    {
        match self {
            Json::Bool(b) => Some(*b),
            _ => None,
        }
    }

    /// The number, where this is a non-negative integer.
    pub fn as_u64(&self) -> (r: Option<u64>)
        ensures
            r == self@.as_u64(),
    {
        match self {
            Json::PosInt(n) => Some(*n),
            _ => None,
        }
    }

    /// Whether this is an object.
    pub fn is_object(&self) -> (b: bool)
        ensures
            b == (self@ is Object),
    {
        match self {
            Json::Object(_) => true,
            _ => false,
        }
    }
}

} // verus!
