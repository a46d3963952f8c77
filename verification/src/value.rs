//! The canonical value model: a JSON-isomorphic tree of nulls, booleans,
//! numbers, strings, ordered arrays and ordered-key objects.
//!
//! `Value` is the executable type that conversions build; `JVal` is its
//! mathematical model (`Value::view` maps one onto the other). Object keys
//! keep their insertion order, and a key set is fixed per producing schema.

use vstd::prelude::*;

verus! {

broadcast use vstd::std_specs::vec::group_vec_axioms, vstd::seq::group_seq_axioms;

/// A canonical structured value, isomorphic to a JSON document.
///
/// Numbers keep the split the wire format makes: non-negative integers,
/// negative integers, and binary64 values carried by their raw bit pattern
/// (the pattern comes from, and returns to, code outside the verified
/// library; in here it is an opaque 64-bit datum).
#[derive(Debug, PartialEq, Eq)]
pub enum Value {
    Null,
    Bool(bool),
    Uint(u64),
    Int(i64),
    Float(u64),
    Str(String),
    Arr(Vec<Value>),
    Obj(Vec<(String, Value)>),
}

/// The mathematical model of a `Value`.
#[verifier::ext_equal]
pub enum JVal {
    Null,
    Bool(bool),
    Uint(u64),
    Int(i64),
    Float(u64),
    Str(Seq<char>),
    Arr(Seq<JVal>),
    Obj(Seq<(Seq<char>, JVal)>),
}

/// Model of a sequence of values, element by element.
pub open spec fn values_model(s: Seq<Value>) -> Seq<JVal>
    decreases s,
{
    Seq::new(
        s.len(),
        |i: int|
            if 0 <= i < s.len() {
                value_model(s[i])
            } else {
                JVal::Null
            },
    )
}

/// Model of a sequence of key/value entries, element by element.
pub open spec fn entries_model(s: Seq<(String, Value)>) -> Seq<(Seq<char>, JVal)>
    decreases s,
{
    Seq::new(
        s.len(),
        |i: int|
            if 0 <= i < s.len() {
                (s[i].0@, value_model(s[i].1))
            } else {
                (Seq::<char>::empty(), JVal::Null)
            },
    )
}

/// Model of one value.
pub open spec fn value_model(v: Value) -> JVal
    decreases v,
{
    match v {
        Value::Null => JVal::Null,
        Value::Bool(b) => JVal::Bool(b),
        Value::Uint(n) => JVal::Uint(n),
        Value::Int(n) => JVal::Int(n),
        Value::Float(bits) => JVal::Float(bits),
        Value::Str(s) => JVal::Str(s@),
        Value::Arr(elems) => JVal::Arr(values_model(elems@)),
        Value::Obj(fields) => JVal::Obj(entries_model(fields@)),
    }
}

impl View for Value {
    type V = JVal;

    open spec fn view(&self) -> JVal {
        value_model(*self)
    }
}

/// The keys of an object's entries, in order.
pub open spec fn keys_of(entries: Seq<(Seq<char>, JVal)>) -> Seq<Seq<char>> {
    Seq::new(entries.len(), |i: int| entries[i].0)
}

/// First entry whose key matches, searched front to back.
pub open spec fn lookup(entries: Seq<(Seq<char>, JVal)>, key: Seq<char>) -> Option<JVal>
    decreases entries.len(),
{
    if entries.len() == 0 {
        Option::None
    } else if entries[0].0 == key {
        Option::Some(entries[0].1)
    } else {
        lookup(entries.drop_first(), key)
    }
}

/// Where the first `i` keys all miss and the `i`-th matches, the lookup
/// returns exactly the `i`-th entry's value.
pub proof fn lemma_lookup_hit(entries: Seq<(Seq<char>, JVal)>, key: Seq<char>, i: int)
    requires
        0 <= i < entries.len(),
        forall|j: int| 0 <= j < i ==> entries[j].0 != key,
        entries[i].0 == key,
    ensures
        lookup(entries, key) == Option::Some(entries[i].1),
    decreases i,
{
    if i > 0 {
        lemma_lookup_hit(entries.drop_first(), key, i - 1);
    }
}

/// Where no key matches, the lookup returns nothing.
pub proof fn lemma_lookup_miss(entries: Seq<(Seq<char>, JVal)>, key: Seq<char>)
    requires
        forall|j: int| 0 <= j < entries.len() ==> entries[j].0 != key,
    ensures
        lookup(entries, key) is None,
    decreases entries.len(),
{
    if entries.len() > 0 {
        lemma_lookup_miss(entries.drop_first(), key);
    }
}

impl Value {
    /// True exactly of `Null`.
    pub fn is_null(&self) -> (r: bool)
        ensures
            r == (self@ is Null),
    {
        matches!(self, Value::Null)
    }

    /// True exactly of objects.
    pub fn is_object(&self) -> (r: bool)
        ensures
            r == (self@ is Obj),
    {
        matches!(self, Value::Obj(_))
    }

    /// True exactly of strings.
    pub fn is_string(&self) -> (r: bool)
        ensures
            r == (self@ is Str),
    {
        matches!(self, Value::Str(_))
    }

    /// The boolean payload, if this is a boolean.
    pub fn as_bool(&self) -> (r: Option<bool>)
        ensures
            match r {
                Option::Some(b) => self@ == JVal::Bool(b),
                Option::None => !(self@ is Bool),
            },
    {
        match self {
            Value::Bool(b) => Option::Some(*b),
            _ => Option::None,
        }
    }

    /// The string payload, if this is a string.
    pub fn as_str(&self) -> (r: Option<&String>)
        ensures
            match r {
                Option::Some(s) => self@ == JVal::Str(s@),
                Option::None => !(self@ is Str),
            },
    {
        match self {
            Value::Str(s) => Option::Some(s),
            _ => Option::None,
        }
    }

    /// The elements, if this is an array.
    pub fn as_array(&self) -> (r: Option<&Vec<Value>>)
        ensures
            match r {
                Option::Some(elems) => self@ == JVal::Arr(values_model(elems@)),
                Option::None => !(self@ is Arr),
            },
    {
        match self {
            Value::Arr(elems) => Option::Some(elems),
            _ => Option::None,
        }
    }

    /// The entries, if this is an object.
    pub fn as_object(&self) -> (r: Option<&Vec<(String, Value)>>)
        ensures
            match r {
                Option::Some(fields) => self@ == JVal::Obj(entries_model(fields@)),
                Option::None => !(self@ is Obj),
            },
    {
        match self {
            Value::Obj(fields) => Option::Some(fields),
            _ => Option::None,
        }
    }

    /// The value under `key`, if this is an object with such an entry;
    /// the first matching entry wins.
    #[verifier::loop_isolation(false)]
    pub fn get<'a>(&'a self, key: &str) -> (r: Option<&'a Value>)
        ensures
            match self@ {
                JVal::Obj(entries) => match r {
                    Option::Some(v) => lookup(entries, key@) == Option::Some(v@),
                    Option::None => lookup(entries, key@) is None,
                },
                _ => r is None,
            },
    {
        match self {
            Value::Obj(fields) => {
                let k: String = key.to_owned();
                let n = fields.len();
                for i in 0..n
                    invariant
                        n == fields.len(),
                        forall|j: int| 0 <= j < i ==> entries_model(fields@)[j].0 != key@,
                    decreases n - i,
                {
                    if fields[i].0 == k {
                        proof {
                            lemma_lookup_hit(entries_model(fields@), key@, i as int);
                        }
                        return Option::Some(&fields[i].1);
                    }
                }
                proof {
                    lemma_lookup_miss(entries_model(fields@), key@);
                }
                Option::None
            },
            _ => Option::None,
        }
    }
}

} // verus!
