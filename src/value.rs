use vstd::prelude::*;

verus! {

/// A number as the tree holds it: a non-negative or a negative integer, or a
/// binary64 float kept as its IEEE-754 bit pattern.
#[derive(Clone, Copy, Debug, PartialEq, Eq)]
pub enum Number {
    PosInt(u64),
    NegInt(i64),
    Float(u64),
}

impl Number {
    /// The integer this number stands for; floats have none.
    pub open spec fn int_value(self) -> Option<int> {
        match self {
            Number::PosInt(u) => Some(u as int),
            Number::NegInt(i) => Some(i as int),
            Number::Float(_) => None,
        }
    }

    pub open spec fn spec_as_u64(self) -> Option<u64> {
        match self.int_value() {
            Some(n) => if 0 <= n <= u64::MAX { Some(n as u64) } else { None },
            None => None,
        }
    }

    pub open spec fn spec_as_i64(self) -> Option<i64> {
        match self.int_value() {
            Some(n) => if i64::MIN <= n <= i64::MAX { Some(n as i64) } else { None },
            None => None,
        }
    }

    /// The number as a `u64`, when it is an integer in that range.
    pub fn as_u64(&self) -> (r: Option<u64>)
        ensures
            r == self.spec_as_u64(),
    {
        match *self {
            Number::PosInt(u) => Some(u),
            Number::NegInt(i) => if i >= 0 { Some(i as u64) } else { None },
            Number::Float(_) => None,
        }
    }

    /// The number as an `i64`, when it is an integer in that range.
    pub fn as_i64(&self) -> (r: Option<i64>)
        ensures
            r == self.spec_as_i64(),
    {
        match *self {
            Number::PosInt(u) => if u <= i64::MAX as u64 { Some(u as i64) } else { None },
            Number::NegInt(i) => Some(i),
            Number::Float(_) => None,
        }
    }
}


/// A key for one step down a tree: a name for a mapping, a position for a
/// sequence.
#[derive(Clone, Debug, PartialEq, Eq)]
pub enum IndexKey {
    ByName(String),
    ByPosition(usize),
}

/// A self-describing tree value.
#[derive(Debug, PartialEq)]
pub enum Value {
    Null,
    Bool(bool),
    Number(Number),
    String(String),
    Array(Vec<Value>),
    Object(Mapping),
}

/// A mapping from string keys to values, in the order in which keys were
/// first inserted. Lookups go to the first entry with the key; `insert`
/// keeps keys unique.
#[derive(Debug, PartialEq)]
pub struct Mapping {
    entries: Vec<(String, Value)>,
}

/// Position of the first entry whose key is `k`.
pub open spec fn key_position(es: Seq<(String, Value)>, k: Seq<char>) -> Option<int>
    decreases es.len(),
{
    if es.len() == 0 {
        None
    } else if es[0].0@ == k {
        Some(0)
    } else {
        match key_position(es.drop_first(), k) {
            Some(i) => Some(i + 1),
            None => None,
        }
    }
}

/// No two entries share a key.
pub open spec fn keys_unique(es: Seq<(String, Value)>) -> bool {
    forall|i: int, j: int| 0 <= i < j < es.len() ==> es[i].0@ != es[j].0@
}

/// The value stored under `k`, if any.
pub open spec fn entry_value(es: Seq<(String, Value)>, k: Seq<char>) -> Option<Value> {
    match key_position(es, k) {
        Some(i) => Some(es[i].1),
        None => None,
    }
}

/// The first position with the key holds it, and no earlier one does.
pub proof fn lemma_key_position(es: Seq<(String, Value)>, k: Seq<char>)
    ensures
        match key_position(es, k) {
            Some(i) => 0 <= i < es.len() && es[i].0@ == k && forall|j: int|
                0 <= j < i ==> es[j].0@ != k,
            None => forall|j: int| 0 <= j < es.len() ==> es[j].0@ != k,
        },
    decreases es.len(),
{
    if es.len() > 0 {
        lemma_key_position(es.drop_first(), k);
        assert forall|j: int| 1 <= j < es.len() implies es[j] == es.drop_first()[j - 1] by {}
    }
}

/// A position that holds the key, with none before it, is the first.
pub proof fn lemma_key_position_first(es: Seq<(String, Value)>, k: Seq<char>, i: int)
    requires
        0 <= i < es.len(),
        es[i].0@ == k,
        forall|j: int| 0 <= j < i ==> es[j].0@ != k,
    ensures
        key_position(es, k) == Some(i),
{
    lemma_key_position(es, k);
}

/// A key that no entry holds has no position.
pub proof fn lemma_key_position_none(es: Seq<(String, Value)>, k: Seq<char>)
    requires
        forall|j: int| 0 <= j < es.len() ==> es[j].0@ != k,
    ensures
        key_position(es, k) is None,
{
    lemma_key_position(es, k);
}

/// Replacing the value of an entry keeps every key where it was.
pub proof fn lemma_update_value_keeps_position(
    es: Seq<(String, Value)>,
    i: int,
    c: Value,
    k: Seq<char>,
)
    requires
        0 <= i < es.len(),
    ensures
        key_position(es.update(i, (es[i].0, c)), k) == key_position(es, k),
{
    let es2 = es.update(i, (es[i].0, c));
    lemma_key_position(es, k);
    lemma_key_position(es2, k);
    assert forall|j: int| 0 <= j < es.len() implies es2[j].0@ == es[j].0@ by {}
    match key_position(es, k) {
        Some(p) => lemma_key_position_first(es2, k, p),
        None => lemma_key_position_none(es2, k),
    }
}

impl View for Mapping {
    type V = Seq<(String, Value)>;

    closed spec fn view(&self) -> Seq<(String, Value)> {
        self.entries@
    }
}

impl Mapping {
    /// An empty mapping.
    pub fn new() -> (r: Mapping)
        ensures
            r@ == Seq::<(String, Value)>::empty(),
    {
        Mapping { entries: Vec::new() }
    }

    /// Number of entries.
    pub fn len(&self) -> (r: usize)
        ensures
            r == self@.len(),
    {
        self.entries.len()
    }

    /// Position of the first entry with the key `k`.
    fn position(&self, k: &String) -> (r: Option<usize>)
        ensures
            match r {
                Some(i) => key_position(self@, k@) == Some(i as int),
                None => key_position(self@, k@) is None,
            },
    {
        let mut i: usize = 0;
        while i < self.entries.len()
            invariant
                0 <= i <= self.entries@.len(),
                forall|j: int| 0 <= j < i ==> self.entries@[j].0@ != k@,
            decreases self.entries@.len() - i,
        {
            if self.entries[i].0 == *k {
                proof {
                    lemma_key_position_first(self@, k@, i as int);
                }
                return Some(i);
            }
            i = i + 1;
        }
        proof {
            lemma_key_position_none(self@, k@);
        }
        None
    }

    /// The value stored under `k`.
    pub fn get(&self, k: &String) -> (r: Option<&Value>)
        ensures
            match entry_value(self@, k@) {
                Some(v) => r is Some && *r->Some_0 == v,
                None => r is None,
            },
    {
        proof {
            lemma_key_position(self@, k@);
        }
        match self.position(k) {
            Some(i) => Some(&self.entries[i].1),
            None => None,
        }
    }

    /// Exclusive access to the value stored under `k`; the key stays.
    pub fn get_mut(&mut self, k: &String) -> (r: Option<&mut Value>)
        ensures
            match key_position(old(self)@, k@) {
                Some(i) => r is Some && *r->Some_0 == old(self)@[i].1 && final(self)@ == old(
                    self,
                )@.update(i, (old(self)@[i].0, *final(r->Some_0))),
                None => r is None && *final(self) == *old(self),
            },
    {
        proof {
            lemma_key_position(self@, k@);
        }
        match self.position(k) {
            Some(i) => {
                let entry = &mut self.entries[i];
                Some(&mut entry.1)
            },
            None => None,
        }
    }

    /// Stores `v` under `k`: in place where the key is present, else as a new
    /// last entry.
    pub fn insert(&mut self, k: String, v: Value)
        ensures
            match key_position(old(self)@, k@) {
                Some(i) => final(self)@ == old(self)@.update(i, (old(self)@[i].0, v)),
                None => final(self)@ == old(self)@.push((k, v)),
            },
            keys_unique(old(self)@) ==> keys_unique(final(self)@),
    {
        proof {
            lemma_key_position(self@, k@);
        }
        match self.position(&k) {
            Some(i) => {
                let entry = &mut self.entries[i];
                entry.1 = v;
            },
            None => {
                self.entries.push((k, v));
            },
        }
    }
}

impl Value {
    /// The child stored under the name `k`; only a mapping has one.
    pub open spec fn child_by_name(self, k: Seq<char>) -> Option<Value> {
        match self {
            Value::Object(m) => entry_value(m@, k),
            _ => None,
        }
    }

    /// The child at position `i`; only a sequence has one.
    pub open spec fn child_at(self, i: int) -> Option<Value> {
        match self {
            Value::Array(a) => if 0 <= i < a@.len() {
                Some(a@[i])
            } else {
                None
            },
            _ => None,
        }
    }

    pub open spec fn child(self, key: IndexKey) -> Option<Value> {
        match key {
            IndexKey::ByName(k) => self.child_by_name(k@),
            IndexKey::ByPosition(i) => self.child_at(i as int),
        }
    }

    /// `after` is this mapping with the value under the name `k` replaced by
    /// `c`, every key and every other entry left as it was.
    pub open spec fn replaced_by_name(self, k: Seq<char>, after: Value, c: Value) -> bool {
        match self {
            Value::Object(m) => match key_position(m@, k) {
                Some(i) => after is Object && after->Object_0@ == m@.update(i, (m@[i].0, c)),
                None => false,
            },
            _ => false,
        }
    }

    /// `after` is this sequence with the element at `i` replaced by `c`.
    pub open spec fn replaced_at(self, i: int, after: Value, c: Value) -> bool {
        match self {
            Value::Array(a) => 0 <= i < a@.len() && after is Array && after->Array_0@ == a@.update(
                i,
                c,
            ),
            _ => false,
        }
    }

    pub open spec fn replaced(self, key: IndexKey, after: Value, c: Value) -> bool {
        match key {
            IndexKey::ByName(k) => self.replaced_by_name(k@, after, c),
            IndexKey::ByPosition(i) => self.replaced_at(i as int, after, c),
        }
    }

    /// After a replacement by name, the child under that name is the new one.
    pub broadcast proof fn lemma_replaced_by_name_child(self, k: Seq<char>, after: Value, c: Value)
        requires
            #[trigger] self.replaced_by_name(k, after, c),
        ensures
            after.child_by_name(k) == Some(c),
    {
        let m = self->Object_0;
        let i = key_position(m@, k)->Some_0;
        lemma_key_position(m@, k);
        lemma_update_value_keeps_position(m@, i, c, k);
    }

    /// After a replacement at a position, the child there is the new one.
    pub broadcast proof fn lemma_replaced_at_child(self, i: int, after: Value, c: Value)
        requires
            #[trigger] self.replaced_at(i, after, c),
        ensures
            after.child_at(i) == Some(c),
    {
    }

    /// The child under the name `k`.
    pub fn get_by_name(&self, k: &String) -> (r: Option<&Value>)
        ensures
            match self.child_by_name(k@) {
                Some(c) => r is Some && *r->Some_0 == c,
                None => r is None,
            },
    {
        match self {
            Value::Object(m) => m.get(k),
            _ => None,
        }
    }

    /// The child at position `i`.
    pub fn get_at(&self, i: usize) -> (r: Option<&Value>)
        ensures
            match self.child_at(i as int) {
                Some(c) => r is Some && *r->Some_0 == c,
                None => r is None,
            },
    {
        match self {
            Value::Array(a) => if i < a.len() {
                Some(&a[i])
            } else {
                None
            },
            _ => None,
        }
    }

    /// The child under `key`: a name looks into a mapping, a position into a
    /// sequence; any other pairing finds nothing.
    pub fn get(&self, key: &IndexKey) -> (r: Option<&Value>)
        ensures
            match self.child(*key) {
                Some(c) => r is Some && *r->Some_0 == c,
                None => r is None,
            },
    {
        match key {
            IndexKey::ByName(k) => self.get_by_name(k),
            IndexKey::ByPosition(i) => self.get_at(*i),
        }
    }

    /// The text, when this is a string.
    pub fn as_str(&self) -> (r: Option<&str>)
        ensures
            match self {
                Value::String(s) => r is Some && r->Some_0@ == s@,
                _ => r is None,
            },
    {
        match self {
            Value::String(s) => Some(s.as_str()),
            _ => None,
        }
    }

    /// The number as a `u64`, when this is an integer in that range.
    pub fn as_u64(&self) -> (r: Option<u64>)
        ensures
            match self {
                Value::Number(n) => r == n.spec_as_u64(),
                _ => r is None,
            },
    {
        match self {
            Value::Number(n) => n.as_u64(),
            _ => None,
        }
    }

    /// The number as an `i64`, when this is an integer in that range.
    pub fn as_i64(&self) -> (r: Option<i64>)
        ensures
            match self {
                Value::Number(n) => r == n.spec_as_i64(),
                _ => r is None,
            },
    {
        match self {
            Value::Number(n) => n.as_i64(),
            _ => None,
        }
    }

    /// The flag, when this is a boolean.
    pub fn as_bool(&self) -> (r: Option<bool>)
        ensures
            match self {
                Value::Bool(b) => r == Some(*b),
                _ => r is None,
            },
    {
        match self {
            Value::Bool(b) => Some(*b),
            _ => None,
        }
    }

    /// `Some(())` exactly when this is null.
    pub fn as_null(&self) -> (r: Option<()>)
        ensures
            r is Some <==> *self is Null,
    {
        match self {
            Value::Null => Some(()),
            _ => None,
        }
    }

    /// The mapping, when this is one.
    pub fn as_object(&self) -> (r: Option<&Mapping>)
        ensures
            match self {
                Value::Object(m) => r is Some && *r->Some_0 == m,
                _ => r is None,
            },
    {
        match self {
            Value::Object(m) => Some(m),
            _ => None,
        }
    }

    /// The elements, when this is a sequence.
    pub fn as_array(&self) -> (r: Option<&Vec<Value>>)
        ensures
            match self {
                Value::Array(a) => r is Some && *r->Some_0 == a,
                _ => r is None,
            },
    {
        match self {
            Value::Array(a) => Some(a),
            _ => None,
        }
    }

    /// Exclusive access to the mapping, when this is one.
    pub fn as_object_mut(&mut self) -> (r: Option<&mut Mapping>)
        ensures
            match *old(self) {
                Value::Object(m) => r is Some && *r->Some_0 == m && *final(self) == Value::Object(
                    *final(r->Some_0),
                ),
                _ => r is None && *final(self) == *old(self),
            },
    {
        match self {
            Value::Object(m) => Some(m),
            _ => None,
        }
    }

    /// Exclusive access to the elements, when this is a sequence.
    pub fn as_array_mut(&mut self) -> (r: Option<&mut Vec<Value>>)
        ensures
            match *old(self) {
                Value::Array(a) => r is Some && *r->Some_0 == a && *final(self) == Value::Array(
                    *final(r->Some_0),
                ),
                _ => r is None && *final(self) == *old(self),
            },
    {
        match self {
            Value::Array(a) => Some(a),
            _ => None,
        }
    }

    /// Exclusive access to the child under the name `k`.
    pub fn get_mut_by_name(&mut self, k: &String) -> (r: Option<&mut Value>)
        ensures
            match old(self).child_by_name(k@) {
                Some(c) => r is Some && *r->Some_0 == c && old(self).replaced_by_name(
                    k@,
                    *final(self),
                    *final(r->Some_0),
                ),
                None => r is None && *final(self) == *old(self),
            },
    {
        match self {
            Value::Object(m) => m.get_mut(k),
            _ => None,
        }
    }

    /// Exclusive access to the child at position `i`.
    pub fn get_mut_at(&mut self, i: usize) -> (r: Option<&mut Value>)
        ensures
            match old(self).child_at(i as int) {
                Some(c) => r is Some && *r->Some_0 == c && old(self).replaced_at(
                    i as int,
                    *final(self),
                    *final(r->Some_0),
                ),
                None => r is None && *final(self) == *old(self),
            },
    {
        match self {
            Value::Array(a) => if i < a.len() {
                Some(&mut a[i])
            } else {
                None
            },
            _ => None,
        }
    }

    /// Exclusive access to the child under `key`.
    pub fn get_mut(&mut self, key: &IndexKey) -> (r: Option<&mut Value>)
        ensures
            match old(self).child(*key) {
                Some(c) => r is Some && *r->Some_0 == c && old(self).replaced(
                    *key,
                    *final(self),
                    *final(r->Some_0),
                ),
                None => r is None && *final(self) == *old(self),
            },
    {
        match key {
            IndexKey::ByName(k) => self.get_mut_by_name(k),
            IndexKey::ByPosition(i) => self.get_mut_at(*i),
        }
    }
}

} // verus!
