use vstd::prelude::*;
use crate::error::Error;
use crate::value::{entry_value, Mapping, Value};

verus! {

/// A kind that a value can be narrowed to for reading.
#[derive(Clone, Copy, Debug, PartialEq, Eq)]
pub enum Kind {
    Str,
    U64,
    I64,
    Bool,
    Null,
    Object,
    Array,
}

/// A kind that a value can be narrowed to for writing: only containers,
/// since a scalar is better replaced whole.
#[derive(Clone, Copy, Debug, PartialEq, Eq)]
pub enum MutKind {
    Object,
    Array,
}

/// A value seen as one kind.
#[derive(Debug, PartialEq)]
pub enum Narrowed<'a> {
    Str(&'a str),
    U64(u64),
    I64(i64),
    Bool(bool),
    Null,
    Object(&'a Mapping),
    Array(&'a Vec<Value>),
}

/// The name of the accessor that narrows to `k`.
pub open spec fn accessor_name(k: Kind) -> Seq<char> {
    match k {
        Kind::Str => "as_str"@,
        Kind::U64 => "as_u64"@,
        Kind::I64 => "as_i64"@,
        Kind::Bool => "as_bool"@,
        Kind::Null => "as_null"@,
        Kind::Object => "as_object"@,
        Kind::Array => "as_array"@,
    }
}

/// The name of the accessor that narrows to `k` for writing.
pub open spec fn mut_accessor_name(k: MutKind) -> Seq<char> {
    match k {
        MutKind::Object => "as_object_mut"@,
        MutKind::Array => "as_array_mut"@,
    }
}

/// Whether `v` can be seen as kind `k`.
pub open spec fn narrowable(v: Value, k: Kind) -> bool {
    match k {
        Kind::Str => v is String,
        Kind::U64 => v is Number && v->Number_0.spec_as_u64() is Some,
        Kind::I64 => v is Number && v->Number_0.spec_as_i64() is Some,
        Kind::Bool => v is Bool,
        Kind::Null => v is Null,
        Kind::Object => v is Object,
        Kind::Array => v is Array,
    }
}

/// Whether `n` is `v` seen as kind `k`.
pub open spec fn narrowed(v: Value, k: Kind, n: Narrowed) -> bool {
    match (k, n) {
        (Kind::Str, Narrowed::Str(t)) => v is String && v->String_0@ == t@,
        (Kind::U64, Narrowed::U64(u)) => v is Number && v->Number_0.spec_as_u64() == Some(u),
        (Kind::I64, Narrowed::I64(i)) => v is Number && v->Number_0.spec_as_i64() == Some(i),
        (Kind::Bool, Narrowed::Bool(b)) => v == Value::Bool(b),
        (Kind::Null, Narrowed::Null) => v is Null,
        (Kind::Object, Narrowed::Object(m)) => v == Value::Object(*m),
        (Kind::Array, Narrowed::Array(a)) => v == Value::Array(*a),
        _ => false,
    }
}

impl Kind {
    /// The name of the accessor that narrows to this kind.
    pub fn accessor(&self) -> (r: &'static str)
        ensures
            r@ == accessor_name(*self),
    {
        match self {
            Kind::Str => "as_str",
            Kind::U64 => "as_u64",
            Kind::I64 => "as_i64",
            Kind::Bool => "as_bool",
            Kind::Null => "as_null",
            Kind::Object => "as_object",
            Kind::Array => "as_array",
        }
    }
}

impl MutKind {
    /// The name of the accessor that narrows to this kind for writing.
    pub fn accessor(&self) -> (r: &'static str)
        ensures
            r@ == mut_accessor_name(*self),
    {
        match self {
            MutKind::Object => "as_object_mut",
            MutKind::Array => "as_array_mut",
        }
    }
}

/// The failure of the accessor `name`.
pub fn cast_failed(name: &str) -> (r: Error)
    ensures
        r is AsCastFailed && r->AsCastFailed_0@ == name@,
{
    Error::AsCastFailed(String::from_str(name))
}

/// Sees `v` as kind `k` through that kind's accessor, or names the accessor
/// that failed.
pub fn convert<'a>(v: &'a Value, k: Kind) -> (r: Result<Narrowed<'a>, Error>)
    ensures
        narrowable(*v, k) ==> r is Ok && narrowed(*v, k, r->Ok_0),
        !narrowable(*v, k) ==> r is Err && r->Err_0 is AsCastFailed && r->Err_0->AsCastFailed_0@
            == accessor_name(k),
{
    let seen = match k {
        Kind::Str => match v.as_str() {
            Some(s) => Some(Narrowed::Str(s)),
            None => None,
        },
        Kind::U64 => match v.as_u64() {
            Some(u) => Some(Narrowed::U64(u)),
            None => None,
        },
        Kind::I64 => match v.as_i64() {
            Some(i) => Some(Narrowed::I64(i)),
            None => None,
        },
        Kind::Bool => match v.as_bool() {
            Some(b) => Some(Narrowed::Bool(b)),
            None => None,
        },
        Kind::Null => match v.as_null() {
            Some(_) => Some(Narrowed::Null),
            None => None,
        },
        Kind::Object => match v.as_object() {
            Some(m) => Some(Narrowed::Object(m)),
            None => None,
        },
        Kind::Array => match v.as_array() {
            Some(a) => Some(Narrowed::Array(a)),
            None => None,
        },
    };
    match seen {
        Some(n) => Ok(n),
        None => Err(cast_failed(k.accessor())),
    }
}


/// Narrowing a mapping to an object keeps its entries: a key looked up in the
/// result finds what the same key finds in the value.
pub proof fn lemma_object_narrowing_keeps_entries(v: Value, n: Narrowed, k: Seq<char>)
    requires
        narrowed(v, Kind::Object, n),
    ensures
        n is Object,
        entry_value(n->Object_0@, k) == v.child_by_name(k),
{
}

} // verus!
