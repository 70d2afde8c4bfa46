use vstd::prelude::*;
use crate::error::{DeError, Target};
use crate::value::{Number, Value};

verus! {

/// A type that values can be decoded into. Decoding reads the value and
/// builds a new one; the tree is left as it was.
pub trait FromValue: Sized {
    /// Whether `v` has the shape that this type reads.
    spec fn decodable(v: Value) -> bool;

    /// Whether `r` is what `v` decodes into.
    spec fn decodes(v: Value, r: Self) -> bool;

    fn from_value(v: &Value) -> (r: Result<Self, DeError>)
        ensures
            r is Ok <==> Self::decodable(*v),
            r is Ok ==> Self::decodes(*v, r->Ok_0);
}

/// A type with a canonical zero or empty value.
pub trait Zero: Sized {
    spec fn is_zero(&self) -> bool;

    fn zero() -> (r: Self)
        ensures
            r.is_zero();
}

/// The integer that `v` holds, if it holds one.
pub open spec fn int_of(v: Value) -> Option<int> {
    match v {
        Value::Number(n) => n.int_value(),
        _ => None,
    }
}

/// Whether `v` holds an integer from `lo` to `hi`.
pub open spec fn int_in(v: Value, lo: int, hi: int) -> bool {
    int_of(v) is Some && lo <= int_of(v)->Some_0 <= hi
}

/// The integer that `v` holds, when it lies from `lo` to `hi`; `t` names the
/// target in the error.
fn decode_int(v: &Value, lo: i128, hi: i128, t: Target) -> (r: Result<i128, DeError>)
    ensures
        r is Ok <==> int_in(*v, lo as int, hi as int),
        r is Ok ==> r->Ok_0 == int_of(*v)->Some_0,
        r is Err && int_of(*v) is None ==> r->Err_0 == DeError::InvalidType(t),
        r is Err && int_of(*v) is Some ==> r->Err_0 == DeError::OutOfRange(t),
{
    let n: i128 = match v {
        Value::Number(Number::PosInt(u)) => *u as i128,
        Value::Number(Number::NegInt(i)) => *i as i128,
        _ => {
            return Err(DeError::InvalidType(t));
        },
    };
    if lo <= n && n <= hi {
        Ok(n)
    } else {
        Err(DeError::OutOfRange(t))
    }
}

impl FromValue for u8 {
    open spec fn decodable(v: Value) -> bool {
        int_in(v, 0, u8::MAX as int)
    }

    open spec fn decodes(v: Value, r: u8) -> bool {
        int_of(v) == Some(r as int)
    }

    fn from_value(v: &Value) -> (r: Result<u8, DeError>) {
        match decode_int(v, 0, u8::MAX as i128, Target::U8) {
            Ok(n) => Ok(n as u8),
            Err(e) => Err(e),
        }
    }
}

impl FromValue for u16 {
    open spec fn decodable(v: Value) -> bool {
        int_in(v, 0, u16::MAX as int)
    }

    open spec fn decodes(v: Value, r: u16) -> bool {
        int_of(v) == Some(r as int)
    }

    fn from_value(v: &Value) -> (r: Result<u16, DeError>) {
        match decode_int(v, 0, u16::MAX as i128, Target::U16) {
            Ok(n) => Ok(n as u16),
            Err(e) => Err(e),
        }
    }
}

impl FromValue for u32 {
    open spec fn decodable(v: Value) -> bool {
        int_in(v, 0, u32::MAX as int)
    }

    open spec fn decodes(v: Value, r: u32) -> bool {
        int_of(v) == Some(r as int)
    }

    fn from_value(v: &Value) -> (r: Result<u32, DeError>) {
        match decode_int(v, 0, u32::MAX as i128, Target::U32) {
            Ok(n) => Ok(n as u32),
            Err(e) => Err(e),
        }
    }
}

impl FromValue for u64 {
    open spec fn decodable(v: Value) -> bool {
        int_in(v, 0, u64::MAX as int)
    }

    open spec fn decodes(v: Value, r: u64) -> bool {
        int_of(v) == Some(r as int)
    }

    fn from_value(v: &Value) -> (r: Result<u64, DeError>) {
        match decode_int(v, 0, u64::MAX as i128, Target::U64) {
            Ok(n) => Ok(n as u64),
            Err(e) => Err(e),
        }
    }
}

impl FromValue for i8 {
    open spec fn decodable(v: Value) -> bool {
        int_in(v, i8::MIN as int, i8::MAX as int)
    }

    open spec fn decodes(v: Value, r: i8) -> bool {
        int_of(v) == Some(r as int)
    }

    fn from_value(v: &Value) -> (r: Result<i8, DeError>) {
        match decode_int(v, i8::MIN as i128, i8::MAX as i128, Target::I8) {
            Ok(n) => Ok(n as i8),
            Err(e) => Err(e),
        }
    }
}

impl FromValue for i16 {
    open spec fn decodable(v: Value) -> bool {
        int_in(v, i16::MIN as int, i16::MAX as int)
    }

    open spec fn decodes(v: Value, r: i16) -> bool {
        int_of(v) == Some(r as int)
    }

    fn from_value(v: &Value) -> (r: Result<i16, DeError>) {
        match decode_int(v, i16::MIN as i128, i16::MAX as i128, Target::I16) {
            Ok(n) => Ok(n as i16),
            Err(e) => Err(e),
        }
    }
}

impl FromValue for i32 {
    open spec fn decodable(v: Value) -> bool {
        int_in(v, i32::MIN as int, i32::MAX as int)
    }

    open spec fn decodes(v: Value, r: i32) -> bool {
        int_of(v) == Some(r as int)
    }

    fn from_value(v: &Value) -> (r: Result<i32, DeError>) {
        match decode_int(v, i32::MIN as i128, i32::MAX as i128, Target::I32) {
            Ok(n) => Ok(n as i32),
            Err(e) => Err(e),
        }
    }
}

impl FromValue for i64 {
    open spec fn decodable(v: Value) -> bool {
        int_in(v, i64::MIN as int, i64::MAX as int)
    }

    open spec fn decodes(v: Value, r: i64) -> bool {
        int_of(v) == Some(r as int)
    }

    fn from_value(v: &Value) -> (r: Result<i64, DeError>) {
        match decode_int(v, i64::MIN as i128, i64::MAX as i128, Target::I64) {
            Ok(n) => Ok(n as i64),
            Err(e) => Err(e),
        }
    }
}

impl FromValue for bool {
    open spec fn decodable(v: Value) -> bool {
        v is Bool
    }

    open spec fn decodes(v: Value, r: bool) -> bool {
        v == Value::Bool(r)
    }

    fn from_value(v: &Value) -> (r: Result<bool, DeError>) {
        match v {
            Value::Bool(b) => Ok(*b),
            _ => Err(DeError::InvalidType(Target::Bool)),
        }
    }
}

impl FromValue for String {
    open spec fn decodable(v: Value) -> bool {
        v is String
    }

    open spec fn decodes(v: Value, r: String) -> bool {
        v is String && v->String_0@ == r@
    }

    fn from_value(v: &Value) -> (r: Result<String, DeError>) {
        match v {
            Value::String(s) => Ok(s.clone()),
            _ => Err(DeError::InvalidType(Target::Text)),
        }
    }
}

impl FromValue for () {
    open spec fn decodable(v: Value) -> bool {
        v is Null
    }

    open spec fn decodes(v: Value, r: ()) -> bool {
        v is Null
    }

    fn from_value(v: &Value) -> (r: Result<(), DeError>) {
        match v {
            Value::Null => Ok(()),
            _ => Err(DeError::InvalidType(Target::Unit)),
        }
    }
}

impl<T: FromValue> FromValue for Vec<T> {
    open spec fn decodable(v: Value) -> bool {
        v is Array && forall|i: int|
            0 <= i < v->Array_0@.len() ==> #[trigger] T::decodable(v->Array_0@[i])
    }

    open spec fn decodes(v: Value, r: Vec<T>) -> bool {
        v is Array && r@.len() == v->Array_0@.len() && forall|i: int|
            0 <= i < r@.len() ==> #[trigger] T::decodes(v->Array_0@[i], r@[i])
    }

    fn from_value(v: &Value) -> (r: Result<Vec<T>, DeError>) {
        let a = match v {
            Value::Array(a) => a,
            _ => {
                return Err(DeError::InvalidType(Target::List));
            },
        };
        let mut out: Vec<T> = Vec::new();
        let mut i: usize = 0;
        while i < a.len()
            invariant
                *v == Value::Array(*a),
                i <= a@.len(),
                out@.len() == i,
                forall|j: int| 0 <= j < i ==> #[trigger] T::decodable(a@[j]),
                forall|j: int| 0 <= j < i ==> #[trigger] T::decodes(a@[j], out@[j]),
            decreases a@.len() - i,
        {
            match T::from_value(&a[i]) {
                Ok(x) => out.push(x),
                Err(e) => {
                    assert(!T::decodable(v->Array_0@[i as int]));
                    return Err(e);
                },
            }
            i = i + 1;
        }
        Ok(out)
    }
}

impl Zero for u8 {
    open spec fn is_zero(&self) -> bool {
        *self == 0
    }

    fn zero() -> (r: u8) {
        0
    }
}

impl Zero for u16 {
    open spec fn is_zero(&self) -> bool {
        *self == 0
    }

    fn zero() -> (r: u16) {
        0
    }
}

impl Zero for u32 {
    open spec fn is_zero(&self) -> bool {
        *self == 0
    }

    fn zero() -> (r: u32) {
        0
    }
}

impl Zero for u64 {
    open spec fn is_zero(&self) -> bool {
        *self == 0
    }

    fn zero() -> (r: u64) {
        0
    }
}

impl Zero for i8 {
    open spec fn is_zero(&self) -> bool {
        *self == 0
    }

    fn zero() -> (r: i8) {
        0
    }
}

impl Zero for i16 {
    open spec fn is_zero(&self) -> bool {
        *self == 0
    }

    fn zero() -> (r: i16) {
        0
    }
}

impl Zero for i32 {
    open spec fn is_zero(&self) -> bool {
        *self == 0
    }

    fn zero() -> (r: i32) {
        0
    }
}

impl Zero for i64 {
    open spec fn is_zero(&self) -> bool {
        *self == 0
    }

    fn zero() -> (r: i64) {
        0
    }
}

impl Zero for bool {
    open spec fn is_zero(&self) -> bool {
        !*self
    }

    fn zero() -> (r: bool) {
        false
    }
}

impl Zero for String {
    open spec fn is_zero(&self) -> bool {
        self@.len() == 0
    }

    fn zero() -> (r: String) {
        String::new()
    }
}

impl Zero for () {
    open spec fn is_zero(&self) -> bool {
        true
    }

    fn zero() -> (r: ()) {
        ()
    }
}

impl<T> Zero for Vec<T> {
    open spec fn is_zero(&self) -> bool {
        self@.len() == 0
    }

    fn zero() -> (r: Vec<T>) {
        Vec::new()
    }
}

} // verus!
