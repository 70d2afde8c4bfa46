use vstd::prelude::*;

verus! {

/// A type that a value can be decoded into, named in decoding errors.
#[derive(Clone, Copy, Debug, PartialEq, Eq)]
pub enum Target {
    U8,
    U16,
    U32,
    U64,
    I8,
    I16,
    I32,
    I64,
    Bool,
    Text,
    Unit,
    List,
}

/// Why a value could not be decoded.
#[derive(Clone, Copy, Debug, PartialEq, Eq)]
pub enum DeError {
    /// The value is of another kind than the target reads.
    InvalidType(Target),
    /// The value is an integer outside the target's range.
    OutOfRange(Target),
}

/// Why a query failed.
#[derive(Debug, PartialEq)]
pub enum Error {
    /// No value at the path; the payload is the shortest prefix of the path
    /// that could not be resolved.
    ValueNotFoundAtPath(String),
    /// The value found is not of the requested kind; the payload names the
    /// accessor that was tried.
    AsCastFailed(String),
    /// The value found could not be decoded into the requested type.
    DeserializationFailed(DeError),
}

pub open spec fn target_name(t: Target) -> Seq<char> {
    match t {
        Target::U8 => "u8"@,
        Target::U16 => "u16"@,
        Target::U32 => "u32"@,
        Target::U64 => "u64"@,
        Target::I8 => "i8"@,
        Target::I16 => "i16"@,
        Target::I32 => "i32"@,
        Target::I64 => "i64"@,
        Target::Bool => "bool"@,
        Target::Text => "string"@,
        Target::Unit => "unit"@,
        Target::List => "sequence"@,
    }
}

pub open spec fn de_message(e: DeError) -> Seq<char> {
    match e {
        DeError::InvalidType(t) => "invalid type, expected "@ + target_name(t),
        DeError::OutOfRange(t) => "integer out of range for "@ + target_name(t),
    }
}

pub open spec fn error_message(e: Error) -> Seq<char> {
    match e {
        Error::ValueNotFoundAtPath(p) => "value not found at the path: "@ + p@,
        Error::AsCastFailed(a) => "casting with "@ + a@ + "() failed"@,
        Error::DeserializationFailed(c) => "failed to deserialize the queried value: "@
            + de_message(c),
    }
}

impl Target {
    /// The name of the target type.
    pub fn name(&self) -> (r: &'static str)
        ensures
            r@ == target_name(*self),
    {
        match self {
            Target::U8 => "u8",
            Target::U16 => "u16",
            Target::U32 => "u32",
            Target::U64 => "u64",
            Target::I8 => "i8",
            Target::I16 => "i16",
            Target::I32 => "i32",
            Target::I64 => "i64",
            Target::Bool => "bool",
            Target::Text => "string",
            Target::Unit => "unit",
            Target::List => "sequence",
        }
    }
}

impl DeError {
    /// A sentence that says what went wrong.
    pub fn message(&self) -> (r: String)
        ensures
            r@ == de_message(*self),
    {
        match self {
            DeError::InvalidType(t) => {
                let mut s = String::from_str("invalid type, expected ");
                s.append(t.name());
                s
            },
            DeError::OutOfRange(t) => {
                let mut s = String::from_str("integer out of range for ");
                s.append(t.name());
                s
            },
        }
    }
}

impl Error {
    /// A sentence that says what went wrong.
    pub fn message(&self) -> (r: String)
        ensures
            r@ == error_message(*self),
    {
        match self {
            Error::ValueNotFoundAtPath(p) => {
                let mut s = String::from_str("value not found at the path: ");
                s.append(p.as_str());
                s
            },
            Error::AsCastFailed(a) => {
                let mut s = String::from_str("casting with ");
                s.append(a.as_str());
                s.append("() failed");
                s
            },
            Error::DeserializationFailed(c) => {
                let mut s = String::from_str("failed to deserialize the queried value: ");
                let m = c.message();
                s.append(m.as_str());
                s
            },
        }
    }

    /// The decoding error underneath, for a failed decoding.
    pub fn source(&self) -> (r: Option<&DeError>)
        ensures
            match self {
                Error::DeserializationFailed(c) => r == Some(c),
                _ => r is None,
            },
    {
        match self {
            Error::DeserializationFailed(c) => Some(c),
            _ => None,
        }
    }
}

} // verus!
