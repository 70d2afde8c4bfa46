//! Path queries over self-describing tree values: walk a sequence of field
//! and index steps from a root, then optionally narrow the value found to one
//! kind, decode it into a target type, or substitute a fallback.

pub mod convert;
pub mod decode;
pub mod error;
pub mod path;
pub mod query;
pub mod value;
pub mod zip;

pub use convert::{Kind, MutKind, Narrowed};
pub use decode::{FromValue, Zero};
pub use error::{DeError, Error, Target};
pub use path::Step;
pub use query::{
    apply_default, apply_fallback, evaluate, evaluate_and_convert, evaluate_and_deserialize,
    evaluate_as_array_mut, evaluate_as_object_mut, evaluate_mut, evaluate_with_default,
    evaluate_with_fallback,
};
pub use value::{IndexKey, Mapping, Number, Value};
pub use zip::{zip_options2, zip_options3, zip_results2, zip_results3};
