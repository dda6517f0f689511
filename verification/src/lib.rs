//! Descriptors and call-time views for functions that a host engine invokes
//! directly, without boxing their arguments.

pub mod callback;
pub mod ctype;
pub mod descriptor;
pub mod function;
pub mod typed_array;

pub use callback::{FastApiCallbackData, FastApiCallbackOptions, FastCallOutcome};
pub use ctype::{CType, CTypeSequenceInfo, SequenceType, Type};
pub use descriptor::{CFunctionInfo, CTypeInfo};
pub use function::FastFunction;
pub use typed_array::FastApiTypedArray;
