//! What a native function declares of itself to become callable directly.

use vstd::prelude::*;
use crate::ctype::{CType, Type};

verus! {

/// The capability of every function that the host engine may call directly.
///
/// The entry point behind `function` must take and return exactly what
/// `args` and `return_type` declare: a value of a simple type in its natural
/// machine width, a buffer as a typed view of its element kind, and the
/// callback options last where they are declared. Nothing here can check
/// that; it is the implementor's obligation.
///
/// `declared_args` and `declared_return_type` say what a function declares.
/// An implementor that overrides `args` or `return_type` overrides the
/// declaration with it, and states on its own method that the two agree.
pub trait FastFunction {
    /// The parameter types this function declares, in call order: none,
    /// unless the implementor says otherwise.
    open spec fn declared_args(&self) -> Seq<Type> {
        Seq::empty()
    }

    /// The kind of return value this function declares: `Void`, unless the
    /// implementor says otherwise.
    open spec fn declared_return_type(&self) -> CType {
        CType::Void
    }

    /// The declared parameter types, in call order. None unless overridden:
    /// a function that declares no parameter is given the empty list, and
    /// one that declares some says so on its own `args`.
    fn args(&self) -> (args: &'static [Type])
        ensures
            self.declared_args().len() == 0 ==> args@ == self.declared_args(),
    {
        &[]
    }

    /// The kind of the return value. `Void` unless overridden: a function
    /// that declares no return value is given `Void`, and one that declares
    /// another kind says so on its own `return_type`.
    fn return_type(&self) -> (return_type: CType)
        ensures
            self.declared_return_type() == CType::Void ==> return_type
                == self.declared_return_type(),
    {
        CType::Void
    }

    /// The address of the native entry point.
    fn function(&self) -> usize;
}

} // verus!
