//! The closed vocabularies a registrant uses to declare a signature, and the
//! pair of kind and shape that the dispatcher reads for each declared type.

use vstd::prelude::*;
use vstd::std_specs::convert::FromSpecImpl;

verus! {

/// The kind of one ABI-primitive value.
#[derive(Clone, Copy, PartialEq, Eq, Debug, Structural)]
#[non_exhaustive]
pub enum CType {
    Void,
    Bool,
    Uint8,
    Int32,
    Uint32,
    Int64,
    Uint64,
    Float32,
    Float64,
    V8Value,
    /// Marks a trailing callback-options parameter. The dispatcher keeps this
    /// kind out of its own enumeration, so its code is the largest a byte holds.
    CallbackOptions,
}

/// Whether a declared type is a bare value or one of three buffer shapes.
#[derive(Clone, Copy, PartialEq, Eq, Debug, Structural)]
pub enum SequenceType {
    Scalar,
    /// A growable sequence of the element kind.
    IsSequence,
    /// A typed array of the element kind, or any array-buffer view if the
    /// element kind is `Void`.
    IsTypedArray,
    /// A raw array buffer.
    IsArrayBuffer,
}

/// What a registrant may declare for one parameter.
#[derive(Clone, Copy, PartialEq, Eq, Debug, Structural)]
#[non_exhaustive]
pub enum Type {
    Void,
    Bool,
    Int32,
    Uint32,
    Int64,
    Uint64,
    Float32,
    Float64,
    V8Value,
    CallbackOptions,
    Sequence(CType),
    TypedArray(CType),
    ArrayBuffer(CType),
}

/// One entry of the array handed to the dispatcher: a kind and the shape it
/// is to be read in.
#[derive(Clone, Copy, PartialEq, Eq, Debug, Structural)]
pub struct CTypeSequenceInfo {
    pub c_type: CType,
    pub sequence_type: SequenceType,
}

impl CType {
    /// The byte the dispatcher reads for this kind: the kinds it enumerates
    /// count up from zero in declaration order, and `CallbackOptions` is 255.
    pub open spec fn spec_encoding(self) -> u8 {
        match self {
            CType::Void => 0,
            CType::Bool => 1,
            CType::Uint8 => 2,
            CType::Int32 => 3,
            CType::Uint32 => 4,
            CType::Int64 => 5,
            CType::Uint64 => 6,
            CType::Float32 => 7,
            CType::Float64 => 8,
            CType::V8Value => 9,
            CType::CallbackOptions => 255,
        }
    }

    /// The byte the dispatcher reads for this kind.
    #[verifier::when_used_as_spec(spec_encoding)]
    pub fn encoding(self) -> (code: u8)
        ensures
            code == self.spec_encoding(),
            code == 255 <==> self == CType::CallbackOptions,
    {
        match self {
            CType::Void => 0,
            CType::Bool => 1,
            CType::Uint8 => 2,
            CType::Int32 => 3,
            CType::Uint32 => 4,
            CType::Int64 => 5,
            CType::Uint64 => 6,
            CType::Float32 => 7,
            CType::Float64 => 8,
            CType::V8Value => 9,
            CType::CallbackOptions => 255,
        }
    }
}

impl SequenceType {
    /// The byte the dispatcher reads for this shape.
    pub open spec fn spec_encoding(self) -> u8 {
        match self {
            SequenceType::Scalar => 0,
            SequenceType::IsSequence => 1,
            SequenceType::IsTypedArray => 2,
            SequenceType::IsArrayBuffer => 3,
        }
    }

    /// The byte the dispatcher reads for this shape.
    #[verifier::when_used_as_spec(spec_encoding)]
    pub fn encoding(self) -> (code: u8)
        ensures
            code == self.spec_encoding(),
    {
        match self {
            SequenceType::Scalar => 0,
            SequenceType::IsSequence => 1,
            SequenceType::IsTypedArray => 2,
            SequenceType::IsArrayBuffer => 3,
        }
    }
}

impl Type {
    /// The kind a declared type carries: its own for a simple type, its
    /// element's for a buffer.
    pub open spec fn c_type(self) -> CType {
        match self {
            Type::Void => CType::Void,
            Type::Bool => CType::Bool,
            Type::Int32 => CType::Int32,
            Type::Uint32 => CType::Uint32,
            Type::Int64 => CType::Int64,
            Type::Uint64 => CType::Uint64,
            Type::Float32 => CType::Float32,
            Type::Float64 => CType::Float64,
            Type::V8Value => CType::V8Value,
            Type::CallbackOptions => CType::CallbackOptions,
            Type::Sequence(element) => element,
            Type::TypedArray(element) => element,
            Type::ArrayBuffer(element) => element,
        }
    }

    /// The shape of a declared type: that of its container for a buffer,
    /// `Scalar` for everything else.
    pub open spec fn sequence_type(self) -> SequenceType {
        match self {
            Type::Sequence(_) => SequenceType::IsSequence,
            Type::TypedArray(_) => SequenceType::IsTypedArray,
            Type::ArrayBuffer(_) => SequenceType::IsArrayBuffer,
            _ => SequenceType::Scalar,
        }
    }

    /// The pair the dispatcher reads for a declared type.
    pub open spec fn info(self) -> CTypeSequenceInfo {
        CTypeSequenceInfo { c_type: self.c_type(), sequence_type: self.sequence_type() }
    }
}

impl<'a> From<&'a Type> for CType {
    fn from(ty: &'a Type) -> (c_type: CType) {
        match ty {
            Type::Void => CType::Void,
            Type::Bool => CType::Bool,
            Type::Int32 => CType::Int32,
            Type::Uint32 => CType::Uint32,
            Type::Int64 => CType::Int64,
            Type::Uint64 => CType::Uint64,
            Type::Float32 => CType::Float32,
            Type::Float64 => CType::Float64,
            Type::V8Value => CType::V8Value,
            Type::CallbackOptions => CType::CallbackOptions,
            Type::Sequence(ty) => *ty,
            Type::TypedArray(ty) => *ty,
            Type::ArrayBuffer(ty) => *ty,
        }
    }
}

impl<'a> FromSpecImpl<&'a Type> for CType {
    open spec fn obeys_from_spec() -> bool {
        true
    }

    open spec fn from_spec(ty: &'a Type) -> CType {
        ty.c_type()
    }
}

impl<'a> From<&'a Type> for SequenceType {
    fn from(ty: &'a Type) -> (sequence_type: SequenceType) {
        match ty {
            Type::Sequence(_) => SequenceType::IsSequence,
            Type::TypedArray(_) => SequenceType::IsTypedArray,
            Type::ArrayBuffer(_) => SequenceType::IsArrayBuffer,
            _ => SequenceType::Scalar,
        }
    }
}

impl<'a> FromSpecImpl<&'a Type> for SequenceType {
    open spec fn obeys_from_spec() -> bool {
        true
    }

    open spec fn from_spec(ty: &'a Type) -> SequenceType {
        ty.sequence_type()
    }
}

impl<'a> From<&'a Type> for CTypeSequenceInfo {
    fn from(ty: &'a Type) -> (info: CTypeSequenceInfo) {
        CTypeSequenceInfo { c_type: CType::from(ty), sequence_type: SequenceType::from(ty) }
    }
}

impl<'a> FromSpecImpl<&'a Type> for CTypeSequenceInfo {
    open spec fn obeys_from_spec() -> bool {
        true
    }

    open spec fn from_spec(ty: &'a Type) -> CTypeSequenceInfo {
        ty.info()
    }
}

/// Every declared type has a pair, and whenever the pair of the same declared
/// type is taken twice the two are equal: both are `ty.info()`.
pub proof fn lemma_pair_is_total_and_deterministic(
    ty: Type,
    first: CTypeSequenceInfo,
    second: CTypeSequenceInfo,
)
    requires
        call_ensures(<CTypeSequenceInfo as From<&Type>>::from, (&ty,), first),
        call_ensures(<CTypeSequenceInfo as From<&Type>>::from, (&ty,), second),
    ensures
        call_requires(<CTypeSequenceInfo as From<&Type>>::from, (&ty,)),
        first == ty.info(),
        first == second,
{
}

/// The code of `CallbackOptions` is the code of no other kind.
pub proof fn lemma_callback_options_encoding_is_reserved(tag: CType)
    requires
        tag != CType::CallbackOptions,
    ensures
        tag.spec_encoding() != CType::CallbackOptions.spec_encoding(),
        tag.spec_encoding() < 255,
{
}

/// Two kinds with the same code are the same kind.
pub proof fn lemma_encoding_is_injective(a: CType, b: CType)
    requires
        a.spec_encoding() == b.spec_encoding(),
    ensures
        a == b,
{
}

} // verus!
