//! Type descriptors and signature descriptors: what the dispatcher's factory is
//! handed for one registrant.

use vstd::prelude::*;
use crate::ctype::{CType, CTypeSequenceInfo, SequenceType, Type};

verus! {

/// The pairs of an ordered list of declared types, in order.
pub open spec fn pairs_of(types: Seq<Type>) -> Seq<CTypeSequenceInfo> {
    Seq::new(types.len(), |i: int| types[i].info())
}

/// The pair array as the dispatcher reads it: two bytes an entry, the code of
/// the kind and then the code of the shape.
pub open spec fn layout(entries: Seq<CTypeSequenceInfo>) -> Seq<u8> {
    Seq::new(
        2 * entries.len(),
        |k: int|
            if k % 2 == 0 {
                entries[k / 2].c_type.spec_encoding()
            } else {
                entries[k / 2].sequence_type.spec_encoding()
            },
    )
}

/// A type descriptor: one pair, or the pairs of a whole parameter list.
#[derive(PartialEq, Eq, Debug)]
pub struct CTypeInfo {
    entries: Vec<CTypeSequenceInfo>,
}

impl View for CTypeInfo {
    type V = Seq<CTypeSequenceInfo>;

    closed spec fn view(&self) -> Seq<CTypeSequenceInfo> {
        self.entries@
    }
}

impl CTypeInfo {
    /// Describes one bare value of kind `ty`.
    pub fn new(ty: CType) -> (info: CTypeInfo)
        ensures
            info@ == seq![(CTypeSequenceInfo { c_type: ty, sequence_type: SequenceType::Scalar })],
    {
        let mut entries: Vec<CTypeSequenceInfo> = Vec::new();
        entries.push(CTypeSequenceInfo { c_type: ty, sequence_type: SequenceType::Scalar });
        CTypeInfo { entries }
    }

    /// Describes a parameter list: entry `i` is the pair of `types[i]`.
    pub fn new_from_slice(types: &[Type]) -> (info: CTypeInfo)
        ensures
            info@ == pairs_of(types@),
    {
        let mut structs: Vec<CTypeSequenceInfo> = Vec::new();
        let mut i: usize = 0;
        while i < types.len()
            invariant
                i <= types.len(),
                structs@.len() == i,
                forall|j: int| 0 <= j < i ==> structs@[j] == (#[trigger] types@[j]).info(),
            decreases types.len() - i,
        {
            structs.push(CTypeSequenceInfo::from(&types[i]));
            i += 1;
        }
        CTypeInfo { entries: structs }
    }

    /// How many pairs the descriptor holds.
    pub fn len(&self) -> (n: usize)
        ensures
            n == self@.len(),
    {
        self.entries.len()
    }

    /// The pairs, in order.
    pub fn as_slice(&self) -> (entries: &[CTypeSequenceInfo])
        ensures
            entries@ == self@,
    {
        self.entries.as_slice()
    }

    /// The descriptor in the dispatcher's binary layout.
    pub fn to_bytes(&self) -> (bytes: Vec<u8>)
        ensures
            bytes@ == layout(self@),
    {
        let mut bytes: Vec<u8> = Vec::new();
        let mut i: usize = 0;
        while i < self.entries.len()
            invariant
                i <= self.entries@.len(),
                bytes@ == layout(self.entries@.subrange(0, i as int)),
            decreases self.entries.len() - i,
        {
            let entry = self.entries[i];
            bytes.push(entry.c_type.encoding());
            bytes.push(entry.sequence_type.encoding());
            i += 1;
        }
        assert(self.entries@.subrange(0, i as int) == self.entries@);
        bytes
    }
}

/// What a signature descriptor says: the pair of the return value and the
/// pairs of the parameters in call order.
pub struct Signature {
    pub return_info: CTypeSequenceInfo,
    pub args: Seq<CTypeSequenceInfo>,
}

/// A signature descriptor, built once for a registrant.
#[derive(PartialEq, Eq, Debug)]
pub struct CFunctionInfo {
    return_info: CTypeSequenceInfo,
    arg_info: Vec<CTypeSequenceInfo>,
}

impl View for CFunctionInfo {
    type V = Signature;

    closed spec fn view(&self) -> Signature {
        Signature { return_info: self.return_info, args: self.arg_info@ }
    }
}

impl CFunctionInfo {
    /// Combines the descriptor of the return value with the descriptor of the
    /// parameter list. The arity is the length of `args`.
    pub fn new(args: &CTypeInfo, return_type: &CTypeInfo) -> (info: CFunctionInfo)
        requires
            return_type@.len() == 1,
        ensures
            info@.return_info == return_type@[0],
            info@.args == args@,
    {
        CFunctionInfo { return_info: return_type.entries[0], arg_info: args.entries.clone() }
    }

    /// The pair of the return value.
    pub fn return_info(&self) -> (info: CTypeSequenceInfo)
        ensures
            info == self@.return_info,
    {
        self.return_info
    }

    /// The arity.
    pub fn arg_count(&self) -> (n: usize)
        ensures
            n == self@.args.len(),
    {
        self.arg_info.len()
    }

    /// The pairs of the parameters, in call order.
    pub fn arg_info(&self) -> (args: &[CTypeSequenceInfo])
        ensures
            args@ == self@.args,
    {
        self.arg_info.as_slice()
    }
}

/// A signature with no parameter and no return value can be built, and it is
/// told apart from every signature that has a parameter.
pub proof fn lemma_nullary_void_signature_is_distinct(
    no_args: CTypeInfo,
    void: CTypeInfo,
    nullary: CFunctionInfo,
    args: CTypeInfo,
    return_type: CTypeInfo,
    other: CFunctionInfo,
)
    requires
        no_args@ == pairs_of(Seq::<Type>::empty()),
        void@ == seq![
            (CTypeSequenceInfo { c_type: CType::Void, sequence_type: SequenceType::Scalar }),
        ],
        call_ensures(CFunctionInfo::new, (&no_args, &void), nullary),
        args@.len() >= 1,
        return_type@.len() == 1,
        call_ensures(CFunctionInfo::new, (&args, &return_type), other),
    ensures
        call_requires(CFunctionInfo::new, (&no_args, &void)),
        nullary@.args.len() == 0,
        nullary@.return_info.c_type == CType::Void,
        nullary@ != other@,
{
}

} // verus!
