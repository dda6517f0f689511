//! The record a native function is handed beside its arguments, and the way
//! a call through it ends.

use vstd::prelude::*;
use crate::typed_array::FastApiTypedArray;

verus! {

/// What the creator of the record put into its data slot. The two cases
/// exclude each other, and the native function takes the slot as it finds it.
#[derive(Clone, Copy, PartialEq, Eq, Debug, Structural)]
pub enum FastApiCallbackData {
    /// A raw embedder pointer, by its address. Address zero is the empty slot.
    DataPtr(usize),
    /// The value given when the function was registered, by the address of
    /// its handle.
    Data(usize),
}

/// How a call ended.
#[derive(PartialEq, Eq, Debug)]
pub enum FastCallOutcome<R> {
    /// The native function finished; this is what it returned.
    FastCompleted(R),
    /// The native function asked for the slow path; whatever it returned is
    /// dropped.
    FallbackRequested,
}

/// The record of one call. The dispatcher makes it with the flag down and
/// reads the flag when the native function has returned. The native function
/// may raise the flag, and nothing lowers it again.
pub struct FastApiCallbackOptions<'a> {
    fallback: bool,
    data: FastApiCallbackData,
    wasm_memory: Option<FastApiTypedArray<'a, u8>>,
}

impl<'a> FastApiCallbackOptions<'a> {
    /// Whether the slow path has been asked for.
    pub closed spec fn spec_fallback(&self) -> bool {
        self.fallback
    }

    /// The data slot.
    pub closed spec fn spec_data(&self) -> FastApiCallbackData {
        self.data
    }

    /// The memory of the calling module, where there is one.
    pub closed spec fn spec_wasm_memory(&self) -> Option<FastApiTypedArray<'a, u8>> {
        self.wasm_memory
    }

    /// The record at the start of a call: the flag is down.
    pub fn new(data: FastApiCallbackData, wasm_memory: Option<FastApiTypedArray<'a, u8>>) -> (options:
        Self)
        ensures
            !options.spec_fallback(),
            options.spec_data() == data,
            options.spec_wasm_memory() == wasm_memory,
    {
        FastApiCallbackOptions { fallback: false, data, wasm_memory }
    }

    /// Whether the slow path has been asked for.
    #[verifier::when_used_as_spec(spec_fallback)]
    pub fn fallback(&self) -> (fallback: bool)
        ensures
            fallback == self.spec_fallback(),
    {
        self.fallback
    }

    /// The data slot.
    #[verifier::when_used_as_spec(spec_data)]
    pub fn data(&self) -> (data: FastApiCallbackData)
        ensures
            data == self.spec_data(),
    {
        self.data
    }

    /// The memory of the calling module, where there is one.
    pub fn wasm_memory(&self) -> (memory: Option<&FastApiTypedArray<'a, u8>>)
        ensures
            memory is Some <==> self.spec_wasm_memory() is Some,
            memory is Some ==> self.spec_wasm_memory() == Some(*memory->0),
    {
        self.wasm_memory.as_ref()
    }

    /// The memory of the calling module, open to writes. The flag and the
    /// data slot stay as they are.
    pub fn wasm_memory_mut(&mut self) -> (memory: Option<&mut FastApiTypedArray<'a, u8>>)
        ensures
            final(self).spec_fallback() == old(self).spec_fallback(),
            final(self).spec_data() == old(self).spec_data(),
            memory is Some <==> old(self).spec_wasm_memory() is Some,
            memory is Some ==> old(self).spec_wasm_memory() == Some(*memory->0),
            memory is Some ==> final(self).spec_wasm_memory() == Some(*final(memory->0)),
            memory is None ==> final(self).spec_wasm_memory() is None,
    {
        self.wasm_memory.as_mut()
    }

    /// Asks for the slow path. The flag is up afterwards, whether or not it
    /// was before; the rest of the record stays.
    pub fn request_fallback(&mut self)
        ensures
            final(self).spec_fallback(),
            final(self).spec_data() == old(self).spec_data(),
            final(self).spec_wasm_memory() == old(self).spec_wasm_memory(),
    {
        self.fallback = true;
    }

    /// How the call ended, read when the native function has returned
    /// `returned`: its value counts only if the flag is still down.
    pub fn outcome<R>(&self, returned: R) -> (outcome: FastCallOutcome<R>)
        ensures
            self.spec_fallback() ==> outcome == FastCallOutcome::<R>::FallbackRequested,
            !self.spec_fallback() ==> outcome == FastCallOutcome::FastCompleted(returned),
    {
        if self.fallback {
            FastCallOutcome::FallbackRequested
        } else {
            FastCallOutcome::FastCompleted(returned)
        }
    }
}

} // verus!
