//! A small compiler for a declarative flag-set language: it reads a token
//! sequence describing a named set of bit-valued options organized into
//! mutually-exclusive groups, validates it, and emits the token sequence of a
//! typestate-tracked builder API for assembling a combined value.
//!
//! The pipeline is `Token`s -> [`parser`] -> [`validate`] -> `Specification`
//! -> [`codegen`] -> `OutToken`s. The host program splices the emitted tokens
//! next to these marker and wrapper types, which the generated code names.

use vstd::prelude::*;

pub mod builder;
pub mod codegen;
pub mod error;
pub mod parser;
pub mod ir;
pub mod token;
pub mod validate;

verus! {

/// Associates a bit representation to a generated flag-set type. The
/// generated code implements this for the flag-set type it defines
/// (`type Bits = <declared underlying type>;`).
pub trait BitFlag {
    /// The bit type, usually an unsigned integer type such as u8 or u32.
    type Bits;
}

/// A completed flag combination: the wrapper holding the summed bit value
/// that a builder's completion operation produces.
pub struct ConstrainedFlag<T: BitFlag>(pub T::Bits);

/// Implemented by a generated builder type only in its fully resolved state:
/// an incomplete builder has no `build` operation at all.
pub trait ConstrainedFlagBuilder<T: BitFlag> {
    /// Consumes the builder and returns the combined flag value.
    fn build(self) -> ConstrainedFlag<T>;
}

/// Typestate marker: the slot for group `Part` has not been resolved yet.
/// Never instantiated; it only labels a builder type parameter.
#[derive(Debug)]
pub struct Missing<Part> {
    t: core::marker::PhantomData<Part>,
}

/// Typestate marker: the slot for group `Part` holds its one selection.
/// Never instantiated; it only labels a builder type parameter.
#[derive(Debug)]
pub struct Valid<Part> {
    t: core::marker::PhantomData<Part>,
}

} // verus!
