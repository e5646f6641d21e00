//! A compile-time default-value facility.
//!
//! The crate has two halves:
//!
//! * the [`ConstDefault`] trait together with a registry of implementations
//!   for built-in and standard composite types (see [`registry`]), giving
//!   each conforming type one canonical default value; and
//! * a derivation generator (see [`shape`], [`generate`] and [`emit`]) that,
//!   given the structural shape of a user-defined product type, produces the
//!   text of a conformance implementation whose value is built field by
//!   field from the canonical defaults of the field types.
//!
//! The [`ci`] module models the crate's quality-control driver as plain
//! data: which programs it invokes, with which arguments, and how the exit
//! status of each invocation is acted upon.

use vstd::prelude::*;

pub mod ci;
pub mod emit;
pub mod generate;
pub mod registry;
pub mod shape;
pub mod text;

use crate::emit::{render_impl, spec_impl_text};
use crate::generate::derive_default;
use crate::shape::{DeriveError, TypeData, TypeDef};

verus! {

/// Derives the text of the conformance implementation for one type
/// definition: for a product type, the implementation block whose
/// constructor fills every field, in declaration order, with the
/// canonical default of its type, under one conformance obligation per
/// field; for a sum type, an `UnsupportedShape` error attributed to the
/// request's position, with no output at all.
pub fn derive(def: TypeDef) -> (r: Result<String, DeriveError>)
    ensures
        match def.data {
            TypeData::Product { .. } => {
                &&& r matches Ok(s)
                &&& s@ == spec_impl_text(def)
            },
            TypeData::Sum => {
                &&& r matches Err(e)
                &&& e.kind is UnsupportedShape
                &&& e.span == def.span
            },
        },
{
    let ghost def0 = def;
    match derive_default(def) {
        Ok(g) => {
            let s = render_impl(&g);
            proof {
                assert(s@ == spec_impl_text(def0));
            }
            Ok(s)
        },
        Err(e) => Err(e),
    }
}

/// A canonical default value for the implementing type.
///
/// Unlike [`Default`], the default value of a conforming type is a fixed,
/// canonical constant: [`ConstDefault::is_default`] says at the
/// specification level which value that is, and every implementation's
/// [`ConstDefault::const_default`] is proved to return such a value.
pub trait ConstDefault: Sized {
    /// Whether `self` is the canonical default value of this type.
    spec fn is_default(self) -> bool;

    /// Returns the canonical default value.
    fn const_default() -> (r: Self)
        ensures
            r.is_default(),
    ;
}

} // verus!
