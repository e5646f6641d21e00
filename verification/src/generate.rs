//! The derivation generator: from the shape of a product type to the
//! structured conformance implementation.
//!
//! The generator walks the fields of the shape in declaration order and
//! produces, per field, one constructor sub-expression (the canonical
//! default of the field's type, addressed at the field's slot) and one
//! conformance obligation on the field's type.  No field is skipped,
//! reordered or merged, and obligations are not deduplicated: two fields
//! of the same type yield two identical, harmlessly redundant obligations.

use vstd::prelude::*;

use crate::shape::{
    DeriveError, FieldDescriptor, FieldKey, FieldStyle, GenericParam, TypeData, TypeDef,
    extract_shape,
};

verus! {

/// One per-field sub-expression of the generated constructor: the slot's
/// key (the field name, present only for a named field) and the field
/// type whose canonical default fills the slot.
#[derive(Clone, Debug, PartialEq, Eq)]
pub struct FieldInit {
    /// The field name for a named slot; `None` for a positional slot,
    /// which is addressed by its place in the constructor alone.
    pub key: Option<String>,
    /// The field's declared type, as source text.
    pub ty: String,
}

/// The generated conformance implementation: the original type's identity
/// and generic-parameter list carried through verbatim, the collected
/// constraint set, and the field-by-field constructor of the default
/// value.
#[derive(Clone, Debug, PartialEq, Eq)]
pub struct GeneratedImpl {
    /// The implemented type's name.
    pub ident: String,
    /// The type's own generic parameter list, verbatim.
    pub generics: Vec<GenericParam>,
    /// The predicates of the type's own `where` clause, verbatim.
    pub where_predicates: Vec<String>,
    /// The constraint set: one conformance obligation per field
    /// occurrence, identified by the field's type, in field order.
    pub constraints: Vec<String>,
    /// How the constructor addresses its slots.
    pub style: FieldStyle,
    /// The constructor's sub-expressions, one per field, in field order.
    pub body: Vec<FieldInit>,
}

/// The constructor sub-expression for one field: its name is kept for a
/// named slot, dropped for a positional slot, and the slot is filled by
/// the canonical default of the field's type.
pub open spec fn spec_field_init(f: FieldDescriptor) -> FieldInit {
    FieldInit {
        key: match f.key {
            FieldKey::Name(n) => Some(n),
            FieldKey::Index(_) => None,
        },
        ty: f.ty,
    }
}

/// The constructor body: one sub-expression per field, in field order.
pub open spec fn spec_body(fields: Seq<FieldDescriptor>) -> Seq<FieldInit> {
    fields.map_values(|f: FieldDescriptor| spec_field_init(f))
}

/// The constraint set: one obligation per field occurrence, identified by
/// the field's type, in field order.
pub open spec fn spec_constraints(fields: Seq<FieldDescriptor>) -> Seq<String> {
    fields.map_values(|f: FieldDescriptor| f.ty)
}

/// Builds the constructor body for a product shape: per field, in order,
/// the sub-expression "the canonical default of this field's type",
/// keyed by the field's name when the shape is named.
pub fn generate_default_impl_struct(fields: &Vec<FieldDescriptor>) -> (body: Vec<FieldInit>)
    ensures
        body@ == spec_body(fields@),
{
    let mut body: Vec<FieldInit> = Vec::new();
    let mut i: usize = 0;
    while i < fields.len()
        invariant
            i <= fields.len(),
            body@ == spec_body(fields@.take(i as int)),
        decreases fields.len() - i,
    {
        let key = match &fields[i].key {
            FieldKey::Name(n) => Some(n.clone()),
            FieldKey::Index(_) => None,
        };
        body.push(FieldInit { key, ty: fields[i].ty.clone() });
        i = i + 1;
        proof {
            assert(spec_body(fields@.take(i as int)) =~= spec_body(
                fields@.take(i as int - 1),
            ).push(spec_field_init(fields@[i as int - 1])));
        }
    }
    proof {
        assert(fields@.take(fields@.len() as int) =~= fields@);
    }
    body
}

/// Appends the conformance obligations for a product shape to `bounds`:
/// one obligation per field occurrence, in field order, with no
/// deduplication and no sorting.
pub fn generate_default_impl_where_bounds(fields: &Vec<FieldDescriptor>, bounds: &mut Vec<String>)
    ensures
        final(bounds)@ == old(bounds)@ + spec_constraints(fields@),
{
    let ghost bounds0 = bounds@;
    let mut i: usize = 0;
    while i < fields.len()
        invariant
            i <= fields.len(),
            bounds@ == bounds0 + spec_constraints(fields@.take(i as int)),
        decreases fields.len() - i,
    {
        bounds.push(fields[i].ty.clone());
        i = i + 1;
        proof {
            assert(bounds0 + spec_constraints(fields@.take(i as int)) =~= (bounds0
                + spec_constraints(fields@.take(i as int - 1))).push(fields@[i as int - 1].ty));
        }
    }
    proof {
        assert(fields@.take(fields@.len() as int) =~= fields@);
        assert(bounds@ =~= bounds0 + spec_constraints(fields@));
    }
}

/// Derives the conformance implementation for one type definition: a
/// product type yields the implementation whose constructor fills every
/// field, in declaration order, with the canonical default of its type,
/// under one conformance obligation per field; a sum type is rejected
/// with an `UnsupportedShape` error at the request's position, and no
/// implementation is produced.
pub fn derive_default(def: TypeDef) -> (r: Result<GeneratedImpl, DeriveError>)
    ensures
        match def.data {
            TypeData::Product { style, fields } => {
                &&& r matches Ok(g)
                &&& g.ident == def.ident
                &&& g.generics == def.generics
                &&& g.where_predicates == def.where_predicates
                &&& g.style == style
                &&& g.body@ == spec_body(fields@)
                &&& g.constraints@ == spec_constraints(fields@)
            },
            TypeData::Sum => {
                &&& r matches Err(e)
                &&& e.kind is UnsupportedShape
                &&& e.span == def.span
            },
        },
{
    let shape = match extract_shape(def) {
        Ok(shape) => shape,
        Err(e) => {
            return Err(e);
        },
    };
    let body = generate_default_impl_struct(&shape.fields);
    let mut constraints: Vec<String> = Vec::new();
    generate_default_impl_where_bounds(&shape.fields, &mut constraints);
    Ok(
        GeneratedImpl {
            ident: shape.ident,
            generics: shape.generics,
            where_predicates: shape.where_predicates,
            constraints,
            style: shape.style,
            body,
        },
    )
}

/// Field-order fidelity: the constructor body has exactly one slot per
/// field, in field order, and slot `i` is filled by the canonical default
/// of field `i`'s type — under the name of field `i` when the field is
/// named, keyless when it is positional.
pub proof fn lemma_field_order_fidelity(fields: Seq<FieldDescriptor>)
    ensures
        spec_body(fields).len() == fields.len(),
        forall|i: int| 0 <= i < fields.len() ==> #[trigger] spec_body(fields)[i]
            == spec_field_init(fields[i]),
        forall|i: int|
            0 <= i < fields.len() ==> (#[trigger] spec_body(fields)[i]).ty == fields[i].ty,
        forall|i: int|
            0 <= i < fields.len() ==> (#[trigger] spec_body(fields)[i]).key == (match fields[i].key {
                FieldKey::Name(n) => Some(n),
                FieldKey::Index(_) => None::<String>,
            }),
{
}

/// Constraint completeness: the constraint set holds exactly one
/// obligation per field occurrence — not per distinct type — in field
/// order, and the obligation at position `i` is on the type of field `i`.
pub proof fn lemma_constraint_completeness(fields: Seq<FieldDescriptor>)
    ensures
        spec_constraints(fields).len() == fields.len(),
        forall|i: int| 0 <= i < fields.len() ==> #[trigger] spec_constraints(fields)[i]
            == fields[i].ty,
{
}

/// Zero-field identity, structural half: a shape with no fields yields an
/// empty constructor body and an empty constraint set.
pub proof fn lemma_zero_field_identity(fields: Seq<FieldDescriptor>)
    requires
        fields.len() == 0,
    ensures
        spec_body(fields) == Seq::<FieldInit>::empty(),
        spec_constraints(fields) == Seq::<String>::empty(),
{
    assert(spec_body(fields) =~= Seq::<FieldInit>::empty());
    assert(spec_constraints(fields) =~= Seq::<String>::empty());
}

} // verus!
