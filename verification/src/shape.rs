//! The structural model of a derivation request: the definition handed to
//! the generator, the shape of a supported product type, and the error
//! reported for unsupported shapes.
//!
//! A derivation request names one type definition.  Only product types —
//! definitions whose value is a single fixed list of typed slots, whether
//! named, positional or absent — have a shape the generator accepts; a sum
//! type (one whose value is chosen from several alternative variants) is
//! rejected with [`DeriveErrorKind::UnsupportedShape`].

use vstd::prelude::*;

verus! {

/// The identifying key of one field: a name, or a zero-based position.
#[derive(Clone, Debug, PartialEq, Eq)]
pub enum FieldKey {
    /// The name of a named field.
    Name(String),
    /// The zero-based position of a positional (tuple) field.
    Index(usize),
}

/// One slot of a product type's shape.
#[derive(Clone, Debug, PartialEq, Eq)]
pub struct FieldDescriptor {
    /// The field's identifying key.
    pub key: FieldKey,
    /// The field's declared type, as source text.
    pub ty: String,
    /// The field's source position, used only for diagnostic attribution.
    pub span: usize,
}

/// How a product type's fields are written down.
#[derive(Clone, Copy, Debug, PartialEq, Eq, Structural)]
pub enum FieldStyle {
    /// Named fields in braces.
    Named,
    /// Positional fields in parentheses.
    Positional,
    /// No fields at all.
    Unit,
}

/// One generic parameter of the input type, carried through verbatim into
/// the generated implementation.
#[derive(Clone, Debug, PartialEq, Eq)]
pub struct GenericParam {
    /// The parameter as declared, e.g. `T: Clone`, `'a` or `const N: usize`.
    pub decl: String,
    /// The bare parameter as used in a type position, e.g. `T`, `'a` or `N`.
    pub name: String,
}

/// The payload of a type definition: either one product of fields, or a
/// choice between several alternative variants.
#[derive(Clone, Debug, PartialEq, Eq)]
pub enum TypeData {
    /// A product type: a single fixed list of typed slots.
    Product { style: FieldStyle, fields: Vec<FieldDescriptor> },
    /// A sum type: several mutually exclusive variants.
    Sum,
}

/// A type definition as handed to the generator by a derivation request.
#[derive(Clone, Debug, PartialEq, Eq)]
pub struct TypeDef {
    /// The type's name.
    pub ident: String,
    /// The type's own generic parameter list, in declaration order.
    pub generics: Vec<GenericParam>,
    /// The predicates of the type's own `where` clause, as source text.
    pub where_predicates: Vec<String>,
    /// The definition's payload.
    pub data: TypeData,
    /// The source position of the derivation request, for diagnostics.
    pub span: usize,
}

/// The extracted shape of a supported (product) type definition.
#[derive(Clone, Debug, PartialEq, Eq)]
pub struct TypeShape {
    /// The type's name.
    pub ident: String,
    /// The type's own generic parameter list, in declaration order.
    pub generics: Vec<GenericParam>,
    /// The predicates of the type's own `where` clause, as source text.
    pub where_predicates: Vec<String>,
    /// How the fields are written down.
    pub style: FieldStyle,
    /// The fields, in declaration order.
    pub fields: Vec<FieldDescriptor>,
    /// The source position of the derivation request.
    pub span: usize,
}

/// The kind of an error a derivation request can surface.
#[derive(Clone, Copy, Debug, PartialEq, Eq, Structural)]
pub enum DeriveErrorKind {
    /// The input definition is not a product type.
    ///
    /// Reported by the generator itself; derivation stops with no output.
    UnsupportedShape,
    /// A field's type supplies no canonical default.
    ///
    /// Never reported by the generator: the generator only mirrors each
    /// field type into a constraint, and conformance is checked by the
    /// stage that consumes the generated implementation.
    UnsatisfiedFieldConformance,
}

/// An error reported for one derivation request.
#[derive(Clone, Copy, Debug, PartialEq, Eq, Structural)]
pub struct DeriveError {
    /// What went wrong.
    pub kind: DeriveErrorKind,
    /// The source position the error is attributed to.
    pub span: usize,
}

impl DeriveError {
    /// The diagnostic text for this error.
    pub fn message(&self) -> (m: &'static str)
        ensures
            self.kind is UnsupportedShape ==> m@ == spec_unsupported_shape_message(),
            self.kind is UnsatisfiedFieldConformance ==> m@
                == spec_unsatisfied_conformance_message(),
    {
        match self.kind {
            DeriveErrorKind::UnsupportedShape => "derive can only impl ConstDefault for a struct",
            DeriveErrorKind::UnsatisfiedFieldConformance => {
                "a field's type does not implement ConstDefault"
            },
        }
    }
}

/// The diagnostic text reported when the input is not a product type.
pub open spec fn spec_unsupported_shape_message() -> Seq<char> {
    "derive can only impl ConstDefault for a struct"@
}

/// The diagnostic text for a field whose type supplies no canonical
/// default.
pub open spec fn spec_unsatisfied_conformance_message() -> Seq<char> {
    "a field's type does not implement ConstDefault"@
}

/// Whether `f`, standing at position `i` of a shape written in style
/// `style`, carries the key that style demands: a name for a named field,
/// its own position for a positional field.  A no-field style has no
/// fields at all.
pub open spec fn field_key_wf(style: FieldStyle, f: FieldDescriptor, i: int) -> bool {
    match style {
        FieldStyle::Named => f.key is Name,
        FieldStyle::Positional => f.key == FieldKey::Index(i as usize) && i <= usize::MAX,
        FieldStyle::Unit => false,
    }
}

/// Well-formedness of a field list under a style: a no-field style has no
/// fields, and every field carries the key its position and style demand.
/// In particular the keys of a positional shape are exactly `0, 1, 2, ...`
/// in strictly increasing order.
pub open spec fn fields_wf(style: FieldStyle, fields: Seq<FieldDescriptor>) -> bool {
    &&& style is Unit ==> fields.len() == 0
    &&& forall|i: int| 0 <= i < fields.len() ==> field_key_wf(style, #[trigger] fields[i], i)
}

/// Well-formedness of a whole type definition.
pub open spec fn type_def_wf(def: TypeDef) -> bool {
    match def.data {
        TypeData::Product { style, fields } => fields_wf(style, fields@),
        TypeData::Sum => true,
    }
}

/// Well-formedness of an extracted shape.
pub open spec fn type_shape_wf(shape: TypeShape) -> bool {
    fields_wf(shape.style, shape.fields@)
}

/// Validates that a definition is a supported shape and extracts its
/// structural description: a product type of any style passes through
/// unchanged, a sum type is rejected with an `UnsupportedShape` error
/// attributed to the position of the derivation request.
pub fn extract_shape(def: TypeDef) -> (r: Result<TypeShape, DeriveError>)
    ensures
        match def.data {
            TypeData::Product { style, fields } => {
                &&& r matches Ok(shape)
                &&& shape.ident == def.ident
                &&& shape.generics == def.generics
                &&& shape.where_predicates == def.where_predicates
                &&& shape.style == style
                &&& shape.fields == fields
                &&& shape.span == def.span
            },
            TypeData::Sum => {
                &&& r matches Err(e)
                &&& e.kind is UnsupportedShape
                &&& e.span == def.span
            },
        },
        type_def_wf(def) ==> (r matches Ok(shape) ==> type_shape_wf(shape)),
{
    let TypeDef { ident, generics, where_predicates, data, span } = def;
    match data {
        TypeData::Product { style, fields } => {
            Ok(TypeShape { ident, generics, where_predicates, style, fields, span })
        },
        TypeData::Sum => Err(DeriveError { kind: DeriveErrorKind::UnsupportedShape, span }),
    }
}

} // verus!
