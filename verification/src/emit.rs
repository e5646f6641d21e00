//! Rendering of a generated implementation as source text.
//!
//! The emitter turns the structured [`GeneratedImpl`] into one
//! implementation block: the original generic-parameter list verbatim,
//! the `where` clause made of the original predicates followed by the
//! collected conformance obligations, and the field-by-field constructor
//! of the default value.  Every function's output is pinned byte for byte
//! by its specification, so rendering is deterministic.

use vstd::prelude::*;

use crate::generate::{FieldInit, GeneratedImpl, spec_body, spec_constraints};
use crate::shape::{FieldStyle, GenericParam, TypeData, TypeDef};
use crate::text::{join_with, spec_join};

verus! {

/// The views of a list of text pieces.
pub open spec fn seq_views(ss: Seq<String>) -> Seq<Seq<char>> {
    ss.map_values(|s: String| s@)
}

/// The expression for the canonical default of the type written `ty`.
pub open spec fn spec_default_expr(ty: Seq<char>) -> Seq<char> {
    "<"@ + ty + " as ::const_default::ConstDefault>::const_default()"@
}

/// The constructor sub-expression for one slot: the canonical default of
/// the field's type, prefixed by the field's name for a named slot.
pub open spec fn spec_render_field_init(init: FieldInit) -> Seq<char> {
    match init.key {
        Some(name) => name@ + ": "@ + spec_default_expr(init.ty@),
        None => spec_default_expr(init.ty@),
    }
}

/// The rendered constructor sub-expressions, in slot order.
pub open spec fn spec_rendered_inits(body: Seq<FieldInit>) -> Seq<Seq<char>> {
    body.map_values(|init: FieldInit| spec_render_field_init(init))
}

/// The constructor expression of the default value: named slots in
/// braces, positional slots in parentheses in increasing slot order, and
/// the bare no-field value for a shape without fields.
pub open spec fn spec_render_body(style: FieldStyle, body: Seq<FieldInit>) -> Seq<char> {
    match style {
        FieldStyle::Named => if body.len() == 0 {
            "Self {}"@
        } else {
            "Self { "@ + spec_join(spec_rendered_inits(body), ", "@) + " }"@
        },
        FieldStyle::Positional => if body.len() == 0 {
            "Self()"@
        } else {
            "Self("@ + spec_join(spec_rendered_inits(body), ", "@) + ")"@
        },
        FieldStyle::Unit => "Self"@,
    }
}

/// One conformance obligation, as a `where`-clause predicate.
pub open spec fn spec_constraint_text(ty: Seq<char>) -> Seq<char> {
    ty + ": ::const_default::ConstDefault"@
}

/// The rendered conformance obligations, in field order.
pub open spec fn spec_constraint_texts(constraint_tys: Seq<String>) -> Seq<Seq<char>> {
    constraint_tys.map_values(|t: String| spec_constraint_text(t@))
}

/// The generic parameters as declared, in order.
pub open spec fn spec_generic_decls(generics: Seq<GenericParam>) -> Seq<Seq<char>> {
    generics.map_values(|g: GenericParam| g.decl@)
}

/// The generic parameters as used in a type position, in order.
pub open spec fn spec_generic_names(generics: Seq<GenericParam>) -> Seq<Seq<char>> {
    generics.map_values(|g: GenericParam| g.name@)
}

/// The generic-parameter list as declared, for the `impl` header; empty
/// text for a type without generic parameters.
pub open spec fn spec_impl_generics_text(generics: Seq<GenericParam>) -> Seq<char> {
    if generics.len() == 0 {
        Seq::empty()
    } else {
        "<"@ + spec_join(spec_generic_decls(generics), ", "@) + ">"@
    }
}

/// The generic-parameter list as used in a type position; empty text for
/// a type without generic parameters.
pub open spec fn spec_ty_generics_text(generics: Seq<GenericParam>) -> Seq<char> {
    if generics.len() == 0 {
        Seq::empty()
    } else {
        "<"@ + spec_join(spec_generic_names(generics), ", "@) + ">"@
    }
}

/// Everything the `where` clause lists: the original predicates verbatim,
/// then the conformance obligations in field order.
pub open spec fn spec_where_items(preds: Seq<String>, constraint_tys: Seq<String>) -> Seq<
    Seq<char>,
> {
    seq_views(preds) + spec_constraint_texts(constraint_tys)
}

/// The `where` clause: the original predicates verbatim, followed by the
/// conformance obligations in field order; empty text when there is
/// nothing to constrain.
pub open spec fn spec_where_clause_text(preds: Seq<String>, constraint_tys: Seq<String>) -> Seq<
    char,
> {
    if preds.len() + constraint_tys.len() == 0 {
        Seq::empty()
    } else {
        " where "@ + spec_join(spec_where_items(preds, constraint_tys), ", "@)
    }
}

/// The full text of a generated implementation.
pub open spec fn spec_render_impl(g: GeneratedImpl) -> Seq<char> {
    "impl"@ + spec_impl_generics_text(g.generics@) + " ::const_default::ConstDefault for "@
        + g.ident@ + spec_ty_generics_text(g.generics@) + spec_where_clause_text(
        g.where_predicates@,
        g.constraints@,
    ) + " { fn const_default() -> Self { "@ + spec_render_body(g.style, g.body@) + " } }"@
}

/// The full text derived for a product-type definition, straight from the
/// definition itself; the empty text for a sum type, which derives to an
/// error and no output.
pub open spec fn spec_impl_text(def: TypeDef) -> Seq<char> {
    match def.data {
        TypeData::Product { style, fields } => "impl"@ + spec_impl_generics_text(def.generics@)
            + " ::const_default::ConstDefault for "@ + def.ident@ + spec_ty_generics_text(
            def.generics@,
        ) + spec_where_clause_text(def.where_predicates@, spec_constraints(fields@))
            + " { fn const_default() -> Self { "@ + spec_render_body(style, spec_body(fields@))
            + " } }"@,
        TypeData::Sum => Seq::empty(),
    }
}

/// Pushing one element extends a list's deep view by the element's deep
/// view.
proof fn lemma_deep_view_push<T: DeepView>(pre: Vec<T>, post: Vec<T>, x: T)
    requires
        post@ == pre@.push(x),
    ensures
        post.deep_view() == pre.deep_view().push(x.deep_view()),
{
    assert(post.deep_view().len() == post@.len());
    assert(pre.deep_view().len() == pre@.len());
    assert forall|k: int| 0 <= k < post@.len() implies post.deep_view()[k] == pre.deep_view().push(
        x.deep_view(),
    )[k] by {
        if k < pre@.len() {
            assert(post@[k] == pre@[k]);
            assert(pre.deep_view()[k] == pre@[k].deep_view());
        } else {
            assert(post@[k] == x);
        }
    }
    assert(post.deep_view() =~= pre.deep_view().push(x.deep_view()));
}

/// Renders one constructor sub-expression.
fn render_field_init(init: &FieldInit) -> (r: String)
    ensures
        r@ == spec_render_field_init(*init),
{
    let mut r = String::new();
    match &init.key {
        Some(name) => {
            r.append(name.as_str());
            r.append(": ");
        },
        None => {},
    }
    r.append("<");
    r.append(init.ty.as_str());
    r.append(" as ::const_default::ConstDefault>::const_default()");
    proof {
        assert(r@ =~= spec_render_field_init(*init));
    }
    r
}

/// Renders every constructor sub-expression, in slot order.
fn render_field_inits(body: &Vec<FieldInit>) -> (r: Vec<String>)
    ensures
        r.deep_view() == spec_rendered_inits(body@),
{
    let mut r: Vec<String> = Vec::new();
    let mut i: usize = 0;
    while i < body.len()
        invariant
            i <= body.len(),
            r.deep_view() == spec_rendered_inits(body@.take(i as int)),
        decreases body.len() - i,
    {
        let piece = render_field_init(&body[i]);
        let ghost prev = r;
        let ghost pieceg = piece;
        r.push(piece);
        i = i + 1;
        proof {
            lemma_deep_view_push(prev, r, pieceg);
            assert(pieceg.deep_view() == spec_render_field_init(body@[i - 1]));
            assert(spec_rendered_inits(body@.take(i as int)) =~= spec_rendered_inits(
                body@.take(i as int - 1),
            ).push(spec_render_field_init(body@[i - 1])));
        }
    }
    proof {
        assert(body@.take(body@.len() as int) =~= body@);
    }
    r
}

/// Renders the constructor expression of the default value.
fn render_body(style: FieldStyle, body: &Vec<FieldInit>) -> (r: String)
    ensures
        r@ == spec_render_body(style, body@),
{
    match style {
        FieldStyle::Named => {
            if body.len() == 0 {
                String::from_str("Self {}")
            } else {
                let parts = render_field_inits(body);
                let mut r = String::from_str("Self { ");
                r.append(join_with(&parts, ", ").as_str());
                r.append(" }");
                proof {
                    assert(r@ =~= spec_render_body(style, body@));
                }
                r
            }
        },
        FieldStyle::Positional => {
            if body.len() == 0 {
                String::from_str("Self()")
            } else {
                let parts = render_field_inits(body);
                let mut r = String::from_str("Self(");
                r.append(join_with(&parts, ", ").as_str());
                r.append(")");
                proof {
                    assert(r@ =~= spec_render_body(style, body@));
                }
                r
            }
        },
        FieldStyle::Unit => String::from_str("Self"),
    }
}

/// Renders the declared generic-parameter list.
fn render_impl_generics(generics: &Vec<GenericParam>) -> (r: String)
    ensures
        r@ == spec_impl_generics_text(generics@),
{
    if generics.len() == 0 {
        return String::new();
    }
    let mut decls: Vec<String> = Vec::new();
    let mut i: usize = 0;
    while i < generics.len()
        invariant
            i <= generics.len(),
            decls.deep_view() == spec_generic_decls(generics@.take(i as int)),
        decreases generics.len() - i,
    {
        let piece = generics[i].decl.clone();
        let ghost prev = decls;
        let ghost pieceg = piece;
        decls.push(piece);
        i = i + 1;
        proof {
            lemma_deep_view_push(prev, decls, pieceg);
            assert(pieceg.deep_view() == generics@[i - 1].decl@);
            assert(spec_generic_decls(generics@.take(i as int)) =~= spec_generic_decls(
                generics@.take(i as int - 1),
            ).push(generics@[i - 1].decl@));
        }
    }
    proof {
        assert(generics@.take(generics@.len() as int) =~= generics@);
    }
    let mut r = String::from_str("<");
    r.append(join_with(&decls, ", ").as_str());
    r.append(">");
    proof {
        assert(r@ =~= spec_impl_generics_text(generics@));
    }
    r
}

/// Renders the generic-parameter list as used in a type position.
fn render_ty_generics(generics: &Vec<GenericParam>) -> (r: String)
    ensures
        r@ == spec_ty_generics_text(generics@),
{
    if generics.len() == 0 {
        return String::new();
    }
    let mut names: Vec<String> = Vec::new();
    let mut i: usize = 0;
    while i < generics.len()
        invariant
            i <= generics.len(),
            names.deep_view() == spec_generic_names(generics@.take(i as int)),
        decreases generics.len() - i,
    {
        let piece = generics[i].name.clone();
        let ghost prev = names;
        let ghost pieceg = piece;
        names.push(piece);
        i = i + 1;
        proof {
            lemma_deep_view_push(prev, names, pieceg);
            assert(pieceg.deep_view() == generics@[i - 1].name@);
            assert(spec_generic_names(generics@.take(i as int)) =~= spec_generic_names(
                generics@.take(i as int - 1),
            ).push(generics@[i - 1].name@));
        }
    }
    proof {
        assert(generics@.take(generics@.len() as int) =~= generics@);
    }
    let mut r = String::from_str("<");
    r.append(join_with(&names, ", ").as_str());
    r.append(">");
    proof {
        assert(r@ =~= spec_ty_generics_text(generics@));
    }
    r
}

/// Renders one conformance obligation as a `where`-clause predicate.
fn render_constraint(ty: &String) -> (r: String)
    ensures
        r@ == spec_constraint_text(ty@),
{
    let mut r = ty.clone();
    r.append(": ::const_default::ConstDefault");
    r
}

/// Renders the `where` clause of the generated implementation.
fn render_where_clause(preds: &Vec<String>, constraint_tys: &Vec<String>) -> (r: String)
    ensures
        r@ == spec_where_clause_text(preds@, constraint_tys@),
{
    if preds.len() == 0 && constraint_tys.len() == 0 {
        return String::new();
    }
    let mut all: Vec<String> = Vec::new();
    let mut i: usize = 0;
    while i < preds.len()
        invariant
            i <= preds.len(),
            all.deep_view() == seq_views(preds@.take(i as int)),
        decreases preds.len() - i,
    {
        let piece = preds[i].clone();
        let ghost prev = all;
        let ghost pieceg = piece;
        all.push(piece);
        i = i + 1;
        proof {
            lemma_deep_view_push(prev, all, pieceg);
            assert(pieceg.deep_view() == preds@[i - 1]@);
            assert(seq_views(preds@.take(i as int)) =~= seq_views(
                preds@.take(i as int - 1),
            ).push(preds@[i - 1]@));
        }
    }
    proof {
        assert(preds@.take(preds@.len() as int) =~= preds@);
    }
    let mut j: usize = 0;
    while j < constraint_tys.len()
        invariant
            j <= constraint_tys.len(),
            all.deep_view() == seq_views(preds@) + spec_constraint_texts(
                constraint_tys@.take(j as int),
            ),
        decreases constraint_tys.len() - j,
    {
        let piece = render_constraint(&constraint_tys[j]);
        let ghost prev = all;
        let ghost pieceg = piece;
        all.push(piece);
        j = j + 1;
        proof {
            lemma_deep_view_push(prev, all, pieceg);
            assert(pieceg.deep_view() == spec_constraint_text(constraint_tys@[j - 1]@));
            assert(spec_constraint_texts(constraint_tys@.take(j as int)) =~= spec_constraint_texts(
                constraint_tys@.take(j as int - 1),
            ).push(spec_constraint_text(constraint_tys@[j - 1]@)));
            assert(all.deep_view() =~= seq_views(preds@) + spec_constraint_texts(
                constraint_tys@.take(j as int),
            ));
        }
    }
    proof {
        assert(constraint_tys@.take(constraint_tys@.len() as int) =~= constraint_tys@);
        assert(all.deep_view() == spec_where_items(preds@, constraint_tys@));
    }
    let mut r = String::from_str(" where ");
    r.append(join_with(&all, ", ").as_str());
    proof {
        assert(r@ =~= spec_where_clause_text(preds@, constraint_tys@));
    }
    r
}

/// Renders the whole generated implementation as one block of source
/// text.
pub fn render_impl(g: &GeneratedImpl) -> (r: String)
    ensures
        r@ == spec_render_impl(*g),
{
    let mut r = String::from_str("impl");
    r.append(render_impl_generics(&g.generics).as_str());
    r.append(" ::const_default::ConstDefault for ");
    r.append(g.ident.as_str());
    r.append(render_ty_generics(&g.generics).as_str());
    r.append(render_where_clause(&g.where_predicates, &g.constraints).as_str());
    r.append(" { fn const_default() -> Self { ");
    r.append(render_body(g.style, &g.body).as_str());
    r.append(" } }");
    proof {
        assert(r@ =~= spec_render_impl(*g));
    }
    r
}

/// Zero-field identity, textual half: a shape with no fields constructs
/// the unique no-field value of its style, with nothing in the
/// constructor body.
pub proof fn lemma_zero_field_unit_value(style: FieldStyle, body: Seq<FieldInit>)
    requires
        body.len() == 0,
    ensures
        style is Named ==> spec_render_body(style, body) == "Self {}"@,
        style is Positional ==> spec_render_body(style, body) == "Self()"@,
        style is Unit ==> spec_render_body(style, body) == "Self"@,
{
}

/// Idempotence: derivation output is a function of the definition alone,
/// so any two outputs that the derivation contract admits for one and the
/// same definition are byte-identical.
pub proof fn lemma_derivation_deterministic(def: TypeDef, out1: Seq<char>, out2: Seq<char>)
    requires
        out1 == spec_impl_text(def),
        out2 == spec_impl_text(def),
    ensures
        out1 == out2,
{
}

} // verus!
