//! Laws of the expansion and of what the generated accessors return.
//!
//! Each law is stated of every declaration that the host accepts
//! (`DeclarationView::wf`) and of every variant of it.

use vstd::prelude::*;
use crate::arm::{arm_of, arms_of, AccessorKind};
use crate::decl::{DeclarationView, FieldView, KindView, ShapeView, VariantView};
use crate::expand::{accessor_tokens, expansion, outcome_of, DiagnosticView, EntryPoint};
use crate::semantics::{
    bare_refs,
    expected,
    labelled_refs,
    lemma_reflect,
    reflect,
    target,
    write_through,
    FieldRef,
};
use crate::token::TokenView;

verus! {

/// The accessor that reads what the accessor `kind` writes: the read-only
/// accessor of the same family.
pub open spec fn reader_of(kind: AccessorKind) -> AccessorKind {
    if kind.named() {
        AccessorKind::NamedFields
    } else {
        AccessorKind::Fields
    }
}

/// Field order. Every accessor, read-only or mutable, returns its references
/// in the order in which the variant declares its fields: the reference at
/// place `j` points to field `j`. An accessor that gives no names returns one
/// reference for each field of the variant.
pub proof fn law_field_order(decl: DeclarationView, kind: AccessorKind, index: int)
    requires
        decl.wf(),
        0 <= index < decl.variants().len(),
    ensures
        reflect(decl, kind, index) is Some,
        forall|j: int|
            0 <= j < reflect(decl, kind, index)->Some_0.len() ==> (#[trigger] reflect(
                decl,
                kind,
                index,
            )->Some_0[j]).slot == j,
        !kind.named() ==> reflect(decl, kind, index)->Some_0.len()
            == decl.variants()[index].shape.arity(),
{
    lemma_reflect(decl, kind, index);
}

/// Unit variants. On a value of a variant without data each of the four
/// accessors returns the empty sequence.
pub proof fn law_unit_variant(decl: DeclarationView, kind: AccessorKind, index: int)
    requires
        decl.wf(),
        0 <= index < decl.variants().len(),
        decl.variants()[index].shape is Empty,
    ensures
        reflect(decl, kind, index) == Some(Seq::<FieldRef>::empty()),
{
    lemma_reflect(decl, kind, index);
    assert(expected(decl.variants()[index].shape, kind) =~= Seq::<FieldRef>::empty());
}

/// Variants with named fields. The accessors that give names return each
/// field with its declared name, in the order of declaration; the others
/// return the same references without the names.
pub proof fn law_named_variant(decl: DeclarationView, index: int)
    requires
        decl.wf(),
        0 <= index < decl.variants().len(),
        decl.variants()[index].shape is Named,
    ensures
        reflect(decl, AccessorKind::NamedFields, index) == Some(
            labelled_refs(decl.variants()[index].shape->Named_0),
        ),
        reflect(decl, AccessorKind::NamedFieldsMut, index) == Some(
            labelled_refs(decl.variants()[index].shape->Named_0),
        ),
        reflect(decl, AccessorKind::Fields, index) == Some(
            bare_refs(decl.variants()[index].shape->Named_0.len()),
        ),
        reflect(decl, AccessorKind::FieldsMut, index) == Some(
            bare_refs(decl.variants()[index].shape->Named_0.len()),
        ),
{
    lemma_reflect(decl, AccessorKind::NamedFields, index);
    lemma_reflect(decl, AccessorKind::NamedFieldsMut, index);
    lemma_reflect(decl, AccessorKind::Fields, index);
    lemma_reflect(decl, AccessorKind::FieldsMut, index);
}

/// Tuple variants. Their fields have no names: the accessors that give names
/// return the empty sequence, and the others return every field in the order
/// of declaration.
pub proof fn law_tuple_variant(decl: DeclarationView, index: int)
    requires
        decl.wf(),
        0 <= index < decl.variants().len(),
        decl.variants()[index].shape is Positional,
    ensures
        reflect(decl, AccessorKind::NamedFields, index) == Some(Seq::<FieldRef>::empty()),
        reflect(decl, AccessorKind::NamedFieldsMut, index) == Some(Seq::<FieldRef>::empty()),
        reflect(decl, AccessorKind::Fields, index) == Some(
            bare_refs(decl.variants()[index].shape->Positional_0),
        ),
        reflect(decl, AccessorKind::FieldsMut, index) == Some(
            bare_refs(decl.variants()[index].shape->Positional_0),
        ),
{
    lemma_reflect(decl, AccessorKind::NamedFields, index);
    lemma_reflect(decl, AccessorKind::NamedFieldsMut, index);
    lemma_reflect(decl, AccessorKind::Fields, index);
    lemma_reflect(decl, AccessorKind::FieldsMut, index);
}

/// One declaration, one expansion. Whatever two expansions of a derive on the
/// same declaration return, they return the same: the tokens, or the
/// diagnostic, are a function of the declaration alone, so that the generated
/// accessors do not depend on where or in what order the derive is expanded.
pub proof fn law_same_declaration_same_expansion(
    entry: EntryPoint,
    decl: DeclarationView,
    first: Result<Seq<TokenView>, DiagnosticView>,
    second: Result<Seq<TokenView>, DiagnosticView>,
)
    requires
        outcome_of(entry, decl, first),
        outcome_of(entry, decl, second),
    ensures
        first == second,
{
}

/// Mutation is observed. Let `store` hold the fields of a value of the
/// variant at `index`. After a write of `x` through the reference at
/// `position` of what a mutable accessor returned, the reference at the same
/// position of what the read-only accessor of the same family returns gives
/// `x`, and so does that of the mutable accessor, called again; the
/// references at all other positions give what they gave before.
pub proof fn law_mutation_observed<V>(
    decl: DeclarationView,
    kind: AccessorKind,
    index: int,
    store: Seq<V>,
    position: int,
    x: V,
)
    requires
        decl.wf(),
        0 <= index < decl.variants().len(),
        kind.mutable(),
        store.len() == decl.variants()[index].shape.arity(),
        0 <= position < expected(decl.variants()[index].shape, kind).len(),
    ensures
        reflect(decl, kind, index) is Some,
        reflect(decl, reader_of(kind), index) == reflect(decl, kind, index),
        ({
            let refs = reflect(decl, kind, index)->Some_0;
            let after = write_through(store, refs[position], x);
            &&& after.len() == store.len()
            &&& target(after, refs[position]) == x
            &&& forall|q: int|
                0 <= q < refs.len() && q != position ==> target(after, #[trigger] refs[q]) == target(
                    store,
                    refs[q],
                )
        }),
{
    lemma_reflect(decl, kind, index);
    lemma_reflect(decl, reader_of(kind), index);
    let shape = decl.variants()[index].shape;
    assert(expected(shape, kind) =~= expected(shape, reader_of(kind)));
}

/// A variant with the types of its fields blanked.
pub open spec fn variant_without_types(variant: VariantView) -> VariantView {
    VariantView {
        name: variant.name,
        shape: match variant.shape {
            ShapeView::Named(fields) => ShapeView::Named(
                fields.map_values(|f: FieldView| FieldView { name: f.name, ty: Seq::empty() }),
            ),
            other => other,
        },
    }
}

/// A declaration with the types of all fields blanked.
pub open spec fn without_types(decl: DeclarationView) -> DeclarationView {
    DeclarationView {
        name: decl.name,
        kind: match decl.kind {
            KindView::Enum(variants) => KindView::Enum(
                variants.map_values(|v: VariantView| variant_without_types(v)),
            ),
            other => other,
        },
    }
}

/// Field types are erased. The expansion does not depend on the types of the
/// fields: nothing is asked of them, and a declaration expands to what it
/// expands to with all its field types blanked.
pub proof fn law_field_types_erased(entry: EntryPoint, decl: DeclarationView)
    ensures
        expansion(entry, decl) == expansion(entry, without_types(decl)),
{
    let blank = without_types(decl);
    assert forall|kind: AccessorKind| #[trigger]
        accessor_tokens(decl, kind) == accessor_tokens(blank, kind) by {
        let variants = decl.variants();
        assert forall|i: int| 0 <= i < variants.len() implies arm_of(variants[i], kind) == arm_of(
            #[trigger] blank.variants()[i],
            kind,
        ) by {
            assert(variants[i].shape.names() =~= blank.variants()[i].shape.names());
        }
        assert(arms_of(variants, kind) =~= arms_of(blank.variants(), kind));
    }
}

} // verus!
