//! What the generated accessors return.
//!
//! The generated code is a `match` over the arms of an accessor. Its meaning
//! is stated here as a model: the first arm that names the value's variant is
//! taken, its pattern binds names to fields of the value, and its body yields
//! one reference for each entry. A reference is modelled by the number of the
//! field that it points to, counted in the order of declaration.

use vstd::prelude::*;
use crate::arm::{
    arm_of,
    arms_of,
    decimal,
    digit_char,
    positional_binding,
    positional_bindings,
    AccessorKind,
    ArmView,
    PatternView,
};
use crate::decl::{DeclarationView, FieldView, ShapeView, VariantView};

verus! {

/// One reference that an accessor hands out.
#[verifier::ext_equal]
pub struct FieldRef {
    /// The name that the reference is paired with, if any.
    pub label: Option<Seq<char>>,
    /// The number of the field that the reference points to.
    pub slot: int,
}

/// Whether the host accepts `pattern` for a variant of `shape`: a pattern
/// without binders stands for a variant without data; a tuple pattern binds
/// every field of a tuple variant, each under another name, or none with
/// `..`; a struct pattern binds each named field once.
pub open spec fn fits(pattern: PatternView, shape: ShapeView) -> bool {
    match pattern {
        PatternView::Unit => shape is Empty,
        PatternView::Tuple(bindings) => {
            &&& shape is Positional
            &&& bindings.len() == shape.arity()
            &&& bindings.no_duplicates()
        },
        PatternView::TupleRest => shape is Positional,
        PatternView::Struct(bindings) => {
            &&& shape is Named
            &&& bindings.len() == shape.arity()
            &&& bindings.no_duplicates()
            &&& forall|i: int| 0 <= i < bindings.len() ==> shape.names().contains(#[trigger] bindings[i])
        },
    }
}

/// The field that the binding `name` of `pattern` is bound to in a value of a
/// variant of `shape`: in a tuple pattern the field at the binding's place,
/// in a struct pattern the field of that name.
pub open spec fn bound_slot(pattern: PatternView, shape: ShapeView, name: Seq<char>) -> Option<int> {
    match pattern {
        PatternView::Tuple(bindings) => bindings.index_of_first(name),
        PatternView::Struct(bindings) => if bindings.contains(name) {
            shape.names().index_of_first(name)
        } else {
            None
        },
        _ => None,
    }
}

/// What an arm yields on a value of a variant of `shape`: one reference for
/// each entry, in the entries' order. There is no result where the host
/// refuses the arm: where the pattern does not fit, or an entry names what
/// the pattern does not bind.
pub open spec fn arm_result(arm: ArmView, shape: ShapeView) -> Option<Seq<FieldRef>> {
    if fits(arm.pattern, shape) && forall|i: int|
        0 <= i < arm.entries.len() ==> bound_slot(
            arm.pattern,
            shape,
            (#[trigger] arm.entries[i]).binding,
        ) is Some {
        Some(
            Seq::new(
                arm.entries.len(),
                |i: int|
                    FieldRef {
                        label: arm.entries[i].label,
                        slot: bound_slot(arm.pattern, shape, arm.entries[i].binding)->Some_0,
                    },
            ),
        )
    } else {
        None
    }
}

/// The names of the variants that the arms are for, in the arms' order.
pub open spec fn arm_variants(arms: Seq<ArmView>) -> Seq<Seq<char>> {
    arms.map_values(|arm: ArmView| arm.variant)
}

/// What a `match` over `arms` yields on a value of `variant`: what the first
/// arm for that variant yields.
pub open spec fn match_result(arms: Seq<ArmView>, variant: VariantView) -> Option<Seq<FieldRef>> {
    match arm_variants(arms).index_of_first(variant.name) {
        Some(k) => arm_result(arms[k], variant.shape),
        None => None,
    }
}

/// What the accessor `kind` that is generated for `decl` returns on a value
/// of the variant at `index`.
pub open spec fn reflect(decl: DeclarationView, kind: AccessorKind, index: int) -> Option<
    Seq<FieldRef>,
> {
    match_result(arms_of(decl.variants(), kind), decl.variants()[index])
}

/// References to the fields `0`, `1`, .. of `count` fields, each alone.
pub open spec fn bare_refs(count: nat) -> Seq<FieldRef> {
    Seq::new(count, |j: int| FieldRef { label: None, slot: j })
}

/// References to the named fields in the order of their declaration, each
/// paired with its field's name.
pub open spec fn labelled_refs(fields: Seq<FieldView>) -> Seq<FieldRef> {
    Seq::new(fields.len(), |j: int| FieldRef { label: Some(fields[j].name), slot: j })
}

/// What an accessor is to return on a value of a variant of `shape`.
pub open spec fn expected(shape: ShapeView, kind: AccessorKind) -> Seq<FieldRef> {
    if !kind.named() {
        bare_refs(shape.arity())
    } else {
        match shape {
            ShapeView::Named(fields) => labelled_refs(fields),
            _ => Seq::empty(),
        }
    }
}

/// The value that a reference gives access to, in a value whose fields hold
/// `store`.
pub open spec fn target<V>(store: Seq<V>, reference: FieldRef) -> V {
    store[reference.slot]
}

/// The fields of a value after `x` was written through `reference`.
pub open spec fn write_through<V>(store: Seq<V>, reference: FieldRef, x: V) -> Seq<V> {
    store.update(reference.slot, x)
}

/// Every number has at least one digit.
proof fn lemma_decimal_nonempty(n: nat)
    ensures
        decimal(n).len() >= 1,
    decreases n,
{
    if n >= 10 {
        lemma_decimal_nonempty(n / 10);
    }
}

/// Numbers that are written alike are equal.
proof fn lemma_decimal_injective(a: nat, b: nat)
    requires
        decimal(a) == decimal(b),
    ensures
        a == b,
    decreases a,
{
    lemma_decimal_nonempty(a / 10);
    lemma_decimal_nonempty(b / 10);
    if a < 10 && b < 10 {
        assert(decimal(a)[0] == digit_char(a));
        assert(decimal(b)[0] == digit_char(b));
    } else if a >= 10 && b >= 10 {
        let da = decimal(a / 10);
        let db = decimal(b / 10);
        assert(decimal(a).last() == digit_char(a % 10));
        assert(decimal(b).last() == digit_char(b % 10));
        assert(decimal(a).drop_last() =~= da);
        assert(decimal(b).drop_last() =~= db);
        lemma_decimal_injective(a / 10, b / 10);
    } else {
        assert(decimal(a).len() != decimal(b).len());
    }
}

/// No two fields of a tuple variant are bound under the same name.
proof fn lemma_positional_bindings_distinct(count: nat)
    ensures
        positional_bindings(count).no_duplicates(),
{
    let names = positional_bindings(count);
    assert forall|i: int, j: int| 0 <= i < names.len() && 0 <= j < names.len() && i != j implies names[i]
        != names[j] by {
        if names[i] == names[j] {
            assert(positional_binding(i as nat).subrange(1, positional_binding(i as nat).len() as int)
                =~= decimal(i as nat));
            assert(positional_binding(j as nat).subrange(1, positional_binding(j as nat).len() as int)
                =~= decimal(j as nat));
            lemma_decimal_injective(i as nat, j as nat);
        }
    }
}

/// In a sequence without duplicates each element is first found where it
/// stands.
proof fn lemma_found_in_place(names: Seq<Seq<char>>, i: int)
    requires
        names.no_duplicates(),
        0 <= i < names.len(),
    ensures
        names.index_of_first(names[i]) == Some(i),
{
    names.index_of_first_ensures(names[i]);
    assert(names.contains(names[i]));
}

/// The arm that is synthesized for a variant yields, on a value of that
/// variant, what the accessor is to return.
proof fn lemma_arm_result(variant: VariantView, kind: AccessorKind)
    requires
        variant.shape.wf(),
    ensures
        arm_result(arm_of(variant, kind), variant.shape) == Some(expected(variant.shape, kind)),
{
    let arm = arm_of(variant, kind);
    let shape = variant.shape;
    match shape {
        ShapeView::Empty => {
            assert(arm_result(arm, shape)->Some_0 =~= expected(shape, kind));
        },
        ShapeView::Positional(count) => {
            if kind.named() {
                assert(arm_result(arm, shape)->Some_0 =~= expected(shape, kind));
            } else {
                let names = positional_bindings(count);
                lemma_positional_bindings_distinct(count);
                assert forall|i: int| 0 <= i < arm.entries.len() implies bound_slot(
                    arm.pattern,
                    shape,
                    (#[trigger] arm.entries[i]).binding,
                ) == Some(i) by {
                    lemma_found_in_place(names, i);
                }
                assert(arm_result(arm, shape)->Some_0 =~= expected(shape, kind));
            }
        },
        ShapeView::Named(fields) => {
            let names = shape.names();
            assert forall|i: int| 0 <= i < names.len() implies names.contains(
                #[trigger] names[i],
            ) by {}
            assert forall|i: int| 0 <= i < arm.entries.len() implies bound_slot(
                arm.pattern,
                shape,
                (#[trigger] arm.entries[i]).binding,
            ) == Some(i) by {
                lemma_found_in_place(names, i);
                assert(names.contains(names[i]));
            }
            assert(arm_result(arm, shape)->Some_0 =~= expected(shape, kind));
        },
    }
}

/// The accessor `kind` generated for a declaration returns, on a value of the
/// variant at `index`, what it is to return for that variant's shape.
pub proof fn lemma_reflect(decl: DeclarationView, kind: AccessorKind, index: int)
    requires
        decl.wf(),
        0 <= index < decl.variants().len(),
    ensures
        reflect(decl, kind, index) == Some(expected(decl.variants()[index].shape, kind)),
{
    let variants = decl.variants();
    let arms = arms_of(variants, kind);
    assert(arm_variants(arms) =~= decl.variant_names());
    lemma_found_in_place(decl.variant_names(), index);
    lemma_arm_result(variants[index], kind);
}

} // verus!
