//! The arm synthesizer: for one variant and one accessor, the match arm that
//! the accessor holds for that variant, as a pattern and the entries of the
//! collection that the arm's body builds.

use vstd::prelude::*;
use vstd::string::StringExecFns;
use crate::decl::{Field, FieldShape, FieldView, ShapeView, Variant, VariantView};
use crate::seqs::{empty_deep, push_deep};

verus! {

/// The four accessors that are generated for an enum.
#[derive(Clone, Copy, Debug, PartialEq, Eq)]
pub enum AccessorKind {
    /// `get_fields`: the fields by shared reference.
    Fields,
    /// `get_named_fields`: the named fields by shared reference, each with
    /// its name.
    NamedFields,
    /// `get_fields_mut`: the fields by mutable reference.
    FieldsMut,
    /// `get_named_fields_mut`: the named fields by mutable reference, each
    /// with its name.
    NamedFieldsMut,
}

impl AccessorKind {
    /// Whether the accessor hands out mutable references.
    pub open spec fn mutable(self) -> bool {
        self is FieldsMut || self is NamedFieldsMut
    }

    /// Whether the accessor pairs each reference with the field's name.
    pub open spec fn named(self) -> bool {
        self is NamedFields || self is NamedFieldsMut
    }

    /// Whether the accessor hands out mutable references.
    pub fn is_mutable(self) -> (b: bool)
        ensures
            b == self.mutable(),
    {
        match self {
            AccessorKind::FieldsMut | AccessorKind::NamedFieldsMut => true,
            AccessorKind::Fields | AccessorKind::NamedFields => false,
        }
    }

    /// Whether the accessor pairs each reference with the field's name.
    pub fn is_named(self) -> (b: bool)
        ensures
            b == self.named(),
    {
        match self {
            AccessorKind::NamedFields | AccessorKind::NamedFieldsMut => true,
            AccessorKind::Fields | AccessorKind::FieldsMut => false,
        }
    }
}

/// What an arm's pattern binds, after the path of the variant.
#[derive(Clone, Debug, PartialEq, Eq)]
pub enum Pattern {
    /// `V`: nothing.
    Unit,
    /// `V(b0, b1, ..)` with every field bound, by position.
    Tuple(Vec<String>),
    /// `V(..)`: the fields are there and none is bound.
    TupleRest,
    /// `V { a, b, .. }` with every field bound under its own name.
    Struct(Vec<String>),
}

/// The mathematical value of a [`Pattern`].
#[verifier::ext_equal]
pub enum PatternView {
    Unit,
    Tuple(Seq<Seq<char>>),
    TupleRest,
    Struct(Seq<Seq<char>>),
}

impl View for Pattern {
    type V = PatternView;

    open spec fn view(&self) -> PatternView {
        match self {
            Pattern::Unit => PatternView::Unit,
            Pattern::Tuple(bindings) => PatternView::Tuple(bindings.deep_view()),
            Pattern::TupleRest => PatternView::TupleRest,
            Pattern::Struct(bindings) => PatternView::Struct(bindings.deep_view()),
        }
    }
}

/// One element of the collection that an arm's body builds: a reference to
/// what `binding` is bound to, alone or paired with a name.
#[derive(Clone, Debug, PartialEq, Eq)]
pub struct Entry {
    /// The name that the reference is paired with, if any.
    pub label: Option<String>,
    /// The binding of the pattern that the reference is taken of.
    pub binding: String,
}

/// The mathematical value of an [`Entry`].
#[verifier::ext_equal]
pub struct EntryView {
    pub label: Option<Seq<char>>,
    pub binding: Seq<char>,
}

impl View for Entry {
    type V = EntryView;

    open spec fn view(&self) -> EntryView {
        EntryView {
            label: match self.label {
                Some(label) => Some(label@),
                None => None,
            },
            binding: self.binding@,
        }
    }
}

impl DeepView for Entry {
    type V = EntryView;

    open spec fn deep_view(&self) -> EntryView {
        self@
    }
}

/// One match arm of an accessor.
#[derive(Clone, Debug, PartialEq, Eq)]
pub struct Arm {
    /// The variant that the arm is for.
    pub variant: String,
    /// What the arm binds.
    pub pattern: Pattern,
    /// The elements of the collection that the arm returns, in order.
    pub entries: Vec<Entry>,
}

/// The mathematical value of an [`Arm`].
#[verifier::ext_equal]
pub struct ArmView {
    pub variant: Seq<char>,
    pub pattern: PatternView,
    pub entries: Seq<EntryView>,
}

impl View for Arm {
    type V = ArmView;

    open spec fn view(&self) -> ArmView {
        ArmView { variant: self.variant@, pattern: self.pattern@, entries: self.entries.deep_view() }
    }
}

impl DeepView for Arm {
    type V = ArmView;

    open spec fn deep_view(&self) -> ArmView {
        self@
    }
}

/// The character of a decimal digit.
pub open spec fn digit_char(d: nat) -> char
    recommends
        d < 10,
{
    if d == 0 {
        '0'
    } else if d == 1 {
        '1'
    } else if d == 2 {
        '2'
    } else if d == 3 {
        '3'
    } else if d == 4 {
        '4'
    } else if d == 5 {
        '5'
    } else if d == 6 {
        '6'
    } else if d == 7 {
        '7'
    } else if d == 8 {
        '8'
    } else {
        '9'
    }
}

/// A number in decimal, without leading zeros.
pub open spec fn decimal(n: nat) -> Seq<char>
    decreases n,
{
    if n < 10 {
        seq![digit_char(n)]
    } else {
        decimal(n / 10).push(digit_char(n % 10))
    }
}

/// The name under which the field at `index` of a tuple variant is bound:
/// `f0`, `f1`, and so on.
pub open spec fn positional_binding(index: nat) -> Seq<char> {
    seq!['f'] + decimal(index)
}

/// The bindings of a tuple variant with `count` fields.
pub open spec fn positional_bindings(count: nat) -> Seq<Seq<char>> {
    Seq::new(count, |i: int| positional_binding(i as nat))
}

/// The entries that refer to `bindings`, one each and in their order, every
/// one paired with its binding's name if `named` and alone if not.
pub open spec fn entries_of(bindings: Seq<Seq<char>>, named: bool) -> Seq<EntryView> {
    Seq::new(
        bindings.len(),
        |i: int|
            EntryView { label: if named { Some(bindings[i]) } else { None }, binding: bindings[i] },
    )
}

/// The arm that the accessor `kind` holds for `variant`.
///
/// A variant without data binds nothing and yields nothing. A tuple variant
/// binds `f0`, `f1`, .. and yields them in that order; under an accessor that
/// gives names it binds nothing and yields nothing, since its fields have no
/// names. A variant with named fields binds each field under its own name and
/// yields them in the order of their declaration.
pub open spec fn arm_of(variant: VariantView, kind: AccessorKind) -> ArmView {
    match variant.shape {
        ShapeView::Empty => ArmView {
            variant: variant.name,
            pattern: PatternView::Unit,
            entries: Seq::empty(),
        },
        ShapeView::Positional(count) => if kind.named() {
            ArmView {
                variant: variant.name,
                pattern: PatternView::TupleRest,
                entries: Seq::empty(),
            }
        } else {
            ArmView {
                variant: variant.name,
                pattern: PatternView::Tuple(positional_bindings(count)),
                entries: entries_of(positional_bindings(count), false),
            }
        },
        ShapeView::Named(_) => ArmView {
            variant: variant.name,
            pattern: PatternView::Struct(variant.shape.names()),
            entries: entries_of(variant.shape.names(), kind.named()),
        },
    }
}

/// The arms of an accessor: one for each variant, in the variants' order.
pub open spec fn arms_of(variants: Seq<VariantView>, kind: AccessorKind) -> Seq<ArmView> {
    Seq::new(variants.len(), |i: int| arm_of(variants[i], kind))
}

/// The text of one decimal digit.
fn digit_text(d: usize) -> (text: &'static str)
    requires
        d < 10,
    ensures
        text@ == seq![digit_char(d as nat)],
{
    proof {
        reveal_strlit("0");
        reveal_strlit("1");
        reveal_strlit("2");
        reveal_strlit("3");
        reveal_strlit("4");
        reveal_strlit("5");
        reveal_strlit("6");
        reveal_strlit("7");
        reveal_strlit("8");
        reveal_strlit("9");
    }
    let text = if d == 0 {
        "0"
    } else if d == 1 {
        "1"
    } else if d == 2 {
        "2"
    } else if d == 3 {
        "3"
    } else if d == 4 {
        "4"
    } else if d == 5 {
        "5"
    } else if d == 6 {
        "6"
    } else if d == 7 {
        "7"
    } else if d == 8 {
        "8"
    } else {
        "9"
    };
    assert(text@ =~= seq![digit_char(d as nat)]);
    text
}

/// Writes `n` in decimal at the end of `text`.
fn append_decimal(text: &mut String, n: usize)
    ensures
        final(text)@ == old(text)@ + decimal(n as nat),
    decreases n,
{
    if n >= 10 {
        append_decimal(text, n / 10);
    }
    text.append(digit_text(n % 10));
}

/// The name under which the field at `index` of a tuple variant is bound.
pub fn positional_name(index: usize) -> (name: String)
    ensures
        name@ == positional_binding(index as nat),
{
    let mut name = "f".to_owned();
    proof {
        reveal_strlit("f");
        assert("f"@ =~= seq!['f']);
    }
    append_decimal(&mut name, index);
    name
}

/// The names `f0`, `f1`, .. of a tuple variant with `count` fields.
fn positional_names(count: usize) -> (names: Vec<String>)
    ensures
        names.deep_view() == positional_bindings(count as nat),
{
    let mut names: Vec<String> = empty_deep();
    let mut i: usize = 0;
    while i < count
        invariant
            i <= count,
            names.deep_view() == positional_bindings(i as nat),
        decreases count - i,
    {
        push_deep(&mut names, positional_name(i));
        i += 1;
    }
    names
}

/// The declared names of named fields, in order.
fn field_names(fields: &Vec<Field>) -> (names: Vec<String>)
    ensures
        names.deep_view() == ShapeView::Named(fields.deep_view()).names(),
{
    let mut names: Vec<String> = empty_deep();
    let mut i: usize = 0;
    while i < fields.len()
        invariant
            i <= fields.len(),
            names.deep_view() == fields.deep_view().subrange(0, i as int).map_values(
                |f: FieldView| f.name,
            ),
        decreases fields.len() - i,
    {
        push_deep(&mut names, fields[i].name.clone());
        i += 1;
    }
    proof {
        assert(fields.deep_view().subrange(0, i as int) =~= fields.deep_view());
    }
    names
}

/// One entry for each binding, in order.
fn entries_for(bindings: &Vec<String>, named: bool) -> (entries: Vec<Entry>)
    ensures
        entries.deep_view() == entries_of(bindings.deep_view(), named),
{
    let mut entries: Vec<Entry> = empty_deep();
    let mut i: usize = 0;
    while i < bindings.len()
        invariant
            i <= bindings.len(),
            entries.deep_view() == entries_of(bindings.deep_view(), named).subrange(0, i as int),
        decreases bindings.len() - i,
    {
        let label = if named {
            Some(bindings[i].clone())
        } else {
            None
        };
        push_deep(&mut entries, Entry { label, binding: bindings[i].clone() });
        i += 1;
    }
    proof {
        let all = entries_of(bindings.deep_view(), named);
        assert(all.subrange(0, i as int) =~= all);
    }
    entries
}

/// Synthesizes the arm that the accessor `kind` holds for `variant`. Every
/// shape of variant has its arm: this cannot fail.
pub fn synthesize_arm(variant: &Variant, kind: AccessorKind) -> (arm: Arm)
    ensures
        arm@ == arm_of(variant@, kind),
{
    match &variant.fields {
        FieldShape::Empty => Arm {
            variant: variant.name.clone(),
            pattern: Pattern::Unit,
            entries: empty_deep(),
        },
        FieldShape::Positional(count) => {
            if kind.is_named() {
                Arm { variant: variant.name.clone(), pattern: Pattern::TupleRest, entries: empty_deep() }
            } else {
                let bindings = positional_names(*count);
                let entries = entries_for(&bindings, false);
                Arm { variant: variant.name.clone(), pattern: Pattern::Tuple(bindings), entries }
            }
        },
        FieldShape::Named(fields) => {
            let bindings = field_names(fields);
            let entries = entries_for(&bindings, kind.is_named());
            Arm { variant: variant.name.clone(), pattern: Pattern::Struct(bindings), entries }
        },
    }
}

/// Synthesizes the arms of the accessor `kind`: one for each variant, in the
/// variants' order.
pub fn synthesize_arms(variants: &Vec<Variant>, kind: AccessorKind) -> (arms: Vec<Arm>)
    ensures
        arms.deep_view() == arms_of(variants.deep_view(), kind),
{
    let mut arms: Vec<Arm> = empty_deep();
    let mut i: usize = 0;
    while i < variants.len()
        invariant
            i <= variants.len(),
            arms.deep_view() == arms_of(variants.deep_view(), kind).subrange(0, i as int),
        decreases variants.len() - i,
    {
        push_deep(&mut arms, synthesize_arm(&variants[i], kind));
        i += 1;
    }
    proof {
        let all = arms_of(variants.deep_view(), kind);
        assert(all.subrange(0, i as int) =~= all);
    }
    arms
}

} // verus!
