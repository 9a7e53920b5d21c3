//! The declaration that a derive is applied to, as plain values.

use vstd::prelude::*;

verus! {

/// One named field of a variant.
#[derive(Clone, Debug, PartialEq, Eq)]
pub struct Field {
    /// The field's identifier, as written.
    pub name: String,
    /// The field's type, as written. The accessors erase it: no generated
    /// token depends on it.
    pub ty: String,
}

/// The mathematical value of a [`Field`].
#[verifier::ext_equal]
pub struct FieldView {
    pub name: Seq<char>,
    pub ty: Seq<char>,
}

impl View for Field {
    type V = FieldView;

    open spec fn view(&self) -> FieldView {
        FieldView { name: self.name@, ty: self.ty@ }
    }
}

impl DeepView for Field {
    type V = FieldView;

    open spec fn deep_view(&self) -> FieldView {
        self@
    }
}

/// The data that a variant carries.
#[derive(Clone, Debug, PartialEq, Eq)]
pub enum FieldShape {
    /// No data: `V`.
    Empty,
    /// So many anonymous fields: `V(A, B)`.
    Positional(usize),
    /// Named fields, in the order of their declaration: `V { a: A, b: B }`.
    Named(Vec<Field>),
}

/// The mathematical value of a [`FieldShape`].
#[verifier::ext_equal]
pub enum ShapeView {
    Empty,
    Positional(nat),
    Named(Seq<FieldView>),
}

impl ShapeView {
    /// The number of fields.
    pub open spec fn arity(self) -> nat {
        match self {
            ShapeView::Empty => 0,
            ShapeView::Positional(n) => n,
            ShapeView::Named(fields) => fields.len(),
        }
    }

    /// The names of the fields, for a shape that has named fields.
    pub open spec fn names(self) -> Seq<Seq<char>> {
        match self {
            ShapeView::Named(fields) => fields.map_values(|f: FieldView| f.name),
            _ => Seq::empty(),
        }
    }

    /// No two fields have the same name.
    pub open spec fn wf(self) -> bool {
        self.names().no_duplicates()
    }
}

impl View for FieldShape {
    type V = ShapeView;

    open spec fn view(&self) -> ShapeView {
        match self {
            FieldShape::Empty => ShapeView::Empty,
            FieldShape::Positional(n) => ShapeView::Positional(*n as nat),
            FieldShape::Named(fields) => ShapeView::Named(fields.deep_view()),
        }
    }
}

/// One alternative of an enum.
#[derive(Clone, Debug, PartialEq, Eq)]
pub struct Variant {
    /// The variant's identifier, as written.
    pub name: String,
    /// What the variant carries.
    pub fields: FieldShape,
}

/// The mathematical value of a [`Variant`].
#[verifier::ext_equal]
pub struct VariantView {
    pub name: Seq<char>,
    pub shape: ShapeView,
}

impl View for Variant {
    type V = VariantView;

    open spec fn view(&self) -> VariantView {
        VariantView { name: self.name@, shape: self.fields@ }
    }
}

impl DeepView for Variant {
    type V = VariantView;

    open spec fn deep_view(&self) -> VariantView {
        self@
    }
}

/// What kind of type a declaration declares.
#[derive(Clone, Debug, PartialEq, Eq)]
pub enum DeclKind {
    /// An enum, with its variants in the order of their declaration.
    Enum(Vec<Variant>),
    /// A struct.
    Struct,
    /// An untagged union.
    Union,
}

/// The mathematical value of a [`DeclKind`].
#[verifier::ext_equal]
pub enum KindView {
    Enum(Seq<VariantView>),
    Struct,
    Union,
}

impl View for DeclKind {
    type V = KindView;

    open spec fn view(&self) -> KindView {
        match self {
            DeclKind::Enum(variants) => KindView::Enum(variants.deep_view()),
            DeclKind::Struct => KindView::Struct,
            DeclKind::Union => KindView::Union,
        }
    }
}

/// A type declaration: its name and what it declares.
#[derive(Clone, Debug, PartialEq, Eq)]
pub struct Declaration {
    /// The declared type's identifier, as written.
    pub name: String,
    /// The kind of type, with the variants of an enum.
    pub kind: DeclKind,
}

/// The mathematical value of a [`Declaration`].
#[verifier::ext_equal]
pub struct DeclarationView {
    pub name: Seq<char>,
    pub kind: KindView,
}

impl DeclarationView {
    /// The variants of an enum; none for any other declaration.
    pub open spec fn variants(self) -> Seq<VariantView> {
        match self.kind {
            KindView::Enum(variants) => variants,
            _ => Seq::empty(),
        }
    }

    /// The names of the variants, in order.
    pub open spec fn variant_names(self) -> Seq<Seq<char>> {
        self.variants().map_values(|v: VariantView| v.name)
    }

    /// What the host language grants of every declaration it accepts: no two
    /// variants share a name, and within a variant no two fields do.
    pub open spec fn wf(self) -> bool {
        &&& self.variant_names().no_duplicates()
        &&& forall|i: int|
            0 <= i < self.variants().len() ==> (#[trigger] self.variants()[i]).shape.wf()
    }
}

impl View for Declaration {
    type V = DeclarationView;

    open spec fn view(&self) -> DeclarationView {
        DeclarationView { name: self.name@, kind: self.kind@ }
    }
}

} // verus!
