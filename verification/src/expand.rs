//! The declaration analyzer and the expansion of a derive: from a declaration
//! to the tokens of the impl block, or to the one diagnostic.

use vstd::prelude::*;
use vstd::string::StringExecFns;
use crate::arm::{arms_of, synthesize_arms, AccessorKind};
use crate::assemble::{
    assemble_inherent_impl,
    assemble_method,
    assemble_trait_impl,
    inherent_impl_tokens,
    method_tokens,
    trait_impl_tokens,
};
use crate::decl::{DeclKind, Declaration, DeclarationView, Variant};
use crate::seqs::empty_deep;
use crate::token::{Token, TokenView};

verus! {

/// The two derives.
#[derive(Clone, Copy, Debug, PartialEq, Eq)]
pub enum EntryPoint {
    /// `EnumReflect`: implements the trait `enum_reflect_extetn::EnumReflect`
    /// with all four accessors.
    Primary,
    /// `EnumReflectMut`: gives the type the two mutable accessors as methods
    /// of its own. Superseded by `EnumReflect`, and kept so that its users
    /// still compile: each use draws the advisory of [`EntryPoint::advisory`].
    Secondary,
}

impl EntryPoint {
    /// The name of the derive.
    pub open spec fn derive_name_text(self) -> Seq<char> {
        match self {
            EntryPoint::Primary => "EnumReflect"@,
            EntryPoint::Secondary => "EnumReflectMut"@,
        }
    }

    /// What the host shows at each use of the derive, if anything.
    pub open spec fn advisory_text(self) -> Option<Seq<char>> {
        match self {
            EntryPoint::Primary => None,
            EntryPoint::Secondary => Some(
                "Use #[derive(EnumReflect)] instead, now mut also included there"@,
            ),
        }
    }

    /// The name of the derive.
    pub fn derive_name(self) -> (name: &'static str)
        ensures
            name@ == self.derive_name_text(),
    {
        match self {
            EntryPoint::Primary => "EnumReflect",
            EntryPoint::Secondary => "EnumReflectMut",
        }
    }

    /// The advisory that each use of the derive draws: none for the primary
    /// derive; for the secondary one the note that the primary derive is to be
    /// used in its place. An advisory is no error: the expansion is the same
    /// with it.
    pub fn advisory(self) -> (note: Option<&'static str>)
        ensures
            match note {
                Some(text) => self.advisory_text() == Some(text@),
                None => self.advisory_text() is None,
            },
    {
        match self {
            EntryPoint::Primary => None,
            EntryPoint::Secondary => Some(
                "Use #[derive(EnumReflect)] instead, now mut also included there",
            ),
        }
    }
}

/// The kinds of error. There is one.
#[derive(Clone, Copy, Debug, PartialEq, Eq)]
pub enum ErrorKind {
    /// The derive was applied to a declaration that is no enum.
    UnsupportedDeclarationShape,
}

/// An error for the host to report.
#[derive(Clone, Debug, PartialEq, Eq)]
pub struct Diagnostic {
    /// What went wrong.
    pub kind: ErrorKind,
    /// The text shown to the user.
    pub message: String,
    /// The identifier in the source at which the error is shown.
    pub anchor: String,
}

/// The mathematical value of a [`Diagnostic`].
#[verifier::ext_equal]
pub struct DiagnosticView {
    pub kind: ErrorKind,
    pub message: Seq<char>,
    pub anchor: Seq<char>,
}

impl View for Diagnostic {
    type V = DiagnosticView;

    open spec fn view(&self) -> DiagnosticView {
        DiagnosticView { kind: self.kind, message: self.message@, anchor: self.anchor@ }
    }
}

/// The diagnostic for a declaration that is no enum: it names the derive,
/// says that it only works on enums, and stands at the declaration's name.
pub open spec fn unsupported_shape(entry: EntryPoint, decl: DeclarationView) -> DiagnosticView {
    DiagnosticView {
        kind: ErrorKind::UnsupportedDeclarationShape,
        message: entry.derive_name_text() + " only works on enums"@,
        anchor: decl.name,
    }
}

/// The method of one accessor of an enum.
pub open spec fn accessor_tokens(decl: DeclarationView, kind: AccessorKind) -> Seq<TokenView> {
    method_tokens(decl.name, arms_of(decl.variants(), kind), kind)
}

/// What a derive expands to on an enum: one impl block. The primary derive
/// implements the trait with the four accessors, the read-only ones first;
/// the secondary one gives the type the two mutable accessors as its own.
pub open spec fn expansion(entry: EntryPoint, decl: DeclarationView) -> Seq<TokenView> {
    match entry {
        EntryPoint::Primary => trait_impl_tokens(
            decl.name,
            accessor_tokens(decl, AccessorKind::Fields) + accessor_tokens(
                decl,
                AccessorKind::NamedFields,
            ) + accessor_tokens(decl, AccessorKind::FieldsMut) + accessor_tokens(
                decl,
                AccessorKind::NamedFieldsMut,
            ),
        ),
        EntryPoint::Secondary => inherent_impl_tokens(
            decl.name,
            accessor_tokens(decl, AccessorKind::FieldsMut) + accessor_tokens(
                decl,
                AccessorKind::NamedFieldsMut,
            ),
        ),
    }
}

/// What a derive owes for a declaration: the expansion if it declares an
/// enum, the diagnostic if it does not, and never both.
pub open spec fn outcome_of(
    entry: EntryPoint,
    decl: DeclarationView,
    outcome: Result<Seq<TokenView>, DiagnosticView>,
) -> bool {
    match outcome {
        Ok(tokens) => decl.kind is Enum && tokens == expansion(entry, decl),
        Err(diagnostic) => !(decl.kind is Enum) && diagnostic == unsupported_shape(entry, decl),
    }
}

/// The mathematical value of what a derive returns.
pub open spec fn outcome_view(outcome: Result<Vec<Token>, Diagnostic>) -> Result<
    Seq<TokenView>,
    DiagnosticView,
> {
    match outcome {
        Ok(tokens) => Ok(tokens.deep_view()),
        Err(diagnostic) => Err(diagnostic@),
    }
}

/// Analyzes a declaration: hands out the variants of an enum in the order of
/// their declaration, and refuses any other declaration with the diagnostic.
/// Nothing else is checked.
pub fn analyze(entry: EntryPoint, decl: &Declaration) -> (outcome: Result<&Vec<Variant>, Diagnostic>)
    ensures
        match outcome {
            Ok(variants) => decl@.kind is Enum && variants.deep_view() == decl@.variants(),
            Err(diagnostic) => !(decl@.kind is Enum) && diagnostic@ == unsupported_shape(
                entry,
                decl@,
            ),
        },
{
    match &decl.kind {
        DeclKind::Enum(variants) => Ok(variants),
        _ => {
            let mut message = entry.derive_name().to_owned();
            message.append(" only works on enums");
            Err(
                Diagnostic {
                    kind: ErrorKind::UnsupportedDeclarationShape,
                    message,
                    anchor: decl.name.clone(),
                },
            )
        },
    }
}

/// Expands the derive `entry` on `decl`: analyzes the declaration, synthesizes
/// the arms of each accessor and assembles the impl block. Either the whole
/// block comes back or the one diagnostic, and nothing of the block with it.
pub fn expand(entry: EntryPoint, decl: &Declaration) -> (outcome: Result<Vec<Token>, Diagnostic>)
    ensures
        outcome_of(entry, decl@, outcome_view(outcome)),
{
    let variants = match analyze(entry, decl) {
        Ok(variants) => variants,
        Err(diagnostic) => {
            return Err(diagnostic);
        },
    };
    let owner = decl.name.as_str();
    let mut methods: Vec<Token> = empty_deep();
    match entry {
        EntryPoint::Primary => {
            let kind = AccessorKind::Fields;
            assemble_method(&mut methods, owner, &synthesize_arms(variants, kind), kind);
            let kind = AccessorKind::NamedFields;
            assemble_method(&mut methods, owner, &synthesize_arms(variants, kind), kind);
        },
        EntryPoint::Secondary => {},
    }
    let kind = AccessorKind::FieldsMut;
    assemble_method(&mut methods, owner, &synthesize_arms(variants, kind), kind);
    let kind = AccessorKind::NamedFieldsMut;
    assemble_method(&mut methods, owner, &synthesize_arms(variants, kind), kind);
    let block = match entry {
        EntryPoint::Primary => {
            assert(methods.deep_view() =~= accessor_tokens(decl@, AccessorKind::Fields)
                + accessor_tokens(decl@, AccessorKind::NamedFields) + accessor_tokens(
                decl@,
                AccessorKind::FieldsMut,
            ) + accessor_tokens(decl@, AccessorKind::NamedFieldsMut));
            assemble_trait_impl(owner, methods)
        },
        EntryPoint::Secondary => {
            assert(methods.deep_view() =~= accessor_tokens(decl@, AccessorKind::FieldsMut)
                + accessor_tokens(decl@, AccessorKind::NamedFieldsMut));
            assemble_inherent_impl(owner, methods)
        },
    };
    Ok(block)
}

} // verus!
