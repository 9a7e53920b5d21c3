//! From source text to source text: a declaration is parsed by `syn`, handed
//! to the library as plain values, and what comes back is held against the
//! host's own tools.

use enum_reflect::decl::{DeclKind, Declaration, Field, FieldShape, Variant};
use enum_reflect::token::{Delimiter, Spacing, Token};
use enum_reflect::{enum_reflection, enum_reflection_mut};
use proc_macro2::{Group, Ident, Literal, Punct, Span, TokenStream, TokenTree};
use quote::{ToTokens, TokenStreamExt};
use syn::{Data, DeriveInput, Fields};

fn declaration_of(input: &DeriveInput) -> Declaration {
    let kind = match &input.data {
        Data::Enum(data) => DeclKind::Enum(
            data.variants
                .iter()
                .map(|v| Variant {
                    name: v.ident.to_string(),
                    fields: match &v.fields {
                        Fields::Unit => FieldShape::Empty,
                        Fields::Unnamed(fields) => FieldShape::Positional(fields.unnamed.len()),
                        Fields::Named(fields) => FieldShape::Named(
                            fields
                                .named
                                .iter()
                                .map(|f| Field {
                                    name: f.ident.as_ref().unwrap().to_string(),
                                    ty: f.ty.to_token_stream().to_string(),
                                })
                                .collect(),
                        ),
                    },
                })
                .collect(),
        ),
        Data::Struct(_) => DeclKind::Struct,
        Data::Union(_) => DeclKind::Union,
    };
    Declaration { name: input.ident.to_string(), kind }
}

fn parse(source: &str) -> Declaration {
    declaration_of(&syn::parse_str::<DeriveInput>(source).unwrap())
}

fn stream_of(tokens: &[Token]) -> TokenStream {
    let mut out = TokenStream::new();
    for token in tokens {
        let tree: TokenTree = match token {
            Token::Ident(text) => match text.strip_prefix("r#") {
                Some(raw) => Ident::new_raw(raw, Span::call_site()).into(),
                None => Ident::new(text, Span::call_site()).into(),
            },
            Token::Punct(c, Spacing::Alone) => Punct::new(*c, proc_macro2::Spacing::Alone).into(),
            Token::Punct(c, Spacing::Joint) => Punct::new(*c, proc_macro2::Spacing::Joint).into(),
            Token::Str(value) => Literal::string(value).into(),
            Token::Group(delimiter, inner) => {
                let delimiter = match delimiter {
                    Delimiter::Parenthesis => proc_macro2::Delimiter::Parenthesis,
                    Delimiter::Brace => proc_macro2::Delimiter::Brace,
                    Delimiter::Bracket => proc_macro2::Delimiter::Bracket,
                };
                Group::new(delimiter, stream_of(inner)).into()
            }
        };
        out.append(tree);
    }
    out
}

#[test]
fn a_parsed_enum_becomes_its_declaration() {
    let decl = parse(
        "pub enum Example { Empty, Example1 { var1: String, var2: i32 }, Pair(u8, Vec<u8>) }",
    );
    assert_eq!(
        decl,
        Declaration {
            name: "Example".to_string(),
            kind: DeclKind::Enum(vec![
                Variant { name: "Empty".to_string(), fields: FieldShape::Empty },
                Variant {
                    name: "Example1".to_string(),
                    fields: FieldShape::Named(vec![
                        Field { name: "var1".to_string(), ty: "String".to_string() },
                        Field { name: "var2".to_string(), ty: "i32".to_string() },
                    ]),
                },
                Variant { name: "Pair".to_string(), fields: FieldShape::Positional(2) },
            ]),
        }
    );
}

#[test]
fn the_expansion_of_a_parsed_enum_prints_as_source() {
    let decl = parse("enum Shape { Dot, Circle { radius: u32 }, Rect(u32, u32) }");
    let printed = stream_of(&enum_reflection_mut(&decl).unwrap()).to_string();
    assert_eq!(
        printed,
        "impl Shape { \
         pub fn get_fields_mut (& mut self) -> Vec < & mut dyn std :: any :: Any > { \
         match self { \
         Shape :: Dot => vec ! [] , \
         Shape :: Circle { radius } => vec ! [radius as & mut dyn std :: any :: Any] , \
         Shape :: Rect (f0 , f1) => vec ! [f0 as & mut dyn std :: any :: Any , \
         f1 as & mut dyn std :: any :: Any] } } \
         pub fn get_named_fields_mut (& mut self) \
         -> Vec < (& 'static str , & mut dyn std :: any :: Any) > { \
         match self { \
         Shape :: Dot => vec ! [] , \
         Shape :: Circle { radius } => vec ! [(\"radius\" , radius as & mut dyn std :: any :: Any)] , \
         Shape :: Rect (..) => vec ! [] } } }"
    );
}

#[test]
fn the_expansion_of_a_parsed_enum_is_an_impl_for_it() {
    let source = "enum Shape { Dot, Circle { radius: u32 }, Rect(u32, u32) }";
    let input: DeriveInput = syn::parse_str(source).unwrap();
    let block: syn::ItemImpl =
        syn::parse2(stream_of(&enum_reflection(&declaration_of(&input)).unwrap())).unwrap();
    let syn::Type::Path(target) = &*block.self_ty else { panic!("no path") };
    assert_eq!(target.path.get_ident(), Some(&input.ident));
    assert_eq!(block.items.len(), 4);
}

#[test]
fn a_parsed_struct_is_refused_at_its_name() {
    let input: DeriveInput = syn::parse_str("struct Point { x: i32, y: i32 }").unwrap();
    let diagnostic = enum_reflection(&declaration_of(&input)).unwrap_err();
    assert_eq!(diagnostic.anchor, input.ident.to_string());
    assert_eq!(diagnostic.message, "EnumReflect only works on enums");
    let error = syn::Error::new_spanned(&input.ident, diagnostic.message);
    assert!(error.to_compile_error().to_string().contains("only works on enums"));
}

#[test]
fn a_parsed_union_is_refused_at_its_name() {
    let input: DeriveInput = syn::parse_str("union Bits { a: u32, b: f32 }").unwrap();
    let diagnostic = enum_reflection_mut(&declaration_of(&input)).unwrap_err();
    assert_eq!(diagnostic.anchor, "Bits");
    assert_eq!(diagnostic.message, "EnumReflectMut only works on enums");
}

#[test]
fn binding_lists_are_separated_as_by_quote() {
    let decl = parse("enum E { V { a: u8, b: u8, c: u8 } }");
    let block = enum_reflection_mut(&decl).unwrap();
    let Some(Token::Group(Delimiter::Brace, methods)) = block.last() else { panic!("no body") };
    let Token::Group(Delimiter::Brace, body) = &methods[19] else { panic!("no method body") };
    let Token::Group(Delimiter::Brace, arms) = &body[2] else { panic!("no match body") };
    let Token::Group(Delimiter::Brace, bindings) = &arms[4] else { panic!("no bindings") };
    let mut expected = TokenStream::new();
    expected.append_separated(
        ["a", "b", "c"].map(|name| Ident::new(name, Span::call_site())),
        Punct::new(',', proc_macro2::Spacing::Alone),
    );
    assert_eq!(stream_of(bindings).to_string(), expected.to_string());
    assert_eq!(expected.to_string(), "a , b , c");
}

#[test]
fn labels_are_string_literals_as_quote_makes_them() {
    let decl = parse("enum E { V { name: u8 } }");
    let block = enum_reflection_mut(&decl).unwrap();
    let printed = stream_of(&block).to_string();
    let label = "name".to_string().to_token_stream().to_string();
    assert_eq!(label, "\"name\"");
    assert!(printed.contains(&format!("({} , name as & mut dyn std :: any :: Any)", label)));
}

#[test]
fn attributes_and_discriminants_do_not_matter() {
    let plain = parse("enum E { A, B }");
    let dressed = parse("#[derive(Debug)] #[repr(u8)] pub(crate) enum E { #[default] A = 1, B = 7 }");
    assert_eq!(plain, dressed);
    assert_eq!(enum_reflection(&plain), enum_reflection(&dressed));
}
