//! Building token trees and streams.

use enum_reflect::arm::{AccessorKind, Arm, Entry, Pattern};
use enum_reflect::assemble::{assemble_inherent_impl, assemble_method, assemble_trait_impl};
use enum_reflect::token::{Delimiter, Spacing, Token};

#[test]
fn tokens_by_their_constructors() {
    assert_eq!(Token::ident("match"), Token::Ident("match".to_string()));
    assert_eq!(Token::alone(','), Token::Punct(',', Spacing::Alone));
    assert_eq!(Token::joint(':'), Token::Punct(':', Spacing::Joint));
    assert_eq!(Token::string("a \"b\""), Token::Str("a \"b\"".to_string()));
    assert_eq!(
        Token::group(Delimiter::Bracket, vec![Token::ident("x"), Token::alone(',')]),
        Token::Group(
            Delimiter::Bracket,
            vec![Token::Ident("x".to_string()), Token::Punct(',', Spacing::Alone)]
        )
    );
    assert_eq!(Token::group(Delimiter::Brace, vec![]), Token::Group(Delimiter::Brace, vec![]));
}

#[test]
fn an_identifier_is_no_string_literal() {
    assert_ne!(Token::ident("a"), Token::string("a"));
    assert_ne!(Token::alone('.'), Token::joint('.'));
    assert_ne!(
        Token::group(Delimiter::Brace, vec![]),
        Token::group(Delimiter::Parenthesis, vec![])
    );
}

fn word(text: &str) -> Token {
    Token::Ident(text.to_string())
}

fn alone(c: char) -> Token {
    Token::Punct(c, Spacing::Alone)
}

fn joint(c: char) -> Token {
    Token::Punct(c, Spacing::Joint)
}

fn any_ref(mutable: bool) -> Vec<Token> {
    let mut out = vec![alone('&')];
    if mutable {
        out.push(word("mut"));
    }
    out.extend([
        word("dyn"),
        word("std"),
        joint(':'),
        alone(':'),
        word("any"),
        joint(':'),
        alone(':'),
        word("Any"),
    ]);
    out
}

#[test]
fn a_method_from_arms_given_by_hand() {
    let arms = vec![Arm {
        variant: "V".to_string(),
        pattern: Pattern::Struct(vec!["x".to_string()]),
        entries: vec![Entry { label: Some("x".to_string()), binding: "x".to_string() }],
    }];
    let mut out = vec![word("before")];
    assemble_method(&mut out, "T", &arms, AccessorKind::NamedFields);

    let mut pair = vec![Token::Str("x".to_string()), alone(','), word("x"), word("as")];
    pair.extend(any_ref(false));
    let arm = vec![
        word("T"),
        joint(':'),
        alone(':'),
        word("V"),
        Token::Group(Delimiter::Brace, vec![word("x")]),
        joint('='),
        alone('>'),
        word("vec"),
        alone('!'),
        Token::Group(Delimiter::Bracket, vec![Token::Group(Delimiter::Parenthesis, pair)]),
        alone(','),
    ];
    let mut returned = vec![alone('&'), joint('\''), word("static"), word("str"), alone(',')];
    returned.extend(any_ref(false));
    let expected = vec![
        word("before"),
        word("pub"),
        word("fn"),
        word("get_named_fields"),
        Token::Group(Delimiter::Parenthesis, vec![alone('&'), word("self")]),
        joint('-'),
        alone('>'),
        word("Vec"),
        alone('<'),
        Token::Group(Delimiter::Parenthesis, returned),
        alone('>'),
        Token::Group(
            Delimiter::Brace,
            vec![word("match"), word("self"), Token::Group(Delimiter::Brace, arm)],
        ),
    ];
    assert_eq!(out, expected);
}

#[test]
fn a_mutable_method_has_no_comma_after_its_last_arm() {
    let arms = vec![
        Arm { variant: "A".to_string(), pattern: Pattern::Unit, entries: vec![] },
        Arm { variant: "B".to_string(), pattern: Pattern::TupleRest, entries: vec![] },
    ];
    let mut out = Vec::new();
    assemble_method(&mut out, "T", &arms, AccessorKind::NamedFieldsMut);
    let Some(Token::Group(Delimiter::Brace, body)) = out.pop() else { panic!("no body") };
    let Some(Token::Group(Delimiter::Brace, inner)) = body.last() else { panic!("no match") };
    let empty_vec = [word("vec"), alone('!'), Token::Group(Delimiter::Bracket, vec![])];
    let mut expected = vec![word("T"), joint(':'), alone(':'), word("A"), joint('='), alone('>')];
    expected.extend(empty_vec);
    expected.push(alone(','));
    expected.extend([
        word("T"),
        joint(':'),
        alone(':'),
        word("B"),
        Token::Group(Delimiter::Parenthesis, vec![joint('.'), alone('.')]),
        joint('='),
        alone('>'),
        word("vec"),
        alone('!'),
        Token::Group(Delimiter::Bracket, vec![]),
    ]);
    assert_eq!(*inner, expected);
    assert_eq!(
        out,
        {
            let mut head = vec![
                word("pub"),
                word("fn"),
                word("get_named_fields_mut"),
                Token::Group(Delimiter::Parenthesis, vec![alone('&'), word("mut"), word("self")]),
                joint('-'),
                alone('>'),
                word("Vec"),
                alone('<'),
            ];
            let mut returned =
                vec![alone('&'), joint('\''), word("static"), word("str"), alone(',')];
            returned.extend(any_ref(true));
            head.push(Token::Group(Delimiter::Parenthesis, returned));
            head.push(alone('>'));
            head
        }
    );
}

#[test]
fn impl_blocks_around_given_methods() {
    assert_eq!(
        assemble_trait_impl("T", vec![word("m")]),
        vec![
            word("impl"),
            word("enum_reflect_extetn"),
            joint(':'),
            alone(':'),
            word("EnumReflect"),
            word("for"),
            word("T"),
            Token::Group(Delimiter::Brace, vec![word("m")]),
        ]
    );
    assert_eq!(
        assemble_inherent_impl("T", vec![]),
        vec![word("impl"), word("T"), Token::Group(Delimiter::Brace, vec![])]
    );
}
