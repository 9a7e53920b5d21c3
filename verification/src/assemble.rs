//! The method assembler: from the arms of an accessor to the tokens of its
//! method, and from the methods to the impl block.

use vstd::prelude::*;
use crate::arm::{AccessorKind, Arm, ArmView, Entry, EntryView, Pattern, PatternView};
use crate::seqs::{empty_deep, push_deep};
use crate::token::{Delimiter, Spacing, Token, TokenView};

verus! {

/// The keyword or fixed name with the text `text`.
pub open spec fn word(text: &str) -> TokenView {
    TokenView::Ident(text@)
}

/// The operator of the one character `c`.
pub open spec fn punct(c: char) -> TokenView {
    TokenView::Punct(c, Spacing::Alone)
}

/// The operator of the two characters `first` and `second`.
pub open spec fn punct2(first: char, second: char) -> Seq<TokenView> {
    seq![TokenView::Punct(first, Spacing::Joint), TokenView::Punct(second, Spacing::Alone)]
}

/// The streams of `items` one after the other, with `sep` between each two.
pub open spec fn separated(items: Seq<Seq<TokenView>>, sep: TokenView) -> Seq<TokenView>
    decreases items.len(),
{
    if items.len() == 0 {
        Seq::empty()
    } else if items.len() == 1 {
        items[0]
    } else {
        separated(items.drop_last(), sep).push(sep) + items.last()
    }
}

/// The streams of `items` one after the other, with `sep` after each.
pub open spec fn terminated(items: Seq<Seq<TokenView>>, sep: TokenView) -> Seq<TokenView>
    decreases items.len(),
{
    if items.len() == 0 {
        Seq::empty()
    } else {
        terminated(items.drop_last(), sep) + items.last().push(sep)
    }
}

/// The type of a type-erased reference: `& dyn std :: any :: Any`, with `mut`
/// after the `&` for a mutable one.
pub open spec fn any_ref_tokens(mutable: bool) -> Seq<TokenView> {
    seq![punct('&')] + (if mutable {
        seq![word("mut")]
    } else {
        Seq::empty()
    }) + seq![word("dyn"), word("std")] + punct2(':', ':') + seq![word("any")] + punct2(':', ':')
        + seq![word("Any")]
}

/// A binding cast to a type-erased reference: `b as & dyn std :: any :: Any`.
pub open spec fn cast_tokens(binding: Seq<char>, mutable: bool) -> Seq<TokenView> {
    seq![TokenView::Ident(binding), word("as")] + any_ref_tokens(mutable)
}

/// One element of an arm's collection: the cast of the entry's binding, for a
/// labelled entry inside the pair `( "label" , .. )`.
pub open spec fn entry_tokens(entry: EntryView, mutable: bool) -> Seq<TokenView> {
    match entry.label {
        None => cast_tokens(entry.binding, mutable),
        Some(label) => seq![
            TokenView::Group(
                Delimiter::Parenthesis,
                seq![TokenView::Str(label), punct(',')] + cast_tokens(entry.binding, mutable),
            ),
        ],
    }
}

/// Each name as an identifier, a stream of its own.
pub open spec fn binding_streams(bindings: Seq<Seq<char>>) -> Seq<Seq<TokenView>> {
    Seq::new(bindings.len(), |i: int| seq![TokenView::Ident(bindings[i])])
}

/// Each entry's tokens, a stream of its own.
pub open spec fn entry_streams(entries: Seq<EntryView>, mutable: bool) -> Seq<Seq<TokenView>> {
    Seq::new(entries.len(), |i: int| entry_tokens(entries[i], mutable))
}

/// What follows the variant's path in a pattern: nothing, `( b0 , b1 )`,
/// `( .. )` or `{ a , b }`.
pub open spec fn binder_tokens(pattern: PatternView) -> Seq<TokenView> {
    match pattern {
        PatternView::Unit => Seq::empty(),
        PatternView::Tuple(bindings) => seq![
            TokenView::Group(
                Delimiter::Parenthesis,
                separated(binding_streams(bindings), punct(',')),
            ),
        ],
        PatternView::TupleRest => seq![TokenView::Group(Delimiter::Parenthesis, punct2('.', '.'))],
        PatternView::Struct(bindings) => seq![
            TokenView::Group(Delimiter::Brace, separated(binding_streams(bindings), punct(','))),
        ],
    }
}

/// One arm: `T :: V <binders> => vec ! [ <entries, comma-separated> ]`.
pub open spec fn arm_tokens(owner: Seq<char>, arm: ArmView, mutable: bool) -> Seq<TokenView> {
    seq![TokenView::Ident(owner)] + punct2(':', ':') + seq![TokenView::Ident(arm.variant)]
        + binder_tokens(arm.pattern) + punct2('=', '>') + seq![
        word("vec"),
        punct('!'),
        TokenView::Group(
            Delimiter::Bracket,
            separated(entry_streams(arm.entries, mutable), punct(',')),
        ),
    ]
}

/// Each arm's tokens, a stream of its own.
pub open spec fn arm_streams(owner: Seq<char>, arms: Seq<ArmView>, mutable: bool) -> Seq<
    Seq<TokenView>,
> {
    Seq::new(arms.len(), |i: int| arm_tokens(owner, arms[i], mutable))
}

/// The arms inside the braces of the `match`, in their order. A read-only
/// accessor has a comma after each arm; a mutable one has a comma between
/// each two.
pub open spec fn arms_tokens(owner: Seq<char>, arms: Seq<ArmView>, mutable: bool) -> Seq<
    TokenView,
> {
    if mutable {
        separated(arm_streams(owner, arms, true), punct(','))
    } else {
        terminated(arm_streams(owner, arms, false), punct(','))
    }
}

/// The name of the method of an accessor.
pub open spec fn method_name(kind: AccessorKind) -> Seq<char> {
    match kind {
        AccessorKind::Fields => "get_fields"@,
        AccessorKind::NamedFields => "get_named_fields"@,
        AccessorKind::FieldsMut => "get_fields_mut"@,
        AccessorKind::NamedFieldsMut => "get_named_fields_mut"@,
    }
}

/// The receiver of an accessor: `& self` or `& mut self`.
pub open spec fn receiver_tokens(mutable: bool) -> Seq<TokenView> {
    seq![punct('&')] + (if mutable {
        seq![word("mut")]
    } else {
        Seq::empty()
    }) + seq![word("self")]
}

/// What an accessor returns: `Vec < R >`, where `R` is the type-erased
/// reference, for an accessor that gives names inside the pair
/// `( & ' static str , R )`.
pub open spec fn return_tokens(kind: AccessorKind) -> Seq<TokenView> {
    seq![word("Vec"), punct('<')] + (if kind.named() {
        seq![
            TokenView::Group(
                Delimiter::Parenthesis,
                seq![
                    punct('&'),
                    TokenView::Punct('\'', Spacing::Joint),
                    word("static"),
                    word("str"),
                    punct(','),
                ] + any_ref_tokens(kind.mutable()),
            ),
        ]
    } else {
        any_ref_tokens(kind.mutable())
    }) + seq![punct('>')]
}

/// The method of an accessor:
/// `pub fn <name> ( <receiver> ) -> <return type> { match self { <arms> } }`.
pub open spec fn method_tokens(owner: Seq<char>, arms: Seq<ArmView>, kind: AccessorKind) -> Seq<
    TokenView,
> {
    seq![
        word("pub"),
        word("fn"),
        TokenView::Ident(method_name(kind)),
        TokenView::Group(Delimiter::Parenthesis, receiver_tokens(kind.mutable())),
    ] + punct2('-', '>') + return_tokens(kind) + seq![
        TokenView::Group(
            Delimiter::Brace,
            seq![
                word("match"),
                word("self"),
                TokenView::Group(Delimiter::Brace, arms_tokens(owner, arms, kind.mutable())),
            ],
        ),
    ]
}

/// The block that holds `methods` as methods of the trait
/// `enum_reflect_extetn :: EnumReflect`, implemented for the type.
pub open spec fn trait_impl_tokens(owner: Seq<char>, methods: Seq<TokenView>) -> Seq<
    TokenView,
> {
    seq![word("impl"), word("enum_reflect_extetn")] + punct2(':', ':') + seq![
        word("EnumReflect"),
        word("for"),
        TokenView::Ident(owner),
        TokenView::Group(Delimiter::Brace, methods),
    ]
}

/// The block that holds `methods` as methods of the type's own.
pub open spec fn inherent_impl_tokens(owner: Seq<char>, methods: Seq<TokenView>) -> Seq<
    TokenView,
> {
    seq![word("impl"), TokenView::Ident(owner), TokenView::Group(Delimiter::Brace, methods)]
}

/// Puts the operator of two characters at the end of a stream.
fn emit_punct2(out: &mut Vec<Token>, first: char, second: char)
    ensures
        final(out).deep_view() == old(out).deep_view() + punct2(first, second),
{
    push_deep(out, Token::joint(first));
    push_deep(out, Token::alone(second));
}

/// Puts the type of a type-erased reference at the end of a stream.
fn emit_any_ref(out: &mut Vec<Token>, mutable: bool)
    ensures
        final(out).deep_view() == old(out).deep_view() + any_ref_tokens(mutable),
{
    push_deep(out, Token::alone('&'));
    if mutable {
        push_deep(out, Token::ident("mut"));
    }
    push_deep(out, Token::ident("dyn"));
    push_deep(out, Token::ident("std"));
    emit_punct2(out, ':', ':');
    push_deep(out, Token::ident("any"));
    emit_punct2(out, ':', ':');
    push_deep(out, Token::ident("Any"));
}

/// Puts the cast of a binding at the end of a stream.
fn emit_cast(out: &mut Vec<Token>, binding: &String, mutable: bool)
    ensures
        final(out).deep_view() == old(out).deep_view() + cast_tokens(binding@, mutable),
{
    push_deep(out, Token::ident(binding.as_str()));
    push_deep(out, Token::ident("as"));
    emit_any_ref(out, mutable);
}

/// Puts one element of an arm's collection at the end of a stream.
fn emit_entry(out: &mut Vec<Token>, entry: &Entry, mutable: bool)
    ensures
        final(out).deep_view() == old(out).deep_view() + entry_tokens(entry@, mutable),
{
    match &entry.label {
        None => {
            emit_cast(out, &entry.binding, mutable);
        },
        Some(label) => {
            let mut pair: Vec<Token> = empty_deep();
            push_deep(&mut pair, Token::string(label.as_str()));
            push_deep(&mut pair, Token::alone(','));
            emit_cast(&mut pair, &entry.binding, mutable);
            assert(pair.deep_view() =~= seq![TokenView::Str(label@), punct(',')] + cast_tokens(
                entry.binding@,
                mutable,
            ));
            push_deep(out, Token::group(Delimiter::Parenthesis, pair));
        },
    }
}

/// The bindings of a pattern, with a comma between each two.
fn bindings_list(bindings: &Vec<String>) -> (out: Vec<Token>)
    ensures
        out.deep_view() == separated(binding_streams(bindings.deep_view()), punct(',')),
{
    let ghost streams = binding_streams(bindings.deep_view());
    let mut out: Vec<Token> = empty_deep();
    let mut i: usize = 0;
    while i < bindings.len()
        invariant
            i <= bindings.len(),
            streams == binding_streams(bindings.deep_view()),
            out.deep_view() == separated(streams.subrange(0, i as int), punct(',')),
        decreases bindings.len() - i,
    {
        if i > 0 {
            push_deep(&mut out, Token::alone(','));
        }
        push_deep(&mut out, Token::ident(bindings[i].as_str()));
        proof {
            assert(streams.subrange(0, i + 1).drop_last() =~= streams.subrange(0, i as int));
        }
        i += 1;
    }
    proof {
        assert(streams.subrange(0, i as int) =~= streams);
    }
    out
}

/// The elements of an arm's collection, with a comma between each two.
fn entries_list(entries: &Vec<Entry>, mutable: bool) -> (out: Vec<Token>)
    ensures
        out.deep_view() == separated(entry_streams(entries.deep_view(), mutable), punct(',')),
{
    let ghost streams = entry_streams(entries.deep_view(), mutable);
    let mut out: Vec<Token> = empty_deep();
    let mut i: usize = 0;
    while i < entries.len()
        invariant
            i <= entries.len(),
            streams == entry_streams(entries.deep_view(), mutable),
            out.deep_view() == separated(streams.subrange(0, i as int), punct(',')),
        decreases entries.len() - i,
    {
        if i > 0 {
            push_deep(&mut out, Token::alone(','));
        }
        emit_entry(&mut out, &entries[i], mutable);
        proof {
            assert(streams.subrange(0, i + 1).drop_last() =~= streams.subrange(0, i as int));
        }
        i += 1;
    }
    proof {
        assert(streams.subrange(0, i as int) =~= streams);
    }
    out
}

/// Puts what follows the variant's path in a pattern at the end of a stream.
fn emit_binders(out: &mut Vec<Token>, pattern: &Pattern)
    ensures
        final(out).deep_view() == old(out).deep_view() + binder_tokens(pattern@),
{
    match pattern {
        Pattern::Unit => {},
        Pattern::Tuple(bindings) => {
            push_deep(out, Token::group(Delimiter::Parenthesis, bindings_list(bindings)));
        },
        Pattern::TupleRest => {
            let mut rest: Vec<Token> = empty_deep();
            emit_punct2(&mut rest, '.', '.');
            push_deep(out, Token::group(Delimiter::Parenthesis, rest));
        },
        Pattern::Struct(bindings) => {
            push_deep(out, Token::group(Delimiter::Brace, bindings_list(bindings)));
        },
    }
}

/// Puts one arm at the end of a stream.
fn emit_arm(out: &mut Vec<Token>, owner: &str, arm: &Arm, mutable: bool)
    ensures
        final(out).deep_view() == old(out).deep_view() + arm_tokens(owner@, arm@, mutable),
{
    push_deep(out, Token::ident(owner));
    emit_punct2(out, ':', ':');
    push_deep(out, Token::ident(arm.variant.as_str()));
    emit_binders(out, &arm.pattern);
    emit_punct2(out, '=', '>');
    push_deep(out, Token::ident("vec"));
    push_deep(out, Token::alone('!'));
    push_deep(out, Token::group(Delimiter::Bracket, entries_list(&arm.entries, mutable)));
}

/// The arms of an accessor as they stand inside the braces of its `match`.
fn arms_list(owner: &str, arms: &Vec<Arm>, mutable: bool) -> (out: Vec<Token>)
    ensures
        out.deep_view() == arms_tokens(owner@, arms.deep_view(), mutable),
{
    let ghost streams = arm_streams(owner@, arms.deep_view(), mutable);
    let mut out: Vec<Token> = empty_deep();
    let mut i: usize = 0;
    while i < arms.len()
        invariant
            i <= arms.len(),
            streams == arm_streams(owner@, arms.deep_view(), mutable),
            mutable ==> out.deep_view() == separated(streams.subrange(0, i as int), punct(',')),
            !mutable ==> out.deep_view() == terminated(streams.subrange(0, i as int), punct(',')),
        decreases arms.len() - i,
    {
        if mutable && i > 0 {
            push_deep(&mut out, Token::alone(','));
        }
        emit_arm(&mut out, owner, &arms[i], mutable);
        if !mutable {
            push_deep(&mut out, Token::alone(','));
        }
        proof {
            assert(streams.subrange(0, i + 1).drop_last() =~= streams.subrange(0, i as int));
        }
        i += 1;
    }
    proof {
        assert(streams.subrange(0, i as int) =~= streams);
    }
    out
}

/// The name of the method of an accessor.
fn method_ident(kind: AccessorKind) -> (t: Token)
    ensures
        t.deep_view() == TokenView::Ident(method_name(kind)),
{
    match kind {
        AccessorKind::Fields => Token::ident("get_fields"),
        AccessorKind::NamedFields => Token::ident("get_named_fields"),
        AccessorKind::FieldsMut => Token::ident("get_fields_mut"),
        AccessorKind::NamedFieldsMut => Token::ident("get_named_fields_mut"),
    }
}

/// The receiver of an accessor.
fn receiver(mutable: bool) -> (out: Vec<Token>)
    ensures
        out.deep_view() == receiver_tokens(mutable),
{
    let mut out: Vec<Token> = empty_deep();
    push_deep(&mut out, Token::alone('&'));
    if mutable {
        push_deep(&mut out, Token::ident("mut"));
    }
    push_deep(&mut out, Token::ident("self"));
    out
}

/// Puts the return type of an accessor at the end of a stream.
fn emit_return(out: &mut Vec<Token>, kind: AccessorKind)
    ensures
        final(out).deep_view() == old(out).deep_view() + return_tokens(kind),
{
    push_deep(out, Token::ident("Vec"));
    push_deep(out, Token::alone('<'));
    if kind.is_named() {
        let mut pair: Vec<Token> = empty_deep();
        push_deep(&mut pair, Token::alone('&'));
        push_deep(&mut pair, Token::joint('\''));
        push_deep(&mut pair, Token::ident("static"));
        push_deep(&mut pair, Token::ident("str"));
        push_deep(&mut pair, Token::alone(','));
        emit_any_ref(&mut pair, kind.is_mutable());
        assert(pair.deep_view() =~= seq![
            punct('&'),
            TokenView::Punct('\'', Spacing::Joint),
            word("static"),
            word("str"),
            punct(','),
        ] + any_ref_tokens(kind.mutable()));
        push_deep(out, Token::group(Delimiter::Parenthesis, pair));
    } else {
        emit_any_ref(out, kind.is_mutable());
    }
    push_deep(out, Token::alone('>'));
}

/// Assembles the method of the accessor `kind` for the type `owner` from
/// the accessor's arms, and puts it at the end of `out`.
pub fn assemble_method(out: &mut Vec<Token>, owner: &str, arms: &Vec<Arm>, kind: AccessorKind)
    ensures
        final(out).deep_view() == old(out).deep_view() + method_tokens(
            owner@,
            arms.deep_view(),
            kind,
        ),
{
    let mut dispatch: Vec<Token> = empty_deep();
    push_deep(&mut dispatch, Token::ident("match"));
    push_deep(&mut dispatch, Token::ident("self"));
    push_deep(
        &mut dispatch,
        Token::group(Delimiter::Brace, arms_list(owner, arms, kind.is_mutable())),
    );
    assert(dispatch.deep_view() =~= seq![
        word("match"),
        word("self"),
        TokenView::Group(Delimiter::Brace, arms_tokens(owner@, arms.deep_view(), kind.mutable())),
    ]);

    push_deep(out, Token::ident("pub"));
    push_deep(out, Token::ident("fn"));
    push_deep(out, method_ident(kind));
    push_deep(out, Token::group(Delimiter::Parenthesis, receiver(kind.is_mutable())));
    emit_punct2(out, '-', '>');
    emit_return(out, kind);
    push_deep(out, Token::group(Delimiter::Brace, dispatch));
}

/// Assembles the block that implements the trait
/// `enum_reflect_extetn::EnumReflect` for the type `owner` with `methods`.
pub fn assemble_trait_impl(owner: &str, methods: Vec<Token>) -> (out: Vec<Token>)
    ensures
        out.deep_view() == trait_impl_tokens(owner@, methods.deep_view()),
{
    let mut out: Vec<Token> = empty_deep();
    push_deep(&mut out, Token::ident("impl"));
    push_deep(&mut out, Token::ident("enum_reflect_extetn"));
    emit_punct2(&mut out, ':', ':');
    push_deep(&mut out, Token::ident("EnumReflect"));
    push_deep(&mut out, Token::ident("for"));
    push_deep(&mut out, Token::ident(owner));
    push_deep(&mut out, Token::group(Delimiter::Brace, methods));
    out
}

/// Assembles the block that gives the type `owner` the methods `methods`
/// as its own.
pub fn assemble_inherent_impl(owner: &str, methods: Vec<Token>) -> (out: Vec<Token>)
    ensures
        out.deep_view() == inherent_impl_tokens(owner@, methods.deep_view()),
{
    let mut out: Vec<Token> = empty_deep();
    push_deep(&mut out, Token::ident("impl"));
    push_deep(&mut out, Token::ident(owner));
    push_deep(&mut out, Token::group(Delimiter::Brace, methods));
    out
}

} // verus!
