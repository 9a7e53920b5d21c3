//! Token trees: the form in which generated code leaves the library.
//!
//! A stream of tokens is a `Vec<Token>`; its mathematical value is the
//! `Seq<TokenView>` that `deep_view()` gives. Contracts speak of that value
//! only.

use vstd::prelude::*;

verus! {

/// The bracket pair around a group of tokens.
#[derive(Clone, Copy, Debug, PartialEq, Eq)]
pub enum Delimiter {
    /// `( .. )`
    Parenthesis,
    /// `{ .. }`
    Brace,
    /// `[ .. ]`
    Bracket,
}

/// Whether a punctuation character is glued to the punctuation after it.
#[derive(Clone, Copy, Debug, PartialEq, Eq)]
pub enum Spacing {
    /// The character ends an operator.
    Alone,
    /// The character and the punctuation after it form one operator, as the
    /// first `:` of `::` does.
    Joint,
}

/// One token tree.
#[derive(Debug, PartialEq, Eq)]
pub enum Token {
    /// An identifier or keyword, by its text.
    Ident(String),
    /// One punctuation character.
    Punct(char, Spacing),
    /// A string literal, by the value it denotes.
    Str(String),
    /// A delimited group and the tokens inside it.
    Group(Delimiter, Vec<Token>),
}

/// The mathematical value of a [`Token`].
#[verifier::ext_equal]
pub enum TokenView {
    Ident(Seq<char>),
    Punct(char, Spacing),
    Str(Seq<char>),
    Group(Delimiter, Seq<TokenView>),
}

impl Token {
    /// The value of a token, taken down through its groups. (The test on `i`
    /// is there for the proof of termination: within a group it always holds.)
    pub open spec fn model(self) -> TokenView
        decreases self,
    {
        match self {
            Token::Ident(text) => TokenView::Ident(text@),
            Token::Punct(c, spacing) => TokenView::Punct(c, spacing),
            Token::Str(value) => TokenView::Str(value@),
            Token::Group(delimiter, inner) => TokenView::Group(
                delimiter,
                Seq::new(
                    inner@.len(),
                    |i: int|
                        if 0 <= i < inner@.len() {
                            inner@[i].model()
                        } else {
                            arbitrary()
                        },
                ),
            ),
        }
    }

    /// The identifier or keyword with the given text.
    pub fn ident(text: &str) -> (t: Token)
        ensures
            t.deep_view() == TokenView::Ident(text@),
    {
        Token::Ident(text.to_owned())
    }

    /// A punctuation character that ends an operator.
    pub fn alone(c: char) -> (t: Token)
        ensures
            t.deep_view() == TokenView::Punct(c, Spacing::Alone),
    {
        Token::Punct(c, Spacing::Alone)
    }

    /// A punctuation character that the next one continues.
    pub fn joint(c: char) -> (t: Token)
        ensures
            t.deep_view() == TokenView::Punct(c, Spacing::Joint),
    {
        Token::Punct(c, Spacing::Joint)
    }

    /// The string literal that denotes `value`.
    pub fn string(value: &str) -> (t: Token)
        ensures
            t.deep_view() == TokenView::Str(value@),
    {
        Token::Str(value.to_owned())
    }

    /// The group that holds `inner` between the brackets of `delimiter`.
    pub fn group(delimiter: Delimiter, inner: Vec<Token>) -> (t: Token)
        ensures
            t.deep_view() == TokenView::Group(delimiter, inner.deep_view()),
    {
        let t = Token::Group(delimiter, inner);
        proof {
            assert(t.model()->Group_1 =~= inner.deep_view());
        }
        t
    }
}

impl View for Token {
    type V = TokenView;

    open spec fn view(&self) -> TokenView {
        self.model()
    }
}

impl DeepView for Token {
    type V = TokenView;

    open spec fn deep_view(&self) -> TokenView {
        self.model()
    }
}

} // verus!
