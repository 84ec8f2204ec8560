//! The token alphabet of the annotation grammar.
//!
//! The host's lexer hands an annotation payload over as a sequence of
//! tokens; the grammar only ever reads an identifier's text, a punctuation
//! character, or a literal's source text, so a token carries exactly that.
//! A parenthesised group is opaque to the grammar and carries nothing.

use vstd::prelude::*;

verus! {

/// One token of an annotation payload.
#[derive(Debug, PartialEq, Eq)]
pub enum Token {
    /// An identifier, as its text.
    Ident(String),
    /// A punctuation character.
    Punct(char),
    /// A literal, as its source text (a string literal keeps its quotes).
    Literal(String),
    /// A parenthesised group; the grammar never looks inside one.
    Group,
}

/// Mathematical view of one token.
pub enum TokenV {
    Ident(Seq<char>),
    Punct(char),
    Literal(Seq<char>),
    Group,
}

impl View for Token {
    type V = TokenV;

    open spec fn view(&self) -> TokenV {
        match self {
            Token::Ident(s) => TokenV::Ident(s@),
            Token::Punct(c) => TokenV::Punct(*c),
            Token::Literal(s) => TokenV::Literal(s@),
            Token::Group => TokenV::Group,
        }
    }
}

/// Whether `t` is the punctuation character `c`.
pub open spec fn is_punct_tok(t: Token, c: char) -> bool {
    match t@ {
        TokenV::Punct(p) => p == c,
        _ => false,
    }
}

/// Whether `t` is the comma separating two entries.
pub open spec fn is_comma(t: Token) -> bool {
    is_punct_tok(t, ',')
}

/// Whether `t` is the punctuation character `c`.
pub fn punct_is(t: &Token, c: char) -> (r: bool)
    ensures
        r == is_punct_tok(*t, c),
{
    match t {
        Token::Punct(p) => *p == c,
        _ => false,
    }
}

/// A token holding the same text as `t`.
pub fn dup_token(t: &Token) -> (r: Token)
    ensures
        r@ == t@,
{
    match t {
        Token::Ident(s) => Token::Ident(s.clone()),
        Token::Punct(c) => Token::Punct(*c),
        Token::Literal(s) => Token::Literal(s.clone()),
        Token::Group => Token::Group,
    }
}

} // verus!
