//! The lexical token types the compiler consumes and produces.
//!
//! Input is a sequence of token trees ([`Token`]): identifiers, punctuation
//! marks, and delimited groups. Output is a flat lexical stream
//! ([`OutToken`]) in which delimiters appear as explicit open/close tokens,
//! ready to be rendered to text or handed to a host macro facility.

use vstd::prelude::*;

verus! {

/// The delimiter of a token group.
#[derive(Clone, Copy, Debug, PartialEq, Eq, Structural)]
pub enum Delim {
    Brace,
    Parenthesis,
    Bracket,
}

/// One input token tree.
#[derive(Debug)]
pub enum Token {
    /// An identifier (a keyword of the language is lexically an identifier).
    Ident(String),
    /// A single punctuation character, such as `:` or `,`.
    Punct(char),
    /// A delimited group of token trees.
    Group(Delim, Vec<Token>),
}

/// One emitted token of the generated code, as a flat lexical stream.
#[derive(Debug, PartialEq, Eq)]
pub enum OutToken {
    /// An identifier (including keywords of the generated language).
    Ident(String),
    /// A single punctuation character.
    Punct(char),
    /// An opening delimiter.
    Open(Delim),
    /// A closing delimiter.
    Close(Delim),
    /// An unsuffixed integer literal.
    Literal(usize),
}

/// The mathematical value of one emitted token.
pub enum OutTokenV {
    Ident(Seq<char>),
    Punct(char),
    Open(Delim),
    Close(Delim),
    Literal(usize),
}

impl View for OutToken {
    type V = OutTokenV;

    open spec fn view(&self) -> OutTokenV {
        match self {
            OutToken::Ident(s) => OutTokenV::Ident(s@),
            OutToken::Punct(c) => OutTokenV::Punct(*c),
            OutToken::Open(d) => OutTokenV::Open(*d),
            OutToken::Close(d) => OutTokenV::Close(*d),
            OutToken::Literal(n) => OutTokenV::Literal(*n),
        }
    }
}

/// The values of a sequence of emitted tokens.
pub open spec fn toks_view(s: Seq<OutToken>) -> Seq<OutTokenV> {
    Seq::new(s.len(), |i: int| s[i]@)
}

/// Pushing one token extends the value sequence by that token's value.
pub proof fn lemma_toks_view_push(s: Seq<OutToken>, t: OutToken)
    ensures
        toks_view(s.push(t)) == toks_view(s).push(t@),
{
    assert(toks_view(s.push(t)) =~= toks_view(s).push(t@));
}

/// Whether token `t` is the punctuation mark `c`.
pub open spec fn is_punct(t: Token, c: char) -> bool {
    t matches Token::Punct(d) && d == c
}

/// Whether token `t` is an identifier.
pub open spec fn is_ident(t: Token) -> bool {
    t is Ident
}

/// The characters of an identifier token (arbitrary on other tokens).
pub open spec fn ident_chars(t: Token) -> Seq<char> {
    t->Ident_0@
}

} // verus!
