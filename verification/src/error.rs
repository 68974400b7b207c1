//! The compile-error taxonomy. Every failure of the parse/validate/generate
//! pass is one of these variants; each carries the offending key or name (or
//! the surrounding context) so the host can surface an actionable message.

use vstd::prelude::*;

verus! {

/// A fatal error of one compiler invocation. There is no recovery: the first
/// violation aborts the whole invocation.
#[derive(Debug, PartialEq, Eq)]
pub enum Error {
    /// A required top-level key never appeared; carries that key.
    MissingRequiredKey(String),
    /// A top-level key appeared twice; carries that key.
    DuplicateKey(String),
    /// An unrecognized top-level key; carries that key.
    UnknownKey(String),
    /// The required keys appeared out of their fixed order
    /// `name`, `type`, `groups_of_incompatible`.
    KeysOutOfOrder,
    /// An identifier was expected; carries the context.
    ExpectedIdentifier(String),
    /// A punctuation mark was expected; carries the mark and the context.
    ExpectedPunctuation(char, String),
    /// A brace-delimited group was expected; carries the context.
    ExpectedGroupDelimiter(String),
    /// A flag name contains a non-ASCII character; carries the name.
    NonAsciiFlagName(String),
    /// Two groups share a name; carries the name.
    DuplicateGroupName(String),
    /// Two flags of one group share a case-folded name; carries the group
    /// name and the folded flag name.
    DuplicateFlagNameInGroup(String, String),
    /// Tokens remained after the three required keys.
    UnexpectedTrailingTokens,
}

/// The mathematical value of an [`Error`].
pub enum ErrorV {
    MissingRequiredKey(Seq<char>),
    DuplicateKey(Seq<char>),
    UnknownKey(Seq<char>),
    KeysOutOfOrder,
    ExpectedIdentifier(Seq<char>),
    ExpectedPunctuation(char, Seq<char>),
    ExpectedGroupDelimiter(Seq<char>),
    NonAsciiFlagName(Seq<char>),
    DuplicateGroupName(Seq<char>),
    DuplicateFlagNameInGroup(Seq<char>, Seq<char>),
    UnexpectedTrailingTokens,
}

impl View for Error {
    type V = ErrorV;

    open spec fn view(&self) -> ErrorV {
        match self {
            Error::MissingRequiredKey(k) => ErrorV::MissingRequiredKey(k@),
            Error::DuplicateKey(k) => ErrorV::DuplicateKey(k@),
            Error::UnknownKey(k) => ErrorV::UnknownKey(k@),
            Error::KeysOutOfOrder => ErrorV::KeysOutOfOrder,
            Error::ExpectedIdentifier(c) => ErrorV::ExpectedIdentifier(c@),
            Error::ExpectedPunctuation(p, c) => ErrorV::ExpectedPunctuation(*p, c@),
            Error::ExpectedGroupDelimiter(c) => ErrorV::ExpectedGroupDelimiter(c@),
            Error::NonAsciiFlagName(n) => ErrorV::NonAsciiFlagName(n@),
            Error::DuplicateGroupName(n) => ErrorV::DuplicateGroupName(n@),
            Error::DuplicateFlagNameInGroup(g, n) => ErrorV::DuplicateFlagNameInGroup(g@, n@),
            Error::UnexpectedTrailingTokens => ErrorV::UnexpectedTrailingTokens,
        }
    }
}

} // verus!
