//! The parser of one invocation body. The accepted surface is, in tokens:
//!
//! ```text
//! name: <Ident>,
//! type: <Ident>,
//! groups_of_incompatible: {
//!     <GroupIdent>: { <flag_ident>: <value_ident>, ... },
//!     ...
//! },
//! ```
//!
//! The three keys are required, each exactly once, in exactly that order;
//! the trailing comma after each key and after each entry is required; and
//! nothing may follow the third key. [`parse_spec`] is the authoritative
//! statement of what the parser accepts and which error every rejected input
//! earns; the executable functions are proved to return exactly that.

use vstd::prelude::*;

use crate::error::{Error, ErrorV};
use crate::ir::{Specification, SpecificationV};
use crate::token::{ident_chars, is_ident, is_punct, Delim, Token};
use crate::validate::{raw_groups_view, validate_groups, validate_groups_spec};

verus! {

/// The first required key.
pub open spec fn kw_name() -> Seq<char> {
    "name"@
}

/// The second required key.
pub open spec fn kw_type() -> Seq<char> {
    "type"@
}

/// The third required key.
pub open spec fn kw_groups() -> Seq<char> {
    "groups_of_incompatible"@
}

/// Context reported where a top-level key was expected.
pub open spec fn ctx_top_key() -> Seq<char> {
    "top-level key"@
}

/// Context reported where a group name was expected.
pub open spec fn ctx_group_name() -> Seq<char> {
    "group name"@
}

/// Context reported where a group entry's trailing comma was expected.
pub open spec fn ctx_group_entry() -> Seq<char> {
    "group entry"@
}

/// Context reported where a flag name was expected.
pub open spec fn ctx_flag_name() -> Seq<char> {
    "flag name"@
}

/// Context reported where a flag's value was expected.
pub open spec fn ctx_flag_value() -> Seq<char> {
    "flag value"@
}

/// Context reported where a flag entry's trailing comma was expected.
pub open spec fn ctx_flag_entry() -> Seq<char> {
    "flag entry"@
}

/// Whether token `t` is a brace-delimited group.
pub open spec fn is_brace_group(t: Token) -> bool {
    t matches Token::Group(d, _) && d == Delim::Brace
}

/// The contents of a group token (arbitrary on other tokens).
pub open spec fn group_tokens(t: Token) -> Seq<Token> {
    t->Group_1@
}

/// The error a key identifier earns when `expected` was required in its
/// place: a key of an earlier slot is a duplicate, one of a later slot is
/// out of order, anything else is unknown.
pub open spec fn key_slot_error(k: Seq<char>, expected: Seq<char>) -> ErrorV {
    if expected == kw_name() {
        if k == kw_type() || k == kw_groups() {
            ErrorV::KeysOutOfOrder
        } else {
            ErrorV::UnknownKey(k)
        }
    } else if expected == kw_type() {
        if k == kw_name() {
            ErrorV::DuplicateKey(k)
        } else if k == kw_groups() {
            ErrorV::KeysOutOfOrder
        } else {
            ErrorV::UnknownKey(k)
        }
    } else {
        if k == kw_name() || k == kw_type() {
            ErrorV::DuplicateKey(k)
        } else {
            ErrorV::UnknownKey(k)
        }
    }
}

/// Parse of a flag map's contents from entry position `i` on, with the
/// entries parsed so far in `acc`: a run of `<flag_ident> : <value_ident> ,`
/// entries.
pub open spec fn parse_flags_from(
    ts: Seq<Token>,
    i: int,
    acc: Seq<(Seq<char>, Seq<char>)>,
) -> Result<Seq<(Seq<char>, Seq<char>)>, ErrorV>
    decreases ts.len() - i,
{
    if i >= ts.len() {
        Ok(acc)
    } else if !is_ident(ts[i]) {
        Err(ErrorV::ExpectedIdentifier(ctx_flag_name()))
    } else if i + 1 >= ts.len() || !is_punct(ts[i + 1], ':') {
        Err(ErrorV::ExpectedPunctuation(':', ctx_flag_name()))
    } else if i + 2 >= ts.len() || !is_ident(ts[i + 2]) {
        Err(ErrorV::ExpectedIdentifier(ctx_flag_value()))
    } else if i + 3 >= ts.len() || !is_punct(ts[i + 3], ',') {
        Err(ErrorV::ExpectedPunctuation(',', ctx_flag_entry()))
    } else {
        parse_flags_from(ts, i + 4, acc.push((ident_chars(ts[i]), ident_chars(ts[i + 2]))))
    }
}

/// Parse of the group map's contents from entry position `i` on, with the
/// entries parsed so far in `acc`: a run of `<GroupIdent> : { ... } ,`
/// entries.
pub open spec fn parse_groups_from(
    ts: Seq<Token>,
    i: int,
    acc: Seq<(Seq<char>, Seq<(Seq<char>, Seq<char>)>)>,
) -> Result<Seq<(Seq<char>, Seq<(Seq<char>, Seq<char>)>)>, ErrorV>
    decreases ts.len() - i,
{
    if i >= ts.len() {
        Ok(acc)
    } else if !is_ident(ts[i]) {
        Err(ErrorV::ExpectedIdentifier(ctx_group_name()))
    } else if i + 1 >= ts.len() || !is_punct(ts[i + 1], ':') {
        Err(ErrorV::ExpectedPunctuation(':', ctx_group_name()))
    } else if i + 2 >= ts.len() || !is_brace_group(ts[i + 2]) {
        Err(ErrorV::ExpectedGroupDelimiter(ctx_group_name()))
    } else {
        match parse_flags_from(group_tokens(ts[i + 2]), 0, Seq::empty()) {
            Ok(fl) => {
                if i + 3 >= ts.len() || !is_punct(ts[i + 3], ',') {
                    Err(ErrorV::ExpectedPunctuation(',', ctx_group_entry()))
                } else {
                    parse_groups_from(ts, i + 4, acc.push((ident_chars(ts[i]), fl)))
                }
            },
            Err(e) => Err(e),
        }
    }
}

/// What the parser returns on an invocation body: the declared name, the
/// underlying type, and the raw group entries -- or the first violation.
/// The three keys stand at fixed positions, so the body has exactly twelve
/// top-level tokens.
pub open spec fn parse_spec(ts: Seq<Token>) -> Result<
    (Seq<char>, Seq<char>, Seq<(Seq<char>, Seq<(Seq<char>, Seq<char>)>)>),
    ErrorV,
> {
    if ts.len() <= 0 {
        Err(ErrorV::MissingRequiredKey(kw_name()))
    } else if !is_ident(ts[0]) {
        Err(ErrorV::ExpectedIdentifier(ctx_top_key()))
    } else if ident_chars(ts[0]) != kw_name() {
        Err(key_slot_error(ident_chars(ts[0]), kw_name()))
    } else if ts.len() <= 1 || !is_punct(ts[1], ':') {
        Err(ErrorV::ExpectedPunctuation(':', kw_name()))
    } else if ts.len() <= 2 || !is_ident(ts[2]) {
        Err(ErrorV::ExpectedIdentifier(kw_name()))
    } else if ts.len() <= 3 || !is_punct(ts[3], ',') {
        Err(ErrorV::ExpectedPunctuation(',', kw_name()))
    } else if ts.len() <= 4 {
        Err(ErrorV::MissingRequiredKey(kw_type()))
    } else if !is_ident(ts[4]) {
        Err(ErrorV::ExpectedIdentifier(ctx_top_key()))
    } else if ident_chars(ts[4]) != kw_type() {
        Err(key_slot_error(ident_chars(ts[4]), kw_type()))
    } else if ts.len() <= 5 || !is_punct(ts[5], ':') {
        Err(ErrorV::ExpectedPunctuation(':', kw_type()))
    } else if ts.len() <= 6 || !is_ident(ts[6]) {
        Err(ErrorV::ExpectedIdentifier(kw_type()))
    } else if ts.len() <= 7 || !is_punct(ts[7], ',') {
        Err(ErrorV::ExpectedPunctuation(',', kw_type()))
    } else if ts.len() <= 8 {
        Err(ErrorV::MissingRequiredKey(kw_groups()))
    } else if !is_ident(ts[8]) {
        Err(ErrorV::ExpectedIdentifier(ctx_top_key()))
    } else if ident_chars(ts[8]) != kw_groups() {
        Err(key_slot_error(ident_chars(ts[8]), kw_groups()))
    } else if ts.len() <= 9 || !is_punct(ts[9], ':') {
        Err(ErrorV::ExpectedPunctuation(':', kw_groups()))
    } else if ts.len() <= 10 || !is_brace_group(ts[10]) {
        Err(ErrorV::ExpectedGroupDelimiter(kw_groups()))
    } else {
        match parse_groups_from(group_tokens(ts[10]), 0, Seq::empty()) {
            Ok(gs) => {
                if ts.len() <= 11 || !is_punct(ts[11], ',') {
                    Err(ErrorV::ExpectedPunctuation(',', kw_groups()))
                } else if ts.len() > 12 {
                    Err(ErrorV::UnexpectedTrailingTokens)
                } else {
                    Ok((ident_chars(ts[2]), ident_chars(ts[6]), gs))
                }
            },
            Err(e) => Err(e),
        }
    }
}

/// What parsing followed by validation returns: the compiled specification,
/// or the first violation of either pass.
pub open spec fn spec_of_tokens(ts: Seq<Token>) -> Result<SpecificationV, ErrorV> {
    match parse_spec(ts) {
        Ok((name, ty, raw)) => match validate_groups_spec(raw) {
            Ok(gs) => Ok(SpecificationV { name, underlying_type: ty, groups: gs }),
            Err(e) => Err(e),
        },
        Err(e) => Err(e),
    }
}

/// Whether the characters of `s` are exactly `kw`.
fn str_eq_kw(s: &String, kw: &str) -> (r: bool)
    ensures
        r == (s@ == kw@),
{
    s.eq(&String::from_str(kw))
}

/// Whether `t` is the punctuation mark `c`.
fn tok_is_punct(t: &Token, c: char) -> (r: bool)
    ensures
        r == is_punct(*t, c),
{
    match t {
        Token::Punct(d) => *d == c,
        _ => false,
    }
}

/// Parses a flag map's contents.
fn parse_flag_entries(ts: &Vec<Token>) -> (r: Result<Vec<(String, String)>, Error>)
    ensures
        match r {
            Ok(out) => parse_flags_from(ts@, 0, Seq::empty()) == Ok::<_, ErrorV>(
                crate::ir::flags_view(out@),
            ),
            Err(e) => parse_flags_from(ts@, 0, Seq::empty()) == Err::<
                Seq<(Seq<char>, Seq<char>)>,
                _,
            >(e@),
        },
{
    let mut acc: Vec<(String, String)> = Vec::new();
    let mut i: usize = 0;
    assert(crate::ir::flags_view(acc@) =~= Seq::<(Seq<char>, Seq<char>)>::empty());
    while i < ts.len()
        invariant
            i <= ts@.len(),
            parse_flags_from(ts@, 0, Seq::empty()) == parse_flags_from(
                ts@,
                i as int,
                crate::ir::flags_view(acc@),
            ),
        decreases ts@.len() - i,
    {
        let name = match &ts[i] {
            Token::Ident(s) => s.clone(),
            _ => {
                return Err(Error::ExpectedIdentifier(String::from_str("flag name")));
            },
        };
        if i + 1 >= ts.len() || !tok_is_punct(&ts[i + 1], ':') {
            return Err(Error::ExpectedPunctuation(':', String::from_str("flag name")));
        }
        let value = if i + 2 >= ts.len() {
            return Err(Error::ExpectedIdentifier(String::from_str("flag value")));
        } else {
            match &ts[i + 2] {
                Token::Ident(s) => s.clone(),
                _ => {
                    return Err(Error::ExpectedIdentifier(String::from_str("flag value")));
                },
            }
        };
        if i + 3 >= ts.len() || !tok_is_punct(&ts[i + 3], ',') {
            return Err(Error::ExpectedPunctuation(',', String::from_str("flag entry")));
        }
        let ghost acc0 = crate::ir::flags_view(acc@);
        acc.push((name, value));
        proof {
            assert(crate::ir::flags_view(acc@) =~= acc0.push(
                (ident_chars(ts@[i as int]), ident_chars(ts@[i + 2])),
            ));
        }
        i += 4;
    }
    Ok(acc)
}

/// Parses the group map's contents.
fn parse_group_entries(ts: &Vec<Token>) -> (r: Result<Vec<(String, Vec<(String, String)>)>, Error>)
    ensures
        match r {
            Ok(out) => parse_groups_from(ts@, 0, Seq::empty()) == Ok::<_, ErrorV>(
                raw_groups_view(out@),
            ),
            Err(e) => parse_groups_from(ts@, 0, Seq::empty()) == Err::<
                Seq<(Seq<char>, Seq<(Seq<char>, Seq<char>)>)>,
                _,
            >(e@),
        },
{
    let mut acc: Vec<(String, Vec<(String, String)>)> = Vec::new();
    let mut i: usize = 0;
    assert(raw_groups_view(acc@) =~= Seq::<(Seq<char>, Seq<(Seq<char>, Seq<char>)>)>::empty());
    while i < ts.len()
        invariant
            i <= ts@.len(),
            parse_groups_from(ts@, 0, Seq::empty()) == parse_groups_from(
                ts@,
                i as int,
                raw_groups_view(acc@),
            ),
        decreases ts@.len() - i,
    {
        let name = match &ts[i] {
            Token::Ident(s) => s.clone(),
            _ => {
                return Err(Error::ExpectedIdentifier(String::from_str("group name")));
            },
        };
        if i + 1 >= ts.len() || !tok_is_punct(&ts[i + 1], ':') {
            return Err(Error::ExpectedPunctuation(':', String::from_str("group name")));
        }
        let inner = if i + 2 >= ts.len() {
            return Err(Error::ExpectedGroupDelimiter(String::from_str("group name")));
        } else {
            match &ts[i + 2] {
                Token::Group(Delim::Brace, inner) => inner,
                _ => {
                    return Err(Error::ExpectedGroupDelimiter(String::from_str("group name")));
                },
            }
        };
        let flags = match parse_flag_entries(inner) {
            Ok(fl) => fl,
            Err(e) => {
                return Err(e);
            },
        };
        if i + 3 >= ts.len() || !tok_is_punct(&ts[i + 3], ',') {
            return Err(Error::ExpectedPunctuation(',', String::from_str("group entry")));
        }
        let ghost acc0 = raw_groups_view(acc@);
        acc.push((name, flags));
        proof {
            assert(raw_groups_view(acc@) =~= acc0.push(
                (
                    ident_chars(ts@[i as int]),
                    parse_flags_from(group_tokens(ts@[i + 2]), 0, Seq::empty())->Ok_0,
                ),
            ));
        }
        i += 4;
    }
    Ok(acc)
}

/// Parses the fixed-order top level of an invocation body into the raw
/// `(name, underlying type, group entries)` triple.
pub fn parse_tokens(ts: &Vec<Token>) -> (r: Result<
    (String, String, Vec<(String, Vec<(String, String)>)>),
    Error,
>)
    ensures
        match r {
            Ok(raw) => parse_spec(ts@) == Ok::<_, ErrorV>(
                (raw.0@, raw.1@, raw_groups_view(raw.2@)),
            ),
            Err(e) => parse_spec(ts@) == Err::<
                (Seq<char>, Seq<char>, Seq<(Seq<char>, Seq<(Seq<char>, Seq<char>)>)>),
                _,
            >(e@),
        },
{
    // key 1: `name`
    if ts.len() == 0 {
        return Err(Error::MissingRequiredKey(String::from_str("name")));
    }
    match &ts[0] {
        Token::Ident(k) => {
            if !str_eq_kw(k, "name") {
                return Err(key_error(k, 1));
            }
        },
        _ => {
            return Err(Error::ExpectedIdentifier(String::from_str("top-level key")));
        },
    }
    if ts.len() <= 1 || !tok_is_punct(&ts[1], ':') {
        return Err(Error::ExpectedPunctuation(':', String::from_str("name")));
    }
    let name = if ts.len() <= 2 {
        return Err(Error::ExpectedIdentifier(String::from_str("name")));
    } else {
        match &ts[2] {
            Token::Ident(s) => s.clone(),
            _ => {
                return Err(Error::ExpectedIdentifier(String::from_str("name")));
            },
        }
    };
    if ts.len() <= 3 || !tok_is_punct(&ts[3], ',') {
        return Err(Error::ExpectedPunctuation(',', String::from_str("name")));
    }
    // key 2: `type`
    if ts.len() <= 4 {
        return Err(Error::MissingRequiredKey(String::from_str("type")));
    }
    match &ts[4] {
        Token::Ident(k) => {
            if !str_eq_kw(k, "type") {
                return Err(key_error(k, 2));
            }
        },
        _ => {
            return Err(Error::ExpectedIdentifier(String::from_str("top-level key")));
        },
    }
    if ts.len() <= 5 || !tok_is_punct(&ts[5], ':') {
        return Err(Error::ExpectedPunctuation(':', String::from_str("type")));
    }
    let ty = if ts.len() <= 6 {
        return Err(Error::ExpectedIdentifier(String::from_str("type")));
    } else {
        match &ts[6] {
            Token::Ident(s) => s.clone(),
            _ => {
                return Err(Error::ExpectedIdentifier(String::from_str("type")));
            },
        }
    };
    if ts.len() <= 7 || !tok_is_punct(&ts[7], ',') {
        return Err(Error::ExpectedPunctuation(',', String::from_str("type")));
    }
    // key 3: `groups_of_incompatible`
    if ts.len() <= 8 {
        return Err(Error::MissingRequiredKey(String::from_str("groups_of_incompatible")));
    }
    match &ts[8] {
        Token::Ident(k) => {
            if !str_eq_kw(k, "groups_of_incompatible") {
                return Err(key_error(k, 3));
            }
        },
        _ => {
            return Err(Error::ExpectedIdentifier(String::from_str("top-level key")));
        },
    }
    if ts.len() <= 9 || !tok_is_punct(&ts[9], ':') {
        return Err(Error::ExpectedPunctuation(':', String::from_str("groups_of_incompatible")));
    }
    let inner = if ts.len() <= 10 {
        return Err(Error::ExpectedGroupDelimiter(String::from_str("groups_of_incompatible")));
    } else {
        match &ts[10] {
            Token::Group(Delim::Brace, inner) => inner,
            _ => {
                return Err(
                    Error::ExpectedGroupDelimiter(String::from_str("groups_of_incompatible")),
                );
            },
        }
    };
    let raw = match parse_group_entries(inner) {
        Ok(gs) => gs,
        Err(e) => {
            return Err(e);
        },
    };
    if ts.len() <= 11 || !tok_is_punct(&ts[11], ',') {
        return Err(Error::ExpectedPunctuation(',', String::from_str("groups_of_incompatible")));
    }
    if ts.len() > 12 {
        return Err(Error::UnexpectedTrailingTokens);
    }
    Ok((name, ty, raw))
}

/// The error a wrong key identifier at slot `slot` earns; mirrors
/// [`key_slot_error`].
fn key_error(k: &String, slot: u8) -> (r: Error)
    requires
        1 <= slot <= 3,
    ensures
        slot == 1 ==> r@ == key_slot_error(k@, kw_name()),
        slot == 2 ==> r@ == key_slot_error(k@, kw_type()),
        slot == 3 ==> r@ == key_slot_error(k@, kw_groups()),
{
    let is_name = str_eq_kw(k, "name");
    let is_type = str_eq_kw(k, "type");
    let is_groups = str_eq_kw(k, "groups_of_incompatible");
    proof {
        reveal_strlit("name");
        reveal_strlit("type");
        reveal_strlit("groups_of_incompatible");
        assert(kw_name().len() != kw_groups().len());
        assert(kw_name()[0] == 'n' && kw_type()[0] == 't');
        assert(kw_name() != kw_type());
    }
    if slot == 1 {
        if is_type || is_groups {
            Error::KeysOutOfOrder
        } else {
            Error::UnknownKey(k.clone())
        }
    } else if slot == 2 {
        if is_name {
            Error::DuplicateKey(k.clone())
        } else if is_groups {
            Error::KeysOutOfOrder
        } else {
            Error::UnknownKey(k.clone())
        }
    } else {
        if is_name || is_type {
            Error::DuplicateKey(k.clone())
        } else {
            Error::UnknownKey(k.clone())
        }
    }
}

impl Specification {
    /// Parses and validates one invocation body: the top-level grammar, then
    /// the group rules (unique group names; ASCII flag names, case-folded,
    /// unique within their group). Returns the compiled specification, which
    /// is well-formed, or the first violation.
    pub fn parse(ts: &Vec<Token>) -> (r: Result<Specification, Error>)
        ensures
            match r {
                Ok(s) => spec_of_tokens(ts@) == Ok::<_, ErrorV>(s@) && crate::ir::specification_wf(
                    s@,
                ),
                Err(e) => spec_of_tokens(ts@) == Err::<SpecificationV, _>(e@),
            },
    {
        let (name, ty, raw) = match parse_tokens(ts) {
            Ok(r) => r,
            Err(e) => {
                return Err(e);
            },
        };
        let groups = match validate_groups(&raw) {
            Ok(gs) => gs,
            Err(e) => {
                return Err(e);
            },
        };
        proof {
            crate::validate::lemma_validated_wf(raw_groups_view(raw@));
        }
        Ok(Specification { name, underlying_type: ty, groups })
    }
}

} // verus!
