//! End-to-end tests of the compiler pipeline: tokens in, builder API tokens
//! or a fatal error out.

use bitflag::codegen::bitflag_and_builder;
use bitflag::error::Error;
use bitflag::ir::Specification;
use bitflag::token::{Delim, OutToken, Token};

fn id(s: &str) -> Token {
    Token::Ident(s.to_string())
}

fn pt(c: char) -> Token {
    Token::Punct(c)
}

fn brace(v: Vec<Token>) -> Token {
    Token::Group(Delim::Brace, v)
}

/// The flag map `{ a: va, b: vb, ... }` as a token tree.
fn flag_map(flags: &[(&str, &str)]) -> Token {
    let mut v = Vec::new();
    for (name, value) in flags {
        v.push(id(name));
        v.push(pt(':'));
        v.push(id(value));
        v.push(pt(','));
    }
    brace(v)
}

/// A full invocation body with the given group entries.
fn body(name: &str, ty: &str, groups: &[(&str, &[(&str, &str)])]) -> Vec<Token> {
    let mut g = Vec::new();
    for (gname, flags) in groups {
        g.push(id(gname));
        g.push(pt(':'));
        g.push(flag_map(flags));
        g.push(pt(','));
    }
    vec![
        id("name"),
        pt(':'),
        id(name),
        pt(','),
        id("type"),
        pt(':'),
        id(ty),
        pt(','),
        id("groups_of_incompatible"),
        pt(':'),
        brace(g),
        pt(','),
    ]
}

/// The reference scenario's body: groups `Size{big, small}` and
/// `Colour{red, green, blue}` over `u32`.
fn size_colour_body() -> Vec<Token> {
    body(
        "CustomBitFlag",
        "u32",
        &[
            ("Size", &[("big", "BIG"), ("small", "SMALL")]),
            ("Colour", &[("red", "RED"), ("green", "GREEN"), ("blue", "BLUE")]),
        ],
    )
}

struct CustomBitFlag;

impl bitflag::BitFlag for CustomBitFlag {
    type Bits = u32;
}

#[test]
#[allow(dead_code)]
fn simple_size_colour_bitflag() {
    const BIG: u32 = 0u32;
    const SMALL: u32 = 1u32;

    const RED: u32 = 2u32;
    const GREEN: u32 = 4u32;
    const BLUE: u32 = 7u32;

    let spec = Specification::parse(&size_colour_body()).unwrap();
    assert_eq!(spec.name, "CustomBitFlag");
    assert_eq!(spec.underlying_type, "u32");
    assert_eq!(spec.groups.len(), 2);

    // Select `big` for the Size slot and `red` for the Colour slot, as
    // `builder().with_big().with_red().build()` does in generated code.
    let flag_builder = bitflag::builder::FlagBuilder::new(spec.groups.len());
    let value = flag_builder
        .select(0, BIG as u64)
        .unwrap()
        .select(1, RED as u64)
        .unwrap()
        .build()
        .unwrap();
    let flag = bitflag::ConstrainedFlag::<CustomBitFlag>(value as u32);
    assert_eq!(flag.0, BIG | RED);
}

#[test]
fn scenario_small_blue() {
    const SMALL: u32 = 1u32;
    const BLUE: u32 = 7u32;

    let spec = Specification::parse(&size_colour_body()).unwrap();
    let value = bitflag::builder::FlagBuilder::new(spec.groups.len())
        .select(0, SMALL as u64)
        .unwrap()
        .select(1, BLUE as u64)
        .unwrap()
        .build()
        .unwrap();
    assert_eq!(value, 1 + 7);
}

#[test]
fn selection_order_across_groups_commutes() {
    // Size first or Colour first: the combined value is the same.
    let a = bitflag::builder::FlagBuilder::new(2)
        .select(0, 1)
        .unwrap()
        .select(1, 7)
        .unwrap()
        .build()
        .unwrap();
    let b = bitflag::builder::FlagBuilder::new(2)
        .select(1, 7)
        .unwrap()
        .select(0, 1)
        .unwrap()
        .build()
        .unwrap();
    assert_eq!(a, b);
}

#[test]
fn case_folded_names_generate_the_same_stream() {
    let upper = body("F", "u8", &[("G", &[("RED", "V")])]);
    let lower = body("F", "u8", &[("G", &[("red", "V")])]);
    let out_upper = bitflag_and_builder(&upper).unwrap();
    let out_lower = bitflag_and_builder(&lower).unwrap();
    assert_eq!(out_upper, out_lower);
    assert!(out_upper.contains(&OutToken::Ident("with_red".to_string())));

    let spec = Specification::parse(&upper).unwrap();
    assert_eq!(spec.groups[0].flags[0].0, "red");
}

#[test]
fn generated_stream_shape() {
    let out = bitflag_and_builder(&size_colour_body()).unwrap();
    // It opens with the flag-set type and its BitFlag binding.
    assert_eq!(out[0], OutToken::Ident("pub".to_string()));
    assert_eq!(out[1], OutToken::Ident("struct".to_string()));
    assert_eq!(out[2], OutToken::Ident("CustomBitFlag".to_string()));
    assert_eq!(out[3], OutToken::Punct(';'));
    // One operation per declared flag, one entry point, one completion.
    for op in ["with_big", "with_small", "with_red", "with_green", "with_blue", "builder", "build"]
    {
        assert!(out.contains(&OutToken::Ident(op.to_string())), "{op} missing");
    }
    // The storage array is sized by the number of groups.
    assert!(out.contains(&OutToken::Literal(2)));
    assert!(out.contains(&OutToken::Ident("CustomBitFlagBuilder".to_string())));
    assert!(out.contains(&OutToken::Ident("SSize".to_string())));
    assert!(out.contains(&OutToken::Ident("SColour".to_string())));
}

#[test]
fn rejects_groups_before_type() {
    let ts = vec![
        id("name"),
        pt(':'),
        id("F"),
        pt(','),
        id("groups_of_incompatible"),
        pt(':'),
        brace(vec![]),
        pt(','),
        id("type"),
        pt(':'),
        id("u32"),
        pt(','),
    ];
    assert_eq!(Specification::parse(&ts).unwrap_err(), Error::KeysOutOfOrder);
}

#[test]
fn rejects_duplicate_flag_name_case_insensitive() {
    let ts = body("F", "u32", &[("Colour", &[("Red", "A"), ("red", "B")])]);
    assert_eq!(
        Specification::parse(&ts).unwrap_err(),
        Error::DuplicateFlagNameInGroup("Colour".to_string(), "red".to_string())
    );
}

#[test]
fn rejects_duplicate_group_name() {
    let ts = body("F", "u32", &[("Size", &[("big", "A")]), ("Size", &[("small", "B")])]);
    assert_eq!(Specification::parse(&ts).unwrap_err(), Error::DuplicateGroupName("Size".to_string()));
}

#[test]
fn rejects_missing_required_key() {
    assert_eq!(
        Specification::parse(&vec![]).unwrap_err(),
        Error::MissingRequiredKey("name".to_string())
    );
    let ts = vec![id("name"), pt(':'), id("F"), pt(','), id("type"), pt(':'), id("u32"), pt(',')];
    assert_eq!(
        Specification::parse(&ts).unwrap_err(),
        Error::MissingRequiredKey("groups_of_incompatible".to_string())
    );
}

#[test]
fn rejects_duplicate_key() {
    let ts = vec![
        id("name"),
        pt(':'),
        id("F"),
        pt(','),
        id("name"),
        pt(':'),
        id("G"),
        pt(','),
    ];
    assert_eq!(Specification::parse(&ts).unwrap_err(), Error::DuplicateKey("name".to_string()));
}

#[test]
fn rejects_unknown_key() {
    let ts = vec![id("colour"), pt(':'), id("F"), pt(',')];
    assert_eq!(Specification::parse(&ts).unwrap_err(), Error::UnknownKey("colour".to_string()));
}

#[test]
fn rejects_non_identifier_key() {
    let ts = vec![pt(':')];
    assert_eq!(
        Specification::parse(&ts).unwrap_err(),
        Error::ExpectedIdentifier("top-level key".to_string())
    );
}

#[test]
fn rejects_missing_punctuation() {
    let ts = vec![id("name"), pt(','), id("F")];
    assert_eq!(
        Specification::parse(&ts).unwrap_err(),
        Error::ExpectedPunctuation(':', "name".to_string())
    );
    // A flag entry without its trailing comma.
    let inner = brace(vec![id("big"), pt(':'), id("BIG")]);
    let ts = vec![
        id("name"),
        pt(':'),
        id("F"),
        pt(','),
        id("type"),
        pt(':'),
        id("u32"),
        pt(','),
        id("groups_of_incompatible"),
        pt(':'),
        brace(vec![id("Size"), pt(':'), inner, pt(',')]),
        pt(','),
    ];
    assert_eq!(
        Specification::parse(&ts).unwrap_err(),
        Error::ExpectedPunctuation(',', "flag entry".to_string())
    );
}

#[test]
fn rejects_missing_group_delimiter() {
    let ts = vec![
        id("name"),
        pt(':'),
        id("F"),
        pt(','),
        id("type"),
        pt(':'),
        id("u32"),
        pt(','),
        id("groups_of_incompatible"),
        pt(':'),
        id("not_a_group"),
        pt(','),
    ];
    assert_eq!(
        Specification::parse(&ts).unwrap_err(),
        Error::ExpectedGroupDelimiter("groups_of_incompatible".to_string())
    );
    // A parenthesized group is not a brace group.
    let ts = vec![
        id("name"),
        pt(':'),
        id("F"),
        pt(','),
        id("type"),
        pt(':'),
        id("u32"),
        pt(','),
        id("groups_of_incompatible"),
        pt(':'),
        Token::Group(Delim::Parenthesis, vec![]),
        pt(','),
    ];
    assert_eq!(
        Specification::parse(&ts).unwrap_err(),
        Error::ExpectedGroupDelimiter("groups_of_incompatible".to_string())
    );
}

#[test]
fn rejects_non_ascii_flag_name() {
    let ts = body("F", "u32", &[("Colour", &[("grün", "G")])]);
    assert_eq!(
        Specification::parse(&ts).unwrap_err(),
        Error::NonAsciiFlagName("grün".to_string())
    );
}

#[test]
fn rejects_trailing_tokens() {
    let mut ts = body("F", "u32", &[("Size", &[("big", "A")])]);
    ts.push(pt(';'));
    assert_eq!(Specification::parse(&ts).unwrap_err(), Error::UnexpectedTrailingTokens);
}

#[test]
fn empty_groups_accepted() {
    let ts = body("F", "u8", &[]);
    let spec = Specification::parse(&ts).unwrap();
    assert_eq!(spec.groups.len(), 0);
    let value = bitflag::builder::FlagBuilder::new(0).build().unwrap();
    assert_eq!(value, 0);
}
