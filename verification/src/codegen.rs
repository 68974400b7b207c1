//! The builder code generator. Given a validated [`Specification`] with `n`
//! groups it emits, as a flat token stream:
//!
//! 1. the flag-set type, bound to the declared underlying type through
//!    `BitFlag`;
//! 2. one uninhabited marker type per group, used only as a compile-time
//!    label;
//! 3. a builder type with one type-state parameter per group (in declaration
//!    order), an array of `n` optional stored values, and zero-sized phantom
//!    data for the parameters;
//! 4. a zero-argument `builder` entry point with every slot unresolved;
//! 5. for each flag, a `with_<flag>` operation available only while its
//!    group's slot is unresolved, storing the flag's literal value and
//!    advancing only that slot to the resolved state;
//! 6. a `build` completion operation, available only when every slot is
//!    resolved, that sums the stored values.
//!
//! The emitted tokens name the library's `BitFlag`, `ConstrainedFlag`,
//! `ConstrainedFlagBuilder`, `Missing` and `Valid` unqualified: the splice
//! site must have them in scope. [`gen_tokens`] is the authoritative
//! statement of the emission; [`generate`] is proved to return exactly it.

use vstd::prelude::*;

use crate::error::{Error, ErrorV};
use crate::ir::{Group, GroupV, Specification, SpecificationV};
use crate::parser::spec_of_tokens;
use crate::token::{lemma_toks_view_push, toks_view, Delim, OutToken, OutTokenV, Token};

verus! {

/// An identifier token value.
pub open spec fn idv(s: Seq<char>) -> OutTokenV {
    OutTokenV::Ident(s)
}

/// A punctuation token value.
pub open spec fn pv(c: char) -> OutTokenV {
    OutTokenV::Punct(c)
}

/// An opening brace token value.
pub open spec fn obr() -> OutTokenV {
    OutTokenV::Open(Delim::Brace)
}

/// A closing brace token value.
pub open spec fn cbr() -> OutTokenV {
    OutTokenV::Close(Delim::Brace)
}

/// The generated builder type's identifier.
pub open spec fn builder_ident(s: SpecificationV) -> Seq<char> {
    s.name + "Builder"@
}

/// The type-state parameter standing for group `g`'s slot.
pub open spec fn sparam(g: GroupV) -> Seq<char> {
    "S"@ + g.name
}

/// The generated operation name for a (folded) flag name.
pub open spec fn op_ident(flag: Seq<char>) -> Seq<char> {
    "with_"@ + flag
}

/// The tokens of the path `core::marker::PhantomData`.
pub open spec fn path_phantom() -> Seq<OutTokenV> {
    seq![
        idv("core"@),
        pv(':'),
        pv(':'),
        idv("marker"@),
        pv(':'),
        pv(':'),
        idv("PhantomData"@),
    ]
}

/// The tokens of a marker application such as `Missing<G>`.
pub open spec fn marker_app(m: Seq<char>, g: GroupV) -> Seq<OutTokenV> {
    seq![idv(m), pv('<'), idv(g.name), pv('>')]
}

/// The type-state parameter list `S<G0>, S<G1>, ...` with a comma after
/// every entry.
pub open spec fn params_plain(gs: Seq<GroupV>) -> Seq<OutTokenV>
    decreases gs.len(),
{
    if gs.len() == 0 {
        Seq::empty()
    } else {
        params_plain(gs.drop_last()) + seq![idv(sparam(gs.last())), pv(',')]
    }
}

/// The parameter list with entry `k` left out: the generic parameters a
/// group `k` impl still abstracts over.
pub open spec fn params_except(gs: Seq<GroupV>, k: int) -> Seq<OutTokenV>
    decreases gs.len(),
{
    if gs.len() == 0 {
        Seq::empty()
    } else if gs.len() - 1 == k {
        params_except(gs.drop_last(), k)
    } else {
        params_except(gs.drop_last(), k) + seq![idv(sparam(gs.last())), pv(',')]
    }
}

/// The parameter list with entry `k` replaced by `m<Gk>`: the builder type a
/// group `k` impl applies to (or produces).
pub open spec fn params_replace(gs: Seq<GroupV>, k: int, m: Seq<char>) -> Seq<OutTokenV>
    decreases gs.len(),
{
    if gs.len() == 0 {
        Seq::empty()
    } else if gs.len() - 1 == k {
        params_replace(gs.drop_last(), k, m) + marker_app(m, gs.last()) + seq![pv(',')]
    } else {
        params_replace(gs.drop_last(), k, m) + seq![idv(sparam(gs.last())), pv(',')]
    }
}

/// The argument list with every entry the marker `m<Gj>`: all slots
/// unresolved (entry point) or all resolved (completion impl).
pub open spec fn params_all_marker(gs: Seq<GroupV>, m: Seq<char>) -> Seq<OutTokenV>
    decreases gs.len(),
{
    if gs.len() == 0 {
        Seq::empty()
    } else {
        params_all_marker(gs.drop_last(), m) + marker_app(m, gs.last()) + seq![pv(',')]
    }
}

/// The flag-set type and its `BitFlag` binding:
/// `pub struct N; impl BitFlag for N { type Bits = T; }`.
pub open spec fn gen_header(s: SpecificationV) -> Seq<OutTokenV> {
    seq![
        idv("pub"@),
        idv("struct"@),
        idv(s.name),
        pv(';'),
        idv("impl"@),
        idv("BitFlag"@),
        idv("for"@),
        idv(s.name),
        obr(),
        idv("type"@),
        idv("Bits"@),
        pv('='),
        idv(s.underlying_type),
        pv(';'),
        cbr(),
    ]
}

/// One group's marker type: `pub struct G;`.
pub open spec fn marker_struct(g: GroupV) -> Seq<OutTokenV> {
    seq![idv("pub"@), idv("struct"@), idv(g.name), pv(';')]
}

/// The marker types of the first `k` groups.
pub open spec fn gen_markers_upto(gs: Seq<GroupV>, k: int) -> Seq<OutTokenV>
    decreases k,
{
    if k <= 0 {
        Seq::empty()
    } else {
        gen_markers_upto(gs, k - 1) + marker_struct(gs[k - 1])
    }
}

/// The generic builder struct with one type-state slot per group, the
/// storage array, and the phantom record of the slot states.
pub open spec fn gen_builder_struct(s: SpecificationV) -> Seq<OutTokenV> {
    seq![idv("pub"@), idv("struct"@), idv(builder_ident(s)), pv('<')] + params_plain(s.groups)
        + seq![
        pv('>'),
        obr(),
        idv("flags"@),
        pv(':'),
        OutTokenV::Open(Delim::Bracket),
        idv("Option"@),
        pv('<'),
        idv(s.underlying_type),
        pv('>'),
        pv(';'),
        OutTokenV::Literal(s.groups.len() as usize),
        OutTokenV::Close(Delim::Bracket),
        pv(','),
        idv("t"@),
        pv(':'),
    ] + path_phantom() + seq![pv('<'), OutTokenV::Open(Delim::Parenthesis)] + params_plain(s.groups)
        + seq![OutTokenV::Close(Delim::Parenthesis), pv('>'), pv(','), cbr()]
}

/// The zero-argument entry point: every slot unresolved, every storage entry
/// empty.
pub open spec fn gen_entry(s: SpecificationV) -> Seq<OutTokenV> {
    seq![
        idv("impl"@),
        idv("ConstrainedFlag"@),
        pv('<'),
        idv(s.name),
        pv('>'),
        obr(),
        idv("pub"@),
        idv("fn"@),
        idv("builder"@),
        OutTokenV::Open(Delim::Parenthesis),
        OutTokenV::Close(Delim::Parenthesis),
        pv('-'),
        pv('>'),
        idv(builder_ident(s)),
        pv('<'),
    ] + params_all_marker(s.groups, "Missing"@) + seq![
        pv('>'),
        obr(),
        idv(builder_ident(s)),
        obr(),
        idv("flags"@),
        pv(':'),
        OutTokenV::Open(Delim::Bracket),
        idv("None"@),
        pv(';'),
        OutTokenV::Literal(s.groups.len() as usize),
        OutTokenV::Close(Delim::Bracket),
        pv(','),
        idv("t"@),
        pv(':'),
    ] + path_phantom() + seq![pv(','), cbr(), cbr(), cbr()]
}

/// One flag's state-transition operation: available only while slot `k` is
/// unresolved, it stores the flag's literal value in storage entry `k` and
/// returns the builder with slot `k` resolved and every other slot
/// untouched.
pub open spec fn gen_method(s: SpecificationV, k: int, f: (Seq<char>, Seq<char>)) -> Seq<
    OutTokenV,
> {
    seq![
        idv("pub"@),
        idv("fn"@),
        idv(op_ident(f.0)),
        OutTokenV::Open(Delim::Parenthesis),
        idv("mut"@),
        idv("self"@),
        OutTokenV::Close(Delim::Parenthesis),
        pv('-'),
        pv('>'),
        idv(builder_ident(s)),
        pv('<'),
    ] + params_replace(s.groups, k, "Valid"@) + seq![
        pv('>'),
        obr(),
        idv("self"@),
        pv('.'),
        idv("flags"@),
        OutTokenV::Open(Delim::Bracket),
        OutTokenV::Literal(k as usize),
        OutTokenV::Close(Delim::Bracket),
        pv('='),
        idv("Some"@),
        OutTokenV::Open(Delim::Parenthesis),
        idv(f.1),
        OutTokenV::Close(Delim::Parenthesis),
        pv(';'),
        idv(builder_ident(s)),
        obr(),
        idv("flags"@),
        pv(':'),
        idv("self"@),
        pv('.'),
        idv("flags"@),
        pv(','),
        idv("t"@),
        pv(':'),
    ] + path_phantom() + seq![pv(','), cbr(), cbr()]
}

/// The operations of group `k`'s first `j` flags.
pub open spec fn gen_methods_upto(s: SpecificationV, k: int, j: int) -> Seq<OutTokenV>
    decreases j,
{
    if j <= 0 {
        Seq::empty()
    } else {
        gen_methods_upto(s, k, j - 1) + gen_method(s, k, s.groups[k].flags[j - 1])
    }
}

/// Group `k`'s impl block: its operations exist only for builders whose slot
/// `k` is unresolved, with every other slot an independent parameter.
pub open spec fn gen_with_impl(s: SpecificationV, k: int) -> Seq<OutTokenV> {
    seq![idv("impl"@), pv('<')] + params_except(s.groups, k) + seq![
        pv('>'),
        idv(builder_ident(s)),
        pv('<'),
    ] + params_replace(s.groups, k, "Missing"@) + seq![pv('>'), obr()] + gen_methods_upto(
        s,
        k,
        s.groups[k].flags.len() as int,
    ) + seq![cbr()]
}

/// The impl blocks of the first `k` groups.
pub open spec fn gen_with_impls_upto(s: SpecificationV, k: int) -> Seq<OutTokenV>
    decreases k,
{
    if k <= 0 {
        Seq::empty()
    } else {
        gen_with_impls_upto(s, k - 1) + gen_with_impl(s, k - 1)
    }
}

/// The completion method's signature tokens: `fn build(self) -> ...`.
pub open spec fn gen_build_sig(s: SpecificationV) -> Seq<OutTokenV> {
    seq![
        pv('>'),
        obr(),
        idv("fn"@),
        idv("build"@),
        OutTokenV::Open(Delim::Parenthesis),
        idv("self"@),
        OutTokenV::Close(Delim::Parenthesis),
        pv('-'),
        pv('>'),
        idv("ConstrainedFlag"@),
        pv('<'),
        idv(s.name),
        pv('>'),
        obr(),
    ]
}

/// The completion method's body tokens: the wrapped sum of the stored
/// values.
pub open spec fn gen_build_body(s: SpecificationV) -> Seq<OutTokenV> {
    seq![
        idv("ConstrainedFlag"@),
        pv(':'),
        pv(':'),
        pv('<'),
        idv(s.name),
        pv('>'),
        OutTokenV::Open(Delim::Parenthesis),
        idv("self"@),
        pv('.'),
        idv("flags"@),
        pv('.'),
        idv("iter"@),
        OutTokenV::Open(Delim::Parenthesis),
        OutTokenV::Close(Delim::Parenthesis),
        pv('.'),
        idv("flatten"@),
        OutTokenV::Open(Delim::Parenthesis),
        OutTokenV::Close(Delim::Parenthesis),
        pv('.'),
        idv("sum"@),
        pv(':'),
        pv(':'),
        pv('<'),
        idv(s.underlying_type),
        pv('>'),
        OutTokenV::Open(Delim::Parenthesis),
        OutTokenV::Close(Delim::Parenthesis),
        OutTokenV::Close(Delim::Parenthesis),
        cbr(),
        cbr(),
    ]
}

/// The completion impl: only the all-resolved builder implements
/// `ConstrainedFlagBuilder`, and `build` sums the stored values.
pub open spec fn gen_build_impl(s: SpecificationV) -> Seq<OutTokenV> {
    seq![
        idv("impl"@),
        idv("ConstrainedFlagBuilder"@),
        pv('<'),
        idv(s.name),
        pv('>'),
        idv("for"@),
        idv(builder_ident(s)),
        pv('<'),
    ] + params_all_marker(s.groups, "Valid"@) + gen_build_sig(s) + gen_build_body(s)
}

/// Everything the generator emits for a specification, in order.
pub open spec fn gen_tokens(s: SpecificationV) -> Seq<OutTokenV> {
    gen_header(s) + gen_markers_upto(s.groups, s.groups.len() as int) + gen_builder_struct(s)
        + gen_entry(s) + gen_with_impls_upto(s, s.groups.len() as int) + gen_build_impl(s)
}

fn push_kw(out: &mut Vec<OutToken>, s: &str)
    ensures
        toks_view(final(out)@) == toks_view(old(out)@).push(OutTokenV::Ident(s@)),
{
    let t = OutToken::Ident(String::from_str(s));
    let ghost prev = out@;
    out.push(t);
    proof {
        lemma_toks_view_push(prev, out@.last());
    }
}

fn push_name(out: &mut Vec<OutToken>, s: String)
    ensures
        toks_view(final(out)@) == toks_view(old(out)@).push(OutTokenV::Ident(s@)),
{
    let t = OutToken::Ident(s);
    let ghost prev = out@;
    out.push(t);
    proof {
        lemma_toks_view_push(prev, out@.last());
    }
}

fn push_punct(out: &mut Vec<OutToken>, c: char)
    ensures
        toks_view(final(out)@) == toks_view(old(out)@).push(OutTokenV::Punct(c)),
{
    let ghost prev = out@;
    out.push(OutToken::Punct(c));
    proof {
        lemma_toks_view_push(prev, out@.last());
    }
}

fn push_open(out: &mut Vec<OutToken>, d: Delim)
    ensures
        toks_view(final(out)@) == toks_view(old(out)@).push(OutTokenV::Open(d)),
{
    let ghost prev = out@;
    out.push(OutToken::Open(d));
    proof {
        lemma_toks_view_push(prev, out@.last());
    }
}

fn push_close(out: &mut Vec<OutToken>, d: Delim)
    ensures
        toks_view(final(out)@) == toks_view(old(out)@).push(OutTokenV::Close(d)),
{
    let ghost prev = out@;
    out.push(OutToken::Close(d));
    proof {
        lemma_toks_view_push(prev, out@.last());
    }
}

fn push_lit(out: &mut Vec<OutToken>, n: usize)
    ensures
        toks_view(final(out)@) == toks_view(old(out)@).push(OutTokenV::Literal(n)),
{
    let ghost prev = out@;
    out.push(OutToken::Literal(n));
    proof {
        lemma_toks_view_push(prev, out@.last());
    }
}

/// The parameter name `S<group>` of one group.
fn sparam_of(g: &Group) -> (r: String)
    ensures
        r@ == sparam(g@),
{
    String::from_str("S").concat(g.name.as_str())
}

fn emit_path_phantom(out: &mut Vec<OutToken>)
    ensures
        toks_view(final(out)@) == toks_view(old(out)@) + path_phantom(),
{
    push_kw(out, "core");
    push_punct(out, ':');
    push_punct(out, ':');
    push_kw(out, "marker");
    push_punct(out, ':');
    push_punct(out, ':');
    push_kw(out, "PhantomData");
    assert(toks_view(out@) =~= toks_view(old(out)@) + path_phantom());
}

/// Emits `m<G>` for one group's marker.
fn emit_marker_app(out: &mut Vec<OutToken>, m: &str, g: &Group)
    ensures
        toks_view(final(out)@) == toks_view(old(out)@) + marker_app(m@, g@),
{
    push_kw(out, m);
    push_punct(out, '<');
    push_name(out, g.name.clone());
    push_punct(out, '>');
    assert(toks_view(out@) =~= toks_view(old(out)@) + marker_app(m@, g@));
}

fn emit_params_plain(out: &mut Vec<OutToken>, groups: &Vec<Group>)
    ensures
        toks_view(final(out)@) == toks_view(old(out)@) + params_plain(crate::ir::groups_view(groups@)),
{
    let ghost gv = crate::ir::groups_view(groups@);
    let mut k: usize = 0;
    assert(toks_view(out@) =~= toks_view(old(out)@) + params_plain(gv.take(0)));
    while k < groups.len()
        invariant
            k <= groups@.len(),
            gv == crate::ir::groups_view(groups@),
            toks_view(out@) == toks_view(old(out)@) + params_plain(gv.take(k as int)),
        decreases groups@.len() - k,
    {
        push_name(out, sparam_of(&groups[k]));
        push_punct(out, ',');
        proof {
            assert(gv.take(k + 1).drop_last() =~= gv.take(k as int));
            assert(toks_view(out@) =~= toks_view(old(out)@) + params_plain(gv.take(k + 1)));
        }
        k += 1;
    }
    proof {
        assert(gv.take(groups@.len() as int) =~= gv);
    }
}

fn emit_params_all_marker(out: &mut Vec<OutToken>, groups: &Vec<Group>, m: &str)
    ensures
        toks_view(final(out)@) == toks_view(old(out)@) + params_all_marker(
            crate::ir::groups_view(groups@),
            m@,
        ),
{
    let ghost gv = crate::ir::groups_view(groups@);
    let mut k: usize = 0;
    assert(toks_view(out@) =~= toks_view(old(out)@) + params_all_marker(gv.take(0), m@));
    while k < groups.len()
        invariant
            k <= groups@.len(),
            gv == crate::ir::groups_view(groups@),
            toks_view(out@) == toks_view(old(out)@) + params_all_marker(gv.take(k as int), m@),
        decreases groups@.len() - k,
    {
        emit_marker_app(out, m, &groups[k]);
        push_punct(out, ',');
        proof {
            assert(gv.take(k + 1).drop_last() =~= gv.take(k as int));
            assert(toks_view(out@) =~= toks_view(old(out)@) + params_all_marker(
                gv.take(k + 1),
                m@,
            ));
        }
        k += 1;
    }
    proof {
        assert(gv.take(groups@.len() as int) =~= gv);
    }
}

fn emit_params_except(out: &mut Vec<OutToken>, groups: &Vec<Group>, x: usize)
    ensures
        toks_view(final(out)@) == toks_view(old(out)@) + params_except(
            crate::ir::groups_view(groups@),
            x as int,
        ),
{
    let ghost gv = crate::ir::groups_view(groups@);
    let mut k: usize = 0;
    assert(toks_view(out@) =~= toks_view(old(out)@) + params_except(gv.take(0), x as int));
    while k < groups.len()
        invariant
            k <= groups@.len(),
            gv == crate::ir::groups_view(groups@),
            toks_view(out@) == toks_view(old(out)@) + params_except(gv.take(k as int), x as int),
        decreases groups@.len() - k,
    {
        if k != x {
            push_name(out, sparam_of(&groups[k]));
            push_punct(out, ',');
        }
        proof {
            assert(gv.take(k + 1).drop_last() =~= gv.take(k as int));
            assert(toks_view(out@) =~= toks_view(old(out)@) + params_except(
                gv.take(k + 1),
                x as int,
            ));
        }
        k += 1;
    }
    proof {
        assert(gv.take(groups@.len() as int) =~= gv);
    }
}

fn emit_params_replace(out: &mut Vec<OutToken>, groups: &Vec<Group>, x: usize, m: &str)
    ensures
        toks_view(final(out)@) == toks_view(old(out)@) + params_replace(
            crate::ir::groups_view(groups@),
            x as int,
            m@,
        ),
{
    let ghost gv = crate::ir::groups_view(groups@);
    let mut k: usize = 0;
    assert(toks_view(out@) =~= toks_view(old(out)@) + params_replace(gv.take(0), x as int, m@));
    while k < groups.len()
        invariant
            k <= groups@.len(),
            gv == crate::ir::groups_view(groups@),
            toks_view(out@) == toks_view(old(out)@) + params_replace(
                gv.take(k as int),
                x as int,
                m@,
            ),
        decreases groups@.len() - k,
    {
        if k == x {
            emit_marker_app(out, m, &groups[k]);
            push_punct(out, ',');
        } else {
            push_name(out, sparam_of(&groups[k]));
            push_punct(out, ',');
        }
        proof {
            assert(gv.take(k + 1).drop_last() =~= gv.take(k as int));
            assert(toks_view(out@) =~= toks_view(old(out)@) + params_replace(
                gv.take(k + 1),
                x as int,
                m@,
            ));
        }
        k += 1;
    }
    proof {
        assert(gv.take(groups@.len() as int) =~= gv);
    }
}

#[verifier::rlimit(100)]
fn emit_header(out: &mut Vec<OutToken>, s: &Specification)
    ensures
        toks_view(final(out)@) == toks_view(old(out)@) + gen_header(s@),
{
    push_kw(out, "pub");
    push_kw(out, "struct");
    push_name(out, s.name.clone());
    push_punct(out, ';');
    push_kw(out, "impl");
    push_kw(out, "BitFlag");
    push_kw(out, "for");
    push_name(out, s.name.clone());
    push_open(out, Delim::Brace);
    push_kw(out, "type");
    push_kw(out, "Bits");
    push_punct(out, '=');
    push_name(out, s.underlying_type.clone());
    push_punct(out, ';');
    push_close(out, Delim::Brace);
    assert(toks_view(out@) =~= toks_view(old(out)@) + gen_header(s@));
}

fn emit_markers(out: &mut Vec<OutToken>, s: &Specification)
    ensures
        toks_view(final(out)@) == toks_view(old(out)@) + gen_markers_upto(
            s@.groups,
            s@.groups.len() as int,
        ),
{
    let mut k: usize = 0;
    while k < s.groups.len()
        invariant
            k <= s.groups@.len(),
            toks_view(out@) == toks_view(old(out)@) + gen_markers_upto(s@.groups, k as int),
        decreases s.groups@.len() - k,
    {
        let ghost before = toks_view(out@);
        push_kw(out, "pub");
        push_kw(out, "struct");
        push_name(out, s.groups[k].name.clone());
        push_punct(out, ';');
        proof {
            assert(toks_view(out@) =~= before + marker_struct(s@.groups[k as int]));
        }
        k += 1;
    }
}

#[verifier::rlimit(100)]
fn emit_builder_struct(out: &mut Vec<OutToken>, s: &Specification)
    ensures
        toks_view(final(out)@) == toks_view(old(out)@) + gen_builder_struct(s@),
{
    let n = s.groups.len();
    push_kw(out, "pub");
    push_kw(out, "struct");
    push_name(out, s.name.clone().concat("Builder"));
    push_punct(out, '<');
    emit_params_plain(out, &s.groups);
    push_punct(out, '>');
    push_open(out, Delim::Brace);
    push_kw(out, "flags");
    push_punct(out, ':');
    push_open(out, Delim::Bracket);
    push_kw(out, "Option");
    push_punct(out, '<');
    push_name(out, s.underlying_type.clone());
    push_punct(out, '>');
    push_punct(out, ';');
    push_lit(out, n);
    push_close(out, Delim::Bracket);
    push_punct(out, ',');
    push_kw(out, "t");
    push_punct(out, ':');
    emit_path_phantom(out);
    push_punct(out, '<');
    push_open(out, Delim::Parenthesis);
    emit_params_plain(out, &s.groups);
    push_close(out, Delim::Parenthesis);
    push_punct(out, '>');
    push_punct(out, ',');
    push_close(out, Delim::Brace);
    assert(toks_view(out@) =~= toks_view(old(out)@) + gen_builder_struct(s@));
}

#[verifier::rlimit(100)]
fn emit_entry(out: &mut Vec<OutToken>, s: &Specification)
    ensures
        toks_view(final(out)@) == toks_view(old(out)@) + gen_entry(s@),
{
    let n = s.groups.len();
    push_kw(out, "impl");
    push_kw(out, "ConstrainedFlag");
    push_punct(out, '<');
    push_name(out, s.name.clone());
    push_punct(out, '>');
    push_open(out, Delim::Brace);
    push_kw(out, "pub");
    push_kw(out, "fn");
    push_kw(out, "builder");
    push_open(out, Delim::Parenthesis);
    push_close(out, Delim::Parenthesis);
    push_punct(out, '-');
    push_punct(out, '>');
    push_name(out, s.name.clone().concat("Builder"));
    push_punct(out, '<');
    emit_params_all_marker(out, &s.groups, "Missing");
    push_punct(out, '>');
    push_open(out, Delim::Brace);
    push_name(out, s.name.clone().concat("Builder"));
    push_open(out, Delim::Brace);
    push_kw(out, "flags");
    push_punct(out, ':');
    push_open(out, Delim::Bracket);
    push_kw(out, "None");
    push_punct(out, ';');
    push_lit(out, n);
    push_close(out, Delim::Bracket);
    push_punct(out, ',');
    push_kw(out, "t");
    push_punct(out, ':');
    emit_path_phantom(out);
    push_punct(out, ',');
    push_close(out, Delim::Brace);
    push_close(out, Delim::Brace);
    push_close(out, Delim::Brace);
    assert(toks_view(out@) =~= toks_view(old(out)@) + gen_entry(s@));
}

#[verifier::rlimit(100)]
fn emit_method(out: &mut Vec<OutToken>, s: &Specification, k: usize, name: &String, value: &String)
    requires
        k < s@.groups.len(),
    ensures
        toks_view(final(out)@) == toks_view(old(out)@) + gen_method(s@, k as int, (name@, value@)),
{
    push_kw(out, "pub");
    push_kw(out, "fn");
    push_name(out, String::from_str("with_").concat(name.as_str()));
    push_open(out, Delim::Parenthesis);
    push_kw(out, "mut");
    push_kw(out, "self");
    push_close(out, Delim::Parenthesis);
    push_punct(out, '-');
    push_punct(out, '>');
    push_name(out, s.name.clone().concat("Builder"));
    push_punct(out, '<');
    emit_params_replace(out, &s.groups, k, "Valid");
    push_punct(out, '>');
    push_open(out, Delim::Brace);
    push_kw(out, "self");
    push_punct(out, '.');
    push_kw(out, "flags");
    push_open(out, Delim::Bracket);
    push_lit(out, k);
    push_close(out, Delim::Bracket);
    push_punct(out, '=');
    push_kw(out, "Some");
    push_open(out, Delim::Parenthesis);
    push_name(out, value.clone());
    push_close(out, Delim::Parenthesis);
    push_punct(out, ';');
    push_name(out, s.name.clone().concat("Builder"));
    push_open(out, Delim::Brace);
    push_kw(out, "flags");
    push_punct(out, ':');
    push_kw(out, "self");
    push_punct(out, '.');
    push_kw(out, "flags");
    push_punct(out, ',');
    push_kw(out, "t");
    push_punct(out, ':');
    emit_path_phantom(out);
    push_punct(out, ',');
    push_close(out, Delim::Brace);
    push_close(out, Delim::Brace);
    assert(toks_view(out@) =~= toks_view(old(out)@) + gen_method(s@, k as int, (name@, value@)));
}

#[verifier::rlimit(100)]
fn emit_with_impl(out: &mut Vec<OutToken>, s: &Specification, k: usize)
    requires
        k < s@.groups.len(),
    ensures
        toks_view(final(out)@) == toks_view(old(out)@) + gen_with_impl(s@, k as int),
{
    push_kw(out, "impl");
    push_punct(out, '<');
    emit_params_except(out, &s.groups, k);
    push_punct(out, '>');
    push_name(out, s.name.clone().concat("Builder"));
    push_punct(out, '<');
    emit_params_replace(out, &s.groups, k, "Missing");
    push_punct(out, '>');
    push_open(out, Delim::Brace);
    let ghost mid = toks_view(out@);
    let mut j: usize = 0;
    while j < s.groups[k].flags.len()
        invariant
            k < s@.groups.len(),
            j <= s.groups@[k as int].flags@.len(),
            mid == toks_view(out@).take(mid.len() as int),
            toks_view(out@) == mid + gen_methods_upto(s@, k as int, j as int),
        decreases s.groups@[k as int].flags@.len() - j,
    {
        let name = s.groups[k].flags[j].0.clone();
        let value = s.groups[k].flags[j].1.clone();
        assert(s@.groups[k as int].flags[j as int] == (name@, value@));
        emit_method(out, s, k, &name, &value);
        proof {
            assert(toks_view(out@) =~= mid + gen_methods_upto(s@, k as int, j + 1));
            assert(mid =~= toks_view(out@).take(mid.len() as int));
        }
        j += 1;
    }
    push_close(out, Delim::Brace);
    assert(toks_view(out@) =~= toks_view(old(out)@) + gen_with_impl(s@, k as int));
}

fn emit_with_impls(out: &mut Vec<OutToken>, s: &Specification)
    ensures
        toks_view(final(out)@) == toks_view(old(out)@) + gen_with_impls_upto(s@, s@.groups.len() as int),
{
    let mut k: usize = 0;
    while k < s.groups.len()
        invariant
            k <= s.groups@.len(),
            toks_view(out@) == toks_view(old(out)@) + gen_with_impls_upto(s@, k as int),
        decreases s.groups@.len() - k,
    {
        emit_with_impl(out, s, k);
        k += 1;
    }
}

#[verifier::rlimit(100)]
fn emit_build_impl(out: &mut Vec<OutToken>, s: &Specification)
    ensures
        toks_view(final(out)@) == toks_view(old(out)@) + gen_build_impl(s@),
{
    push_kw(out, "impl");
    push_kw(out, "ConstrainedFlagBuilder");
    push_punct(out, '<');
    push_name(out, s.name.clone());
    push_punct(out, '>');
    push_kw(out, "for");
    push_name(out, s.name.clone().concat("Builder"));
    push_punct(out, '<');
    emit_params_all_marker(out, &s.groups, "Valid");
    let ghost c1 = toks_view(out@);
    push_punct(out, '>');
    push_open(out, Delim::Brace);
    push_kw(out, "fn");
    push_kw(out, "build");
    push_open(out, Delim::Parenthesis);
    push_kw(out, "self");
    push_close(out, Delim::Parenthesis);
    push_punct(out, '-');
    push_punct(out, '>');
    push_kw(out, "ConstrainedFlag");
    push_punct(out, '<');
    push_name(out, s.name.clone());
    push_punct(out, '>');
    push_open(out, Delim::Brace);
    proof {
        assert(toks_view(out@) =~= c1 + gen_build_sig(s@));
    }
    let ghost c2 = toks_view(out@);
    push_kw(out, "ConstrainedFlag");
    push_punct(out, ':');
    push_punct(out, ':');
    push_punct(out, '<');
    push_name(out, s.name.clone());
    push_punct(out, '>');
    push_open(out, Delim::Parenthesis);
    push_kw(out, "self");
    push_punct(out, '.');
    push_kw(out, "flags");
    push_punct(out, '.');
    push_kw(out, "iter");
    push_open(out, Delim::Parenthesis);
    push_close(out, Delim::Parenthesis);
    push_punct(out, '.');
    push_kw(out, "flatten");
    push_open(out, Delim::Parenthesis);
    push_close(out, Delim::Parenthesis);
    push_punct(out, '.');
    push_kw(out, "sum");
    push_punct(out, ':');
    push_punct(out, ':');
    push_punct(out, '<');
    push_name(out, s.underlying_type.clone());
    push_punct(out, '>');
    push_open(out, Delim::Parenthesis);
    push_close(out, Delim::Parenthesis);
    push_close(out, Delim::Parenthesis);
    push_close(out, Delim::Brace);
    push_close(out, Delim::Brace);
    proof {
        assert(toks_view(out@) =~= c2 + gen_build_body(s@));
        assert(c1 =~= toks_view(old(out)@) + seq![
            idv("impl"@),
            idv("ConstrainedFlagBuilder"@),
            pv('<'),
            idv(s@.name),
            pv('>'),
            idv("for"@),
            idv(builder_ident(s@)),
            pv('<'),
        ] + params_all_marker(s@.groups, "Valid"@));
        assert(toks_view(out@) =~= toks_view(old(out)@) + gen_build_impl(s@));
    }
}

/// Emits the complete builder API for a validated specification.
pub fn generate(s: &Specification) -> (r: Vec<OutToken>)
    ensures
        toks_view(r@) == gen_tokens(s@),
{
    let mut out: Vec<OutToken> = Vec::new();
    assert(toks_view(out@) =~= Seq::<OutTokenV>::empty());
    emit_header(&mut out, s);
    emit_markers(&mut out, s);
    emit_builder_struct(&mut out, s);
    emit_entry(&mut out, s);
    emit_with_impls(&mut out, s);
    emit_build_impl(&mut out, s);
    assert(toks_view(out@) =~= gen_tokens(s@));
    out
}

/// The whole pipeline of one invocation: parse the body, validate the
/// groups, and emit the builder API -- or report the first violation.
pub fn bitflag_and_builder(ts: &Vec<Token>) -> (r: Result<Vec<OutToken>, Error>)
    ensures
        match r {
            Ok(out) => spec_of_tokens(ts@) is Ok && toks_view(out@) == gen_tokens(
                spec_of_tokens(ts@)->Ok_0,
            ),
            Err(e) => spec_of_tokens(ts@) == Err::<SpecificationV, ErrorV>(e@),
        },
{
    match Specification::parse(ts) {
        Ok(s) => Ok(generate(&s)),
        Err(e) => Err(e),
    }
}

} // verus!
