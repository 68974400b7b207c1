//! Group validation: given the raw `(group name, [(flag name, literal)])`
//! entries the parser produced, reject duplicate group names, case-fold every
//! flag name to ASCII lowercase, reject non-ASCII flag names, and reject two
//! flags of one group whose folded names coincide. Order of groups and of
//! flags within a group is preserved.

use vstd::prelude::*;
use vstd::utf8::is_ascii_chars;

use crate::error::{Error, ErrorV};
use crate::ir::{flags_view, group_wf, groups_view, Group, GroupV};

verus! {

/// The ASCII lowercase fold of one character: `A`..=`Z` map to `a`..=`z`,
/// every other character is unchanged.
pub open spec fn lower_char(c: char) -> char {
    if 'A' <= c && c <= 'Z' {
        ((c as u32) + 32) as char
    } else {
        c
    }
}

/// The ASCII lowercase fold of a character sequence.
pub open spec fn lower_ascii(s: Seq<char>) -> Seq<char> {
    s.map_values(|c: char| lower_char(c))
}

/// Case-folding is idempotent: folding a second time changes nothing.
pub proof fn lemma_lower_ascii_idempotent(s: Seq<char>)
    ensures
        lower_ascii(lower_ascii(s)) == lower_ascii(s),
{
    assert forall|i: int| 0 <= i < s.len() implies lower_char(lower_char(s[i])) == lower_char(
        s[i],
    ) by {
        if 'A' <= s[i] && s[i] <= 'Z' {
            assert((s[i] as u32) + 32 <= 122);
        }
    }
    assert(lower_ascii(lower_ascii(s)) =~= lower_ascii(s));
}

/// A character whose case-fold is ASCII is itself ASCII.
proof fn lemma_lower_char_ascii(c: char)
    ensures
        ('\0' <= lower_char(c) <= '\u{7f}') == ('\0' <= c <= '\u{7f}'),
{
    if 'A' <= c && c <= 'Z' {
        assert((c as u32) + 32 <= 122);
    }
}

/// Whether some already-validated flag entry carries the name `n`.
pub open spec fn has_flag_name(acc: Seq<(Seq<char>, Seq<char>)>, n: Seq<char>) -> bool {
    exists|j: int| 0 <= j < acc.len() && (#[trigger] acc[j].0) == n
}

/// Whether some already-validated group carries the name `n`.
pub open spec fn has_group_name(acc: Seq<GroupV>, n: Seq<char>) -> bool {
    exists|j: int| 0 <= j < acc.len() && (#[trigger] acc[j].name) == n
}

/// Validation of one group's flag list, from entry `i` on, with the entries
/// validated so far in `acc`: the first offending entry decides the error.
pub open spec fn validate_flags_from(
    gname: Seq<char>,
    fs: Seq<(Seq<char>, Seq<char>)>,
    i: int,
    acc: Seq<(Seq<char>, Seq<char>)>,
) -> Result<Seq<(Seq<char>, Seq<char>)>, ErrorV>
    decreases fs.len() - i,
{
    if i >= fs.len() {
        Ok(acc)
    } else if !is_ascii_chars(fs[i].0) {
        Err(ErrorV::NonAsciiFlagName(fs[i].0))
    } else if has_flag_name(acc, lower_ascii(fs[i].0)) {
        Err(ErrorV::DuplicateFlagNameInGroup(gname, lower_ascii(fs[i].0)))
    } else {
        validate_flags_from(gname, fs, i + 1, acc.push((lower_ascii(fs[i].0), fs[i].1)))
    }
}

/// The values of the raw group entries the parser hands over.
pub open spec fn raw_groups_view(s: Seq<(String, Vec<(String, String)>)>) -> Seq<
    (Seq<char>, Seq<(Seq<char>, Seq<char>)>),
> {
    Seq::new(s.len(), |i: int| (s[i].0@, flags_view(s[i].1@)))
}

/// Validation of the group list, from entry `i` on, with the groups
/// validated so far in `acc`.
pub open spec fn validate_groups_from(
    raw: Seq<(Seq<char>, Seq<(Seq<char>, Seq<char>)>)>,
    i: int,
    acc: Seq<GroupV>,
) -> Result<Seq<GroupV>, ErrorV>
    decreases raw.len() - i,
{
    if i >= raw.len() {
        Ok(acc)
    } else if has_group_name(acc, raw[i].0) {
        Err(ErrorV::DuplicateGroupName(raw[i].0))
    } else {
        match validate_flags_from(raw[i].0, raw[i].1, 0, Seq::empty()) {
            Ok(fl) => validate_groups_from(raw, i + 1, acc.push(GroupV { name: raw[i].0, flags: fl })),
            Err(e) => Err(e),
        }
    }
}

/// What validation returns on the raw group entries: the validated, ordered
/// groups, or the first violation.
pub open spec fn validate_groups_spec(raw: Seq<(Seq<char>, Seq<(Seq<char>, Seq<char>)>)>) -> Result<
    Seq<GroupV>,
    ErrorV,
> {
    validate_groups_from(raw, 0, Seq::empty())
}

/// Relies on `str::to_ascii_lowercase`: ASCII uppercase letters are mapped
/// to their lowercase equivalent, all other characters are unchanged.
#[verifier::external_body]
fn ascii_lowercase(s: &String) -> (r: String)
    ensures
        r@ == lower_ascii(s@),
{
    s.to_ascii_lowercase()
}

/// String equality by characters.
fn string_eq(a: &String, b: &String) -> (r: bool)
    ensures
        r == (a@ == b@),
{
    a.eq(b)
}

/// Whether `acc` already holds a flag named `n`.
fn contains_flag(acc: &Vec<(String, String)>, n: &String) -> (r: bool)
    ensures
        r == has_flag_name(flags_view(acc@), n@),
{
    let mut k: usize = 0;
    while k < acc.len()
        invariant
            k <= acc@.len(),
            forall|j: int| 0 <= j < k ==> (#[trigger] flags_view(acc@)[j].0) != n@,
        decreases acc@.len() - k,
    {
        if string_eq(&acc[k].0, n) {
            assert(flags_view(acc@)[k as int].0 == n@);
            return true;
        }
        k += 1;
    }
    false
}

/// Whether `acc` already holds a group named `n`.
fn contains_group(acc: &Vec<Group>, n: &String) -> (r: bool)
    ensures
        r == has_group_name(groups_view(acc@), n@),
{
    let mut k: usize = 0;
    while k < acc.len()
        invariant
            k <= acc@.len(),
            forall|j: int| 0 <= j < k ==> (#[trigger] groups_view(acc@)[j].name) != n@,
        decreases acc@.len() - k,
    {
        if string_eq(&acc[k].name, n) {
            assert(groups_view(acc@)[k as int].name == n@);
            return true;
        }
        k += 1;
    }
    false
}

/// Validates one group's raw flag list: folds names, rejects non-ASCII names
/// and duplicates under folding.
fn validate_flags(gname: &String, fs: &Vec<(String, String)>) -> (r: Result<
    Vec<(String, String)>,
    Error,
>)
    ensures
        match r {
            Ok(out) => validate_flags_from(gname@, flags_view(fs@), 0, Seq::empty()) == Ok::<
                _,
                ErrorV,
            >(flags_view(out@)),
            Err(e) => validate_flags_from(gname@, flags_view(fs@), 0, Seq::empty()) == Err::<
                Seq<(Seq<char>, Seq<char>)>,
                _,
            >(e@),
        },
{
    let ghost fsv = flags_view(fs@);
    let mut acc: Vec<(String, String)> = Vec::new();
    let mut i: usize = 0;
    assert(flags_view(acc@) =~= Seq::<(Seq<char>, Seq<char>)>::empty());
    while i < fs.len()
        invariant
            i <= fs@.len(),
            fsv == flags_view(fs@),
            validate_flags_from(gname@, fsv, 0, Seq::empty()) == validate_flags_from(
                gname@,
                fsv,
                i as int,
                flags_view(acc@),
            ),
        decreases fs@.len() - i,
    {
        let name = &fs[i].0;
        if !name.as_str().is_ascii() {
            return Err(Error::NonAsciiFlagName(name.clone()));
        }
        let low = ascii_lowercase(name);
        if contains_flag(&acc, &low) {
            return Err(Error::DuplicateFlagNameInGroup(gname.clone(), low));
        }
        let value = fs[i].1.clone();
        let ghost acc0 = flags_view(acc@);
        acc.push((low, value));
        proof {
            assert(flags_view(acc@) =~= acc0.push((lower_ascii(fsv[i as int].0), fsv[i as int].1)));
        }
        i += 1;
    }
    Ok(acc)
}

/// Validates the raw group entries: rejects duplicate group names and applies
/// flag validation to each group, in order.
pub fn validate_groups(raw: &Vec<(String, Vec<(String, String)>)>) -> (r: Result<Vec<Group>, Error>)
    ensures
        match r {
            Ok(gs) => validate_groups_spec(raw_groups_view(raw@)) == Ok::<_, ErrorV>(
                groups_view(gs@),
            ),
            Err(e) => validate_groups_spec(raw_groups_view(raw@)) == Err::<Seq<GroupV>, _>(e@),
        },
{
    let ghost rawv = raw_groups_view(raw@);
    let mut acc: Vec<Group> = Vec::new();
    let mut i: usize = 0;
    assert(groups_view(acc@) =~= Seq::<GroupV>::empty());
    while i < raw.len()
        invariant
            i <= raw@.len(),
            rawv == raw_groups_view(raw@),
            validate_groups_from(rawv, 0, Seq::empty()) == validate_groups_from(
                rawv,
                i as int,
                groups_view(acc@),
            ),
        decreases raw@.len() - i,
    {
        let gname = &raw[i].0;
        if contains_group(&acc, gname) {
            return Err(Error::DuplicateGroupName(gname.clone()));
        }
        match validate_flags(gname, &raw[i].1) {
            Ok(fl) => {
                let ghost acc0 = groups_view(acc@);
                let g = Group { name: gname.clone(), flags: fl };
                let ghost gv = g@;
                acc.push(g);
                proof {
                    assert(groups_view(acc@) =~= acc0.push(gv));
                }
            },
            Err(e) => {
                return Err(e);
            },
        }
        i += 1;
    }
    Ok(acc)
}

/// Every group that validation accepts is well-formed: its flag names are
/// ASCII, case-folded, and pairwise distinct, given that the accumulator's
/// are.
proof fn lemma_validate_flags_wf(
    gname: Seq<char>,
    fs: Seq<(Seq<char>, Seq<char>)>,
    i: int,
    acc: Seq<(Seq<char>, Seq<char>)>,
)
    requires
        forall|k: int| 0 <= k < acc.len() ==> crate::ir::flag_name_wf(#[trigger] acc[k].0),
        forall|k: int, l: int| 0 <= k < l < acc.len() ==> (#[trigger] acc[k].0) != (#[trigger] acc[l].0),
        validate_flags_from(gname, fs, i, acc) is Ok,
    ensures
        forall|k: int|
            0 <= k < validate_flags_from(gname, fs, i, acc)->Ok_0.len() ==> crate::ir::flag_name_wf(
                #[trigger] validate_flags_from(gname, fs, i, acc)->Ok_0[k].0,
            ),
        forall|k: int, l: int|
            0 <= k < l < validate_flags_from(gname, fs, i, acc)->Ok_0.len() ==> (
            #[trigger] validate_flags_from(gname, fs, i, acc)->Ok_0[k].0) != (
            #[trigger] validate_flags_from(gname, fs, i, acc)->Ok_0[l].0),
    decreases fs.len() - i,
{
    if i < fs.len() && is_ascii_chars(fs[i].0) && !has_flag_name(acc, lower_ascii(fs[i].0)) {
        let low = lower_ascii(fs[i].0);
        assert forall|k: int| 0 <= k < low.len() implies '\0' <= #[trigger] low[k] <= '\u{7f}' by {
            assert('\0' <= fs[i].0[k] <= '\u{7f}');
        }
        lemma_lower_ascii_idempotent(fs[i].0);
        lemma_validate_flags_wf(gname, fs, i + 1, acc.push((low, fs[i].1)));
    }
}

/// Every group list that validation accepts is well-formed: each group is
/// well-formed and group names are pairwise distinct, given that the
/// accumulator's are.
proof fn lemma_validate_groups_wf(
    raw: Seq<(Seq<char>, Seq<(Seq<char>, Seq<char>)>)>,
    i: int,
    acc: Seq<GroupV>,
)
    requires
        forall|k: int| 0 <= k < acc.len() ==> group_wf(#[trigger] acc[k]),
        forall|k: int, l: int|
            0 <= k < l < acc.len() ==> (#[trigger] acc[k].name) != (#[trigger] acc[l].name),
        validate_groups_from(raw, i, acc) is Ok,
    ensures
        forall|k: int|
            0 <= k < validate_groups_from(raw, i, acc)->Ok_0.len() ==> group_wf(
                #[trigger] validate_groups_from(raw, i, acc)->Ok_0[k],
            ),
        forall|k: int, l: int|
            0 <= k < l < validate_groups_from(raw, i, acc)->Ok_0.len() ==> (
            #[trigger] validate_groups_from(raw, i, acc)->Ok_0[k].name) != (
            #[trigger] validate_groups_from(raw, i, acc)->Ok_0[l].name),
    decreases raw.len() - i,
{
    if i < raw.len() && !has_group_name(acc, raw[i].0) {
        if let Ok(fl) = validate_flags_from(raw[i].0, raw[i].1, 0, Seq::empty()) {
            lemma_validate_flags_wf(raw[i].0, raw[i].1, 0, Seq::empty());
            let g = GroupV { name: raw[i].0, flags: fl };
            assert(group_wf(g));
            lemma_validate_groups_wf(raw, i + 1, acc.push(g));
        }
    }
}

/// The validated group list is well-formed.
pub proof fn lemma_validated_wf(raw: Seq<(Seq<char>, Seq<(Seq<char>, Seq<char>)>)>)
    requires
        validate_groups_spec(raw) is Ok,
    ensures
        forall|k: int|
            0 <= k < validate_groups_spec(raw)->Ok_0.len() ==> group_wf(
                #[trigger] validate_groups_spec(raw)->Ok_0[k],
            ),
        forall|k: int, l: int|
            0 <= k < l < validate_groups_spec(raw)->Ok_0.len() ==> (
            #[trigger] validate_groups_spec(raw)->Ok_0[k].name) != (
            #[trigger] validate_groups_spec(raw)->Ok_0[l].name),
{
    lemma_validate_groups_wf(raw, 0, Seq::empty());
}

proof fn lemma_validation_ci_from(
    gname: Seq<char>,
    fs1: Seq<(Seq<char>, Seq<char>)>,
    fs2: Seq<(Seq<char>, Seq<char>)>,
    i: int,
    acc: Seq<(Seq<char>, Seq<char>)>,
)
    requires
        0 <= i,
        fs1.len() == fs2.len(),
        forall|j: int|
            0 <= j < fs1.len() ==> lower_ascii(#[trigger] fs1[j].0) == lower_ascii(
                #[trigger] fs2[j].0,
            ),
        forall|j: int| 0 <= j < fs1.len() ==> (#[trigger] fs1[j].1) == (#[trigger] fs2[j].1),
        validate_flags_from(gname, fs1, i, acc) is Ok,
    ensures
        validate_flags_from(gname, fs2, i, acc) == validate_flags_from(gname, fs1, i, acc),
    decreases fs1.len() - i,
{
    if i >= fs1.len() {
    } else {
        assert(is_ascii_chars(fs1[i].0));
        assert(lower_ascii(fs1[i].0) == lower_ascii(fs2[i].0));
        assert(lower_ascii(fs1[i].0).len() == fs1[i].0.len());
        assert(lower_ascii(fs2[i].0).len() == fs2[i].0.len());
        assert(fs2[i].0.len() == fs1[i].0.len());
        assert forall|k: int| 0 <= k < fs2[i].0.len() implies '\0' <= #[trigger] fs2[i].0[k]
            <= '\u{7f}' by {
            assert(lower_ascii(fs1[i].0)[k] == lower_ascii(fs2[i].0)[k]);
            assert(lower_ascii(fs1[i].0)[k] == lower_char(fs1[i].0[k]));
            assert(lower_ascii(fs2[i].0)[k] == lower_char(fs2[i].0[k]));
            assert('\0' <= fs1[i].0[k] <= '\u{7f}');
            lemma_lower_char_ascii(fs1[i].0[k]);
            lemma_lower_char_ascii(fs2[i].0[k]);
        }
        assert(is_ascii_chars(fs2[i].0));
        assert(!has_flag_name(acc, lower_ascii(fs1[i].0)));
        lemma_validation_ci_from(
            gname,
            fs1,
            fs2,
            i + 1,
            acc.push((lower_ascii(fs1[i].0), fs1[i].1)),
        );
    }
}

/// Flag-name normalization makes validation insensitive to ASCII case: two
/// raw flag lists of one group whose names agree up to ASCII case and whose
/// values agree exactly validate to the very same result, whenever one of
/// them validates at all. A flag written `RED` and one written `red` thus
/// yield one validated name, and one generated `with_red` operation.
pub proof fn lemma_validation_case_insensitive(
    gname: Seq<char>,
    fs1: Seq<(Seq<char>, Seq<char>)>,
    fs2: Seq<(Seq<char>, Seq<char>)>,
)
    requires
        fs1.len() == fs2.len(),
        forall|j: int|
            0 <= j < fs1.len() ==> lower_ascii(#[trigger] fs1[j].0) == lower_ascii(
                #[trigger] fs2[j].0,
            ),
        forall|j: int| 0 <= j < fs1.len() ==> (#[trigger] fs1[j].1) == (#[trigger] fs2[j].1),
        validate_flags_from(gname, fs1, 0, Seq::empty()) is Ok,
    ensures
        validate_flags_from(gname, fs2, 0, Seq::empty()) == validate_flags_from(
            gname,
            fs1,
            0,
            Seq::empty(),
        ),
{
    lemma_validation_ci_from(gname, fs1, fs2, 0, Seq::empty());
}

} // verus!
