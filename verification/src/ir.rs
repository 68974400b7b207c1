//! The intermediate representation of one compiler invocation: a validated
//! [`Specification`] naming the flag-set type, its underlying integer type,
//! and its ordered groups of mutually-exclusive flags.

use vstd::prelude::*;
use vstd::utf8::is_ascii_chars;

use crate::validate::lower_ascii;

verus! {

/// One mutually-exclusive cluster of flags: at most one of its flags may be
/// selected in a valid combination.
#[derive(Debug)]
pub struct Group {
    /// The group's name, unique among the specification's groups.
    pub name: String,
    /// The ordered `(flag name, literal value)` pairs. Flag names are
    /// case-folded to ASCII lowercase and unique within the group; the
    /// literal value is an opaque identifier forwarded verbatim.
    pub flags: Vec<(String, String)>,
}

/// The compiled form of one invocation.
#[derive(Debug)]
pub struct Specification {
    /// The generated flag-set type's name.
    pub name: String,
    /// The identifier of the integer representation (e.g. an unsigned
    /// integer type supporting addition and a zero value).
    pub underlying_type: String,
    /// The groups, in declaration order. The order is semantically
    /// significant: it fixes each group's slot index in the builder.
    pub groups: Vec<Group>,
}

/// The mathematical value of a [`Group`].
pub struct GroupV {
    pub name: Seq<char>,
    pub flags: Seq<(Seq<char>, Seq<char>)>,
}

/// The mathematical value of a [`Specification`].
pub struct SpecificationV {
    pub name: Seq<char>,
    pub underlying_type: Seq<char>,
    pub groups: Seq<GroupV>,
}

/// The values of a sequence of `(flag name, literal value)` pairs.
pub open spec fn flags_view(s: Seq<(String, String)>) -> Seq<(Seq<char>, Seq<char>)> {
    Seq::new(s.len(), |i: int| (s[i].0@, s[i].1@))
}

impl View for Group {
    type V = GroupV;

    open spec fn view(&self) -> GroupV {
        GroupV { name: self.name@, flags: flags_view(self.flags@) }
    }
}

/// The values of a sequence of groups.
pub open spec fn groups_view(s: Seq<Group>) -> Seq<GroupV> {
    Seq::new(s.len(), |i: int| s[i]@)
}

impl View for Specification {
    type V = SpecificationV;

    open spec fn view(&self) -> SpecificationV {
        SpecificationV {
            name: self.name@,
            underlying_type: self.underlying_type@,
            groups: groups_view(self.groups@),
        }
    }
}

/// A validated flag name: ASCII only and already case-folded to lowercase.
pub open spec fn flag_name_wf(name: Seq<char>) -> bool {
    &&& is_ascii_chars(name)
    &&& name == lower_ascii(name)
}

/// A validated group: every flag name is well-formed and no two flags of the
/// group share a name.
pub open spec fn group_wf(g: GroupV) -> bool {
    &&& forall|i: int| 0 <= i < g.flags.len() ==> flag_name_wf(#[trigger] g.flags[i].0)
    &&& forall|i: int, j: int|
        0 <= i < j < g.flags.len() ==> (#[trigger] g.flags[i].0) != (#[trigger] g.flags[j].0)
}

/// A validated specification: every group is well-formed and no two groups
/// share a name. Flag names may repeat across different groups: generated
/// operation names are group-scoped by design.
pub open spec fn specification_wf(s: SpecificationV) -> bool {
    &&& forall|i: int| 0 <= i < s.groups.len() ==> group_wf(#[trigger] s.groups[i])
    &&& forall|i: int, j: int|
        0 <= i < j < s.groups.len() ==> (#[trigger] s.groups[i].name) != (#[trigger] s.groups[j].name)
}

} // verus!
