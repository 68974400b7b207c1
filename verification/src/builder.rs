//! A runtime-checked counterpart of the generated typestate builder: one
//! optional slot per group, each slot accepting exactly one selection, and a
//! completion operation reachable only once every slot is filled. Where the
//! host type system enforces these rules statically through the generated
//! builder, this value enforces the same rules with explicit errors, with the
//! same combination arithmetic.

use vstd::prelude::*;
use vstd::wrapping::u64_specs;

verus! {

/// A rejected builder operation.
#[derive(Debug, PartialEq, Eq, Structural)]
pub enum BuildError {
    /// The addressed group already holds its one selection; carries the
    /// group's slot index.
    SlotAlreadyResolved(usize),
    /// Completion was attempted while a group had no selection yet; carries
    /// the first such group's slot index.
    MissingSelection(usize),
}

/// A builder over `n` mutually-exclusive groups: slot `k` holds the value
/// selected for group `k`, or nothing. Operations consume the builder and
/// return a new value, as the generated builder's do.
#[derive(Debug)]
pub struct FlagBuilder {
    slots: Vec<Option<u64>>,
}

impl View for FlagBuilder {
    type V = Seq<Option<u64>>;

    closed spec fn view(&self) -> Seq<Option<u64>> {
        self.slots@
    }
}

/// Whether every group has its selection.
pub open spec fn all_resolved(s: Seq<Option<u64>>) -> bool {
    forall|i: int| 0 <= i < s.len() ==> (#[trigger] s[i]) is Some
}

/// The combined value of the filled slots, in slot order: the sum of the
/// selected values in the carrier's wrapping arithmetic (empty slots
/// contribute nothing).
pub open spec fn combined(s: Seq<Option<u64>>) -> u64
    decreases s.len(),
{
    if s.len() == 0 {
        0u64
    } else {
        u64_specs::wrapping_add(
            combined(s.drop_last()),
            match s.last() {
                Some(v) => v,
                None => 0u64,
            },
        )
    }
}

/// The plain arithmetic sum of the filled slots' values.
pub open spec fn combined_sum(s: Seq<Option<u64>>) -> int
    decreases s.len(),
{
    if s.len() == 0 {
        0
    } else {
        combined_sum(s.drop_last()) + match s.last() {
            Some(v) => v as int,
            None => 0,
        }
    }
}

/// The combined value is the plain arithmetic sum of the selected values,
/// whenever that sum fits the carrier.
pub proof fn lemma_combined_is_sum(s: Seq<Option<u64>>)
    requires
        combined_sum(s) < 0x1_0000_0000_0000_0000,
    ensures
        combined(s) == combined_sum(s),
    decreases s.len(),
{
    if s.len() > 0 {
        lemma_combined_sum_nonneg(s.drop_last());
        lemma_combined_is_sum(s.drop_last());
    }
}

/// The sum of the selected values is never negative.
pub proof fn lemma_combined_sum_nonneg(s: Seq<Option<u64>>)
    ensures
        combined_sum(s) >= 0,
    decreases s.len(),
{
    if s.len() > 0 {
        lemma_combined_sum_nonneg(s.drop_last());
    }
}

/// Selections for two different groups commute: making them in either order
/// leaves the builder with the same slots, hence the same combined value.
pub proof fn lemma_selection_order_commutes(
    s: Seq<Option<u64>>,
    j: int,
    k: int,
    vj: u64,
    vk: u64,
)
    requires
        0 <= j < s.len(),
        0 <= k < s.len(),
        j != k,
    ensures
        s.update(j, Some(vj)).update(k, Some(vk)) == s.update(k, Some(vk)).update(j, Some(vj)),
        combined(s.update(j, Some(vj)).update(k, Some(vk))) == combined(
            s.update(k, Some(vk)).update(j, Some(vj)),
        ),
{
    assert(s.update(j, Some(vj)).update(k, Some(vk)) =~= s.update(k, Some(vk)).update(j, Some(vj)));
}

impl FlagBuilder {
    /// A fresh builder for `n` groups: every slot is unresolved.
    pub fn new(n: usize) -> (r: FlagBuilder)
        ensures
            r@ == Seq::new(n as nat, |i: int| None::<u64>),
    {
        let mut slots: Vec<Option<u64>> = Vec::new();
        let mut i: usize = 0;
        while i < n
            invariant
                i <= n,
                slots@ == Seq::new(i as nat, |j: int| None::<u64>),
            decreases n - i,
        {
            slots.push(None);
            proof {
                assert(slots@ =~= Seq::new((i + 1) as nat, |j: int| None::<u64>));
            }
            i += 1;
        }
        FlagBuilder { slots }
    }

    /// The number of group slots.
    pub fn len(&self) -> (r: usize)
        ensures
            r == self@.len(),
    {
        self.slots.len()
    }

    /// Selects `value` for group `k`. Succeeds exactly when slot `k` is still
    /// unresolved; a group that already holds its one selection admits no
    /// further selection of any flag.
    pub fn select(self, k: usize, value: u64) -> (r: Result<FlagBuilder, BuildError>)
        requires
            k < self@.len(),
        ensures
            self@[k as int] is None ==> (r matches Ok(b) && b@ == self@.update(
                k as int,
                Some(value),
            )),
            self@[k as int] is Some ==> r == Err::<FlagBuilder, _>(
                BuildError::SlotAlreadyResolved(k),
            ),
    {
        if self.slots[k].is_some() {
            return Err(BuildError::SlotAlreadyResolved(k));
        }
        let mut slots = self.slots;
        slots.set(k, Some(value));
        Ok(FlagBuilder { slots })
    }

    /// Completion: consumes the builder and yields the combined value.
    /// Succeeds exactly when every group has its selection; otherwise it
    /// reports the first group still missing one.
    pub fn build(self) -> (r: Result<u64, BuildError>)
        ensures
            r is Ok <==> all_resolved(self@),
            all_resolved(self@) ==> r == Ok::<_, BuildError>(combined(self@)),
            !all_resolved(self@) ==> (r matches Err(BuildError::MissingSelection(k)) && k
                < self@.len() && self@[k as int] is None && (forall|j: int|
                0 <= j < k ==> (#[trigger] self@[j]) is Some)),
    {
        let n = self.slots.len();
        let mut total: u64 = 0;
        let mut i: usize = 0;
        while i < n
            invariant
                i <= n,
                n == self@.len(),
                forall|j: int| 0 <= j < i ==> (#[trigger] self@[j]) is Some,
                total == combined(self@.take(i as int)),
            decreases n - i,
        {
            match self.slots[i] {
                Some(v) => {
                    total = total.wrapping_add(v);
                },
                None => {
                    return Err(BuildError::MissingSelection(i));
                },
            }
            proof {
                assert(self@.take(i + 1).drop_last() =~= self@.take(i as int));
            }
            i += 1;
        }
        proof {
            assert(self@.take(n as int) =~= self@);
        }
        Ok(total)
    }
}

} // verus!
