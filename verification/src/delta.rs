use vstd::prelude::*;
use crate::text::{has_string, spec_has_string, str_eq};

verus! {

broadcast use vstd::string::group_string_axioms;

/// How the entities of two snapshots relate, by path.
#[derive(Debug, Clone, PartialEq, Eq)]
pub struct EntityPartition {
    /// For each current entity that the earlier snapshot also holds, in the
    /// current order: its index there and the index of the first earlier
    /// entity with its path.
    pub matched: Vec<(usize, usize)>,
    /// The indices of the current entities that are new, in order.
    pub entered: Vec<usize>,
    /// The indices of the earlier entities that are gone, in order.
    pub exited: Vec<usize>,
}

/// The indices of `current` whose path occurs (`present`) or does not
/// occur in `previous`, in order.
pub open spec fn spec_indices(previous: Seq<String>, current: Seq<String>, present: bool) -> Seq<usize>
    decreases current.len(),
{
    if current.len() == 0 {
        seq![]
    } else {
        let rest = spec_indices(previous, current.drop_last(), present);
        if spec_has_string(previous, current.last()@) == present {
            rest.push((current.len() - 1) as usize)
        } else {
            rest
        }
    }
}

/// `j` is the first index of `s` that holds the path `p`.
pub open spec fn spec_first_index(s: Seq<String>, p: Seq<char>, j: int) -> bool {
    0 <= j < s.len() && s[j]@ == p && forall|k: int| 0 <= k < j ==> s[k]@ != p
}

/// The first index of `s` that holds `p`, if any.
fn first_index(s: &Vec<String>, p: &str) -> (r: Option<usize>)
    ensures
        match r {
            Some(j) => spec_first_index(s@, p@, j as int),
            None => !spec_has_string(s@, p@),
        },
{
    let mut i: usize = 0;
    while i < s.len()
        invariant
            i <= s.len(),
            forall|k: int| 0 <= k < i ==> s@[k]@ != p@,
        decreases s.len() - i,
    {
        if str_eq(s[i].as_str(), p) {
            return Some(i);
        }
        i = i + 1;
    }
    None
}

/// Relate the entity paths of the earlier snapshot `previous` to those of
/// the current one: which current entities were there before (and where),
/// which entered, and which earlier ones exited.
pub fn partition_entities(previous: &Vec<String>, current: &Vec<String>) -> (r: EntityPartition)
    ensures
        r.entered@ == spec_indices(previous@, current@, false),
        r.exited@ == spec_indices(current@, previous@, false),
        r.matched@.len() == spec_indices(previous@, current@, true).len(),
        forall|k: int|
            0 <= k < r.matched@.len() ==> {
                let (ci, pi) = #[trigger] r.matched@[k];
                &&& ci == spec_indices(previous@, current@, true)[k]
                &&& spec_first_index(previous@, current@[ci as int]@, pi as int)
            },
{
    let mut matched: Vec<(usize, usize)> = Vec::new();
    let mut entered: Vec<usize> = Vec::new();
    let mut i: usize = 0;
    while i < current.len()
        invariant
            i <= current.len(),
            entered@ == spec_indices(previous@, current@.take(i as int), false),
            matched@.len() == spec_indices(previous@, current@.take(i as int), true).len(),
            forall|k: int|
                0 <= k < matched@.len() ==> {
                    let (ci, pi) = #[trigger] matched@[k];
                    &&& ci == spec_indices(previous@, current@.take(i as int), true)[k]
                    &&& ci < i
                    &&& spec_first_index(previous@, current@[ci as int]@, pi as int)
                },
        decreases current.len() - i,
    {
        proof {
            assert(current@.take(i + 1).drop_last() =~= current@.take(i as int));
            assert(current@.take(i + 1).last() == current@[i as int]);
        }
        match first_index(previous, current[i].as_str()) {
            Some(j) => {
                proof {
                    assert(spec_has_string(previous@, current@[i as int]@));
                }
                matched.push((i, j));
            },
            None => {
                entered.push(i);
            },
        }
        i = i + 1;
    }
    assert(current@.take(i as int) =~= current@);
    let mut exited: Vec<usize> = Vec::new();
    let mut j: usize = 0;
    while j < previous.len()
        invariant
            j <= previous.len(),
            exited@ == spec_indices(current@, previous@.take(j as int), false),
        decreases previous.len() - j,
    {
        proof {
            assert(previous@.take(j + 1).drop_last() =~= previous@.take(j as int));
            assert(previous@.take(j + 1).last() == previous@[j as int]);
        }
        if !has_string(current, previous[j].as_str()) {
            exited.push(j);
        }
        j = j + 1;
    }
    assert(previous@.take(j as int) =~= previous@);
    EntityPartition { matched, entered, exited }
}

/// Every current entity is either matched with an earlier one or entered,
/// never both: the two index lists together have one entry per entity,
/// each index names a current entity, the entered ones are new and the
/// matched ones were there before (for any list a vector can hold).
pub proof fn lemma_every_entity_classified(previous: Seq<String>, current: Seq<String>)
    requires
        current.len() <= usize::MAX,
    ensures
        spec_indices(previous, current, true).len() + spec_indices(previous, current, false).len()
            == current.len(),
        forall|present: bool, k: int|
            0 <= k < spec_indices(previous, current, present).len() ==> {
                let i = #[trigger] spec_indices(previous, current, present)[k] as int;
                0 <= i < current.len() && spec_has_string(previous, current[i]@) == present
            },
    decreases current.len(),
{
    if current.len() > 0 {
        let rest = current.drop_last();
        lemma_every_entity_classified(previous, rest);
        assert forall|present: bool, k: int|
            0 <= k < spec_indices(previous, current, present).len() implies {
                let i = #[trigger] spec_indices(previous, current, present)[k] as int;
                0 <= i < current.len() && spec_has_string(previous, current[i]@) == present
            } by {
            let r = spec_indices(previous, rest, present);
            let whole = spec_indices(previous, current, present);
            if k < r.len() {
                let i = r[k] as int;
                assert(whole[k] == r[k]);
                assert(0 <= i < rest.len() && spec_has_string(previous, rest[i]@) == present);
                assert(rest[i] == current[i]);
            } else {
                assert(spec_has_string(previous, current.last()@) == present);
                assert(whole[k] == (current.len() - 1) as usize);
            }
        }
    }
}

} // verus!
