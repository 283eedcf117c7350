use vstd::prelude::*;

verus! {

/// Clustering strategy for summary views.
#[derive(Debug, Clone, Copy, PartialEq, Eq, Structural)]
pub enum ClusterStrategy {
    Group,
    Class,
    Proximity,
    /// No clustering: each entity is its own cluster.
    Individual,
}

impl Default for ClusterStrategy {
    fn default() -> (s: Self)
        ensures
            s == ClusterStrategy::Group,
    {
        ClusterStrategy::Group
    }
}

} // verus!

verus! {

broadcast use vstd::string::group_string_axioms;

/// The state values of one entity under the keys a cluster summary looks
/// at, in their order of preference: `state`, `alert_level`, `status`,
/// `mode`. A string value is taken as it is, any other JSON value as its
/// JSON text.
#[derive(Debug, Clone)]
pub struct StateValues {
    pub state: Option<String>,
    pub alert_level: Option<String>,
    pub status: Option<String>,
    pub mode: Option<String>,
}

pub open spec fn spec_opt_view(o: Option<String>) -> Option<Seq<char>> {
    match o {
        Some(s) => Some(s@),
        None => None,
    }
}

/// The value of key number `k` (0 to 3).
pub open spec fn spec_value_at(e: StateValues, k: int) -> Option<Seq<char>> {
    if k == 0 {
        spec_opt_view(e.state)
    } else if k == 1 {
        spec_opt_view(e.alert_level)
    } else if k == 2 {
        spec_opt_view(e.status)
    } else {
        spec_opt_view(e.mode)
    }
}

/// The values of key `k` among the entities that have it, in entity order.
pub open spec fn spec_key_values(es: Seq<StateValues>, k: int) -> Seq<Seq<char>>
    decreases es.len(),
{
    if es.len() == 0 {
        Seq::empty()
    } else {
        let r = spec_key_values(es.drop_last(), k);
        match spec_value_at(es.last(), k) {
            Some(v) => r.push(v),
            None => r,
        }
    }
}

/// How often `x` occurs in `vals`.
pub open spec fn spec_count(vals: Seq<Seq<char>>, x: Seq<char>) -> nat
    decreases vals.len(),
{
    if vals.len() == 0 {
        0
    } else {
        spec_count(vals.drop_last(), x) + if vals.last() == x { 1nat } else { 0nat }
    }
}

/// The distinct values of `vals`, in order of first occurrence.
pub open spec fn spec_distinct(vals: Seq<Seq<char>>) -> Seq<Seq<char>>
    decreases vals.len(),
{
    if vals.len() == 0 {
        Seq::empty()
    } else {
        let d = spec_distinct(vals.drop_last());
        if d.contains(vals.last()) {
            d
        } else {
            d.push(vals.last())
        }
    }
}

/// `a` is listed before `b`: more frequent first, then by value.
pub open spec fn spec_ranked_before(a: (Seq<char>, nat), b: (Seq<char>, nat)) -> bool {
    a.1 > b.1 || (a.1 == b.1 && crate::text::spec_lex_lt(a.0, b.0))
}

pub open spec fn spec_insert_ranked(s: Seq<(Seq<char>, nat)>, x: (Seq<char>, nat)) -> Seq<(Seq<char>, nat)>
    decreases s.len(),
{
    if s.len() == 0 {
        seq![x]
    } else if spec_ranked_before(s.last(), x) {
        s.push(x)
    } else {
        spec_insert_ranked(s.drop_last(), x).push(s.last())
    }
}

/// The pairs of `ps` in rank order.
pub open spec fn spec_rank(ps: Seq<(Seq<char>, nat)>) -> Seq<(Seq<char>, nat)>
    decreases ps.len(),
{
    if ps.len() == 0 {
        Seq::empty()
    } else {
        spec_insert_ranked(spec_rank(ps.drop_last()), ps.last())
    }
}

/// Each distinct value with its count, in order of first occurrence.
pub open spec fn spec_tally(vals: Seq<Seq<char>>) -> Seq<(Seq<char>, nat)> {
    spec_distinct(vals).map_values(|x: Seq<char>| (x, spec_count(vals, x)))
}

/// `"<count> <value>"` items joined by `", "`.
pub open spec fn spec_summary_text(ps: Seq<(Seq<char>, nat)>) -> Seq<char>
    decreases ps.len(),
{
    if ps.len() == 0 {
        Seq::empty()
    } else {
        let item = crate::text::spec_decimal(ps.last().1) + seq![' '] + ps.last().0;
        if ps.len() == 1 {
            item
        } else {
            spec_summary_text(ps.drop_last()) + seq![',', ' '] + item
        }
    }
}

/// The summary from key `k` on: the first key that some entity has decides.
pub open spec fn spec_summary_from(es: Seq<StateValues>, k: int) -> Option<Seq<char>>
    decreases 4 - k,
{
    if k >= 4 || k < 0 {
        None
    } else {
        let vals = spec_key_values(es, k);
        if vals.len() > 0 {
            Some(spec_summary_text(spec_rank(spec_tally(vals))))
        } else {
            spec_summary_from(es, k + 1)
        }
    }
}

/// A natural-language summary of a cluster's states, such as
/// `2 idle, 1 patrol`.
pub open spec fn spec_cluster_summary(es: Seq<StateValues>) -> Option<Seq<char>> {
    if es.len() == 0 {
        None
    } else {
        spec_summary_from(es, 0)
    }
}

/// The values that are present among optional values, in order.
pub open spec fn spec_present(os: Seq<Option<Seq<char>>>) -> Seq<Seq<char>>
    decreases os.len(),
{
    if os.len() == 0 {
        Seq::empty()
    } else {
        let r = spec_present(os.drop_last());
        match os.last() {
            Some(v) => r.push(v),
            None => r,
        }
    }
}

/// Each entity's `state`.
pub open spec fn spec_states(es: Seq<StateValues>) -> Seq<Option<Seq<char>>> {
    es.map_values(|e: StateValues| spec_opt_view(e.state))
}

/// Each entity's `alert_level`.
pub open spec fn spec_alert_levels(es: Seq<StateValues>) -> Seq<Option<Seq<char>>> {
    es.map_values(|e: StateValues| spec_opt_view(e.alert_level))
}

/// Each entity's `status`.
pub open spec fn spec_statuses(es: Seq<StateValues>) -> Seq<Option<Seq<char>>> {
    es.map_values(|e: StateValues| spec_opt_view(e.status))
}

/// Each entity's `mode`.
pub open spec fn spec_modes(es: Seq<StateValues>) -> Seq<Option<Seq<char>>> {
    es.map_values(|e: StateValues| spec_opt_view(e.mode))
}

/// The summary of the values `vals`: each with its count, ranked.
pub open spec fn spec_summary_of(vals: Seq<Seq<char>>) -> Option<Seq<char>> {
    Some(spec_summary_text(spec_rank(spec_tally(vals))))
}

/// Some value is present exactly when some entry holds one.
proof fn lemma_present_nonempty(os: Seq<Option<Seq<char>>>)
    ensures
        spec_present(os).len() > 0 <==> exists|i: int| 0 <= i < os.len() && os[i] is Some,
    decreases os.len(),
{
    if os.len() > 0 {
        lemma_present_nonempty(os.drop_last());
        if exists|i: int| 0 <= i < os.len() && os[i] is Some {
            let i = choose|i: int| 0 <= i < os.len() && os[i] is Some;
            if i < os.len() - 1 {
                assert(os.drop_last()[i] is Some);
            }
        }
        if exists|i: int| 0 <= i < os.drop_last().len() && os.drop_last()[i] is Some {
            let i = choose|i: int| 0 <= i < os.drop_last().len() && os.drop_last()[i] is Some;
            assert(os[i] is Some);
        }
    }
}

/// The values a key yields are the values of that field, in entity order.
proof fn lemma_key_values_are_fields(es: Seq<StateValues>)
    ensures
        spec_key_values(es, 0) == spec_present(spec_states(es)),
        spec_key_values(es, 1) == spec_present(spec_alert_levels(es)),
        spec_key_values(es, 2) == spec_present(spec_statuses(es)),
        spec_key_values(es, 3) == spec_present(spec_modes(es)),
    decreases es.len(),
{
    if es.len() > 0 {
        lemma_key_values_are_fields(es.drop_last());
        assert(spec_states(es).drop_last() =~= spec_states(es.drop_last()));
        assert(spec_alert_levels(es).drop_last() =~= spec_alert_levels(es.drop_last()));
        assert(spec_statuses(es).drop_last() =~= spec_statuses(es.drop_last()));
        assert(spec_modes(es).drop_last() =~= spec_modes(es.drop_last()));
    } else {
        assert(spec_states(es).len() == 0);
        assert(spec_alert_levels(es).len() == 0);
        assert(spec_statuses(es).len() == 0);
        assert(spec_modes(es).len() == 0);
    }
}

/// Which state key a cluster summary counts: `state` when some member has
/// one; otherwise `alert_level` when some member has one (before `status`
/// and `mode`); otherwise `status`; otherwise `mode`; and none when no
/// member has any of them or the cluster is empty. The summary counts the
/// values of that key alone, over the members that have it.
pub proof fn lemma_summary_key_preference(es: Seq<StateValues>)
    ensures
        ({
            let st = spec_present(spec_states(es));
            let al = spec_present(spec_alert_levels(es));
            let ss = spec_present(spec_statuses(es));
            let md = spec_present(spec_modes(es));
            &&& (st.len() > 0 <==> exists|i: int| 0 <= i < es.len() && es[i].state is Some)
            &&& (al.len() > 0 <==> exists|i: int| 0 <= i < es.len() && es[i].alert_level is Some)
            &&& (ss.len() > 0 <==> exists|i: int| 0 <= i < es.len() && es[i].status is Some)
            &&& (md.len() > 0 <==> exists|i: int| 0 <= i < es.len() && es[i].mode is Some)
            &&& spec_cluster_summary(es) == if st.len() > 0 {
                spec_summary_of(st)
            } else if al.len() > 0 {
                spec_summary_of(al)
            } else if ss.len() > 0 {
                spec_summary_of(ss)
            } else if md.len() > 0 {
                spec_summary_of(md)
            } else {
                None
            }
        }),
{
    lemma_key_values_are_fields(es);
    lemma_present_nonempty(spec_states(es));
    lemma_present_nonempty(spec_alert_levels(es));
    lemma_present_nonempty(spec_statuses(es));
    lemma_present_nonempty(spec_modes(es));
    assert((exists|i: int| 0 <= i < es.len() && es[i].state is Some) <==> (exists|i: int|
        0 <= i < spec_states(es).len() && spec_states(es)[i] is Some)) by {
        if exists|i: int| 0 <= i < es.len() && es[i].state is Some {
            let i = choose|i: int| 0 <= i < es.len() && es[i].state is Some;
            assert(spec_states(es)[i] is Some);
        }
    }
    assert((exists|i: int| 0 <= i < es.len() && es[i].alert_level is Some) <==> (exists|i: int|
        0 <= i < spec_alert_levels(es).len() && spec_alert_levels(es)[i] is Some)) by {
        if exists|i: int| 0 <= i < es.len() && es[i].alert_level is Some {
            let i = choose|i: int| 0 <= i < es.len() && es[i].alert_level is Some;
            assert(spec_alert_levels(es)[i] is Some);
        }
    }
    assert((exists|i: int| 0 <= i < es.len() && es[i].status is Some) <==> (exists|i: int|
        0 <= i < spec_statuses(es).len() && spec_statuses(es)[i] is Some)) by {
        if exists|i: int| 0 <= i < es.len() && es[i].status is Some {
            let i = choose|i: int| 0 <= i < es.len() && es[i].status is Some;
            assert(spec_statuses(es)[i] is Some);
        }
    }
    assert((exists|i: int| 0 <= i < es.len() && es[i].mode is Some) <==> (exists|i: int|
        0 <= i < spec_modes(es).len() && spec_modes(es)[i] is Some)) by {
        if exists|i: int| 0 <= i < es.len() && es[i].mode is Some {
            let i = choose|i: int| 0 <= i < es.len() && es[i].mode is Some;
            assert(spec_modes(es)[i] is Some);
        }
    }
    if es.len() == 0 {
        assert(spec_states(es).len() == 0);
        assert(spec_alert_levels(es).len() == 0);
        assert(spec_statuses(es).len() == 0);
        assert(spec_modes(es).len() == 0);
    } else {
        let st = spec_present(spec_states(es));
        let al = spec_present(spec_alert_levels(es));
        let ss = spec_present(spec_statuses(es));
        let md = spec_present(spec_modes(es));
        assert(spec_summary_from(es, 4) == None::<Seq<char>>);
        assert(spec_summary_from(es, 3) == if md.len() > 0 {
            spec_summary_of(md)
        } else {
            None
        });
        assert(spec_summary_from(es, 2) == if ss.len() > 0 {
            spec_summary_of(ss)
        } else {
            spec_summary_from(es, 3)
        });
        assert(spec_summary_from(es, 1) == if al.len() > 0 {
            spec_summary_of(al)
        } else {
            spec_summary_from(es, 2)
        });
        assert(spec_summary_from(es, 0) == if st.len() > 0 {
            spec_summary_of(st)
        } else {
            spec_summary_from(es, 1)
        });
    }
}

/// No entry of `s` ranks before an earlier one: the more frequent value
/// comes first, and of equally frequent values the smaller one.
pub open spec fn spec_rank_sorted(s: Seq<(Seq<char>, nat)>) -> bool {
    forall|i: int, j: int| 0 <= i < j < s.len() ==> !spec_ranked_before(#[trigger] s[j], #[trigger] s[i])
}

/// Ranking before is transitive.
proof fn lemma_ranked_before_transitive(a: (Seq<char>, nat), b: (Seq<char>, nat), c: (Seq<char>, nat))
    requires
        spec_ranked_before(a, b),
        spec_ranked_before(b, c),
    ensures
        spec_ranked_before(a, c),
{
    if a.1 == b.1 && b.1 == c.1 {
        crate::text::lemma_lex_transitive(a.0, b.0, c.0);
    }
}

/// Inserting into a ranked list keeps it ranked and adds exactly the entry.
proof fn lemma_insert_ranked(s: Seq<(Seq<char>, nat)>, x: (Seq<char>, nat))
    requires
        spec_rank_sorted(s),
    ensures
        spec_rank_sorted(spec_insert_ranked(s, x)),
        spec_insert_ranked(s, x).to_multiset() == s.to_multiset().insert(x),
        forall|k: int|
            0 <= k < spec_insert_ranked(s, x).len() ==> #[trigger] spec_insert_ranked(s, x)[k] == x
                || s.contains(spec_insert_ranked(s, x)[k]),
    decreases s.len(),
{
    broadcast use vstd::seq_lib::group_to_multiset_ensures;
    let r = spec_insert_ranked(s, x);
    if s.len() == 0 {
        assert(s.to_multiset() =~= vstd::multiset::Multiset::empty());
        assert(r =~= Seq::<(Seq<char>, nat)>::empty().push(x));
    } else if spec_ranked_before(s.last(), x) {
        assert forall|i: int, j: int| 0 <= i < j < r.len() implies !spec_ranked_before(
            #[trigger] r[j],
            #[trigger] r[i],
        ) by {
            if j == r.len() - 1 && i < j {
                if spec_ranked_before(x, s[i]) {
                    if i < s.len() - 1 {
                        lemma_ranked_before_transitive(s.last(), x, s[i]);
                        assert(!spec_ranked_before(s[s.len() - 1], s[i]));
                    } else {
                        lemma_ranked_before_transitive(s.last(), x, s.last());
                        crate::text::lemma_lex_trichotomy(x.0, x.0);
                        crate::text::lemma_lex_trichotomy(s.last().0, s.last().0);
                    }
                }
            }
        }
        assert forall|k: int| 0 <= k < r.len() implies #[trigger] r[k] == x || s.contains(r[k]) by {
            if k < s.len() {
                assert(s[k] == r[k]);
            }
        }
    } else {
        let s0 = s.drop_last();
        let last = s.last();
        assert(spec_rank_sorted(s0)) by {
            assert forall|i: int, j: int| 0 <= i < j < s0.len() implies !spec_ranked_before(
                #[trigger] s0[j],
                #[trigger] s0[i],
            ) by {
                assert(s0[j] == s[j] && s0[i] == s[i]);
            }
        }
        lemma_insert_ranked(s0, x);
        let r0 = spec_insert_ranked(s0, x);
        assert(r == r0.push(last));
        assert(s =~= s0.push(last));
        assert forall|i: int, j: int| 0 <= i < j < r.len() implies !spec_ranked_before(
            #[trigger] r[j],
            #[trigger] r[i],
        ) by {
            if j == r.len() - 1 {
                assert(r[j] == last);
                assert(r[i] == r0[i]);
                if r0[i] == x {
                } else {
                    assert(s0.contains(r0[i]));
                    let m = choose|m: int| 0 <= m < s0.len() && s0[m] == r0[i];
                    assert(s[m] == s0[m]);
                    assert(!spec_ranked_before(s[s.len() - 1], s[m]));
                }
            } else {
                assert(r[i] == r0[i] && r[j] == r0[j]);
            }
        }
        assert forall|k: int| 0 <= k < r.len() implies #[trigger] r[k] == x || s.contains(r[k]) by {
            if k < r0.len() {
                assert(r[k] == r0[k]);
                if r0[k] != x {
                    assert(s0.contains(r0[k]));
                    let m = choose|m: int| 0 <= m < s0.len() && s0[m] == r0[k];
                    assert(s[m] == s0[m]);
                }
            } else {
                assert(s[s.len() - 1] == last);
            }
        }
        assert(r.to_multiset() == r0.to_multiset().insert(last));
        assert(s.to_multiset() == s0.to_multiset().insert(last));
        assert(r.to_multiset() =~= s.to_multiset().insert(x));
    }
}

/// The ranking of a cluster's values: it holds exactly the given entries
/// (as a multiset), and no entry ranks before an earlier one, so more
/// frequent values come first and equally frequent ones in the order of
/// strings.
pub proof fn lemma_rank_orders_entries(ps: Seq<(Seq<char>, nat)>)
    ensures
        spec_rank(ps).to_multiset() == ps.to_multiset(),
        spec_rank_sorted(spec_rank(ps)),
    decreases ps.len(),
{
    broadcast use vstd::seq_lib::group_to_multiset_ensures;
    if ps.len() == 0 {
        assert(ps.to_multiset() =~= vstd::multiset::Multiset::empty());
        assert(spec_rank(ps).to_multiset() =~= vstd::multiset::Multiset::empty());
    } else {
        lemma_rank_orders_entries(ps.drop_last());
        lemma_insert_ranked(spec_rank(ps.drop_last()), ps.last());
        assert(ps =~= ps.drop_last().push(ps.last()));
    }
}

/// The distinct values hold each value of `vals` exactly once.
proof fn lemma_distinct_values(vals: Seq<Seq<char>>)
    ensures
        forall|y: Seq<char>| spec_distinct(vals).contains(y) <==> vals.contains(y),
        forall|i: int, j: int|
            0 <= i < j < spec_distinct(vals).len() ==> #[trigger] spec_distinct(vals)[i]
                != #[trigger] spec_distinct(vals)[j],
    decreases vals.len(),
{
    if vals.len() > 0 {
        let v0 = vals.drop_last();
        lemma_distinct_values(v0);
        assert(vals =~= v0.push(vals.last()));
        let d0 = spec_distinct(v0);
        let d = spec_distinct(vals);
        assert(d == d0 || d == d0.push(vals.last()));
        assert forall|y: Seq<char>| d.contains(y) <==> vals.contains(y) by {
            if vals.contains(y) {
                let k = choose|k: int| 0 <= k < vals.len() && vals[k] == y;
                if d0.contains(y) {
                    let j = choose|j: int| 0 <= j < d0.len() && d0[j] == y;
                    assert(d[j] == d0[j]);
                } else if k < vals.len() - 1 {
                    assert(v0[k] == y);
                    assert(v0.contains(y));
                } else {
                    assert(d[d.len() - 1] == y);
                }
            }
            if d.contains(y) {
                let k = choose|k: int| 0 <= k < d.len() && d[k] == y;
                if k < d0.len() {
                    assert(d0[k] == y);
                    assert(d0.contains(y));
                    assert(v0.contains(y));
                    let m = choose|m: int| 0 <= m < v0.len() && v0[m] == y;
                    assert(vals[m] == v0[m]);
                } else {
                    assert(vals[vals.len() - 1] == y);
                }
            }
        }
    }
}

/// Counting a value counts its occurrences.
proof fn lemma_count_is_multiplicity(vals: Seq<Seq<char>>, x: Seq<char>)
    ensures
        spec_count(vals, x) == vals.to_multiset().count(x),
    decreases vals.len(),
{
    broadcast use vstd::seq_lib::group_to_multiset_ensures;
    if vals.len() == 0 {
        assert(vals.to_multiset() =~= vstd::multiset::Multiset::empty());
    } else {
        lemma_count_is_multiplicity(vals.drop_last(), x);
        assert(vals =~= vals.drop_last().push(vals.last()));
    }
}

/// The tally of a cluster's values: each value that occurs is listed
/// exactly once, with the number of times it occurs, and nothing else is
/// listed.
pub proof fn lemma_tally_counts(vals: Seq<Seq<char>>)
    ensures
        forall|i: int|
            0 <= i < spec_tally(vals).len() ==> vals.contains(#[trigger] spec_tally(vals)[i].0)
                && spec_tally(vals)[i].1 == vals.to_multiset().count(spec_tally(vals)[i].0),
        forall|x: Seq<char>| vals.contains(x) ==> exists|i: int|
            0 <= i < spec_tally(vals).len() && #[trigger] spec_tally(vals)[i].0 == x,
        forall|i: int, j: int|
            0 <= i < j < spec_tally(vals).len() ==> #[trigger] spec_tally(vals)[i].0
                != #[trigger] spec_tally(vals)[j].0,
{
    lemma_distinct_values(vals);
    let d = spec_distinct(vals);
    let t = spec_tally(vals);
    assert forall|i: int| 0 <= i < t.len() implies vals.contains(#[trigger] t[i].0) && t[i].1
        == vals.to_multiset().count(t[i].0) by {
        assert(t[i].0 == d[i]);
        assert(d.contains(d[i]));
        lemma_count_is_multiplicity(vals, d[i]);
    }
    assert forall|x: Seq<char>| vals.contains(x) implies exists|i: int|
        0 <= i < t.len() && #[trigger] t[i].0 == x by {
        assert(d.contains(x));
        let k = choose|k: int| 0 <= k < d.len() && d[k] == x;
        assert(t[k].0 == x);
    }
    assert forall|i: int, j: int| 0 <= i < j < t.len() implies #[trigger] t[i].0 != #[trigger] t[j].0 by {
        assert(t[i].0 == d[i] && t[j].0 == d[j]);
    }
}

fn value_at(e: &StateValues, k: usize) -> (r: Option<&String>)
    ensures
        match r {
            Some(s) => spec_value_at(*e, k as int) == Some(s@),
            None => spec_value_at(*e, k as int) is None,
        },
{
    let o = if k == 0 {
        &e.state
    } else if k == 1 {
        &e.alert_level
    } else if k == 2 {
        &e.status
    } else {
        &e.mode
    };
    match o {
        Some(s) => Some(s),
        None => None,
    }
}

pub open spec fn spec_string_views(v: Seq<String>) -> Seq<Seq<char>> {
    v.map_values(|s: String| s@)
}

fn key_values(es: &Vec<StateValues>, k: usize) -> (r: Vec<String>)
    ensures
        spec_string_views(r@) == spec_key_values(es@, k as int),
{
    let mut r: Vec<String> = Vec::new();
    let mut i: usize = 0;
    assert(es@.take(0) =~= Seq::<StateValues>::empty());
    assert(spec_string_views(r@) =~= Seq::<Seq<char>>::empty());
    while i < es.len()
        invariant
            i <= es@.len(),
            spec_string_views(r@) == spec_key_values(es@.take(i as int), k as int),
        decreases es.len() - i,
    {
        assert(es@.take(i + 1).drop_last() =~= es@.take(i as int));
        let ghost before = spec_string_views(r@);
        match value_at(&es[i], k) {
            Some(s) => {
                r.push(s.clone());
                assert(spec_string_views(r@) =~= before.push(s@));
            },
            None => {},
        }
        i = i + 1;
    }
    assert(es@.take(es.len() as int) =~= es@);
    r
}

pub open spec fn spec_pair_views(v: Seq<(String, usize)>) -> Seq<(Seq<char>, nat)> {
    v.map_values(|p: (String, usize)| (p.0@, p.1 as nat))
}

proof fn lemma_count_bound(vals: Seq<Seq<char>>, x: Seq<char>)
    ensures
        spec_count(vals, x) <= vals.len(),
    decreases vals.len(),
{
    if vals.len() > 0 {
        lemma_count_bound(vals.drop_last(), x);
    }
}

proof fn lemma_count_positive(vals: Seq<Seq<char>>, x: Seq<char>)
    requires
        vals.contains(x),
    ensures
        spec_count(vals, x) >= 1,
    decreases vals.len(),
{
    if vals.last() != x {
        let j = choose|j: int| 0 <= j < vals.len() && vals[j] == x;
        assert(vals.drop_last()[j] == x);
        lemma_count_positive(vals.drop_last(), x);
    }
}

proof fn lemma_distinct_members(vals: Seq<Seq<char>>)
    ensures
        forall|x: Seq<char>| spec_distinct(vals).contains(x) <==> vals.contains(x),
    decreases vals.len(),
{
    if vals.len() > 0 {
        let t = vals.drop_last();
        lemma_distinct_members(t);
        let d = spec_distinct(t);
        let r = spec_distinct(vals);
        assert forall|x: Seq<char>| r.contains(x) <==> vals.contains(x) by {
            if r.contains(x) {
                let k = choose|k: int| 0 <= k < r.len() && r[k] == x;
                if k < d.len() {
                    assert(d[k] == x);
                    assert(d.contains(x));
                    assert(t.contains(x));
                    let j = choose|j: int| 0 <= j < t.len() && t[j] == x;
                    assert(vals[j] == x);
                } else {
                    assert(x == vals.last());
                    assert(vals[vals.len() - 1] == x);
                }
            }
            if vals.contains(x) {
                let j = choose|j: int| 0 <= j < vals.len() && vals[j] == x;
                if j < vals.len() - 1 {
                    assert(t[j] == x);
                    assert(t.contains(x));
                    assert(d.contains(x));
                    let k = choose|k: int| 0 <= k < d.len() && d[k] == x;
                    assert(r[k] == x);
                } else if d.contains(x) {
                    let k = choose|k: int| 0 <= k < d.len() && d[k] == x;
                    assert(r[k] == x);
                } else {
                    assert(r[d.len() as int] == x);
                }
            }
        }
    }
}

proof fn lemma_distinct_unique(vals: Seq<Seq<char>>)
    ensures
        forall|a: int, b: int|
            0 <= a < b < spec_distinct(vals).len() ==> #[trigger] spec_distinct(vals)[a]
                != #[trigger] spec_distinct(vals)[b],
    decreases vals.len(),
{
    if vals.len() > 0 {
        let t = vals.drop_last();
        lemma_distinct_unique(t);
        let d = spec_distinct(t);
        let r = spec_distinct(vals);
        assert forall|a: int, b: int| 0 <= a < b < r.len() implies #[trigger] r[a] != #[trigger] r[b] by {
            if b == d.len() {
                assert(r[b] == vals.last());
                assert(r[a] == d[a]);
                if r[a] == r[b] {
                    assert(d.contains(vals.last()));
                }
            } else {
                assert(r[a] == d[a]);
                assert(r[b] == d[b]);
            }
        }
    }
}

/// Each distinct value with its count, in order of first occurrence.
fn tally(vals: &Vec<String>) -> (r: Vec<(String, usize)>)
    ensures
        spec_pair_views(r@) == spec_tally(spec_string_views(vals@)),
{
    let ghost vv = spec_string_views(vals@);
    let mut r: Vec<(String, usize)> = Vec::new();
    let mut i: usize = 0;
    assert(vv.take(0) =~= Seq::<Seq<char>>::empty());
    while i < vals.len()
        invariant
            i <= vals@.len(),
            vv == spec_string_views(vals@),
            r@.len() == spec_distinct(vv.take(i as int)).len(),
            forall|j: int| 0 <= j < r@.len() ==> (#[trigger] r@[j]).0@ == spec_distinct(
                vv.take(i as int),
            )[j] && r@[j].1 == spec_count(vv.take(i as int), r@[j].0@),
        decreases vals.len() - i,
    {
        let ghost t = vv.take(i as int);
        let ghost t1 = vv.take(i + 1);
        assert(t1.drop_last() =~= t);
        assert(t1.last() == vals@[i as int]@);
        let ghost d = spec_distinct(t);
        let mut j: usize = 0;
        while j < r.len() && !(r[j].0 == vals[i])
            invariant
                j <= r@.len(),
                i < vals@.len(),
                r@.len() == d.len(),
                forall|m: int| 0 <= m < r@.len() ==> (#[trigger] r@[m]).0@ == d[m],
                forall|m: int| 0 <= m < j ==> d[m] != vals@[i as int]@,
            decreases r.len() - j,
        {
            j = j + 1;
        }
        let found = j < r.len();
        proof {
            lemma_count_bound(t, vals@[i as int]@);
        }
        if found {
            proof {
                lemma_distinct_unique(t);
            }
            assert(d[j as int] == t1.last());
            assert(d.contains(t1.last()));
            assert(spec_distinct(t1) == d);
            let ghost old_r = r@;
            let c = r[j].1;
            r.set(j, (vals[i].clone(), c + 1));
            assert forall|m: int| 0 <= m < r@.len() implies (#[trigger] r@[m]).0@ == spec_distinct(t1)[m]
                && r@[m].1 == spec_count(t1, r@[m].0@) by {
                if m != j {
                    assert(r@[m] == old_r[m]);
                    assert(d[m] != d[j as int]);
                } else {
                    assert(r@[m].0@ == vals@[i as int]@);
                }
            }
        } else {
            assert(!d.contains(t1.last())) by {
                if d.contains(t1.last()) {
                    let k = choose|k: int| 0 <= k < d.len() && d[k] == t1.last();
                    assert(d[k] != vals@[i as int]@);
                }
            }
            let ghost old_r = r@;
            r.push((vals[i].clone(), 1));
            assert(spec_distinct(t1) == d.push(t1.last()));
            assert forall|m: int| 0 <= m < r@.len() implies (#[trigger] r@[m]).0@ == spec_distinct(t1)[m]
                && r@[m].1 == spec_count(t1, r@[m].0@) by {
                if m < old_r.len() {
                    assert(r@[m] == old_r[m]);
                    assert(d[m] != t1.last());
                } else {
                    assert(spec_count(t, t1.last()) == 0) by {
                        lemma_count_not_distinct(t, t1.last());
                    }
                }
            }
        }
        i = i + 1;
    }
    assert(vv.take(vals.len() as int) =~= vv);
    assert(spec_pair_views(r@) =~= spec_tally(vv));
    r
}

proof fn lemma_count_not_distinct(vals: Seq<Seq<char>>, x: Seq<char>)
    requires
        !spec_distinct(vals).contains(x),
    ensures
        spec_count(vals, x) == 0,
{
    lemma_distinct_members(vals);
    lemma_count_absent(vals, x);
}

proof fn lemma_count_absent(vals: Seq<Seq<char>>, x: Seq<char>)
    requires
        !vals.contains(x),
    ensures
        spec_count(vals, x) == 0,
    decreases vals.len(),
{
    if vals.len() > 0 {
        assert(vals.last() != x) by {
            if vals.last() == x {
                assert(vals[vals.len() - 1] == x);
            }
        }
        assert(!vals.drop_last().contains(x)) by {
            if vals.drop_last().contains(x) {
                let j = choose|j: int| 0 <= j < vals.drop_last().len() && vals.drop_last()[j] == x;
                assert(vals[j] == x);
            }
        }
        lemma_count_absent(vals.drop_last(), x);
    }
}

} // verus!

verus! {

proof fn lemma_insert_ranked_at(s: Seq<(Seq<char>, nat)>, x: (Seq<char>, nat), p: int)
    requires
        0 <= p <= s.len(),
        forall|j: int| p <= j < s.len() ==> !spec_ranked_before(#[trigger] s[j], x),
        p == 0 || spec_ranked_before(s[p - 1], x),
    ensures
        spec_insert_ranked(s, x) == s.insert(p, x),
    decreases s.len(),
{
    if s.len() == 0 {
        assert(s.insert(p, x) =~= seq![x]);
    } else if spec_ranked_before(s.last(), x) {
        assert(p == s.len());
        assert(s.insert(p, x) =~= s.push(x));
    } else {
        let t = s.drop_last();
        if p > 0 {
            assert(t[p - 1] == s[p - 1]);
        }
        lemma_insert_ranked_at(t, x, p);
        assert(t.insert(p, x).push(s.last()) =~= s.insert(p, x));
    }
}

fn ranked_before(a: &(String, usize), b: &(String, usize)) -> (r: bool)
    ensures
        r == spec_ranked_before((a.0@, a.1 as nat), (b.0@, b.1 as nat)),
{
    if a.1 != b.1 {
        a.1 > b.1
    } else {
        let x = crate::text::chars_of(a.0.as_str());
        let y = crate::text::chars_of(b.0.as_str());
        crate::text::lex_less(&x, &y)
    }
}

/// Sort the pairs: more frequent first, then by value.
fn rank(ps: Vec<(String, usize)>) -> (r: Vec<(String, usize)>)
    ensures
        spec_pair_views(r@) == spec_rank(spec_pair_views(ps@)),
{
    let ghost pv = spec_pair_views(ps@);
    let mut out: Vec<(String, usize)> = Vec::new();
    let mut i: usize = 0;
    assert(pv.take(0) =~= Seq::<(Seq<char>, nat)>::empty());
    assert(spec_pair_views(out@) =~= Seq::<(Seq<char>, nat)>::empty());
    while i < ps.len()
        invariant
            i <= ps@.len(),
            pv == spec_pair_views(ps@),
            spec_pair_views(out@) == spec_rank(pv.take(i as int)),
        decreases ps.len() - i,
    {
        assert(pv.take(i + 1).drop_last() =~= pv.take(i as int));
        let x = (ps[i].0.clone(), ps[i].1);
        let ghost xv = (x.0@, x.1 as nat);
        assert(xv == pv[i as int]);
        let ghost ov = spec_pair_views(out@);
        let mut p: usize = out.len();
        while p > 0 && !ranked_before(&out[p - 1], &x)
            invariant
                p <= out@.len(),
                ov == spec_pair_views(out@),
                xv == (x.0@, x.1 as nat),
                forall|j: int| p <= j < ov.len() ==> !spec_ranked_before(#[trigger] ov[j], xv),
            decreases p,
        {
            p = p - 1;
        }
        proof {
            lemma_insert_ranked_at(ov, xv, p as int);
        }
        out.insert(p, x);
        assert(spec_pair_views(out@) =~= ov.insert(p as int, xv));
        i = i + 1;
    }
    assert(pv.take(ps.len() as int) =~= pv);
    out
}

/// Write the ranked pairs as `"<count> <value>"` items joined by `", "`.
fn summary_text(ps: &Vec<(String, usize)>) -> (s: String)
    ensures
        s@ == spec_summary_text(spec_pair_views(ps@)),
{
    let ghost pv = spec_pair_views(ps@);
    let mut out = String::new();
    let mut i: usize = 0;
    assert(pv.take(0) =~= Seq::<(Seq<char>, nat)>::empty());
    while i < ps.len()
        invariant
            i <= ps@.len(),
            pv == spec_pair_views(ps@),
            out@ == spec_summary_text(pv.take(i as int)),
        decreases ps.len() - i,
    {
        let ghost t1 = pv.take(i + 1);
        assert(t1.drop_last() =~= pv.take(i as int));
        assert(t1.last() == pv[i as int]);
        if i > 0 {
            out.append(", ");
            proof {
                reveal_strlit(", ");
            }
        }
        crate::text::append_decimal(&mut out, ps[i].1 as u64);
        out.append(" ");
        proof {
            reveal_strlit(" ");
        }
        out.append(ps[i].0.as_str());
        proof {
            let item = crate::text::spec_decimal(pv[i as int].1) + seq![' '] + pv[i as int].0;
            if i == 0 {
                assert(out@ =~= item);
            } else {
                assert(out@ =~= spec_summary_text(pv.take(i as int)) + seq![',', ' '] + item);
            }
        }
        i = i + 1;
    }
    assert(pv.take(ps.len() as int) =~= pv);
    out
}

/// Summarize a cluster's states: for the first of `state`, `alert_level`,
/// `status`, `mode` that some member has, each value with how many members
/// have it, most frequent first (ties by value), such as `2 idle, 1 patrol`.
/// `None` for an empty cluster or one whose members have none of the keys.
pub fn generate_cluster_summary(entities: &Vec<StateValues>) -> (r: Option<String>)
    ensures
        match r {
            Some(s) => spec_cluster_summary(entities@) == Some(s@),
            None => spec_cluster_summary(entities@) is None,
        },
{
    if entities.len() == 0 {
        return None;
    }
    let mut k: usize = 0;
    while k < 4
        invariant
            k <= 4,
            entities@.len() > 0,
            spec_cluster_summary(entities@) == spec_summary_from(entities@, k as int),
        decreases 4 - k,
    {
        let vals = key_values(entities, k);
        if vals.len() > 0 {
            let counted = tally(&vals);
            let ranked = rank(counted);
            return Some(summary_text(&ranked));
        }
        k = k + 1;
    }
    None
}

} // verus!

verus! {

/// The label that group clustering gives an entity: its first group, or
/// `other` when it has none.
pub open spec fn spec_group_label(groups: Seq<Seq<char>>) -> Seq<char> {
    if groups.len() > 0 {
        groups[0]
    } else {
        "other"@
    }
}

/// The cluster label of an entity under group clustering.
pub fn group_label(groups: &Vec<String>) -> (l: String)
    ensures
        l@ == spec_group_label(spec_string_views(groups@)),
{
    if groups.len() > 0 {
        groups[0].clone()
    } else {
        String::from_str("other")
    }
}

/// The labels of the entities that are not static, in entity order.
pub open spec fn spec_dynamic_labels(labels: Seq<Seq<char>>, is_static: Seq<bool>) -> Seq<Seq<char>>
    decreases labels.len(),
{
    if labels.len() == 0 {
        Seq::empty()
    } else {
        let r = spec_dynamic_labels(labels.drop_last(), is_static);
        if is_static[labels.len() - 1] {
            r
        } else {
            r.push(labels.last())
        }
    }
}

/// The positions of the entities that are not static and carry `label`.
pub open spec fn spec_members(labels: Seq<Seq<char>>, is_static: Seq<bool>, label: Seq<char>) -> Seq<usize>
    decreases labels.len(),
{
    if labels.len() == 0 {
        Seq::empty()
    } else {
        let r = spec_members(labels.drop_last(), is_static, label);
        if !is_static[labels.len() - 1] && labels.last() == label {
            r.push((labels.len() - 1) as usize)
        } else {
            r
        }
    }
}

/// How many entities are static.
pub open spec fn spec_static_count(is_static: Seq<bool>) -> nat
    decreases is_static.len(),
{
    if is_static.len() == 0 {
        0
    } else {
        spec_static_count(is_static.drop_last()) + if is_static.last() { 1nat } else { 0nat }
    }
}

pub open spec fn spec_insert_lex(s: Seq<Seq<char>>, x: Seq<char>) -> Seq<Seq<char>>
    decreases s.len(),
{
    if s.len() == 0 {
        seq![x]
    } else if crate::text::spec_lex_lt(s.last(), x) {
        s.push(x)
    } else {
        spec_insert_lex(s.drop_last(), x).push(s.last())
    }
}

/// `s` in the order of strings (by insertion).
pub open spec fn spec_sort_lex(s: Seq<Seq<char>>) -> Seq<Seq<char>>
    decreases s.len(),
{
    if s.len() == 0 {
        Seq::empty()
    } else {
        spec_insert_lex(spec_sort_lex(s.drop_last()), s.last())
    }
}

/// The clusters of a labelled partition: the distinct labels of the
/// dynamic entities in string order, each with its members' positions.
pub open spec fn spec_partition(labels: Seq<Seq<char>>, is_static: Seq<bool>) -> Seq<(Seq<char>, Seq<usize>)> {
    spec_label_groups(spec_sort_lex(spec_distinct(spec_dynamic_labels(labels, is_static))), labels, is_static)
}

/// Each of `ls` with the positions of its members.
pub open spec fn spec_label_groups(ls: Seq<Seq<char>>, labels: Seq<Seq<char>>, is_static: Seq<bool>) -> Seq<(Seq<char>, Seq<usize>)> {
    ls.map_values(|l: Seq<char>| (l, spec_members(labels, is_static, l)))
}

/// One cluster of a partition: its label and its members' positions.
pub struct LabelGroup {
    pub label: String,
    pub members: Vec<usize>,
}

pub open spec fn spec_group_views(v: Seq<LabelGroup>) -> Seq<(Seq<char>, Seq<usize>)> {
    v.map_values(|g: LabelGroup| (g.label@, g.members@))
}

proof fn lemma_insert_lex_at(s: Seq<Seq<char>>, x: Seq<char>, p: int)
    requires
        0 <= p <= s.len(),
        forall|j: int| p <= j < s.len() ==> !crate::text::spec_lex_lt(#[trigger] s[j], x),
        p == 0 || crate::text::spec_lex_lt(s[p - 1], x),
    ensures
        spec_insert_lex(s, x) == s.insert(p, x),
    decreases s.len(),
{
    if s.len() == 0 {
        assert(s.insert(p, x) =~= seq![x]);
    } else if crate::text::spec_lex_lt(s.last(), x) {
        assert(p == s.len());
        assert(s.insert(p, x) =~= s.push(x));
    } else {
        let t = s.drop_last();
        if p > 0 {
            assert(t[p - 1] == s[p - 1]);
        }
        lemma_insert_lex_at(t, x, p);
        assert(t.insert(p, x).push(s.last()) =~= s.insert(p, x));
    }
}

fn members_of(labels: &Vec<String>, is_static: &Vec<bool>, label: &String) -> (r: Vec<usize>)
    requires
        labels@.len() == is_static@.len(),
    ensures
        r@ == spec_members(spec_string_views(labels@), is_static@, label@),
{
    let ghost lv = spec_string_views(labels@);
    let mut r: Vec<usize> = Vec::new();
    let mut i: usize = 0;
    assert(lv.take(0) =~= Seq::<Seq<char>>::empty());
    while i < labels.len()
        invariant
            i <= labels@.len(),
            labels@.len() == is_static@.len(),
            lv == spec_string_views(labels@),
            r@ == spec_members(lv.take(i as int), is_static@, label@),
        decreases labels.len() - i,
    {
        assert(lv.take(i + 1).drop_last() =~= lv.take(i as int));
        assert(lv.take(i + 1).last() == labels@[i as int]@);
        if !is_static[i] && labels[i] == *label {
            r.push(i);
        }
        i = i + 1;
    }
    assert(lv.take(labels.len() as int) =~= lv);
    r
}

/// Group the dynamic entities by label, in label order, and count the
/// static ones (which form their own `static_geometry` cluster).
pub fn partition_by_label(labels: &Vec<String>, is_static: &Vec<bool>) -> (r: (Vec<LabelGroup>, usize))
    requires
        labels@.len() == is_static@.len(),
    ensures
        spec_group_views(r.0@) == spec_partition(spec_string_views(labels@), is_static@),
        r.1 == spec_static_count(is_static@),
{
    let ghost lv = spec_string_views(labels@);
    // The dynamic labels, and the static count.
    let mut dynamic: Vec<String> = Vec::new();
    let mut statics: usize = 0;
    let mut i: usize = 0;
    assert(lv.take(0) =~= Seq::<Seq<char>>::empty());
    assert(is_static@.take(0) =~= Seq::<bool>::empty());
    while i < labels.len()
        invariant
            i <= labels@.len(),
            labels@.len() == is_static@.len(),
            lv == spec_string_views(labels@),
            spec_string_views(dynamic@) == spec_dynamic_labels(lv.take(i as int), is_static@),
            statics == spec_static_count(is_static@.take(i as int)),
            statics <= i,
        decreases labels.len() - i,
    {
        assert(lv.take(i + 1).drop_last() =~= lv.take(i as int));
        assert(is_static@.take(i + 1).drop_last() =~= is_static@.take(i as int));
        assert(lv.take(i + 1).last() == labels@[i as int]@);
        let ghost before = spec_string_views(dynamic@);
        if is_static[i] {
            statics = statics + 1;
        } else {
            dynamic.push(labels[i].clone());
            assert(spec_string_views(dynamic@) =~= before.push(labels@[i as int]@));
        }
        i = i + 1;
    }
    assert(lv.take(labels.len() as int) =~= lv);
    assert(is_static@.take(labels.len() as int) =~= is_static@);
    // The distinct dynamic labels, in order of first occurrence.
    let counted = tally(&dynamic);
    // Sorted by label.
    let ghost dv = spec_distinct(spec_string_views(dynamic@));
    assert(spec_pair_views(counted@).len() == dv.len());
    assert forall|j: int| 0 <= j < counted@.len() implies (#[trigger] counted@[j]).0@ == dv[j] by {
        assert(spec_pair_views(counted@)[j] == spec_tally(spec_string_views(dynamic@))[j]);
    }
    let mut sorted: Vec<String> = Vec::new();
    let mut k: usize = 0;
    assert(dv.take(0) =~= Seq::<Seq<char>>::empty());
    assert(spec_string_views(sorted@) =~= Seq::<Seq<char>>::empty());
    while k < counted.len()
        invariant
            k <= counted@.len(),
            counted@.len() == dv.len(),
            forall|j: int| 0 <= j < counted@.len() ==> (#[trigger] counted@[j]).0@ == dv[j],
            spec_string_views(sorted@) == spec_sort_lex(dv.take(k as int)),
        decreases counted.len() - k,
    {
        assert(dv.take(k + 1).drop_last() =~= dv.take(k as int));
        let x = counted[k].0.clone();
        assert(x@ == dv[k as int]);
        let ghost sv = spec_string_views(sorted@);
        let xc = crate::text::chars_of(x.as_str());
        let mut p: usize = sorted.len();
        while p > 0 && !crate::text::lex_less(&crate::text::chars_of(sorted[p - 1].as_str()), &xc)
            invariant
                p <= sorted@.len(),
                sv == spec_string_views(sorted@),
                xc@ == x@,
                forall|j: int| p <= j < sv.len() ==> !crate::text::spec_lex_lt(#[trigger] sv[j], x@),
            decreases p,
        {
            p = p - 1;
        }
        proof {
            lemma_insert_lex_at(sv, x@, p as int);
        }
        sorted.insert(p, x);
        assert(spec_string_views(sorted@) =~= sv.insert(p as int, dv[k as int]));
        k = k + 1;
    }
    assert(dv.take(counted.len() as int) =~= dv);
    // Each label with its members.
    let ghost sl = spec_string_views(sorted@);
    let mut groups: Vec<LabelGroup> = Vec::new();
    let mut g: usize = 0;
    while g < sorted.len()
        invariant
            g <= sorted@.len(),
            labels@.len() == is_static@.len(),
            sl == spec_string_views(sorted@),
            lv == spec_string_views(labels@),
            spec_group_views(groups@) == spec_label_groups(sl.take(g as int), lv, is_static@),
        decreases sorted.len() - g,
    {
        let members = members_of(labels, is_static, &sorted[g]);
        let ghost before = spec_group_views(groups@);
        groups.push(LabelGroup { label: sorted[g].clone(), members });
        assert(spec_label_groups(sl.take(g + 1), lv, is_static@) =~= spec_label_groups(
            sl.take(g as int),
            lv,
            is_static@,
        ).push((sl[g as int], spec_members(lv, is_static@, sl[g as int]))));
        assert(spec_group_views(groups@) =~= before.push(
            (sl[g as int], spec_members(lv, is_static@, sl[g as int])),
        ));
        g = g + 1;
    }
    assert(sl.take(sorted.len() as int) =~= sl);
    (groups, statics)
}

} // verus!

verus! {

proof fn lemma_members_exact(labels: Seq<Seq<char>>, is_static: Seq<bool>, l: Seq<char>, i: usize)
    requires
        labels.len() <= is_static.len(),
        labels.len() <= usize::MAX,
    ensures
        spec_members(labels, is_static, l).contains(i) <==> (i < labels.len() && !is_static[i as int]
            && labels[i as int] == l),
    decreases labels.len(),
{
    if labels.len() > 0 {
        let t = labels.drop_last();
        lemma_members_exact(t, is_static, l, i);
        let r = spec_members(t, is_static, l);
        let n = labels.len() - 1;
        lemma_members_bound(t, is_static, l);
        if i < t.len() {
            assert(t[i as int] == labels[i as int]);
        }
        if !is_static[n] && labels.last() == l {
            let q = r.push(n as usize);
            assert(spec_members(labels, is_static, l) == q);
            if q.contains(i) && !r.contains(i) {
                let k = choose|k: int| 0 <= k < q.len() && q[k] == i;
                assert(k == r.len());
            }
            if r.contains(i) {
                let k = choose|k: int| 0 <= k < r.len() && r[k] == i;
                assert(q[k] == i);
            }
            if i == n {
                assert(q[r.len() as int] == i);
            }
        } else {
            assert(spec_members(labels, is_static, l) == r);
            if r.contains(i) {
                let k = choose|k: int| 0 <= k < r.len() && r[k] == i;
                assert(r[k] < t.len());
            }
        }
    }
}

proof fn lemma_members_bound(labels: Seq<Seq<char>>, is_static: Seq<bool>, l: Seq<char>)
    requires
        labels.len() <= usize::MAX,
    ensures
        forall|k: int| 0 <= k < spec_members(labels, is_static, l).len() ==> #[trigger] spec_members(
            labels,
            is_static,
            l,
        )[k] < labels.len(),
    decreases labels.len(),
{
    if labels.len() > 0 {
        let t = labels.drop_last();
        lemma_members_bound(t, is_static, l);
        let r = spec_members(t, is_static, l);
        let m = spec_members(labels, is_static, l);
        assert forall|k: int| 0 <= k < m.len() implies #[trigger] m[k] < labels.len() by {
            if k < r.len() {
                assert(m[k] == r[k]);
            }
        }
    }
}

proof fn lemma_dynamic_label_listed(labels: Seq<Seq<char>>, is_static: Seq<bool>, i: int)
    requires
        labels.len() <= is_static.len(),
        0 <= i < labels.len(),
        !is_static[i],
    ensures
        spec_dynamic_labels(labels, is_static).contains(labels[i]),
    decreases labels.len(),
{
    let r = spec_dynamic_labels(labels.drop_last(), is_static);
    if i == labels.len() - 1 {
        assert(spec_dynamic_labels(labels, is_static) == r.push(labels[i]));
        assert(r.push(labels[i])[r.len() as int] == labels[i]);
    } else {
        lemma_dynamic_label_listed(labels.drop_last(), is_static, i);
        assert(labels.drop_last()[i] == labels[i]);
        let k = choose|k: int| 0 <= k < r.len() && r[k] == labels[i];
        if !is_static[labels.len() - 1] {
            assert(r.push(labels.last())[k] == labels[i]);
        }
    }
}

proof fn lemma_sort_lex_members(s: Seq<Seq<char>>, x: Seq<char>)
    requires
        s.contains(x),
    ensures
        spec_sort_lex(s).contains(x),
    decreases s.len(),
{
    let t = s.drop_last();
    let q = spec_sort_lex(t);
    if t.contains(x) {
        lemma_sort_lex_members(t, x);
        lemma_insert_lex_keeps(q, s.last(), x);
    } else {
        let k = choose|k: int| 0 <= k < s.len() && s[k] == x;
        if k < t.len() {
            assert(t[k] == x);
        }
        assert(x == s.last());
        lemma_insert_lex_keeps(q, s.last(), x);
    }
}

proof fn lemma_insert_lex_keeps(s: Seq<Seq<char>>, y: Seq<char>, x: Seq<char>)
    requires
        s.contains(x) || x == y,
    ensures
        spec_insert_lex(s, y).contains(x),
    decreases s.len(),
{
    let r = spec_insert_lex(s, y);
    if s.len() == 0 {
        assert(r[0] == x);
    } else if crate::text::spec_lex_lt(s.last(), y) {
        if x == y {
            assert(r[s.len() as int] == x);
        } else {
            let k = choose|k: int| 0 <= k < s.len() && s[k] == x;
            assert(r[k] == x);
        }
    } else {
        let t = s.drop_last();
        if x == s.last() && !t.contains(x) && x != y {
            assert(r[r.len() - 1] == x);
        } else {
            if s.contains(x) && x != y && x != s.last() {
                let k = choose|k: int| 0 <= k < s.len() && s[k] == x;
                assert(k < t.len());
                assert(t[k] == x);
            }
            if x == s.last() && x != y && !t.contains(x) {
            } else if x == s.last() && x != y {
            } else {
                lemma_insert_lex_keeps(t, y, x);
                let q = spec_insert_lex(t, y);
                let k = choose|k: int| 0 <= k < q.len() && q[k] == x;
                assert(r[k] == x);
            }
            if x == s.last() && x != y && t.contains(x) {
                lemma_insert_lex_keeps(t, y, x);
                let q = spec_insert_lex(t, y);
                let k = choose|k: int| 0 <= k < q.len() && q[k] == x;
                assert(r[k] == x);
            }
        }
    }
}

/// Every entity that is not static belongs to the cluster of its label:
/// group clustering loses no dynamic entity, and a position is a member of
/// a label's cluster exactly when that entity is dynamic and has that label.
pub proof fn lemma_partition_covers(labels: Seq<Seq<char>>, is_static: Seq<bool>, i: int)
    requires
        labels.len() == is_static.len(),
        labels.len() <= usize::MAX,
        0 <= i < labels.len(),
        !is_static[i],
    ensures
        exists|g: int|
            0 <= g < spec_partition(labels, is_static).len() && (#[trigger] spec_partition(
                labels,
                is_static,
            )[g]).0 == labels[i] && spec_partition(labels, is_static)[g].1.contains(i as usize),
        forall|l: Seq<char>, j: usize|
            #![trigger spec_members(labels, is_static, l).contains(j)]
            spec_members(labels, is_static, l).contains(j) <==> (j < labels.len() && !is_static[j as int]
                && labels[j as int] == l),
{
    let dl = spec_dynamic_labels(labels, is_static);
    lemma_dynamic_label_listed(labels, is_static, i);
    lemma_distinct_members(dl);
    assert(spec_distinct(dl).contains(labels[i]));
    lemma_sort_lex_members(spec_distinct(dl), labels[i]);
    let sorted = spec_sort_lex(spec_distinct(dl));
    let g = choose|g: int| 0 <= g < sorted.len() && sorted[g] == labels[i];
    lemma_members_exact(labels, is_static, labels[i], i as usize);
    let p = spec_partition(labels, is_static);
    assert(p[g] == (sorted[g], spec_members(labels, is_static, sorted[g])));
    assert forall|l: Seq<char>, j: usize|
        #![trigger spec_members(labels, is_static, l).contains(j)]
        spec_members(labels, is_static, l).contains(j) <==> (j < labels.len() && !is_static[j as int]
            && labels[j as int] == l) by {
        lemma_members_exact(labels, is_static, l, j);
    }
}

} // verus!
