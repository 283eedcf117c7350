use vstd::prelude::*;

use crate::cluster::ClusterStrategy;
use crate::text::{
    chars_of, lex_less, lemma_lex_transitive, lemma_lex_trichotomy, spec_lex_lt, spec_split,
    spec_views, split_chars, str_eq,
};

verus! {

/// Bearing output format preference.
#[derive(Debug, Clone, Copy, PartialEq, Eq, Structural)]
pub enum BearingFormat {
    Cardinal,
    Degrees,
    Both,
}

impl Default for BearingFormat {
    fn default() -> (f: Self)
        ensures
            f == BearingFormat::Both,
    {
        BearingFormat::Both
    }
}

/// The characters of each string in a sequence.
pub open spec fn spec_strings(v: Seq<String>) -> Seq<Seq<char>> {
    v.map_values(|s: String| s@)
}

/// A copy of a vector of strings, element for element.
pub fn clone_strings(v: &Vec<String>) -> (r: Vec<String>)
    ensures
        r@ == v@,
{
    let mut r: Vec<String> = Vec::new();
    let mut i: usize = 0;
    while i < v.len()
        invariant
            i <= v.len(),
            r@ == v@.take(i as int),
        decreases v.len() - i,
    {
        r.push(v[i].clone());
        assert(r@ =~= v@.take(i + 1));
        i = i + 1;
    }
    assert(v@.take(v.len() as int) =~= v@);
    r
}

/// The map that an association list denotes (its keys are distinct).
pub open spec fn spec_entries_map(entries: Seq<(String, Vec<String>)>) -> Map<Seq<char>, Seq<Seq<char>>>
    decreases entries.len(),
{
    if entries.len() == 0 {
        Map::empty()
    } else {
        spec_entries_map(entries.drop_last()).insert(
            entries.last().0@,
            spec_strings(entries.last().1@),
        )
    }
}

/// No key occurs twice.
pub open spec fn spec_keys_distinct(entries: Seq<(String, Vec<String>)>) -> bool {
    forall|i: int, j: int|
        0 <= i < entries.len() && 0 <= j < entries.len() && i != j ==> entries[i].0@ != entries[j].0@
}

proof fn lemma_entries_map_lookup(entries: Seq<(String, Vec<String>)>, k: Seq<char>)
    requires
        spec_keys_distinct(entries),
    ensures
        spec_entries_map(entries).contains_key(k) <==> exists|i: int|
            0 <= i < entries.len() && #[trigger] entries[i].0@ == k,
        forall|i: int|
            0 <= i < entries.len() && #[trigger] entries[i].0@ == k ==> spec_entries_map(entries)[k]
                == spec_strings(entries[i].1@),
    decreases entries.len(),
{
    if entries.len() > 0 {
        let init = entries.drop_last();
        let last = entries.len() - 1;
        assert(spec_keys_distinct(init));
        lemma_entries_map_lookup(init, k);
        if k == entries[last].0@ {
            assert(spec_entries_map(entries).contains_key(k));
        } else {
            if spec_entries_map(entries).contains_key(k) {
                let i = choose|i: int| 0 <= i < init.len() && #[trigger] init[i].0@ == k;
                assert(entries[i].0@ == k);
            }
            if exists|i: int| 0 <= i < entries.len() && #[trigger] entries[i].0@ == k {
                let i = choose|i: int| 0 <= i < entries.len() && #[trigger] entries[i].0@ == k;
                assert(init[i].0@ == k);
            }
        }
        assert forall|i: int| 0 <= i < entries.len() && #[trigger] entries[i].0@ == k implies spec_entries_map(
            entries,
        )[k] == spec_strings(entries[i].1@) by {
            if i < last {
                assert(init[i].0@ == k);
            }
        }
    }
}

/// Per-key property lists, keyed by group name, class name or `"*"`.
pub struct PropertyRules {
    entries: Vec<(String, Vec<String>)>,
}

impl View for PropertyRules {
    type V = Map<Seq<char>, Seq<Seq<char>>>;

    closed spec fn view(&self) -> Map<Seq<char>, Seq<Seq<char>>> {
        spec_entries_map(self.entries@)
    }
}

impl PropertyRules {
    #[verifier::type_invariant]
    spec fn keys_distinct(self) -> bool {
        spec_keys_distinct(self.entries@)
    }

    /// No rules.
    pub fn new() -> (r: Self)
        ensures
            r@ == Map::<Seq<char>, Seq<Seq<char>>>::empty(),
    {
        PropertyRules { entries: Vec::new() }
    }

    /// Whether no key has rules.
    pub fn is_empty(&self) -> (b: bool)
        ensures
            b == (self@ == Map::<Seq<char>, Seq<Seq<char>>>::empty()),
    {
        proof {
            use_type_invariant(self);
        }
        if self.entries.len() == 0 {
            assert(self@ =~= Map::<Seq<char>, Seq<Seq<char>>>::empty());
            true
        } else {
            let ghost k = self.entries@.last().0@;
            assert(self@.contains_key(k));
            false
        }
    }

    /// Index of `key` in the association list, if present.
    fn position(&self, key: &str) -> (r: Option<usize>)
        ensures
            match r {
                Some(i) => i < self.entries@.len() && self.entries@[i as int].0@ == key@,
                None => forall|i: int| 0 <= i < self.entries@.len() ==> self.entries@[i].0@ != key@,
            },
    {
        let mut i: usize = 0;
        while i < self.entries.len()
            invariant
                i <= self.entries@.len(),
                forall|j: int| 0 <= j < i ==> self.entries@[j].0@ != key@,
            decreases self.entries.len() - i,
        {
            if str_eq(self.entries[i].0.as_str(), key) {
                return Some(i);
            }
            i = i + 1;
        }
        None
    }

    /// The properties listed for `key`, if any.
    pub fn get(&self, key: &str) -> (r: Option<&Vec<String>>)
        ensures
            match r {
                Some(v) => self@.contains_key(key@) && self@[key@] == spec_strings(v@),
                None => !self@.contains_key(key@),
            },
    {
        proof {
            use_type_invariant(self);
            lemma_entries_map_lookup(self.entries@, key@);
        }
        match self.position(key) {
            Some(i) => Some(&self.entries[i].1),
            None => None,
        }
    }

    /// Set the properties for `key`, replacing any earlier list.
    pub fn insert(&mut self, key: String, value: Vec<String>)
        ensures
            final(self)@ == old(self)@.insert(key@, spec_strings(value@)),
    {
        proof {
            use_type_invariant(&*self);
        }
        let ghost old_entries = self.entries@;
        let pos = self.position(key.as_str());
        match pos {
            Some(i) => {
                let mut entries: Vec<(String, Vec<String>)> = Vec::new();
                std::mem::swap(&mut entries, &mut self.entries);
                let ghost taken = entries@;
                entries.set(i, (key, value));
                proof {
                    assert(spec_keys_distinct(entries@));
                    assert forall|k: Seq<char>|
                        spec_entries_map(entries@).contains_key(k) == spec_entries_map(taken).insert(
                            key@,
                            spec_strings(value@),
                        ).contains_key(k) by {
                        lemma_entries_map_lookup(entries@, k);
                        lemma_entries_map_lookup(taken, k);
                        if k != key@ {
                            if exists|j: int| 0 <= j < taken.len() && #[trigger] taken[j].0@ == k {
                                let j = choose|j: int| 0 <= j < taken.len() && #[trigger] taken[j].0@ == k;
                                assert(entries@[j].0@ == k);
                            }
                            if exists|j: int| 0 <= j < entries@.len() && #[trigger] entries@[j].0@ == k {
                                let j = choose|j: int| 0 <= j < entries@.len() && #[trigger] entries@[j].0@ == k;
                                assert(taken[j].0@ == k);
                            }
                        } else {
                            assert(entries@[i as int].0@ == k);
                        }
                    }
                    assert forall|k: Seq<char>|
                        #[trigger] spec_entries_map(entries@).contains_key(k) implies spec_entries_map(
                        entries@,
                    )[k] == spec_entries_map(taken).insert(key@, spec_strings(value@))[k] by {
                        lemma_entries_map_lookup(entries@, k);
                        lemma_entries_map_lookup(taken, k);
                        let j = choose|j: int| 0 <= j < entries@.len() && #[trigger] entries@[j].0@ == k;
                        if k != key@ {
                            assert(taken[j].0@ == k);
                        } else {
                            assert(entries@[i as int].0@ == k);
                        }
                    }
                    assert(spec_entries_map(entries@) =~= spec_entries_map(taken).insert(
                        key@,
                        spec_strings(value@),
                    ));
                }
                self.entries = entries;
            },
            None => {
                let mut entries: Vec<(String, Vec<String>)> = Vec::new();
                std::mem::swap(&mut entries, &mut self.entries);
                entries.push((key, value));
                proof {
                    assert(entries@.drop_last() =~= old_entries);
                }
                self.entries = entries;
            },
        }
    }

    /// A copy of these rules.
    pub fn duplicate(&self) -> (r: Self)
        ensures
            r@ == self@,
    {
        proof {
            use_type_invariant(self);
        }
        let mut entries: Vec<(String, Vec<String>)> = Vec::new();
        let mut i: usize = 0;
        while i < self.entries.len()
            invariant
                i <= self.entries@.len(),
                entries@.len() == i,
                forall|j: int|
                    0 <= j < i ==> #[trigger] entries@[j].0@ == self.entries@[j].0@ && entries@[j].1@
                        == self.entries@[j].1@,
            decreases self.entries.len() - i,
        {
            let k = self.entries[i].0.clone();
            let v = clone_strings(&self.entries[i].1);
            entries.push((k, v));
            i = i + 1;
        }
        proof {
            lemma_same_keys_same_map(entries@, self.entries@);
        }
        PropertyRules { entries }
    }
}

proof fn lemma_same_keys_same_map(a: Seq<(String, Vec<String>)>, b: Seq<(String, Vec<String>)>)
    requires
        a.len() == b.len(),
        forall|j: int| 0 <= j < a.len() ==> #[trigger] a[j].0@ == b[j].0@ && a[j].1@ == b[j].1@,
    ensures
        spec_entries_map(a) == spec_entries_map(b),
        spec_keys_distinct(b) ==> spec_keys_distinct(a),
    decreases a.len(),
{
    if a.len() > 0 {
        lemma_same_keys_same_map(a.drop_last(), b.drop_last());
        assert(a.last().0@ == b.last().0@);
        assert(a.last().1@ == b.last().1@);
    }
    if spec_keys_distinct(b) {
        assert forall|i: int, j: int|
            0 <= i < a.len() && 0 <= j < a.len() && i != j implies a[i].0@ != a[j].0@ by {
            assert(a[i].0@ == b[i].0@);
            assert(a[j].0@ == b[j].0@);
        }
    }
}

} // verus!

verus! {

pub fn default_poll_interval() -> (v: u32)
    ensures
        v == 1,
{
    1
}

pub fn default_token_hard_cap() -> (v: u32)
    ensures
        v == 5000,
{
    5000
}

pub fn default_dashcam_enabled() -> (v: bool)
    ensures
        v,
{
    true
}

pub fn default_dashcam_capture_interval() -> (v: u32)
    ensures
        v == 1,
{
    1
}

pub fn default_pre_window_system() -> (v: u32)
    ensures
        v == 30,
{
    30
}

pub fn default_pre_window_deliberate() -> (v: u32)
    ensures
        v == 60,
{
    60
}

pub fn default_post_window_system() -> (v: u32)
    ensures
        v == 10,
{
    10
}

pub fn default_post_window_deliberate() -> (v: u32)
    ensures
        v == 30,
{
    30
}

pub fn default_max_window() -> (v: u32)
    ensures
        v == 120,
{
    120
}

pub fn default_min_after() -> (v: u32)
    ensures
        v == 5,
{
    5
}

pub fn default_system_min_interval() -> (v: u32)
    ensures
        v == 2,
{
    2
}

pub fn default_byte_cap_mb() -> (v: u32)
    ensures
        v == 1024,
{
    1024
}

/// Active session configuration.
///
/// Three sources with precedence: spatial_config (session) > spectator.toml (project) >
/// Project Settings (machine). This struct holds the merged effective config.
pub struct SessionConfig {
    /// Glob patterns for static node classification.
    pub static_patterns: Vec<String>,
    /// Properties to include in state output, keyed by group name or class name.
    /// Key "*" applies to all nodes. No rules = include all exported vars (default).
    pub state_properties: PropertyRules,
    /// How to cluster nodes in summary views.
    pub cluster_by: ClusterStrategy,
    /// Bearing format preference.
    pub bearing_format: BearingFormat,
    /// Whether to include non-exported (internal) variables in state output.
    pub expose_internals: bool,
    /// Physics tick polling rate (every N physics frames). 1 = every frame.
    pub poll_interval: u32,
    /// Hard cap on token budget for any single response.
    pub token_hard_cap: u32,
    pub dashcam_enabled: bool,
    pub dashcam_capture_interval: u32,
    pub dashcam_pre_window_system_sec: u32,
    pub dashcam_pre_window_deliberate_sec: u32,
    pub dashcam_post_window_system_sec: u32,
    pub dashcam_post_window_deliberate_sec: u32,
    pub dashcam_max_window_sec: u32,
    pub dashcam_min_after_sec: u32,
    pub dashcam_system_min_interval_sec: u32,
    pub dashcam_byte_cap_mb: u32,
}

impl Default for SessionConfig {
    fn default() -> (c: Self)
        ensures
            c.static_patterns@.len() == 0,
            c.state_properties@ == Map::<Seq<char>, Seq<Seq<char>>>::empty(),
            c.cluster_by == ClusterStrategy::Group,
            c.bearing_format == BearingFormat::Both,
            !c.expose_internals,
            c.poll_interval == 1,
            c.token_hard_cap == 5000,
            c.dashcam_enabled,
            c.dashcam_capture_interval == 1,
            c.dashcam_pre_window_system_sec == 30,
            c.dashcam_pre_window_deliberate_sec == 60,
            c.dashcam_post_window_system_sec == 10,
            c.dashcam_post_window_deliberate_sec == 30,
            c.dashcam_max_window_sec == 120,
            c.dashcam_min_after_sec == 5,
            c.dashcam_system_min_interval_sec == 2,
            c.dashcam_byte_cap_mb == 1024,
    {
        Self {
            static_patterns: Vec::new(),
            state_properties: PropertyRules::new(),
            cluster_by: ClusterStrategy::default(),
            bearing_format: BearingFormat::default(),
            expose_internals: false,
            poll_interval: default_poll_interval(),
            token_hard_cap: default_token_hard_cap(),
            dashcam_enabled: default_dashcam_enabled(),
            dashcam_capture_interval: default_dashcam_capture_interval(),
            dashcam_pre_window_system_sec: default_pre_window_system(),
            dashcam_pre_window_deliberate_sec: default_pre_window_deliberate(),
            dashcam_post_window_system_sec: default_post_window_system(),
            dashcam_post_window_deliberate_sec: default_post_window_deliberate(),
            dashcam_max_window_sec: default_max_window(),
            dashcam_min_after_sec: default_min_after(),
            dashcam_system_min_interval_sec: default_system_min_interval(),
            dashcam_byte_cap_mb: default_byte_cap_mb(),
        }
    }
}

/// Partial config update — all fields optional.
pub struct ConfigUpdate {
    pub static_patterns: Option<Vec<String>>,
    pub state_properties: Option<PropertyRules>,
    pub cluster_by: Option<ClusterStrategy>,
    pub bearing_format: Option<BearingFormat>,
    pub expose_internals: Option<bool>,
    pub poll_interval: Option<u32>,
    pub token_hard_cap: Option<u32>,
    pub dashcam_enabled: Option<bool>,
    pub dashcam_capture_interval: Option<u32>,
    pub dashcam_pre_window_system_sec: Option<u32>,
    pub dashcam_pre_window_deliberate_sec: Option<u32>,
    pub dashcam_post_window_system_sec: Option<u32>,
    pub dashcam_post_window_deliberate_sec: Option<u32>,
    pub dashcam_max_window_sec: Option<u32>,
    pub dashcam_min_after_sec: Option<u32>,
    pub dashcam_system_min_interval_sec: Option<u32>,
    pub dashcam_byte_cap_mb: Option<u32>,
}

impl Default for ConfigUpdate {
    fn default() -> (u: Self)
        ensures
            u.static_patterns is None,
            u.state_properties is None,
            u.cluster_by is None,
            u.bearing_format is None,
            u.expose_internals is None,
            u.poll_interval is None,
            u.token_hard_cap is None,
            u.dashcam_enabled is None,
            u.dashcam_capture_interval is None,
            u.dashcam_pre_window_system_sec is None,
            u.dashcam_pre_window_deliberate_sec is None,
            u.dashcam_post_window_system_sec is None,
            u.dashcam_post_window_deliberate_sec is None,
            u.dashcam_max_window_sec is None,
            u.dashcam_min_after_sec is None,
            u.dashcam_system_min_interval_sec is None,
            u.dashcam_byte_cap_mb is None,
    {
        ConfigUpdate {
            static_patterns: None,
            state_properties: None,
            cluster_by: None,
            bearing_format: None,
            expose_internals: None,
            poll_interval: None,
            token_hard_cap: None,
            dashcam_enabled: None,
            dashcam_capture_interval: None,
            dashcam_pre_window_system_sec: None,
            dashcam_pre_window_deliberate_sec: None,
            dashcam_post_window_system_sec: None,
            dashcam_post_window_deliberate_sec: None,
            dashcam_max_window_sec: None,
            dashcam_min_after_sec: None,
            dashcam_system_min_interval_sec: None,
            dashcam_byte_cap_mb: None,
        }
    }
}

/// The value an optional override leaves: the override if present, else the current value.
pub open spec fn spec_override<T>(update: Option<T>, current: T) -> T {
    match update {
        Some(v) => v,
        None => current,
    }
}

/// The glob semantics over `/`-separated segments: `*` stands for exactly one
/// segment, except that a trailing `*` stands for one or more segments.
pub open spec fn spec_glob_parts(pat: Seq<Seq<char>>, path: Seq<Seq<char>>) -> bool
    decreases pat.len(),
{
    if pat.len() == 0 {
        path.len() == 0
    } else if path.len() == 0 {
        false
    } else if pat[0] == seq!['*'] {
        if pat.len() == 1 {
            true
        } else {
            spec_glob_parts(pat.drop_first(), path.drop_first())
        }
    } else if pat[0] == path[0] {
        spec_glob_parts(pat.drop_first(), path.drop_first())
    } else {
        false
    }
}

/// A pattern segment accepts a path segment: `*` accepts any segment,
/// another segment only itself.
pub open spec fn spec_segment_accepts(p: Seq<char>, q: Seq<char>) -> bool {
    p == seq!['*'] || p == q
}

/// Glob matching in closed form: either the pattern and the path have the
/// same number of segments and each pattern segment accepts the path segment
/// at its place; or the pattern ends in `*`, the path has at least as many
/// segments, each earlier pattern segment accepts the path segment at its
/// place, and the final `*` takes all remaining segments (at least one).
pub open spec fn spec_glob_closed_form(pat: Seq<Seq<char>>, path: Seq<Seq<char>>) -> bool {
    ||| (pat.len() == path.len() && forall|i: int|
        0 <= i < pat.len() ==> spec_segment_accepts(#[trigger] pat[i], path[i]))
    ||| (pat.len() >= 1 && pat.last() == seq!['*'] && path.len() >= pat.len() && forall|i: int|
        0 <= i < pat.len() - 1 ==> spec_segment_accepts(#[trigger] pat[i], path[i]))
}

/// What segment-wise glob matching decides, for every pattern and path: a
/// `*` that is not the last pattern segment stands for exactly one path
/// segment, only a final `*` takes the rest of the path, and every other
/// segment must equal the path segment at its place. So `walls/*/door`
/// matches `walls/foo/door` but not `walls/foo/window`, and `walls/*`
/// matches `walls/a/b`.
pub proof fn lemma_glob_closed_form(pat: Seq<Seq<char>>, path: Seq<Seq<char>>)
    ensures
        spec_glob_parts(pat, path) == spec_glob_closed_form(pat, path),
    decreases pat.len(),
{
    if pat.len() == 0 {
    } else if path.len() == 0 {
    } else if pat[0] == seq!['*'] && pat.len() == 1 {
        assert(pat.last() == seq!['*']);
    } else if pat[0] == seq!['*'] || pat[0] == path[0] {
        let p1 = pat.drop_first();
        let q1 = path.drop_first();
        lemma_glob_closed_form(p1, q1);
        assert(spec_segment_accepts(pat[0], path[0]));
        if spec_glob_closed_form(p1, q1) {
            if p1.len() == q1.len() && forall|i: int|
                0 <= i < p1.len() ==> spec_segment_accepts(#[trigger] p1[i], q1[i]) {
                assert forall|i: int| 0 <= i < pat.len() implies spec_segment_accepts(
                    #[trigger] pat[i],
                    path[i],
                ) by {
                    if i > 0 {
                        assert(pat[i] == p1[i - 1]);
                        assert(path[i] == q1[i - 1]);
                    }
                }
            } else {
                assert(p1.last() == pat.last());
                assert forall|i: int| 0 <= i < pat.len() - 1 implies spec_segment_accepts(
                    #[trigger] pat[i],
                    path[i],
                ) by {
                    if i > 0 {
                        assert(pat[i] == p1[i - 1]);
                        assert(path[i] == q1[i - 1]);
                    }
                }
            }
        } else {
            if pat.len() == path.len() && forall|i: int|
                0 <= i < pat.len() ==> spec_segment_accepts(#[trigger] pat[i], path[i]) {
                assert forall|i: int| 0 <= i < p1.len() implies spec_segment_accepts(
                    #[trigger] p1[i],
                    q1[i],
                ) by {
                    assert(spec_segment_accepts(pat[i + 1], path[i + 1]));
                }
                assert(false);
            }
            if pat.len() >= 1 && pat.last() == seq!['*'] && path.len() >= pat.len() && forall|i: int|
                0 <= i < pat.len() - 1 ==> spec_segment_accepts(#[trigger] pat[i], path[i]) {
                assert(p1.last() == pat.last());
                assert forall|i: int| 0 <= i < p1.len() - 1 implies spec_segment_accepts(
                    #[trigger] p1[i],
                    q1[i],
                ) by {
                    assert(spec_segment_accepts(pat[i + 1], path[i + 1]));
                }
                assert(false);
            }
        }
    } else {
        assert(!spec_segment_accepts(pat[0], path[0]));
        if pat.len() == 1 {
            assert(pat.last() == pat[0]);
        }
    }
}

/// Whether a node path matches a static pattern.
pub open spec fn spec_glob_match(pattern: Seq<char>, path: Seq<char>) -> bool {
    spec_glob_parts(spec_split(pattern, '/'), spec_split(path, '/'))
}

fn is_star(p: &Vec<char>) -> (b: bool)
    ensures
        b == (p@ == seq!['*']),
{
    if p.len() == 1 && p[0] == '*' {
        assert(p@ =~= seq!['*']);
        true
    } else {
        false
    }
}

fn same_chars(a: &Vec<char>, b: &Vec<char>) -> (r: bool)
    ensures
        r == (a@ == b@),
{
    if a.len() != b.len() {
        return false;
    }
    let mut i: usize = 0;
    while i < a.len()
        invariant
            a.len() == b.len(),
            i <= a.len(),
            forall|j: int| 0 <= j < i ==> a@[j] == b@[j],
        decreases a.len() - i,
    {
        if a[i] != b[i] {
            return false;
        }
        i = i + 1;
    }
    assert(a@ =~= b@);
    true
}

/// Simple glob matching for static patterns.
/// Supports: "walls/*" matches "walls/anything", "*" matches everything,
/// "walls/*/door" matches "walls/foo/door".
pub fn glob_match(pattern: &str, path: &str) -> (b: bool)
    ensures
        b == spec_glob_match(pattern@, path@),
{
    let pat_parts = split_chars(&chars_of(pattern), '/');
    let path_parts = split_chars(&chars_of(path), '/');
    glob_match_parts(&pat_parts, &path_parts)
}

/// Segment-wise glob matching.
pub fn glob_match_parts(pattern: &Vec<Vec<char>>, path: &Vec<Vec<char>>) -> (b: bool)
    ensures
        b == spec_glob_parts(spec_views(pattern@), spec_views(path@)),
        b == spec_glob_closed_form(spec_views(pattern@), spec_views(path@)),
{
    proof {
        lemma_glob_closed_form(spec_views(pattern@), spec_views(path@));
    }
    let mut i: usize = 0;
    assert(spec_views(pattern@).skip(0) =~= spec_views(pattern@));
    assert(spec_views(path@).skip(0) =~= spec_views(path@));
    while i < pattern.len()
        invariant
            i <= pattern.len(),
            i <= path.len(),
            spec_glob_parts(spec_views(pattern@), spec_views(path@)) == spec_glob_parts(
                spec_views(pattern@).skip(i as int),
                spec_views(path@).skip(i as int),
            ),
            spec_glob_parts(spec_views(pattern@), spec_views(path@)) == spec_glob_closed_form(
                spec_views(pattern@),
                spec_views(path@),
            ),
        decreases pattern.len() - i,
    {
        let ghost pv = spec_views(pattern@).skip(i as int);
        let ghost qv = spec_views(path@).skip(i as int);
        assert(pv.drop_first() =~= spec_views(pattern@).skip(i + 1));
        if i == path.len() {
            return false;
        }
        assert(qv.drop_first() =~= spec_views(path@).skip(i + 1));
        assert(pv[0] == pattern@[i as int]@);
        assert(qv[0] == path@[i as int]@);
        if is_star(&pattern[i]) {
            if i + 1 == pattern.len() {
                return true;
            }
        } else if !same_chars(&pattern[i], &path[i]) {
            return false;
        }
        i = i + 1;
    }
    assert(spec_views(pattern@).skip(i as int).len() == 0);
    i == path.len()
}

/// A property is selected for a node when a rule for one of its groups, for
/// its class, or for `"*"` lists it.
pub open spec fn spec_selects(
    rules: Map<Seq<char>, Seq<Seq<char>>>,
    groups: Seq<Seq<char>>,
    class: Seq<char>,
    p: Seq<char>,
) -> bool {
    ||| exists|i: int|
        0 <= i < groups.len() && rules.contains_key(#[trigger] groups[i]) && rules[groups[i]].contains(p)
    ||| rules.contains_key(class) && rules[class].contains(p)
    ||| rules.contains_key("*"@) && rules["*"@].contains(p)
}

/// Some rule applies to a node with these groups and class.
pub open spec fn spec_any_rule(rules: Map<Seq<char>, Seq<Seq<char>>>, groups: Seq<Seq<char>>, class: Seq<char>) -> bool {
    ||| exists|i: int| 0 <= i < groups.len() && rules.contains_key(#[trigger] groups[i])
    ||| rules.contains_key(class)
    ||| rules.contains_key("*"@)
}

/// Strictly increasing in the order of strings (hence free of duplicates).
pub open spec fn spec_strictly_sorted(v: Seq<Seq<char>>) -> bool {
    forall|i: int, j: int| 0 <= i < j < v.len() ==> spec_lex_lt(v[i], v[j])
}

/// Add `x` to a strictly sorted list unless it is already there.
fn insert_sorted_unique(v: &mut Vec<String>, x: &String)
    requires
        spec_strictly_sorted(spec_strings(old(v)@)),
    ensures
        spec_strictly_sorted(spec_strings(final(v)@)),
        forall|p: Seq<char>|
            #![trigger spec_strings(final(v)@).contains(p)]
            spec_strings(final(v)@).contains(p) <==> (spec_strings(old(v)@).contains(p) || p == x@),
{
    let xc = chars_of(x.as_str());
    let mut i: usize = 0;
    loop
        invariant
            i <= v.len(),
            v@ == old(v)@,
            xc@ == x@,
            spec_strictly_sorted(spec_strings(v@)),
            forall|j: int| 0 <= j < i ==> spec_lex_lt(#[trigger] v@[j]@, x@),
        ensures
            i <= v.len(),
            v@ == old(v)@,
            forall|j: int| 0 <= j < i ==> spec_lex_lt(#[trigger] v@[j]@, x@),
            i < v.len() ==> spec_lex_lt(x@, v@[i as int]@),
        decreases v.len() - i,
    {
        if i == v.len() {
            break;
        }
        let vc = chars_of(v[i].as_str());
        if !lex_less(&vc, &xc) {
            if !lex_less(&xc, &vc) {
                proof {
                    lemma_lex_trichotomy(vc@, xc@);
                    assert(spec_strings(v@)[i as int] == x@);
                    assert forall|p: Seq<char>|
                        spec_strings(v@).contains(p) <==> (spec_strings(old(v)@).contains(p) || p == x@) by {
                        if p == x@ {
                            assert(spec_strings(v@)[i as int] == p);
                        }
                    }
                }
                return;
            }
            break;
        }
        i = i + 1;
    }
    let ghost before = spec_strings(v@);
    v.insert(i, x.clone());
    proof {
        let after = spec_strings(v@);
        assert(after =~= before.insert(i as int, x@));
        assert forall|a: int, b: int| 0 <= a < b < after.len() implies spec_lex_lt(after[a], after[b]) by {
            if b < i {
            } else if b == i {
                assert(after[a] == before[a]);
            } else if a < i {
                // before[a] < x < before[i] <= before[b - 1]
                if b - 1 > i {
                    lemma_lex_transitive(x@, before[i as int], before[b - 1]);
                }
                lemma_lex_transitive(before[a], x@, before[b - 1]);
            } else if a == i {
                if b - 1 > i {
                    lemma_lex_transitive(x@, before[i as int], before[b - 1]);
                }
            } else {
                assert(after[a] == before[a - 1]);
                assert(after[b] == before[b - 1]);
            }
        }
        assert forall|p: Seq<char>| after.contains(p) <==> (before.contains(p) || p == x@) by {
            if before.contains(p) {
                let k = choose|k: int| 0 <= k < before.len() && before[k] == p;
                if k < i {
                    assert(after[k] == p);
                } else {
                    assert(after[k + 1] == p);
                }
            }
            if p == x@ {
                assert(after[i as int] == p);
            }
            if after.contains(p) {
                let k = choose|k: int| 0 <= k < after.len() && after[k] == p;
                if k < i {
                    assert(before[k] == p);
                } else if k > i {
                    assert(before[k - 1] == p);
                }
            }
        }
    }
}

/// The override if present, else the current value.
fn pick<T: Copy>(update: Option<T>, current: T) -> (v: T)
    ensures
        v == spec_override(update, current),
{
    match update {
        Some(v) => v,
        None => current,
    }
}

impl SessionConfig {
    /// Merge a partial config update into this config.
    /// Only fields present in the update are overwritten.
    pub fn apply_update(&mut self, update: &ConfigUpdate)
        ensures
            final(self).static_patterns@ == (match update.static_patterns {
                Some(v) => v@,
                None => old(self).static_patterns@,
            }),
            final(self).state_properties@ == (match update.state_properties {
                Some(r) => r@,
                None => old(self).state_properties@,
            }),
            final(self).cluster_by == spec_override(update.cluster_by, old(self).cluster_by),
            final(self).bearing_format == spec_override(update.bearing_format, old(self).bearing_format),
            final(self).expose_internals == spec_override(update.expose_internals, old(self).expose_internals),
            final(self).poll_interval == spec_override(update.poll_interval, old(self).poll_interval),
            final(self).token_hard_cap == spec_override(update.token_hard_cap, old(self).token_hard_cap),
            final(self).dashcam_enabled == spec_override(update.dashcam_enabled, old(self).dashcam_enabled),
            final(self).dashcam_capture_interval == spec_override(
                update.dashcam_capture_interval,
                old(self).dashcam_capture_interval,
            ),
            final(self).dashcam_pre_window_system_sec == spec_override(
                update.dashcam_pre_window_system_sec,
                old(self).dashcam_pre_window_system_sec,
            ),
            final(self).dashcam_pre_window_deliberate_sec == spec_override(
                update.dashcam_pre_window_deliberate_sec,
                old(self).dashcam_pre_window_deliberate_sec,
            ),
            final(self).dashcam_post_window_system_sec == spec_override(
                update.dashcam_post_window_system_sec,
                old(self).dashcam_post_window_system_sec,
            ),
            final(self).dashcam_post_window_deliberate_sec == spec_override(
                update.dashcam_post_window_deliberate_sec,
                old(self).dashcam_post_window_deliberate_sec,
            ),
            final(self).dashcam_max_window_sec == spec_override(
                update.dashcam_max_window_sec,
                old(self).dashcam_max_window_sec,
            ),
            final(self).dashcam_min_after_sec == spec_override(
                update.dashcam_min_after_sec,
                old(self).dashcam_min_after_sec,
            ),
            final(self).dashcam_system_min_interval_sec == spec_override(
                update.dashcam_system_min_interval_sec,
                old(self).dashcam_system_min_interval_sec,
            ),
            final(self).dashcam_byte_cap_mb == spec_override(
                update.dashcam_byte_cap_mb,
                old(self).dashcam_byte_cap_mb,
            ),
    {
        if let Some(ref v) = update.static_patterns {
            self.static_patterns = clone_strings(v);
        }
        if let Some(ref v) = update.state_properties {
            self.state_properties = v.duplicate();
        }
        self.cluster_by = pick(update.cluster_by, self.cluster_by);
        self.bearing_format = pick(update.bearing_format, self.bearing_format);
        self.expose_internals = pick(update.expose_internals, self.expose_internals);
        self.poll_interval = pick(update.poll_interval, self.poll_interval);
        self.token_hard_cap = pick(update.token_hard_cap, self.token_hard_cap);
        self.dashcam_enabled = pick(update.dashcam_enabled, self.dashcam_enabled);
        self.dashcam_capture_interval = pick(update.dashcam_capture_interval, self.dashcam_capture_interval);
        self.dashcam_pre_window_system_sec = pick(update.dashcam_pre_window_system_sec, self.dashcam_pre_window_system_sec);
        self.dashcam_pre_window_deliberate_sec = pick(update.dashcam_pre_window_deliberate_sec, self.dashcam_pre_window_deliberate_sec);
        self.dashcam_post_window_system_sec = pick(update.dashcam_post_window_system_sec, self.dashcam_post_window_system_sec);
        self.dashcam_post_window_deliberate_sec = pick(update.dashcam_post_window_deliberate_sec, self.dashcam_post_window_deliberate_sec);
        self.dashcam_max_window_sec = pick(update.dashcam_max_window_sec, self.dashcam_max_window_sec);
        self.dashcam_min_after_sec = pick(update.dashcam_min_after_sec, self.dashcam_min_after_sec);
        self.dashcam_system_min_interval_sec = pick(update.dashcam_system_min_interval_sec, self.dashcam_system_min_interval_sec);
        self.dashcam_byte_cap_mb = pick(update.dashcam_byte_cap_mb, self.dashcam_byte_cap_mb);
    }

    /// Check if a node path matches any static pattern (glob-style).
    pub fn matches_static_pattern(&self, path: &str) -> (b: bool)
        ensures
            b == exists|i: int|
                0 <= i < self.static_patterns@.len() && #[trigger] spec_glob_match(
                    self.static_patterns@[i]@,
                    path@,
                ),
    {
        let mut i: usize = 0;
        while i < self.static_patterns.len()
            invariant
                i <= self.static_patterns@.len(),
                forall|j: int| 0 <= j < i ==> !#[trigger] spec_glob_match(self.static_patterns@[j]@, path@),
            decreases self.static_patterns.len() - i,
        {
            if glob_match(self.static_patterns[i].as_str(), path) {
                return true;
            }
            i = i + 1;
        }
        false
    }

    /// Filter state properties for a node based on its groups and class.
    /// Returns None if no filtering applies (include all exported vars);
    /// otherwise the selected properties, sorted and without duplicates.
    pub fn filter_state_properties(&self, groups: &[String], class: &str) -> (r: Option<Vec<String>>)
        ensures
            r is Some <==> spec_any_rule(self.state_properties@, spec_strings(groups@), class@),
            r matches Some(v) ==> spec_strictly_sorted(spec_strings(v@)) && forall|p: Seq<char>|
                #![trigger spec_strings(v@).contains(p)]
                spec_strings(v@).contains(p) <==> spec_selects(
                    self.state_properties@,
                    spec_strings(groups@),
                    class@,
                    p,
                ),
    {
        let rules = &self.state_properties;
        let ghost m = rules@;
        let ghost gs = spec_strings(groups@);
        if rules.is_empty() {
            return None;
        }
        let mut props: Vec<String> = Vec::new();
        let mut found = false;
        let mut gi: usize = 0;
        while gi < groups.len()
            invariant
                gi <= groups@.len(),
                m == rules@,
                gs == spec_strings(groups@),
                spec_strictly_sorted(spec_strings(props@)),
                found == exists|i: int| 0 <= i < gi && m.contains_key(#[trigger] gs[i]),
                forall|p: Seq<char>|
                    #![trigger spec_strings(props@).contains(p)]
                    spec_strings(props@).contains(p) <==> exists|i: int|
                        0 <= i < gi && m.contains_key(#[trigger] gs[i]) && m[gs[i]].contains(p),
            decreases groups.len() - gi,
        {
            let ghost before = props@;
            if let Some(list) = rules.get(groups[gi].as_str()) {
                add_all(&mut props, list);
                found = true;
                proof {
                    assert(gs[gi as int] == groups@[gi as int]@);
                    assert forall|p: Seq<char>| spec_strings(props@).contains(p) <==> exists|i: int|
                        0 <= i < gi + 1 && m.contains_key(#[trigger] gs[i]) && m[gs[i]].contains(p) by {
                        if m[gs[gi as int]].contains(p) {
                            assert(m.contains_key(gs[gi as int]));
                        }
                        if exists|i: int| 0 <= i < gi + 1 && m.contains_key(#[trigger] gs[i]) && m[gs[i]].contains(p) {
                            let i = choose|i: int| 0 <= i < gi + 1 && m.contains_key(#[trigger] gs[i]) && m[gs[i]].contains(p);
                            if i < gi {
                                assert(spec_strings(before).contains(p));
                            }
                        }
                    }
                }
            } else {
                proof {
                    assert(gs[gi as int] == groups@[gi as int]@);
                    assert forall|p: Seq<char>| spec_strings(props@).contains(p) <==> exists|i: int|
                        0 <= i < gi + 1 && m.contains_key(#[trigger] gs[i]) && m[gs[i]].contains(p) by {
                        if exists|i: int| 0 <= i < gi + 1 && m.contains_key(#[trigger] gs[i]) && m[gs[i]].contains(p) {
                            let i = choose|i: int| 0 <= i < gi + 1 && m.contains_key(#[trigger] gs[i]) && m[gs[i]].contains(p);
                            assert(i < gi);
                        }
                    }
                }
            }
            gi = gi + 1;
        }
        let ghost after_groups = spec_strings(props@);
        if let Some(list) = rules.get(class) {
            add_all(&mut props, list);
            found = true;
        }
        let ghost after_class = spec_strings(props@);
        let star = "*";
        proof {
            reveal_strlit("*");
        }
        if let Some(list) = rules.get(star) {
            add_all(&mut props, list);
            found = true;
        }
        if found {
            Some(props)
        } else {
            None
        }
    }
}

/// Add every string of `list` to a strictly sorted list, keeping it strictly sorted.
fn add_all(props: &mut Vec<String>, list: &Vec<String>)
    requires
        spec_strictly_sorted(spec_strings(old(props)@)),
    ensures
        spec_strictly_sorted(spec_strings(final(props)@)),
        forall|p: Seq<char>|
            #![trigger spec_strings(final(props)@).contains(p)]
            spec_strings(final(props)@).contains(p) <==> (spec_strings(old(props)@).contains(p)
                || spec_strings(list@).contains(p)),
{
    let mut k: usize = 0;
    while k < list.len()
        invariant
            k <= list@.len(),
            spec_strictly_sorted(spec_strings(props@)),
            forall|p: Seq<char>|
                #![trigger spec_strings(props@).contains(p)]
                spec_strings(props@).contains(p) <==> (spec_strings(old(props)@).contains(p)
                    || spec_strings(list@).take(k as int).contains(p)),
        decreases list.len() - k,
    {
        let ghost before = spec_strings(props@);
        insert_sorted_unique(props, &list[k]);
        proof {
            assert forall|p: Seq<char>| spec_strings(props@).contains(p) <==> (spec_strings(old(props)@).contains(p)
                || spec_strings(list@).take(k + 1).contains(p)) by {
                let t0 = spec_strings(list@).take(k as int);
                let t1 = spec_strings(list@).take(k + 1);
                assert(t1 =~= t0.push(list@[k as int]@));
                if before.contains(p) {
                }
                if t1.contains(p) {
                    let j = choose|j: int| 0 <= j < t1.len() && t1[j] == p;
                    if j < k {
                        assert(t0[j] == p);
                    }
                }
                if t0.contains(p) {
                    let j = choose|j: int| 0 <= j < t0.len() && t0[j] == p;
                    assert(t1[j] == p);
                }
                if p == list@[k as int]@ {
                    assert(t1[k as int] == p);
                }
            }
        }
        k = k + 1;
    }
    assert(spec_strings(list@).take(list@.len() as int) =~= spec_strings(list@));
}

} // verus!
