use vstd::prelude::*;
use vstd::std_specs::iter::IteratorSpec;

verus! {

broadcast use vstd::string::group_string_axioms;

/// The characters of a string slice, in order.
pub fn chars_of(s: &str) -> (v: Vec<char>)
    ensures
        v@ == s@,
{
    let mut it = s.chars();
    let mut v: Vec<char> = Vec::new();
    loop
        invariant
            it.obeys_prophetic_iter_laws(),
            v@ + it.remaining() == s@,
            it.decrease() is Some,
        decreases it.decrease()->0,
    {
        let ghost before = it.remaining();
        match it.next() {
            Some(c) => {
                v.push(c);
                assert(v@ + it.remaining() =~= s@);
            },
            None => {
                assert(v@ =~= s@);
                return v;
            },
        }
    }
}

/// The characters `from..to` of `s`, as an owned string.
pub fn substring(s: &str, from: usize, to: usize) -> (r: String)
    requires
        from <= to <= s@.len(),
    ensures
        r@ == s@.subrange(from as int, to as int),
{
    String::from_str(s.substring_char(from, to))
}

/// Whether two string slices hold the same characters.
pub fn str_eq(a: &str, b: &str) -> (r: bool)
    ensures
        r == (a@ == b@),
{
    let x = String::from_str(a);
    let y = String::from_str(b);
    x == y
}

} // verus!

verus! {

/// The decimal digit character for `d` (0..=9).
pub open spec fn spec_digit_char(d: nat) -> char {
    (48 + d) as char
}

/// Decimal rendering of a natural number, without leading zeros.
pub open spec fn spec_decimal(n: nat) -> Seq<char>
    decreases n,
{
    if n < 10 {
        seq![spec_digit_char(n)]
    } else {
        spec_decimal(n / 10).push(spec_digit_char(n % 10))
    }
}

/// Append the decimal rendering of `n` to `out`.
pub fn append_decimal(out: &mut String, n: u64)
    ensures
        final(out)@ == old(out)@ + spec_decimal(n as nat),
    decreases n,
{
    if n >= 10 {
        append_decimal(out, n / 10);
    }
    let d = (n % 10) as usize;
    let digits = "0123456789";
    proof {
        reveal_strlit("0123456789");
    }
    let one = digits.substring_char(d, d + 1);
    assert(one@ =~= seq![spec_digit_char(d as nat)]);
    out.append(one);
    assert(final(out)@ =~= old(out)@ + spec_decimal(n as nat));
}

/// The decimal rendering of `n` as a new string.
pub fn decimal_string(n: u64) -> (s: String)
    ensures
        s@ == spec_decimal(n as nat),
{
    let mut s = String::new();
    append_decimal(&mut s, n);
    assert(s@ =~= spec_decimal(n as nat));
    s
}

} // verus!

verus! {

/// `p` is a prefix of `s`.
pub open spec fn spec_starts_with(s: Seq<char>, p: Seq<char>) -> bool {
    p.len() <= s.len() && s.subrange(0, p.len() as int) == p
}

/// `t` occurs in `s` at position `i`.
pub open spec fn spec_occurs_at(s: Seq<char>, t: Seq<char>, i: int) -> bool {
    0 <= i && i + t.len() <= s.len() && s.subrange(i, i + t.len()) == t
}

/// `t` occurs somewhere in `s`.
pub open spec fn spec_contains(s: Seq<char>, t: Seq<char>) -> bool {
    exists|i: int| spec_occurs_at(s, t, i)
}

/// Whether `t` occurs in `s` at position `i` (exec form).
pub fn occurs_at(s: &Vec<char>, t: &Vec<char>, i: usize) -> (b: bool)
    ensures
        b == spec_occurs_at(s@, t@, i as int),
{
    if i > s.len() || t.len() > s.len() - i {
        return false;
    }
    let mut k: usize = 0;
    while k < t.len()
        invariant
            i + t.len() <= s.len(),
            k <= t.len(),
            forall|j: int| 0 <= j < k ==> s@[i + j] == t@[j],
        decreases t.len() - k,
    {
        if s[i + k] != t[k] {
            assert(s@.subrange(i as int, i + t.len())[k as int] != t@[k as int]);
            return false;
        }
        k = k + 1;
    }
    assert(s@.subrange(i as int, i + t.len()) =~= t@);
    true
}

/// Whether `s` begins with `p`.
pub fn starts_with(s: &str, p: &str) -> (b: bool)
    ensures
        b == spec_starts_with(s@, p@),
{
    let sv = chars_of(s);
    let pv = chars_of(p);
    occurs_at(&sv, &pv, 0)
}

/// Whether `t` occurs anywhere in `s`.
pub fn contains(s: &str, t: &str) -> (b: bool)
    ensures
        b == spec_contains(s@, t@),
{
    let sv = chars_of(s);
    let tv = chars_of(t);
    if tv.len() > sv.len() {
        assert forall|i: int| !spec_occurs_at(s@, t@, i) by {}
        return false;
    }
    let last = sv.len() - tv.len();
    let mut i: usize = 0;
    loop
        invariant
            sv@ == s@,
            tv@ == t@,
            tv.len() <= sv.len(),
            last == sv.len() - tv.len(),
            i <= last,
            forall|j: int| 0 <= j < i ==> !spec_occurs_at(s@, t@, j),
        ensures
            forall|j: int| 0 <= j <= last ==> !spec_occurs_at(s@, t@, j),
        decreases last - i,
    {
        if occurs_at(&sv, &tv, i) {
            return true;
        }
        if i == last {
            break;
        }
        i = i + 1;
    }
    assert forall|j: int| !spec_occurs_at(s@, t@, j) by {
        if 0 <= j && j + t@.len() <= s@.len() {
            assert(j <= last);
        }
    }
    false
}

} // verus!

verus! {

/// Lexicographic order of character sequences by code point, which is also
/// the byte order of their UTF-8 encodings (the order of `String`).
pub open spec fn spec_lex_lt(a: Seq<char>, b: Seq<char>) -> bool
    decreases a.len(),
{
    if a.len() == 0 {
        b.len() > 0
    } else if b.len() == 0 {
        false
    } else if a[0] != b[0] {
        a[0] < b[0]
    } else {
        spec_lex_lt(a.drop_first(), b.drop_first())
    }
}

/// Exactly one of `a < b`, `a == b`, `b < a` holds.
pub proof fn lemma_lex_trichotomy(a: Seq<char>, b: Seq<char>)
    ensures
        spec_lex_lt(a, b) || a == b || spec_lex_lt(b, a),
        !(spec_lex_lt(a, b) && spec_lex_lt(b, a)),
        !spec_lex_lt(a, a),
    decreases a.len(),
{
    if a.len() == 0 && b.len() == 0 {
        assert(a =~= b);
    } else if a.len() > 0 && b.len() > 0 {
        if a[0] == b[0] {
            lemma_lex_trichotomy(a.drop_first(), b.drop_first());
            if a.drop_first() == b.drop_first() {
                assert(a =~= seq![a[0]] + a.drop_first());
                assert(b =~= seq![b[0]] + b.drop_first());
            }
        }
    }
    if a.len() > 0 {
        lemma_lex_trichotomy(a.drop_first(), a.drop_first());
    }
}

/// The lexicographic order is transitive.
pub proof fn lemma_lex_transitive(a: Seq<char>, b: Seq<char>, c: Seq<char>)
    requires
        spec_lex_lt(a, b),
        spec_lex_lt(b, c),
    ensures
        spec_lex_lt(a, c),
    decreases a.len(),
{
    if a.len() > 0 && b.len() > 0 && c.len() > 0 && a[0] == b[0] && b[0] == c[0] {
        lemma_lex_transitive(a.drop_first(), b.drop_first(), c.drop_first());
    }
}

/// Whether `a` comes strictly before `b` in the order of strings.
pub fn lex_less(a: &Vec<char>, b: &Vec<char>) -> (r: bool)
    ensures
        r == spec_lex_lt(a@, b@),
{
    let mut i: usize = 0;
    assert(a@.skip(0) =~= a@);
    assert(b@.skip(0) =~= b@);
    while i < a.len() && i < b.len() && a[i] == b[i]
        invariant
            i <= a.len(),
            i <= b.len(),
            forall|j: int| 0 <= j < i ==> a@[j] == b@[j],
            spec_lex_lt(a@, b@) == spec_lex_lt(a@.skip(i as int), b@.skip(i as int)),
        decreases a.len() - i,
    {
        assert(a@.skip(i as int).drop_first() =~= a@.skip(i + 1));
        assert(b@.skip(i as int).drop_first() =~= b@.skip(i + 1));
        i = i + 1;
    }
    if i == a.len() {
        i < b.len()
    } else if i == b.len() {
        false
    } else {
        a[i] < b[i]
    }
}

/// The pieces of `s` between occurrences of `sep` (as `str::split` gives
/// them): there is always at least one piece.
pub open spec fn spec_split(s: Seq<char>, sep: char) -> Seq<Seq<char>>
    decreases s.len(),
{
    if s.len() == 0 {
        seq![Seq::<char>::empty()]
    } else {
        let r = spec_split(s.drop_last(), sep);
        if s.last() == sep {
            r.push(Seq::<char>::empty())
        } else {
            r.update(r.len() - 1, r.last().push(s.last()))
        }
    }
}

pub proof fn lemma_split_nonempty(s: Seq<char>, sep: char)
    ensures
        spec_split(s, sep).len() >= 1,
    decreases s.len(),
{
    if s.len() > 0 {
        lemma_split_nonempty(s.drop_last(), sep);
    }
}

/// Views of a vector of character vectors.
pub open spec fn spec_views(v: Seq<Vec<char>>) -> Seq<Seq<char>> {
    v.map_values(|p: Vec<char>| p@)
}

/// Split `s` at every `sep`.
pub fn split_chars(s: &Vec<char>, sep: char) -> (parts: Vec<Vec<char>>)
    ensures
        spec_views(parts@) == spec_split(s@, sep),
{
    let mut parts: Vec<Vec<char>> = Vec::new();
    let mut cur: Vec<char> = Vec::new();
    let mut i: usize = 0;
    while i < s.len()
        invariant
            i <= s.len(),
            spec_views(parts@).push(cur@) == spec_split(s@.take(i as int), sep),
        decreases s.len() - i,
    {
        let c = s[i];
        proof {
            assert(s@.take(i + 1).drop_last() =~= s@.take(i as int));
            lemma_split_nonempty(s@.take(i as int), sep);
        }
        if c == sep {
            let done = cur;
            parts.push(done);
            cur = Vec::new();
            assert(spec_views(parts@).push(cur@) =~= spec_split(s@.take(i + 1), sep));
        } else {
            let ghost old_parts = spec_views(parts@);
            cur.push(c);
            assert(spec_views(parts@).push(cur@) =~= spec_split(s@.take(i + 1), sep));
        }
        i = i + 1;
    }
    assert(s@.take(s.len() as int) =~= s@);
    parts.push(cur);
    assert(spec_views(parts@) =~= spec_split(s@, sep));
    parts
}

} // verus!

verus! {

/// Unicode `White_Space`, as `char::is_whitespace` and `str::trim` use it.
pub open spec fn spec_is_whitespace(c: char) -> bool {
    let n = c as u32;
    (9 <= n <= 13) || n == 32 || n == 0x85 || n == 0xa0 || n == 0x1680 || (0x2000 <= n
        <= 0x200a) || n == 0x2028 || n == 0x2029 || n == 0x202f || n == 0x205f || n == 0x3000
}

/// Which characters a trim removes.
#[derive(Clone, Copy)]
pub enum Strip {
    /// Unicode white space (`str::trim`).
    Whitespace,
    /// One given character (`str::trim_matches` with a `char`).
    Only(char),
}

pub open spec fn spec_strips(which: Strip, c: char) -> bool {
    match which {
        Strip::Whitespace => spec_is_whitespace(c),
        Strip::Only(x) => c == x,
    }
}

/// `s` without its leading run of stripped characters.
pub open spec fn spec_trim_start(s: Seq<char>, which: Strip) -> Seq<char>
    decreases s.len(),
{
    if s.len() > 0 && spec_strips(which, s[0]) {
        spec_trim_start(s.drop_first(), which)
    } else {
        s
    }
}

/// `s` without its trailing run of stripped characters.
pub open spec fn spec_trim_end(s: Seq<char>, which: Strip) -> Seq<char>
    decreases s.len(),
{
    if s.len() > 0 && spec_strips(which, s.last()) {
        spec_trim_end(s.drop_last(), which)
    } else {
        s
    }
}

/// `s` without leading and trailing stripped characters.
pub open spec fn spec_trim(s: Seq<char>, which: Strip) -> Seq<char> {
    spec_trim_end(spec_trim_start(s, which), which)
}

proof fn lemma_trim_start_at(s: Seq<char>, which: Strip, k: int)
    requires
        0 <= k <= s.len(),
        forall|i: int| 0 <= i < k ==> spec_strips(which, #[trigger] s[i]),
        k == s.len() || !spec_strips(which, s[k]),
    ensures
        spec_trim_start(s, which) == s.subrange(k, s.len() as int),
    decreases k,
{
    if k == 0 {
        assert(s.subrange(0, s.len() as int) =~= s);
    } else {
        let t = s.drop_first();
        assert forall|i: int| 0 <= i < k - 1 implies spec_strips(which, #[trigger] t[i]) by {
            assert(t[i] == s[i + 1]);
        }
        lemma_trim_start_at(t, which, k - 1);
        assert(t.subrange(k - 1, t.len() as int) =~= s.subrange(k, s.len() as int));
    }
}

proof fn lemma_trim_end_at(s: Seq<char>, which: Strip, m: int)
    requires
        0 <= m <= s.len(),
        forall|i: int| m <= i < s.len() ==> spec_strips(which, #[trigger] s[i]),
        m == 0 || !spec_strips(which, s[m - 1]),
    ensures
        spec_trim_end(s, which) == s.subrange(0, m),
    decreases s.len() - m,
{
    if m == s.len() {
        assert(s.subrange(0, m) =~= s);
    } else {
        let t = s.drop_last();
        assert(spec_strips(which, s[s.len() - 1]));
        lemma_trim_end_at(t, which, m);
        assert(t.subrange(0, m) =~= s.subrange(0, m));
    }
}

/// Whether `c` is removed by the trim `which`.
pub fn strips(which: Strip, c: char) -> (b: bool)
    ensures
        b == spec_strips(which, c),
{
    match which {
        Strip::Whitespace => {
            let n = c as u32;
            (9 <= n && n <= 13) || n == 32 || n == 0x85 || n == 0xa0 || n == 0x1680 || (0x2000
                <= n && n <= 0x200a) || n == 0x2028 || n == 0x2029 || n == 0x202f || n == 0x205f
                || n == 0x3000
        },
        Strip::Only(x) => c == x,
    }
}

/// The bounds `lo..hi` of what remains of `s` after the trim `which`.
pub fn trim_bounds(s: &Vec<char>, which: Strip) -> (r: (usize, usize))
    ensures
        r.0 <= r.1 <= s@.len(),
        s@.subrange(r.0 as int, r.1 as int) == spec_trim(s@, which),
{
    let mut lo: usize = 0;
    while lo < s.len() && strips(which, s[lo])
        invariant
            lo <= s.len(),
            forall|i: int| 0 <= i < lo ==> spec_strips(which, #[trigger] s@[i]),
        decreases s.len() - lo,
    {
        lo = lo + 1;
    }
    proof {
        lemma_trim_start_at(s@, which, lo as int);
    }
    let ghost mid = s@.subrange(lo as int, s@.len() as int);
    let mut hi: usize = s.len();
    while hi > lo && strips(which, s[hi - 1])
        invariant
            lo <= hi <= s.len(),
            forall|i: int| hi <= i < s.len() ==> spec_strips(which, #[trigger] s@[i]),
        decreases hi,
    {
        hi = hi - 1;
    }
    proof {
        assert forall|i: int| hi - lo <= i < mid.len() implies spec_strips(which, #[trigger] mid[i]) by {
            assert(mid[i] == s@[lo + i]);
        }
        if hi > lo {
            assert(mid[hi - lo - 1] == s@[hi - 1]);
        }
        lemma_trim_end_at(mid, which, hi - lo);
        assert(mid.subrange(0, hi - lo) =~= s@.subrange(lo as int, hi as int));
    }
    (lo, hi)
}

/// `s` with leading and trailing stripped characters removed.
pub fn trim_chars(s: &Vec<char>, which: Strip) -> (r: Vec<char>)
    ensures
        r@ == spec_trim(s@, which),
{
    let (lo, hi) = trim_bounds(s, which);
    let mut r: Vec<char> = Vec::new();
    let mut i: usize = lo;
    while i < hi
        invariant
            lo <= i <= hi <= s.len(),
            r@ == s@.subrange(lo as int, i as int),
        decreases hi - i,
    {
        r.push(s[i]);
        assert(r@ =~= s@.subrange(lo as int, i + 1));
        i = i + 1;
    }
    r
}

/// `str::trim` (or `trim_matches` with one character) on a string slice.
pub fn trim_str(s: &str, which: Strip) -> (r: &str)
    ensures
        r@ == spec_trim(s@, which),
{
    let cs = chars_of(s);
    let (lo, hi) = trim_bounds(&cs, which);
    s.substring_char(lo, hi)
}

/// `'0'..='9'`.
pub open spec fn spec_is_digit(c: char) -> bool {
    '0' <= c <= '9'
}

/// The number written by the decimal digits `s`.
pub open spec fn spec_digits_value(s: Seq<char>) -> int
    decreases s.len(),
{
    if s.len() == 0 {
        0
    } else {
        spec_digits_value(s.drop_last()) * 10 + (s.last() as int - '0' as int)
    }
}

/// `s` without one leading `+`, if it has one.
pub open spec fn spec_unsigned_digits(s: Seq<char>) -> Seq<char> {
    if s.len() > 0 && s[0] == '+' {
        s.drop_first()
    } else {
        s
    }
}

/// Every character of `s` is an ASCII digit.
pub open spec fn spec_all_digits(s: Seq<char>) -> bool {
    forall|i: int| 0 <= i < s.len() ==> spec_is_digit(#[trigger] s[i])
}

/// What `str::parse::<u16>` gives: an optional `+`, then one or more ASCII
/// digits whose value fits in 16 bits.
pub open spec fn spec_parse_u16(s: Seq<char>) -> Option<u16> {
    let body = spec_unsigned_digits(s);
    if body.len() > 0 && spec_all_digits(body) && spec_digits_value(body) <= 65535 {
        Some(spec_digits_value(body) as u16)
    } else {
        None
    }
}

proof fn lemma_digits_value_grows(s: Seq<char>, k: int)
    requires
        0 <= k <= s.len(),
        forall|i: int| 0 <= i < s.len() ==> spec_is_digit(#[trigger] s[i]),
    ensures
        spec_digits_value(s.subrange(0, k)) <= spec_digits_value(s),
        0 <= spec_digits_value(s.subrange(0, k)),
    decreases s.len(),
{
    if k == s.len() {
        assert(s.subrange(0, k) =~= s);
        if s.len() > 0 {
            lemma_digits_value_grows(s.drop_last(), k - 1);
        }
    } else {
        let t = s.drop_last();
        lemma_digits_value_grows(t, k);
        assert(t.subrange(0, k) =~= s.subrange(0, k));
        if t.len() > 0 {
            lemma_digits_value_grows(t, t.len() as int);
            assert(t.subrange(0, t.len() as int) =~= t);
        }
    }
}

/// `str::parse::<u16>` on the characters `s`.
pub fn parse_u16(s: &Vec<char>) -> (r: Option<u16>)
    ensures
        r == spec_parse_u16(s@),
{
    let start: usize = if s.len() > 0 && s[0] == '+' { 1 } else { 0 };
    let ghost body = spec_unsigned_digits(s@);
    assert(body =~= s@.subrange(start as int, s@.len() as int));
    if start == s.len() {
        return None;
    }
    let mut acc: u32 = 0;
    let mut i: usize = start;
    while i < s.len()
        invariant
            start <= i <= s.len(),
            body == s@.subrange(start as int, s@.len() as int),
            body == spec_unsigned_digits(s@),
            forall|j: int| start <= j < i ==> spec_is_digit(#[trigger] s@[j]),
            acc == spec_digits_value(s@.subrange(start as int, i as int)),
            acc <= 65535,
        decreases s.len() - i,
    {
        let c = s[i];
        if !('0' <= c && c <= '9') {
            assert(body[i - start] == c);
            assert(!spec_is_digit(body[i - start]));
            return None;
        }
        let d: u32 = (c as u32) - ('0' as u32);
        let next: u32 = acc * 10 + d;
        assert(s@.subrange(start as int, i + 1).drop_last() =~= s@.subrange(start as int, i as int));
        if next > 65535 {
            proof {
                let prefix = s@.subrange(start as int, i + 1);
                assert(prefix.last() == c);
                assert(spec_digits_value(prefix) == next);
                if spec_all_digits(body) {
                    lemma_digits_value_grows(body, i + 1 - start);
                    assert(body.subrange(0, i + 1 - start) =~= prefix);
                    assert(spec_digits_value(body) > 65535);
                }
                assert(spec_parse_u16(s@) is None);
            }
            return None;
        }
        acc = next;
        i = i + 1;
    }
    assert forall|j: int| 0 <= j < body.len() implies spec_is_digit(#[trigger] body[j]) by {
        assert(body[j] == s@[start + j]);
    }
    Some(acc as u16)
}

} // verus!

verus! {

/// What `str::parse::<u32>` gives: an optional `+`, then one or more ASCII
/// digits whose value fits in 32 bits.
pub open spec fn spec_parse_u32(s: Seq<char>) -> Option<u32> {
    let body = spec_unsigned_digits(s);
    if body.len() > 0 && spec_all_digits(body) && spec_digits_value(body) <= 0xffff_ffff {
        Some(spec_digits_value(body) as u32)
    } else {
        None
    }
}

/// `str::parse::<u32>` on the characters `s`.
pub fn parse_u32(s: &Vec<char>) -> (r: Option<u32>)
    ensures
        r == spec_parse_u32(s@),
{
    let start: usize = if s.len() > 0 && s[0] == '+' { 1 } else { 0 };
    let ghost body = spec_unsigned_digits(s@);
    assert(body =~= s@.subrange(start as int, s@.len() as int));
    if start == s.len() {
        return None;
    }
    let mut acc: u64 = 0;
    let mut i: usize = start;
    while i < s.len()
        invariant
            start <= i <= s.len(),
            body == s@.subrange(start as int, s@.len() as int),
            body == spec_unsigned_digits(s@),
            forall|j: int| start <= j < i ==> spec_is_digit(#[trigger] s@[j]),
            acc == spec_digits_value(s@.subrange(start as int, i as int)),
            acc <= 0xffff_ffff,
        decreases s.len() - i,
    {
        let c = s[i];
        if !('0' <= c && c <= '9') {
            assert(body[i - start] == c);
            assert(!spec_is_digit(body[i - start]));
            return None;
        }
        let d: u64 = (c as u64) - ('0' as u64);
        let next: u64 = acc * 10 + d;
        assert(s@.subrange(start as int, i + 1).drop_last() =~= s@.subrange(start as int, i as int));
        if next > 0xffff_ffff {
            proof {
                let prefix = s@.subrange(start as int, i + 1);
                assert(prefix.last() == c);
                assert(spec_digits_value(prefix) == next);
                if spec_all_digits(body) {
                    lemma_digits_value_grows(body, i + 1 - start);
                    assert(body.subrange(0, i + 1 - start) =~= prefix);
                    assert(spec_digits_value(body) > 0xffff_ffff);
                }
                assert(spec_parse_u32(s@) is None);
            }
            return None;
        }
        acc = next;
        i = i + 1;
    }
    assert forall|j: int| 0 <= j < body.len() implies spec_is_digit(#[trigger] body[j]) by {
        assert(body[j] == s@[start + j]);
    }
    Some(acc as u32)
}

} // verus!

verus! {

/// `s` is one of the strings of `v`.
pub open spec fn spec_has_string(v: Seq<String>, s: Seq<char>) -> bool {
    exists|i: int| 0 <= i < v.len() && v[i]@ == s
}

/// Whether one of the strings of `v` is `s`.
pub fn has_string(v: &Vec<String>, s: &str) -> (b: bool)
    ensures
        b == spec_has_string(v@, s@),
{
    let mut i: usize = 0;
    while i < v.len()
        invariant
            i <= v.len(),
            forall|j: int| 0 <= j < i ==> v@[j]@ != s@,
        decreases v.len() - i,
    {
        if str_eq(v[i].as_str(), s) {
            return true;
        }
        i = i + 1;
    }
    false
}

} // verus!
