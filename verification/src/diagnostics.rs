use vstd::prelude::*;
use crate::text::{
    chars_of, occurs_at, parse_u32, spec_is_whitespace, spec_occurs_at, spec_parse_u32,
    spec_split, lemma_split_nonempty,
};
use crate::unicode::{is_decimal_digit, spec_is_decimal_digit};

verus! {

broadcast use vstd::string::group_string_axioms;

/// A single diagnostic read from Godot's stderr output.
#[derive(Debug, Clone)]
pub struct GodotDiagnostic {
    /// The script path, without its `res://` prefix.
    pub file: String,
    /// The line in the script; 0 where the output gives none.
    pub line: u32,
    /// `error` or `warning`.
    pub severity: String,
    pub message: String,
}

/// A diagnostic as plain values.
pub struct DiagnosticView {
    pub file: Seq<char>,
    pub line: u32,
    pub severity: Seq<char>,
    pub message: Seq<char>,
}

impl View for GodotDiagnostic {
    type V = DiagnosticView;

    open spec fn view(&self) -> DiagnosticView {
        DiagnosticView {
            file: self.file@,
            line: self.line,
            severity: self.severity@,
            message: self.message@,
        }
    }
}

// ---------------------------------------------------------------------------
// The two line shapes, as character classes and runs
// ---------------------------------------------------------------------------

/// The character classes that the two line shapes use.
#[derive(Clone, Copy)]
pub enum RunClass {
    /// A script path character: neither white space nor `:`.
    PathChar,
    /// A Unicode decimal digit.
    Digit,
    /// Anything but `:`.
    NotColon,
    /// Anything but `"`.
    NotQuote,
}

pub open spec fn spec_in_class(k: RunClass, c: char) -> bool {
    match k {
        RunClass::PathChar => !spec_is_whitespace(c) && c != ':',
        RunClass::Digit => spec_is_decimal_digit(c),
        RunClass::NotColon => c != ':',
        RunClass::NotQuote => c != '"',
    }
}

/// The end of the longest run of `k` characters in `s` that starts at `i`.
pub open spec fn spec_run_end(s: Seq<char>, i: int, k: RunClass) -> int
    decreases s.len() - i,
{
    if i < 0 || i >= s.len() {
        i
    } else if spec_in_class(k, s[i]) {
        spec_run_end(s, i + 1, k)
    } else {
        i
    }
}

proof fn lemma_run_end_bounds(s: Seq<char>, i: int, k: RunClass)
    requires
        0 <= i <= s.len(),
    ensures
        i <= spec_run_end(s, i, k) <= s.len(),
        forall|j: int| i <= j < spec_run_end(s, i, k) ==> spec_in_class(k, #[trigger] s[j]),
        spec_run_end(s, i, k) < s.len() ==> !spec_in_class(k, s[spec_run_end(s, i, k)]),
    decreases s.len() - i,
{
    if i < s.len() && spec_in_class(k, s[i]) {
        lemma_run_end_bounds(s, i + 1, k);
    }
}

fn in_class(k: RunClass, c: char) -> (b: bool)
    ensures
        b == spec_in_class(k, c),
{
    match k {
        RunClass::PathChar => {
            let n = c as u32;
            let ws = (9 <= n && n <= 13) || n == 32 || n == 0x85 || n == 0xa0 || n == 0x1680 || (
            0x2000 <= n && n <= 0x200a) || n == 0x2028 || n == 0x2029 || n == 0x202f || n
                == 0x205f || n == 0x3000;
            !ws && c != ':'
        },
        RunClass::Digit => is_decimal_digit(c),
        RunClass::NotColon => c != ':',
        RunClass::NotQuote => c != '"',
    }
}

fn run_end(s: &Vec<char>, i: usize, k: RunClass) -> (r: usize)
    requires
        i <= s@.len(),
    ensures
        r == spec_run_end(s@, i as int, k),
{
    let mut j = i;
    while j < s.len() && in_class(k, s[j])
        invariant
            i <= j <= s@.len(),
            spec_run_end(s@, i as int, k) == spec_run_end(s@, j as int, k),
        decreases s.len() - j,
    {
        j = j + 1;
    }
    j
}

/// `s` with every leading copy of `p` removed (`str::trim_start_matches`).
pub open spec fn spec_strip_prefixes(s: Seq<char>, p: Seq<char>) -> Seq<char>
    decreases s.len(),
{
    if p.len() > 0 && p.len() <= s.len() && s.subrange(0, p.len() as int) == p {
        spec_strip_prefixes(s.subrange(p.len() as int, s.len() as int), p)
    } else {
        s
    }
}

pub open spec fn spec_error_tag() -> Seq<char> {
    "ERROR: "@
}

pub open spec fn spec_warning_tag() -> Seq<char> {
    "WARNING: "@
}

pub open spec fn spec_res_scheme() -> Seq<char> {
    "res://"@
}

pub open spec fn spec_dash() -> Seq<char> {
    " - "@
}

pub open spec fn spec_cpp_prefix() -> Seq<char> {
    "ERROR: modules/gdscript/"@
}

pub open spec fn spec_failed_load() -> Seq<char> {
    " - Failed to load script \""@
}

/// A script diagnostic line, `(ERROR|WARNING): (res://[^\s:]+):(\d+) - (.+)`
/// over the whole line: the severity in lower case, the path without
/// `res://`, the number (0 when it does not parse as a `u32`) and the rest
/// of the line as the message.
pub open spec fn spec_parse_script_line(l: Seq<char>) -> Option<DiagnosticView> {
    let err = spec_occurs_at(l, spec_error_tag(), 0);
    let warn = spec_occurs_at(l, spec_warning_tag(), 0);
    let tag = if err { spec_error_tag() } else { spec_warning_tag() };
    let p0 = (tag.len() + spec_res_scheme().len()) as int;
    let pe = spec_run_end(l, p0, RunClass::PathChar);
    let de = spec_run_end(l, pe + 1, RunClass::Digit);
    if (err || warn) && spec_occurs_at(l, spec_res_scheme(), tag.len() as int) && pe > p0 && pe
        < l.len() && l[pe] == ':' && de > pe + 1 && spec_occurs_at(l, spec_dash(), de) && de
        + spec_dash().len() < l.len() {
        Some(
            DiagnosticView {
                file: spec_strip_prefixes(l.subrange(tag.len() as int, pe), spec_res_scheme()),
                line: match spec_parse_u32(l.subrange(pe + 1, de)) {
                    Some(n) => n,
                    None => 0,
                },
                severity: if err { "error"@ } else { "warning"@ },
                message: l.subrange(de + spec_dash().len(), l.len() as int),
            },
        )
    } else {
        None
    }
}

/// A summary line of the GDScript module starting at `i` in the whole text
/// `s`: `ERROR: modules/gdscript/[^:]+:\d+ - Failed to load script "(res://[^"]+)"`.
/// Gives where the match ends and the captured `res://` path.
pub open spec fn spec_cpp_at(s: Seq<char>, i: int) -> Option<(int, Seq<char>)> {
    let a = i + spec_cpp_prefix().len();
    let b = spec_run_end(s, a, RunClass::NotColon);
    let c = spec_run_end(s, b + 1, RunClass::Digit);
    let d = c + spec_failed_load().len();
    let e = d + spec_res_scheme().len();
    let f = spec_run_end(s, e, RunClass::NotQuote);
    if 0 <= i && spec_occurs_at(s, spec_cpp_prefix(), i) && b > a && b < s.len() && c > b + 1
        && spec_occurs_at(s, spec_failed_load(), c) && spec_occurs_at(s, spec_res_scheme(), d) && f
        > e && f < s.len() {
        Some((f + 1, s.subrange(d, f)))
    } else {
        None
    }
}

/// `i` is where a line begins.
pub open spec fn spec_line_start(s: Seq<char>, i: int) -> bool {
    i == 0 || (0 < i <= s.len() && s[i - 1] == '\n')
}

/// The paths captured by successive, non-overlapping summary-line matches
/// from position `pos` on, each found at the first line start where one
/// matches.
pub open spec fn spec_cpp_scan(s: Seq<char>, pos: int) -> Seq<Seq<char>>
    decreases s.len() + 1 - pos,
{
    if pos < 0 || pos > s.len() {
        Seq::empty()
    } else if spec_line_start(s, pos) && spec_cpp_at(s, pos) is Some {
        let (end, cap) = spec_cpp_at(s, pos)->0;
        seq![cap] + spec_cpp_scan(s, end)
    } else {
        spec_cpp_scan(s, pos + 1)
    }
}

/// The diagnostics of the script lines among `lines`, in order.
pub open spec fn spec_script_diags(lines: Seq<Seq<char>>) -> Seq<DiagnosticView>
    decreases lines.len(),
{
    if lines.len() == 0 {
        Seq::empty()
    } else {
        let r = spec_script_diags(lines.drop_last());
        match spec_parse_script_line(lines.last()) {
            Some(d) => r.push(d),
            None => r,
        }
    }
}

/// The diagnostic of a summary line: the script failed to load.
pub open spec fn spec_cpp_diag(cap: Seq<char>) -> DiagnosticView {
    DiagnosticView {
        file: spec_strip_prefixes(cap, spec_res_scheme()),
        line: 0,
        severity: "error"@,
        message: "Failed to load script"@,
    }
}

/// The diagnostics of the captured summary-line paths, in order.
pub open spec fn spec_cpp_diags(caps: Seq<Seq<char>>) -> Seq<DiagnosticView> {
    caps.map_values(|c: Seq<char>| spec_cpp_diag(c))
}

/// Every match, in order: the script lines first, then the summary lines.
pub open spec fn spec_raw_diagnostics(s: Seq<char>) -> Seq<DiagnosticView> {
    spec_script_diags(spec_split(s, '\n')) + spec_cpp_diags(spec_cpp_scan(s, 0))
}

/// Two diagnostics repeat each other: same file, line and message.
pub open spec fn spec_same_key(a: DiagnosticView, b: DiagnosticView) -> bool {
    a.file == b.file && a.line == b.line && a.message == b.message
}

/// Some diagnostic of `d` repeats `x`.
pub open spec fn spec_has_key(d: Seq<DiagnosticView>, x: DiagnosticView) -> bool {
    exists|j: int| 0 <= j < d.len() && spec_same_key(#[trigger] d[j], x)
}

/// The first occurrence of each (file, line, message), in order.
pub open spec fn spec_dedup(s: Seq<DiagnosticView>) -> Seq<DiagnosticView>
    decreases s.len(),
{
    if s.len() == 0 {
        Seq::empty()
    } else {
        let d = spec_dedup(s.drop_last());
        if spec_has_key(d, s.last()) {
            d
        } else {
            d.push(s.last())
        }
    }
}

/// `a` may stay before `b`: by file path, then by line number.
pub open spec fn spec_not_after(a: DiagnosticView, b: DiagnosticView) -> bool {
    crate::text::spec_lex_lt(a.file, b.file) || (a.file == b.file && a.line <= b.line)
}

/// `x` put into `s` after the last element that may stay before it.
pub open spec fn spec_insert_sorted(s: Seq<DiagnosticView>, x: DiagnosticView) -> Seq<DiagnosticView>
    decreases s.len(),
{
    if s.len() == 0 {
        seq![x]
    } else if spec_not_after(s.last(), x) {
        s.push(x)
    } else {
        spec_insert_sorted(s.drop_last(), x).push(s.last())
    }
}

/// The stable sort by file path, then line number (insertion order among
/// equals is kept).
pub open spec fn spec_stable_sort(s: Seq<DiagnosticView>) -> Seq<DiagnosticView>
    decreases s.len(),
{
    if s.len() == 0 {
        Seq::empty()
    } else {
        spec_insert_sorted(spec_stable_sort(s.drop_last()), s.last())
    }
}

/// What `parse_godot_stderr` returns for the text `s`.
pub open spec fn spec_parse_godot_stderr(s: Seq<char>) -> Seq<DiagnosticView> {
    spec_stable_sort(spec_dedup(spec_raw_diagnostics(s)))
}

pub open spec fn spec_diag_views(v: Seq<GodotDiagnostic>) -> Seq<DiagnosticView> {
    v.map_values(|d: GodotDiagnostic| d@)
}

} // verus!

verus! {

// ---------------------------------------------------------------------------
// Lines of the text, by position
// ---------------------------------------------------------------------------

pub open spec fn spec_range_views(s: Seq<char>, rs: Seq<(usize, usize)>) -> Seq<Seq<char>> {
    rs.map_values(|r: (usize, usize)| s.subrange(r.0 as int, r.1 as int))
}

pub open spec fn spec_ranges_ok(s: Seq<char>, rs: Seq<(usize, usize)>) -> bool {
    forall|k: int| 0 <= k < rs.len() ==> #[trigger] rs[k].0 <= rs[k].1 <= s.len()
}

/// The positions of the pieces of `s` between `\n`s.
pub(crate) fn line_ranges(s: &Vec<char>) -> (rs: Vec<(usize, usize)>)
    ensures
        spec_ranges_ok(s@, rs@),
        spec_range_views(s@, rs@) == spec_split(s@, '\n'),
{
    let mut rs: Vec<(usize, usize)> = Vec::new();
    let mut cur: usize = 0;
    let mut i: usize = 0;
    assert(s@.take(0) =~= Seq::<char>::empty());
    assert(spec_range_views(s@, rs@).push(s@.subrange(0, 0)) =~= seq![Seq::<char>::empty()]);
    while i < s.len()
        invariant
            cur <= i <= s.len(),
            spec_ranges_ok(s@, rs@),
            spec_range_views(s@, rs@).push(s@.subrange(cur as int, i as int)) == spec_split(
                s@.take(i as int),
                '\n',
            ),
        decreases s.len() - i,
    {
        proof {
            assert(s@.take(i + 1).drop_last() =~= s@.take(i as int));
            lemma_split_nonempty(s@.take(i as int), '\n');
        }
        if s[i] == '\n' {
            let ghost before = spec_range_views(s@, rs@);
            let ghost old_cur = cur;
            rs.push((cur, i));
            cur = i + 1;
            assert(spec_range_views(s@, rs@) =~= before.push(s@.subrange(old_cur as int, i as int)));
            assert(s@.subrange(cur as int, i + 1) =~= Seq::<char>::empty());
            assert(spec_range_views(s@, rs@).push(s@.subrange(cur as int, i + 1)) =~= spec_split(
                s@.take(i + 1),
                '\n',
            ));
        } else {
            assert(s@.subrange(cur as int, i + 1) =~= s@.subrange(cur as int, i as int).push(s@[i as int]));
            assert(spec_range_views(s@, rs@).push(s@.subrange(cur as int, i + 1)) =~= spec_split(
                s@.take(i + 1),
                '\n',
            ));
        }
        i = i + 1;
    }
    assert(s@.take(s.len() as int) =~= s@);
    rs.push((cur, i));
    assert(spec_range_views(s@, rs@) =~= spec_split(s@, '\n'));
    rs
}

// ---------------------------------------------------------------------------
// Parsing one script line
// ---------------------------------------------------------------------------

/// The fixed pieces of text that the two line shapes contain.
struct Literals {
    error_tag: Vec<char>,
    warning_tag: Vec<char>,
    res: Vec<char>,
    dash: Vec<char>,
    cpp_prefix: Vec<char>,
    failed_load: Vec<char>,
}

impl Literals {
    spec fn wf(&self) -> bool {
        &&& self.error_tag@ == spec_error_tag()
        &&& self.warning_tag@ == spec_warning_tag()
        &&& self.res@ == spec_res_scheme()
        &&& self.dash@ == spec_dash()
        &&& self.cpp_prefix@ == spec_cpp_prefix()
        &&& self.failed_load@ == spec_failed_load()
        &&& spec_res_scheme().len() > 0
        &&& spec_cpp_prefix().len() > 0
    }

    fn new() -> (r: Literals)
        ensures
            r.wf(),
    {
        proof {
            reveal_strlit("res://");
            reveal_strlit("ERROR: modules/gdscript/");
        }
        Literals {
            error_tag: chars_of("ERROR: "),
            warning_tag: chars_of("WARNING: "),
            res: chars_of("res://"),
            dash: chars_of(" - "),
            cpp_prefix: chars_of("ERROR: modules/gdscript/"),
            failed_load: chars_of(" - Failed to load script \""),
        }
    }
}

pub(crate) fn copy_range(s: &Vec<char>, from: usize, to: usize) -> (r: Vec<char>)
    requires
        from <= to <= s@.len(),
    ensures
        r@ == s@.subrange(from as int, to as int),
{
    let mut r: Vec<char> = Vec::new();
    let mut i = from;
    while i < to
        invariant
            from <= i <= to <= s@.len(),
            r@ == s@.subrange(from as int, i as int),
        decreases to - i,
    {
        r.push(s[i]);
        assert(r@ =~= s@.subrange(from as int, i + 1));
        i = i + 1;
    }
    r
}

/// Where `s[from..to]` begins after every leading `p` is removed.
fn strip_prefixes_from(s: &Vec<char>, from: usize, to: usize, p: &Vec<char>) -> (r: usize)
    requires
        from <= to <= s@.len(),
        p@.len() > 0,
    ensures
        from <= r <= to,
        s@.subrange(r as int, to as int) == spec_strip_prefixes(s@.subrange(from as int, to as int), p@),
{
    let mut x = from;
    while x <= to && p.len() <= to - x && occurs_at(s, p, x)
        invariant
            from <= x <= to <= s@.len(),
            p@.len() > 0,
            spec_strip_prefixes(s@.subrange(from as int, to as int), p@) == spec_strip_prefixes(
                s@.subrange(x as int, to as int),
                p@,
            ),
        decreases to - x,
    {
        let ghost sub = s@.subrange(x as int, to as int);
        assert(sub.subrange(0, p@.len() as int) =~= s@.subrange(x as int, x + p@.len()));
        assert(sub.subrange(p@.len() as int, sub.len() as int) =~= s@.subrange(x + p@.len(), to as int));
        x = x + p.len();
    }
    proof {
        let sub = s@.subrange(x as int, to as int);
        if p@.len() <= sub.len() {
            assert(sub.subrange(0, p@.len() as int) =~= s@.subrange(x as int, x + p@.len()));
        }
    }
    x
}

fn parse_script_line(text: &str, s: &Vec<char>, ls: usize, le: usize, lits: &Literals) -> (r: Option<GodotDiagnostic>)
    requires
        s@ == text@,
        ls <= le <= s@.len(),
        lits.wf(),
    ensures
        match r {
            Some(d) => spec_parse_script_line(s@.subrange(ls as int, le as int)) == Some(d@),
            None => spec_parse_script_line(s@.subrange(ls as int, le as int)) is None,
        },
{
    let l = copy_range(s, ls, le);
    let ghost gl = l@;
    let err = lits.error_tag.len() <= l.len() && occurs_at(&l, &lits.error_tag, 0);
    let warn = lits.warning_tag.len() <= l.len() && occurs_at(&l, &lits.warning_tag, 0);
    proof {
        if lits.error_tag@.len() > l@.len() {
            assert(!spec_occurs_at(l@, spec_error_tag(), 0));
        }
        if lits.warning_tag@.len() > l@.len() {
            assert(!spec_occurs_at(l@, spec_warning_tag(), 0));
        }
    }
    if !err && !warn {
        return None;
    }
    let tag_len = if err { lits.error_tag.len() } else { lits.warning_tag.len() };
    if tag_len > l.len() || lits.res.len() > l.len() - tag_len || !occurs_at(&l, &lits.res, tag_len) {
        return None;
    }
    let p0 = tag_len + lits.res.len();
    let pe = run_end(&l, p0, RunClass::PathChar);
    proof {
        lemma_run_end_bounds(l@, p0 as int, RunClass::PathChar);
    }
    if !(pe > p0 && pe < l.len() && l[pe] == ':') {
        return None;
    }
    let de = run_end(&l, pe + 1, RunClass::Digit);
    proof {
        lemma_run_end_bounds(l@, pe + 1, RunClass::Digit);
    }
    if !(de > pe + 1) {
        return None;
    }
    if lits.dash.len() > l.len() - de || !occurs_at(&l, &lits.dash, de) {
        return None;
    }
    if !(de + lits.dash.len() < l.len()) {
        return None;
    }
    let fstart = strip_prefixes_from(&l, tag_len, pe, &lits.res);
    let digits = copy_range(&l, pe + 1, de);
    let line: u32 = match parse_u32(&digits) {
        Some(n) => n,
        None => 0,
    };
    let file = String::from_str(text.substring_char(ls + fstart, ls + pe));
    let message = String::from_str(text.substring_char(ls + de + lits.dash.len(), le));
    let severity = if err {
        String::from_str("error")
    } else {
        String::from_str("warning")
    };
    assert(text@.subrange(ls + fstart, ls + pe) =~= l@.subrange(fstart as int, pe as int));
    assert(text@.subrange(ls + de + lits.dash@.len(), le as int) =~= l@.subrange(
        de + lits.dash@.len(),
        l@.len() as int,
    ));
    Some(GodotDiagnostic { file, line, severity, message })
}

// ---------------------------------------------------------------------------
// Summary lines of the GDScript module
// ---------------------------------------------------------------------------

/// A summary-line match at `i`: its end and the bounds of the captured path.
fn cpp_at(s: &Vec<char>, i: usize, lits: &Literals) -> (r: Option<(usize, usize, usize)>)
    requires
        i <= s@.len(),
        lits.wf(),
    ensures
        match r {
            Some((end, d, f)) => d <= f < s@.len() && end == f + 1 && spec_cpp_at(s@, i as int)
                == Some((end as int, s@.subrange(d as int, f as int))),
            None => spec_cpp_at(s@, i as int) is None,
        },
{
    if lits.cpp_prefix.len() > s.len() - i || !occurs_at(s, &lits.cpp_prefix, i) {
        return None;
    }
    let a = i + lits.cpp_prefix.len();
    let b = run_end(s, a, RunClass::NotColon);
    proof {
        lemma_run_end_bounds(s@, a as int, RunClass::NotColon);
    }
    if !(b > a && b < s.len()) {
        return None;
    }
    let c = run_end(s, b + 1, RunClass::Digit);
    proof {
        lemma_run_end_bounds(s@, b + 1, RunClass::Digit);
    }
    if !(c > b + 1) {
        return None;
    }
    if lits.failed_load.len() > s.len() - c || !occurs_at(s, &lits.failed_load, c) {
        return None;
    }
    let d = c + lits.failed_load.len();
    if lits.res.len() > s.len() - d || !occurs_at(s, &lits.res, d) {
        return None;
    }
    let e = d + lits.res.len();
    let f = run_end(s, e, RunClass::NotQuote);
    proof {
        lemma_run_end_bounds(s@, e as int, RunClass::NotQuote);
    }
    if !(f > e && f < s.len()) {
        return None;
    }
    Some((f + 1, d, f))
}

fn line_start(s: &Vec<char>, i: usize) -> (b: bool)
    requires
        i <= s@.len(),
    ensures
        b == spec_line_start(s@, i as int),
{
    i == 0 || s[i - 1] == '\n'
}

fn cpp_diag(text: &str, s: &Vec<char>, d: usize, f: usize, lits: &Literals) -> (r: GodotDiagnostic)
    requires
        s@ == text@,
        d <= f <= s@.len(),
        lits.wf(),
    ensures
        r@ == spec_cpp_diag(s@.subrange(d as int, f as int)),
{
    let start = strip_prefixes_from(s, d, f, &lits.res);
    GodotDiagnostic {
        file: String::from_str(text.substring_char(start, f)),
        line: 0,
        severity: String::from_str("error"),
        message: String::from_str("Failed to load script"),
    }
}

// ---------------------------------------------------------------------------
// Repeats and order
// ---------------------------------------------------------------------------

fn copy_diag(d: &GodotDiagnostic) -> (r: GodotDiagnostic)
    ensures
        r@ == d@,
{
    GodotDiagnostic {
        file: d.file.clone(),
        line: d.line,
        severity: d.severity.clone(),
        message: d.message.clone(),
    }
}

fn same_key(a: &GodotDiagnostic, b: &GodotDiagnostic) -> (r: bool)
    ensures
        r == spec_same_key(a@, b@),
{
    a.file == b.file && a.line == b.line && a.message == b.message
}

fn has_key(d: &Vec<GodotDiagnostic>, x: &GodotDiagnostic) -> (r: bool)
    ensures
        r == spec_has_key(spec_diag_views(d@), x@),
{
    let ghost dv = spec_diag_views(d@);
    let mut j: usize = 0;
    while j < d.len()
        invariant
            j <= d@.len(),
            dv == spec_diag_views(d@),
            forall|k: int| 0 <= k < j ==> !spec_same_key(#[trigger] dv[k], x@),
        decreases d.len() - j,
    {
        if same_key(&d[j], x) {
            assert(spec_same_key(dv[j as int], x@));
            return true;
        }
        j = j + 1;
    }
    false
}

/// Keep the first diagnostic of each (file, line, message).
fn dedup(raw: &Vec<GodotDiagnostic>) -> (r: Vec<GodotDiagnostic>)
    ensures
        spec_diag_views(r@) == spec_dedup(spec_diag_views(raw@)),
{
    let ghost rv = spec_diag_views(raw@);
    let mut out: Vec<GodotDiagnostic> = Vec::new();
    let mut i: usize = 0;
    assert(rv.take(0) =~= Seq::<DiagnosticView>::empty());
    assert(spec_diag_views(out@) =~= Seq::<DiagnosticView>::empty());
    while i < raw.len()
        invariant
            i <= raw@.len(),
            rv == spec_diag_views(raw@),
            spec_diag_views(out@) == spec_dedup(rv.take(i as int)),
        decreases raw.len() - i,
    {
        assert(rv.take(i + 1).drop_last() =~= rv.take(i as int));
        if !has_key(&out, &raw[i]) {
            let c = copy_diag(&raw[i]);
            let ghost before = spec_diag_views(out@);
            out.push(c);
            assert(spec_diag_views(out@) =~= before.push(raw@[i as int]@));
        }
        i = i + 1;
    }
    assert(rv.take(raw.len() as int) =~= rv);
    out
}

fn not_after(a: &GodotDiagnostic, b: &GodotDiagnostic) -> (r: bool)
    ensures
        r == spec_not_after(a@, b@),
{
    let fa = chars_of(a.file.as_str());
    let fb = chars_of(b.file.as_str());
    crate::text::lex_less(&fa, &fb) || (a.file == b.file && a.line <= b.line)
}

proof fn lemma_insert_at(s: Seq<DiagnosticView>, x: DiagnosticView, p: int)
    requires
        0 <= p <= s.len(),
        forall|j: int| p <= j < s.len() ==> !spec_not_after(#[trigger] s[j], x),
        p == 0 || spec_not_after(s[p - 1], x),
    ensures
        spec_insert_sorted(s, x) == s.insert(p, x),
    decreases s.len(),
{
    if s.len() == 0 {
        assert(s.insert(p, x) =~= seq![x]);
    } else if spec_not_after(s.last(), x) {
        assert(p == s.len());
        assert(s.insert(p, x) =~= s.push(x));
    } else {
        assert(p < s.len());
        let t = s.drop_last();
        if p > 0 {
            assert(t[p - 1] == s[p - 1]);
        }
        lemma_insert_at(t, x, p);
        assert(t.insert(p, x).push(s.last()) =~= s.insert(p, x));
    }
}

/// Sort by file, then line, keeping the order of equals.
fn stable_sort(v: Vec<GodotDiagnostic>) -> (r: Vec<GodotDiagnostic>)
    ensures
        spec_diag_views(r@) == spec_stable_sort(spec_diag_views(v@)),
{
    let ghost vv = spec_diag_views(v@);
    let mut out: Vec<GodotDiagnostic> = Vec::new();
    let mut i: usize = 0;
    assert(vv.take(0) =~= Seq::<DiagnosticView>::empty());
    assert(spec_diag_views(out@) =~= Seq::<DiagnosticView>::empty());
    while i < v.len()
        invariant
            i <= v@.len(),
            vv == spec_diag_views(v@),
            spec_diag_views(out@) == spec_stable_sort(vv.take(i as int)),
        decreases v.len() - i,
    {
        assert(vv.take(i + 1).drop_last() =~= vv.take(i as int));
        let x = copy_diag(&v[i]);
        let ghost ov = spec_diag_views(out@);
        let mut p: usize = out.len();
        while p > 0 && !not_after(&out[p - 1], &x)
            invariant
                p <= out@.len(),
                ov == spec_diag_views(out@),
                forall|j: int| p <= j < ov.len() ==> !spec_not_after(#[trigger] ov[j], x@),
            decreases p,
        {
            p = p - 1;
        }
        proof {
            lemma_insert_at(ov, x@, p as int);
        }
        out.insert(p, x);
        assert(spec_diag_views(out@) =~= ov.insert(p as int, v@[i as int]@));
        i = i + 1;
    }
    assert(vv.take(v.len() as int) =~= vv);
    out
}

// ---------------------------------------------------------------------------
// The whole text
// ---------------------------------------------------------------------------

/// Read Godot's stderr for script errors and warnings.
///
/// Godot writes them as `ERROR: res://path/file.gd:42 - message` or
/// `WARNING: res://path/file.gd:10 - message`; the GDScript module also
/// writes summary lines `ERROR: modules/gdscript/gdscript.cpp:2907 - Failed
/// to load script "res://file.gd" ...`, which give line 0. Repeats (same
/// file, line and message) are dropped and the result is sorted by file,
/// then line.
pub fn parse_godot_stderr(stderr: &str) -> (r: Vec<GodotDiagnostic>)
    ensures
        spec_diag_views(r@) == spec_parse_godot_stderr(stderr@),
{
    let s = chars_of(stderr);
    let lits = Literals::new();
    let ranges = line_ranges(&s);
    let ghost lines = spec_split(s@, '\n');
    let mut raw: Vec<GodotDiagnostic> = Vec::new();
    let mut k: usize = 0;
    assert(lines.take(0) =~= Seq::<Seq<char>>::empty());
    assert(spec_diag_views(raw@) =~= Seq::<DiagnosticView>::empty());
    while k < ranges.len()
        invariant
            k <= ranges@.len(),
            s@ == stderr@,
            lits.wf(),
            lines == spec_split(s@, '\n'),
            spec_ranges_ok(s@, ranges@),
            spec_range_views(s@, ranges@) == lines,
            spec_diag_views(raw@) == spec_script_diags(lines.take(k as int)),
        decreases ranges.len() - k,
    {
        let (ls, le) = ranges[k];
        assert(lines[k as int] == s@.subrange(ls as int, le as int));
        assert(lines.take(k + 1).drop_last() =~= lines.take(k as int));
        let ghost before = spec_diag_views(raw@);
        match parse_script_line(stderr, &s, ls, le, &lits) {
            Some(d) => {
                raw.push(d);
                assert(spec_diag_views(raw@) =~= before.push(raw@.last()@));
            },
            None => {},
        }
        k = k + 1;
    }
    assert(lines.take(ranges.len() as int) =~= lines);
    let ghost script = spec_diag_views(raw@);
    let ghost mut caps: Seq<Seq<char>> = Seq::empty();
    let mut pos: usize = 0;
    assert(caps + spec_cpp_scan(s@, 0) =~= spec_cpp_scan(s@, 0));
    assert(spec_diag_views(raw@) =~= script + spec_cpp_diags(caps));
    while pos < s.len()
        invariant
            pos <= s@.len(),
            s@ == stderr@,
            lits.wf(),
            spec_cpp_scan(s@, 0) == caps + spec_cpp_scan(s@, pos as int),
            spec_diag_views(raw@) == script + spec_cpp_diags(caps),
        decreases s@.len() - pos,
    {
        let ghost before = spec_diag_views(raw@);
        if line_start(&s, pos) {
            match cpp_at(&s, pos, &lits) {
                Some((end, d, f)) => {
                    let diag = cpp_diag(stderr, &s, d, f, &lits);
                    raw.push(diag);
                    proof {
                        let cap = s@.subrange(d as int, f as int);
                        assert(raw@.last()@ == spec_cpp_diag(cap));
                        assert(spec_diag_views(raw@) =~= before.push(spec_cpp_diag(cap)));
                        assert(spec_cpp_scan(s@, pos as int) == seq![cap] + spec_cpp_scan(s@, end as int));
                        assert(caps + spec_cpp_scan(s@, pos as int) =~= caps.push(cap) + spec_cpp_scan(s@, end as int));
                        assert(spec_cpp_diags(caps.push(cap)) =~= spec_cpp_diags(caps).push(
                            spec_cpp_diag(cap),
                        ));
                        caps = caps.push(cap);
                        assert(spec_diag_views(raw@) =~= script + spec_cpp_diags(caps));
                    }
                    pos = end;
                },
                None => {
                    pos = pos + 1;
                },
            }
        } else {
            pos = pos + 1;
        }
    }
    assert(!spec_occurs_at(s@, spec_cpp_prefix(), s@.len() as int));
    assert(spec_cpp_scan(s@, s@.len() + 1int) =~= Seq::<Seq<char>>::empty());
    assert(caps + spec_cpp_scan(s@, pos as int) =~= caps);
    let unique = dedup(&raw);
    stable_sort(unique)
}

} // verus!

verus! {

// ---------------------------------------------------------------------------
// What the result always satisfies
// ---------------------------------------------------------------------------

/// No two diagnostics repeat each other.
pub open spec fn spec_keys_distinct(s: Seq<DiagnosticView>) -> bool {
    forall|i: int, j: int| 0 <= i < j < s.len() ==> !spec_same_key(#[trigger] s[i], #[trigger] s[j])
}

/// Ordered by file path, then line number.
pub open spec fn spec_sorted(s: Seq<DiagnosticView>) -> bool {
    forall|i: int, j: int| 0 <= i < j < s.len() ==> spec_not_after(#[trigger] s[i], #[trigger] s[j])
}

proof fn lemma_not_after_total(a: DiagnosticView, b: DiagnosticView)
    ensures
        spec_not_after(a, b) || spec_not_after(b, a),
{
    crate::text::lemma_lex_trichotomy(a.file, b.file);
}

proof fn lemma_not_after_transitive(a: DiagnosticView, b: DiagnosticView, c: DiagnosticView)
    requires
        spec_not_after(a, b),
        spec_not_after(b, c),
    ensures
        spec_not_after(a, c),
{
    if crate::text::spec_lex_lt(a.file, b.file) && crate::text::spec_lex_lt(b.file, c.file) {
        crate::text::lemma_lex_transitive(a.file, b.file, c.file);
    }
}

proof fn lemma_dedup_props(s: Seq<DiagnosticView>)
    ensures
        spec_keys_distinct(spec_dedup(s)),
        forall|y: DiagnosticView| spec_dedup(s).contains(y) ==> s.contains(y),
        forall|k: int| 0 <= k < s.len() ==> spec_has_key(spec_dedup(s), #[trigger] s[k]),
    decreases s.len(),
{
    if s.len() > 0 {
        let t = s.drop_last();
        lemma_dedup_props(t);
        let d = spec_dedup(t);
        assert forall|y: DiagnosticView| spec_dedup(s).contains(y) implies s.contains(y) by {
            if d.contains(y) {
                assert(t.contains(y));
                let k = choose|k: int| 0 <= k < t.len() && t[k] == y;
                assert(s[k] == y);
            } else {
                assert(y == s.last());
                assert(s[s.len() - 1] == y);
            }
        }
        assert forall|k: int| 0 <= k < s.len() implies spec_has_key(spec_dedup(s), #[trigger] s[k]) by {
            if k < s.len() - 1 {
                assert(t[k] == s[k]);
                assert(spec_has_key(d, t[k]));
                let j = choose|j: int| 0 <= j < d.len() && spec_same_key(d[j], t[k]);
                assert(spec_dedup(s)[j] == d[j]);
            } else if !spec_has_key(d, s.last()) {
                assert(spec_dedup(s)[d.len() as int] == s.last());
                assert(spec_same_key(spec_dedup(s)[d.len() as int], s[k]));
            }
        }
    }
}

#[verifier::spinoff_prover]
#[verifier::rlimit(30)]
proof fn lemma_insert_sorted_props(s: Seq<DiagnosticView>, x: DiagnosticView)
    ensures
        spec_insert_sorted(s, x).len() == s.len() + 1,
        spec_insert_sorted(s, x).contains(x),
        forall|y: DiagnosticView| spec_insert_sorted(s, x).contains(y) <==> (s.contains(y) || y == x),
        spec_sorted(s) ==> spec_sorted(spec_insert_sorted(s, x)),
        spec_keys_distinct(s) && !spec_has_key(s, x) ==> spec_keys_distinct(spec_insert_sorted(s, x)),
    decreases s.len(),
{
    let r = spec_insert_sorted(s, x);
    if s.len() == 0 {
        assert forall|y: DiagnosticView| r.contains(y) <==> (s.contains(y) || y == x) by {
            if r.contains(y) {
                assert(r[0] == y);
            }
            if y == x {
                assert(r[0] == y);
            }
        }
    } else if spec_not_after(s.last(), x) {
        assert(r == s.push(x));
        assert forall|y: DiagnosticView| r.contains(y) <==> (s.contains(y) || y == x) by {
            if r.contains(y) {
                let k = choose|k: int| 0 <= k < r.len() && r[k] == y;
                if k < s.len() {
                    assert(s[k] == y);
                }
            }
            if s.contains(y) {
                let k = choose|k: int| 0 <= k < s.len() && s[k] == y;
                assert(r[k] == y);
            }
            if y == x {
                assert(r[s.len() as int] == y);
            }
        }
        if spec_sorted(s) {
            assert forall|i: int, j: int| 0 <= i < j < r.len() implies spec_not_after(
                #[trigger] r[i],
                #[trigger] r[j],
            ) by {
                if j == s.len() {
                    if i < s.len() - 1 {
                        assert(spec_not_after(s[i], s[s.len() - 1]));
                        lemma_not_after_transitive(s[i], s.last(), x);
                    }
                } else {
                    assert(spec_not_after(s[i], s[j]));
                }
            }
        }
        if spec_keys_distinct(s) && !spec_has_key(s, x) {
            assert forall|i: int, j: int| 0 <= i < j < r.len() implies !spec_same_key(
                #[trigger] r[i],
                #[trigger] r[j],
            ) by {
                if j == s.len() {
                    assert(!spec_same_key(s[i], x));
                } else {
                    assert(!spec_same_key(s[i], s[j]));
                }
            }
        }
    } else {
        let t = s.drop_last();
        let last = s.last();
        lemma_insert_sorted_props(t, x);
        let q = spec_insert_sorted(t, x);
        assert(r == q.push(last));
        assert forall|y: DiagnosticView| r.contains(y) <==> (s.contains(y) || y == x) by {
            if r.contains(y) {
                let k = choose|k: int| 0 <= k < r.len() && r[k] == y;
                if k < q.len() {
                    assert(q[k] == y);
                    if t.contains(y) {
                        let m = choose|m: int| 0 <= m < t.len() && t[m] == y;
                        assert(s[m] == y);
                    }
                } else {
                    assert(s[s.len() - 1] == y);
                }
            }
            if s.contains(y) {
                let k = choose|k: int| 0 <= k < s.len() && s[k] == y;
                if k < t.len() {
                    assert(t[k] == y);
                    assert(t.contains(y));
                    assert(q.contains(y));
                    let m = choose|m: int| 0 <= m < q.len() && q[m] == y;
                    assert(r[m] == y);
                } else {
                    assert(r[q.len() as int] == y);
                }
            }
            if y == x {
                assert(q.contains(x));
                let m = choose|m: int| 0 <= m < q.len() && q[m] == x;
                assert(r[m] == y);
            }
        }
        lemma_not_after_total(last, x);
        if spec_sorted(s) {
            assert(spec_sorted(t));
            assert forall|i: int, j: int| 0 <= i < j < r.len() implies spec_not_after(
                #[trigger] r[i],
                #[trigger] r[j],
            ) by {
                if j == q.len() {
                    assert(q.contains(q[i]));
                    if q[i] == x {
                    } else {
                        assert(t.contains(q[i]));
                        let m = choose|m: int| 0 <= m < t.len() && t[m] == q[i];
                        assert(spec_not_after(s[m], s[s.len() - 1]));
                    }
                } else {
                    assert(spec_not_after(q[i], q[j]));
                }
            }
        }
        if spec_keys_distinct(s) && !spec_has_key(s, x) {
            assert(spec_keys_distinct(t));
            assert(!spec_has_key(t, x)) by {
                if spec_has_key(t, x) {
                    let m = choose|m: int| 0 <= m < t.len() && spec_same_key(t[m], x);
                    assert(spec_same_key(s[m], x));
                }
            }
            assert forall|i: int, j: int| 0 <= i < j < r.len() implies !spec_same_key(
                #[trigger] r[i],
                #[trigger] r[j],
            ) by {
                if j == q.len() {
                    assert(q.contains(q[i]));
                    if q[i] == x {
                        assert(!spec_same_key(s[s.len() - 1], x));
                    } else {
                        assert(t.contains(q[i]));
                        let m = choose|m: int| 0 <= m < t.len() && t[m] == q[i];
                        assert(!spec_same_key(s[m], s[s.len() - 1]));
                    }
                } else {
                    assert(!spec_same_key(q[i], q[j]));
                }
            }
        }
    }
}

proof fn lemma_stable_sort_props(s: Seq<DiagnosticView>)
    ensures
        spec_stable_sort(s).len() == s.len(),
        forall|y: DiagnosticView| spec_stable_sort(s).contains(y) <==> s.contains(y),
        spec_sorted(spec_stable_sort(s)),
        spec_keys_distinct(s) ==> spec_keys_distinct(spec_stable_sort(s)),
    decreases s.len(),
{
    if s.len() > 0 {
        let t = s.drop_last();
        lemma_stable_sort_props(t);
        let q = spec_stable_sort(t);
        lemma_insert_sorted_props(q, s.last());
        assert forall|y: DiagnosticView| spec_stable_sort(s).contains(y) <==> s.contains(y) by {
            if t.contains(y) {
                let m = choose|m: int| 0 <= m < t.len() && t[m] == y;
                assert(s[m] == y);
            }
            if s.contains(y) && y != s.last() {
                let m = choose|m: int| 0 <= m < s.len() && s[m] == y;
                assert(t[m] == y);
            }
            if y == s.last() {
                assert(s[s.len() - 1] == y);
            }
        }
        if spec_keys_distinct(s) {
            assert(spec_keys_distinct(t));
            assert(!spec_has_key(q, s.last())) by {
                if spec_has_key(q, s.last()) {
                    let m = choose|m: int| 0 <= m < q.len() && spec_same_key(q[m], s.last());
                    assert(q.contains(q[m]));
                    assert(t.contains(q[m]));
                    let k = choose|k: int| 0 <= k < t.len() && t[k] == q[m];
                    assert(!spec_same_key(s[k], s[s.len() - 1]));
                }
            }
        }
    }
}

/// What the parser promises of every text: the diagnostics come sorted by
/// file and then line, no two repeat each other (same file, line and
/// message), each one is a match found in the text, and every match found
/// is represented by one with its file, line and message.
pub proof fn lemma_parse_sorted_and_unique(s: Seq<char>)
    ensures
        spec_sorted(spec_parse_godot_stderr(s)),
        spec_keys_distinct(spec_parse_godot_stderr(s)),
        forall|y: DiagnosticView| spec_parse_godot_stderr(s).contains(y) ==> spec_raw_diagnostics(
            s,
        ).contains(y),
        forall|k: int| 0 <= k < spec_raw_diagnostics(s).len() ==> spec_has_key(
            spec_parse_godot_stderr(s),
            #[trigger] spec_raw_diagnostics(s)[k],
        ),
{
    let raw = spec_raw_diagnostics(s);
    let d = spec_dedup(raw);
    lemma_dedup_props(raw);
    lemma_stable_sort_props(d);
    let r = spec_stable_sort(d);
    assert forall|k: int| 0 <= k < raw.len() implies spec_has_key(r, #[trigger] raw[k]) by {
        assert(spec_has_key(d, raw[k]));
        let j = choose|j: int| 0 <= j < d.len() && spec_same_key(d[j], raw[k]);
        assert(d.contains(d[j]));
        assert(r.contains(d[j]));
        let m = choose|m: int| 0 <= m < r.len() && r[m] == d[j];
        assert(spec_same_key(r[m], raw[k]));
    }
}

} // verus!

verus! {

/// The diagnostics of `d` whose severity is `severity`, in order.
pub open spec fn spec_with_severity(d: Seq<DiagnosticView>, severity: Seq<char>) -> Seq<DiagnosticView>
    decreases d.len(),
{
    if d.len() == 0 {
        Seq::empty()
    } else if d.last().severity == severity {
        spec_with_severity(d.drop_last(), severity).push(d.last())
    } else {
        spec_with_severity(d.drop_last(), severity)
    }
}

/// Keep the diagnostics of one severity (`error` or `warning`), in order.
pub fn with_severity(diags: &Vec<GodotDiagnostic>, severity: &str) -> (r: Vec<GodotDiagnostic>)
    ensures
        spec_diag_views(r@) == spec_with_severity(spec_diag_views(diags@), severity@),
{
    let ghost dv = spec_diag_views(diags@);
    let want = String::from_str(severity);
    let mut out: Vec<GodotDiagnostic> = Vec::new();
    let mut i: usize = 0;
    assert(dv.take(0) =~= Seq::<DiagnosticView>::empty());
    assert(spec_diag_views(out@) =~= Seq::<DiagnosticView>::empty());
    while i < diags.len()
        invariant
            i <= diags@.len(),
            dv == spec_diag_views(diags@),
            want@ == severity@,
            spec_diag_views(out@) == spec_with_severity(dv.take(i as int), severity@),
        decreases diags.len() - i,
    {
        proof {
            assert(dv.take(i + 1).drop_last() =~= dv.take(i as int));
            assert(dv.take(i + 1).last() == dv[i as int]);
            assert(spec_with_severity(dv.take(i + 1), severity@) == if dv[i as int].severity
                == severity@ {
                spec_with_severity(dv.take(i as int), severity@).push(dv[i as int])
            } else {
                spec_with_severity(dv.take(i as int), severity@)
            });
        }
        let ghost before = spec_diag_views(out@);
        if diags[i].severity == want {
            let c = copy_diag(&diags[i]);
            out.push(c);
            assert(spec_diag_views(out@) =~= before.push(dv[i as int]));
        }
        i = i + 1;
    }
    assert(dv.take(diags.len() as int) =~= dv);
    out
}

/// The lines joined with `\n` between them (`[String]::join`).
pub open spec fn spec_join_lines(lines: Seq<Seq<char>>) -> Seq<char>
    decreases lines.len(),
{
    if lines.len() == 0 {
        Seq::empty()
    } else if lines.len() == 1 {
        lines[0]
    } else {
        spec_join_lines(lines.drop_last()) + seq!['\n'] + lines.last()
    }
}

pub open spec fn spec_string_views(v: Seq<String>) -> Seq<Seq<char>> {
    v.map_values(|s: String| s@)
}

/// Join log lines into one text, one line after another.
pub fn join_lines(lines: &Vec<String>) -> (r: String)
    ensures
        r@ == spec_join_lines(spec_string_views(lines@)),
{
    let ghost lv = spec_string_views(lines@);
    let mut out = String::new();
    let mut i: usize = 0;
    assert(lv.take(0) =~= Seq::<Seq<char>>::empty());
    while i < lines.len()
        invariant
            i <= lines@.len(),
            lv == spec_string_views(lines@),
            out@ == spec_join_lines(lv.take(i as int)),
        decreases lines.len() - i,
    {
        assert(lv.take(i + 1).drop_last() =~= lv.take(i as int));
        if i > 0 {
            out.append("\n");
            proof {
                reveal_strlit("\n");
            }
        }
        out.append(lines[i].as_str());
        proof {
            if i == 0 {
                assert(lv.take(1)[0] == lv[0]);
            } else {
                assert(out@ =~= spec_join_lines(lv.take(i as int)) + seq!['\n'] + lv[i as int]);
            }
        }
        i = i + 1;
    }
    assert(lv.take(lines.len() as int) =~= lv);
    out
}

} // verus!
