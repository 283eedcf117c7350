use vstd::prelude::*;
use crate::diagnostics::{copy_range, line_ranges, spec_range_views, spec_ranges_ok};
use crate::text::{chars_of, spec_split, spec_trim, trim_bounds, Strip};

verus! {

broadcast use vstd::string::group_string_axioms;

/// A line without the `\r` of a `\r\n` ending.
pub open spec fn spec_strip_cr(l: Seq<char>) -> Seq<char> {
    if l.len() > 0 && l.last() == '\r' {
        l.drop_last()
    } else {
        l
    }
}

/// The lines of `s` as `str::lines` gives them: the pieces between `\n`s,
/// a `\r` before a `\n` removed, and no empty line after a final `\n`.
pub open spec fn spec_lines(s: Seq<char>) -> Seq<Seq<char>> {
    let parts = spec_split(s, '\n');
    let ended = parts.drop_last().map_values(|l: Seq<char>| spec_strip_cr(l));
    if parts.last().len() == 0 {
        ended
    } else {
        ended.push(parts.last())
    }
}

/// The last of `lines` that, trimmed, starts with `{`.
pub open spec fn spec_last_json_line(lines: Seq<Seq<char>>) -> Option<Seq<char>>
    decreases lines.len(),
{
    if lines.len() == 0 {
        None
    } else {
        let t = spec_trim(lines.last(), Strip::Whitespace);
        if t.len() > 0 && t[0] == '{' {
            Some(lines.last())
        } else {
            spec_last_json_line(lines.drop_last())
        }
    }
}

/// The line of a one-shot run's stdout that holds its result: the last one
/// that, trimmed, starts with `{` (Godot may print other lines after it
/// while it shuts down).
pub fn result_line(stdout: &str) -> (r: Option<String>)
    ensures
        match r {
            Some(l) => spec_last_json_line(spec_lines(stdout@)) == Some(l@),
            None => spec_last_json_line(spec_lines(stdout@)) is None,
        },
{
    let s = chars_of(stdout);
    let ranges = line_ranges(&s);
    let ghost parts = spec_split(s@, '\n');
    let ghost lines = spec_lines(s@);
    proof {
        crate::text::lemma_split_nonempty(s@, '\n');
    }
    let n = ranges.len();
    // How many of the pieces are lines: the last piece counts only when
    // it is not empty.
    let (last_start, last_end) = ranges[n - 1];
    let count: usize = if last_start == last_end { n - 1 } else { n };
    assert(parts[n - 1] == s@.subrange(last_start as int, last_end as int));
    assert(lines.len() == count);
    let mut k: usize = count;
    assert(lines.take(count as int) =~= lines);
    while k > 0
        invariant
            k <= count <= n,
            n == ranges@.len(),
            n == parts.len(),
            count == lines.len(),
            s@ == stdout@,
            parts == spec_split(s@, '\n'),
            lines == spec_lines(s@),
            spec_ranges_ok(s@, ranges@),
            spec_range_views(s@, ranges@) == parts,
            spec_last_json_line(lines) == spec_last_json_line(lines.take(k as int)),
        decreases k,
    {
        let (a, b0) = ranges[k - 1];
        assert(parts[k - 1] == s@.subrange(a as int, b0 as int));
        // A line that a `\n` ended loses the `\r` before it.
        let b: usize = if k - 1 < n - 1 && b0 > a && s[b0 - 1] == '\r' { b0 - 1 } else { b0 };
        proof {
            if k - 1 < n - 1 {
                assert(lines[k - 1] == spec_strip_cr(parts[k - 1]));
                if b0 > a && s@[b0 - 1] == '\r' {
                    assert(parts[k - 1].drop_last() =~= s@.subrange(a as int, b as int));
                }
            } else {
                assert(lines[k - 1] == parts[k - 1]);
            }
            assert(lines[k - 1] == s@.subrange(a as int, b as int));
            assert(lines.take(k as int).last() == lines[k - 1]);
            assert(lines.take(k as int).drop_last() =~= lines.take(k - 1));
        }
        let line = copy_range(&s, a, b);
        let (lo, hi) = trim_bounds(&line, Strip::Whitespace);
        if lo < hi && line[lo] == '{' {
            proof {
                assert(spec_trim(line@, Strip::Whitespace)[0] == line@[lo as int]);
            }
            return Some(String::from_str(stdout.substring_char(a, b)));
        }
        proof {
            if lo < hi {
                assert(spec_trim(line@, Strip::Whitespace)[0] == line@[lo as int]);
            }
        }
        k = k - 1;
    }
    assert(lines.take(0) =~= Seq::<Seq<char>>::empty());
    None
}

/// The exit status reported when stdout holds no result line: the
/// process's exit code, or -1 when it has none (killed by a signal).
pub fn missing_result_status(exit_code: Option<i32>) -> (status: i32)
    ensures
        status == (match exit_code {
            Some(c) => c,
            None => -1i32,
        }),
{
    match exit_code {
        Some(c) => c,
        None => -1,
    }
}

} // verus!
