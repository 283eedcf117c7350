use vstd::prelude::*;
use crate::text::{
    chars_of, occurs_at, parse_u16, spec_parse_u16, spec_split, spec_starts_with, spec_trim,
    spec_views, split_chars, trim_chars, Strip,
};

verus! {

broadcast use vstd::string::group_string_axioms;

/// Port of the editor plugin when nothing else is configured.
pub const DEFAULT_EDITOR_PORT: u16 = 6551;

/// Port of the headless daemon when nothing else is configured.
pub const DEFAULT_DAEMON_PORT: u16 = 6550;

/// The section header that holds the director's settings in `project.godot`.
pub open spec fn spec_director_header() -> Seq<char> {
    seq!['[', 'd', 'i', 'r', 'e', 'c', 't', 'o', 'r', ']']
}

/// The key of the editor port setting.
pub open spec fn spec_port_key() -> Seq<char> {
    seq![
        'c', 'o', 'n', 'n', 'e', 'c', 't', 'i', 'o', 'n', '/', 'e', 'd', 'i', 't', 'o', 'r', '_',
        'p', 'o', 'r', 't', '=',
    ]
}

/// The port that the first `connection/editor_port=` line inside a
/// `[director]` section gives, scanning `lines` with `in_section` telling
/// whether the scan starts inside that section. Every line is taken trimmed;
/// a line that starts with `[` opens a section. The first key line in the
/// section decides: an unparsable value gives `None`.
pub open spec fn spec_scan_port(lines: Seq<Seq<char>>, in_section: bool) -> Option<u16>
    decreases lines.len(),
{
    if lines.len() == 0 {
        None
    } else {
        let t = spec_trim(lines[0], Strip::Whitespace);
        if t.len() > 0 && t[0] == '[' {
            spec_scan_port(lines.drop_first(), t == spec_director_header())
        } else if in_section && spec_starts_with(t, spec_port_key()) {
            let value = t.subrange(spec_port_key().len() as int, t.len() as int);
            spec_parse_u16(spec_trim(spec_trim(value, Strip::Whitespace), Strip::Only('"')))
        } else {
            spec_scan_port(lines.drop_first(), in_section)
        }
    }
}

/// The editor port written in a `project.godot` text. Lines are the pieces
/// between `\n`; a `\r` before a `\n` is white space and goes with the trim.
pub open spec fn spec_project_editor_port(contents: Seq<char>) -> Option<u16> {
    spec_scan_port(spec_split(contents, '\n'), false)
}

fn header_and_key() -> (r: (Vec<char>, Vec<char>))
    ensures
        r.0@ == spec_director_header(),
        r.1@ == spec_port_key(),
{
    let header = vec!['[', 'd', 'i', 'r', 'e', 'c', 't', 'o', 'r', ']'];
    let key = vec![
        'c', 'o', 'n', 'n', 'e', 'c', 't', 'i', 'o', 'n', '/', 'e', 'd', 'i', 't', 'o', 'r', '_',
        'p', 'o', 'r', 't', '=',
    ];
    assert(header@ =~= spec_director_header());
    assert(key@ =~= spec_port_key());
    (header, key)
}

fn chars_equal(a: &Vec<char>, b: &Vec<char>) -> (r: bool)
    ensures
        r == (a@ == b@),
{
    if a.len() != b.len() {
        return false;
    }
    let r = occurs_at(a, b, 0);
    proof {
        if r {
            assert(a@.subrange(0, b@.len() as int) =~= a@);
        } else {
            assert(a@.subrange(0, b@.len() as int) =~= a@);
        }
    }
    r
}

/// Parse the editor port from `project.godot` content: the value of
/// `connection/editor_port=<number>` under the `[director]` section.
pub fn parse_editor_port_from_project(contents: &str) -> (r: Option<u16>)
    ensures
        r == spec_project_editor_port(contents@),
{
    let all = chars_of(contents);
    let lines = split_chars(&all, '\n');
    let (header, key) = header_and_key();
    let ghost ls = spec_split(contents@, '\n');
    let mut in_section = false;
    let mut i: usize = 0;
    assert(ls.skip(0) =~= ls);
    while i < lines.len()
        invariant
            i <= lines.len(),
            spec_views(lines@) == ls,
            ls == spec_split(contents@, '\n'),
            header@ == spec_director_header(),
            key@ == spec_port_key(),
            spec_scan_port(ls, false) == spec_scan_port(ls.skip(i as int), in_section),
        decreases lines.len() - i,
    {
        let ghost rest = ls.skip(i as int);
        assert(rest[0] == lines@[i as int]@);
        assert(rest.drop_first() =~= ls.skip(i + 1));
        let t = trim_chars(&lines[i], Strip::Whitespace);
        if t.len() > 0 && t[0] == '[' {
            in_section = chars_equal(&t, &header);
        } else if in_section && t.len() >= key.len() && occurs_at(&t, &key, 0) {
            let mut value: Vec<char> = Vec::new();
            let mut j: usize = key.len();
            while j < t.len()
                invariant
                    key.len() <= j <= t.len(),
                    value@ == t@.subrange(key.len() as int, j as int),
                decreases t.len() - j,
            {
                value.push(t[j]);
                assert(value@ =~= t@.subrange(key.len() as int, j + 1));
                j = j + 1;
            }
            assert(spec_starts_with(t@, key@));
            assert(t@ == spec_trim(rest[0], Strip::Whitespace));
            let inner = trim_chars(&value, Strip::Whitespace);
            let unquoted = trim_chars(&inner, Strip::Only('"'));
            let r = parse_u16(&unquoted);
            assert(value@ == t@.subrange(spec_port_key().len() as int, t@.len() as int));
            assert(spec_scan_port(rest, in_section) == spec_parse_u16(
                spec_trim(spec_trim(value@, Strip::Whitespace), Strip::Only('"')),
            ));
            return r;
        }
        i = i + 1;
    }
    assert(ls.skip(i as int).len() == 0);
    None
}

/// The editor port: the environment's value when it parses as a port, else
/// the one in `project.godot` when the file was read and names one, else the
/// default.
pub open spec fn spec_choose_editor_port(env_value: Option<Seq<char>>, project_file: Option<Seq<char>>) -> u16 {
    if env_value is Some && spec_parse_u16(env_value->0) is Some {
        spec_parse_u16(env_value->0)->0
    } else if project_file is Some && spec_project_editor_port(project_file->0) is Some {
        spec_project_editor_port(project_file->0)->0
    } else {
        DEFAULT_EDITOR_PORT
    }
}

/// Choose the editor plugin port from the value of `DIRECTOR_EDITOR_PORT`
/// (if set) and the text of `project.godot` (if it could be read).
pub fn choose_editor_port(env_value: Option<&str>, project_file: Option<&str>) -> (port: u16)
    ensures
        port == spec_choose_editor_port(
            match env_value { Some(v) => Some(v@), None => None },
            match project_file { Some(v) => Some(v@), None => None },
        ),
{
    if let Some(v) = env_value {
        let cs = chars_of(v);
        if let Some(p) = parse_u16(&cs) {
            return p;
        }
    }
    if let Some(text) = project_file {
        if let Some(p) = parse_editor_port_from_project(text) {
            return p;
        }
    }
    DEFAULT_EDITOR_PORT
}

/// The daemon port: the environment's value when it parses as a port, else
/// the default.
pub open spec fn spec_choose_daemon_port(env_value: Option<Seq<char>>) -> u16 {
    if env_value is Some && spec_parse_u16(env_value->0) is Some {
        spec_parse_u16(env_value->0)->0
    } else {
        DEFAULT_DAEMON_PORT
    }
}

/// Choose the daemon port from the value of `DIRECTOR_DAEMON_PORT`, if set.
pub fn choose_daemon_port(env_value: Option<&str>) -> (port: u16)
    ensures
        port == spec_choose_daemon_port(match env_value { Some(v) => Some(v@), None => None }),
{
    if let Some(v) = env_value {
        let cs = chars_of(v);
        if let Some(p) = parse_u16(&cs) {
            return p;
        }
    }
    DEFAULT_DAEMON_PORT
}

} // verus!
