//! The launcher's configuration: reading values from INI-style text and
//! migrating legacy `;` comments to TOML's `#`.
use vstd::prelude::*;
use crate::text::{
    chars_of, is_ws, is_ws_char, join_lines, lines_of, push_char, same_chars, slice_chars, string_of,
    text_lines, trim, trim_back, trim_chars, trim_front, trim_ws,
};

verus! {

/// The legacy comment symbol that is migrated.
pub const LEGACY_COMMENT_SYMBOL: char = ';';

/// TOML's comment symbol, which every comment ends up with.
pub const TOML_COMMENT_SYMBOL: char = '#';

/// A trimmed line that the INI reader passes over: empty, or a comment.
pub open spec fn ini_skipped(t: Seq<char>) -> bool {
    t.len() == 0 || t[0] == ';'
}

/// A trimmed line that opens a section.
pub open spec fn ini_header(t: Seq<char>) -> bool {
    t.len() > 0 && t[0] == '[' && t.last() == ']'
}

/// `c` first occurs in `t` at position `p`.
pub open spec fn first_at(t: Seq<char>, c: char, p: int) -> bool {
    0 <= p < t.len() && t[p] == c && forall|k: int| 0 <= k < p ==> t[k] != c
}

/// The value a trimmed line gives to `key`: the line splits at its first
/// `=`, the trimmed left side is `key`, and the value is the right side
/// trimmed of white space and then of quotes.
pub open spec fn line_value(t: Seq<char>, key: Seq<char>) -> Option<Seq<char>> {
    if exists|p: int| first_at(t, '=', p) {
        let p = choose|p: int| first_at(t, '=', p);
        if trim_ws(t.take(p)) == key {
            Some(trim(trim_ws(t.skip(p + 1)), true))
        } else {
            None
        }
    } else {
        None
    }
}

/// The value of `key` found from line `i` on, `current` being the header of
/// the section the reader is in.
pub open spec fn ini_scan(
    lines: Seq<Seq<char>>,
    i: int,
    current: Seq<char>,
    header: Seq<char>,
    key: Seq<char>,
) -> Option<Seq<char>>
    decreases lines.len() - i,
{
    if i < 0 || i >= lines.len() {
        None
    } else {
        let t = trim_ws(lines[i]);
        if ini_skipped(t) {
            ini_scan(lines, i + 1, current, header, key)
        } else if ini_header(t) {
            ini_scan(lines, i + 1, t, header, key)
        } else if current == header && line_value(t, key) is Some {
            line_value(t, key)
        } else {
            ini_scan(lines, i + 1, current, header, key)
        }
    }
}

/// The value of `key` in section `[section]` of INI text: the first line of
/// that section that assigns it.
pub open spec fn ini_value(content: Seq<char>, section: Seq<char>, key: Seq<char>) -> Option<
    Seq<char>,
> {
    ini_scan(text_lines(content), 0, Seq::empty(), seq!['['] + section + seq![']'], key)
}

fn value_in_line(t: &Vec<char>, key: &Vec<char>) -> (r: Option<Vec<char>>)
    ensures
        r matches Some(v) ==> line_value(t@, key@) == Some(v@),
        r is None ==> line_value(t@, key@) is None,
{
    let mut p: usize = 0;
    while p < t.len() && t[p] != '='
        invariant
            p <= t.len(),
            forall|k: int| 0 <= k < p ==> t@[k] != '=',
        decreases t.len() - p,
    {
        p = p + 1;
    }
    if p == t.len() {
        assert(!exists|q: int| first_at(t@, '=', q));
        return None;
    }
    assert(first_at(t@, '=', p as int));
    assert forall|q: int| first_at(t@, '=', q) implies q == p by {
        if q < p {
            assert(t@[q] != '=');
        }
        if q > p {
            assert(t@[p as int] != '=');
        }
    }
    let left = trim_chars(&slice_chars(t, 0, p), false);
    assert(t@.subrange(0, p as int) =~= t@.take(p as int));
    if !same_chars(&left, key) {
        return None;
    }
    let right = trim_chars(&slice_chars(t, p + 1, t.len()), false);
    assert(t@.subrange(p + 1, t.len() as int) =~= t@.skip(p + 1));
    Some(trim_chars(&right, true))
}

/// The value of `key` in section `[section]` of INI text, trimmed and
/// unquoted; `None` when no line of that section assigns it.
pub fn get_ini_value(content: &str, section: &str, key: &str) -> (r: Option<String>)
    ensures
        r matches Some(v) ==> ini_value(content@, section@, key@) == Some(v@),
        r is None ==> ini_value(content@, section@, key@) is None,
{
    let lines = lines_of(&chars_of(content));
    let ghost ls = lines@.map_values(|l: Vec<char>| l@);
    let mut header: Vec<char> = Vec::new();
    header.push('[');
    let sec = chars_of(section);
    let mut j: usize = 0;
    while j < sec.len()
        invariant
            j <= sec.len(),
            header@ == seq!['['] + sec@.take(j as int),
        decreases sec.len() - j,
    {
        header.push(sec[j]);
        j = j + 1;
        assert(header@ =~= seq!['['] + sec@.take(j as int));
    }
    header.push(']');
    assert(sec@.take(sec.len() as int) =~= sec@);
    assert(header@ =~= seq!['['] + section@ + seq![']']);
    let keyv = chars_of(key);
    let mut current: Vec<char> = Vec::new();
    let mut i: usize = 0;
    while i < lines.len()
        invariant
            ls == lines@.map_values(|l: Vec<char>| l@),
            ls == text_lines(content@),
            header@ == seq!['['] + section@ + seq![']'],
            keyv@ == key@,
            i <= lines@.len(),
            ini_value(content@, section@, key@) == ini_scan(ls, i as int, current@, header@, key@),
        decreases lines@.len() - i,
    {
        let t = trim_chars(&lines[i], false);
        assert(t@ == trim_ws(ls[i as int]));
        if t.len() == 0 || t[0] == ';' {
        } else if t[0] == '[' && t[t.len() - 1] == ']' {
            current = t;
        } else if same_chars(&current, &header) {
            match value_in_line(&t, &keyv) {
                Some(v) => {
                    return Some(string_of(&v));
                },
                None => {},
            }
        }
        i = i + 1;
    }
    None
}

/// Position of the first character of `l` that is not white space.
pub open spec fn indent_of(l: Seq<char>) -> int {
    l.len() - trim_front(l, false).len()
}

/// A line whose first visible character is the legacy symbol gets TOML's
/// symbol there instead; any other line is kept.
pub open spec fn normalized_line(l: Seq<char>) -> Seq<char> {
    let t = trim_ws(l);
    if t.len() > 0 && t[0] == LEGACY_COMMENT_SYMBOL {
        l.update(indent_of(l), TOML_COMMENT_SYMBOL)
    } else {
        l
    }
}

/// Every line of `content` normalized, joined by newlines.
pub open spec fn normalized(content: Seq<char>) -> Seq<char> {
    join_lines(text_lines(content).map_values(|l: Seq<char>| normalized_line(l)))
}

proof fn lemma_trim_back_keeps_first(x: Seq<char>, quotes: bool)
    ensures
        trim_back(x, quotes).len() <= x.len(),
        trim_back(x, quotes).len() > 0 ==> trim_back(x, quotes)[0] == x[0],
    decreases x.len(),
{
    if x.len() > 0 && crate::text::strips(x.last(), quotes) {
        lemma_trim_back_keeps_first(x.drop_last(), quotes);
    }
}

proof fn lemma_trim_front_skips(l: Seq<char>, q: int)
    requires
        0 <= q <= l.len(),
        forall|k: int| 0 <= k < q ==> is_ws(#[trigger] l[k]),
        q == l.len() || !is_ws(l[q]),
    ensures
        trim_front(l, false) == l.skip(q),
    decreases q,
{
    if q > 0 {
        assert forall|k: int| 0 <= k < q - 1 implies is_ws(#[trigger] l.skip(1)[k]) by {
            assert(l.skip(1)[k] == l[k + 1]);
        }
        lemma_trim_front_skips(l.skip(1), q - 1);
        assert(l.skip(1).skip(q - 1) =~= l.skip(q));
    } else {
        assert(l.skip(0) =~= l);
    }
}

fn normalize_line(l: &Vec<char>) -> (r: Vec<char>)
    ensures
        r@ == normalized_line(l@),
{
    let t = trim_chars(l, false);
    let mut out = slice_chars(l, 0, l.len());
    assert(l@.subrange(0, l@.len() as int) =~= l@);
    if t.len() > 0 && t[0] == LEGACY_COMMENT_SYMBOL {
        let mut q: usize = 0;
        while q < l.len() && is_ws_char(l[q])
            invariant
                q <= l.len(),
                forall|k: int| 0 <= k < q ==> is_ws(#[trigger] l@[k]),
            decreases l.len() - q,
        {
            q = q + 1;
        }
        proof {
            lemma_trim_front_skips(l@, q as int);
            lemma_trim_back_keeps_first(trim_front(l@, false), false);
        }
        out.set(q, TOML_COMMENT_SYMBOL);
    }
    out
}

/// Rewrites every line whose first visible character is `;` to start that
/// comment with `#`, keeping all else; lines are joined by `\n`.
pub fn normalize_comments(content: &str) -> (r: String)
    ensures
        r@ == normalized(content@),
{
    let lines = lines_of(&chars_of(content));
    let ghost ls = lines@.map_values(|l: Vec<char>| l@);
    let ghost ns = ls.map_values(|l: Seq<char>| normalized_line(l));
    let mut out = String::new();
    let mut i: usize = 0;
    while i < lines.len()
        invariant
            ls == lines@.map_values(|l: Vec<char>| l@),
            ls == text_lines(content@),
            ns == ls.map_values(|l: Seq<char>| normalized_line(l)),
            i <= lines@.len(),
            out@ == join_lines(ns.take(i as int)),
        decreases lines@.len() - i,
    {
        let line = normalize_line(&lines[i]);
        let s = string_of(&line);
        if i > 0 {
            push_char(&mut out, '\n');
        }
        out.append(s.as_str());
        proof {
            let now = ns.take(i + 1);
            assert(now.drop_last() =~= ns.take(i as int));
            assert(now.last() == s@);
            if i == 0 {
                assert(out@ =~= join_lines(now));
            } else {
                assert(out@ =~= join_lines(now));
            }
        }
        i = i + 1;
    }
    assert(ns.take(ns.len() as int) =~= ns);
    out
}

} // verus!
