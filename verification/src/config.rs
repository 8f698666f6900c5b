//! The configuration loader: a verified parser for the simple INI format of
//! the startup file.
//!
//! The format, line by line after trimming: empty lines and lines starting
//! with `;` or `#` are ignored; `[name]` selects the section `name`
//! (trimmed); any other line holding `=` binds the key before the first `=`
//! to the value after it, both trimmed, under the current section. A later
//! binding of the same key in the same section wins. A missing section or
//! key yields an absent field, never an error.

use crate::controller::opt_str_view;
use crate::strutil::{spec_trim, str_eq, trim_str};
use vstd::prelude::*;
use vstd::string::StrSliceExecFns;
use vstd::string::StringExecFns;

verus! {

/// The configuration record read at startup.
pub struct Config {
    pub auth_token: Option<String>,
    pub country_code: Option<String>,
    pub notify_topic: Option<String>,
}

/// Index of the first occurrence of `c` in `s`, or `s.len()` if absent.
pub open spec fn first_at(s: Seq<char>, c: char) -> int
    decreases s.len(),
{
    if s.len() == 0 {
        0
    } else if s[0] == c {
        0
    } else {
        1 + first_at(s.drop_first(), c)
    }
}

pub proof fn lemma_first_at_is(s: Seq<char>, c: char, k: int)
    requires
        0 <= k <= s.len(),
        forall|i: int| 0 <= i < k ==> s[i] != c,
        k == s.len() || s[k] == c,
    ensures
        first_at(s, c) == k,
    decreases s.len(),
{
    if s.len() == 0 {
    } else if k == 0 {
    } else {
        assert(s[0] != c);
        assert forall|i: int| 0 <= i < k - 1 implies s.drop_first()[i] != c by {
            assert(s.drop_first()[i] == s[i + 1]);
        }
        lemma_first_at_is(s.drop_first(), c, k - 1);
    }
}

/// The lines of `s`, split at `'\n'`; the separators are not kept and a
/// trailing newline yields a final empty line.
pub open spec fn spec_split_lines(s: Seq<char>) -> Seq<Seq<char>>
    decreases s.len(),
{
    let i = first_at(s, '\n');
    if 0 <= i < s.len() {
        seq![s.take(i)] + spec_split_lines(s.skip(i + 1))
    } else {
        seq![s]
    }
}

/// A comment line (after trimming): starts with `;` or `#`.
pub open spec fn is_comment_line(l: Seq<char>) -> bool {
    l.len() > 0 && (l[0] == ';' || l[0] == '#')
}

/// A section header (after trimming): `[` ... `]`.
pub open spec fn is_section_line(l: Seq<char>) -> bool {
    l.len() >= 2 && l[0] == '[' && l.last() == ']'
}

/// The trimmed name between the brackets of a section header.
pub open spec fn section_name(l: Seq<char>) -> Seq<char> {
    spec_trim(l.subrange(1, l.len() - 1))
}

/// A key/value line: neither comment nor section header, holding `=`.
pub open spec fn is_kv_line(l: Seq<char>) -> bool {
    &&& !is_comment_line(l)
    &&& !is_section_line(l)
    &&& first_at(l, '=') < l.len()
}

/// The trimmed key of a key/value line.
pub open spec fn kv_key(l: Seq<char>) -> Seq<char> {
    spec_trim(l.take(first_at(l, '=')))
}

/// The trimmed value of a key/value line.
pub open spec fn kv_value(l: Seq<char>) -> Seq<char> {
    spec_trim(l.skip(first_at(l, '=') + 1))
}

/// The value bound to `key` in section `sec` by `lines`, entered with
/// current section `cur`; the last binding wins.
pub open spec fn spec_lookup_lines(
    lines: Seq<Seq<char>>,
    cur: Option<Seq<char>>,
    sec: Seq<char>,
    key: Seq<char>,
) -> Option<Seq<char>>
    decreases lines.len(),
{
    if lines.len() == 0 {
        None
    } else {
        let l = spec_trim(lines[0]);
        if is_section_line(l) {
            spec_lookup_lines(lines.drop_first(), Some(section_name(l)), sec, key)
        } else if is_kv_line(l) && cur == Some(sec) && kv_key(l) == key {
            let rest = spec_lookup_lines(lines.drop_first(), cur, sec, key);
            if rest is Some {
                rest
            } else {
                Some(kv_value(l))
            }
        } else {
            spec_lookup_lines(lines.drop_first(), cur, sec, key)
        }
    }
}

/// The value bound to `key` in section `sec` by the INI text `text`.
pub open spec fn spec_ini_lookup(text: Seq<char>, sec: Seq<char>, key: Seq<char>) -> Option<
    Seq<char>,
> {
    spec_lookup_lines(spec_split_lines(text), None, sec, key)
}

/// The view of a sequence of string slices as a sequence of char sequences.
pub open spec fn lines_view(lines: Seq<&str>) -> Seq<Seq<char>> {
    lines.map_values(|l: &str| l@)
}

/// The view of an optional string slice as an optional char sequence.
pub open spec fn opt_slice_view(o: Option<&str>) -> Option<Seq<char>> {
    match o {
        Some(s) => Some(s@),
        None => None,
    }
}

/// Splits `text` into lines at `'\n'`.
pub fn split_lines<'a>(text: &'a str) -> (r: Vec<&'a str>)
    ensures
        lines_view(r@) == spec_split_lines(text@),
{
    let n = text.unicode_len();
    let mut out: Vec<&'a str> = Vec::new();
    let mut i: usize = 0;
    let mut done = false;
    proof {
        assert(text@.skip(0) =~= text@);
        assert(lines_view(out@) =~= Seq::<Seq<char>>::empty());
        assert(lines_view(out@) + spec_split_lines(text@) =~= spec_split_lines(text@));
    }
    while !done
        invariant
            0 <= i <= n,
            n == text@.len(),
            !done ==> spec_split_lines(text@) == lines_view(out@) + spec_split_lines(
                text@.skip(i as int),
            ),
            done ==> spec_split_lines(text@) == lines_view(out@),
        decreases n - i + (if done {
            0int
        } else {
            1int
        }),
    {
        let mut j: usize = i;
        while j < n && text.get_char(j) != '\n'
            invariant
                i <= j <= n,
                n == text@.len(),
                forall|m: int| i <= m < j ==> text@[m] != '\n',
            decreases n - j,
        {
            j = j + 1;
        }
        let line = text.substring_char(i, j);
        proof {
            let si = text@.skip(i as int);
            assert forall|m: int| 0 <= m < j - i implies si[m] != '\n' by {
                assert(si[m] == text@[i + m]);
            }
            if j < n {
                assert(si[j - i] == text@[j as int]);
            }
            lemma_first_at_is(si, '\n', j - i);
            if j < n {
                assert(si.take(j - i) =~= text@.subrange(i as int, j as int));
                assert(si.skip(j - i + 1) =~= text@.skip(j + 1));
                assert(spec_split_lines(si) == seq![line@] + spec_split_lines(text@.skip(j + 1)));
                assert(lines_view(out@.push(line)) =~= lines_view(out@).push(line@));
                assert(lines_view(out@) + spec_split_lines(si) =~= lines_view(out@.push(line))
                    + spec_split_lines(text@.skip(j + 1)));
            } else {
                assert(si =~= text@.subrange(i as int, n as int));
                assert(spec_split_lines(si) == seq![line@]);
                assert(lines_view(out@.push(line)) =~= lines_view(out@).push(line@));
                assert(lines_view(out@) + spec_split_lines(si) =~= lines_view(out@.push(line)));
            }
        }
        out.push(line);
        if j < n {
            i = j + 1;
        } else {
            i = j;
            done = true;
        }
    }
    out
}

/// `a` if present, else `b`.
pub open spec fn or_else(a: Option<Seq<char>>, b: Option<Seq<char>>) -> Option<Seq<char>> {
    if a is Some {
        a
    } else {
        b
    }
}

/// Finds the last value bound to `key` in section `sec` among `lines`.
pub fn lookup_ini<'a>(lines: &Vec<&'a str>, sec: &str, key: &str) -> (r: Option<String>)
    ensures
        opt_str_view(&r) == spec_lookup_lines(lines_view(lines@), None, sec@, key@),
{
    let n = lines.len();
    let mut cur: Option<&'a str> = None;
    let mut found: Option<&'a str> = None;
    let mut i: usize = 0;
    proof {
        assert(lines_view(lines@).skip(0) =~= lines_view(lines@));
    }
    while i < n
        invariant
            0 <= i <= n,
            n == lines@.len(),
            spec_lookup_lines(lines_view(lines@), None, sec@, key@) == or_else(
                spec_lookup_lines(
                    lines_view(lines@).skip(i as int),
                    opt_slice_view(cur),
                    sec@,
                    key@,
                ),
                opt_slice_view(found),
            ),
        decreases n - i,
    {
        let l = trim_str(lines[i]);
        let ln = l.unicode_len();
        proof {
            assert(lines_view(lines@).skip(i as int)[0] == lines_view(lines@)[i as int]);
            assert(lines_view(lines@).skip(i as int).drop_first() =~= lines_view(lines@).skip(
                i + 1,
            ));
        }
        if ln >= 2 && l.get_char(0) == '[' && l.get_char(ln - 1) == ']' {
            let name = trim_str(l.substring_char(1, ln - 1));
            proof {
                assert(l@.last() == l@[ln - 1]);
                assert(l@.subrange(1, l@.len() - 1) =~= l@.subrange(1, ln - 1));
            }
            cur = Some(name);
        } else {
            let comment = ln > 0 && (l.get_char(0) == ';' || l.get_char(0) == '#');
            let mut e: usize = 0;
            while e < ln && l.get_char(e) != '='
                invariant
                    0 <= e <= ln,
                    ln == l@.len(),
                    forall|m: int| 0 <= m < e ==> l@[m] != '=',
                decreases ln - e,
            {
                e = e + 1;
            }
            proof {
                lemma_first_at_is(l@, '=', e as int);
                if ln >= 2 && l@[0] == '[' && l@.last() == ']' {
                    assert(l@.last() == l@[ln - 1]);
                }
            }
            if !comment && e < ln {
                let k = trim_str(l.substring_char(0, e));
                proof {
                    assert(l@.take(e as int) =~= l@.subrange(0, e as int));
                }
                let in_section = match cur {
                    Some(cs) => str_eq(cs, sec),
                    None => false,
                };
                if in_section && str_eq(k, key) {
                    let v = trim_str(l.substring_char(e + 1, ln));
                    proof {
                        assert(l@.skip(e + 1) =~= l@.subrange(e + 1, ln as int));
                    }
                    found = Some(v);
                }
            }
        }
        i = i + 1;
    }
    proof {
        assert(lines_view(lines@).skip(n as int) =~= Seq::<Seq<char>>::empty());
    }
    match found {
        Some(v) => Some(String::from_str(v)),
        None => None,
    }
}

/// Reads the three optional configuration fields from the INI text:
/// `token` of `[auth]`, `country_code` of `[phone]`, `topic` of `[notify]`.
pub fn parse_config(text: &str) -> (cfg: Config)
    ensures
        opt_str_view(&cfg.auth_token) == spec_ini_lookup(text@, "auth"@, "token"@),
        opt_str_view(&cfg.country_code) == spec_ini_lookup(text@, "phone"@, "country_code"@),
        opt_str_view(&cfg.notify_topic) == spec_ini_lookup(text@, "notify"@, "topic"@),
{
    let lines = split_lines(text);
    Config {
        auth_token: lookup_ini(&lines, "auth", "token"),
        country_code: lookup_ini(&lines, "phone", "country_code"),
        notify_topic: lookup_ini(&lines, "notify", "topic"),
    }
}

} // verus!
