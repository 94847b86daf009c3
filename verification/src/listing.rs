//! Parsers for the textual listings the backend tools print: given the
//! captured standard output of a query command, these extract the
//! installed package names and versions the engine reconciles against.

use vstd::prelude::*;
use crate::text::{
    find_char, first_token, first_where, is_space, lines_of, spec_first_token, spec_trimmed,
    split_lines, str_starts_with, strip_leading, strip_trailing, strip_trailing_char,
    strip_leading_char, token_bounds_from, token_end, token_start, trim_leading_spaces,
    trim_spaces, opt_string_view, spec_assoc, str_eq,
};

verus! {

/// The view of an optional pair of owned strings.
pub open spec fn opt_pair_view(o: Option<(String, String)>) -> Option<(Seq<char>, Seq<char>)> {
    match o {
        Option::None => Option::None,
        Option::Some(p) => Option::Some((p.0@, p.1@)),
    }
}

/// The non-empty lines of a name-per-line listing, as `dpkg-query -W
/// -f=${Package}\n` and `flatpak list --columns=application` print one.
pub open spec fn spec_package_lines(out: Seq<char>) -> Seq<Seq<char>> {
    lines_of(out).filter(|l: Seq<char>| l.len() > 0)
}

/// Extracts the package names from a name-per-line listing.
pub fn parse_package_lines(out: &str) -> (r: Vec<String>)
    ensures
        r.deep_view() == spec_package_lines(out@),
{
    let lines = split_lines(out);
    let ghost ls = lines.deep_view();
    let ghost p = |l: Seq<char>| l.len() > 0;
    let mut acc: Vec<String> = Vec::new();
    proof {
        reveal(Seq::filter);
        assert(acc.deep_view() =~= ls.take(0).filter(p));
    }
    let mut i: usize = 0;
    while i < lines.len()
        invariant
            ls == lines.deep_view(),
            p == (|l: Seq<char>| l.len() > 0),
            i <= lines.len(),
            acc.deep_view() == ls.take(i as int).filter(p),
        decreases lines.len() - i,
    {
        let ghost prev = acc.deep_view();
        proof {
            reveal(Seq::filter);
            assert(ls.take(i + 1).drop_last() =~= ls.take(i as int));
            assert(ls.take(i + 1).last() == ls[i as int]);
        }
        if !lines[i].as_str().is_empty() {
            let elem = lines[i].clone();
            acc.push(elem);
            proof {
                reveal(Seq::filter);
                assert(p(ls[i as int]));
                assert(acc.deep_view() =~= prev.push(ls[i as int]));
                assert(acc.deep_view() == ls.take(i + 1).filter(p));
            }
        } else {
            proof {
                reveal(Seq::filter);
                assert(!p(ls[i as int]));
                assert(acc.deep_view() == ls.take(i + 1).filter(p));
            }
        }
        i += 1;
    }
    proof {
        assert(ls.take(lines.len() as int) =~= ls);
    }
    acc
}

/// The first token of each line after the header line, as `snap list`
/// prints a table whose first column is the package name.
pub open spec fn spec_snap_names(out: Seq<char>) -> Seq<Seq<char>> {
    let ls = lines_of(out);
    if ls.len() == 0 {
        Seq::empty()
    } else {
        ls.skip(1).filter_map(|l: Seq<char>| spec_first_token(l))
    }
}

/// Extracts the package names from a `snap list` style table, skipping
/// the header line.
pub fn parse_snap_list(out: &str) -> (r: Vec<String>)
    ensures
        r.deep_view() == spec_snap_names(out@),
{
    let lines = split_lines(out);
    let ghost ls = lines.deep_view();
    let ghost f = |l: Seq<char>| spec_first_token(l);
    let mut acc: Vec<String> = Vec::new();
    if lines.len() == 0 {
        proof {
            assert(acc.deep_view() =~= Seq::<Seq<char>>::empty());
        }
        return acc;
    }
    let ghost tail = ls.skip(1);
    proof {
        assert(acc.deep_view() =~= tail.take(0).filter_map(f));
    }
    let mut i: usize = 1;
    while i < lines.len()
        invariant
            ls == lines.deep_view(),
            lines.len() >= 1,
            tail == ls.skip(1),
            f == (|l: Seq<char>| spec_first_token(l)),
            1 <= i <= lines.len(),
            acc.deep_view() == tail.take(i - 1).filter_map(f),
        decreases lines.len() - i,
    {
        let ghost prev = acc.deep_view();
        match first_token(lines[i].as_str()) {
            Some(t) => {
                acc.push(t);
                proof {
                    assert(acc.deep_view() =~= prev + seq![f(tail[i - 1]).unwrap()]);
                }
            },
            None => {},
        }
        proof {
            assert(tail.take(i as int).drop_last() =~= tail.take(i - 1));
            assert(tail.take(i as int).last() == tail[i - 1]);
            assert(tail[i - 1] == ls[i as int]);
        }
        i += 1;
    }
    proof {
        assert(tail.take(lines.len() - 1) =~= tail);
    }
    acc
}

/// The first token of every line, as the export path reads a `cargo
/// install --list` listing (crate header lines and their indented
/// binary lines alike contribute their first token).
pub open spec fn spec_cargo_names(out: Seq<char>) -> Seq<Seq<char>> {
    lines_of(out).filter_map(|l: Seq<char>| spec_first_token(l))
}

/// Extracts the first token of every line of a listing.
pub fn parse_cargo_package_names(out: &str) -> (r: Vec<String>)
    ensures
        r.deep_view() == spec_cargo_names(out@),
{
    let lines = split_lines(out);
    let ghost ls = lines.deep_view();
    let ghost f = |l: Seq<char>| spec_first_token(l);
    let mut acc: Vec<String> = Vec::new();
    proof {
        assert(acc.deep_view() =~= ls.take(0).filter_map(f));
    }
    let mut i: usize = 0;
    while i < lines.len()
        invariant
            ls == lines.deep_view(),
            f == (|l: Seq<char>| spec_first_token(l)),
            i <= lines.len(),
            acc.deep_view() == ls.take(i as int).filter_map(f),
        decreases lines.len() - i,
    {
        let ghost prev = acc.deep_view();
        match first_token(lines[i].as_str()) {
            Some(t) => {
                acc.push(t);
                proof {
                    assert(acc.deep_view() =~= prev + seq![f(ls[i as int]).unwrap()]);
                }
            },
            None => {},
        }
        proof {
            assert(ls.take(i + 1).drop_last() =~= ls.take(i as int));
            assert(ls.take(i + 1).last() == ls[i as int]);
        }
        i += 1;
    }
    proof {
        assert(ls.take(lines.len() as int) =~= ls);
    }
    acc
}

/// A line split at its first space into name and version, as
/// `dpkg-query -W -f=${Package} ${Version}\n` prints pairs.
pub open spec fn spec_split_once_space(l: Seq<char>) -> Option<(Seq<char>, Seq<char>)> {
    let k = first_where(l, |c: char| c == ' ', 0);
    if k == l.len() {
        Option::None
    } else {
        Option::Some((l.take(k), l.skip(k + 1)))
    }
}

/// The name-to-version pairs of a `name version` per-line listing;
/// lines without a space contribute nothing.
pub open spec fn spec_apt_map(out: Seq<char>) -> Seq<(Seq<char>, Seq<char>)> {
    lines_of(out).filter_map(|l: Seq<char>| spec_split_once_space(l))
}

/// Splits one `name version` line at its first space.
fn parse_apt_line(line: &str) -> (r: Option<(String, String)>)
    ensures
        opt_pair_view(r) == spec_split_once_space(line@),
{
    let n = line.unicode_len();
    let k = find_char(line, ' ');
    if k == n {
        None
    } else {
        let name = String::from_str(line.substring_char(0, k));
        let version = String::from_str(line.substring_char(k + 1, n));
        Some((name, version))
    }
}

/// Extracts the name-to-version pairs of a `name version` per-line
/// listing.
pub fn parse_apt_package_map(out: &str) -> (r: Vec<(String, String)>)
    ensures
        r.deep_view() == spec_apt_map(out@),
{
    let lines = split_lines(out);
    let ghost ls = lines.deep_view();
    let ghost f = |l: Seq<char>| spec_split_once_space(l);
    let mut acc: Vec<(String, String)> = Vec::new();
    proof {
        assert(acc.deep_view() =~= ls.take(0).filter_map(f));
    }
    let mut i: usize = 0;
    while i < lines.len()
        invariant
            ls == lines.deep_view(),
            f == (|l: Seq<char>| spec_split_once_space(l)),
            i <= lines.len(),
            acc.deep_view() == ls.take(i as int).filter_map(f),
        decreases lines.len() - i,
    {
        let ghost prev = acc.deep_view();
        match parse_apt_line(lines[i].as_str()) {
            Some(pair) => {
                acc.push(pair);
                proof {
                    assert(acc.deep_view() =~= prev + seq![f(ls[i as int]).unwrap()]);
                }
            },
            None => {},
        }
        proof {
            assert(ls.take(i + 1).drop_last() =~= ls.take(i as int));
            assert(ls.take(i + 1).last() == ls[i as int]);
        }
        i += 1;
    }
    proof {
        assert(ls.take(lines.len() as int) =~= ls);
    }
    acc
}

/// A `cargo install --list` header line reduced to a name-version pair:
/// the first token with trailing colons removed, and the second token
/// with leading `v` markers removed.  Lines with fewer than two tokens
/// contribute nothing.
pub open spec fn spec_cargo_entry(l: Seq<char>) -> Option<(Seq<char>, Seq<char>)> {
    let a = token_start(l);
    if a == l.len() {
        Option::None
    } else {
        let b = token_end(l, a);
        let c = first_where(l, |x: char| !is_space(x), b);
        if c == l.len() {
            Option::None
        } else {
            let d = token_end(l, c);
            Option::Some(
                (
                    strip_trailing(l.subrange(a, b), |x: char| x == ':'),
                    strip_leading(l.subrange(c, d), |x: char| x == 'v'),
                ),
            )
        }
    }
}

/// The name-to-version pairs of a `cargo install --list` listing.
pub open spec fn spec_cargo_map(out: Seq<char>) -> Seq<(Seq<char>, Seq<char>)> {
    lines_of(out).filter_map(|l: Seq<char>| spec_cargo_entry(l))
}

/// Reduces one listing line to its name-version pair, if it has two
/// tokens.
fn parse_cargo_line(line: &str) -> (r: Option<(String, String)>)
    ensures
        opt_pair_view(r) == spec_cargo_entry(line@),
{
    let n = line.unicode_len();
    let (a, b) = token_bounds_from(line, 0);
    if a == n {
        return None;
    }
    let (c, d) = token_bounds_from(line, b);
    if c == n {
        return None;
    }
    let name = strip_trailing_char(line.substring_char(a, b), ':');
    let version = strip_leading_char(line.substring_char(c, d), 'v');
    Some((name, version))
}

/// Extracts the name-to-version pairs of a `cargo install --list`
/// listing.
pub fn parse_cargo_package_map(out: &str) -> (r: Vec<(String, String)>)
    ensures
        r.deep_view() == spec_cargo_map(out@),
{
    let lines = split_lines(out);
    let ghost ls = lines.deep_view();
    let ghost f = |l: Seq<char>| spec_cargo_entry(l);
    let mut acc: Vec<(String, String)> = Vec::new();
    proof {
        assert(acc.deep_view() =~= ls.take(0).filter_map(f));
    }
    let mut i: usize = 0;
    while i < lines.len()
        invariant
            ls == lines.deep_view(),
            f == (|l: Seq<char>| spec_cargo_entry(l)),
            i <= lines.len(),
            acc.deep_view() == ls.take(i as int).filter_map(f),
        decreases lines.len() - i,
    {
        let ghost prev = acc.deep_view();
        match parse_cargo_line(lines[i].as_str()) {
            Some(pair) => {
                acc.push(pair);
                proof {
                    assert(acc.deep_view() =~= prev + seq![f(ls[i as int]).unwrap()]);
                }
            },
            None => {},
        }
        proof {
            assert(ls.take(i + 1).drop_last() =~= ls.take(i as int));
            assert(ls.take(i + 1).last() == ls[i as int]);
        }
        i += 1;
    }
    proof {
        assert(ls.take(lines.len() as int) =~= ls);
    }
    acc
}

/// Whether a `cargo install --list` listing has a line that, after
/// leading whitespace, reads `name v...`: the presence probe for one
/// crate by name.
pub open spec fn spec_cargo_lists(out: Seq<char>, pkg: Seq<char>) -> bool {
    exists|i: int|
        0 <= i < lines_of(out).len() && (pkg + seq![' ', 'v']).is_prefix_of(
            strip_leading(lines_of(out)[i], |c: char| is_space(c)),
        )
}

/// Probes a `cargo install --list` listing for one crate by name.
pub fn cargo_list_contains(out: &str, pkg: &str) -> (r: bool)
    ensures
        r == spec_cargo_lists(out@, pkg@),
{
    let lines = split_lines(out);
    let ghost ls = lines.deep_view();
    proof {
        reveal_strlit(" v");
        assert(" v"@ =~= seq![' ', 'v']);
    }
    let needle = String::from_str(pkg).concat(" v");
    let mut i: usize = 0;
    while i < lines.len()
        invariant
            ls == lines.deep_view(),
            ls == lines_of(out@),
            i <= lines.len(),
            needle@ == pkg@ + seq![' ', 'v'],
            forall|j: int|
                0 <= j < i ==> !(pkg@ + seq![' ', 'v']).is_prefix_of(
                    strip_leading(ls[j], |c: char| is_space(c)),
                ),
        decreases lines.len() - i,
    {
        let trimmed = trim_leading_spaces(lines[i].as_str());
        if str_starts_with(trimmed.as_str(), needle.as_str()) {
            assert(spec_cargo_lists(out@, pkg@)) by {
                assert((pkg@ + seq![' ', 'v']).is_prefix_of(
                    strip_leading(ls[i as int], |c: char| is_space(c)),
                ));
            }
            return true;
        }
        i += 1;
    }
    false
}

/// The version printed by a `dpkg-query -W -f=${Version}` probe:
/// surrounding whitespace removed, then surrounding single quotes
/// removed.
pub open spec fn spec_apt_version(out: Seq<char>) -> Seq<char> {
    strip_leading(
        strip_trailing(spec_trimmed(out), |c: char| c == '\''),
        |c: char| c == '\'',
    )
}

/// Extracts the version from a version probe's output.
pub fn parse_apt_version_output(out: &str) -> (r: String)
    ensures
        r@ == spec_apt_version(out@),
{
    let t = trim_spaces(out);
    let u = strip_trailing_char(t.as_str(), '\'');
    strip_leading_char(u.as_str(), '\'')
}

/// Looks `name` up in an installed-state map.
pub fn lookup_version(m: &Vec<(String, String)>, name: &str) -> (r: Option<String>)
    ensures
        opt_string_view(r) == spec_assoc(m.deep_view(), name@),
{
    let ghost dv = m.deep_view();
    let mut r: Option<String> = None;
    proof {
        assert(dv.take(0) =~= Seq::<(Seq<char>, Seq<char>)>::empty());
    }
    let mut i: usize = 0;
    while i < m.len()
        invariant
            dv == m.deep_view(),
            i <= m.len(),
            opt_string_view(r) == spec_assoc(dv.take(i as int), name@),
        decreases m.len() - i,
    {
        if str_eq(m[i].0.as_str(), name) {
            r = Some(m[i].1.clone());
        }
        proof {
            assert(dv.take(i + 1).drop_last() =~= dv.take(i as int));
            assert(dv.take(i + 1).last() == dv[i as int]);
        }
        i += 1;
    }
    proof {
        assert(dv.take(m.len() as int) =~= dv);
    }
    r
}

} // verus!
