//! Verified text utilities: the small string operations the engine's
//! parsing and matching are built from.

use vstd::prelude::*;

verus! {

/// The index of the first character at or after `i` satisfying `p`,
/// or `s.len()` when no such character exists.
pub open spec fn first_where(s: Seq<char>, p: spec_fn(char) -> bool, i: int) -> int
    recommends
        0 <= i <= s.len(),
    decreases s.len() - i when 0 <= i <= s.len()
{
    if i < 0 || i >= s.len() {
        s.len() as int
    } else if p(s[i]) {
        i
    } else {
        first_where(s, p, i + 1)
    }
}

/// A scan that saw no match strictly before `k`, and a match or the end
/// at `k`, pins `first_where` down to `k`.
pub proof fn lemma_first_where(s: Seq<char>, p: spec_fn(char) -> bool, i: int, k: int)
    requires
        0 <= i <= k <= s.len(),
        forall|j: int| i <= j < k ==> !p(s[j]),
        k == s.len() || p(s[k]),
    ensures
        first_where(s, p, i) == k,
    decreases k - i,
{
    if i < k {
        lemma_first_where(s, p, i + 1, k);
    }
}

/// Everything `first_where` skipped over fails the predicate, and the
/// character found (if any) satisfies it.
pub proof fn lemma_first_where_props(s: Seq<char>, p: spec_fn(char) -> bool, i: int)
    requires
        0 <= i <= s.len(),
    ensures
        i <= first_where(s, p, i) <= s.len(),
        forall|j: int| i <= j < first_where(s, p, i) ==> !p(s[j]),
        first_where(s, p, i) < s.len() ==> p(s[first_where(s, p, i)]),
    decreases s.len() - i,
{
    if i < s.len() && !p(s[i]) {
        lemma_first_where_props(s, p, i + 1);
    }
}

/// Whether two string slices hold the same characters.
pub fn str_eq(a: &str, b: &str) -> (r: bool)
    ensures
        r == (a@ == b@),
{
    let an = a.unicode_len();
    let bn = b.unicode_len();
    if an != bn {
        proof {
            assert(a@ != b@) by {
                if a@ == b@ {
                    assert(a@.len() == b@.len());
                }
            }
        }
        return false;
    }
    let mut i: usize = 0;
    while i < an
        invariant
            an == a@.len(),
            bn == b@.len(),
            an == bn,
            i <= an,
            forall|j: int| 0 <= j < i ==> a@[j] == b@[j],
        decreases an - i,
    {
        if a.get_char(i) != b.get_char(i) {
            return false;
        }
        i += 1;
    }
    proof {
        assert(a@ =~= b@);
    }
    true
}

/// Whether `s` begins with `prefix`.
pub fn str_starts_with(s: &str, prefix: &str) -> (r: bool)
    ensures
        r == prefix@.is_prefix_of(s@),
{
    let n = s.unicode_len();
    let pn = prefix.unicode_len();
    if pn > n {
        return false;
    }
    let mut i: usize = 0;
    while i < pn
        invariant
            n == s@.len(),
            pn == prefix@.len(),
            pn <= n,
            i <= pn,
            forall|j: int| 0 <= j < i ==> s@[j] == prefix@[j],
        decreases pn - i,
    {
        if s.get_char(i) != prefix.get_char(i) {
            return false;
        }
        i += 1;
    }
    proof {
        assert(prefix@ =~= s@.subrange(0, pn as int));
    }
    true
}

/// Whether one of the strings in `v` holds the characters of `s`.
pub fn contains_str(v: &Vec<String>, s: &str) -> (r: bool)
    ensures
        r == v.deep_view().contains(s@),
{
    let mut i: usize = 0;
    while i < v.len()
        invariant
            i <= v.len(),
            forall|j: int| 0 <= j < i ==> v.deep_view()[j] != s@,
        decreases v.len() - i,
    {
        if str_eq(v[i].as_str(), s) {
            assert(v.deep_view()[i as int] == s@);
            return true;
        }
        i += 1;
    }
    false
}

/// The name part of a declared package spec: what stands before the
/// first `=`, or the whole spec when no version is pinned.
pub open spec fn spec_name_of(s: Seq<char>) -> Seq<char> {
    s.take(first_where(s, |c: char| c == '=', 0))
}

/// The pinned version of a declared package spec: what stands after the
/// first `=`, or nothing when no version is pinned.
pub open spec fn spec_version_of(s: Seq<char>) -> Option<Seq<char>> {
    let k = first_where(s, |c: char| c == '=', 0);
    if k == s.len() {
        Option::None
    } else {
        Option::Some(s.skip(k + 1))
    }
}

/// Splits a declared package spec `name` or `name=version` at the first
/// `=` into the bare name and the optional pinned version.
pub fn split_package_spec(s: &str) -> (r: (String, Option<String>))
    ensures
        r.0@ == spec_name_of(s@),
        opt_string_view(r.1) == spec_version_of(s@),
{
    let n = s.unicode_len();
    let mut i: usize = 0;
    while i < n
        invariant
            n == s@.len(),
            i <= n,
            forall|j: int| 0 <= j < i ==> s@[j] != '=',
        decreases n - i,
    {
        if s.get_char(i) == '=' {
            proof {
                lemma_first_where(s@, |c: char| c == '=', 0, i as int);
            }
            let name = s.substring_char(0, i);
            let version = s.substring_char(i + 1, n);
            return (String::from_str(name), Some(String::from_str(version)));
        }
        i += 1;
    }
    proof {
        lemma_first_where(s@, |c: char| c == '=', 0, n as int);
        assert(s@.take(n as int) =~= s@);
    }
    (String::from_str(s), None)
}

/// The view of an optional owned string.
pub open spec fn opt_string_view(o: Option<String>) -> Option<Seq<char>> {
    match o {
        Option::None => Option::None,
        Option::Some(s) => Option::Some(s@),
    }
}

/// ASCII whitespace, the separators recognised between tokens of a
/// command's output line or a declared spec with trailing flags.
/// Only these six characters separate tokens: a non-ASCII Unicode
/// whitespace character counts as part of a token.
pub open spec fn is_space(c: char) -> bool {
    c == ' ' || c == '\t' || c == '\n' || c == '\r' || c == '\u{b}' || c == '\u{c}'
}

/// Where the first whitespace-separated token of `s` begins, or `s.len()`
/// when `s` is all whitespace.
pub open spec fn token_start(s: Seq<char>) -> int {
    first_where(s, |c: char| !is_space(c), 0)
}

/// Where a token beginning at `from` ends.
pub open spec fn token_end(s: Seq<char>, from: int) -> int {
    first_where(s, |c: char| is_space(c), from)
}

/// The first whitespace-separated token of `s`, if `s` has one.
pub open spec fn spec_first_token(s: Seq<char>) -> Option<Seq<char>> {
    let a = token_start(s);
    if a == s.len() {
        Option::None
    } else {
        Option::Some(s.subrange(a, token_end(s, a)))
    }
}

/// Checks one character for ASCII whitespace.
pub fn is_space_char(c: char) -> (r: bool)
    ensures
        r == is_space(c),
{
    c == ' ' || c == '\t' || c == '\n' || c == '\r' || c == '\u{b}' || c == '\u{c}'
}

/// Finds the bounds of the first whitespace-separated token of `s` at or
/// after `from`.
pub fn token_bounds_from(s: &str, from: usize) -> (r: (usize, usize))
    requires
        from <= s@.len(),
    ensures
        r.0 == first_where(s@, |c: char| !is_space(c), from as int),
        from <= r.0 <= s@.len(),
        r.0 < s@.len() ==> r.0 <= r.1 == token_end(s@, r.0 as int) <= s@.len(),
{
    let n = s.unicode_len();
    let mut a: usize = from;
    while a < n && is_space_char(s.get_char(a))
        invariant
            n == s@.len(),
            from <= a <= n,
            forall|j: int| from <= j < a ==> is_space(#[trigger] s@[j]),
        decreases n - a,
    {
        a += 1;
    }
    proof {
        lemma_first_where(s@, |c: char| !is_space(c), from as int, a as int);
    }
    if a == n {
        return (a, a);
    }
    let mut b: usize = a;
    while b < n && !is_space_char(s.get_char(b))
        invariant
            n == s@.len(),
            a <= b <= n,
            forall|j: int| a <= j < b ==> !is_space(#[trigger] s@[j]),
        decreases n - b,
    {
        b += 1;
    }
    proof {
        lemma_first_where(s@, |c: char| is_space(c), a as int, b as int);
    }
    (a, b)
}

/// The first whitespace-separated token of `s`, if `s` has one.
pub fn first_token(s: &str) -> (r: Option<String>)
    ensures
        opt_string_view(r) == spec_first_token(s@),
{
    let (a, b) = token_bounds_from(s, 0);
    if a == s.unicode_len() {
        None
    } else {
        Some(String::from_str(s.substring_char(a, b)))
    }
}

/// The name under which a declared spec with trailing flags is looked
/// up: its first whitespace-separated token, or the whole spec when it
/// has no token.
pub open spec fn spec_base_name(s: Seq<char>) -> Seq<char> {
    match spec_first_token(s) {
        Option::None => s,
        Option::Some(t) => t,
    }
}

/// Extracts the lookup name of a declared spec with trailing flags.
pub fn base_name(s: &str) -> (r: String)
    ensures
        r@ == spec_base_name(s@),
{
    match first_token(s) {
        None => String::from_str(s),
        Some(t) => t,
    }
}

/// `s` with every trailing character satisfying `p` removed.
pub open spec fn strip_trailing(s: Seq<char>, p: spec_fn(char) -> bool) -> Seq<char>
    decreases s.len(),
{
    if s.len() > 0 && p(s.last()) {
        strip_trailing(s.drop_last(), p)
    } else {
        s
    }
}

/// `s` with every leading character satisfying `p` removed.
pub open spec fn strip_leading(s: Seq<char>, p: spec_fn(char) -> bool) -> Seq<char>
    decreases s.len(),
{
    if s.len() > 0 && p(s.first()) {
        strip_leading(s.drop_first(), p)
    } else {
        s
    }
}

/// A suffix of p-characters with a non-p-character (or the start) before
/// it pins `strip_trailing` down to the prefix.
pub proof fn lemma_strip_trailing(s: Seq<char>, p: spec_fn(char) -> bool, k: int)
    requires
        0 <= k <= s.len(),
        forall|j: int| k <= j < s.len() ==> p(s[j]),
        k == 0 || !p(s[k - 1]),
    ensures
        strip_trailing(s, p) == s.take(k),
    decreases s.len(),
{
    if s.len() > 0 && p(s.last()) {
        assert(k < s.len());
        lemma_strip_trailing(s.drop_last(), p, k);
        assert(s.drop_last().take(k) =~= s.take(k));
    } else {
        assert(k == s.len());
        assert(s.take(k) =~= s);
    }
}

/// A prefix of p-characters with a non-p-character (or the end) after it
/// pins `strip_leading` down to the suffix.
pub proof fn lemma_strip_leading(s: Seq<char>, p: spec_fn(char) -> bool, a: int)
    requires
        0 <= a <= s.len(),
        forall|j: int| 0 <= j < a ==> p(s[j]),
        a == s.len() || !p(s[a]),
    ensures
        strip_leading(s, p) == s.skip(a),
    decreases a,
{
    if s.len() > 0 && p(s.first()) {
        assert(a > 0);
        lemma_strip_leading(s.drop_first(), p, a - 1);
        assert(s.drop_first().skip(a - 1) =~= s.skip(a));
    } else {
        assert(a == 0);
        assert(s.skip(0) =~= s);
    }
}

/// Removes every trailing occurrence of `c` from `s`.
pub fn strip_trailing_char(s: &str, c: char) -> (r: String)
    ensures
        r@ == strip_trailing(s@, |x: char| x == c),
{
    let n = s.unicode_len();
    let mut k: usize = n;
    while k > 0 && s.get_char(k - 1) == c
        invariant
            n == s@.len(),
            k <= n,
            forall|j: int| k <= j < n ==> s@[j] == c,
        decreases k,
    {
        k -= 1;
    }
    proof {
        lemma_strip_trailing(s@, |x: char| x == c, k as int);
    }
    String::from_str(s.substring_char(0, k))
}

/// Removes every leading occurrence of `c` from `s`.
pub fn strip_leading_char(s: &str, c: char) -> (r: String)
    ensures
        r@ == strip_leading(s@, |x: char| x == c),
{
    let n = s.unicode_len();
    let mut a: usize = 0;
    while a < n && s.get_char(a) == c
        invariant
            n == s@.len(),
            a <= n,
            forall|j: int| 0 <= j < a ==> s@[j] == c,
        decreases n - a,
    {
        a += 1;
    }
    proof {
        lemma_strip_leading(s@, |x: char| x == c, a as int);
    }
    String::from_str(s.substring_char(a, n))
}

/// Removes leading whitespace from `s`.
pub fn trim_leading_spaces(s: &str) -> (r: String)
    ensures
        r@ == strip_leading(s@, |c: char| is_space(c)),
{
    let n = s.unicode_len();
    let mut a: usize = 0;
    while a < n && is_space_char(s.get_char(a))
        invariant
            n == s@.len(),
            a <= n,
            forall|j: int| 0 <= j < a ==> is_space(#[trigger] s@[j]),
        decreases n - a,
    {
        a += 1;
    }
    proof {
        lemma_strip_leading(s@, |c: char| is_space(c), a as int);
    }
    String::from_str(s.substring_char(a, n))
}

/// Finds the first occurrence of `c` in `s`, or `s.len()` when absent.
pub fn find_char(s: &str, c: char) -> (r: usize)
    ensures
        r as int == first_where(s@, |x: char| x == c, 0),
        r <= s@.len(),
{
    let n = s.unicode_len();
    let mut i: usize = 0;
    while i < n && s.get_char(i) != c
        invariant
            n == s@.len(),
            i <= n,
            forall|j: int| 0 <= j < i ==> s@[j] != c,
        decreases n - i,
    {
        i += 1;
    }
    proof {
        lemma_first_where(s@, |x: char| x == c, 0, i as int);
    }
    i
}

/// `s` with leading and trailing whitespace removed.
pub open spec fn spec_trimmed(s: Seq<char>) -> Seq<char> {
    strip_leading(strip_trailing(s, |c: char| is_space(c)), |c: char| is_space(c))
}

/// Removes leading and trailing whitespace from `s`.
pub fn trim_spaces(s: &str) -> (r: String)
    ensures
        r@ == spec_trimmed(s@),
{
    let n = s.unicode_len();
    let mut k: usize = n;
    while k > 0 && is_space_char(s.get_char(k - 1))
        invariant
            n == s@.len(),
            k <= n,
            forall|j: int| k <= j < n ==> is_space(#[trigger] s@[j]),
        decreases k,
    {
        k -= 1;
    }
    proof {
        lemma_strip_trailing(s@, |c: char| is_space(c), k as int);
    }
    let mut a: usize = 0;
    while a < k && is_space_char(s.get_char(a))
        invariant
            n == s@.len(),
            a <= k <= n,
            forall|j: int| 0 <= j < a ==> is_space(#[trigger] s@[j]),
            forall|j: int| k <= j < n ==> is_space(#[trigger] s@[j]),
            strip_trailing(s@, |c: char| is_space(c)) == s@.take(k as int),
            k > 0 ==> !is_space(s@[k as int - 1]),
        decreases k - a,
    {
        a += 1;
    }
    proof {
        let t = s@.take(k as int);
        assert(forall|j: int| 0 <= j < a ==> t[j] == s@[j]);
        lemma_strip_leading(t, |c: char| is_space(c), a as int);
        assert(t.skip(a as int) =~= s@.subrange(a as int, k as int));
    }
    String::from_str(s.substring_char(a, k))
}

/// What stands after the last `/` of `s`: the whole of `s` when it has
/// no `/`, and possibly nothing when it ends in one.
pub open spec fn spec_last_segment(s: Seq<char>) -> Seq<char> {
    match s.index_of_last('/') {
        Option::None => s,
        Option::Some(i) => s.skip(i + 1),
    }
}

/// Extracts what stands after the last `/` of `s`.
pub fn last_segment(s: &str) -> (r: String)
    ensures
        r@ == spec_last_segment(s@),
{
    let n = s.unicode_len();
    let mut k: usize = n;
    while k > 0 && s.get_char(k - 1) != '/'
        invariant
            n == s@.len(),
            k <= n,
            forall|j: int| k <= j < n ==> s@[j] != '/',
        decreases k,
    {
        k -= 1;
    }
    proof {
        s@.index_of_last_ensures('/');
        if k > 0 {
            assert(s@[k as int - 1] == '/');
            assert(s@.contains('/'));
        } else {
            if s@.contains('/') {
                let w = choose|w: int| 0 <= w < s@.len() && s@[w] == '/';
                assert(false);
            }
            assert(s@.skip(0) =~= s@);
        }
    }
    String::from_str(s.substring_char(k, n))
}

/// An upper-case ASCII letter mapped to its lower-case form; any other
/// character unchanged.
pub open spec fn lower_char(c: char) -> char {
    if 65 <= c as int && c as int <= 90 {
        ((c as int + 32) as u8) as char
    } else {
        c
    }
}

/// Every character of `s` mapped through `lower_char`.
pub open spec fn lower_seq(s: Seq<char>) -> Seq<char> {
    s.map_values(|c: char| lower_char(c))
}

/// Maps one character through `lower_char`.
fn to_lower_char(c: char) -> (r: char)
    ensures
        r == lower_char(c),
{
    let u = c as u32;
    if 65 <= u && u <= 90 {
        ((u + 32) as u8) as char
    } else {
        c
    }
}

/// Whether two strings agree up to ASCII case.
pub fn eq_ignore_ascii_case(a: &str, b: &str) -> (r: bool)
    ensures
        r == (lower_seq(a@) == lower_seq(b@)),
{
    let an = a.unicode_len();
    let bn = b.unicode_len();
    if an != bn {
        proof {
            assert(lower_seq(a@).len() != lower_seq(b@).len());
        }
        return false;
    }
    let mut i: usize = 0;
    while i < an
        invariant
            an == a@.len(),
            bn == b@.len(),
            an == bn,
            i <= an,
            forall|j: int| 0 <= j < i ==> lower_char(a@[j]) == lower_char(b@[j]),
        decreases an - i,
    {
        if to_lower_char(a.get_char(i)) != to_lower_char(b.get_char(i)) {
            proof {
                assert(lower_seq(a@)[i as int] != lower_seq(b@)[i as int]);
            }
            return false;
        }
        i += 1;
    }
    proof {
        assert(lower_seq(a@) =~= lower_seq(b@));
    }
    true
}

/// The decimal digit characters.
pub open spec fn digit_char(d: nat) -> char {
    if d == 0 {
        '0'
    } else if d == 1 {
        '1'
    } else if d == 2 {
        '2'
    } else if d == 3 {
        '3'
    } else if d == 4 {
        '4'
    } else if d == 5 {
        '5'
    } else if d == 6 {
        '6'
    } else if d == 7 {
        '7'
    } else if d == 8 {
        '8'
    } else {
        '9'
    }
}

/// The decimal writing of `n`, most significant digit first.
pub open spec fn spec_dec_digits(n: nat) -> Seq<char>
    decreases n,
{
    if n < 10 {
        seq![digit_char(n)]
    } else {
        spec_dec_digits(n / 10).push(digit_char(n % 10))
    }
}

/// The decimal writing of a signed value: a minus sign before the
/// digits of its magnitude.
pub open spec fn spec_int_str(v: int) -> Seq<char> {
    if v < 0 {
        seq!['-'] + spec_dec_digits((-v) as nat)
    } else {
        spec_dec_digits(v as nat)
    }
}

/// One decimal digit as a string slice.
fn digit_str(d: u64) -> (r: &'static str)
    requires
        d < 10,
    ensures
        r@ == seq![digit_char(d as nat)],
{
    proof {
        reveal_strlit("0");
        reveal_strlit("1");
        reveal_strlit("2");
        reveal_strlit("3");
        reveal_strlit("4");
        reveal_strlit("5");
        reveal_strlit("6");
        reveal_strlit("7");
        reveal_strlit("8");
        reveal_strlit("9");
        assert("0"@ =~= seq!['0']);
        assert("1"@ =~= seq!['1']);
        assert("2"@ =~= seq!['2']);
        assert("3"@ =~= seq!['3']);
        assert("4"@ =~= seq!['4']);
        assert("5"@ =~= seq!['5']);
        assert("6"@ =~= seq!['6']);
        assert("7"@ =~= seq!['7']);
        assert("8"@ =~= seq!['8']);
        assert("9"@ =~= seq!['9']);
    }
    match d {
        0 => "0",
        1 => "1",
        2 => "2",
        3 => "3",
        4 => "4",
        5 => "5",
        6 => "6",
        7 => "7",
        8 => "8",
        _ => "9",
    }
}

/// Writes `n` in decimal.
pub fn u64_to_string(n: u64) -> (r: String)
    ensures
        r@ == spec_dec_digits(n as nat),
    decreases n,
{
    if n < 10 {
        String::from_str(digit_str(n))
    } else {
        let head = u64_to_string(n / 10);
        let r = head.concat(digit_str(n % 10));
        proof {
            assert(spec_dec_digits((n / 10) as nat).push(digit_char((n % 10) as nat))
                =~= spec_dec_digits((n / 10) as nat) + seq![digit_char((n % 10) as nat)]);
        }
        r
    }
}

/// Writes a signed value in decimal.
pub fn i32_to_string(v: i32) -> (r: String)
    ensures
        r@ == spec_int_str(v as int),
{
    let wide = v as i64;
    if wide < 0 {
        proof {
            reveal_strlit("-");
            assert("-"@ =~= seq!['-']);
        }
        let m = (-wide) as u64;
        String::from_str("-").concat(u64_to_string(m).as_str())
    } else {
        u64_to_string(wide as u64)
    }
}

/// A line with one trailing carriage return removed, as a line-oriented
/// reading of command output treats `\r\n` endings.
pub open spec fn strip_cr(l: Seq<char>) -> Seq<char> {
    if l.len() > 0 && l.last() == '\r' {
        l.drop_last()
    } else {
        l
    }
}

/// The lines of `s`: the segments between `\n` characters, each with a
/// trailing `\r` removed; a trailing newline yields no final empty line.
pub open spec fn lines_of(s: Seq<char>) -> Seq<Seq<char>>
    decreases s.len(),
    via lines_of_decreases
{
    if s.len() == 0 {
        Seq::empty()
    } else {
        let k = first_where(s, |c: char| c == '\n', 0);
        if k == s.len() {
            seq![strip_cr(s)]
        } else {
            seq![strip_cr(s.take(k))] + lines_of(s.skip(k + 1))
        }
    }
}

#[via_fn]
proof fn lines_of_decreases(s: Seq<char>) {
    if s.len() > 0 {
        lemma_first_where_props(s, |c: char| c == '\n', 0);
    }
}

/// Copies the segment `[start, end)` of `s` with a trailing carriage
/// return removed.
fn line_between(s: &str, start: usize, end: usize) -> (r: String)
    requires
        start <= end <= s@.len(),
    ensures
        r@ == strip_cr(s@.subrange(start as int, end as int)),
{
    let ghost seg = s@.subrange(start as int, end as int);
    if end > start && s.get_char(end - 1) == '\r' {
        proof {
            assert(seg.last() == '\r');
            assert(seg.drop_last() =~= s@.subrange(start as int, end as int - 1));
        }
        String::from_str(s.substring_char(start, end - 1))
    } else {
        proof {
            if seg.len() > 0 {
                assert(seg.last() == s@[end as int - 1]);
            }
        }
        String::from_str(s.substring_char(start, end))
    }
}

/// Splits `s` into its lines.
pub fn split_lines(s: &str) -> (r: Vec<String>)
    ensures
        r.deep_view() == lines_of(s@),
{
    let n = s.unicode_len();
    let mut acc: Vec<String> = Vec::new();
    let mut start: usize = 0;
    let mut i: usize = 0;
    proof {
        assert(s@.skip(0) =~= s@);
        assert(acc.deep_view() =~= Seq::<Seq<char>>::empty());
        assert(Seq::<Seq<char>>::empty() + lines_of(s@) =~= lines_of(s@));
    }
    while i < n
        invariant
            n == s@.len(),
            start <= i <= n,
            forall|j: int| start <= j < i ==> s@[j] != '\n',
            lines_of(s@) == acc.deep_view() + lines_of(s@.skip(start as int)),
        decreases n - i,
    {
        if s.get_char(i) == '\n' {
            let ghost prev = acc.deep_view();
            let ghost u = s@.skip(start as int);
            let line = line_between(s, start, i);
            acc.push(line);
            proof {
                let nl = |c: char| c == '\n';
                assert(forall|j: int| 0 <= j < i - start ==> u[j] == s@[j + start] && !nl(u[j]));
                assert(nl(u[i - start as int]));
                lemma_first_where(u, nl, 0, i - start as int);
                assert(u.take(i - start as int) =~= s@.subrange(start as int, i as int));
                assert(u.skip(i - start as int + 1) =~= s@.skip(i as int + 1));
                assert(acc.deep_view() =~= prev + seq![line@]);
                assert(lines_of(s@) == acc.deep_view() + lines_of(s@.skip(i as int + 1)));
            }
            start = i + 1;
        }
        i += 1;
    }
    if start < n {
        let ghost prev = acc.deep_view();
        let ghost u = s@.skip(start as int);
        let line = line_between(s, start, n);
        acc.push(line);
        proof {
            let nl = |c: char| c == '\n';
            assert(forall|j: int| 0 <= j < u.len() ==> u[j] == s@[j + start] && !nl(u[j]));
            lemma_first_where(u, nl, 0, u.len() as int);
            assert(u =~= s@.subrange(start as int, n as int));
            assert(lines_of(u) == seq![strip_cr(u)]);
            assert(acc.deep_view() =~= prev + seq![line@]);
        }
    } else {
        proof {
            assert(s@.skip(start as int).len() == 0);
            assert(acc.deep_view() =~= acc.deep_view() + lines_of(s@.skip(start as int)));
        }
    }
    acc
}

/// Whether `s` is free of the character `c`.
pub open spec fn has_no_char(s: Seq<char>, c: char) -> bool {
    forall|j: int| 0 <= j < s.len() ==> (#[trigger] s[j]) != c
}

/// Whether `s` is free of whitespace.
pub open spec fn has_no_space(s: Seq<char>) -> bool {
    forall|j: int| 0 <= j < s.len() ==> !is_space(#[trigger] s[j])
}

/// A spec without an `=` is its own name.
pub proof fn lemma_name_of_identity(s: Seq<char>)
    requires
        has_no_char(s, '='),
    ensures
        spec_name_of(s) == s,
{
    lemma_first_where(s, |c: char| c == '=', 0, s.len() as int);
    assert(s.take(s.len() as int) =~= s);
}

/// A spec without whitespace is its own lookup name.
pub proof fn lemma_base_name_identity(s: Seq<char>)
    requires
        has_no_space(s),
    ensures
        spec_base_name(s) == s,
{
    if s.len() == 0 {
        lemma_first_where(s, |c: char| !is_space(c), 0, 0);
    } else {
        lemma_first_where(s, |c: char| !is_space(c), 0, 0);
        lemma_first_where(s, |c: char| is_space(c), 0, s.len() as int);
        assert(s.subrange(0, s.len() as int) =~= s);
    }
}

/// The value paired with `key` in an assoc list, a later entry for the
/// same key overriding an earlier one, as repeated inserts into a map
/// would.
pub open spec fn spec_assoc(m: Seq<(Seq<char>, Seq<char>)>, key: Seq<char>) -> Option<Seq<char>>
    decreases m.len(),
{
    if m.len() == 0 {
        Option::None
    } else if m.last().0 == key {
        Option::Some(m.last().1)
    } else {
        spec_assoc(m.drop_last(), key)
    }
}

/// The parts joined with a single space between neighbours.
pub open spec fn spec_join_spaces(parts: Seq<Seq<char>>) -> Seq<char>
    decreases parts.len(),
{
    if parts.len() == 0 {
        Seq::empty()
    } else if parts.len() == 1 {
        parts[0]
    } else {
        spec_join_spaces(parts.drop_last()) + seq![' '] + parts.last()
    }
}

/// Joins the parts with a single space between neighbours.
pub fn join_spaces(parts: &Vec<String>) -> (r: String)
    ensures
        r@ == spec_join_spaces(parts.deep_view()),
{
    let mut acc = String::new();
    proof {
        reveal_strlit(" ");
        assert(" "@ =~= seq![' ']);
    }
    let mut i: usize = 0;
    while i < parts.len()
        invariant
            i <= parts.len(),
            " "@ == seq![' '],
            acc@ == spec_join_spaces(parts.deep_view().take(i as int)),
        decreases parts.len() - i,
    {
        if i > 0 {
            acc.append(" ");
        }
        acc.append(parts[i].as_str());
        proof {
            let dv = parts.deep_view();
            assert(dv.take(i as int + 1).drop_last() =~= dv.take(i as int));
            assert(dv.take(i as int + 1).last() == dv[i as int]);
        }
        i += 1;
    }
    proof {
        assert(parts.deep_view().take(parts.len() as int) =~= parts.deep_view());
    }
    acc
}

} // verus!
