//! Character-sequence utilities shared by the whole crate.
//!
//! All string handling in the library is specified over `Seq<char>` views.
//! Case folding is ASCII-only: `'A'..'Z'` map to `'a'..'z'` and every other
//! character is left alone.

use vstd::prelude::*;

verus! {

/// ASCII lower-casing of a single character.
pub open spec fn lower_char(c: char) -> char {
    if 'A' <= c && c <= 'Z' {
        (((c as u8) + 32) as char)
    } else {
        c
    }
}

/// ASCII lower-casing of a character sequence.
pub open spec fn lower_seq(s: Seq<char>) -> Seq<char> {
    s.map_values(|c: char| lower_char(c))
}

/// `p` occurs in `s` starting at position `i`.
pub open spec fn occurs_at(s: Seq<char>, p: Seq<char>, i: int) -> bool {
    0 <= i && i + p.len() <= s.len() && s.subrange(i, i + p.len() as int) == p
}

/// `p` is a contiguous subsequence of `s`.
pub open spec fn contains_seq(s: Seq<char>, p: Seq<char>) -> bool {
    exists|i: int| occurs_at(s, p, i)
}

/// `p` is a prefix of `s`.
pub open spec fn prefix_of(p: Seq<char>, s: Seq<char>) -> bool {
    p.len() <= s.len() && s.subrange(0, p.len() as int) == p
}

/// Exec counterpart of `lower_char`.
pub fn lower_char_exec(c: char) -> (r: char)
    ensures
        r == lower_char(c),
{
    if 'A' <= c && c <= 'Z' {
        ((c as u8) + 32) as char
    } else {
        c
    }
}

/// `s` folded for comparison: lower-cased when `ci` is set, unchanged otherwise.
pub open spec fn folded(s: Seq<char>, ci: bool) -> Seq<char> {
    if ci {
        lower_seq(s)
    } else {
        s
    }
}

/// Whether `p` occurs in `s` at position `i`, after optional case folding.
fn match_at(s: &str, p: &str, i: usize, ci: bool) -> (r: bool)
    requires
        i + p@.len() <= s@.len() <= usize::MAX,
    ensures
        r == occurs_at(folded(s@, ci), folded(p@, ci), i as int),
{
    let m = p.unicode_len();
    let mut j: usize = 0;
    while j < m
        invariant
            m == p@.len(),
            0 <= j <= m,
            i + m <= s@.len() <= usize::MAX,
            forall|k: int|
                0 <= k < j ==> folded(s@, ci)[i + k] == folded(p@, ci)[k],
        decreases m - j,
    {
        let cs = if ci {
            lower_char_exec(s.get_char(i + j))
        } else {
            s.get_char(i + j)
        };
        let cp = if ci {
            lower_char_exec(p.get_char(j))
        } else {
            p.get_char(j)
        };
        if cs != cp {
            assert(!occurs_at(folded(s@, ci), folded(p@, ci), i as int)) by {
                if occurs_at(folded(s@, ci), folded(p@, ci), i as int) {
                    assert(folded(s@, ci).subrange(i as int, i + m)[j as int]
                        == folded(p@, ci)[j as int]);
                }
            }
            return false;
        }
        j = j + 1;
    }
    assert(folded(s@, ci).subrange(i as int, i + m) =~= folded(p@, ci));
    true
}

/// Position of the first occurrence of `p` in `s`, after optional case folding.
fn find_sub(s: &str, p: &str, ci: bool) -> (r: Option<usize>)
    ensures
        match r {
            Some(i) => occurs_at(folded(s@, ci), folded(p@, ci), i as int)
                && forall|k: int| 0 <= k < i ==> !occurs_at(folded(s@, ci), folded(p@, ci), k),
            None => !contains_seq(folded(s@, ci), folded(p@, ci)),
        },
{
    let n = s.unicode_len();
    let m = p.unicode_len();
    if m > n {
        return None;
    }
    if m == 0 {
        assert(folded(s@, ci).subrange(0, 0) =~= folded(p@, ci));
        return Some(0);
    }
    let mut i: usize = 0;
    while i <= n - m
        invariant
            n == s@.len(),
            m == p@.len(),
            0 < m <= n,
            0 <= i <= n - m + 1,
            forall|k: int| 0 <= k < i ==> !occurs_at(folded(s@, ci), folded(p@, ci), k),
        decreases n - i,
    {
        if match_at(s, p, i, ci) {
            return Some(i);
        }
        i = i + 1;
    }
    None
}

/// Case-sensitive substring test.
pub fn contains_str(s: &str, p: &str) -> (r: bool)
    ensures
        r == contains_seq(s@, p@),
{
    find_sub(s, p, false).is_some()
}

/// Case-insensitive (ASCII) substring test.
pub fn contains_ci(s: &str, p: &str) -> (r: bool)
    ensures
        r == contains_seq(lower_seq(s@), lower_seq(p@)),
{
    find_sub(s, p, true).is_some()
}

/// Position of the first case-sensitive occurrence of `p` in `s`.
pub fn find_str(s: &str, p: &str) -> (r: Option<usize>)
    ensures
        match r {
            Some(i) => occurs_at(s@, p@, i as int) && forall|k: int|
                0 <= k < i ==> !occurs_at(s@, p@, k),
            None => !contains_seq(s@, p@),
        },
{
    find_sub(s, p, false)
}

/// Character-for-character equality of two string slices.
pub fn str_eq(a: &str, b: &str) -> (r: bool)
    ensures
        r == (a@ == b@),
{
    let n = a.unicode_len();
    if n != b.unicode_len() {
        proof {
            assert(a@.len() != b@.len());
        }
        return false;
    }
    let r = match_at(a, b, 0, false);
    proof {
        if r {
            assert(a@.subrange(0, a@.len() as int) =~= a@);
        }
        if a@ == b@ {
            assert(a@.subrange(0, b@.len() as int) =~= b@);
        }
    }
    r
}

/// Equality of two string slices up to ASCII case.
pub fn str_eq_ci(a: &str, b: &str) -> (r: bool)
    ensures
        r == (lower_seq(a@) == lower_seq(b@)),
{
    let n = a.unicode_len();
    if n != b.unicode_len() {
        proof {
            assert(lower_seq(a@).len() != lower_seq(b@).len());
        }
        return false;
    }
    let r = match_at(a, b, 0, true);
    proof {
        if r {
            assert(lower_seq(a@).subrange(0, a@.len() as int) =~= lower_seq(a@));
        }
        if lower_seq(a@) == lower_seq(b@) {
            assert(lower_seq(a@).subrange(0, b@.len() as int) =~= lower_seq(b@));
        }
    }
    r
}

/// Case-sensitive prefix test.
pub fn starts_with(s: &str, p: &str) -> (r: bool)
    ensures
        r == prefix_of(p@, s@),
{
    let n = s.unicode_len();
    let m = p.unicode_len();
    if m > n {
        return false;
    }
    let r = match_at(s, p, 0, false);
    assert(occurs_at(s@, p@, 0) == prefix_of(p@, s@));
    r
}

/// Case-insensitive (ASCII) prefix test.
pub fn starts_with_ci(s: &str, p: &str) -> (r: bool)
    ensures
        r == prefix_of(lower_seq(p@), lower_seq(s@)),
{
    let n = s.unicode_len();
    let m = p.unicode_len();
    if m > n {
        return false;
    }
    let r = match_at(s, p, 0, true);
    assert(occurs_at(lower_seq(s@), lower_seq(p@), 0) == prefix_of(lower_seq(p@), lower_seq(s@)));
    r
}

/// Relies on `String::from` for `char`: the one-character string.
#[verifier::external_body]
pub fn char_to_string(c: char) -> (r: String)
    ensures
        r@ == seq![c],
{
    String::from(c)
}

/// ASCII whitespace, the characters stripped by `trim_str`.
pub open spec fn is_space(c: char) -> bool {
    c == ' ' || c == '\t' || c == '\n' || c == '\r'
}

/// `s` without leading ASCII whitespace.
pub open spec fn trim_start_seq(s: Seq<char>) -> Seq<char>
    decreases s.len(),
{
    if s.len() > 0 && is_space(s[0]) {
        trim_start_seq(s.drop_first())
    } else {
        s
    }
}

/// `s` without trailing ASCII whitespace.
pub open spec fn trim_end_seq(s: Seq<char>) -> Seq<char>
    decreases s.len(),
{
    if s.len() > 0 && is_space(s[s.len() - 1]) {
        trim_end_seq(s.drop_last())
    } else {
        s
    }
}

/// `s` without leading and trailing ASCII whitespace.
pub open spec fn trim_seq(s: Seq<char>) -> Seq<char> {
    trim_end_seq(trim_start_seq(s))
}

/// Exec whitespace test.
fn is_space_exec(c: char) -> (r: bool)
    ensures
        r == is_space(c),
{
    c == ' ' || c == '\t' || c == '\n' || c == '\r'
}

/// Copy of `s` with leading and trailing ASCII whitespace removed.
pub fn trim_str(s: &str) -> (r: String)
    ensures
        r@ == trim_seq(s@),
{
    let n = s.unicode_len();
    let mut a: usize = 0;
    proof {
        assert(s@.skip(0) =~= s@);
    }
    while a < n && is_space_exec(s.get_char(a))
        invariant
            n == s@.len(),
            0 <= a <= n,
            trim_start_seq(s@) == trim_start_seq(s@.skip(a as int)),
        decreases n - a,
    {
        proof {
            assert(s@.skip(a as int).drop_first() =~= s@.skip(a + 1));
        }
        a = a + 1;
    }
    proof {
        assert(trim_start_seq(s@) == s@.skip(a as int));
    }
    let mut b: usize = n;
    proof {
        assert(s@.subrange(a as int, n as int) =~= s@.skip(a as int));
    }
    while b > a && is_space_exec(s.get_char(b - 1))
        invariant
            n == s@.len(),
            a <= b <= n,
            trim_start_seq(s@) == s@.skip(a as int),
            trim_end_seq(s@.skip(a as int)) == trim_end_seq(s@.subrange(a as int, b as int)),
        decreases b,
    {
        proof {
            assert(s@.subrange(a as int, b as int).drop_last() =~= s@.subrange(
                a as int,
                b - 1,
            ));
        }
        b = b - 1;
    }
    proof {
        assert(trim_end_seq(s@.subrange(a as int, b as int)) == s@.subrange(a as int, b as int));
    }
    let piece = s.substring_char(a, b);
    String::from_str(piece)
}

/// Copy of `s` with leading ASCII whitespace removed.
pub fn trim_start_str(s: &str) -> (r: String)
    ensures
        r@ == trim_start_seq(s@),
{
    let n = s.unicode_len();
    let mut a: usize = 0;
    proof {
        assert(s@.skip(0) =~= s@);
    }
    while a < n && is_space_exec(s.get_char(a))
        invariant
            n == s@.len(),
            0 <= a <= n,
            trim_start_seq(s@) == trim_start_seq(s@.skip(a as int)),
        decreases n - a,
    {
        proof {
            assert(s@.skip(a as int).drop_first() =~= s@.skip(a + 1));
        }
        a = a + 1;
    }
    proof {
        assert(trim_start_seq(s@) == s@.skip(a as int));
        assert(s@.subrange(a as int, n as int) =~= s@.skip(a as int));
    }
    let piece = s.substring_char(a, n);
    String::from_str(piece)
}

/// The decimal digit `d` as a character.
pub open spec fn digit_char(d: int) -> char {
    if d == 0 {
        '0'
    } else if d == 1 {
        '1'
    } else if d == 2 {
        '2'
    } else if d == 3 {
        '3'
    } else if d == 4 {
        '4'
    } else if d == 5 {
        '5'
    } else if d == 6 {
        '6'
    } else if d == 7 {
        '7'
    } else if d == 8 {
        '8'
    } else {
        '9'
    }
}

/// Decimal rendering of a non-negative integer, most significant digit first.
pub open spec fn dec_str(n: int) -> Seq<char>
    decreases n,
{
    if n < 10 {
        seq![digit_char(n)]
    } else {
        dec_str(n / 10).push(digit_char(n % 10))
    }
}

/// The digit `d` as a one-character string slice.
fn digit_literal(d: u64) -> (r: &'static str)
    requires
        d < 10,
    ensures
        r@ == seq![digit_char(d as int)],
{
    if d == 0 {
        proof {
            reveal_strlit("0");
        }
        let r = "0";
        assert(r@ =~= seq![digit_char(0)]);
        r
    } else if d == 1 {
        proof {
            reveal_strlit("1");
        }
        let r = "1";
        assert(r@ =~= seq![digit_char(1)]);
        r
    } else if d == 2 {
        proof {
            reveal_strlit("2");
        }
        let r = "2";
        assert(r@ =~= seq![digit_char(2)]);
        r
    } else if d == 3 {
        proof {
            reveal_strlit("3");
        }
        let r = "3";
        assert(r@ =~= seq![digit_char(3)]);
        r
    } else if d == 4 {
        proof {
            reveal_strlit("4");
        }
        let r = "4";
        assert(r@ =~= seq![digit_char(4)]);
        r
    } else if d == 5 {
        proof {
            reveal_strlit("5");
        }
        let r = "5";
        assert(r@ =~= seq![digit_char(5)]);
        r
    } else if d == 6 {
        proof {
            reveal_strlit("6");
        }
        let r = "6";
        assert(r@ =~= seq![digit_char(6)]);
        r
    } else if d == 7 {
        proof {
            reveal_strlit("7");
        }
        let r = "7";
        assert(r@ =~= seq![digit_char(7)]);
        r
    } else if d == 8 {
        proof {
            reveal_strlit("8");
        }
        let r = "8";
        assert(r@ =~= seq![digit_char(8)]);
        r
    } else {
        proof {
            reveal_strlit("9");
        }
        let r = "9";
        assert(r@ =~= seq![digit_char(9)]);
        r
    }
}

/// Decimal rendering of `n`.
pub fn u64_to_string(n: u64) -> (r: String)
    ensures
        r@ == dec_str(n as int),
    decreases n,
{
    if n < 10 {
        String::from_str(digit_literal(n))
    } else {
        let mut s = u64_to_string(n / 10);
        s.append(digit_literal(n % 10));
        assert(s@ =~= dec_str(n as int));
        s
    }
}

/// Decimal rendering of an integer, with a leading minus sign when negative.
pub open spec fn int_str(n: int) -> Seq<char> {
    if n < 0 {
        seq!['-'] + dec_str(-n)
    } else {
        dec_str(n)
    }
}

/// Decimal rendering of `n`, signed.
pub fn i32_to_string(n: i32) -> (r: String)
    ensures
        r@ == int_str(n as int),
{
    if n < 0 {
        let v: i64 = n as i64;
        let m: u64 = (-v) as u64;
        let mut s = String::from_str("-");
        proof {
            reveal_strlit("-");
            assert(s@ =~= seq!['-']);
        }
        let digits = u64_to_string(m);
        s.append(digits.as_str());
        s
    } else {
        u64_to_string(n as u64)
    }
}

/// A millisecond count rendered as seconds with two decimal places,
/// truncated towards zero.
pub open spec fn duration_2dp(ms: int) -> Seq<char> {
    dec_str(ms / 1000) + seq!['.'] + seq![
        digit_char((ms % 1000) / 100),
        digit_char(((ms % 1000) / 10) % 10),
    ]
}

/// Renders `ms` milliseconds as seconds with two decimal places.
pub fn format_duration_2dp(ms: u64) -> (r: String)
    ensures
        r@ == duration_2dp(ms as int),
{
    let mut s = u64_to_string(ms / 1000);
    s.append(".");
    proof {
        reveal_strlit(".");
        assert("."@ =~= seq!['.']);
    }
    s.append(digit_literal((ms % 1000) / 100));
    s.append(digit_literal(((ms % 1000) / 10) % 10));
    assert(s@ =~= duration_2dp(ms as int));
    s
}

/// The views of a vector of strings.
pub open spec fn views_of(v: Seq<String>) -> Seq<Seq<char>> {
    v.map_values(|x: String| x@)
}

/// Lines joined with a single newline between them.
pub open spec fn join_nl(v: Seq<Seq<char>>) -> Seq<char>
    decreases v.len(),
{
    if v.len() == 0 {
        Seq::<char>::empty()
    } else if v.len() == 1 {
        v[0]
    } else {
        v[0] + seq!['\n'] + join_nl(v.drop_first())
    }
}

proof fn lemma_join_push(v: Seq<Seq<char>>, x: Seq<char>)
    requires
        v.len() >= 1,
    ensures
        join_nl(v.push(x)) == join_nl(v) + seq!['\n'] + x,
    decreases v.len(),
{
    if v.len() == 1 {
        assert(v.push(x).drop_first() =~= seq![x]);
        assert(join_nl(seq![x]) == seq![x][0]);
        assert(join_nl(v.push(x)) == v.push(x)[0] + seq!['\n'] + join_nl(v.push(x).drop_first()));
    } else {
        assert(v.push(x).drop_first() =~= v.drop_first().push(x));
        lemma_join_push(v.drop_first(), x);
    }
}

/// The elements of `v` joined with a newline between each pair.
pub fn join_lines(v: &Vec<String>) -> (r: String)
    ensures
        r@ == join_nl(views_of(v@)),
{
    let ghost vs = views_of(v@);
    let mut out = String::new();
    let mut i: usize = 0;
    while i < v.len()
        invariant
            vs == views_of(v@),
            0 <= i <= v.len(),
            out@ == join_nl(vs.take(i as int)),
        decreases v.len() - i,
    {
        if i == 0 {
            out.append(v[i].as_str());
            proof {
                assert(vs.take(1) =~= seq![vs[0]]);
            }
        } else {
            out.append("\n");
            out.append(v[i].as_str());
            proof {
                reveal_strlit("\n");
                assert("\n"@ =~= seq!['\n']);
                assert(vs.take(i as int).push(vs[i as int]) =~= vs.take(i + 1));
                lemma_join_push(vs.take(i as int), vs[i as int]);
            }
        }
        i = i + 1;
    }
    proof {
        assert(vs.take(v@.len() as int) =~= vs);
    }
    out
}

/// `s` split at every occurrence of `sep`; the separators themselves are
/// discarded, and `n` separators always yield `n + 1` pieces.
pub open spec fn split_sep(s: Seq<char>, sep: char) -> Seq<Seq<char>>
    decreases s.len(),
{
    if s.len() == 0 {
        seq![Seq::<char>::empty()]
    } else if s[0] == sep {
        seq![Seq::<char>::empty()] + split_sep(s.drop_first(), sep)
    } else {
        let r = split_sep(s.drop_first(), sep);
        seq![seq![s[0]] + r[0]] + r.drop_first()
    }
}

/// A split always yields at least one piece.
pub proof fn lemma_split_nonempty(s: Seq<char>, sep: char)
    ensures
        split_sep(s, sep).len() >= 1,
    decreases s.len(),
{
    if s.len() > 0 {
        lemma_split_nonempty(s.drop_first(), sep);
    }
}

proof fn lemma_split_first(s: Seq<char>, sep: char, k: int)
    requires
        0 <= k <= s.len(),
        forall|j: int| 0 <= j < k ==> s[j] != sep,
        k < s.len() ==> s[k] == sep,
    ensures
        k == s.len() ==> split_sep(s, sep) == seq![s],
        k < s.len() ==> split_sep(s, sep) == seq![s.take(k)] + split_sep(s.skip(k + 1), sep),
    decreases k,
{
    lemma_split_nonempty(s, sep);
    if k == 0 {
        if k < s.len() {
            assert(split_sep(s, sep) == seq![Seq::<char>::empty()] + split_sep(
                s.drop_first(),
                sep,
            ));
            assert(s.take(0) =~= Seq::<char>::empty());
            assert(s.skip(1) =~= s.drop_first());
        } else {
            assert(s.len() == 0);
            assert(s =~= Seq::<char>::empty());
        }
    } else {
        let t = s.drop_first();
        lemma_split_nonempty(t, sep);
        lemma_split_first(t, sep, k - 1);
        let r = split_sep(t, sep);
        assert(split_sep(s, sep) == seq![seq![s[0]] + r[0]] + r.drop_first());
        if k == s.len() {
            assert(r == seq![t]);
            assert(seq![s[0]] + t =~= s);
            assert(r.drop_first() =~= Seq::<Seq<char>>::empty());
            assert(split_sep(s, sep) =~= seq![s]);
        } else {
            assert(r == seq![t.take(k - 1)] + split_sep(t.skip(k), sep));
            assert(r[0] == t.take(k - 1));
            assert(seq![s[0]] + t.take(k - 1) =~= s.take(k));
            assert(r.drop_first() =~= split_sep(t.skip(k), sep));
            assert(t.skip(k) =~= s.skip(k + 1));
            assert(split_sep(s, sep) =~= seq![s.take(k)] + split_sep(s.skip(k + 1), sep));
        }
    }
}

/// Splits `s` at every occurrence of `sep`.
pub fn split_on(s: &str, sep: char) -> (r: Vec<String>)
    ensures
        views_of(r@) == split_sep(s@, sep),
{
    let n = s.unicode_len();
    let mut out: Vec<String> = Vec::new();
    let mut start: usize = 0;
    let mut i: usize = 0;
    proof {
        assert(s@.skip(0) =~= s@);
        assert(views_of(out@) =~= Seq::<Seq<char>>::empty());
        assert(views_of(out@) + split_sep(s@.skip(0), sep) =~= split_sep(s@, sep));
    }
    while i < n
        invariant
            n == s@.len() <= usize::MAX,
            0 <= start <= i <= n,
            forall|j: int| start <= j < i ==> s@[j] != sep,
            split_sep(s@, sep) =~= views_of(out@) + split_sep(s@.skip(start as int), sep),
        decreases n - i,
    {
        if s.get_char(i) == sep {
            let piece = s.substring_char(start, i);
            out.push(String::from_str(piece));
            proof {
                let rest = s@.skip(start as int);
                lemma_split_first(rest, sep, i - start);
                assert(rest.take(i - start) =~= s@.subrange(start as int, i as int));
                assert(rest.skip(i - start + 1) =~= s@.skip(i + 1));
                assert(views_of(out@) =~= views_of(out@.drop_last()) + seq![piece@]);
            }
            start = i + 1;
        }
        i = i + 1;
    }
    let piece = s.substring_char(start, n);
    out.push(String::from_str(piece));
    proof {
        let rest = s@.skip(start as int);
        lemma_split_first(rest, sep, n - start);
        assert(rest.take(n - start) =~= rest);
        assert(rest =~= s@.subrange(start as int, n as int));
        assert(views_of(out@) =~= views_of(out@.drop_last()) + seq![piece@]);
        assert(views_of(out@) =~= split_sep(s@, sep));
    }
    out
}

/// The line decomposition of a text: pieces split at `'\n'`, with a final
/// newline producing no trailing empty line, and the empty text no lines.
pub open spec fn lines_spec(s: Seq<char>) -> Seq<Seq<char>> {
    if s.len() == 0 {
        Seq::<Seq<char>>::empty()
    } else if s[s.len() - 1] == '\n' {
        split_sep(s.take(s.len() - 1), '\n')
    } else {
        split_sep(s, '\n')
    }
}

/// Splits `s` into lines at `'\n'`; a trailing newline yields no final empty
/// line.
pub fn split_lines(s: &str) -> (r: Vec<String>)
    ensures
        views_of(r@) == lines_spec(s@),
{
    let full_len = s.unicode_len();
    if full_len == 0 {
        let r: Vec<String> = Vec::new();
        proof {
            assert(views_of(r@) =~= lines_spec(s@));
        }
        return r;
    }
    let body: &str = if s.get_char(full_len - 1) == '\n' {
        s.substring_char(0, full_len - 1)
    } else {
        s
    };
    proof {
        assert(s@.take(s@.len() - 1) =~= s@.subrange(0, s@.len() - 1));
        assert(lines_spec(s@) == split_sep(body@, '\n'));
    }
    split_on(body, '\n')
}

/// `s` with every non-overlapping occurrence of `f`, scanned left to right,
/// replaced by `t`.
pub open spec fn replace_seq(s: Seq<char>, f: Seq<char>, t: Seq<char>) -> Seq<char>
    decreases s.len(),
    when f.len() > 0
{
    if s.len() < f.len() {
        s
    } else if s.subrange(0, f.len() as int) == f {
        t + replace_seq(s.skip(f.len() as int), f, t)
    } else {
        seq![s[0]] + replace_seq(s.drop_first(), f, t)
    }
}

/// Copy of `s` with every occurrence of `from` replaced by `to`.
pub fn replace_all(s: &str, from: &str, to: &str) -> (r: String)
    requires
        from@.len() > 0,
    ensures
        r@ == replace_seq(s@, from@, to@),
{
    let n = s.unicode_len();
    let m = from.unicode_len();
    let mut out = String::new();
    let mut i: usize = 0;
    proof {
        assert(s@.skip(0) =~= s@);
    }
    while i < n
        invariant
            n == s@.len() <= usize::MAX,
            m == from@.len(),
            m > 0,
            0 <= i <= n,
            replace_seq(s@, from@, to@) == out@ + replace_seq(s@.skip(i as int), from@, to@),
        decreases n - i,
    {
        let ghost rest = s@.skip(i as int);
        if m <= n - i && match_at(s, from, i, false) {
            out.append(to);
            proof {
                assert(rest.subrange(0, m as int) =~= s@.subrange(i as int, i + m));
                assert(rest.skip(m as int) =~= s@.skip(i + m));
            }
            i = i + m;
        } else {
            let piece = s.substring_char(i, i + 1);
            out.append(piece);
            proof {
                if i + m <= n {
                    assert(rest.subrange(0, m as int) =~= s@.subrange(i as int, i + m));
                }
                assert(piece@ =~= seq![s@[i as int]]);
                assert(rest.drop_first() =~= s@.skip(i + 1));
                if rest.len() < m {
                    assert(rest =~= seq![s@[i as int]] + s@.skip(i + 1));
                }
            }
            i = i + 1;
        }
    }
    proof {
        assert(s@.skip(n as int) =~= Seq::<char>::empty());
    }
    out
}

} // verus!
