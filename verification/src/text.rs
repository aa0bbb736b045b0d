//! Character-level text operations on `&str` and `String`, each stated over
//! the sequence of characters that the string holds.

use vstd::prelude::*;
use vstd::string::*;

verus! {

/// The Unicode `White_Space` property: the characters that `char::is_whitespace`
/// accepts and that `str::trim` removes.
pub open spec fn is_white_space(c: char) -> bool {
    let u = c as u32;
    ||| 0x09 <= u <= 0x0D
    ||| u == 0x20
    ||| u == 0x85
    ||| u == 0xA0
    ||| u == 0x1680
    ||| 0x2000 <= u <= 0x200A
    ||| u == 0x2028
    ||| u == 0x2029
    ||| u == 0x202F
    ||| u == 0x205F
    ||| u == 0x3000
}

/// `s` with its leading white space removed.
pub open spec fn trim_start_view(s: Seq<char>) -> Seq<char>
    decreases s.len(),
{
    if s.len() > 0 && is_white_space(s[0]) {
        trim_start_view(s.drop_first())
    } else {
        s
    }
}

/// `s` with its trailing white space removed.
pub open spec fn trim_end_view(s: Seq<char>) -> Seq<char>
    decreases s.len(),
{
    if s.len() > 0 && is_white_space(s.last()) {
        trim_end_view(s.drop_last())
    } else {
        s
    }
}

/// `s` with white space removed at both ends, as `str::trim` does.
pub open spec fn trim_view(s: Seq<char>) -> Seq<char> {
    trim_end_view(trim_start_view(s))
}

/// `s` begins with `p`.
pub open spec fn has_prefix(s: Seq<char>, p: Seq<char>) -> bool {
    p.len() <= s.len() && s.take(p.len() as int) == p
}

/// `s` ends with `p`.
pub open spec fn has_suffix(s: Seq<char>, p: Seq<char>) -> bool {
    p.len() <= s.len() && s.skip(s.len() - p.len()) == p
}

/// Whether `c` is white space in the sense of `is_white_space`.
pub fn is_whitespace_char(c: char) -> (r: bool)
    ensures
        r == is_white_space(c),
{
    let u = c as u32;
    (0x09 <= u && u <= 0x0D) || u == 0x20 || u == 0x85 || u == 0xA0 || u == 0x1680 || (0x2000
        <= u && u <= 0x200A) || u == 0x2028 || u == 0x2029 || u == 0x202F || u == 0x205F || u
        == 0x3000
}

proof fn lemma_trim_start_skip(s: Seq<char>, i: int)
    requires
        0 <= i < s.len(),
        is_white_space(s[i]),
    ensures
        trim_start_view(s.skip(i)) == trim_start_view(s.skip(i + 1)),
{
    assert(s.skip(i).drop_first() =~= s.skip(i + 1));
}

proof fn lemma_trim_end_take(s: Seq<char>, j: int)
    requires
        0 < j <= s.len(),
        is_white_space(s[j - 1]),
    ensures
        trim_end_view(s.take(j)) == trim_end_view(s.take(j - 1)),
{
    assert(s.take(j).drop_last() =~= s.take(j - 1));
}

/// `s` with white space removed at both ends.
pub fn trim(s: &str) -> (r: &str)
    ensures
        r@ == trim_view(s@),
{
    let n = s.unicode_len();
    let mut i: usize = 0;
    assert(s@.skip(0) =~= s@);
    while i < n && is_whitespace_char(s.get_char(i))
        invariant
            n == s@.len(),
            i <= n,
            trim_start_view(s@) == trim_start_view(s@.skip(i as int)),
        decreases n - i,
    {
        proof {
            lemma_trim_start_skip(s@, i as int);
        }
        i = i + 1;
    }
    let ghost rest = s@.skip(i as int);
    proof {
        if i < n {
            assert(rest.len() > 0 && rest[0] == s@[i as int]);
        } else {
            assert(rest.len() == 0);
        }
        assert(trim_start_view(rest) == rest);
    }
    let mut j: usize = n;
    assert(rest.take(n - i) =~= rest);
    while j > i && is_whitespace_char(s.get_char(j - 1))
        invariant
            n == s@.len(),
            i <= j <= n,
            rest == s@.skip(i as int),
            trim_start_view(s@) == rest,
            trim_end_view(rest) == trim_end_view(rest.take(j - i)),
        decreases j,
    {
        proof {
            assert(rest[j - i - 1] == s@[j - 1]);
            lemma_trim_end_take(rest, j - i);
        }
        j = j - 1;
    }
    proof {
        let kept = rest.take(j - i);
        if j > i {
            assert(kept.last() == s@[j - 1]);
        }
        assert(trim_end_view(kept) == kept);
        assert(kept =~= s@.subrange(i as int, j as int));
    }
    s.substring_char(i, j)
}

/// Whether `s` begins with `p`.
pub fn starts_with(s: &str, p: &str) -> (r: bool)
    ensures
        r == has_prefix(s@, p@),
{
    let n = s.unicode_len();
    let m = p.unicode_len();
    if m > n {
        return false;
    }
    let mut k: usize = 0;
    while k < m
        invariant
            n == s@.len(),
            m == p@.len(),
            m <= n,
            k <= m,
            forall|t: int| 0 <= t < k ==> s@[t] == p@[t],
        decreases m - k,
    {
        if s.get_char(k) != p.get_char(k) {
            assert(s@.take(m as int)[k as int] != p@[k as int]);
            return false;
        }
        k = k + 1;
    }
    assert(s@.take(m as int) =~= p@);
    true
}

/// Whether `s` ends with `p`.
pub fn ends_with(s: &str, p: &str) -> (r: bool)
    ensures
        r == has_suffix(s@, p@),
{
    let n = s.unicode_len();
    let m = p.unicode_len();
    if m > n {
        return false;
    }
    let d = n - m;
    let mut k: usize = 0;
    while k < m
        invariant
            n == s@.len(),
            m == p@.len(),
            d == n - m,
            k <= m,
            forall|t: int| 0 <= t < k ==> s@[d + t] == p@[t],
        decreases m - k,
    {
        if s.get_char(d + k) != p.get_char(k) {
            assert(s@.skip(d as int)[k as int] != p@[k as int]);
            return false;
        }
        k = k + 1;
    }
    assert(s@.skip(d as int) =~= p@);
    true
}

/// `s` without the prefix `p`, where `s` begins with `p`, as `str::strip_prefix` does.
pub fn strip_prefix<'a>(s: &'a str, p: &str) -> (r: Option<&'a str>)
    ensures
        r matches Some(t) <==> has_prefix(s@, p@),
        r matches Some(t) ==> t@ == s@.skip(p@.len() as int),
{
    if starts_with(s, p) {
        let n = s.unicode_len();
        let m = p.unicode_len();
        Some(s.substring_char(m, n))
    } else {
        None
    }
}

/// `s` without the suffix `p`, where `s` ends with `p`, as `str::strip_suffix` does.
pub fn strip_suffix<'a>(s: &'a str, p: &str) -> (r: Option<&'a str>)
    ensures
        r matches Some(t) <==> has_suffix(s@, p@),
        r matches Some(t) ==> t@ == s@.take(s@.len() - p@.len()),
{
    if ends_with(s, p) {
        let n = s.unicode_len();
        let m = p.unicode_len();
        let t = s.substring_char(0, n - m);
        assert(t@ =~= s@.take(s@.len() - p@.len()));
        Some(t)
    } else {
        None
    }
}

/// The character of a decimal digit.
pub open spec fn digit_char(d: nat) -> char {
    if d == 0 {
        '0'
    } else if d == 1 {
        '1'
    } else if d == 2 {
        '2'
    } else if d == 3 {
        '3'
    } else if d == 4 {
        '4'
    } else if d == 5 {
        '5'
    } else if d == 6 {
        '6'
    } else if d == 7 {
        '7'
    } else if d == 8 {
        '8'
    } else {
        '9'
    }
}

/// The decimal numeral of `n`, without leading zeros, as `u64::to_string` gives it.
pub open spec fn decimal_view(n: nat) -> Seq<char>
    decreases n,
{
    if n < 10 {
        seq![digit_char(n)]
    } else {
        decimal_view(n / 10).push(digit_char(n % 10))
    }
}

fn digit_str(d: u64) -> (r: &'static str)
    requires
        d < 10,
    ensures
        r@ == seq![digit_char(d as nat)],
{
    if d == 0 {
        proof { reveal_strlit("0"); assert("0"@ =~= seq!['0']); }
        "0"
    } else if d == 1 {
        proof { reveal_strlit("1"); assert("1"@ =~= seq!['1']); }
        "1"
    } else if d == 2 {
        proof { reveal_strlit("2"); assert("2"@ =~= seq!['2']); }
        "2"
    } else if d == 3 {
        proof { reveal_strlit("3"); assert("3"@ =~= seq!['3']); }
        "3"
    } else if d == 4 {
        proof { reveal_strlit("4"); assert("4"@ =~= seq!['4']); }
        "4"
    } else if d == 5 {
        proof { reveal_strlit("5"); assert("5"@ =~= seq!['5']); }
        "5"
    } else if d == 6 {
        proof { reveal_strlit("6"); assert("6"@ =~= seq!['6']); }
        "6"
    } else if d == 7 {
        proof { reveal_strlit("7"); assert("7"@ =~= seq!['7']); }
        "7"
    } else if d == 8 {
        proof { reveal_strlit("8"); assert("8"@ =~= seq!['8']); }
        "8"
    } else {
        proof { reveal_strlit("9"); assert("9"@ =~= seq!['9']); }
        "9"
    }
}

/// Appends the decimal numeral of `n` to `out`.
pub fn append_decimal(out: &mut String, n: u64)
    ensures
        final(out)@ == old(out)@ + decimal_view(n as nat),
    decreases n,
{
    if n >= 10 {
        append_decimal(out, n / 10);
    }
    let ghost before = out@;
    out.append(digit_str(n % 10));
    proof {
        if n >= 10 {
            assert(decimal_view(n as nat) == decimal_view((n / 10) as nat).push(
                digit_char((n % 10) as nat),
            ));
            assert(out@ =~= old(out)@ + decimal_view(n as nat));
        } else {
            assert(n % 10 == n);
        }
    }
}

/// The decimal numeral of `n`.
pub fn decimal(n: u64) -> (r: String)
    ensures
        r@ == decimal_view(n as nat),
{
    let mut out = String::new();
    append_decimal(&mut out, n);
    assert(out@ =~= decimal_view(n as nat));
    out
}

/// `s` with every non-overlapping occurrence of `from`, found from the left,
/// replaced by `to`, as `str::replace` does for a non-empty pattern.
pub open spec fn replace_view(s: Seq<char>, from: Seq<char>, to: Seq<char>) -> Seq<char>
    decreases s.len(),
{
    if from.len() == 0 || s.len() < from.len() {
        s
    } else if s.take(from.len() as int) == from {
        to + replace_view(s.skip(from.len() as int), from, to)
    } else {
        seq![s[0]] + replace_view(s.drop_first(), from, to)
    }
}

/// Whether `p` occurs in `s` at position `i`.
fn occurs_at(s: &str, i: usize, p: &str) -> (r: bool)
    requires
        i <= s@.len(),
    ensures
        r == (i + p@.len() <= s@.len() && s@.subrange(i as int, i + p@.len()) == p@),
{
    let n = s.unicode_len();
    let m = p.unicode_len();
    if m > n - i {
        return false;
    }
    let mut k: usize = 0;
    while k < m
        invariant
            n == s@.len(),
            m == p@.len(),
            i + m <= n,
            k <= m,
            forall|t: int| 0 <= t < k ==> s@[i + t] == p@[t],
        decreases m - k,
    {
        if s.get_char(i + k) != p.get_char(k) {
            assert(s@.subrange(i as int, i + m)[k as int] != p@[k as int]);
            return false;
        }
        k = k + 1;
    }
    assert(s@.subrange(i as int, i + m) =~= p@);
    true
}

/// `s` with every occurrence of `from` replaced by `to`.
pub fn replace_all(s: &str, from: &str, to: &str) -> (r: String)
    requires
        from@.len() > 0,
    ensures
        r@ == replace_view(s@, from@, to@),
{
    let n = s.unicode_len();
    let m = from.unicode_len();
    let mut out = String::new();
    let mut i: usize = 0;
    assert(s@.skip(0) =~= s@);
    while i < n
        invariant
            n == s@.len(),
            m == from@.len(),
            m > 0,
            i <= n,
            out@ + replace_view(s@.skip(i as int), from@, to@) == replace_view(s@, from@, to@),
        decreases n - i,
    {
        let ghost rest = s@.skip(i as int);
        if occurs_at(s, i, from) {
            proof {
                assert(rest.take(m as int) =~= s@.subrange(i as int, i + m));
                assert(rest.skip(m as int) =~= s@.skip(i + m));
            }
            out.append(to);
            proof {
                assert(out@ + replace_view(s@.skip(i + m), from@, to@) =~= replace_view(
                    s@,
                    from@,
                    to@,
                ));
            }
            i = i + m;
        } else {
            let c = s.substring_char(i, i + 1);
            proof {
                assert(c@ =~= seq![s@[i as int]]);
                if rest.len() >= m {
                    assert(rest.take(m as int) =~= s@.subrange(i as int, i + m));
                    assert(rest.drop_first() =~= s@.skip(i + 1));
                } else {
                    assert(replace_view(rest, from@, to@) == rest);
                    assert(replace_view(s@.skip(i + 1), from@, to@) == s@.skip(i + 1));
                    assert(rest =~= seq![s@[i as int]] + s@.skip(i + 1));
                }
            }
            out.append(c);
            proof {
                assert(out@ + replace_view(s@.skip(i + 1), from@, to@) =~= replace_view(
                    s@,
                    from@,
                    to@,
                ));
            }
            i = i + 1;
        }
    }
    proof {
        assert(s@.skip(n as int).len() == 0);
        assert(out@ =~= replace_view(s@, from@, to@));
    }
    out
}

/// What follows the first `c` in `s`, if `s` holds a `c`.
pub open spec fn after_char(s: Seq<char>, c: char) -> Option<Seq<char>>
    decreases s.len(),
{
    if s.len() == 0 {
        None
    } else if s[0] == c {
        Some(s.drop_first())
    } else {
        after_char(s.drop_first(), c)
    }
}

/// What precedes the first `c` in `s`, or all of `s` if it holds no `c`.
pub open spec fn before_char(s: Seq<char>, c: char) -> Seq<char>
    decreases s.len(),
{
    if s.len() == 0 {
        s
    } else if s[0] == c {
        Seq::empty()
    } else {
        seq![s[0]] + before_char(s.drop_first(), c)
    }
}

/// The second of the pieces that `c` separates in `s`, as
/// `s.split(c).nth(1)` gives it: `None` when `s` holds no `c`.
pub open spec fn second_field_view(s: Seq<char>, c: char) -> Option<Seq<char>> {
    match after_char(s, c) {
        Some(rest) => Some(before_char(rest, c)),
        None => None,
    }
}

proof fn lemma_after_char_skip(s: Seq<char>, c: char, i: int)
    requires
        0 <= i < s.len(),
        s[i] != c,
    ensures
        after_char(s.skip(i), c) == after_char(s.skip(i + 1), c),
{
    assert(s.skip(i).drop_first() =~= s.skip(i + 1));
}

proof fn lemma_before_char_skip(s: Seq<char>, c: char, a: int, j: int)
    requires
        0 <= a <= j < s.len(),
        s[j] != c,
        before_char(s.skip(a), c) == s.subrange(a, j) + before_char(s.skip(j), c),
    ensures
        before_char(s.skip(a), c) == s.subrange(a, j + 1) + before_char(s.skip(j + 1), c),
{
    assert(s.skip(j).drop_first() =~= s.skip(j + 1));
    assert(s.subrange(a, j) + seq![s[j]] =~= s.subrange(a, j + 1));
    assert(s.subrange(a, j) + (seq![s[j]] + before_char(s.skip(j + 1), c)) =~= s.subrange(
        a,
        j + 1,
    ) + before_char(s.skip(j + 1), c));
}

/// The piece between the first `c` of `s` and the next one (or the end).
pub fn second_field(s: &str, c: char) -> (r: Option<&str>)
    ensures
        opt_str_view(r) == second_field_view(s@, c),
{
    let n = s.unicode_len();
    let mut i: usize = 0;
    assert(s@.skip(0) =~= s@);
    while i < n && s.get_char(i) != c
        invariant
            n == s@.len(),
            i <= n,
            after_char(s@, c) == after_char(s@.skip(i as int), c),
        decreases n - i,
    {
        proof {
            lemma_after_char_skip(s@, c, i as int);
        }
        i = i + 1;
    }
    if i == n {
        assert(s@.skip(n as int).len() == 0);
        return None;
    }
    assert(s@.skip(i as int)[0] == c);
    assert(s@.skip(i as int).drop_first() =~= s@.skip(i + 1));
    let a = i + 1;
    let mut j: usize = a;
    assert(s@.subrange(a as int, a as int) =~= Seq::<char>::empty());
    while j < n && s.get_char(j) != c
        invariant
            n == s@.len(),
            a <= j <= n,
            before_char(s@.skip(a as int), c) == s@.subrange(a as int, j as int) + before_char(
                s@.skip(j as int),
                c,
            ),
        decreases n - j,
    {
        proof {
            lemma_before_char_skip(s@, c, a as int, j as int);
        }
        j = j + 1;
    }
    proof {
        if j < n {
            assert(s@.skip(j as int)[0] == c);
        } else {
            assert(s@.skip(j as int).len() == 0);
        }
        assert(before_char(s@.skip(a as int), c) =~= s@.subrange(a as int, j as int));
    }
    Some(s.substring_char(a, j))
}

/// The characters of an optional string slice.
pub open spec fn opt_str_view(s: Option<&str>) -> Option<Seq<char>> {
    match s {
        Some(t) => Some(t@),
        None => None,
    }
}

/// Whether `a` and `b` hold the same characters.
pub fn same_text(a: &str, b: &str) -> (r: bool)
    ensures
        r == (a@ == b@),
{
    if a.unicode_len() != b.unicode_len() {
        return false;
    }
    let r = starts_with(a, b);
    proof {
        assert(a@.take(b@.len() as int) =~= a@);
    }
    r
}

} // verus!
