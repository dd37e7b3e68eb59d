//! Character-level text primitives: substring search, digit runs, and
//! decimal rendering, each specified over `Seq<char>`.

use vstd::prelude::*;

verus! {

/// `pat` occurs in `hay` starting at position `i`.
pub open spec fn occurs_at(hay: Seq<char>, pat: Seq<char>, i: int) -> bool {
    0 <= i && i + pat.len() <= hay.len() && hay.subrange(i, i + pat.len()) == pat
}

/// `pat` occurs somewhere in `hay`.
pub open spec fn contains_seq(hay: Seq<char>, pat: Seq<char>) -> bool {
    exists|i: int| occurs_at(hay, pat, i)
}

/// Position of the first occurrence of `pat` in `hay`, if any.
pub open spec fn find_index(hay: Seq<char>, pat: Seq<char>) -> Option<int>
    decreases hay.len(),
{
    if occurs_at(hay, pat, 0) {
        Some(0)
    } else if hay.len() == 0 {
        None
    } else {
        match find_index(hay.drop_first(), pat) {
            Some(j) => Some(j + 1),
            None => None,
        }
    }
}

/// `find_index` returns exactly the first occurrence, and `None` exactly
/// when there is none.
pub proof fn lemma_find_index_characterizes(hay: Seq<char>, pat: Seq<char>)
    ensures
        match find_index(hay, pat) {
            Some(i) => occurs_at(hay, pat, i) && (forall|j: int|
                0 <= j < i ==> !occurs_at(hay, pat, j)),
            None => forall|j: int| !occurs_at(hay, pat, j),
        },
    decreases hay.len(),
{
    if occurs_at(hay, pat, 0) {
    } else if hay.len() == 0 {
        assert forall|j: int| !occurs_at(hay, pat, j) by {
            if 0 <= j && j + pat.len() <= hay.len() {
                assert(j == 0 && pat.len() == 0);
            }
        }
    } else {
        let tail = hay.drop_first();
        lemma_find_index_characterizes(tail, pat);
        assert forall|j: int| 1 <= j && occurs_at(hay, pat, j) implies occurs_at(
            tail,
            pat,
            j - 1,
        ) by {
            assert(tail.subrange(j - 1, j - 1 + pat.len()) =~= hay.subrange(j, j + pat.len()));
        }
        assert forall|j: int| occurs_at(tail, pat, j) implies occurs_at(hay, pat, j + 1) by {
            assert(hay.subrange(j + 1, j + 1 + pat.len()) =~= tail.subrange(j, j + pat.len()));
        }
        match find_index(tail, pat) {
            Some(j) => {
                assert(occurs_at(hay, pat, j + 1));
            },
            None => {},
        }
    }
}

/// Collect the characters of a string slice into a vector.
pub fn chars_of(s: &str) -> (r: Vec<char>)
    ensures
        r@ == s@,
{
    let n = s.unicode_len();
    let mut r: Vec<char> = Vec::new();
    let mut i: usize = 0;
    while i < n
        invariant
            n == s@.len(),
            i <= n,
            r@ == s@.subrange(0, i as int),
        decreases n - i,
    {
        r.push(s.get_char(i));
        assert(r@ =~= s@.subrange(0, i + 1));
        i += 1;
    }
    assert(r@ =~= s@);
    r
}

/// Whether `v` matches `pat` starting at `i`.
fn matches_at(v: &Vec<char>, pat: &Vec<char>, i: usize) -> (r: bool)
    requires
        i + pat@.len() <= v@.len(),
    ensures
        r == occurs_at(v@, pat@, i as int),
{
    let n = v.len();
    let m = pat.len();
    let mut k: usize = 0;
    while k < m
        invariant
            n == v@.len(),
            m == pat@.len(),
            i + m <= n,
            k <= m,
            forall|t: int| 0 <= t < k ==> v@[i + t] == pat@[t],
        decreases m - k,
    {
        if v[i + k] != pat[k] {
            assert(v@.subrange(i as int, i + m) != pat@) by {
                assert(v@.subrange(i as int, i + m)[k as int] != pat@[k as int]);
            }
            return false;
        }
        k += 1;
    }
    assert(v@.subrange(i as int, i + m) =~= pat@);
    true
}

/// First occurrence of `pat` in `v`, scanning left to right.
pub fn find_in_chars(v: &Vec<char>, pat: &Vec<char>) -> (r: Option<usize>)
    ensures
        match r {
            Some(i) => find_index(v@, pat@) == Some(i as int),
            None => find_index(v@, pat@) is None,
        },
{
    proof {
        lemma_find_index_characterizes(v@, pat@);
    }
    let n = v.len();
    let m = pat.len();
    if m > n {
        return None;
    }
    if m == 0 {
        assert(v@.subrange(0, 0) =~= pat@);
        assert(occurs_at(v@, pat@, 0));
        return Some(0);
    }
    let last = n - m;
    let mut i: usize = 0;
    while i <= last
        invariant
            n == v@.len(),
            m == pat@.len(),
            1 <= m <= n,
            last == n - m,
            i <= last + 1,
            forall|j: int| 0 <= j < i ==> !occurs_at(v@, pat@, j),
        decreases last + 1 - i,
    {
        if matches_at(v, pat, i) {
            proof {
                lemma_find_index_characterizes(v@, pat@);
                match find_index(v@, pat@) {
                    Some(fi) => {
                        if fi < i {
                            assert(!occurs_at(v@, pat@, fi));
                        } else if fi > i {
                            assert(!occurs_at(v@, pat@, i as int));
                        }
                    },
                    None => {
                        assert(!occurs_at(v@, pat@, i as int));
                    },
                }
            }
            return Some(i);
        }
        i += 1;
    }
    None
}

/// Whether `hay` contains `pat` as a contiguous run of characters.
pub fn contains_sub(hay: &str, pat: &str) -> (r: bool)
    ensures
        r == contains_seq(hay@, pat@),
{
    proof {
        lemma_find_index_characterizes(hay@, pat@);
    }
    let hv = chars_of(hay);
    let pv = chars_of(pat);
    match find_in_chars(&hv, &pv) {
        Some(_) => true,
        None => false,
    }
}

/// Copy of `v[lo..hi]`.
pub fn copy_range(v: &Vec<char>, lo: usize, hi: usize) -> (r: Vec<char>)
    requires
        lo <= hi <= v@.len(),
    ensures
        r@ == v@.subrange(lo as int, hi as int),
{
    let mut r: Vec<char> = Vec::new();
    let mut i: usize = lo;
    while i < hi
        invariant
            lo <= i <= hi <= v@.len(),
            r@ == v@.subrange(lo as int, i as int),
        decreases hi - i,
    {
        r.push(v[i]);
        assert(r@ =~= v@.subrange(lo as int, i + 1));
        i += 1;
    }
    r
}

/// Relies on String::push from std: appends one character to the string.
#[verifier::external_body]
pub(crate) fn push_char(s: &mut String, c: char)
    ensures
        final(s)@ == old(s)@.push(c),
{
    s.push(c);
}

/// Build a string from a character vector.
pub fn string_of(v: &Vec<char>) -> (r: String)
    ensures
        r@ == v@,
{
    let n = v.len();
    let mut r = String::new();
    let mut i: usize = 0;
    while i < n
        invariant
            n == v@.len(),
            i <= n,
            r@ == v@.subrange(0, i as int),
        decreases n - i,
    {
        push_char(&mut r, v[i]);
        assert(r@ =~= v@.subrange(0, i + 1));
        i += 1;
    }
    assert(r@ =~= v@);
    r
}

/// `p` is a prefix of `s`.
pub open spec fn starts_with_seq(s: Seq<char>, p: Seq<char>) -> bool {
    p.len() <= s.len() && s.subrange(0, p.len() as int) == p
}

/// Whether `s` starts with `p`.
pub fn starts_with_sub(s: &str, p: &str) -> (r: bool)
    ensures
        r == starts_with_seq(s@, p@),
{
    let sv = chars_of(s);
    let pv = chars_of(p);
    if pv.len() > sv.len() {
        return false;
    }
    let r = matches_at(&sv, &pv, 0);
    assert(occurs_at(sv@, pv@, 0) == starts_with_seq(s@, p@));
    r
}

/// ASCII decimal digit.
pub open spec fn is_digit_char(c: char) -> bool {
    48 <= c as u32 <= 57
}

/// Numeric value of an ASCII digit.
pub open spec fn digit_val(c: char) -> int {
    c as u32 - 48
}

/// Every character of `s` is an ASCII digit.
pub open spec fn all_digits(s: Seq<char>) -> bool {
    forall|i: int| 0 <= i < s.len() ==> is_digit_char(#[trigger] s[i])
}

/// Numeric value of a digit run, most significant digit first.
pub open spec fn digits_value(s: Seq<char>) -> int
    decreases s.len(),
{
    if s.len() == 0 {
        0
    } else {
        digits_value(s.drop_last()) * 10 + digit_val(s.last())
    }
}

pub proof fn lemma_digits_value_nonneg(s: Seq<char>)
    requires
        all_digits(s),
    ensures
        digits_value(s) >= 0,
    decreases s.len(),
{
    if s.len() > 0 {
        assert(all_digits(s.drop_last())) by {
            assert(forall|i: int|
                0 <= i < s.len() - 1 ==> #[trigger] s.drop_last()[i] == s[i]);
        }
        lemma_digits_value_nonneg(s.drop_last());
    }
}

/// A digit run is worth at least any of its prefixes.
pub proof fn lemma_digits_value_prefix_le(s: Seq<char>, t: Seq<char>)
    requires
        all_digits(t),
        s.len() <= t.len(),
        s == t.subrange(0, s.len() as int),
    ensures
        digits_value(s) <= digits_value(t),
    decreases t.len(),
{
    if s.len() == t.len() {
        assert(s =~= t);
    } else {
        let t1 = t.drop_last();
        assert(all_digits(t1)) by {
            assert(forall|i: int| 0 <= i < t.len() - 1 ==> #[trigger] t1[i] == t[i]);
        }
        assert(s == t1.subrange(0, s.len() as int)) by {
            assert(t1.subrange(0, s.len() as int) =~= t.subrange(0, s.len() as int));
        }
        lemma_digits_value_prefix_le(s, t1);
        lemma_digits_value_nonneg(t1);
        assert(digits_value(t) == digits_value(t1) * 10 + digit_val(t.last()));
        assert(digit_val(t.last()) >= 0);
    }
}

/// Space or tab; the only padding accepted around a percent value.
pub open spec fn is_space_char(c: char) -> bool {
    c == ' ' || c == '\t'
}

/// `s` with leading and trailing spaces and tabs removed.
pub open spec fn trim_spaces(s: Seq<char>) -> Seq<char>
    decreases s.len(),
{
    if s.len() == 0 {
        s
    } else if is_space_char(s.first()) {
        trim_spaces(s.drop_first())
    } else if is_space_char(s.last()) {
        trim_spaces(s.drop_last())
    } else {
        s
    }
}

/// Trim spaces and tabs from both ends of a character vector.
pub fn trim_spaces_exec(v: &Vec<char>) -> (r: Vec<char>)
    ensures
        r@ == trim_spaces(v@),
{
    let n = v.len();
    assert(v@.subrange(0, n as int) =~= v@);
    let mut lo: usize = 0;
    while lo < n && is_space_exec(v[lo])
        invariant
            n == v@.len(),
            lo <= n,
            trim_spaces(v@) == trim_spaces(v@.subrange(lo as int, n as int)),
        decreases n - lo,
    {
        proof {
            let cur = v@.subrange(lo as int, n as int);
            assert(cur.drop_first() =~= v@.subrange(lo + 1, n as int));
        }
        lo += 1;
    }
    let mut hi: usize = n;
    while hi > lo && is_space_exec(v[hi - 1])
        invariant
            n == v@.len(),
            lo <= hi <= n,
            lo < n ==> !is_space_char(v@[lo as int]),
            trim_spaces(v@) == trim_spaces(v@.subrange(lo as int, hi as int)),
        decreases hi,
    {
        proof {
            let cur = v@.subrange(lo as int, hi as int);
            assert(cur.drop_last() =~= v@.subrange(lo as int, hi - 1));
        }
        hi -= 1;
    }
    proof {
        let cur = v@.subrange(lo as int, hi as int);
        if cur.len() > 0 {
            assert(cur.first() == v@[lo as int]);
            assert(cur.last() == v@[hi - 1]);
        }
        assert(trim_spaces(cur) == cur);
    }
    copy_range(v, lo, hi)
}

fn is_space_exec(c: char) -> (r: bool)
    ensures
        r == is_space_char(c),
{
    c == ' ' || c == '\t'
}

/// Value of a digit run, rejected when empty, non-numeric, or above `bound`.
pub open spec fn bounded_digits_value(s: Seq<char>, bound: int) -> Option<u32> {
    if s.len() > 0 && all_digits(s) && digits_value(s) <= bound {
        Some(digits_value(s) as u32)
    } else {
        None
    }
}

/// Parse a digit run, rejecting anything empty, non-numeric, or above `bound`.
pub fn parse_bounded_digits(v: &Vec<char>, bound: u32) -> (r: Option<u32>)
    requires
        bound <= 1000,
    ensures
        r == bounded_digits_value(v@, bound as int),
{
    let n = v.len();
    if n == 0 {
        return None;
    }
    let mut acc: u32 = 0;
    let mut i: usize = 0;
    while i < n
        invariant
            n == v@.len(),
            bound <= 1000,
            i <= n,
            all_digits(v@.subrange(0, i as int)),
            acc == digits_value(v@.subrange(0, i as int)),
            acc <= bound,
        decreases n - i,
    {
        let c = v[i];
        let cu = c as u32;
        if cu < 48 || cu > 57 {
            assert(!is_digit_char(v@[i as int]));
            return None;
        }
        let d = cu - 48;
        let next = acc * 10 + d;
        proof {
            let pre = v@.subrange(0, i as int);
            let pre1 = v@.subrange(0, i + 1);
            assert(pre1.drop_last() =~= pre);
            assert(pre1.last() == v@[i as int]);
            assert(all_digits(pre1)) by {
                assert(forall|t: int| 0 <= t < i ==> pre1[t] == pre[t]);
            }
            assert(digits_value(pre1) == next);
        }
        if next > bound {
            proof {
                if all_digits(v@) && digits_value(v@) <= bound {
                    lemma_digits_value_prefix_le(v@.subrange(0, i + 1), v@);
                }
            }
            return None;
        }
        acc = next;
        i += 1;
    }
    assert(v@.subrange(0, n as int) =~= v@);
    Some(acc)
}

/// Character of one decimal digit.
pub open spec fn digit_char(d: int) -> char {
    ((48 + d) as u8) as char
}

/// Decimal rendering of a nonnegative integer, no leading zeros.
pub open spec fn dec_digits(n: int) -> Seq<char>
    decreases n,
{
    if n < 10 {
        seq![digit_char(n)]
    } else {
        dec_digits(n / 10).push(digit_char(n % 10))
    }
}

/// Decimal rendering padded with a leading zero to at least two digits.
pub open spec fn two_digits(n: int) -> Seq<char> {
    if n < 10 {
        seq![digit_char(0)] + dec_digits(n)
    } else {
        dec_digits(n)
    }
}

/// Append the decimal rendering of `n`.
pub fn push_decimal(s: &mut String, n: u64)
    ensures
        final(s)@ == old(s)@ + dec_digits(n as int),
    decreases n,
{
    if n < 10 {
        let c = ((48 + n) as u8) as char;
        assert(c == digit_char(n as int));
        push_char(s, c);
        assert(s@ =~= old(s)@ + dec_digits(n as int));
    } else {
        push_decimal(s, n / 10);
        let c = ((48 + n % 10) as u8) as char;
        assert(c == digit_char(n as int % 10));
        push_char(s, c);
        assert(s@ =~= old(s)@ + dec_digits(n as int));
    }
}

/// Append `n` zero-padded to at least two digits.
pub fn push_two_digits(s: &mut String, n: u64)
    ensures
        final(s)@ == old(s)@ + two_digits(n as int),
{
    if n < 10 {
        push_char(s, '0');
        assert(s@ =~= old(s)@.push(digit_char(0)));
        push_decimal(s, n);
        assert(s@ =~= old(s)@ + two_digits(n as int));
    } else {
        push_decimal(s, n);
    }
}

} // verus!
