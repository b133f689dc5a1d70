//! Verified text utilities the adapter logic is built on: decimal rendering,
//! substring search (optionally ASCII-case-insensitive), trimming, splitting
//! on commas, and joining with spaces.

use vstd::prelude::*;
use vstd::string::StrSliceExecFns;
use vstd::string::StringExecFns;

verus! {

/// The digit character for `d` (0 to 9).
pub open spec fn digit_char(d: int) -> char {
    if d == 0 {
        '0'
    } else if d == 1 {
        '1'
    } else if d == 2 {
        '2'
    } else if d == 3 {
        '3'
    } else if d == 4 {
        '4'
    } else if d == 5 {
        '5'
    } else if d == 6 {
        '6'
    } else if d == 7 {
        '7'
    } else if d == 8 {
        '8'
    } else {
        '9'
    }
}

/// The decimal rendering of `n`, most significant digit first, no leading
/// zeros (except for zero itself).
pub open spec fn dec_spec(n: nat) -> Seq<char>
    decreases n,
{
    if n < 10 {
        seq![digit_char(n as int)]
    } else {
        dec_spec(n / 10).push(digit_char((n % 10) as int))
    }
}

/// The one-character string for digit `d`.
fn digit_str(d: u8) -> (r: &'static str)
    requires
        d < 10,
    ensures
        r@ == seq![digit_char(d as int)],
{
    let r: &'static str = match d {
        0 => "0",
        1 => "1",
        2 => "2",
        3 => "3",
        4 => "4",
        5 => "5",
        6 => "6",
        7 => "7",
        8 => "8",
        _ => "9",
    };
    proof {
        reveal_strlit("0");
        reveal_strlit("1");
        reveal_strlit("2");
        reveal_strlit("3");
        reveal_strlit("4");
        reveal_strlit("5");
        reveal_strlit("6");
        reveal_strlit("7");
        reveal_strlit("8");
        reveal_strlit("9");
        assert(r@ =~= seq![digit_char(d as int)]);
    }
    r
}

/// Renders `n` in decimal.
pub fn u8_decimal(n: u8) -> (r: String)
    ensures
        r@ == dec_spec(n as nat),
{
    let mut s = String::new();
    if n >= 100 {
        s.append(digit_str(n / 100));
    }
    if n >= 10 {
        s.append(digit_str((n / 10) % 10));
    }
    s.append(digit_str(n % 10));
    proof {
        if n >= 100 {
            vstd::arithmetic::div_mod::lemma_div_denominator(n as int, 10, 10);
            assert(n / 10 >= 10);
            assert(n / 10 / 10 == n as int / 100);
            assert(dec_spec((n / 10) as nat) == dec_spec(
                (n / 100) as nat,
            ).push(digit_char((n as int / 10) % 10)));
            assert(dec_spec((n / 100) as nat) =~= seq![digit_char(n as int / 100)]);
        } else if n >= 10 {
            assert(n / 10 < 10);
            assert((n / 10) % 10 == n as int / 10);
            assert(dec_spec((n / 10) as nat) =~= seq![digit_char(n as int / 10)]);
        }
        assert(s@ =~= dec_spec(n as nat));
    }
    s
}

/// Whether `a` counts as the (lower-case ASCII) character `b`: either equal,
/// or `a` is the upper-case ASCII form of `b` and folding is on.
pub open spec fn char_matches(a: char, b: char, fold: bool) -> bool {
    a == b || (fold && 65 <= a as int <= 90 && a as int + 32 == b as int)
}

/// Whether `needle` occurs in `hay` starting at position `i`.
pub open spec fn matches_at(hay: Seq<char>, needle: Seq<char>, i: int, fold: bool) -> bool {
    forall|j: int| 0 <= j < needle.len() ==> char_matches(hay[i + j], needle[j], fold)
}

/// Whether `needle` occurs somewhere in `hay`.
pub open spec fn contains_spec(hay: Seq<char>, needle: Seq<char>, fold: bool) -> bool {
    exists|i: int| 0 <= i && i + needle.len() <= hay.len() && matches_at(hay, needle, i, fold)
}

/// Whether `a` counts as the character `b` under the given folding.
fn char_eq(a: char, b: char, fold: bool) -> (r: bool)
    ensures
        r == char_matches(a, b, fold),
{
    if a == b {
        true
    } else if fold {
        let au = a as u32;
        au >= 65 && au <= 90 && au + 32 == (b as u32)
    } else {
        false
    }
}

/// Whether `needle` occurs in `hay`; with `fold`, an upper-case ASCII letter
/// in `hay` also counts as its lower-case form, so a lower-case ASCII needle
/// is matched as the lower-cased text would be.
pub fn contains_str(hay: &str, needle: &str, fold: bool) -> (r: bool)
    ensures
        r == contains_spec(hay@, needle@, fold),
{
    let hlen = hay.unicode_len();
    let nlen = needle.unicode_len();
    if nlen > hlen {
        return false;
    }
    let mut i: usize = 0;
    while i <= hlen - nlen
        invariant
            nlen <= hlen,
            hlen == hay@.len(),
            nlen == needle@.len(),
            i <= hlen - nlen + 1,
            forall|i2: int| 0 <= i2 < i ==> !matches_at(hay@, needle@, i2, fold),
        decreases hlen - nlen - i + 1,
    {
        let mut j: usize = 0;
        let mut ok = true;
        while j < nlen && ok
            invariant
                nlen <= hlen,
                hlen == hay@.len(),
                nlen == needle@.len(),
                i + nlen <= hlen,
                j <= nlen,
                ok ==> forall|j2: int| 0 <= j2 < j ==> char_matches(
                    hay@[i + j2],
                    needle@[j2],
                    fold,
                ),
                !ok ==> !matches_at(hay@, needle@, i as int, fold),
            decreases nlen - j, if ok { 1int } else { 0int },
        {
            if !char_eq(hay.get_char(i + j), needle.get_char(j), fold) {
                ok = false;
            } else {
                j += 1;
            }
        }
        if ok {
            assert(matches_at(hay@, needle@, i as int, fold));
            return true;
        }
        i += 1;
    }
    false
}

/// Whether `c` is an ASCII whitespace character, as trimming removes it.
pub open spec fn is_space_char(c: char) -> bool {
    c == ' ' || c == '\t' || c == '\n' || c == '\r'
}

/// Whether `c` is an ASCII whitespace character.
fn is_space(c: char) -> (r: bool)
    ensures
        r == is_space_char(c),
{
    c == ' ' || c == '\t' || c == '\n' || c == '\r'
}

/// `s` without leading whitespace.
pub open spec fn trim_front(s: Seq<char>) -> Seq<char>
    decreases s.len(),
{
    if s.len() > 0 && is_space_char(s[0]) {
        trim_front(s.skip(1))
    } else {
        s
    }
}

/// `s` without trailing whitespace.
pub open spec fn trim_back(s: Seq<char>) -> Seq<char>
    decreases s.len(),
{
    if s.len() > 0 && is_space_char(s[s.len() - 1]) {
        trim_back(s.take(s.len() - 1))
    } else {
        s
    }
}

/// `s` without leading and trailing whitespace.
pub open spec fn trim_spec(s: Seq<char>) -> Seq<char> {
    trim_back(trim_front(s))
}

proof fn lemma_trim_front_skip(s: Seq<char>, lo: int)
    requires
        0 <= lo <= s.len(),
        forall|k: int| 0 <= k < lo ==> is_space_char(s[k]),
        lo == s.len() || !is_space_char(s[lo]),
    ensures
        trim_front(s) == s.skip(lo),
    decreases lo,
{
    if lo == 0 {
        assert(s.skip(0) =~= s);
    } else {
        lemma_trim_front_skip(s.skip(1), lo - 1);
        assert(s.skip(1).skip(lo - 1) =~= s.skip(lo));
    }
}

proof fn lemma_trim_back_take(s: Seq<char>, m: int)
    requires
        0 <= m <= s.len(),
        forall|k: int| m <= k < s.len() ==> is_space_char(s[k]),
        m == 0 || !is_space_char(s[m - 1]),
    ensures
        trim_back(s) == s.take(m),
    decreases s.len() - m,
{
    if m == s.len() {
        assert(s.take(m) =~= s);
    } else {
        lemma_trim_back_take(s.take(s.len() - 1), m);
        assert(s.take(s.len() - 1).take(m) =~= s.take(m));
    }
}

/// Trims ASCII whitespace from both ends of `s`.
pub fn trim_str(s: &str) -> (r: String)
    ensures
        r@ == trim_spec(s@),
{
    let len = s.unicode_len();
    let mut lo: usize = 0;
    while lo < len && is_space(s.get_char(lo))
        invariant
            lo <= len,
            len == s@.len(),
            forall|k: int| 0 <= k < lo ==> is_space_char(s@[k]),
        decreases len - lo,
    {
        lo += 1;
    }
    let mut hi: usize = len;
    while hi > lo && is_space(s.get_char(hi - 1))
        invariant
            lo <= hi <= len,
            len == s@.len(),
            forall|k: int| hi <= k < len ==> is_space_char(s@[k]),
        decreases hi,
    {
        hi -= 1;
    }
    proof {
        lemma_trim_front_skip(s@, lo as int);
        if hi == lo {
            lemma_trim_back_take(s@.skip(lo as int), 0);
        } else {
            lemma_trim_back_take(s@.skip(lo as int), hi - lo);
        }
        assert(s@.skip(lo as int).take(hi - lo) =~= s@.subrange(lo as int, hi as int));
    }
    s.substring_char(lo, hi).to_owned()
}

/// The pieces of `s` between its commas, in order; a sequence with `k` commas
/// always yields `k + 1` pieces, empty pieces included.
pub open spec fn split_commas(s: Seq<char>) -> Seq<Seq<char>>
    decreases s.len(),
{
    if s.len() == 0 {
        seq![Seq::<char>::empty()]
    } else if s[0] == ',' {
        seq![Seq::<char>::empty()] + split_commas(s.skip(1))
    } else {
        let rest = split_commas(s.skip(1));
        seq![seq![s[0]] + rest[0]] + rest.skip(1)
    }
}

proof fn lemma_split_commas_len(s: Seq<char>)
    ensures
        split_commas(s).len() >= 1,
    decreases s.len(),
{
    if s.len() > 0 {
        lemma_split_commas_len(s.skip(1));
    }
}

proof fn lemma_split_first_comma(s: Seq<char>, k: int)
    requires
        0 <= k <= s.len(),
        forall|j: int| 0 <= j < k ==> s[j] != ',',
        k == s.len() || s[k] == ',',
    ensures
        k < s.len() ==> split_commas(s) == seq![s.take(k)] + split_commas(s.skip(k + 1)),
        k == s.len() ==> split_commas(s) == seq![s],
    decreases k,
{
    lemma_split_commas_len(s);
    if k == 0 {
        if s.len() == 0 {
            assert(s =~= Seq::<char>::empty());
            assert(seq![s] =~= seq![Seq::<char>::empty()]);
        } else {
            assert(s.take(0) =~= Seq::<char>::empty());
            assert(seq![s.take(0)] + split_commas(s.skip(1)) =~= seq![Seq::<char>::empty()]
                + split_commas(s.skip(1)));
        }
    } else {
        let t = s.skip(1);
        lemma_split_commas_len(t);
        lemma_split_first_comma(t, k - 1);
        let rest = split_commas(t);
        if k < s.len() {
            assert(rest == seq![t.take(k - 1)] + split_commas(t.skip(k)));
            assert(rest[0] == t.take(k - 1));
            assert(seq![s[0]] + t.take(k - 1) =~= s.take(k));
            assert(rest.skip(1) =~= split_commas(t.skip(k)));
            assert(t.skip(k) =~= s.skip(k + 1));
            assert(split_commas(s) =~= seq![s.take(k)] + split_commas(s.skip(k + 1)));
        } else {
            assert(rest == seq![t]);
            assert(seq![s[0]] + t =~= s);
            assert(rest.skip(1) =~= Seq::<Seq<char>>::empty());
            assert(split_commas(s) =~= seq![s]);
        }
    }
}

/// The abstract values of a sequence of strings.
pub open spec fn views_of(v: Seq<String>) -> Seq<Seq<char>> {
    v.map_values(|x: String| x@)
}

proof fn lemma_views_of_push(v: Seq<String>, x: String)
    ensures
        views_of(v.push(x)) == views_of(v).push(x@),
{
    assert(views_of(v.push(x)) =~= views_of(v).push(x@));
}

/// Splits `s` at its commas; a string with `k` commas always yields `k + 1`
/// pieces, empty pieces included.
pub fn split_commas_str(s: &str) -> (parts: Vec<String>)
    ensures
        views_of(parts@) == split_commas(s@),
{
    let len = s.unicode_len();
    let mut parts: Vec<String> = Vec::new();
    let mut pos: usize = 0;
    let mut done = false;
    proof {
        assert(s@.skip(0) =~= s@);
        assert(views_of(parts@) + split_commas(s@) =~= split_commas(s@));
    }
    while !done
        invariant
            pos <= len,
            len == s@.len(),
            !done ==> split_commas(s@) == views_of(parts@) + split_commas(s@.skip(pos as int)),
            done ==> views_of(parts@) == split_commas(s@),
        decreases len - pos, if done { 0int } else { 1int },
    {
        let mut i: usize = pos;
        while i < len && s.get_char(i) != ','
            invariant
                pos <= i <= len,
                len == s@.len(),
                forall|j: int| pos <= j < i ==> s@[j] != ',',
            decreases len - i,
        {
            i += 1;
        }
        let ghost suffix = s@.skip(pos as int);
        proof {
            lemma_split_first_comma(suffix, i - pos);
            assert(suffix.take(i - pos) =~= s@.subrange(pos as int, i as int));
        }
        let piece = s.substring_char(pos, i).to_owned();
        proof {
            lemma_views_of_push(parts@, piece);
        }
        parts.push(piece);
        if i == len {
            proof {
                assert(views_of(parts@) =~= split_commas(s@));
            }
            done = true;
        } else {
            proof {
                assert(suffix.skip(i - pos + 1) =~= s@.skip(i + 1));
                assert(views_of(parts@) + split_commas(s@.skip(i + 1)) =~= split_commas(s@));
            }
            pos = i + 1;
        }
    }
    parts
}

/// The pieces joined with single spaces, in order.
pub open spec fn join_spaced(parts: Seq<Seq<char>>) -> Seq<char>
    decreases parts.len(),
{
    if parts.len() == 0 {
        Seq::empty()
    } else if parts.len() == 1 {
        parts[0]
    } else {
        parts[0] + " "@ + join_spaced(parts.skip(1))
    }
}

proof fn lemma_join_push(parts: Seq<Seq<char>>, x: Seq<char>)
    requires
        parts.len() >= 1,
    ensures
        join_spaced(parts.push(x)) == join_spaced(parts) + " "@ + x,
    decreases parts.len(),
{
    let p = parts.push(x);
    if parts.len() == 1 {
        assert(p.skip(1) =~= seq![x]);
        assert(join_spaced(seq![x]) == x);
        assert(join_spaced(p) == p[0] + " "@ + join_spaced(p.skip(1)));
        assert(join_spaced(p) =~= parts[0] + " "@ + x);
    } else {
        lemma_join_push(parts.skip(1), x);
        assert(p.skip(1) =~= parts.skip(1).push(x));
        assert(join_spaced(p) =~= join_spaced(parts) + " "@ + x);
    }
}

/// Joins the strings of `v` with single spaces.
pub fn join_spaces(v: &Vec<String>) -> (r: String)
    requires
        v@.len() >= 1,
    ensures
        r@ == join_spaced(views_of(v@)),
{
    let mut r = v[0].clone();
    let mut i: usize = 1;
    proof {
        assert(views_of(v@).take(1) =~= seq![v@[0]@]);
    }
    while i < v.len()
        invariant
            1 <= i <= v@.len(),
            r@ == join_spaced(views_of(v@).take(i as int)),
        decreases v@.len() - i,
    {
        proof {
            lemma_join_push(views_of(v@).take(i as int), v@[i as int]@);
            assert(views_of(v@).take(i as int).push(v@[i as int]@) =~= views_of(v@).take(
                i + 1,
            ));
        }
        r.append(" ");
        r.append(v[i].as_str());
        i += 1;
    }
    proof {
        assert(views_of(v@).take(v@.len() as int) =~= views_of(v@));
    }
    r
}

} // verus!
