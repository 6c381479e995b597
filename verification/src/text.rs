//! Small verified helpers over strings: equality, membership tests,
//! substring search and decimal formatting.  Contracts are stated over
//! the character-sequence views of `&str` and `String`.

use vstd::prelude::*;

verus! {

use vstd::string::StrSliceExecFns;
use vstd::string::StringExecFns;

/// ASCII digit character for a value below ten.
pub open spec fn digit_char(d: int) -> char {
    if d == 0 {
        '0'
    } else if d == 1 {
        '1'
    } else if d == 2 {
        '2'
    } else if d == 3 {
        '3'
    } else if d == 4 {
        '4'
    } else if d == 5 {
        '5'
    } else if d == 6 {
        '6'
    } else if d == 7 {
        '7'
    } else if d == 8 {
        '8'
    } else {
        '9'
    }
}

/// Decimal representation of a non-negative integer, most significant
/// digit first and without leading zeros (zero itself is "0").
pub open spec fn dec_digits(n: nat) -> Seq<char>
    decreases n,
{
    if n < 10 {
        seq![digit_char(n as int)]
    } else {
        dec_digits(n / 10).push(digit_char((n % 10) as int))
    }
}

fn digit_str(d: u32) -> (r: &'static str)
    requires
        d < 10,
    ensures
        r@ =~= seq![digit_char(d as int)],
{
    proof {
        reveal_strlit("0");
        reveal_strlit("1");
        reveal_strlit("2");
        reveal_strlit("3");
        reveal_strlit("4");
        reveal_strlit("5");
        reveal_strlit("6");
        reveal_strlit("7");
        reveal_strlit("8");
        reveal_strlit("9");
    }
    if d == 0 {
        "0"
    } else if d == 1 {
        "1"
    } else if d == 2 {
        "2"
    } else if d == 3 {
        "3"
    } else if d == 4 {
        "4"
    } else if d == 5 {
        "5"
    } else if d == 6 {
        "6"
    } else if d == 7 {
        "7"
    } else if d == 8 {
        "8"
    } else {
        "9"
    }
}

/// Formats an unsigned integer in decimal.
pub fn u32_to_string(n: u32) -> (s: String)
    ensures
        s@ == dec_digits(n as nat),
    decreases n,
{
    if n < 10 {
        let s = digit_str(n).to_owned();
        proof {
            assert(s@ =~= dec_digits(n as nat));
        }
        s
    } else {
        let mut s = u32_to_string(n / 10);
        s.append(digit_str(n % 10));
        proof {
            assert(s@ =~= dec_digits(n as nat));
        }
        s
    }
}

/// How a boolean reads when written as plain text.
pub open spec fn bool_text(b: bool) -> Seq<char> {
    if b {
        "true"@
    } else {
        "false"@
    }
}

/// Formats a boolean as "true" or "false".
pub fn bool_to_string(b: bool) -> (r: String)
    ensures
        r@ == bool_text(b),
{
    if b {
        "true".to_owned()
    } else {
        "false".to_owned()
    }
}

/// Character-wise string equality, with equality of the views as its meaning.
pub fn str_eq(a: &str, b: &str) -> (r: bool)
    ensures
        r == (a@ == b@),
{
    let alen = a.unicode_len();
    let blen = b.unicode_len();
    if alen != blen {
        return false;
    }
    let mut i: usize = 0;
    while i < alen
        invariant
            alen == a@.len(),
            blen == b@.len(),
            alen == blen,
            i <= alen,
            forall|j: int| 0 <= j < i ==> a@[j] == b@[j],
        decreases alen - i,
    {
        let ca = a.get_char(i);
        let cb = b.get_char(i);
        if ca != cb {
            return false;
        }
        i = i + 1;
    }
    proof {
        assert(a@ =~= b@);
    }
    true
}

/// Whether the string contains the given character.
pub fn contains_char(s: &str, c: char) -> (r: bool)
    ensures
        r == s@.contains(c),
{
    let n = s.unicode_len();
    let mut i: usize = 0;
    while i < n
        invariant
            n == s@.len(),
            i <= n,
            forall|j: int| 0 <= j < i ==> s@[j] != c,
        decreases n - i,
    {
        if s.get_char(i) == c {
            proof {
                assert(s@.contains(c)) by {
                    assert(s@[i as int] == c);
                }
            }
            return true;
        }
        i = i + 1;
    }
    false
}

/// `p` occurs as a contiguous run of characters inside `s`.
pub open spec fn has_substr(s: Seq<char>, p: Seq<char>) -> bool {
    exists|k: int| 0 <= k && k + p.len() <= s.len() && #[trigger] s.subrange(k, k + p.len()) == p
}

fn matches_at(s: &str, p: &str, k: usize) -> (r: bool)
    requires
        k + p@.len() <= s@.len(),
        s@.len() <= usize::MAX,
    ensures
        r == (s@.subrange(k as int, k + p@.len()) == p@),
{
    let pl = p.unicode_len();
    let mut m: usize = 0;
    while m < pl
        invariant
            pl == p@.len(),
            k + p@.len() <= s@.len(),
            s@.len() <= usize::MAX,
            m <= pl,
            forall|j: int| 0 <= j < m ==> s@[k + j] == p@[j],
        decreases pl - m,
    {
        if s.get_char(k + m) != p.get_char(m) {
            proof {
                assert(s@.subrange(k as int, k + p@.len())[m as int] != p@[m as int]);
            }
            return false;
        }
        m = m + 1;
    }
    proof {
        assert(s@.subrange(k as int, k + p@.len()) =~= p@);
    }
    true
}

/// Substring search; the result is exactly `has_substr` on the views.
pub fn contains_substr(s: &str, p: &str) -> (r: bool)
    ensures
        r == has_substr(s@, p@),
{
    let sl = s.unicode_len();
    let pl = p.unicode_len();
    if pl > sl {
        return false;
    }
    if pl == 0 {
        proof {
            assert(s@.subrange(0, 0 + p@.len() as int) =~= p@);
            assert(has_substr(s@, p@));
        }
        return true;
    }
    let mut k: usize = 0;
    while k <= sl - pl
        invariant
            sl == s@.len(),
            pl == p@.len(),
            0 < pl <= sl,
            k <= sl - pl + 1,
            forall|k2: int| 0 <= k2 < k ==> #[trigger] s@.subrange(k2, k2 + p@.len()) != p@,
        decreases sl - pl - k + 1,
    {
        if matches_at(s, p, k) {
            proof {
                assert(has_substr(s@, p@)) by {
                    assert(s@.subrange(k as int, k + p@.len()) == p@);
                }
            }
            return true;
        }
        k = k + 1;
    }
    false
}

/// Whether `s` begins with the pattern `p`.
pub fn starts_with_str(s: &str, p: &str) -> (r: bool)
    ensures
        r == p@.is_prefix_of(s@),
{
    let sl = s.unicode_len();
    let pl = p.unicode_len();
    if pl > sl {
        return false;
    }
    let r = matches_at(s, p, 0);
    proof {
        if r {
            assert(p@ =~= s@.subrange(0, p@.len() as int));
        } else {
            assert(!(p@ =~= s@.subrange(0, p@.len() as int)));
        }
    }
    r
}

/// Whether the string begins with the given character.
pub fn starts_with_char(s: &str, c: char) -> (r: bool)
    ensures
        r == (s@.len() > 0 && s@[0] == c),
{
    if s.unicode_len() == 0 {
        false
    } else {
        s.get_char(0) == c
    }
}

/// The whitespace characters this crate trims and splits on: the ASCII
/// ones, which are the only ones the kernel's text files contain.
pub open spec fn is_space(c: char) -> bool {
    c == ' ' || c == '\t' || c == '\n' || c == '\r' || c == '\u{b}' || c == '\u{c}'
}

fn is_space_exec(c: char) -> (r: bool)
    ensures
        r == is_space(c),
{
    c == ' ' || c == '\t' || c == '\n' || c == '\r' || c == '\u{b}' || c == '\u{c}'
}

/// Index of the first occurrence of `c` in `s`, or the length when `c`
/// does not occur.
pub open spec fn char_pos(s: Seq<char>, c: char) -> int
    decreases s.len(),
{
    if s.len() == 0 {
        0
    } else if s[0] == c {
        0
    } else {
        1 + char_pos(s.drop_first(), c)
    }
}

/// The first-occurrence index never exceeds the length.
pub proof fn lemma_char_pos_le(s: Seq<char>, c: char)
    ensures
        0 <= char_pos(s, c) <= s.len(),
    decreases s.len(),
{
    if s.len() > 0 && s[0] != c {
        lemma_char_pos_le(s.drop_first(), c);
    }
}

proof fn lemma_char_pos_scan(s: Seq<char>, c: char, i: int)
    requires
        0 <= i <= s.len(),
        forall|j: int| 0 <= j < i ==> s[j] != c,
        i < s.len() ==> s[i] == c,
    ensures
        char_pos(s, c) == i,
    decreases i,
{
    if s.len() == 0 {
    } else if i == 0 {
    } else {
        assert(s[0] != c);
        lemma_char_pos_scan(s.drop_first(), c, i - 1);
    }
}

/// Finds the first occurrence of `c`, or the length when there is none.
pub fn find_char(s: &str, c: char) -> (r: usize)
    ensures
        r as int == char_pos(s@, c),
        r <= s@.len(),
{
    let n = s.unicode_len();
    let mut i: usize = 0;
    while i < n
        invariant
            n == s@.len(),
            i <= n,
            forall|j: int| 0 <= j < i ==> s@[j] != c,
        decreases n - i,
    {
        if s.get_char(i) == c {
            proof {
                lemma_char_pos_scan(s@, c, i as int);
            }
            return i;
        }
        i = i + 1;
    }
    proof {
        lemma_char_pos_scan(s@, c, n as int);
    }
    n
}

/// Number of whitespace characters at the front of `s`.
pub open spec fn leading_spaces(s: Seq<char>) -> int
    decreases s.len(),
{
    if s.len() == 0 {
        0
    } else if !is_space(s[0]) {
        0
    } else {
        1 + leading_spaces(s.drop_first())
    }
}

/// Number of whitespace characters at the back of `s`.
pub open spec fn trailing_spaces(s: Seq<char>) -> int
    decreases s.len(),
{
    if s.len() == 0 {
        0
    } else if !is_space(s.last()) {
        0
    } else {
        1 + trailing_spaces(s.drop_last())
    }
}

/// `s` with its leading and trailing whitespace removed.
pub open spec fn trimmed(s: Seq<char>) -> Seq<char> {
    if leading_spaces(s) == s.len() {
        Seq::<char>::empty()
    } else {
        s.subrange(leading_spaces(s), s.len() - trailing_spaces(s))
    }
}

proof fn lemma_leading_scan(s: Seq<char>, i: int)
    requires
        0 <= i <= s.len(),
        forall|j: int| 0 <= j < i ==> is_space(s[j]),
        i < s.len() ==> !is_space(s[i]),
    ensures
        leading_spaces(s) == i,
    decreases i,
{
    if s.len() == 0 {
    } else if i == 0 {
    } else {
        assert(is_space(s[0]));
        lemma_leading_scan(s.drop_first(), i - 1);
    }
}

proof fn lemma_trailing_scan(s: Seq<char>, i: int)
    requires
        0 <= i <= s.len(),
        forall|j: int| i <= j < s.len() ==> is_space(s[j]),
        i > 0 ==> !is_space(s[i - 1]),
    ensures
        trailing_spaces(s) == s.len() - i,
    decreases s.len() - i,
{
    if i == s.len() {
        if s.len() > 0 {
            assert(!is_space(s.last()));
        }
    } else {
        assert(is_space(s.last()));
        lemma_trailing_scan(s.drop_last(), i);
    }
}

/// Removes leading and trailing whitespace.
pub fn trim_str(s: &str) -> (r: String)
    ensures
        r@ == trimmed(s@),
{
    let n = s.unicode_len();
    let mut lo: usize = 0;
    while lo < n && is_space_exec(s.get_char(lo))
        invariant
            n == s@.len(),
            lo <= n,
            forall|j: int| 0 <= j < lo ==> is_space(s@[j]),
        decreases n - lo,
    {
        lo = lo + 1;
    }
    proof {
        lemma_leading_scan(s@, lo as int);
    }
    if lo == n {
        return String::new();
    }
    let mut hi: usize = n;
    while hi > lo + 1 && is_space_exec(s.get_char(hi - 1))
        invariant
            n == s@.len(),
            lo < n,
            !is_space(s@[lo as int]),
            lo + 1 <= hi <= n,
            forall|j: int| hi <= j < n ==> is_space(s@[j]),
        decreases hi,
    {
        hi = hi - 1;
    }
    proof {
        lemma_trailing_scan(s@, hi as int);
    }
    let r = s.substring_char(lo, hi).to_owned();
    proof {
        assert(r@ =~= trimmed(s@));
    }
    r
}

/// The candidate token of a process command line: the text before the
/// first NUL, trimmed of surrounding whitespace.
pub open spec fn cmdline_token_spec(s: Seq<char>) -> Seq<char> {
    trimmed(s.take(char_pos(s, '\0')))
}

/// Index of the first whitespace character, or the length when none.
pub open spec fn space_pos(s: Seq<char>) -> nat
    decreases s.len(),
{
    if s.len() == 0 {
        0
    } else if is_space(s[0]) {
        0
    } else {
        (1 + space_pos(s.drop_first())) as nat
    }
}

proof fn lemma_space_pos_le(s: Seq<char>)
    ensures
        space_pos(s) <= s.len(),
    decreases s.len(),
{
    if s.len() > 0 && !is_space(s[0]) {
        lemma_space_pos_le(s.drop_first());
    }
}

proof fn lemma_space_pos_scan(s: Seq<char>, i: int)
    requires
        0 <= i <= s.len(),
        forall|j: int| 0 <= j < i ==> !is_space(s[j]),
        i < s.len() ==> is_space(s[i]),
    ensures
        space_pos(s) == i,
    decreases i,
{
    if s.len() == 0 {
    } else if i == 0 {
    } else {
        assert(!is_space(s[0]));
        lemma_space_pos_scan(s.drop_first(), i - 1);
    }
}

/// The maximal whitespace-free runs of `s`, in order.
pub open spec fn space_tokens(s: Seq<char>) -> Seq<Seq<char>>
    decreases s.len(),
    via space_tokens_dec
{
    if s.len() == 0 {
        Seq::<Seq<char>>::empty()
    } else if is_space(s[0]) {
        space_tokens(s.drop_first())
    } else {
        seq![s.take(space_pos(s) as int)] + space_tokens(s.skip(space_pos(s) as int))
    }
}

#[via_fn]
proof fn space_tokens_dec(s: Seq<char>) {
    if s.len() > 0 && !is_space(s[0]) {
        lemma_space_pos_le(s);
    }
}

/// Splits on whitespace, dropping empty pieces, as the pid lists in the
/// kernel's cgroup files are read.
pub fn split_spaces(s: &str) -> (r: Vec<String>)
    ensures
        r.deep_view() == space_tokens(s@),
{
    let n = s.unicode_len();
    let mut out: Vec<String> = Vec::new();
    let mut i: usize = 0;
    proof {
        assert(out.deep_view() =~= Seq::<Seq<char>>::empty());
        assert(s@.skip(0) =~= s@);
    }
    while i < n
        invariant
            n == s@.len(),
            i <= n,
            out.deep_view() + space_tokens(s@.skip(i as int)) == space_tokens(s@),
        decreases n - i,
    {
        let ghost pre = out.deep_view();
        let ghost rem = s@.skip(i as int);
        if is_space_exec(s.get_char(i)) {
            proof {
                assert(rem[0] == s@[i as int]);
                assert(rem.drop_first() =~= s@.skip(i as int + 1));
            }
            i = i + 1;
        } else {
            let start = i;
            let mut j = i + 1;
            while j < n && !is_space_exec(s.get_char(j))
                invariant
                    n == s@.len(),
                    start < j <= n,
                    forall|t: int| start <= t < j ==> !is_space(s@[t]),
                decreases n - j,
            {
                j = j + 1;
            }
            let token = s.substring_char(start, j).to_owned();
            out.push(token);
            proof {
                assert(rem[0] == s@[i as int]);
                assert forall|t: int| 0 <= t < j - start implies !is_space(rem[t]) by {
                    assert(rem[t] == s@[i + t]);
                }
                if j < n {
                    assert(rem[j - start] == s@[j as int]);
                }
                lemma_space_pos_scan(rem, j - start);
                assert(rem.take(j - start) =~= s@.subrange(start as int, j as int));
                assert(rem.skip(j - start) =~= s@.skip(j as int));
                assert(space_tokens(rem) == seq![s@.subrange(start as int, j as int)]
                    + space_tokens(s@.skip(j as int)));
                assert(out.deep_view() =~= pre.push(s@.subrange(start as int, j as int)));
                assert(out.deep_view() + space_tokens(s@.skip(j as int)) =~= space_tokens(s@));
            }
            i = j;
        }
    }
    proof {
        assert(s@.skip(n as int) =~= Seq::<char>::empty());
        assert(out.deep_view() =~= space_tokens(s@));
    }
    out
}

/// Membership of a string among a vector of strings, by character content.
pub fn vec_contains_str(v: &Vec<String>, s: &str) -> (r: bool)
    ensures
        r == v.deep_view().contains(s@),
{
    let n = v.len();
    let mut i: usize = 0;
    while i < n
        invariant
            n == v@.len(),
            i <= n,
            forall|j: int| 0 <= j < i ==> v.deep_view()[j] != s@,
        decreases n - i,
    {
        if str_eq(v[i].as_str(), s) {
            proof {
                assert(v.deep_view().contains(s@)) by {
                    assert(v.deep_view()[i as int] == s@);
                }
            }
            return true;
        }
        i = i + 1;
    }
    proof {
        assert(forall|j: int|
            0 <= j < v.deep_view().len() ==> v.deep_view()[j] != s@);
    }
    false
}

} // verus!
