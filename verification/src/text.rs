//! Character-level text utilities shared by the parsers and formatters.
use vstd::prelude::*;

verus! {

/// Appends one character to a `String` (std `String::push`).
#[verifier::external_body]
pub(crate) fn push_char(s: &mut String, c: char)
    ensures
        final(s)@ == old(s)@.push(c),
{
    s.push(c)
}

/// The characters of a string slice, in order.
pub fn chars_of(s: &str) -> (res: Vec<char>)
    ensures
        res@ == s@,
{
    let mut res: Vec<char> = Vec::new();
    for c in it: s.chars()
        invariant
            res@ == it.seq().take(it.index() as int),
    {
        res.push(c);
        assert(res@ =~= it.seq().take(it.index() as int + 1));
    }
    res
}

/// A `String` holding the given characters.
pub fn string_of(cs: &[char]) -> (res: String)
    ensures
        res@ == cs@,
{
    let mut res = String::new();
    let mut i: usize = 0;
    while i < cs.len()
        invariant
            i <= cs@.len(),
            res@ == cs@.take(i as int),
        decreases cs@.len() - i,
    {
        push_char(&mut res, cs[i]);
        i += 1;
        assert(res@ =~= cs@.take(i as int));
    }
    assert(cs@.take(cs@.len() as int) =~= cs@);
    res
}


/// Unicode `White_Space`, the set of characters that `str::trim` removes.
pub open spec fn is_ws(c: char) -> bool {
    let u = c as u32;
    ||| 0x09 <= u <= 0x0D
    ||| u == 0x20
    ||| u == 0x85
    ||| u == 0xA0
    ||| u == 0x1680
    ||| 0x2000 <= u <= 0x200A
    ||| u == 0x2028
    ||| u == 0x2029
    ||| u == 0x202F
    ||| u == 0x205F
    ||| u == 0x3000
}

/// Executable test for `is_ws`.
pub fn is_whitespace(c: char) -> (res: bool)
    ensures
        res == is_ws(c),
{
    let u = c as u32;
    (0x09 <= u && u <= 0x0D) || u == 0x20 || u == 0x85 || u == 0xA0 || u == 0x1680 || (0x2000
        <= u && u <= 0x200A) || u == 0x2028 || u == 0x2029 || u == 0x202F || u == 0x205F || u
        == 0x3000
}

/// `s` with its leading whitespace removed.
pub open spec fn trim_start_spec(s: Seq<char>) -> Seq<char>
    decreases s.len(),
{
    if s.len() > 0 && is_ws(s[0]) {
        trim_start_spec(s.drop_first())
    } else {
        s
    }
}

/// `s` with its trailing whitespace removed.
pub open spec fn trim_end_spec(s: Seq<char>) -> Seq<char>
    decreases s.len(),
{
    if s.len() > 0 && is_ws(s.last()) {
        trim_end_spec(s.drop_last())
    } else {
        s
    }
}

/// `s` with leading and trailing whitespace removed, as `str::trim` gives it.
pub open spec fn trim_spec(s: Seq<char>) -> Seq<char> {
    trim_end_spec(trim_start_spec(s))
}

/// The bounds `(a, b)` of the trimmed part of `cs`.
pub fn trim_bounds(cs: &[char]) -> (res: (usize, usize))
    ensures
        res.0 <= res.1 <= cs@.len(),
        cs@.subrange(res.0 as int, res.1 as int) == trim_spec(cs@),
{
    let n = cs.len();
    let mut i: usize = 0;
    assert(cs@.subrange(0, n as int) =~= cs@);
    while i < n && is_whitespace(cs[i])
        invariant
            i <= n == cs@.len(),
            trim_start_spec(cs@) == trim_start_spec(cs@.subrange(i as int, n as int)),
        decreases n - i,
    {
        assert(cs@.subrange(i as int, n as int).drop_first() =~= cs@.subrange(
            i + 1,
            n as int,
        ));
        i += 1;
    }
    let mut j: usize = n;
    while j > i && is_whitespace(cs[j - 1])
        invariant
            i <= j <= n == cs@.len(),
            trim_start_spec(cs@) == cs@.subrange(i as int, n as int),
            trim_end_spec(cs@.subrange(i as int, n as int)) == trim_end_spec(
                cs@.subrange(i as int, j as int),
            ),
        decreases j,
    {
        assert(cs@.subrange(i as int, j as int).drop_last() =~= cs@.subrange(
            i as int,
            j - 1,
        ));
        j -= 1;
    }
    (i, j)
}

/// A copy of `cs[a..b]`.
pub fn slice_chars(cs: &[char], a: usize, b: usize) -> (res: Vec<char>)
    requires
        a <= b <= cs@.len(),
    ensures
        res@ == cs@.subrange(a as int, b as int),
{
    let mut res: Vec<char> = Vec::new();
    let mut k = a;
    while k < b
        invariant
            a <= k <= b <= cs@.len(),
            res@ == cs@.subrange(a as int, k as int),
        decreases b - k,
    {
        res.push(cs[k]);
        k += 1;
        assert(res@ =~= cs@.subrange(a as int, k as int));
    }
    res
}

/// `cs` trimmed as `str::trim` trims.
pub fn trim_chars(cs: &[char]) -> (res: Vec<char>)
    ensures
        res@ == trim_spec(cs@),
{
    let (a, b) = trim_bounds(cs);
    slice_chars(cs, a, b)
}

/// `s` trimmed as `str::trim` trims.
pub fn trim(s: &str) -> (res: String)
    ensures
        res@ == trim_spec(s@),
{
    let cs = chars_of(s);
    let t = trim_chars(cs.as_slice());
    string_of(t.as_slice())
}

/// `p` is a prefix of `s`.
pub open spec fn starts_with_spec(s: Seq<char>, p: Seq<char>) -> bool {
    p.len() <= s.len() && s.subrange(0, p.len() as int) == p
}

/// `p` is a suffix of `s`.
pub open spec fn ends_with_spec(s: Seq<char>, p: Seq<char>) -> bool {
    p.len() <= s.len() && s.subrange(s.len() - p.len(), s.len() as int) == p
}

/// `p` occurs in `s` at position `i`.
pub open spec fn occurs_at(s: Seq<char>, p: Seq<char>, i: int) -> bool {
    0 <= i && i + p.len() <= s.len() && s.subrange(i, i + p.len()) == p
}

/// Whether `cs[at..]` begins with `p`.
pub fn matches_at(cs: &[char], p: &[char], at: usize) -> (res: bool)
    ensures
        res == occurs_at(cs@, p@, at as int),
{
    let n = cs.len();
    if at > n || p.len() > n - at {
        return false;
    }
    let mut k: usize = 0;
    while k < p.len()
        invariant
            n == cs@.len(),
            at + p@.len() <= n,
            k <= p@.len(),
            forall|m: int| 0 <= m < k ==> cs@[at + m] == p@[m],
        decreases p@.len() - k,
    {
        if cs[at + k] != p[k] {
            assert(cs@.subrange(at as int, at + p@.len())[k as int] != p@[k as int]);
            return false;
        }
        k += 1;
    }
    assert(cs@.subrange(at as int, at + p@.len()) =~= p@);
    true
}

/// Whether `cs` begins with `p`.
pub fn starts_with_chars(cs: &[char], p: &[char]) -> (res: bool)
    ensures
        res == starts_with_spec(cs@, p@),
{
    matches_at(cs, p, 0)
}

/// Whether `cs` ends with `p`.
pub fn ends_with_chars(cs: &[char], p: &[char]) -> (res: bool)
    ensures
        res == ends_with_spec(cs@, p@),
{
    if p.len() > cs.len() {
        return false;
    }
    matches_at(cs, p, cs.len() - p.len())
}

/// Whether `s` begins with `p`.
pub fn str_starts_with(s: &str, p: &str) -> (res: bool)
    ensures
        res == starts_with_spec(s@, p@),
{
    let cs = chars_of(s);
    let ps = chars_of(p);
    starts_with_chars(cs.as_slice(), ps.as_slice())
}

/// Whether `s` ends with `p`.
pub fn str_ends_with(s: &str, p: &str) -> (res: bool)
    ensures
        res == ends_with_spec(s@, p@),
{
    let cs = chars_of(s);
    let ps = chars_of(p);
    ends_with_chars(cs.as_slice(), ps.as_slice())
}

/// Whether two strings hold the same characters.
pub fn str_eq(a: &str, b: &str) -> (res: bool)
    ensures
        res == (a@ == b@),
{
    let x = chars_of(a);
    let y = chars_of(b);
    if x.len() != y.len() {
        return false;
    }
    let r = matches_at(x.as_slice(), y.as_slice(), 0);
    proof {
        if r {
            assert(x@.subrange(0, y@.len() as int) =~= x@);
        } else {
            if x@ == y@ {
                assert(x@.subrange(0, y@.len() as int) =~= x@);
            }
        }
    }
    r
}

/// The first position at which `p` occurs in `s`, if any.
pub open spec fn first_occurrence(s: Seq<char>, p: Seq<char>) -> Option<int> {
    if exists|i: int| occurs_at(s, p, i) {
        Some(choose|i: int| occurs_at(s, p, i) && forall|j: int| 0 <= j < i ==> !occurs_at(s, p, j))
    } else {
        None
    }
}

/// The first position at which `p` occurs in `cs`, if any.
pub fn find_chars(cs: &[char], p: &[char]) -> (res: Option<usize>)
    ensures
        match res {
            Some(i) => occurs_at(cs@, p@, i as int) && forall|j: int|
                0 <= j < i ==> !occurs_at(cs@, p@, j),
            None => forall|j: int| !occurs_at(cs@, p@, j),
        },
        res matches Some(i) ==> first_occurrence(cs@, p@) == Some(i as int),
        res is None ==> first_occurrence(cs@, p@) is None,
{
    if p.len() > cs.len() {
        return None;
    }
    let last = cs.len() - p.len();
    let mut i: usize = 0;
    while i <= last
        invariant
            last + p@.len() == cs@.len(),
            i <= last + 1,
            forall|j: int| 0 <= j < i ==> !occurs_at(cs@, p@, j),
        decreases last + 1 - i,
    {
        if matches_at(cs, p, i) {
            proof {
                let w = choose|k: int|
                    occurs_at(cs@, p@, k) && forall|j: int| 0 <= j < k ==> !occurs_at(cs@, p@, j);
                assert(occurs_at(cs@, p@, i as int) && forall|j: int|
                    0 <= j < i ==> !occurs_at(cs@, p@, j));
                if w < i {
                } else if w > i {
                }
            }
            return Some(i);
        }
        if i == last {
            return None;
        }
        i += 1;
    }
    None
}


/// The pieces of `s` between occurrences of `sep`, as `str::split` with a
/// `char` pattern gives them: one more piece than there are separators.
pub open spec fn split_spec(s: Seq<char>, sep: char) -> Seq<Seq<char>>
    decreases s.len(),
{
    if s.len() == 0 {
        seq![Seq::<char>::empty()]
    } else if s.last() == sep {
        split_spec(s.drop_last(), sep).push(Seq::<char>::empty())
    } else {
        let r = split_spec(s.drop_last(), sep);
        r.update(r.len() - 1, r.last().push(s.last()))
    }
}

/// `split_spec` never yields an empty list.
pub proof fn lemma_split_nonempty(s: Seq<char>, sep: char)
    ensures
        split_spec(s, sep).len() >= 1,
    decreases s.len(),
{
    if s.len() > 0 {
        lemma_split_nonempty(s.drop_last(), sep);
    }
}

/// The views of a list of character vectors.
pub open spec fn views_of(v: Seq<Vec<char>>) -> Seq<Seq<char>> {
    v.map_values(|x: Vec<char>| x@)
}

/// The pieces of `cs` between occurrences of `sep`.
pub fn split_chars(cs: &[char], sep: char) -> (res: Vec<Vec<char>>)
    ensures
        views_of(res@) == split_spec(cs@, sep),
{
    let mut pieces: Vec<Vec<char>> = Vec::new();
    let mut cur: Vec<char> = Vec::new();
    let mut i: usize = 0;
    assert(cs@.take(0) =~= Seq::<char>::empty());
    assert(views_of(pieces@).push(cur@) =~= seq![Seq::<char>::empty()]);
    while i < cs.len()
        invariant
            i <= cs@.len(),
            views_of(pieces@).push(cur@) == split_spec(cs@.take(i as int), sep),
        decreases cs@.len() - i,
    {
        let c = cs[i];
        assert(cs@.take(i + 1).drop_last() =~= cs@.take(i as int));
        if c == sep {
            pieces.push(cur);
            cur = Vec::new();
            assert(views_of(pieces@).push(cur@) =~= split_spec(cs@.take(i + 1), sep));
        } else {
            proof {
                lemma_split_nonempty(cs@.take(i as int), sep);
            }
            cur.push(c);
            assert(views_of(pieces@).push(cur@) =~= split_spec(cs@.take(i + 1), sep));
        }
        i += 1;
    }
    assert(cs@.take(cs@.len() as int) =~= cs@);
    let ghost before = pieces@;
    pieces.push(cur);
    assert(views_of(pieces@) =~= views_of(before).push(cur@));
    pieces
}

/// The character for a decimal digit `d < 10`.
pub open spec fn digit_char(d: nat) -> char {
    (48 + d) as char
}

/// The decimal representation of `n`, without leading zeros.
pub open spec fn dec_spec(n: nat) -> Seq<char>
    decreases n,
{
    if n < 10 {
        seq![digit_char(n)]
    } else {
        dec_spec(n / 10).push(digit_char(n % 10))
    }
}

/// The decimal digits of `n`.
pub fn dec_chars(n: u64) -> (res: Vec<char>)
    ensures
        res@ == dec_spec(n as nat),
    decreases n,
{
    let d = (n % 10) as u8;
    let c = (48u8 + d) as char;
    if n < 10 {
        let mut v: Vec<char> = Vec::new();
        v.push(c);
        assert(v@ =~= dec_spec(n as nat));
        v
    } else {
        let mut v = dec_chars(n / 10);
        v.push(c);
        v
    }
}

/// The decimal representation of `n` as a `String`.
pub fn u64_to_string(n: u64) -> (res: String)
    ensures
        res@ == dec_spec(n as nat),
{
    let v = dec_chars(n);
    string_of(v.as_slice())
}

/// `c` is an ASCII decimal digit.
pub open spec fn is_digit(c: char) -> bool {
    '0' <= c && c <= '9'
}

/// Every character of `s` is an ASCII decimal digit.
pub open spec fn all_digits(s: Seq<char>) -> bool {
    forall|i: int| 0 <= i < s.len() ==> is_digit(#[trigger] s[i])
}

/// The value of a string of decimal digits.
pub open spec fn digits_value(s: Seq<char>) -> nat
    decreases s.len(),
{
    if s.len() == 0 {
        0
    } else {
        digits_value(s.drop_last()) * 10 + ((s.last() as nat) - 48) as nat
    }
}

/// What the unsigned `FromStr` impls of std accept, for a type whose largest
/// value is `max`: an optional `+`, then one or more decimal digits whose
/// value is at most `max`.
pub open spec fn parse_uint_spec(s: Seq<char>, max: nat) -> Option<nat> {
    let d = if s.len() > 0 && s[0] == '+' {
        s.drop_first()
    } else {
        s
    };
    if d.len() > 0 && all_digits(d) && digits_value(d) <= max {
        Some(digits_value(d))
    } else {
        None
    }
}

proof fn lemma_digits_value_prefix(s: Seq<char>, i: int)
    requires
        0 <= i <= s.len(),
        all_digits(s),
    ensures
        digits_value(s.take(i)) <= digits_value(s),
    decreases s.len() - i,
{
    if i < s.len() {
        lemma_digits_value_prefix(s, i + 1);
        assert(s.take(i + 1).drop_last() =~= s.take(i));
    } else {
        assert(s.take(i) =~= s);
    }
}

/// Parses `cs` as an unsigned decimal number no larger than `max`.
pub fn parse_uint(cs: &[char], max: u64) -> (res: Option<u64>)
    ensures
        match parse_uint_spec(cs@, max as nat) {
            Some(v) => res == Some(v as u64),
            None => res is None,
        },
{
    let n = cs.len();
    let start: usize = if n > 0 && cs[0] == '+' {
        1
    } else {
        0
    };
    let ghost d = if cs@.len() > 0 && cs@[0] == '+' {
        cs@.drop_first()
    } else {
        cs@
    };
    assert(d =~= cs@.subrange(start as int, n as int));
    if start >= n {
        return None;
    }
    let mut acc: u128 = 0;
    let mut i = start;
    while i < n
        invariant
            start <= i <= n == cs@.len(),
            d == cs@.subrange(start as int, n as int),
            parse_uint_spec(cs@, max as nat) == (if d.len() > 0 && all_digits(d) && digits_value(d)
                <= max {
                Some(digits_value(d))
            } else {
                None
            }),
            all_digits(d.take(i - start)),
            acc == digits_value(d.take(i - start)),
            acc <= max,
        decreases n - i,
    {
        let c = cs[i];
        if !('0' <= c && c <= '9') {
            assert(d[i - start] == c);
            assert(!is_digit(d[i - start]));
            return None;
        }
        let dv = (c as u32 - 48) as u128;
        assert(d.take(i - start + 1).drop_last() =~= d.take(i - start));
        assert(d.take(i - start + 1).last() == c);
        assert(digits_value(d.take(i - start + 1)) == acc * 10 + dv);
        let next = acc * 10 + dv;
        if next > max as u128 {
            proof {
                if all_digits(d) {
                    lemma_digits_value_prefix(d, i - start + 1);
                }
            }
            return None;
        }
        acc = next;
        i += 1;
    }
    assert(d.take(n - start) =~= d);
    Some(acc as u64)
}


proof fn lemma_digit_char(d: nat)
    requires
        d < 10,
    ensures
        digit_char(d) as nat == 48 + d,
        is_digit(digit_char(d)),
{
}

proof fn lemma_dec_digits(n: nat)
    ensures
        dec_spec(n).len() > 0,
        all_digits(dec_spec(n)),
        digits_value(dec_spec(n)) == n,
        dec_spec(n)[0] != '+',
    decreases n,
{
    lemma_digit_char(n % 10);
    if n < 10 {
        assert(dec_spec(n) == seq![digit_char(n)]);
        assert(seq![digit_char(n)].drop_last() =~= Seq::<char>::empty());
        assert(digits_value(Seq::<char>::empty()) == 0);
        assert(n % 10 == n);
        assert(digits_value(dec_spec(n)) == n);
    } else {
        lemma_dec_digits(n / 10);
        let s = dec_spec(n / 10).push(digit_char(n % 10));
        assert(s.drop_last() =~= dec_spec(n / 10));
        assert((n / 10) * 10 + n % 10 == n) by (nonlinear_arith);
        assert(digits_value(s) == digits_value(dec_spec(n / 10)) * 10 + n % 10);
        assert forall|i: int| 0 <= i < s.len() implies is_digit(#[trigger] s[i]) by {
            if i < s.len() - 1 {
                assert(s[i] == dec_spec(n / 10)[i]);
            }
        }
    }
}

/// Writing a number in decimal and reading it back gives the number: what
/// `u64_to_string` writes, `parse_uint` reads, for any bound the number
/// respects.
pub proof fn lemma_decimal_roundtrip(n: nat, max: nat)
    requires
        n <= max,
    ensures
        parse_uint_spec(dec_spec(n), max) == Some(n),
{
    lemma_dec_digits(n);
}

proof fn lemma_trim_start_idem(s: Seq<char>)
    ensures
        trim_start_spec(trim_start_spec(s)) == trim_start_spec(s),
        trim_start_spec(s).len() == 0 || !is_ws(trim_start_spec(s)[0]),
    decreases s.len(),
{
    if s.len() > 0 && is_ws(s[0]) {
        lemma_trim_start_idem(s.drop_first());
    }
}

proof fn lemma_trim_end_keeps_start(s: Seq<char>)
    requires
        s.len() == 0 || !is_ws(s[0]),
    ensures
        trim_start_spec(trim_end_spec(s)) == trim_end_spec(s),
        trim_end_spec(trim_end_spec(s)) == trim_end_spec(s),
        trim_end_spec(s).len() == 0 || !is_ws(trim_end_spec(s).last()),
    decreases s.len(),
{
    if s.len() > 0 && is_ws(s.last()) {
        if s.len() > 1 {
            assert(s.drop_last()[0] == s[0]);
        }
        lemma_trim_end_keeps_start(s.drop_last());
    } else if s.len() > 0 {
    }
}

/// Trimming twice is trimming once.
pub proof fn lemma_trim_idempotent(s: Seq<char>)
    ensures
        trim_spec(trim_spec(s)) == trim_spec(s),
{
    lemma_trim_start_idem(s);
    lemma_trim_end_keeps_start(trim_start_spec(s));
}

/// Splitting `a`, a separator and `b` gives the pieces of `a` then the
/// pieces of `b`.
pub proof fn lemma_split_concat(a: Seq<char>, b: Seq<char>, sep: char)
    ensures
        split_spec(a + seq![sep] + b, sep) == split_spec(a, sep) + split_spec(b, sep),
    decreases b.len(),
{
    let s = a + seq![sep] + b;
    if b.len() == 0 {
        assert(s.drop_last() =~= a);
        assert(split_spec(b, sep) =~= seq![Seq::<char>::empty()]);
        assert(split_spec(a, sep).push(Seq::<char>::empty()) =~= split_spec(a, sep) + seq![
            Seq::<char>::empty(),
        ]);
    } else {
        let b1 = b.drop_last();
        lemma_split_concat(a, b1, sep);
        assert(s.drop_last() =~= a + seq![sep] + b1);
        assert(s.last() == b.last());
        lemma_split_nonempty(b1, sep);
        let r = split_spec(a + seq![sep] + b1, sep);
        if b.last() == sep {
            assert(split_spec(a, sep) + split_spec(b1, sep).push(Seq::<char>::empty()) =~= (
            split_spec(a, sep) + split_spec(b1, sep)).push(Seq::<char>::empty()));
        } else {
            let rb = split_spec(b1, sep);
            assert(split_spec(a, sep) + rb.update(rb.len() - 1, rb.last().push(b.last())) =~= r.update(
                r.len() - 1,
                r.last().push(b.last()),
            ));
        }
    }
}


proof fn lemma_min_occurrence(s: Seq<char>, p: Seq<char>, k: int)
    requires
        occurs_at(s, p, k),
    ensures
        exists|i: int| occurs_at(s, p, i) && forall|j: int| 0 <= j < i ==> !occurs_at(s, p, j),
    decreases k,
{
    if exists|j: int| 0 <= j < k && occurs_at(s, p, j) {
        let j = choose|j: int| 0 <= j < k && occurs_at(s, p, j);
        lemma_min_occurrence(s, p, j);
    } else {
        assert(occurs_at(s, p, k) && forall|j: int| 0 <= j < k ==> !occurs_at(s, p, j));
    }
}

/// The first occurrence found is an occurrence, and no earlier position is one.
pub proof fn lemma_first_occurrence(s: Seq<char>, p: Seq<char>)
    ensures
        first_occurrence(s, p) matches Some(i) ==> occurs_at(s, p, i) && forall|j: int|
            0 <= j < i ==> !occurs_at(s, p, j),
{
    if exists|k: int| occurs_at(s, p, k) {
        let k = choose|k: int| occurs_at(s, p, k);
        lemma_min_occurrence(s, p, k);
    }
}

}
