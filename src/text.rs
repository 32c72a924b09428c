//! Character-level helpers: ASCII case folding, decimal parsing and
//! decimal rendering, each with its mathematical meaning.
use vstd::prelude::*;

verus! {

/// The code point of `c` after ASCII lower-casing.
pub open spec fn fold_ascii(c: char) -> u32 {
    if 65 <= (c as u32) && (c as u32) <= 90 {
        ((c as u32) + 32) as u32
    } else {
        c as u32
    }
}

/// `a` and `b` are the same text when ASCII letters are compared without case.
pub open spec fn eq_ignore_case(a: Seq<char>, b: Seq<char>) -> bool {
    &&& a.len() == b.len()
    &&& forall|i: int| 0 <= i < a.len() ==> #[trigger] fold_ascii(a[i]) == fold_ascii(b[i])
}

/// `s` begins with `p`, ASCII letters compared without case.
pub open spec fn starts_with_ignore_case(s: Seq<char>, p: Seq<char>) -> bool {
    p.len() <= s.len() && eq_ignore_case(s.subrange(0, p.len() as int), p)
}

/// Texts that are equal without case compare alike with any other text, and
/// so do their tails.
pub proof fn lemma_eq_ignore_case_alike(a: Seq<char>, b: Seq<char>, t: Seq<char>)
    requires
        eq_ignore_case(a, b),
    ensures
        eq_ignore_case(a, t) == eq_ignore_case(b, t),
        starts_with_ignore_case(a, t) == starts_with_ignore_case(b, t),
        forall|k: int|
            0 <= k <= a.len() ==> #[trigger] eq_ignore_case(
                a.subrange(k, a.len() as int),
                b.subrange(k, b.len() as int),
            ),
        forall|k: int|
            0 <= k <= a.len() ==> #[trigger] eq_ignore_case(a.subrange(0, k), b.subrange(0, k)),
{
    assert forall|k: int| 0 <= k <= a.len() implies #[trigger] eq_ignore_case(
        a.subrange(0, k),
        b.subrange(0, k),
    ) by {
        let ta = a.subrange(0, k);
        let tb = b.subrange(0, k);
        assert forall|i: int| 0 <= i < ta.len() implies #[trigger] fold_ascii(ta[i]) == fold_ascii(
            tb[i],
        ) by {
            assert(ta[i] == a[i]);
            assert(tb[i] == b[i]);
        }
    }
    if a.len() == t.len() {
        if eq_ignore_case(a, t) {
            assert forall|i: int| 0 <= i < b.len() implies #[trigger] fold_ascii(b[i]) == fold_ascii(
                t[i],
            ) by {
                assert(fold_ascii(a[i]) == fold_ascii(b[i]));
            }
        }
        if eq_ignore_case(b, t) {
            assert forall|i: int| 0 <= i < a.len() implies #[trigger] fold_ascii(a[i]) == fold_ascii(
                t[i],
            ) by {
                assert(fold_ascii(b[i]) == fold_ascii(t[i]));
            }
        }
    }
    if t.len() <= a.len() {
        let sa = a.subrange(0, t.len() as int);
        let sb = b.subrange(0, t.len() as int);
        assert forall|i: int| 0 <= i < sa.len() implies #[trigger] fold_ascii(sa[i]) == fold_ascii(
            sb[i],
        ) by {
            assert(sa[i] == a[i]);
            assert(sb[i] == b[i]);
        }
        if eq_ignore_case(sa, t) {
            assert forall|i: int| 0 <= i < sb.len() implies #[trigger] fold_ascii(sb[i])
                == fold_ascii(t[i]) by {
                assert(fold_ascii(sa[i]) == fold_ascii(sb[i]));
            }
        }
        if eq_ignore_case(sb, t) {
            assert forall|i: int| 0 <= i < sa.len() implies #[trigger] fold_ascii(sa[i])
                == fold_ascii(t[i]) by {
                assert(fold_ascii(sa[i]) == fold_ascii(sb[i]));
            }
        }
    }
    assert forall|k: int| 0 <= k <= a.len() implies #[trigger] eq_ignore_case(
        a.subrange(k, a.len() as int),
        b.subrange(k, b.len() as int),
    ) by {
        let ta = a.subrange(k, a.len() as int);
        let tb = b.subrange(k, b.len() as int);
        assert forall|i: int| 0 <= i < ta.len() implies #[trigger] fold_ascii(ta[i]) == fold_ascii(
            tb[i],
        ) by {
            assert(ta[i] == a[i + k]);
            assert(tb[i] == b[i + k]);
        }
    }
}

/// Index of the first occurrence of `c` in `s`, if any.
pub open spec fn first_index_of(s: Seq<char>, c: char) -> Option<int> {
    if exists|i: int| 0 <= i < s.len() && s[i] == c {
        let i = choose|i: int|
            0 <= i < s.len() && s[i] == c && forall|j: int| 0 <= j < i ==> s[j] != c;
        Some(i)
    } else {
        None
    }
}

/// Texts equal without case have their first `:` at the same place, since a
/// `:` folds to itself only.
pub proof fn lemma_first_colon_alike(a: Seq<char>, b: Seq<char>)
    requires
        eq_ignore_case(a, b),
    ensures
        first_index_of(a, ':') == first_index_of(b, ':'),
        first_index_of(a, ':') matches Some(i) ==> 0 <= i < a.len(),
{
    assert forall|i: int| 0 <= i < a.len() implies (a[i] == ':') == (b[i] == ':') by {
        assert(fold_ascii(a[i]) == fold_ascii(b[i]));
        assert(fold_ascii(':') == 58);
        vstd::utf8::char_u32_cast(a[i], a[i] as u32);
        vstd::utf8::char_u32_cast(b[i], b[i] as u32);
        vstd::utf8::char_u32_cast(':', ':' as u32);
    }
    if exists|i: int| 0 <= i < a.len() && a[i] == ':' {
        let ia = choose|i: int|
            0 <= i < a.len() && a[i] == ':' && forall|j: int| 0 <= j < i ==> a[j] != ':';
        let w = choose|i: int| 0 <= i < a.len() && a[i] == ':';
        assert(b[w] == ':');
        let ib = choose|i: int|
            0 <= i < b.len() && b[i] == ':' && forall|j: int| 0 <= j < i ==> b[j] != ':';
        lemma_first_exists(a, ':', w);
        lemma_first_exists(b, ':', w);
        assert(b[ia] == ':');
        assert(a[ib] == ':');
        if ia < ib {
            assert(b[ia] != ':');
        }
        if ib < ia {
            assert(a[ib] != ':');
        }
    } else {
        assert forall|i: int| 0 <= i < b.len() implies b[i] != ':' by {
            assert(a[i] != ':');
        }
    }
}

/// Where `c` occurs in `s`, it has a first occurrence.
proof fn lemma_first_exists(s: Seq<char>, c: char, w: int)
    requires
        0 <= w < s.len(),
        s[w] == c,
    ensures
        exists|i: int| 0 <= i < s.len() && s[i] == c && forall|j: int| 0 <= j < i ==> s[j] != c,
    decreases w,
{
    if exists|j: int| 0 <= j < w && s[j] == c {
        let j = choose|j: int| 0 <= j < w && s[j] == c;
        lemma_first_exists(s, c, j);
    } else {
        assert(0 <= w < s.len() && s[w] == c && forall|j: int| 0 <= j < w ==> s[j] != c);
    }
}

pub open spec fn is_digit(c: char) -> bool {
    48 <= (c as u32) && (c as u32) <= 57
}

pub open spec fn digit_value(c: char) -> int {
    (c as u32) - 48
}

pub open spec fn all_digits(s: Seq<char>) -> bool {
    forall|i: int| 0 <= i < s.len() ==> #[trigger] is_digit(s[i])
}

/// The number that a string of decimal digits denotes.
pub open spec fn decimal_value(s: Seq<char>) -> int
    decreases s.len(),
{
    if s.len() == 0 {
        0
    } else {
        decimal_value(s.drop_last()) * 10 + digit_value(s.last())
    }
}

/// What remains of an unsigned number's text once an optional leading `+` is dropped.
pub open spec fn unsigned_digits(s: Seq<char>) -> Seq<char> {
    if s.len() > 0 && s[0] == '+' {
        s.drop_first()
    } else {
        s
    }
}

/// The base-10 reading of `s` as a `u64`: an optional `+`, then at least one
/// digit, and a value that fits.
pub open spec fn parse_decimal(s: Seq<char>) -> Option<u64> {
    let d = unsigned_digits(s);
    if d.len() > 0 && all_digits(d) && decimal_value(d) <= u64::MAX {
        Some(decimal_value(d) as u64)
    } else {
        None
    }
}

pub open spec fn digit_char(d: int) -> char {
    if d == 0 {
        '0'
    } else if d == 1 {
        '1'
    } else if d == 2 {
        '2'
    } else if d == 3 {
        '3'
    } else if d == 4 {
        '4'
    } else if d == 5 {
        '5'
    } else if d == 6 {
        '6'
    } else if d == 7 {
        '7'
    } else if d == 8 {
        '8'
    } else {
        '9'
    }
}

/// Decimal text of a natural number, without leading zeros.
pub open spec fn nat_text(n: nat) -> Seq<char>
    decreases n,
{
    if n < 10 {
        seq![digit_char(n as int)]
    } else {
        nat_text(n / 10).push(digit_char((n % 10) as int))
    }
}

/// Decimal text of an integer, with a leading `-` when negative.
pub open spec fn int_text(v: int) -> Seq<char> {
    if v < 0 {
        seq!['-'] + nat_text((-v) as nat)
    } else {
        nat_text(v as nat)
    }
}

/// The parts, in order, with `sep` between each two.
pub open spec fn join_texts(parts: Seq<Seq<char>>, sep: Seq<char>) -> Seq<char>
    decreases parts.len(),
{
    if parts.len() == 0 {
        seq![]
    } else if parts.len() == 1 {
        parts[0]
    } else {
        join_texts(parts.drop_last(), sep) + sep + parts.last()
    }
}

fn fold_char(c: char) -> (r: u32)
    ensures
        r == fold_ascii(c),
{
    let v = c as u32;
    if 65 <= v && v <= 90 {
        v + 32
    } else {
        v
    }
}

/// Compares two texts, ASCII letters without case.
pub fn text_eq_ignore_case(a: &str, b: &str) -> (r: bool)
    ensures
        r == eq_ignore_case(a@, b@),
{
    let n = a.unicode_len();
    if n != b.unicode_len() {
        return false;
    }
    let mut i: usize = 0;
    while i < n
        invariant
            n == a@.len(),
            n == b@.len(),
            i <= n,
            forall|j: int| 0 <= j < i ==> #[trigger] fold_ascii(a@[j]) == fold_ascii(b@[j]),
        decreases n - i,
    {
        if fold_char(a.get_char(i)) != fold_char(b.get_char(i)) {
            return false;
        }
        i = i + 1;
    }
    true
}

/// Whether `s` begins with `p`, ASCII letters compared without case.
pub fn text_starts_with_ignore_case(s: &str, p: &str) -> (r: bool)
    ensures
        r == starts_with_ignore_case(s@, p@),
{
    let n = p.unicode_len();
    if n > s.unicode_len() {
        return false;
    }
    let mut i: usize = 0;
    while i < n
        invariant
            n == p@.len(),
            n <= s@.len(),
            i <= n,
            forall|j: int| 0 <= j < i ==> #[trigger] fold_ascii(s@[j]) == fold_ascii(p@[j]),
        decreases n - i,
    {
        if fold_char(s.get_char(i)) != fold_char(p.get_char(i)) {
            assert(s@.subrange(0, n as int)[i as int] == s@[i as int]);
            return false;
        }
        i = i + 1;
    }
    assert forall|j: int| 0 <= j < n implies #[trigger] fold_ascii(s@.subrange(0, n as int)[j])
        == fold_ascii(p@[j]) by {
        assert(s@.subrange(0, n as int)[j] == s@[j]);
    }
    true
}

/// Index of the first `c` in `s`.
pub fn find_char(s: &str, c: char) -> (r: Option<usize>)
    ensures
        match r {
            Some(i) => i < s@.len() && s@[i as int] == c && first_index_of(s@, c) == Some(i as int),
            None => first_index_of(s@, c) is None,
        },
{
    let n = s.unicode_len();
    let mut i: usize = 0;
    while i < n
        invariant
            n == s@.len(),
            i <= n,
            forall|j: int| 0 <= j < i ==> s@[j] != c,
        decreases n - i,
    {
        if s.get_char(i) == c {
            assert(0 <= i < s@.len() && s@[i as int] == c);
            let ghost k = choose|k: int|
                0 <= k < s@.len() && s@[k] == c && forall|j: int| 0 <= j < k ==> s@[j] != c;
            assert(k == i) by {
                if k < i {
                    assert(s@[k] != c);
                } else if k > i {
                    assert(s@[i as int] != c);
                }
            }
            return Some(i);
        }
        i = i + 1;
    }
    None
}

proof fn lemma_value_nonneg(d: Seq<char>)
    requires
        all_digits(d),
    ensures
        0 <= decimal_value(d),
    decreases d.len(),
{
    if d.len() > 0 {
        let e = d.drop_last();
        assert forall|i: int| 0 <= i < e.len() implies #[trigger] is_digit(e[i]) by {
            assert(e[i] == d[i]);
        }
        lemma_value_nonneg(e);
        assert(is_digit(d[d.len() - 1]));
    }
}

proof fn lemma_value_of_prefix(d: Seq<char>, k: int)
    requires
        all_digits(d),
        0 <= k <= d.len(),
    ensures
        decimal_value(d.subrange(0, k)) <= decimal_value(d),
    decreases d.len(),
{
    if k < d.len() {
        let e = d.drop_last();
        assert(e.subrange(0, k) =~= d.subrange(0, k));
        assert(all_digits(e)) by {
            assert forall|i: int| 0 <= i < e.len() implies #[trigger] is_digit(e[i]) by {
                assert(e[i] == d[i]);
            }
        }
        lemma_value_of_prefix(e, k);
        lemma_value_nonneg(e);
        assert(is_digit(d[d.len() - 1]));
    } else {
        assert(d.subrange(0, k) =~= d);
    }
}

/// Reads `s` in base 10 as `u64::from_str_radix(s, 10)` does: an optional
/// `+`, then digits only, and no overflow.
pub fn parse_u64(s: &str) -> (r: Option<u64>)
    ensures
        r == parse_decimal(s@),
{
    let n = s.unicode_len();
    let mut start: usize = 0;
    if n > 0 && s.get_char(0) == '+' {
        start = 1;
    }
    let ghost d = unsigned_digits(s@);
    assert(d =~= s@.subrange(start as int, n as int));
    if start == n {
        return None;
    }
    let mut acc: u64 = 0;
    let mut i: usize = start;
    while i < n
        invariant
            n == s@.len(),
            start <= i <= n,
            d == s@.subrange(start as int, n as int),
            d == unsigned_digits(s@),
            all_digits(d.subrange(0, i - start)),
            acc == decimal_value(d.subrange(0, i - start)),
        decreases n - i,
    {
        let c = s.get_char(i);
        let ghost p = d.subrange(0, i - start);
        let ghost q = d.subrange(0, i + 1 - start);
        assert(q.drop_last() =~= p);
        assert(q.last() == c);
        let code = c as u32;
        if code < 48 || code > 57 {
            assert(d[i - start] == c);
            assert(!is_digit(d[i - start]));
            return None;
        }
        let v = (code - 48) as u64;
        assert(all_digits(q)) by {
            assert forall|j: int| 0 <= j < q.len() implies #[trigger] is_digit(q[j]) by {
                if j < p.len() {
                    assert(q[j] == p[j]);
                }
            }
        }
        if acc > (u64::MAX - v) / 10 {
            proof {
                assert(decimal_value(q) == acc * 10 + v);
                assert(acc * 10 + v > u64::MAX) by (nonlinear_arith)
                    requires
                        acc > (u64::MAX - v) / 10,
                        v <= 9,
                ;
                if all_digits(d) {
                    lemma_value_of_prefix(d, i + 1 - start);
                }
            }
            return None;
        }
        acc = acc * 10 + v;
        i = i + 1;
    }
    assert(d.subrange(0, n - start) =~= d);
    Some(acc)
}

fn digit_str(d: u64) -> (r: &'static str)
    requires
        d < 10,
    ensures
        r@ == seq![digit_char(d as int)],
{
    if d == 0 {
        proof { reveal_strlit("0"); }
        "0"
    } else if d == 1 {
        proof { reveal_strlit("1"); }
        "1"
    } else if d == 2 {
        proof { reveal_strlit("2"); }
        "2"
    } else if d == 3 {
        proof { reveal_strlit("3"); }
        "3"
    } else if d == 4 {
        proof { reveal_strlit("4"); }
        "4"
    } else if d == 5 {
        proof { reveal_strlit("5"); }
        "5"
    } else if d == 6 {
        proof { reveal_strlit("6"); }
        "6"
    } else if d == 7 {
        proof { reveal_strlit("7"); }
        "7"
    } else if d == 8 {
        proof { reveal_strlit("8"); }
        "8"
    } else {
        proof { reveal_strlit("9"); }
        "9"
    }
}

/// Decimal text of an unsigned integer.
pub fn u64_text(n: u64) -> (r: String)
    ensures
        r@ == nat_text(n as nat),
    decreases n,
{
    if n < 10 {
        String::from_str(digit_str(n))
    } else {
        let mut s = u64_text(n / 10);
        s.append(digit_str(n % 10));
        s
    }
}

/// Decimal text of a signed integer.
pub fn i64_text(v: i64) -> (r: String)
    ensures
        r@ == int_text(v as int),
{
    if v < 0 {
        let m = (-(v as i128)) as u64;
        let mut s = String::from_str("-");
        proof { reveal_strlit("-"); }
        let t = u64_text(m);
        s.append(t.as_str());
        s
    } else {
        u64_text(v as u64)
    }
}

} // verus!
