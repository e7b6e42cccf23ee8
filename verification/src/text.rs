//! Text: the facts this crate relies on about strings, and the few
//! string operations that its rules are written with.

use vstd::prelude::*;

verus! {

/// The characters that carry the Unicode `White_Space` property, which is
/// what `char::is_whitespace` and `str::trim` go by.
pub open spec fn is_space(c: char) -> bool {
    ||| c == ' ' || c == '\t' || c == '\n' || c == '\r'
    ||| c == '\u{0B}' || c == '\u{0C}'
    ||| c == '\u{85}' || c == '\u{A0}' || c == '\u{1680}'
    ||| ('\u{2000}' <= c && c <= '\u{200A}')
    ||| c == '\u{2028}' || c == '\u{2029}' || c == '\u{202F}' || c == '\u{205F}' || c == '\u{3000}'
}

/// Number of leading white-space characters of `s`.
pub open spec fn leading_space(s: Seq<char>) -> nat
    decreases s.len(),
{
    if s.len() > 0 && is_space(s[0]) {
        1 + leading_space(s.drop_first())
    } else {
        0
    }
}

/// Number of trailing white-space characters of `s`.
pub open spec fn trailing_space(s: Seq<char>) -> nat
    decreases s.len(),
{
    if s.len() > 0 && is_space(s.last()) {
        1 + trailing_space(s.drop_last())
    } else {
        0
    }
}

/// `s` without its leading and trailing white space.
pub open spec fn trim(s: Seq<char>) -> Seq<char> {
    let front = s.skip(leading_space(s) as int);
    front.take(front.len() - trailing_space(front))
}

/// An optional text with its surrounding white space removed.
pub open spec fn trim_opt(s: Option<Seq<char>>) -> Option<Seq<char>> {
    match s {
        Some(t) => Some(trim(t)),
        None => None,
    }
}

/// `str::trim`: the string slice with leading and trailing white space
/// removed, white space as the Unicode `White_Space` property defines it.
#[verifier::external_body]
pub(crate) fn trimmed<'a>(s: &'a str) -> (res: &'a str)
    ensures
        res@ == trim(s@),
{
    s.trim()
}


/// The characters of `s`, in order.
pub fn chars_of(s: &str) -> (res: Vec<char>)
    ensures
        res@ == s@,
{
    let mut res: Vec<char> = Vec::new();
    for c in it: s.chars()
        invariant
            it.seq() == s@,
            res@ == s@.take(it.index() as int),
    {
        res.push(c);
    }
    assert(res@ == s@.take(s@.len() as int));
    res
}


/// The decimal digit character for `d`, a value below ten.
pub open spec fn digit_char(d: nat) -> char {
    if d == 0 { '0' }
    else if d == 1 { '1' }
    else if d == 2 { '2' }
    else if d == 3 { '3' }
    else if d == 4 { '4' }
    else if d == 5 { '5' }
    else if d == 6 { '6' }
    else if d == 7 { '7' }
    else if d == 8 { '8' }
    else { '9' }
}

/// The decimal digits of `n`, without leading zeros (`0` is one digit).
pub open spec fn digits(n: nat) -> Seq<char>
    decreases n,
{
    if n < 10 {
        seq![digit_char(n)]
    } else {
        digits(n / 10).push(digit_char(n % 10))
    }
}

/// `n` written in decimal, with a leading `-` when negative.
pub open spec fn decimal(n: int) -> Seq<char> {
    if n < 0 {
        seq!['-'] + digits((-n) as nat)
    } else {
        digits(n as nat)
    }
}

/// `i64::to_string`: the value written in decimal, `-` first when negative.
#[verifier::external_body]
pub(crate) fn int_text(n: i64) -> (res: String)
    ensures
        res@ == decimal(n as int),
{
    n.to_string()
}

/// Whether `c` is one of the ASCII digits `0` to `9`.
pub open spec fn is_digit(c: char) -> bool {
    '0' <= c && c <= '9'
}

/// The value of the ASCII digit `c`.
pub open spec fn digit_value(c: char) -> int {
    (c as int) - ('0' as int)
}

/// Whether `s` is one or more ASCII digits.
pub open spec fn all_digits(s: Seq<char>) -> bool {
    s.len() > 0 && forall|i: int| 0 <= i < s.len() ==> is_digit(#[trigger] s[i])
}

/// The value of the digit string `s`, most significant digit first.
pub open spec fn digits_value(s: Seq<char>) -> int
    decreases s.len(),
{
    if s.len() == 0 {
        0
    } else {
        digits_value(s.drop_last()) * 10 + digit_value(s.last())
    }
}

/// The integer that `s` spells as an optional `+` or `-` sign followed by
/// one or more ASCII digits, if it spells one.
pub open spec fn integer_value(s: Seq<char>) -> Option<int> {
    if s.len() > 0 && s[0] == '-' && all_digits(s.drop_first()) {
        Some(-digits_value(s.drop_first()))
    } else if s.len() > 0 && s[0] == '+' && all_digits(s.drop_first()) {
        Some(digits_value(s.drop_first()))
    } else if all_digits(s) {
        Some(digits_value(s))
    } else {
        None
    }
}

/// The `i64` that `s` spells, if it spells one that fits.
pub open spec fn i64_value(s: Seq<char>) -> Option<i64> {
    match integer_value(s) {
        Some(v) => if i64::MIN <= v <= i64::MAX {
            Some(v as i64)
        } else {
            None
        },
        None => None,
    }
}

/// The `i32` that `s` spells, if it spells one that fits.
pub open spec fn i32_value(s: Seq<char>) -> Option<i32> {
    match integer_value(s) {
        Some(v) => if i32::MIN <= v <= i32::MAX {
            Some(v as i32)
        } else {
            None
        },
        None => None,
    }
}

/// `str::parse::<i64>`: the value of an optional sign followed by decimal
/// digits (nothing else, white space included), and an error when the text
/// has another shape or the value does not fit in an `i64`.
#[verifier::external_body]
pub(crate) fn parse_i64(s: &str) -> (res: Option<i64>)
    ensures
        res == i64_value(s@),
{
    s.parse::<i64>().ok()
}

/// `str::parse::<i32>`: as `parse_i64`, for values that fit in an `i32`.
#[verifier::external_body]
pub(crate) fn parse_i32(s: &str) -> (res: Option<i32>)
    ensures
        res == i32_value(s@),
{
    s.parse::<i32>().ok()
}

/// How many ASCII digits `s` holds.
pub open spec fn digit_count(s: Seq<char>) -> nat
    decreases s.len(),
{
    if s.len() == 0 {
        0
    } else {
        digit_count(s.drop_last()) + if is_digit(s.last()) { 1nat } else { 0nat }
    }
}

/// Counts the ASCII digits of `s`.
pub fn count_digits(s: &str) -> (res: usize)
    ensures
        res == digit_count(s@),
{
    let cs = chars_of(s);
    let mut n: usize = 0;
    let mut i: usize = 0;
    while i < cs.len()
        invariant
            cs@ == s@,
            i <= cs.len(),
            n == digit_count(s@.take(i as int)),
            n <= i,
        decreases cs.len() - i,
    {
        assert(s@.take(i as int + 1).drop_last() == s@.take(i as int));
        if '0' <= cs[i] && cs[i] <= '9' {
            n = n + 1;
        }
        i = i + 1;
    }
    assert(s@.take(i as int) == s@);
    n
}

/// Whether `needle` occurs in `hay` as a run of consecutive characters.
pub open spec fn occurs_in(needle: Seq<char>, hay: Seq<char>) -> bool {
    exists|k: int| 0 <= k && k + needle.len() <= hay.len()
        && #[trigger] hay.subrange(k, k + needle.len()) == needle
}

/// Whether `needle` occurs in `hay`.
pub fn contains_text(hay: &str, needle: &str) -> (res: bool)
    ensures
        res == occurs_in(needle@, hay@),
{
    let h = chars_of(hay);
    let n = chars_of(needle);
    if n.len() > h.len() {
        return false;
    }
    let last = h.len() - n.len();
    let mut k: usize = 0;
    while k <= last
        invariant
            h@ == hay@,
            n@ == needle@,
            last == h.len() - n.len(),
            n.len() <= h.len(),
            k <= last + 1,
            forall|j: int| 0 <= j < k ==> #[trigger] hay@.subrange(j, j + needle@.len()) != needle@,
        decreases last + 1 - k,
    {
        let mut m: usize = 0;
        let mut same = true;
        while m < n.len()
            invariant
                h@ == hay@,
                n@ == needle@,
                k <= last,
                last == h.len() - n.len(),
                m <= n.len(),
                same == (forall|p: int| 0 <= p < m ==> h@[k + p] == n@[p]),
            decreases n.len() - m,
        {
            if h[k + m] != n[m] {
                same = false;
            }
            m = m + 1;
        }
        if same {
            assert(hay@.subrange(k as int, k + needle@.len()) == needle@);
            return true;
        }
        assert(hay@.subrange(k as int, k + needle@.len()) != needle@) by {
            let p = choose|p: int| 0 <= p < m && h@[k + p] != n@[p];
            assert(hay@.subrange(k as int, k + needle@.len())[p] != needle@[p]);
        };
        k = k + 1;
    }
    false
}


/// Whether `a` and `b` hold the same characters.
pub fn same_text(a: &str, b: &str) -> (res: bool)
    ensures
        res == (a@ == b@),
{
    let x: String = a.to_owned();
    let y: String = b.to_owned();
    x == y
}

/// `a` followed by `b`.
pub fn joined(a: &str, b: &str) -> (res: String)
    ensures
        res@ == a@ + b@,
{
    let x: String = a.to_owned();
    x.concat(b)
}

/// `s` with its surrounding white space removed, as an owned string.
pub fn trimmed_owned(s: &str) -> (res: String)
    ensures
        res@ == trim(s@),
{
    trimmed(s).to_owned()
}


/// The leading white space of `s` is white space, and what follows it is not.
pub proof fn lemma_leading_space(s: Seq<char>)
    ensures
        leading_space(s) <= s.len(),
        forall|i: int| 0 <= i < leading_space(s) ==> is_space(#[trigger] s[i]),
        leading_space(s) < s.len() ==> !is_space(s[leading_space(s) as int]),
    decreases s.len(),
{
    if s.len() > 0 && is_space(s[0]) {
        lemma_leading_space(s.drop_first());
        assert forall|i: int| 0 <= i < leading_space(s) implies is_space(#[trigger] s[i]) by {
            if i > 0 {
                assert(s[i] == s.drop_first()[i - 1]);
            }
        }
        if leading_space(s) < s.len() {
            assert(s[leading_space(s) as int] == s.drop_first()[leading_space(s.drop_first()) as int]);
        }
    }
}

/// The trailing white space of `s` is white space, and what precedes it is not.
pub proof fn lemma_trailing_space(s: Seq<char>)
    ensures
        trailing_space(s) <= s.len(),
        forall|i: int| s.len() - trailing_space(s) <= i < s.len() ==> is_space(#[trigger] s[i]),
        trailing_space(s) < s.len() ==> !is_space(s[s.len() - 1 - trailing_space(s)]),
    decreases s.len(),
{
    if s.len() > 0 && is_space(s.last()) {
        lemma_trailing_space(s.drop_last());
        assert forall|i: int| s.len() - trailing_space(s) <= i < s.len() implies is_space(
            #[trigger] s[i],
        ) by {
            if i < s.len() - 1 {
                assert(s[i] == s.drop_last()[i]);
            }
        }
        if trailing_space(s) < s.len() {
            assert(s[s.len() - 1 - trailing_space(s)] == s.drop_last()[s.drop_last().len() - 1
                - trailing_space(s.drop_last())]);
        }
    }
}

/// A trimmed text neither starts nor ends with white space.
pub proof fn lemma_trim_ends(s: Seq<char>)
    ensures
        trim(s).len() > 0 ==> !is_space(trim(s)[0]) && !is_space(trim(s).last()),
        trim(s).len() <= s.len(),
{
    lemma_leading_space(s);
    let front = s.skip(leading_space(s) as int);
    lemma_trailing_space(front);
    if trim(s).len() > 0 {
        assert(trim(s)[0] == s[leading_space(s) as int]);
        assert(trim(s).last() == front[front.len() - 1 - trailing_space(front)]);
    }
}

/// Trimming twice is trimming once.
pub proof fn lemma_trim_idempotent(s: Seq<char>)
    ensures
        trim(trim(s)) == trim(s),
{
    let t = trim(s);
    lemma_trim_ends(s);
    if t.len() > 0 {
        assert(leading_space(t) == 0);
        assert(t.skip(0) == t);
        assert(trailing_space(t) == 0);
        assert(t.take(t.len() as int) == t);
    } else {
        assert(t.skip(0) == t);
    }
}

/// Digits of a concatenation are the digits of its parts.
pub proof fn lemma_digit_count_concat(a: Seq<char>, b: Seq<char>)
    ensures
        digit_count(a + b) == digit_count(a) + digit_count(b),
    decreases b.len(),
{
    if b.len() == 0 {
        assert(a + b == a);
    } else {
        lemma_digit_count_concat(a, b.drop_last());
        assert((a + b).drop_last() == a + b.drop_last());
        assert((a + b).last() == b.last());
    }
}

/// White space holds no digits.
pub proof fn lemma_no_digits_in_space(s: Seq<char>)
    requires
        forall|i: int| 0 <= i < s.len() ==> is_space(#[trigger] s[i]),
    ensures
        digit_count(s) == 0,
    decreases s.len(),
{
    if s.len() > 0 {
        assert(is_space(s[s.len() - 1]));
        assert forall|i: int| 0 <= i < s.drop_last().len() implies is_space(
            #[trigger] s.drop_last()[i],
        ) by {
            assert(s.drop_last()[i] == s[i]);
        }
        lemma_no_digits_in_space(s.drop_last());
    }
}

/// Trimming keeps every digit.
pub proof fn lemma_trim_keeps_digits(s: Seq<char>)
    ensures
        digit_count(trim(s)) == digit_count(s),
{
    lemma_leading_space(s);
    let lead = leading_space(s) as int;
    let front = s.skip(lead);
    lemma_trailing_space(front);
    let keep = front.len() - trailing_space(front);
    let head = s.take(lead);
    let tail = front.skip(keep);
    assert(s == head + front);
    assert(front == trim(s) + tail);
    assert forall|i: int| 0 <= i < head.len() implies is_space(#[trigger] head[i]) by {
        assert(head[i] == s[i]);
    }
    assert forall|i: int| 0 <= i < tail.len() implies is_space(#[trigger] tail[i]) by {
        assert(tail[i] == front[keep + i]);
    }
    lemma_no_digits_in_space(head);
    lemma_no_digits_in_space(tail);
    lemma_digit_count_concat(head, front);
    lemma_digit_count_concat(trim(s), tail);
}


/// The characters of a decimal number are digits, and they spell it back.
pub proof fn lemma_digits_spell(n: nat)
    ensures
        all_digits(digits(n)),
        digits_value(digits(n)) == n,
    decreases n,
{
    let d = n % 10;
    assert(is_digit(digit_char(d)) && digit_value(digit_char(d)) == d) by {
        assert('0' as int == 48);
        assert('9' as int == 57);
        assert('1' as int == 49 && '2' as int == 50 && '3' as int == 51 && '4' as int == 52);
        assert('5' as int == 53 && '6' as int == 54 && '7' as int == 55 && '8' as int == 56);
    }
    if n >= 10 {
        lemma_digits_spell(n / 10);
        let s = digits(n);
        assert(s.drop_last() == digits(n / 10));
        assert(s.last() == digit_char(d));
        assert forall|i: int| 0 <= i < s.len() implies is_digit(#[trigger] s[i]) by {
            if i < s.len() - 1 {
                assert(s[i] == digits(n / 10)[i]);
            }
        }
        assert(digits_value(s) == digits_value(digits(n / 10)) * 10 + digit_value(digit_char(d)));
        assert((n / 10) * 10 + n % 10 == n);
    } else {
        let s = digits(n);
        assert(s == seq![digit_char(n)]);
        assert(s.drop_last() == Seq::<char>::empty());
        assert(digits_value(s) == digits_value(s.drop_last()) * 10 + digit_value(s.last()));
        assert(digits_value(Seq::<char>::empty()) == 0);
        assert(d == n);
    }
}

/// No digit is white space.
pub proof fn lemma_digit_not_space(c: char)
    requires
        is_digit(c),
    ensures
        !is_space(c),
{
}

/// A number written in decimal reads back as itself, and trimming leaves it
/// as it is.
pub proof fn lemma_decimal_reads_back(n: int)
    ensures
        integer_value(decimal(n)) == Some(n),
        trim(decimal(n)) == decimal(n),
{
    let m: nat = if n < 0 {
        (-n) as nat
    } else {
        n as nat
    };
    lemma_digits_spell(m);
    let ds = digits(m);
    let s = decimal(n);
    if n < 0 {
        assert(s.drop_first() == ds);
        assert(s[0] == '-');
    } else {
        assert(is_digit(ds[0]));
    }
    assert(s.len() > 0);
    assert(is_digit(s.last()) || s.len() == 1 && s[0] == '-') by {
        if n < 0 {
            assert(s.last() == ds.last());
            assert(is_digit(ds[ds.len() - 1]));
        } else {
            assert(is_digit(ds[ds.len() - 1]));
        }
    }
    assert(!is_space(s[0]));
    assert(!is_space(s.last()));
    assert(leading_space(s) == 0);
    assert(s.skip(0) == s);
    assert(trailing_space(s) == 0);
    assert(s.take(s.len() as int) == s);
}

} // verus!

verus! {

/// The ASCII digits of a text are the characters from `0` to `9`, counted
/// one by one.
pub proof fn lemma_digit_count_counts_digits(s: Seq<char>)
    ensures
        digit_count(s) == s.filter(|c: char| '0' <= c && c <= '9').len(),
        digit_count(s) <= s.len(),
    decreases s.len(),
{
    reveal(Seq::filter);
    if s.len() > 0 {
        lemma_digit_count_counts_digits(s.drop_last());
    }
}

/// Trimming removes white space from both ends and nothing else: the
/// trimmed text is a run of `s` with only white space before and after it,
/// and it neither starts nor ends with white space.
pub proof fn lemma_trim_removes_only_surrounding_space(s: Seq<char>)
    ensures
        exists|i: int, j: int|
            0 <= i <= j <= s.len() && trim(s) == s.subrange(i, j) && (forall|k: int|
                0 <= k < i ==> is_space(#[trigger] s[k])) && (forall|k: int|
                j <= k < s.len() ==> is_space(#[trigger] s[k])),
        trim(s).len() > 0 ==> !is_space(trim(s)[0]) && !is_space(trim(s).last()),
        (forall|k: int| 0 <= k < s.len() ==> !is_space(#[trigger] s[k])) ==> trim(s) == s,
{
    lemma_leading_space(s);
    let lead = leading_space(s) as int;
    let front = s.skip(lead);
    lemma_trailing_space(front);
    let keep = front.len() - trailing_space(front);
    assert(trim(s) == s.subrange(lead, lead + keep));
    assert forall|k: int| lead + keep <= k < s.len() implies is_space(#[trigger] s[k]) by {
        assert(s[k] == front[k - lead]);
    }
    lemma_trim_ends(s);
    if forall|k: int| 0 <= k < s.len() ==> !is_space(#[trigger] s[k]) {
        if s.len() > 0 {
            assert(!is_space(s[0]));
            assert(lead == 0);
            assert(front == s);
            assert(!is_space(s[s.len() - 1]));
            assert(trailing_space(front) == 0);
            assert(trim(s) == s.subrange(0, s.len() as int));
        } else {
            assert(trim(s).len() == 0);
        }
    }
}

/// A number written in decimal is its digits, with a `-` first exactly when
/// it is negative, and the digits spell its size.
pub proof fn lemma_decimal_shape(n: int)
    ensures
        n < 0 ==> decimal(n)[0] == '-' && all_digits(decimal(n).drop_first()) && digits_value(
            decimal(n).drop_first(),
        ) == -n,
        n >= 0 ==> all_digits(decimal(n)) && digits_value(decimal(n)) == n,
{
    let m: nat = if n < 0 {
        (-n) as nat
    } else {
        n as nat
    };
    lemma_digits_spell(m);
    if n < 0 {
        assert(decimal(n).drop_first() == digits(m));
    }
}

} // verus!

verus! {

/// Only a non-empty text with no white space, whose characters after an
/// optional leading sign are all ASCII digits, spells an integer; a text
/// of digits spells the value they write.
pub proof fn lemma_integer_value_shape(s: Seq<char>)
    ensures
        integer_value(s) is Some ==> s.len() > 0 && forall|k: int|
            0 <= k < s.len() ==> !is_space(#[trigger] s[k]) && (k > 0 ==> is_digit(s[k])),
        all_digits(s) ==> integer_value(s) == Some(digits_value(s)),
        s.len() == 0 ==> integer_value(s) is None,
{
    if integer_value(s) is Some {
        assert forall|k: int| 0 <= k < s.len() implies !is_space(#[trigger] s[k]) && (k > 0
            ==> is_digit(s[k])) by {
            if s[0] == '-' || s[0] == '+' {
                if k > 0 {
                    assert(s[k] == s.drop_first()[k - 1]);
                }
            }
        }
    }
}

} // verus!
