//! Character-level text operations on which the request URLs, the stored
//! API key and the progress lines are built.
use vstd::prelude::*;
use vstd::string::StringExecFns;
use vstd::string::StrSliceExecFns;

verus! {

/// Whether `c` has the Unicode `White_Space` property (the set that
/// `str::trim` strips).
pub open spec fn is_white_space(c: char) -> bool {
    ||| ('\u{9}' <= c && c <= '\u{d}')
    ||| c == ' '
    ||| c == '\u{85}'
    ||| c == '\u{a0}'
    ||| c == '\u{1680}'
    ||| ('\u{2000}' <= c && c <= '\u{200a}')
    ||| c == '\u{2028}'
    ||| c == '\u{2029}'
    ||| c == '\u{202f}'
    ||| c == '\u{205f}'
    ||| c == '\u{3000}'
}

/// Decides `is_white_space`.
pub fn white_space(c: char) -> (res: bool)
    ensures
        res == is_white_space(c),
{
    ('\u{9}' <= c && c <= '\u{d}') || c == ' ' || c == '\u{85}' || c == '\u{a0}' || c
        == '\u{1680}' || ('\u{2000}' <= c && c <= '\u{200a}') || c == '\u{2028}' || c
        == '\u{2029}' || c == '\u{202f}' || c == '\u{205f}' || c == '\u{3000}'
}

/// `s` without its leading white space.
pub open spec fn trim_start(s: Seq<char>) -> Seq<char>
    decreases s.len(),
{
    if s.len() > 0 && is_white_space(s[0]) {
        trim_start(s.drop_first())
    } else {
        s
    }
}

/// `s` without its trailing white space.
pub open spec fn trim_end(s: Seq<char>) -> Seq<char>
    decreases s.len(),
{
    if s.len() > 0 && is_white_space(s.last()) {
        trim_end(s.drop_last())
    } else {
        s
    }
}

/// `s` without leading and trailing white space.
pub open spec fn trim(s: Seq<char>) -> Seq<char> {
    trim_end(trim_start(s))
}

/// Whether every character of `s` is white space.
pub open spec fn all_white_space(s: Seq<char>) -> bool {
    forall|i: int| 0 <= i < s.len() ==> is_white_space(#[trigger] s[i])
}

/// Removes leading and trailing white space.
pub fn trim_text(s: &str) -> (res: String)
    ensures
        res@ == trim(s@),
{
    let len = s.unicode_len();
    let mut i: usize = 0;
    assert(s@.subrange(0, len as int) =~= s@);
    while i < len && white_space(s.get_char(i))
        invariant
            i <= len,
            len == s@.len(),
            trim_start(s@) == trim_start(s@.subrange(i as int, len as int)),
        decreases len - i,
    {
        proof {
            let t = s@.subrange(i as int, len as int);
            assert(t[0] == s@[i as int]);
            assert(t.drop_first() =~= s@.subrange(i + 1, len as int));
        }
        i += 1;
    }
    proof {
        let t = s@.subrange(i as int, len as int);
        if i < len {
            assert(t[0] == s@[i as int]);
        }
    }
    let mut j: usize = len;
    while j > i && white_space(s.get_char(j - 1))
        invariant
            i <= j <= len,
            len == s@.len(),
            trim_start(s@) == s@.subrange(i as int, len as int),
            trim_end(s@.subrange(i as int, len as int)) == trim_end(
                s@.subrange(i as int, j as int),
            ),
        decreases j - i,
    {
        proof {
            let t = s@.subrange(i as int, j as int);
            assert(t.last() == s@[j - 1]);
            assert(t.drop_last() =~= s@.subrange(i as int, j - 1));
        }
        j -= 1;
    }
    proof {
        let t = s@.subrange(i as int, j as int);
        if j > i {
            assert(t.last() == s@[j - 1]);
        }
    }
    let kept = s.substring_char(i, j);
    String::from_str(kept)
}

/// If `s` starts with a character that is not white space, nothing is
/// stripped from its start.
proof fn lemma_trim_start_fixed(s: Seq<char>)
    requires
        s.len() == 0 || !is_white_space(s[0]),
    ensures
        trim_start(s) == s,
{
}

/// If `s` ends with a character that is not white space, nothing is
/// stripped from its end.
proof fn lemma_trim_end_fixed(s: Seq<char>)
    requires
        s.len() == 0 || !is_white_space(s.last()),
    ensures
        trim_end(s) == s,
{
}

/// `trim_start(s)` is a suffix of `s` and starts with a character that is not
/// white space, or is empty.
proof fn lemma_trim_start_shape(s: Seq<char>)
    ensures
        trim_start(s).len() <= s.len(),
        trim_start(s) == s.subrange(s.len() - trim_start(s).len(), s.len() as int),
        trim_start(s).len() == 0 || !is_white_space(trim_start(s)[0]),
        forall|i: int|
            0 <= i < s.len() - trim_start(s).len() ==> is_white_space(#[trigger] s[i]),
    decreases s.len(),
{
    if s.len() > 0 && is_white_space(s[0]) {
        lemma_trim_start_shape(s.drop_first());
        assert(s.drop_first().subrange(
            s.drop_first().len() - trim_start(s).len(),
            s.drop_first().len() as int,
        ) =~= s.subrange(s.len() - trim_start(s).len(), s.len() as int));
        assert forall|i: int| 0 <= i < s.len() - trim_start(s).len() implies is_white_space(
            #[trigger] s[i],
        ) by {
            if i > 0 {
                assert(s[i] == s.drop_first()[i - 1]);
            }
        }
    } else {
        assert(s.subrange(0, s.len() as int) =~= s);
    }
}

/// `trim_end(s)` is a prefix of `s` and ends with a character that is not
/// white space, or is empty.
proof fn lemma_trim_end_shape(s: Seq<char>)
    ensures
        trim_end(s).len() <= s.len(),
        trim_end(s) == s.subrange(0, trim_end(s).len() as int),
        trim_end(s).len() == 0 || !is_white_space(trim_end(s).last()),
        forall|i: int| trim_end(s).len() <= i < s.len() ==> is_white_space(#[trigger] s[i]),
    decreases s.len(),
{
    if s.len() > 0 && is_white_space(s.last()) {
        lemma_trim_end_shape(s.drop_last());
        assert(s.drop_last().subrange(0, trim_end(s).len() as int) =~= s.subrange(
            0,
            trim_end(s).len() as int,
        ));
        assert forall|i: int| trim_end(s).len() <= i < s.len() implies is_white_space(
            #[trigger] s[i],
        ) by {
            if i < s.len() - 1 {
                assert(s[i] == s.drop_last()[i]);
            }
        }
    } else {
        assert(s.subrange(0, s.len() as int) =~= s);
    }
}

/// Trimming twice is trimming once: a trimmed text neither starts nor ends
/// with white space.
pub proof fn trim_is_idempotent(s: Seq<char>)
    ensures
        trim(trim(s)) == trim(s),
        trim(s).len() == 0 || (!is_white_space(trim(s)[0]) && !is_white_space(
            trim(s).last(),
        )),
{
    let a = trim_start(s);
    let b = trim_end(a);
    lemma_trim_start_shape(s);
    lemma_trim_end_shape(a);
    if b.len() > 0 {
        assert(b[0] == a[0]);
    }
    lemma_trim_start_fixed(b);
    lemma_trim_end_fixed(b);
}

/// A text trims to nothing exactly when it is all white space.
pub proof fn trim_is_empty_iff_blank(s: Seq<char>)
    ensures
        (trim(s).len() == 0) == all_white_space(s),
{
    let a = trim_start(s);
    lemma_trim_start_shape(s);
    lemma_trim_end_shape(a);
    if trim(s).len() == 0 {
        assert forall|i: int| 0 <= i < s.len() implies is_white_space(#[trigger] s[i]) by {
            let k = s.len() - a.len();
            if i >= k {
                assert(s[i] == a[i - k]);
            }
        }
    }
    if all_white_space(s) && trim(s).len() > 0 {
        let k = s.len() - a.len();
        assert(a[0] == s[k]);
        assert(trim(s)[0] == a[0]);
    }
}

/// `trim(s)` is the slice `s[i..j]` of `s` where everything before `i` and
/// from `j` on is white space, and the slice, unless empty, starts and ends
/// with a character that is not: every character between the first and the
/// last non-white-space one is kept, whatever the length.
pub proof fn trim_is_slice(s: Seq<char>) -> (bounds: (int, int))
    ensures
        0 <= bounds.0 <= bounds.1 <= s.len(),
        trim(s) == s.subrange(bounds.0, bounds.1),
        trim(s).len() == bounds.1 - bounds.0,
        forall|k: int| 0 <= k < bounds.0 ==> is_white_space(#[trigger] s[k]),
        forall|k: int| bounds.1 <= k < s.len() ==> is_white_space(#[trigger] s[k]),
        bounds.0 < bounds.1 ==> !is_white_space(s[bounds.0]) && !is_white_space(
            s[bounds.1 - 1],
        ),
{
    let a = trim_start(s);
    let b = trim_end(a);
    lemma_trim_start_shape(s);
    lemma_trim_end_shape(a);
    let i = s.len() - a.len();
    let j = i + b.len();
    assert(b =~= s.subrange(i, j));
    assert forall|k: int| j <= k < s.len() implies is_white_space(#[trigger] s[k]) by {
        assert(s[k] == a[k - i]);
    }
    if i < j {
        assert(b[0] == a[0]);
        assert(s[i] == b[0]);
        assert(s[j - 1] == b.last());
    }
    (i, j)
}

/// The character of the digit `d`.
pub open spec fn digit_char(d: nat) -> char {
    if d == 0 {
        '0'
    } else if d == 1 {
        '1'
    } else if d == 2 {
        '2'
    } else if d == 3 {
        '3'
    } else if d == 4 {
        '4'
    } else if d == 5 {
        '5'
    } else if d == 6 {
        '6'
    } else if d == 7 {
        '7'
    } else if d == 8 {
        '8'
    } else {
        '9'
    }
}

/// The decimal numeral of `n`, without sign or leading zeros.
pub open spec fn decimal(n: nat) -> Seq<char>
    decreases n,
{
    if n < 10 {
        seq![digit_char(n)]
    } else {
        decimal(n / 10) + seq![digit_char(n % 10)]
    }
}

/// The one-character text of the digit `d`.
fn digit_text(d: u64) -> (s: &'static str)
    requires
        d < 10,
    ensures
        s@ == seq![digit_char(d as nat)],
{
    proof {
        reveal_strlit("0");
        reveal_strlit("1");
        reveal_strlit("2");
        reveal_strlit("3");
        reveal_strlit("4");
        reveal_strlit("5");
        reveal_strlit("6");
        reveal_strlit("7");
        reveal_strlit("8");
        reveal_strlit("9");
    }
    if d == 0 {
        "0"
    } else if d == 1 {
        "1"
    } else if d == 2 {
        "2"
    } else if d == 3 {
        "3"
    } else if d == 4 {
        "4"
    } else if d == 5 {
        "5"
    } else if d == 6 {
        "6"
    } else if d == 7 {
        "7"
    } else if d == 8 {
        "8"
    } else {
        "9"
    }
}

/// Writes `n` in decimal, as `{}` formats an unsigned integer.
pub fn decimal_text(n: u64) -> (s: String)
    ensures
        s@ == decimal(n as nat),
    decreases n,
{
    if n < 10 {
        String::from_str(digit_text(n))
    } else {
        let mut s = decimal_text(n / 10);
        s.append(digit_text(n % 10));
        s
    }
}

/// A numeral has at least one digit, and at least two from ten on.
proof fn lemma_decimal_len(n: nat)
    ensures
        decimal(n).len() >= 1,
        n >= 10 ==> decimal(n).len() >= 2,
    decreases n,
{
    if n >= 10 {
        lemma_decimal_len(n / 10);
    }
}

/// Distinct digits have distinct characters.
proof fn lemma_digit_char_injective(x: nat, y: nat)
    requires
        x < 10,
        y < 10,
        digit_char(x) == digit_char(y),
    ensures
        x == y,
{
}

/// Distinct numbers have distinct numerals.
pub proof fn decimal_is_injective(a: nat, b: nat)
    requires
        decimal(a) == decimal(b),
    ensures
        a == b,
    decreases a,
{
    lemma_decimal_len(a);
    lemma_decimal_len(b);
    if a >= 10 && b >= 10 {
        let da = decimal(a);
        let db = decimal(b);
        assert(da.last() == digit_char(a % 10));
        assert(db.last() == digit_char(b % 10));
        assert(da.drop_last() =~= decimal(a / 10));
        assert(db.drop_last() =~= decimal(b / 10));
        lemma_digit_char_injective(a % 10, b % 10);
        decimal_is_injective(a / 10, b / 10);
    } else if a < 10 && b < 10 {
        assert(decimal(a) == seq![digit_char(a)]);
        assert(decimal(b) == seq![digit_char(b)]);
        assert(seq![digit_char(a)][0] == digit_char(a));
        assert(seq![digit_char(b)][0] == digit_char(b));
        assert(decimal(a)[0] == decimal(b)[0]);
        lemma_digit_char_injective(a, b);
    }
}

/// Whether `c` is one of the digits `0` to `9`.
pub open spec fn is_digit(c: char) -> bool {
    '0' <= c && c <= '9'
}

/// The number a text of digits reads as, most significant digit first.
pub open spec fn digits_value(s: Seq<char>) -> int
    decreases s.len(),
{
    if s.len() == 0 {
        0
    } else {
        digits_value(s.drop_last()) * 10 + (s.last() as int - '0' as int)
    }
}

/// The character of a digit reads back as the digit.
proof fn lemma_digit_char_value(d: nat)
    requires
        d < 10,
    ensures
        is_digit(digit_char(d)),
        digit_char(d) as int - '0' as int == d,
        d != 0 ==> digit_char(d) != '0',
{
    assert('0' as int == 48);
    assert('1' as int == 49);
    assert('2' as int == 50);
    assert('3' as int == 51);
    assert('4' as int == 52);
    assert('5' as int == 53);
    assert('6' as int == 54);
    assert('7' as int == 55);
    assert('8' as int == 56);
    assert('9' as int == 57);
}

/// The numeral of `n` is made of digits, has no leading zero, and reads
/// back as `n`: it is `n` as `{}` writes it.
pub proof fn decimal_reads_back(n: nat)
    ensures
        decimal(n).len() >= 1,
        forall|i: int| 0 <= i < decimal(n).len() ==> is_digit(#[trigger] decimal(n)[i]),
        decimal(n).len() == 1 || decimal(n)[0] != '0',
        digits_value(decimal(n)) == n,
    decreases n,
{
    let d = decimal(n);
    if n < 10 {
        lemma_digit_char_value(n);
        assert(d == seq![digit_char(n)]);
        assert(d.drop_last() =~= Seq::<char>::empty());
        assert(d.last() == digit_char(n));
        assert(digits_value(d.drop_last()) == 0);
        assert(digits_value(d) == digits_value(d.drop_last()) * 10 + (d.last() as int - '0' as int));
    } else {
        decimal_reads_back(n / 10);
        lemma_decimal_len(n / 10);
        lemma_digit_char_value(n % 10);
        let h = decimal(n / 10);
        assert(d == h + seq![digit_char(n % 10)]);
        assert(d.drop_last() =~= h);
        assert(d.last() == digit_char(n % 10));
        assert(digits_value(d) == digits_value(d.drop_last()) * 10 + (d.last() as int - '0' as int));
        assert(digits_value(d) == (n / 10) * 10 + n % 10);
        assert(d[0] == h[0]);
        assert forall|i: int| 0 <= i < d.len() implies is_digit(#[trigger] d[i]) by {
            if i < h.len() {
                assert(d[i] == h[i]);
            }
        }
        if h.len() == 1 {
            lemma_digit_char_value(n / 10);
            assert(h == seq![digit_char(n / 10)]);
            assert(h[0] == digit_char(n / 10));
        }
    }
}

/// `s` right-aligned in a field of `width` characters, as `{: >width}`
/// formats it: padded on the left with spaces when it is shorter.
pub open spec fn padded(s: Seq<char>, width: nat) -> Seq<char> {
    if s.len() < width {
        Seq::new((width - s.len()) as nat, |i: int| ' ') + s
    } else {
        s
    }
}

/// Right-aligns `s` in a field of `width` characters.
pub fn pad_left(s: &str, width: usize) -> (res: String)
    ensures
        res@ == padded(s@, width as nat),
{
    proof {
        reveal_strlit(" ");
    }
    let len = s.unicode_len();
    let mut res = String::new();
    let mut k: usize = len;
    while k < width
        invariant
            len == s@.len(),
            len <= k <= width || (k == len && len >= width),
            res@ =~= Seq::new((k - len) as nat, |i: int| ' '),
        decreases width - k,
    {
        proof {
            reveal_strlit(" ");
        }
        res.append(" ");
        k += 1;
    }
    res.append(s);
    res
}

/// A padded field is as wide as asked, or as the text when that is wider;
/// the text stands at its right end, after nothing but spaces.
pub proof fn padded_is_right_aligned(s: Seq<char>, width: nat)
    ensures
        padded(s, width).len() == (if s.len() < width {
            width
        } else {
            s.len()
        }),
        padded(s, width).subrange(
            padded(s, width).len() - s.len(),
            padded(s, width).len() as int,
        ) == s,
        forall|i: int|
            0 <= i < padded(s, width).len() - s.len() ==> #[trigger] padded(s, width)[i] == ' ',
{
    let p = padded(s, width);
    assert(p.subrange(p.len() - s.len(), p.len() as int) =~= s);
}

/// Whether `s` begins with `p`.
pub open spec fn has_prefix(s: Seq<char>, p: Seq<char>) -> bool {
    p.len() <= s.len() && s.subrange(0, p.len() as int) == p
}

/// Decides `has_prefix`, as `str::starts_with` does for a text pattern.
pub fn starts_with(s: &str, p: &str) -> (res: bool)
    ensures
        res == has_prefix(s@, p@),
{
    let n = s.unicode_len();
    let m = p.unicode_len();
    if m > n {
        return false;
    }
    let mut i: usize = 0;
    while i < m
        invariant
            n == s@.len(),
            m == p@.len(),
            m <= n,
            i <= m,
            forall|k: int| 0 <= k < i ==> s@[k] == p@[k],
        decreases m - i,
    {
        if s.get_char(i) != p.get_char(i) {
            assert(s@.subrange(0, m as int)[i as int] != p@[i as int]);
            return false;
        }
        i += 1;
    }
    assert(s@.subrange(0, m as int) =~= p@);
    true
}

/// Whether `s` is exactly `t`.
pub fn same_text(s: &str, t: &str) -> (res: bool)
    ensures
        res == (s@ == t@),
{
    let n = s.unicode_len();
    let m = t.unicode_len();
    if n != m {
        return false;
    }
    let mut i: usize = 0;
    while i < n
        invariant
            n == s@.len(),
            m == t@.len(),
            n == m,
            i <= n,
            forall|k: int| 0 <= k < i ==> s@[k] == t@[k],
        decreases n - i,
    {
        if s.get_char(i) != t.get_char(i) {
            return false;
        }
        i += 1;
    }
    assert(s@ =~= t@);
    true
}

} // verus!
