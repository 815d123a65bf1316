//! Decimal digits of scores: the digit sequence that the score display draws,
//! the text under which the best score is saved, and the reading of that text.
use vstd::prelude::*;

verus! {

/// The decimal digits of `n`, most significant first, without leading zeros
/// (zero is the single digit 0).
pub open spec fn decimal(n: nat) -> Seq<u8>
    decreases n,
{
    if n < 10 {
        seq![n as u8]
    } else {
        decimal(n / 10).push((n % 10) as u8)
    }
}

/// The number that a sequence of decimal digits denotes.
pub open spec fn digits_value(ds: Seq<u8>) -> nat
    decreases ds.len(),
{
    if ds.len() == 0 {
        0
    } else {
        digits_value(ds.drop_last()) * 10 + ds.last() as nat
    }
}

/// The character that shows digit `d`.
pub open spec fn digit_char(d: u8) -> char {
    ((d + 48) as u32) as char
}

/// The characters that show a sequence of digits.
pub open spec fn digit_chars(ds: Seq<u8>) -> Seq<char> {
    ds.map_values(|d: u8| digit_char(d))
}

/// The text of `n` as `u32::to_string` writes it.
pub open spec fn decimal_text(n: nat) -> Seq<char> {
    digit_chars(decimal(n))
}

/// Whether `c` has the Unicode White_Space property, which `char::is_whitespace`
/// and `str::trim` go by.
pub open spec fn is_space(c: char) -> bool {
    let u = c as u32;
    ||| 9 <= u <= 13
    ||| u == 32
    ||| u == 0x85
    ||| u == 0xA0
    ||| u == 0x1680
    ||| 0x2000 <= u <= 0x200A
    ||| u == 0x2028
    ||| u == 0x2029
    ||| u == 0x202F
    ||| u == 0x205F
    ||| u == 0x3000
}

/// `s` without its leading white space.
pub open spec fn trim_start(s: Seq<char>) -> Seq<char>
    decreases s.len(),
{
    if s.len() > 0 && is_space(s[0]) {
        trim_start(s.drop_first())
    } else {
        s
    }
}

/// `s` without its trailing white space.
pub open spec fn trim_end(s: Seq<char>) -> Seq<char>
    decreases s.len(),
{
    if s.len() > 0 && is_space(s.last()) {
        trim_end(s.drop_last())
    } else {
        s
    }
}

/// `s` without white space at either end, as `str::trim` gives it.
pub open spec fn trim(s: Seq<char>) -> Seq<char> {
    trim_end(trim_start(s))
}

/// Whether `c` is one of the ASCII digits `0` to `9`.
pub open spec fn is_digit(c: char) -> bool {
    48 <= c as u32 <= 57
}

/// The number that a sequence of ASCII digit characters denotes.
pub open spec fn chars_value(s: Seq<char>) -> nat
    decreases s.len(),
{
    if s.len() == 0 {
        0
    } else {
        chars_value(s.drop_last()) * 10 + (s.last() as u32 - 48) as nat
    }
}

/// `s` without one leading `+`, the part that must be digits.
pub open spec fn unsigned_part(s: Seq<char>) -> Seq<char> {
    if s.len() > 0 && s[0] == '+' {
        s.drop_first()
    } else {
        s
    }
}

/// Whether `d` is a nonempty run of ASCII digits.
pub open spec fn all_digits(d: Seq<char>) -> bool {
    d.len() > 0 && forall|i: int| 0 <= i < d.len() ==> #[trigger] is_digit(d[i])
}

/// What `str::parse::<u32>` gives for `s`: an optional `+`, then at least one
/// ASCII digit and nothing else, denoting a value that fits in `u32`.
pub open spec fn parse_u32(s: Seq<char>) -> Option<u32> {
    let d = unsigned_part(s);
    if all_digits(d) && chars_value(d) <= u32::MAX {
        Some(chars_value(d) as u32)
    } else {
        None
    }
}

/// The best score read back from the saved text: the trimmed text parsed as
/// a `u32`, and 0 where that fails.
pub open spec fn saved_best(s: Seq<char>) -> u32 {
    match parse_u32(trim(s)) {
        Some(v) => v,
        None => 0,
    }
}

proof fn lemma_decimal_digits(n: nat)
    ensures
        decimal(n).len() > 0,
        forall|i: int| 0 <= i < decimal(n).len() ==> #[trigger] decimal(n)[i] < 10,
        digits_value(decimal(n)) == n,
        n > 0 ==> decimal(n)[0] != 0,
    decreases n,
{
    if n < 10 {
        assert(decimal(n).drop_last() =~= Seq::<u8>::empty());
        assert((n as u8) as nat == n);
        assert(digits_value(decimal(n)) == digits_value(Seq::<u8>::empty()) * 10 + n);
    } else {
        lemma_decimal_digits(n / 10);
        let p = decimal(n / 10);
        assert(decimal(n).drop_last() =~= p);
        assert(n == (n / 10) * 10 + n % 10);
        assert(((n % 10) as u8) as nat == n % 10);
        assert(digits_value(decimal(n)) == digits_value(p) * 10 + n % 10);
        assert forall|i: int| 0 <= i < decimal(n).len() implies #[trigger] decimal(n)[i] < 10 by {
            if i < p.len() {
                assert(decimal(n)[i] == p[i]);
            }
        }
    }
}

proof fn lemma_text_value(ds: Seq<u8>)
    requires
        forall|i: int| 0 <= i < ds.len() ==> #[trigger] ds[i] < 10,
    ensures
        chars_value(digit_chars(ds)) == digits_value(ds),
        forall|i: int|
            0 <= i < ds.len() ==> #[trigger] is_digit(digit_chars(ds)[i]),
    decreases ds.len(),
{
    let t = digit_chars(ds);
    if ds.len() > 0 {
        lemma_text_value(ds.drop_last());
        assert(t.drop_last() =~= digit_chars(ds.drop_last()));
        assert((t.last() as u32) == ds.last() + 48);
        assert forall|i: int| 0 <= i < ds.len() implies #[trigger] is_digit(t[i]) by {
            assert(t[i] as u32 == ds[i] + 48);
        }
    }
}

/// A prefix of spaces is what `trim_start` drops.
proof fn lemma_trim_start_at(s: Seq<char>, i: int)
    requires
        0 <= i <= s.len(),
        forall|k: int| 0 <= k < i ==> is_space(#[trigger] s[k]),
        i == s.len() || !is_space(s[i]),
    ensures
        trim_start(s) == s.subrange(i, s.len() as int),
    decreases i,
{
    if i == 0 {
        assert(s.subrange(0, s.len() as int) =~= s);
    } else {
        let t = s.drop_first();
        assert forall|k: int| 0 <= k < i - 1 implies is_space(#[trigger] t[k]) by {
            assert(t[k] == s[k + 1]);
        }
        lemma_trim_start_at(t, i - 1);
        assert(t.subrange(i - 1, t.len() as int) =~= s.subrange(i, s.len() as int));
    }
}

/// A suffix of spaces is what `trim_end` drops.
proof fn lemma_trim_end_at(s: Seq<char>, j: int)
    requires
        0 <= j <= s.len(),
        forall|k: int| j <= k < s.len() ==> is_space(#[trigger] s[k]),
        j == 0 || !is_space(s[j - 1]),
    ensures
        trim_end(s) == s.subrange(0, j),
    decreases s.len() - j,
{
    if j == s.len() {
        assert(s.subrange(0, j) =~= s);
    } else {
        let t = s.drop_last();
        assert forall|k: int| j <= k < t.len() implies is_space(#[trigger] t[k]) by {
            assert(t[k] == s[k]);
        }
        lemma_trim_end_at(t, j);
        assert(t.subrange(0, j) =~= s.subrange(0, j));
    }
}

proof fn lemma_chars_value_grows(s: Seq<char>, k: int, j: int)
    requires
        0 <= k <= j <= s.len(),
        forall|i: int| 0 <= i < j ==> #[trigger] is_digit(s[i]),
    ensures
        chars_value(s.subrange(0, k)) <= chars_value(s.subrange(0, j)),
    decreases j - k,
{
    if k < j {
        lemma_chars_value_grows(s, k, j - 1);
        assert(s.subrange(0, j).drop_last() =~= s.subrange(0, j - 1));
        assert(is_digit(s[j - 1]));
    }
}

/// Appends the decimal digits of `n` to `out`.
fn push_digits(n: u32, out: &mut Vec<u8>)
    ensures
        final(out)@ == old(out)@ + decimal(n as nat),
    decreases n,
{
    if n >= 10 {
        push_digits(n / 10, out);
    }
    out.push((n % 10) as u8);
    proof {
        if n >= 10 {
            assert(decimal(n as nat) == decimal((n / 10) as nat).push((n % 10) as u8));
        }
    }
    assert(final(out)@ =~= old(out)@ + decimal(n as nat));
}

/// The decimal digits of `n`, most significant first, as the score display
/// draws them (one digit sprite per entry).
pub fn decimal_digits(n: u32) -> (ds: Vec<u8>)
    ensures
        ds@ == decimal(n as nat),
        ds.len() > 0,
        forall|i: int| 0 <= i < ds.len() ==> #[trigger] ds[i] < 10,
        digits_value(ds@) == n,
{
    let mut ds: Vec<u8> = Vec::new();
    push_digits(n, &mut ds);
    proof {
        assert(ds@ =~= decimal(n as nat));
        lemma_decimal_digits(n as nat);
    }
    ds
}

/// The text under which a best score is saved, the characters of
/// `n.to_string()`.
pub fn best_text(n: u32) -> (t: Vec<char>)
    ensures
        t@ == decimal_text(n as nat),
{
    let ds = decimal_digits(n);
    let mut t: Vec<char> = Vec::new();
    let mut i: usize = 0;
    while i < ds.len()
        invariant
            i <= ds.len(),
            ds@ == decimal(n as nat),
            forall|k: int| 0 <= k < ds.len() ==> #[trigger] ds[k] < 10,
            t@ =~= digit_chars(ds@.subrange(0, i as int)),
        decreases ds.len() - i,
    {
        let d = ds[i];
        let code: u32 = (d + 48u8) as u32;
        let c = char_of(code);
        t.push(c);
        i = i + 1;
        assert(t@ =~= digit_chars(ds@.subrange(0, i as int)));
    }
    assert(ds@.subrange(0, ds.len() as int) =~= ds@);
    t
}

/// The character with ASCII code `code`.
fn char_of(code: u32) -> (c: char)
    requires
        code < 128,
    ensures
        c == code as char,
        c as u32 == code,
{
    let b: u8 = code as u8;
    b as char
}

/// Whether `c` is white space, as `char::is_whitespace` says.
pub fn char_is_space(c: char) -> (r: bool)
    ensures
        r == is_space(c),
{
    let u = c as u32;
    (9 <= u && u <= 13) || u == 32 || u == 0x85 || u == 0xA0 || u == 0x1680 || (0x2000 <= u
        && u <= 0x200A) || u == 0x2028 || u == 0x2029 || u == 0x202F || u == 0x205F || u == 0x3000
}

/// Reads a best score from saved text: `text.trim().parse::<u32>()`, and 0
/// where that fails.
pub fn best_from_text(text: &Vec<char>) -> (best: u32)
    ensures
        best == saved_best(text@),
{
    let len = text.len();
    // leading white space
    let mut a: usize = 0;
    while a < len && char_is_space(text[a])
        invariant
            a <= len,
            len == text@.len(),
            forall|k: int| 0 <= k < a ==> is_space(#[trigger] text@[k]),
        decreases len - a,
    {
        a = a + 1;
    }
    proof {
        lemma_trim_start_at(text@, a as int);
    }
    let ghost t0 = text@.subrange(a as int, len as int);
    // trailing white space
    let mut b: usize = len;
    while b > a && char_is_space(text[b - 1])
        invariant
            a <= b <= len,
            len == text@.len(),
            forall|k: int| b <= k < len ==> is_space(#[trigger] text@[k]),
        decreases b - a,
    {
        b = b - 1;
    }
    let ghost t = text@.subrange(a as int, b as int);
    proof {
        assert forall|k: int| b - a <= k < t0.len() implies is_space(#[trigger] t0[k]) by {
            assert(t0[k] == text@[k + a]);
        }
        if b > a {
            assert(t0[b - a - 1] == text@[b - 1]);
        }
        lemma_trim_end_at(t0, b - a);
        assert(t0.subrange(0, b - a) =~= t);
        assert(trim(text@) == t);
    }
    // optional sign
    let mut c: usize = a;
    if c < b && text[c] == '+' {
        c = c + 1;
    }
    let ghost d = text@.subrange(c as int, b as int);
    assert(d == unsigned_part(t)) by {
        if t.len() > 0 && t[0] == '+' {
            assert(t.drop_first() =~= d);
        } else {
            assert(t =~= d);
        }
    }
    if c == b {
        return 0;
    }
    let mut value: u64 = 0;
    let mut i: usize = c;
    while i < b
        invariant
            c <= i <= b <= len,
            len == text@.len(),
            d == text@.subrange(c as int, b as int),
            forall|k: int| c <= k < i ==> is_digit(#[trigger] text@[k]),
            value == chars_value(text@.subrange(c as int, i as int)),
            value <= u32::MAX,
            trim(text@) == t,
            d == unsigned_part(t),
        decreases b - i,
    {
        let u = text[i] as u32;
        if u < 48 || u > 57 {
            proof {
                assert(d[i - c] == text@[i as int]);
                assert(!is_digit(d[i - c]));
            }
            return 0;
        }
        let next: u64 = value * 10 + (u - 48) as u64;
        proof {
            assert(text@.subrange(c as int, i + 1).drop_last() =~= text@.subrange(c as int, i as int));
        }
        if next > 0xffff_ffff {
            proof {
                // every longer prefix is at least as large, so the whole either
                // has a non-digit or does not fit
                if forall|k: int| 0 <= k < d.len() ==> #[trigger] is_digit(d[k]) {
                    lemma_chars_value_grows(d, i + 1 - c, d.len() as int);
                    assert(d.subrange(0, i + 1 - c) =~= text@.subrange(c as int, i + 1));
                    assert(d.subrange(0, d.len() as int) =~= d);
                }
            }
            return 0;
        }
        value = next;
        i = i + 1;
    }
    proof {
        assert(text@.subrange(c as int, b as int) =~= d);
        assert forall|k: int| 0 <= k < d.len() implies #[trigger] is_digit(d[k]) by {
            assert(d[k] == text@[k + c]);
        }
    }
    value as u32
}

/// Reads the best score from the saved file's text, 0 where there is none.
pub fn best_from_saved(saved: Option<Vec<char>>) -> (best: u32)
    ensures
        best == match saved {
            Some(t) => saved_best(t@),
            None => 0,
        },
{
    match saved {
        Some(t) => best_from_text(&t),
        None => 0,
    }
}

/// Law: the text under which a best score is saved reads back as that score.
pub proof fn saved_best_round_trip(n: u32)
    ensures
        saved_best(decimal_text(n as nat)) == n,
{
    let ds = decimal(n as nat);
    let t = decimal_text(n as nat);
    lemma_decimal_digits(n as nat);
    lemma_text_value(ds);
    assert(!is_space(t[0]));
    assert(!is_space(t.last()));
    lemma_trim_start_at(t, 0);
    assert(t.subrange(0, t.len() as int) =~= t);
    lemma_trim_end_at(t, t.len() as int);
    assert(trim(t) == t);
    assert(t[0] != '+');
}

/// Law: white space around the saved text does not change the best score
/// read from it.
pub proof fn saved_best_ignores_spaces(n: u32, before: Seq<char>, after: Seq<char>)
    requires
        forall|i: int| 0 <= i < before.len() ==> is_space(#[trigger] before[i]),
        forall|i: int| 0 <= i < after.len() ==> is_space(#[trigger] after[i]),
    ensures
        saved_best(before + decimal_text(n as nat) + after) == n,
{
    let ds = decimal(n as nat);
    let t = decimal_text(n as nat);
    let s = before + t + after;
    lemma_decimal_digits(n as nat);
    lemma_text_value(ds);
    let i = before.len() as int;
    let j = i + t.len();
    assert forall|k: int| 0 <= k < i implies is_space(#[trigger] s[k]) by {
        assert(s[k] == before[k]);
    }
    assert(s[i] == t[0]);
    lemma_trim_start_at(s, i);
    let s1 = s.subrange(i, s.len() as int);
    assert forall|k: int| t.len() <= k < s1.len() implies is_space(#[trigger] s1[k]) by {
        assert(s1[k] == after[k - t.len()]);
    }
    assert(s1[t.len() - 1] == t.last());
    lemma_trim_end_at(s1, t.len() as int);
    assert(s1.subrange(0, t.len() as int) =~= t);
    assert(trim(s) == t);
    saved_best_round_trip(n);
}

} // verus!
