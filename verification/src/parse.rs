use vstd::prelude::*;
use vstd::string::StrSliceExecFns;
use crate::decimal::{decimal_of, lemma_pow10_9, lemma_pow10_grows, checked_pow10, pow10, Decimal, SCALE};

verus! {

/// The value of a decimal digit.
pub open spec fn digit_value(c: char) -> Option<int> {
    if '0' <= c <= '9' {
        Some(c as int - '0' as int)
    } else {
        None
    }
}

/// Whether a text holds decimal digits only.
pub open spec fn all_digits(s: Seq<char>) -> bool {
    forall|i: int| 0 <= i < s.len() ==> digit_value(#[trigger] s[i]) is Some
}

/// The number that a run of decimal digits writes.
pub open spec fn digits_value(s: Seq<char>) -> int
    decreases s.len(),
{
    if s.len() == 0 {
        0
    } else {
        10 * digits_value(s.drop_last()) + digit_value(s.last())->0
    }
}

/// The place of the first point in a text, and the text's length where it
/// has none.
pub open spec fn first_dot(s: Seq<char>) -> int
    decreases s.len(),
{
    if s.len() == 0 {
        0
    } else {
        let before = first_dot(s.drop_last());
        if before < s.len() - 1 {
            before
        } else if s.last() == '.' {
            s.len() - 1
        } else {
            s.len() as int
        }
    }
}

/// The billionths that the digits after the point write: the first nine
/// digits count, and missing ones are zeros.
pub open spec fn fraction_value(s: Seq<char>) -> int {
    if s.len() >= 9 {
        digits_value(s.take(9))
    } else {
        digits_value(s) * pow10((9 - s.len()) as nat)
    }
}

/// The billionths that an unsigned decimal number writes: digits, and
/// optionally a point and more digits, with a digit on at least one side.
pub open spec fn magnitude(body: Seq<char>) -> Option<int> {
    let dot = first_dot(body);
    let whole = body.take(dot);
    let fraction = if dot < body.len() {
        body.skip(dot + 1)
    } else {
        Seq::empty()
    };
    if all_digits(whole) && all_digits(fraction) && whole.len() + fraction.len() > 0 {
        Some(digits_value(whole) * SCALE + fraction_value(fraction))
    } else {
        None
    }
}

/// The number that a text writes in decimal notation, with an optional sign
/// in front. Digits after the ninth behind the point are dropped. A text in
/// any other form writes no number, and neither does one whose number cannot
/// be held.
pub open spec fn decimal_text(s: Seq<char>) -> Option<Decimal> {
    if s.len() > 0 && s[0] == '-' {
        match magnitude(s.skip(1)) {
            Some(m) => decimal_of(-m),
            None => None,
        }
    } else if s.len() > 0 && s[0] == '+' {
        match magnitude(s.skip(1)) {
            Some(m) => decimal_of(m),
            None => None,
        }
    } else {
        match magnitude(s) {
            Some(m) => decimal_of(m),
            None => None,
        }
    }
}

/// The first point stands where `first_dot` says, and no point before it.
pub proof fn lemma_first_dot(s: Seq<char>)
    ensures
        0 <= first_dot(s) <= s.len(),
        forall|j: int| 0 <= j < first_dot(s) ==> s[j] != '.',
        first_dot(s) < s.len() ==> s[first_dot(s)] == '.',
    decreases s.len(),
{
    if s.len() > 0 {
        lemma_first_dot(s.drop_last());
        assert(forall|j: int| 0 <= j < s.len() - 1 ==> s.drop_last()[j] == s[j]);
    }
}

/// A place with a point, or the end of the text, before which there is no
/// point, is where `first_dot` points.
pub proof fn lemma_first_dot_is(s: Seq<char>, k: int)
    requires
        0 <= k <= s.len(),
        forall|j: int| 0 <= j < k ==> s[j] != '.',
        k < s.len() ==> s[k] == '.',
    ensures
        first_dot(s) == k,
{
    lemma_first_dot(s);
}

/// The smaller of a number and the bound beyond which no whole part fits.
pub open spec fn capped(v: int) -> int {
    if v < WHOLE_CAP {
        v
    } else {
        WHOLE_CAP as int
    }
}

/// A whole part of this size or more cannot be held.
pub const WHOLE_CAP: u128 = 200_000_000_000_000_000_000_000_000_000;

/// The value of the byte as a decimal digit.
fn digit_of_byte(b: u8) -> (d: Option<u8>)
    ensures
        match d {
            Some(d) => digit_value(b as char) == Some(d as int),
            None => digit_value(b as char) is None,
        },
{
    if b >= 48 && b <= 57 {
        Some(b - 48)
    } else {
        None
    }
}

/// The length of a text of plain characters.
fn plain_len(text: &str) -> (n: usize)
    requires
        text.is_ascii(),
    ensures
        n == text@.len(),
{
    text.unicode_len()
}

/// Reads the digits from `start` up to the first point or the end of the
/// text: hands out where they end and what they write, capped, or `None`
/// where something else than a digit stands among them.
fn whole_part(text: &str, start: usize) -> (r: Option<(usize, u128)>)
    requires
        text.is_ascii(),
        start <= text@.len(),
    ensures
        ({
            let body = text@.skip(start as int);
            let dot = first_dot(body);
            match r {
                Some((end, whole)) => {
                    &&& end == start + dot
                    &&& all_digits(body.take(dot))
                    &&& whole == capped(digits_value(body.take(dot)))
                },
                None => !all_digits(body.take(dot)),
            }
        }),
{
    let ghost body = text@.skip(start as int);
    let n = plain_len(text);
    let mut i: usize = start;
    let mut whole: u128 = 0;
    assert(body.take(0) =~= Seq::empty());
    while i < n
        invariant
            start <= i <= n,
            n == text@.len(),
            text.is_ascii(),
            body == text@.skip(start as int),
            forall|j: int| 0 <= j < i - start ==> body[j] != '.',
            all_digits(body.take(i - start)),
            whole == capped(digits_value(body.take(i - start))),
        decreases n - i,
    {
        let b = text.get_ascii(i);
        let ghost k = i - start;
        assert(body[k] == text@[i as int]);
        assert(b as char == body[k]);
        if b == 46 {
            proof {
                lemma_first_dot_is(body, k);
            }
            return Some((i, whole));
        }
        match digit_of_byte(b) {
            Some(d) => {
                proof {
                    assert(body.take(k + 1).drop_last() =~= body.take(k));
                    assert(body.take(k + 1).last() == body[k]);
                    assert forall|j: int| 0 <= j < k + 1 implies digit_value(
                        #[trigger] body.take(k + 1)[j],
                    ) is Some by {
                        if j < k {
                            assert(body.take(k)[j] == body[j]);
                        }
                    }
                }
                let next: u128 = whole * 10 + d as u128;
                whole = if next < WHOLE_CAP {
                    next
                } else {
                    WHOLE_CAP
                };
                i = i + 1;
            },
            None => {
                proof {
                    lemma_first_dot(body);
                    let dot = first_dot(body);
                    assert(dot > k) by {
                        if dot <= k {
                            assert(body[dot] == '.');
                        }
                    }
                    assert(body.take(dot)[k] == body[k]);
                }
                return None;
            },
        }
    }
    proof {
        lemma_first_dot_is(body, i - start);
    }
    Some((i, whole))
}

/// Reads the digits from `from` to the end of the text: hands out how many
/// there are and the billionths that they write, or `None` where something
/// else than a digit stands among them.
fn fraction_part(text: &str, from: usize) -> (r: Option<(usize, u128)>)
    requires
        text.is_ascii(),
        from <= text@.len(),
    ensures
        ({
            let fraction = text@.skip(from as int);
            match r {
                Some((count, value)) => {
                    &&& all_digits(fraction)
                    &&& count == fraction.len()
                    &&& value == fraction_value(fraction)
                    &&& value < 1_000_000_000
                },
                None => !all_digits(fraction),
            }
        }),
{
    let ghost fraction = text@.skip(from as int);
    let n = plain_len(text);
    let mut j: usize = from;
    let mut taken: u8 = 0;
    let mut frac: u128 = 0;
    assert(fraction.take(0) =~= Seq::empty());
    proof {
        lemma_pow10_9();
    }
    while j < n
        invariant
            from <= j <= n,
            n == text@.len(),
            text.is_ascii(),
            fraction == text@.skip(from as int),
            taken == (if j - from < 9 { j - from } else { 9 }),
            all_digits(fraction.take(j - from)),
            frac == digits_value(fraction.take(taken as int)),
            frac < pow10(taken as nat),
            pow10(9) == 1_000_000_000,
        decreases n - j,
    {
        let b = text.get_ascii(j);
        let ghost m = j - from;
        assert(fraction[m] == text@[j as int]);
        assert(b as char == fraction[m]);
        match digit_of_byte(b) {
            Some(d) => {
                proof {
                    assert forall|q: int| 0 <= q < m + 1 implies digit_value(
                        #[trigger] fraction.take(m + 1)[q],
                    ) is Some by {
                        if q < m {
                            assert(fraction.take(m)[q] == fraction[q]);
                        }
                    }
                }
                if taken < 9 {
                    proof {
                        assert(fraction.take(m + 1).drop_last() =~= fraction.take(m));
                        assert(fraction.take(m + 1).last() == fraction[m]);
                        lemma_pow10_grows((taken + 1) as nat, 9);
                        assert(pow10((taken + 1) as nat) == 10 * pow10(taken as nat));
                    }
                    frac = frac * 10 + d as u128;
                    taken = taken + 1;
                }
                j = j + 1;
            },
            None => {
                return None;
            },
        }
    }
    assert(fraction.take(j - from) =~= fraction);
    let count: usize = j - from;
    if taken == 9 {
        return Some((count, frac));
    }
    assert(fraction.take(taken as int) =~= fraction);
    proof {
        lemma_pow10_grows((9 - taken) as nat, 9);
        lemma_pow10_grows(taken as nat, 9);
        crate::decimal::lemma_pow10_adds(taken as nat, (9 - taken) as nat);
        assert(frac * pow10((9 - taken) as nat) < pow10(taken as nat) * pow10((9 - taken) as nat))
            by (nonlinear_arith)
            requires
                0 <= frac < pow10(taken as nat),
                pow10((9 - taken) as nat) >= 1,
        ;
    }
    match checked_pow10(9 - taken) {
        Some(factor) => Some((count, frac * factor)),
        None => Some((count, 0)),
    }
}

/// A text with a character beyond the plain ones writes no number.
pub proof fn lemma_not_plain_is_no_number(s: Seq<char>)
    requires
        !vstd::utf8::is_ascii_chars(s),
    ensures
        decimal_text(s) is None,
{
    let start_is_sign = s.len() > 0 && (s[0] == '-' || s[0] == '+');
    let body = if start_is_sign {
        s.skip(1)
    } else {
        s
    };
    lemma_first_dot(body);
    let i = choose|i: int| 0 <= i < s.len() && !('\0' <= #[trigger] s[i] <= '\u{7f}');
    let p = if start_is_sign {
        i - 1
    } else {
        i
    };
    assert(body[p] == s[i]);
    let dot = first_dot(body);
    if p < dot {
        assert(body.take(dot)[p] == body[p]);
    } else {
        assert(p > dot);
        assert(body.skip(dot + 1)[p - dot - 1] == body[p]);
    }
    assert(magnitude(body) is None);
}

/// Reads an unsigned decimal number from `start` to the end of the text:
/// hands out its billionths, or `None` where the text writes none or writes
/// more than `WHOLE_CAP` units.
fn unsigned_part(text: &str, start: usize) -> (r: Option<u128>)
    requires
        text.is_ascii(),
        start <= text@.len(),
    ensures
        match r {
            Some(total) => magnitude(text@.skip(start as int)) == Some(total as int),
            None => match magnitude(text@.skip(start as int)) {
                Some(m) => m >= WHOLE_CAP * SCALE,
                None => true,
            },
        },
{
    let ghost s = text@;
    let ghost body = s.skip(start as int);
    let n = plain_len(text);
    let (end, whole) = match whole_part(text, start) {
        Some(found) => found,
        None => {
            return None;
        },
    };
    let ghost dot = end - start;
    proof {
        lemma_first_dot(body);
    }
    let (count, filled) = if end < n {
        assert(body.skip(dot + 1) =~= s.skip(end + 1));
        match fraction_part(text, end + 1) {
            Some(found) => found,
            None => {
                return None;
            },
        }
    } else {
        proof {
            assert(all_digits(Seq::<char>::empty()));
            lemma_pow10_9();
            assert(digits_value(Seq::<char>::empty()) == 0);
            assert(0 * pow10(9) == 0);
        }
        (0, 0)
    };
    if end - start + count == 0 {
        return None;
    }
    if whole >= WHOLE_CAP {
        proof {
            assert(digits_value(body.take(dot)) * SCALE >= WHOLE_CAP * SCALE) by (nonlinear_arith)
                requires
                    digits_value(body.take(dot)) >= WHOLE_CAP,
            ;
        }
        return None;
    }
    proof {
        assert(whole * 1_000_000_000 <= (WHOLE_CAP - 1) * 1_000_000_000) by (nonlinear_arith)
            requires
                whole < WHOLE_CAP,
        ;
    }
    let total: u128 = whole * 1_000_000_000 + filled;
    Some(total)
}

impl Decimal {
    /// The number that a text writes in decimal notation.
    pub fn parse(text: &str) -> (r: Option<Decimal>)
        ensures
            r == decimal_text(text@),
    {
        let ghost s = text@;
        if !text.is_ascii() {
            proof {
                lemma_not_plain_is_no_number(s);
            }
            return None;
        }
        let n = plain_len(text);
        let mut start: usize = 0;
        let mut negative = false;
        if n > 0 {
            let first = text.get_ascii(0);
            assert(first as char == s[0]);
            if first == 45 {
                start = 1;
                negative = true;
            } else if first == 43 {
                start = 1;
            }
        }
        assert(start == 0 ==> s.skip(0) =~= s);
        let total = match unsigned_part(text, start) {
            Some(total) => total,
            None => {
                return None;
            },
        };
        if negative {
            if total <= i128::MAX as u128 {
                Some(Decimal { raw: -(total as i128) })
            } else if total == i128::MAX as u128 + 1 {
                Some(Decimal { raw: i128::MIN })
            } else {
                None
            }
        } else {
            if total <= i128::MAX as u128 {
                Some(Decimal { raw: total as i128 })
            } else {
                None
            }
        }
    }
}

} // verus!
