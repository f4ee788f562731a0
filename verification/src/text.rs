//! Decimal text: rendering integers and tenths-of-a-unit readings as text,
//! and parsing the decimal text of a telemetry number into tenths.
//!
//! Telemetry readings (temperatures) are carried as signed tenths of a unit,
//! so `723` stands for a reading of `72.3`.

use vstd::prelude::*;

verus! {

/// The decimal digit character for `d` (meaningful for `0 <= d <= 9`).
pub open spec fn digit_char(d: int) -> char {
    if d == 0 {
        '0'
    } else if d == 1 {
        '1'
    } else if d == 2 {
        '2'
    } else if d == 3 {
        '3'
    } else if d == 4 {
        '4'
    } else if d == 5 {
        '5'
    } else if d == 6 {
        '6'
    } else if d == 7 {
        '7'
    } else if d == 8 {
        '8'
    } else {
        '9'
    }
}

/// The decimal text of a non-negative number, most significant digit first,
/// without leading zeroes (except for the single digit of zero itself).
pub open spec fn dec_digits(n: nat) -> Seq<char>
    decreases n,
{
    if n < 10 {
        seq![digit_char(n as int)]
    } else {
        dec_digits(n / 10).push(digit_char((n % 10) as int))
    }
}

fn digit_str(d: u64) -> (s: &'static str)
    requires
        d < 10,
    ensures
        s@ == seq![digit_char(d as int)],
{
    let s: &'static str = match d {
        0 => "0",
        1 => "1",
        2 => "2",
        3 => "3",
        4 => "4",
        5 => "5",
        6 => "6",
        7 => "7",
        8 => "8",
        _ => "9",
    };
    proof {
        reveal_strlit("0");
        reveal_strlit("1");
        reveal_strlit("2");
        reveal_strlit("3");
        reveal_strlit("4");
        reveal_strlit("5");
        reveal_strlit("6");
        reveal_strlit("7");
        reveal_strlit("8");
        reveal_strlit("9");
        assert(s@ =~= seq![digit_char(d as int)]);
    }
    s
}

/// Renders a non-negative number in decimal.
pub fn u64_text(n: u64) -> (s: String)
    ensures
        s@ == dec_digits(n as nat),
    decreases n,
{
    if n < 10 {
        String::from_str(digit_str(n))
    } else {
        let mut s = u64_text(n / 10);
        s.append(digit_str(n % 10));
        proof {
            assert(s@ =~= dec_digits(n as nat));
        }
        s
    }
}

/// The decimal text of a signed number: a minus sign for negative values,
/// then the digits of the magnitude.
pub open spec fn signed_dec(v: int) -> Seq<char> {
    if v >= 0 {
        dec_digits(v as nat)
    } else {
        seq!['-'] + dec_digits((-v) as nat)
    }
}

/// The magnitude of a tenths reading rounded to the nearest whole unit,
/// with ties going to the even unit.
pub open spec fn round_mag_tenths(m: int) -> int {
    let q = m / 10;
    let d = m % 10;
    if d < 5 {
        q
    } else if d > 5 {
        q + 1
    } else if q % 2 == 0 {
        q
    } else {
        q + 1
    }
}

/// A tenths reading rounded to the nearest whole unit, ties to even (as
/// the terminal's whole-number formatting rounds a reading).
pub open spec fn round_tenths(t: int) -> int {
    if t >= 0 {
        round_mag_tenths(t)
    } else {
        -round_mag_tenths(-t)
    }
}

/// The magnitude of a reading in tenths, as a wide unsigned value.
fn tenths_magnitude(t: i64) -> (mag: u64)
    ensures
        t >= 0 ==> mag == t,
        t < 0 ==> mag == -(t as int),
{
    if t >= 0 {
        t as u64
    } else {
        (-(t as i128)) as u64
    }
}

/// Renders a tenths reading as a whole number of units, rounded to the
/// nearest unit with ties to even (so `723` becomes `72`).
pub fn whole_units_text(t: i64) -> (s: String)
    ensures
        s@ == signed_dec(round_tenths(t as int)),
{
    let mag = tenths_magnitude(t);
    let q: u64 = mag / 10;
    let d: u64 = mag % 10;
    let r: u64 = if d < 5 {
        q
    } else if d > 5 {
        q + 1
    } else if q % 2 == 0 {
        q
    } else {
        q + 1
    };
    if t < 0 && r > 0 {
        let mut s = String::from_str("-");
        s.append(u64_text(r).as_str());
        proof {
            reveal_strlit("-");
            assert(s@ =~= signed_dec(round_tenths(t as int)));
        }
        s
    } else {
        u64_text(r)
    }
}

/// The text of a tenths reading with one decimal place, as in `72.3`.
pub open spec fn tenths_text_spec(t: int) -> Seq<char> {
    let m = if t >= 0 {
        t
    } else {
        -t
    };
    (if t < 0 {
        seq!['-']
    } else {
        Seq::<char>::empty()
    }) + dec_digits((m / 10) as nat) + seq!['.'] + seq![digit_char(m % 10)]
}

/// Renders a tenths reading with one decimal place (so `723` becomes `72.3`).
pub fn tenths_text(t: i64) -> (s: String)
    ensures
        s@ == tenths_text_spec(t as int),
{
    let mag = tenths_magnitude(t);
    let mut s = if t < 0 {
        String::from_str("-")
    } else {
        String::new()
    };
    s.append(u64_text(mag / 10).as_str());
    s.append(".");
    s.append(digit_str(mag % 10));
    proof {
        reveal_strlit("-");
        reveal_strlit(".");
        assert(s@ =~= tenths_text_spec(t as int));
    }
    s
}

/// The most whole-number digits a parsed reading may have.
pub const MAX_WHOLE_DIGITS: usize = 17;

/// Whether `c` is a decimal digit.
pub open spec fn is_digit_char(c: char) -> bool {
    48 <= c as int <= 57
}

/// The numeric value of a digit character.
pub open spec fn digit_value(c: char) -> int {
    c as int - 48
}

/// Whether every character of `s` is a decimal digit.
pub open spec fn all_digits(s: Seq<char>) -> bool {
    forall|i: int| 0 <= i < s.len() ==> is_digit_char(#[trigger] s[i])
}

/// The value of a run of digit characters, most significant first.
pub open spec fn digits_value(s: Seq<char>) -> int
    decreases s.len(),
{
    if s.len() == 0 {
        0
    } else {
        digits_value(s.drop_last()) * 10 + digit_value(s.last())
    }
}

pub open spec fn pow10(n: nat) -> int
    decreases n,
{
    if n == 0 {
        1
    } else {
        10 * pow10((n - 1) as nat)
    }
}

pub proof fn lemma_pow10_at_most_17(n: nat)
    requires
        n <= 17,
    ensures
        pow10(n) <= 100_000_000_000_000_000,
        pow10(n) >= 1,
{
    lemma_pow10_mono(n, 17nat);
    reveal_with_fuel(pow10, 18);
}

pub proof fn lemma_digits_value_bound(s: Seq<char>)
    requires
        all_digits(s),
    ensures
        0 <= digits_value(s) < pow10(s.len()),
    decreases s.len(),
{
    if s.len() > 0 {
        assert(all_digits(s.drop_last())) by {
            assert(forall|i: int|
                0 <= i < s.len() - 1 ==> is_digit_char(#[trigger] s.drop_last()[i]) == is_digit_char(
                    s[i],
                ));
        }
        lemma_digits_value_bound(s.drop_last());
        assert(is_digit_char(s.last()));
    }
}

/// A well-formed split of an unsigned reading into whole and fractional
/// digits around a decimal point at position `i`.
pub open spec fn dot_split_ok(s: Seq<char>, i: int) -> bool {
    &&& 1 <= i <= MAX_WHOLE_DIGITS
    &&& i + 2 <= s.len()
    &&& s[i] == '.'
    &&& all_digits(s.take(i))
    &&& all_digits(s.skip(i + 1))
}

pub proof fn lemma_dot_split_unique(s: Seq<char>, i: int, j: int)
    requires
        dot_split_ok(s, i),
        dot_split_ok(s, j),
    ensures
        i == j,
{
    if i < j {
        assert(is_digit_char(s.skip(i + 1)[j - i - 1]));
        assert(s.skip(i + 1)[j - i - 1] == s[j]);
        assert('.' as int == 46);
    }
    if j < i {
        assert(is_digit_char(s.skip(j + 1)[i - j - 1]));
        assert(s.skip(j + 1)[i - j - 1] == s[i]);
        assert('.' as int == 46);
    }
}

/// The tenths value of the decimal text of an unsigned reading: either a
/// plain run of digits, or digits around a single decimal point.  Whole
/// parts of more than [`MAX_WHOLE_DIGITS`] digits are not accepted, and
/// fractional digits beyond the first do not contribute.
pub open spec fn unsigned_tenths(s: Seq<char>) -> Option<int> {
    if 1 <= s.len() <= MAX_WHOLE_DIGITS && all_digits(s) {
        Some(10 * digits_value(s))
    } else if exists|i: int| dot_split_ok(s, i) {
        let i = choose|i: int| dot_split_ok(s, i);
        Some(10 * digits_value(s.take(i)) + digit_value(s[i + 1]))
    } else {
        None
    }
}

/// The tenths value of the decimal text of a reading, with an optional
/// leading minus sign.
pub open spec fn text_tenths(s: Seq<char>) -> Option<int> {
    if s.len() > 0 && s[0] == '-' {
        match unsigned_tenths(s.skip(1)) {
            Some(v) => Some(-v),
            None => None,
        }
    } else {
        unsigned_tenths(s)
    }
}

/// Every text the parser accepts is pure ASCII.
proof fn lemma_text_tenths_ascii(s: Seq<char>)
    ensures
        text_tenths(s) is Some ==> vstd::utf8::is_ascii_chars(s),
{
    if text_tenths(s) is Some {
        let (off, body) = if s.len() > 0 && s[0] == '-' {
            (1int, s.skip(1))
        } else {
            (0int, s)
        };
        assert(unsigned_tenths(body) is Some);
        assert forall|k: int| 0 <= k < s.len() implies '\0' <= #[trigger] s[k]
            <= '\u{7f}' by {
            if k < off {
                assert(s[k] == '-');
            } else {
                let b = k - off;
                assert(body[b] == s[k]);
                if 1 <= body.len() <= MAX_WHOLE_DIGITS && all_digits(body) {
                    assert(is_digit_char(body[b]));
                } else {
                    let i = choose|i: int| dot_split_ok(body, i);
                    assert(dot_split_ok(body, i));
                    if b < i {
                        assert(is_digit_char(body.take(i)[b]));
                        assert(body.take(i)[b] == body[b]);
                    } else if b == i {
                        assert(body[b] == '.');
                    } else {
                        assert(is_digit_char(body.skip(i + 1)[b - i - 1]));
                        assert(body.skip(i + 1)[b - i - 1] == body[b]);
                    }
                }
            }
        }
    }
}

/// The first position at or after `from` whose character is not a digit.
fn digit_run_end(s: &str, from: usize) -> (end: usize)
    requires
        s.is_ascii(),
        from <= s@.len(),
    ensures
        from <= end <= s@.len(),
        all_digits(s@.subrange(from as int, end as int)),
        end < s@.len() ==> !is_digit_char(s@[end as int]),
{
    let n: usize = s.unicode_len();
    let mut end: usize = from;
    loop
        invariant_except_break
            s.is_ascii(),
            n == s@.len(),
            from <= end <= n,
            all_digits(s@.subrange(from as int, end as int)),
        ensures
            from <= end <= s@.len(),
            all_digits(s@.subrange(from as int, end as int)),
            end < s@.len() ==> !is_digit_char(s@[end as int]),
        decreases n - end,
    {
        if end >= n {
            break ;
        }
        let b: u8 = s.get_ascii(end);
        proof {
            assert(s@[end as int] as u8 == b);
            assert('\0' <= s@[end as int] <= '\u{7f}');
            assert(s@[end as int] as int == b as int);
        }
        if b < 48 || b > 57 {
            break ;
        }
        proof {
            let ghost pre = s@.subrange(from as int, end as int);
            assert(s@.subrange(from as int, end + 1int) =~= pre.push(s@[end as int]));
        }
        end = end + 1;
    }
    end
}

/// The value of the digit run `[from, end)`, which must be short enough
/// not to overflow.
fn digit_run_value(s: &str, from: usize, end: usize) -> (val: u64)
    requires
        s.is_ascii(),
        from <= end <= s@.len(),
        all_digits(s@.subrange(from as int, end as int)),
        end - from <= MAX_WHOLE_DIGITS,
    ensures
        val == digits_value(s@.subrange(from as int, end as int)),
        0 <= val < 100_000_000_000_000_000,
{
    let mut i: usize = from;
    let mut val: u64 = 0;
    while i < end
        invariant
            s.is_ascii(),
            from <= i <= end <= s@.len(),
            all_digits(s@.subrange(from as int, end as int)),
            end - from <= MAX_WHOLE_DIGITS,
            val == digits_value(s@.subrange(from as int, i as int)),
            val < 100_000_000_000_000_000,
        decreases end - i,
    {
        let b: u8 = s.get_ascii(i);
        proof {
            let ghost whole = s@.subrange(from as int, end as int);
            let ghost pre = s@.subrange(from as int, i as int);
            assert(whole[i - from] == s@[i as int]);
            assert(is_digit_char(s@[i as int]));
            assert(s@[i as int] as u8 == b);
            assert('\0' <= s@[i as int] <= '\u{7f}');
            assert(s@[i as int] as int == b as int);
            lemma_digits_value_bound(pre);
            assert(pre.len() <= 16);
            lemma_pow10_mono(pre.len(), 16nat);
            lemma_pow10_16();
            assert(val < 10_000_000_000_000_000);
        }
        let ghost c = s@[i as int];
        let ghost pre = s@.subrange(from as int, i as int);
        val = val * 10 + ((b - 48) as u64);
        i = i + 1;
        proof {
            let ghost full = s@.subrange(from as int, i as int);
            assert(full =~= pre.push(c));
            assert(full.drop_last() =~= pre);
            assert(full.last() == c);
            assert(digits_value(full) == digits_value(pre) * 10 + digit_value(c));
            assert(digit_value(c) == b - 48);
        }
    }
    proof {
        lemma_digits_value_bound(s@.subrange(from as int, end as int));
        lemma_pow10_at_most_17((end - from) as nat);
    }
    val
}

/// Parses the decimal text of a telemetry number into signed tenths, so
/// `"72.3"` becomes `723` and `"85"` becomes `850`.  Returns `None` for
/// any text that is not a plain signed decimal number (or whose whole part
/// is too long), exactly as [`text_tenths`] says.
#[verifier::rlimit(60)]
pub fn parse_tenths(s: &str) -> (r: Option<i64>)
    ensures
        r is Some <==> text_tenths(s@) is Some,
        r is Some ==> r->0 as int == text_tenths(s@)->0,
{
    proof {
        lemma_text_tenths_ascii(s@);
    }
    if !s.is_ascii() {
        return None;
    }
    let n: usize = s.unicode_len();
    if n == 0 {
        return None;
    }
    let b0: u8 = s.get_ascii(0);
    proof {
        assert(s@[0] as u8 == b0);
        assert('\0' <= s@[0] <= '\u{7f}');
        assert(s@[0] as int == b0 as int);
        assert('-' as int == 45);
    }
    let start: usize = if b0 == 45 {
        1
    } else {
        0
    };
    let ghost body = s@.skip(start as int);
    let negative: bool = start == 1;
    proof {
        assert(negative ==> s@[0] == '-');
        assert(!negative ==> s@[0] != '-');
        assert(s@.skip(0) =~= s@);
        assert(forall|k: int|
            0 <= k < body.len() ==> #[trigger] body[k] == s@[k + start]);
        assert(text_tenths(s@) == (match unsigned_tenths(body) {
            Some(v) => Some(if negative { -v } else { v }),
            None => None::<int>,
        }));
    }
    let int_end: usize = digit_run_end(s, start);
    let int_len: usize = int_end - start;
    proof {
        assert(body.take(int_len as int) =~= s@.subrange(start as int, int_end as int));
    }
    if int_len == 0 {
        proof {
            if body.len() > 0 {
                assert(body[0] == s@[start as int]);
                assert(!is_digit_char(body[0]));
            }
            assert forall|i: int| !dot_split_ok(body, i) by {
                if dot_split_ok(body, i) {
                    assert(body.take(i)[0] == body[0]);
                    assert(is_digit_char(body[0]));
                }
            }
            assert(unsigned_tenths(body) is None);
        }
        return None;
    }
    if int_len > MAX_WHOLE_DIGITS {
        proof {
            assert forall|i: int| !dot_split_ok(body, i) by {
                if dot_split_ok(body, i) {
                    assert(body.take(int_len as int)[i] == body[i]);
                    assert(is_digit_char(body[i]));
                    assert(body[i] == '.');
                    assert('.' as int == 46);
                }
            }
            assert(body.len() >= int_len > MAX_WHOLE_DIGITS);
            assert(unsigned_tenths(body) is None);
        }
        return None;
    }
    let val: u64 = digit_run_value(s, start, int_end);
    if int_end == n {
        proof {
            assert(body =~= body.take(int_len as int));
            assert(1 <= body.len() <= MAX_WHOLE_DIGITS && all_digits(body));
            assert(unsigned_tenths(body) == Some(10 * digits_value(body)));
        }
        let t: i64 = (val * 10) as i64;
        if negative {
            return Some(-t);
        } else {
            return Some(t);
        }
    }
    // The digit run ended before the end of the text.
    let sep: u8 = s.get_ascii(int_end);
    proof {
        assert(s@[int_end as int] as u8 == sep);
        assert('\0' <= s@[int_end as int] <= '\u{7f}');
        assert(s@[int_end as int] as int == sep as int);
        assert(body[int_len as int] == s@[int_end as int]);
        assert(!is_digit_char(body[int_len as int]));
        assert('.' as int == 46);
    }
    if sep != 46 {
        proof {
            assert(body[int_len as int] != '.');
            assert forall|i: int| !dot_split_ok(body, i) by {
                if dot_split_ok(body, i) {
                    if i < int_len {
                        assert(body.take(int_len as int)[i] == body[i]);
                        assert(is_digit_char(body[i]));
                    } else if i > int_len {
                        assert(body.take(i)[int_len as int] == body[int_len as int]);
                        assert(is_digit_char(body[int_len as int]));
                    }
                }
            }
        }
        return None;
    }
    proof {
        assert(body[int_len as int] == '.');
    }
    if n - int_end == 1 {
        // Nothing follows the decimal point.
        proof {
            assert(body.len() == int_len + 1);
            assert forall|i: int| !dot_split_ok(body, i) by {
                if dot_split_ok(body, i) {
                    if i < int_len {
                        assert(body.take(int_len as int)[i] == body[i]);
                        assert(is_digit_char(body[i]));
                    } else if i > int_len {
                        assert(body.take(i)[int_len as int] == body[int_len as int]);
                        assert(is_digit_char(body[int_len as int]));
                    }
                }
            }
        }
        return None;
    }
    let frac_end: usize = digit_run_end(s, int_end + 1);
    proof {
        assert(body.skip(int_len + 1) =~= s@.subrange(int_end + 1, n as int));
    }
    if frac_end < n {
        proof {
            let bad = (frac_end - start) as int;
            assert(body[bad] == s@[frac_end as int]);
            assert(!is_digit_char(body[bad]));
            assert(bad > int_len);
            assert forall|i: int| !dot_split_ok(body, i) by {
                if dot_split_ok(body, i) {
                    if i < int_len {
                        assert(body.take(int_len as int)[i] == body[i]);
                        assert(is_digit_char(body[i]));
                    } else if i > int_len {
                        assert(body.take(i)[int_len as int] == body[int_len as int]);
                        assert(is_digit_char(body[int_len as int]));
                    } else {
                        // A split at the decimal point itself: the bad
                        // character sits in the fractional part.
                        if frac_end == int_end + 1 {
                            assert(body.skip(int_len + 1)[0] == body[int_len + 1]);
                            assert(is_digit_char(body[int_len + 1]));
                            assert(bad == int_len + 1);
                        } else {
                            assert(s@.subrange(int_end + 1, frac_end as int)[0] == s@[
                                int_end + 1]);
                            assert(body.skip(int_len + 1)[bad - int_len - 1] == body[bad]);
                            assert(is_digit_char(body[bad]));
                        }
                    }
                }
            }
            assert(int_len < body.len());
            assert(!is_digit_char(body[int_len as int]));
        }
        return None;
    }
    // A well-formed fractional part runs to the end of the text.
    let d1: u8 = s.get_ascii(int_end + 1);
    proof {
        assert(s@[int_end + 1] as u8 == d1);
        assert('\0' <= s@[int_end + 1] <= '\u{7f}');
        assert(s@[int_end + 1] as int == d1 as int);
        assert(s@.subrange(int_end + 1, n as int)[0] == s@[int_end + 1]);
        assert(is_digit_char(s@[int_end + 1]));
        assert(dot_split_ok(body, int_len as int));
        let picked = choose|i: int| dot_split_ok(body, i);
        assert(dot_split_ok(body, picked));
        lemma_dot_split_unique(body, int_len as int, picked);
        assert(!is_digit_char(body[int_len as int]));
        assert(unsigned_tenths(body) == Some(
            10 * digits_value(body.take(int_len as int)) + digit_value(body[int_len + 1]),
        ));
        assert(body[int_len + 1] == s@[int_end + 1]);
        assert(digit_value(body[int_len + 1]) == d1 - 48);
    }
    let t: i64 = (val * 10 + ((d1 - 48) as u64)) as i64;
    if negative {
        Some(-t)
    } else {
        Some(t)
    }
}

proof fn lemma_pow10_mono(m: nat, n: nat)
    requires
        m <= n,
    ensures
        pow10(m) <= pow10(n),
        pow10(m) >= 1,
    decreases n,
{
    if n > 0 {
        if m == n {
            lemma_pow10_mono((n - 1) as nat, (n - 1) as nat);
        } else {
            lemma_pow10_mono(m, (n - 1) as nat);
        }
    }
}

proof fn lemma_pow10_16()
    ensures
        pow10(16) == 10_000_000_000_000_000,
{
    reveal_with_fuel(pow10, 18);
}

} // verus!
