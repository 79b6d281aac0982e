//! Verified conversions between numbers and decimal text.

use vstd::prelude::*;

verus! {

/// Whether `c` is a decimal digit.
pub open spec fn spec_is_digit(c: char) -> bool {
    48 <= c as u32 <= 57
}

/// The value of a decimal digit character.
pub open spec fn spec_digit_val(c: char) -> int {
    c as u32 - 48
}

/// Whether every character of `s` is a decimal digit.
pub open spec fn spec_all_digits(s: Seq<char>) -> bool {
    forall|i: int| 0 <= i < s.len() ==> spec_is_digit(#[trigger] s[i])
}

/// The number a digit string denotes, most significant digit first.
pub open spec fn spec_digits_to_val(s: Seq<char>) -> int
    decreases s.len(),
{
    if s.len() == 0 {
        0
    } else {
        spec_digits_to_val(s.drop_last()) * 10 + spec_digit_val(s.last())
    }
}

/// What parsing an unsigned decimal string yields: the value when the
/// string is non-empty, all digits, and fits in a `u64`.
pub open spec fn spec_parse_u64(s: Seq<char>) -> Option<u64> {
    if s.len() > 0 && spec_all_digits(s) && spec_digits_to_val(s) <= u64::MAX {
        Some(spec_digits_to_val(s) as u64)
    } else {
        None
    }
}

/// A digit string denotes a non-negative number.
pub proof fn lemma_digits_val_nonneg(s: Seq<char>)
    requires
        spec_all_digits(s),
    ensures
        spec_digits_to_val(s) >= 0,
    decreases s.len(),
{
    if s.len() > 0 {
        lemma_digits_val_nonneg(s.drop_last());
    }
}

/// Dropping trailing digits never increases the denoted number.
pub proof fn lemma_digits_val_take_le(s: Seq<char>, k: int)
    requires
        spec_all_digits(s),
        0 <= k <= s.len(),
    ensures
        spec_digits_to_val(s.take(k)) <= spec_digits_to_val(s),
    decreases s.len() - k,
{
    if k < s.len() {
        lemma_digits_val_take_le(s, k + 1);
        let t = s.take(k + 1);
        assert(t.drop_last() =~= s.take(k));
        lemma_digits_val_nonneg(s.take(k));
        assert(spec_digits_to_val(t) == spec_digits_to_val(s.take(k)) * 10 + spec_digit_val(
            t.last(),
        ));
    } else {
        assert(s.take(k) =~= s);
    }
}

/// Accumulates the value of the digits of `s` in `[from, to)`; `None` when
/// a non-digit occurs there or the value exceeds `u64::MAX`.
pub fn parse_digits_val(s: &str, from: usize, to: usize) -> (r: Option<u64>)
    requires
        from <= to <= s@.len(),
    ensures
        ({
            let part = s@.subrange(from as int, to as int);
            match r {
                Some(v) => spec_all_digits(part) && v == spec_digits_to_val(part),
                None => !(spec_all_digits(part) && spec_digits_to_val(part) <= u64::MAX),
            }
        }),
{
    let ghost part = s@.subrange(from as int, to as int);
    let mut acc: u64 = 0;
    let mut i: usize = from;
    proof {
        assert(s@.subrange(from as int, from as int) =~= Seq::<char>::empty());
    }
    while i < to
        invariant
            from <= i <= to <= s@.len(),
            part == s@.subrange(from as int, to as int),
            spec_all_digits(s@.subrange(from as int, i as int)),
            acc == spec_digits_to_val(s@.subrange(from as int, i as int)),
        decreases to - i,
    {
        let c = s.get_char(i);
        let cu = c as u32;
        let ghost prefix = s@.subrange(from as int, i as int);
        let ghost grown = s@.subrange(from as int, i + 1int);
        proof {
            assert(grown.drop_last() =~= prefix);
            assert(grown.last() == s@[i as int]);
        }
        if cu < 48 || cu > 57 {
            proof {
                assert(part[i - from] == s@[i as int]);
                assert(!spec_is_digit(part[i - from]));
            }
            return None;
        }
        let d = (cu - 48) as u64;
        let next = match acc.checked_mul(10) {
            Some(m) => m.checked_add(d),
            None => None,
        };
        match next {
            Some(v) => {
                acc = v;
            },
            None => {
                proof {
                    assert(spec_digits_to_val(grown) > u64::MAX);
                    assert(part.take(i + 1 - from) =~= grown);
                    if spec_all_digits(part) {
                        lemma_digits_val_take_le(part, i + 1 - from);
                    }
                }
                return None;
            },
        }
        i += 1;
    }
    proof {
        assert(s@.subrange(from as int, to as int) =~= part);
    }
    Some(acc)
}

/// Parses a non-empty, all-digit decimal string into a `u64`.
pub fn parse_u64(s: &str) -> (r: Option<u64>)
    ensures
        r == spec_parse_u64(s@),
{
    let len = s.unicode_len();
    if len == 0 {
        return None;
    }
    let r = parse_digits_val(s, 0, len);
    proof {
        assert(s@.subrange(0, len as int) =~= s@);
    }
    r
}

/// The `k`-th power of ten.
pub open spec fn spec_pow10(k: nat) -> int
    decreases k,
{
    if k == 0 {
        1
    } else {
        10 * spec_pow10((k - 1) as nat)
    }
}

/// The powers of ten up to 10^20, spelled out.
pub proof fn lemma_pow10_vals()
    ensures
        spec_pow10(0) == 1,
        spec_pow10(1) == 10,
        spec_pow10(2) == 100,
        spec_pow10(3) == 1000,
        spec_pow10(4) == 10_000,
        spec_pow10(5) == 100_000,
        spec_pow10(6) == 1_000_000,
        spec_pow10(7) == 10_000_000,
        spec_pow10(8) == 100_000_000,
        spec_pow10(9) == 1_000_000_000,
        spec_pow10(10) == 10_000_000_000,
        spec_pow10(11) == 100_000_000_000,
        spec_pow10(12) == 1_000_000_000_000,
        spec_pow10(13) == 10_000_000_000_000,
        spec_pow10(14) == 100_000_000_000_000,
        spec_pow10(15) == 1_000_000_000_000_000,
        spec_pow10(16) == 10_000_000_000_000_000,
        spec_pow10(17) == 100_000_000_000_000_000,
        spec_pow10(18) == 1_000_000_000_000_000_000,
        spec_pow10(19) == 10_000_000_000_000_000_000,
        spec_pow10(20) == 100_000_000_000_000_000_000,
{
    assert(spec_pow10(0) == 1);
    assert(spec_pow10(1) == 10);
    assert(spec_pow10(2) == 100);
    assert(spec_pow10(3) == 1000);
    assert(spec_pow10(4) == 10_000);
    assert(spec_pow10(5) == 100_000);
    assert(spec_pow10(6) == 1_000_000);
    assert(spec_pow10(7) == 10_000_000);
    assert(spec_pow10(8) == 100_000_000);
    assert(spec_pow10(9) == 1_000_000_000);
    assert(spec_pow10(10) == 10_000_000_000);
    assert(spec_pow10(11) == 100_000_000_000);
    assert(spec_pow10(12) == 1_000_000_000_000);
    assert(spec_pow10(13) == 10_000_000_000_000);
    assert(spec_pow10(14) == 100_000_000_000_000);
    assert(spec_pow10(15) == 1_000_000_000_000_000);
    assert(spec_pow10(16) == 10_000_000_000_000_000);
    assert(spec_pow10(17) == 100_000_000_000_000_000);
    assert(spec_pow10(18) == 1_000_000_000_000_000_000);
    assert(spec_pow10(19) == 10_000_000_000_000_000_000);
    assert(spec_pow10(20) == 100_000_000_000_000_000_000);
}

/// Computes a power of ten that fits in a `u64`.
pub fn pow10_u64(k: usize) -> (r: u64)
    requires
        k <= 19,
    ensures
        r == spec_pow10(k as nat),
        r >= 1,
{
    proof {
        lemma_pow10_vals();
    }
    match k {
        0 => 1,
        1 => 10,
        2 => 100,
        3 => 1000,
        4 => 10_000,
        5 => 100_000,
        6 => 1_000_000,
        7 => 10_000_000,
        8 => 100_000_000,
        9 => 1_000_000_000,
        10 => 10_000_000_000,
        11 => 100_000_000_000,
        12 => 1_000_000_000_000,
        13 => 10_000_000_000_000,
        14 => 100_000_000_000_000,
        15 => 1_000_000_000_000_000,
        16 => 10_000_000_000_000_000,
        17 => 100_000_000_000_000_000,
        18 => 1_000_000_000_000_000_000,
        _ => 10_000_000_000_000_000_000,
    }
}

/// A digit string of length `k` denotes less than 10^k.
pub proof fn lemma_digits_val_upper(s: Seq<char>)
    requires
        spec_all_digits(s),
    ensures
        spec_digits_to_val(s) < spec_pow10(s.len()),
    decreases s.len(),
{
    if s.len() > 0 {
        lemma_digits_val_upper(s.drop_last());
    }
}

/// The index of the first `.` in `s`, or the length when there is none.
pub open spec fn spec_first_dot(s: Seq<char>) -> int
    decreases s.len(),
{
    if s.len() == 0 {
        0
    } else if s[0] == '.' {
        0
    } else {
        1 + spec_first_dot(s.skip(1))
    }
}

proof fn lemma_first_dot_of(s: Seq<char>, i: int)
    requires
        0 <= i <= s.len(),
        forall|j: int| 0 <= j < i ==> s[j] != '.',
        i == s.len() || s[i] == '.',
    ensures
        spec_first_dot(s) == i,
    decreases i,
{
    if s.len() == 0 {
    } else if i == 0 {
    } else {
        assert(s[0] != '.');
        lemma_first_dot_of(s.skip(1), i - 1);
    }
}

/// Finds the first `.` in `s`, or returns the length when there is none.
fn find_dot(s: &str) -> (r: usize)
    ensures
        r == spec_first_dot(s@),
        r <= s@.len(),
{
    let len = s.unicode_len();
    let mut i: usize = 0;
    while i < len
        invariant
            i <= len,
            len == s@.len(),
            forall|j: int| 0 <= j < i ==> s@[j] != '.',
        decreases len - i,
    {
        if s.get_char(i) == '.' {
            proof {
                lemma_first_dot_of(s@, i as int);
            }
            return i;
        }
        i += 1;
    }
    proof {
        lemma_first_dot_of(s@, len as int);
    }
    len
}

/// The micro-unit value denoted by an integer part and a fractional part:
/// both must be all digits and the integer part non-empty; fractional
/// digits beyond the sixth are dropped; the total must fit in a `u64`.
pub open spec fn spec_decimal_micro_parts(int_part: Seq<char>, frac_part: Seq<char>) -> Option<
    u64,
> {
    if int_part.len() > 0 && spec_all_digits(int_part) && spec_all_digits(frac_part) {
        let frac6 = frac_part.take(
            if frac_part.len() <= 6 {
                frac_part.len() as int
            } else {
                6
            },
        );
        let total = spec_digits_to_val(int_part) * 1_000_000 + spec_digits_to_val(frac6)
            * spec_pow10((6 - frac6.len()) as nat);
        if total <= u64::MAX {
            Some(total as u64)
        } else {
            None
        }
    } else {
        None
    }
}

/// What parsing a decimal string into micro units yields: digits with an
/// optional point and fractional digits, e.g. `"210.5"` denotes
/// 210_500_000.
pub open spec fn spec_parse_decimal_micro(s: Seq<char>) -> Option<u64> {
    let dot = spec_first_dot(s);
    if dot == s.len() {
        spec_decimal_micro_parts(s, Seq::empty())
    } else {
        spec_decimal_micro_parts(s.take(dot), s.skip(dot + 1))
    }
}

/// Parses a decimal string into micro units (six fractional digits).
pub fn parse_decimal_micro(s: &str) -> (r: Option<u64>)
    ensures
        r == spec_parse_decimal_micro(s@),
{
    let len = s.unicode_len();
    let dot = find_dot(s);
    let ghost int_part = s@.take(dot as int);
    let ghost frac_part = if dot == len {
        Seq::<char>::empty()
    } else {
        s@.skip(dot + 1int)
    };
    proof {
        assert(s@.subrange(0, dot as int) =~= int_part);
        lemma_pow10_vals();
        if dot == len {
            assert(int_part =~= s@);
        }
    }
    if dot == 0 {
        // The integer part is empty.
        return None;
    }
    let int_val = match parse_digits_val(s, 0, dot) {
        Some(v) => v,
        None => {
            proof {
                let fraclen = if frac_part.len() <= 6 {
                    frac_part.len() as int
                } else {
                    6
                };
                let frac6 = frac_part.take(fraclen);
                if spec_all_digits(int_part) && spec_all_digits(frac_part) {
                    lemma_digits_val_nonneg(int_part);
                    assert forall|j: int| 0 <= j < frac6.len() implies spec_is_digit(
                        #[trigger] frac6[j],
                    ) by {
                        assert(frac6[j] == frac_part[j]);
                    }
                    lemma_digits_val_nonneg(frac6);
                    lemma_pow10_pos((6 - fraclen) as nat);
                    vstd::arithmetic::mul::lemma_mul_nonnegative(
                        spec_digits_to_val(frac6),
                        spec_pow10((6 - fraclen) as nat),
                    );
                    assert(spec_digits_to_val(int_part) * 1_000_000 >= spec_digits_to_val(
                        int_part,
                    )) by (nonlinear_arith)
                        requires
                            spec_digits_to_val(int_part) >= 0,
                    ;
                }
            }
            return None;
        },
    };
    if dot == len {
        proof {
            assert(int_part =~= s@);
            assert(frac_part.take(0) =~= Seq::<char>::empty());
            assert(spec_digits_to_val(Seq::<char>::empty()) == 0);
            vstd::arithmetic::mul::lemma_mul_by_zero_is_zero(spec_pow10(6));
            assert(spec_digits_to_val(frac_part.take(0)) * spec_pow10(
                (6 - frac_part.take(0).len()) as nat,
            ) == 0);
        }
        return match int_val.checked_mul(1_000_000) {
            Some(total) => Some(total),
            None => None,
        };
    }
    let frac_len = len - dot - 1;
    let frac6_len = if frac_len <= 6 {
        frac_len
    } else {
        6
    };
    let frac6_val = match parse_digits_val(s, dot + 1, dot + 1 + frac6_len) {
        Some(v) => v,
        None => {
            proof {
                assert(s@.subrange(dot + 1int, dot + 1 + frac6_len as int) =~= frac_part.take(
                    frac6_len as int,
                ));
                let frac6 = frac_part.take(frac6_len as int);
                if spec_all_digits(frac_part) {
                    assert forall|j: int| 0 <= j < frac6.len() implies spec_is_digit(
                        #[trigger] frac6[j],
                    ) by {
                        assert(frac6[j] == frac_part[j]);
                    }
                    lemma_digits_val_upper(frac6);
                    lemma_pow10_le(frac6.len() as nat, 6);
                }
            }
            return None;
        },
    };
    let ghost frac6 = frac_part.take(frac6_len as int);
    proof {
        assert(s@.subrange(dot + 1int, dot + 1 + frac6_len as int) =~= frac6);
        assert forall|j: int| dot + 1 <= j < dot + 1 + frac6_len implies spec_is_digit(
            #[trigger] s@[j],
        ) by {
            assert(frac6[j - dot - 1] == s@[j]);
        }
    }
    // The digits beyond the sixth are dropped from the value but must
    // still be digits for the parse to succeed.
    let mut i: usize = dot + 1 + frac6_len;
    while i < len
        invariant
            dot + 1 + frac6_len <= i <= len,
            len == s@.len(),
            dot == spec_first_dot(s@),
            dot + 1 + frac_len == len,
            frac6_len <= frac_len,
            frac_part == s@.skip(dot + 1int),
            forall|j: int| dot + 1 <= j < i ==> spec_is_digit(#[trigger] s@[j]),
        decreases len - i,
    {
        let c = s.get_char(i);
        let cu = c as u32;
        if cu < 48 || cu > 57 {
            proof {
                assert(frac_part[i - dot - 1] == s@[i as int]);
            }
            return None;
        }
        i += 1;
    }
    proof {
        assert forall|j: int| 0 <= j < frac_part.len() implies spec_is_digit(
            #[trigger] frac_part[j],
        ) by {
            assert(frac_part[j] == s@[dot + 1 + j]);
        }
        assert forall|j: int| 0 <= j < frac6.len() implies spec_is_digit(#[trigger] frac6[j]) by {
            assert(frac6[j] == frac_part[j]);
        }
        lemma_digits_val_upper(frac6);
        lemma_digits_val_nonneg(frac6);
        lemma_pow10_le(frac6.len() as nat, 6);
    }
    let scale = pow10_u64(6 - frac6_len);
    proof {
        lemma_mul_fits_pow10(frac6_val as int, frac6.len() as nat, scale as int);
    }
    let contribution = frac6_val * scale;
    let total = match int_val.checked_mul(1_000_000) {
        Some(m) => m.checked_add(contribution),
        None => None,
    };
    proof {
        lemma_digits_val_nonneg(int_part);
        assert(spec_digits_to_val(int_part) * 1_000_000 >= spec_digits_to_val(int_part))
            by (nonlinear_arith)
            requires
                spec_digits_to_val(int_part) >= 0,
        ;
    }
    total
}

/// 10^k is positive.
pub proof fn lemma_pow10_pos(k: nat)
    ensures
        spec_pow10(k) >= 1,
    decreases k,
{
    if k > 0 {
        lemma_pow10_pos((k - 1) as nat);
    }
}

/// Powers of ten are monotone in the exponent.
pub proof fn lemma_pow10_le(a: nat, b: nat)
    requires
        a <= b,
    ensures
        spec_pow10(a) <= spec_pow10(b),
    decreases b,
{
    if a < b {
        lemma_pow10_le(a, (b - 1) as nat);
        lemma_pow10_pos((b - 1) as nat);
    }
}

/// A value below 10^k scaled by 10^(6-k) stays below 10^6.
proof fn lemma_mul_fits_pow10(v: int, k: nat, scale: int)
    requires
        0 <= v < spec_pow10(k),
        k <= 6,
        scale == spec_pow10((6 - k) as nat),
    ensures
        0 <= v * scale < 1_000_000,
        v * scale <= u64::MAX,
{
    lemma_pow10_pos((6 - k) as nat);
    lemma_pow10_mul(k, (6 - k) as nat);
    lemma_pow10_vals();
    assert(v * scale <= (spec_pow10(k) - 1) * scale) by (nonlinear_arith)
        requires
            v <= spec_pow10(k) - 1,
            scale >= 0,
    ;
    assert((spec_pow10(k) - 1) * scale == spec_pow10(k) * scale - scale) by (nonlinear_arith);
    vstd::arithmetic::mul::lemma_mul_nonnegative(v, scale);
}

/// 10^a * 10^b == 10^(a+b).
pub proof fn lemma_pow10_mul(a: nat, b: nat)
    ensures
        spec_pow10(a) * spec_pow10(b) == spec_pow10((a + b) as nat),
    decreases a,
{
    if a == 0 {
    } else {
        lemma_pow10_mul((a - 1) as nat, b);
        assert(spec_pow10(a) * spec_pow10(b) == 10 * (spec_pow10((a - 1) as nat) * spec_pow10(b)))
            by (nonlinear_arith)
            requires
                spec_pow10(a) == 10 * spec_pow10((a - 1) as nat),
        ;
    }
}

/// What parsing a signed decimal string yields: an optional leading minus
/// sign, then digits; the magnitude must fit in `i64::MAX`.
pub open spec fn spec_parse_i64(s: Seq<char>) -> Option<i64> {
    if s.len() > 0 && s[0] == '-' {
        match spec_parse_u64(s.skip(1)) {
            Some(mag) => if mag <= i64::MAX as u64 {
                Some((-(mag as int)) as i64)
            } else {
                None
            },
            None => None,
        }
    } else {
        match spec_parse_u64(s) {
            Some(mag) => if mag <= i64::MAX as u64 {
                Some(mag as i64)
            } else {
                None
            },
            None => None,
        }
    }
}

/// Parses a signed decimal string into an `i64`.
pub fn parse_i64(s: &str) -> (r: Option<i64>)
    ensures
        r == spec_parse_i64(s@),
{
    let len = s.unicode_len();
    if len == 0 {
        return None;
    }
    if s.get_char(0) == '-' {
        let mag = match parse_digits_val(s, 1, len) {
            Some(v) => v,
            None => {
                proof {
                    assert(s@.subrange(1, len as int) =~= s@.skip(1));
                }
                return None;
            },
        };
        proof {
            assert(s@.subrange(1, len as int) =~= s@.skip(1));
        }
        if len == 1 {
            // A bare minus sign: the digit part is empty.
            return None;
        }
        if mag <= i64::MAX as u64 {
            Some(-(mag as i64))
        } else {
            None
        }
    } else {
        let mag = match parse_digits_val(s, 0, len) {
            Some(v) => v,
            None => {
                proof {
                    assert(s@.subrange(0, len as int) =~= s@);
                }
                return None;
            },
        };
        proof {
            assert(s@.subrange(0, len as int) =~= s@);
        }
        if mag <= i64::MAX as u64 {
            Some(mag as i64)
        } else {
            None
        }
    }
}

/// The character of a decimal digit value.
pub open spec fn spec_digit_char(d: int) -> char {
    if d == 0 {
        '0'
    } else if d == 1 {
        '1'
    } else if d == 2 {
        '2'
    } else if d == 3 {
        '3'
    } else if d == 4 {
        '4'
    } else if d == 5 {
        '5'
    } else if d == 6 {
        '6'
    } else if d == 7 {
        '7'
    } else if d == 8 {
        '8'
    } else {
        '9'
    }
}

/// The decimal rendering of a non-negative number, most significant digit
/// first, with no leading zeros (except for zero itself).
pub open spec fn spec_u64_dec(n: nat) -> Seq<char>
    decreases n,
{
    if n < 10 {
        seq![spec_digit_char(n as int)]
    } else {
        spec_u64_dec(n / 10).push(spec_digit_char((n % 10) as int))
    }
}

/// A one-character string for a decimal digit.
fn dec_digit_str(d: u64) -> (s: &'static str)
    requires
        d < 10,
    ensures
        s@ == seq![spec_digit_char(d as int)],
{
    proof {
        reveal_strlit("0");
        reveal_strlit("1");
        reveal_strlit("2");
        reveal_strlit("3");
        reveal_strlit("4");
        reveal_strlit("5");
        reveal_strlit("6");
        reveal_strlit("7");
        reveal_strlit("8");
        reveal_strlit("9");
    }
    match d {
        0 => "0",
        1 => "1",
        2 => "2",
        3 => "3",
        4 => "4",
        5 => "5",
        6 => "6",
        7 => "7",
        8 => "8",
        _ => "9",
    }
}

/// Renders a number in decimal.
pub fn u64_to_dec(n: u64) -> (s: String)
    ensures
        s@ == spec_u64_dec(n as nat),
    decreases n,
{
    if n < 10 {
        let r = dec_digit_str(n).to_owned();
        proof {
            assert(r@ =~= spec_u64_dec(n as nat));
        }
        r
    } else {
        let mut front = u64_to_dec(n / 10);
        front.append(dec_digit_str(n % 10));
        proof {
            assert(front@ =~= spec_u64_dec((n / 10) as nat).push(
                spec_digit_char((n % 10) as int),
            ));
        }
        front
    }
}

/// A number below 10^k renders in at most `k` digits.
pub proof fn lemma_dec_len_le(n: nat, k: nat)
    requires
        n < spec_pow10(k),
        k >= 1,
    ensures
        1 <= spec_u64_dec(n).len() <= k,
    decreases n,
{
    if n < 10 {
    } else {
        if k < 2 {
            lemma_pow10_vals();
            assert(false);
        }
        lemma_div_pow10_bound(n as int, k);
        lemma_dec_len_le(n / 10, (k - 1) as nat);
    }
}

/// Dividing a number below 10^k by ten leaves it below 10^(k-1).
proof fn lemma_div_pow10_bound(n: int, k: nat)
    requires
        0 <= n < spec_pow10(k),
        k >= 1,
    ensures
        n / 10 < spec_pow10((k - 1) as nat),
{
    vstd::arithmetic::div_mod::lemma_fundamental_div_mod_converse(
        spec_pow10(k) - 1,
        10,
        spec_pow10((k - 1) as nat) - 1,
        9,
    );
    vstd::arithmetic::div_mod::lemma_div_is_ordered(n, spec_pow10(k) - 1, 10);
}

/// `k` zero characters.
pub open spec fn spec_zeros(k: nat) -> Seq<char>
    decreases k,
{
    if k == 0 {
        Seq::empty()
    } else {
        seq!['0'] + spec_zeros((k - 1) as nat)
    }
}

/// The shape of `spec_zeros`: length `k`, every character `'0'`.
pub proof fn lemma_zeros_shape(k: nat)
    ensures
        spec_zeros(k).len() == k,
        forall|i: int| 0 <= i < k ==> spec_zeros(k)[i] == '0',
    decreases k,
{
    if k > 0 {
        lemma_zeros_shape((k - 1) as nat);
    }
}

/// A digit string left-padded with zeros to the given width.
pub open spec fn spec_pad_zeros(s: Seq<char>, width: nat) -> Seq<char> {
    if s.len() >= width {
        s
    } else {
        spec_zeros((width - s.len()) as nat) + s
    }
}

/// The fixed-point decimal rendering of `v` with `f` fractional digits:
/// the whole part, a point, and the zero-padded fractional part.
pub open spec fn spec_fixed_dec(v: int, f: nat) -> Seq<char>
    recommends
        v >= 0,
{
    spec_u64_dec((v / spec_pow10(f)) as nat) + seq!['.'] + spec_pad_zeros(
        spec_u64_dec((v % spec_pow10(f)) as nat),
        f,
    )
}

/// Renders a fixed-point value with the given number of fractional digits
/// (e.g. micro units with six, basis points with four).
pub fn fixed_dec(v: u64, frac_digits: usize) -> (s: String)
    requires
        1 <= frac_digits <= 9,
    ensures
        s@ == spec_fixed_dec(v as int, frac_digits as nat),
{
    let pow = pow10_u64(frac_digits);
    let whole = v / pow;
    let frac = v % pow;
    let mut out = u64_to_dec(whole);
    out.append(".");
    let frac_str = u64_to_dec(frac);
    let frac_len = frac_str.as_str().unicode_len();
    proof {
        reveal_strlit(".");
        lemma_dec_len_le(frac as nat, frac_digits as nat);
        lemma_zeros_shape(0);
        assert(out@ =~= spec_u64_dec(whole as nat) + seq!['.'] + spec_zeros(0));
    }
    let mut pad = frac_digits - frac_len;
    let ghost target_pad = (frac_digits - frac_len) as nat;
    while pad > 0
        invariant
            pad <= target_pad,
            target_pad == frac_digits - frac_len,
            frac_len == spec_u64_dec(frac as nat).len(),
            out@ == spec_u64_dec(whole as nat) + seq!['.'] + spec_zeros(
                (target_pad - pad) as nat,
            ),
        decreases pad,
    {
        out.append("0");
        proof {
            reveal_strlit("0");
            lemma_zeros_shape((target_pad - pad) as nat);
            lemma_zeros_shape((target_pad - pad + 1) as nat);
            assert(out@ =~= spec_u64_dec(whole as nat) + seq!['.'] + spec_zeros(
                (target_pad - pad + 1) as nat,
            ));
        }
        pad -= 1;
    }
    out.append(frac_str.as_str());
    proof {
        lemma_zeros_shape(target_pad);
        assert(out@ =~= spec_u64_dec(whole as nat) + seq!['.'] + spec_pad_zeros(
            spec_u64_dec(frac as nat),
            frac_digits as nat,
        ));
        assert(out@ =~= spec_fixed_dec(v as int, frac_digits as nat));
    }
    out
}

/// The character of a hexadecimal digit value.
pub open spec fn spec_hex_char(d: int) -> char {
    if d < 10 {
        spec_digit_char(d)
    } else if d == 10 {
        'a'
    } else if d == 11 {
        'b'
    } else if d == 12 {
        'c'
    } else if d == 13 {
        'd'
    } else if d == 14 {
        'e'
    } else {
        'f'
    }
}

/// The last `k` hexadecimal digits of a number, most significant first.
pub open spec fn spec_hex_digits(n: int, k: nat) -> Seq<char>
    recommends
        n >= 0,
    decreases k,
{
    if k == 0 {
        Seq::empty()
    } else {
        spec_hex_digits(n / 16, (k - 1) as nat).push(spec_hex_char(n % 16))
    }
}

/// A one-character string for a hexadecimal digit.
fn hex_digit_str(d: u64) -> (s: &'static str)
    requires
        d < 16,
    ensures
        s@ == seq![spec_hex_char(d as int)],
{
    if d < 10 {
        dec_digit_str(d)
    } else {
        proof {
            reveal_strlit("a");
            reveal_strlit("b");
            reveal_strlit("c");
            reveal_strlit("d");
            reveal_strlit("e");
            reveal_strlit("f");
        }
        match d {
            10 => "a",
            11 => "b",
            12 => "c",
            13 => "d",
            14 => "e",
            _ => "f",
        }
    }
}

/// The last `k` hexadecimal digits of `n`, zero-padded.
fn hex_digits(n: u64, k: usize) -> (s: String)
    ensures
        s@ == spec_hex_digits(n as int, k as nat),
    decreases k,
{
    if k == 0 {
        String::new()
    } else {
        let mut front = hex_digits(n / 16, k - 1);
        front.append(hex_digit_str(n % 16));
        proof {
            assert(front@ =~= spec_hex_digits((n / 16) as int, (k - 1) as nat).push(
                spec_hex_char((n % 16) as int),
            ));
        }
        front
    }
}

/// Renders a number as exactly sixteen hexadecimal digits.
pub fn u64_to_hex16(n: u64) -> (s: String)
    ensures
        s@ == spec_hex_digits(n as int, 16),
{
    hex_digits(n, 16)
}

} // verus!
