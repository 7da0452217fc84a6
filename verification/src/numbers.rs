//! Fixed-point reading of JSON number literals.
//!
//! A JSON number reaches the pipeline as its decimal literal. The only
//! numbers the pipeline interprets are confidence scores, which live in
//! [0, 1]; they are read exactly, in thousandths (milli units), truncating
//! toward zero and clamping into [0, 1000]. The reader also decides, exactly,
//! whether the literal's value lies within [0, 1], which is what schema
//! validation asks.
//!
//! Accepted literals: an optional minus sign, integer digits, an optional
//! fraction, and an optional exponent of at most four digits; longer
//! exponents and literals over 100 000 bytes are rejected as malformed.

use vstd::prelude::*;
use vstd::string::StringSliceAdditionalSpecFns;

verus! {

/// Longest accepted literal, in bytes.
pub const MAX_NUMBER_LEN: usize = 100000;

pub open spec fn is_ascii_digit(b: u8) -> bool {
    48 <= b && b <= 57
}

pub open spec fn digit_val(b: u8) -> int {
    b - 48
}

/// End of the run of digits that starts at `i`.
pub open spec fn digit_run(s: Seq<u8>, i: int) -> int
    decreases s.len() - i when 0 <= i <= s.len()
{
    if i >= s.len() || !is_ascii_digit(s[i]) {
        i
    } else {
        digit_run(s, i + 1)
    }
}

pub proof fn lemma_digit_run_facts(s: Seq<u8>, i: int)
    requires
        0 <= i <= s.len(),
    ensures
        i <= digit_run(s, i) <= s.len(),
        forall|k: int| i <= k < digit_run(s, i) ==> is_ascii_digit(#[trigger] s[k]),
    decreases s.len() - i,
{
    if i < s.len() && is_ascii_digit(s[i]) {
        lemma_digit_run_facts(s, i + 1);
    }
}

/// Value of the digit bytes `s[i..j)` read as a decimal numeral.
pub open spec fn digits_value(s: Seq<u8>, i: int, j: int) -> int
    decreases j - i when i <= j
{
    if j <= i {
        0
    } else {
        digits_value(s, i, j - 1) * 10 + digit_val(s[j - 1])
    }
}

/// Index of the first byte in `d` from `i` on that is not '0'; `d.len()`
/// when all remaining bytes are '0'.
pub open spec fn first_nonzero(d: Seq<u8>, i: int) -> int
    decreases d.len() - i when 0 <= i <= d.len()
{
    if i >= d.len() {
        d.len() as int
    } else if d[i] != 48 {
        i
    } else {
        first_nonzero(d, i + 1)
    }
}

/// The digit at index `i` of `d`, taking indexes outside `d` as zero.
pub open spec fn d_at(d: Seq<u8>, i: int) -> int {
    if 0 <= i < d.len() {
        digit_val(d[i])
    } else {
        0
    }
}

// The positions that carve a literal into sign, integer digits, fraction
// digits and exponent. All are functions of the byte sequence alone.
pub open spec fn num_neg(s: Seq<u8>) -> bool {
    s.len() > 0 && s[0] == 45
}

pub open spec fn num_int_start(s: Seq<u8>) -> int {
    if num_neg(s) {
        1
    } else {
        0
    }
}

pub open spec fn num_int_end(s: Seq<u8>) -> int {
    digit_run(s, num_int_start(s))
}

pub open spec fn num_has_frac(s: Seq<u8>) -> bool {
    num_int_end(s) < s.len() && s[num_int_end(s)] == 46
}

pub open spec fn num_frac_start(s: Seq<u8>) -> int {
    num_int_end(s) + 1
}

pub open spec fn num_frac_end(s: Seq<u8>) -> int {
    digit_run(s, num_frac_start(s))
}

pub open spec fn num_exp_pos(s: Seq<u8>) -> int {
    if num_has_frac(s) {
        num_frac_end(s)
    } else {
        num_int_end(s)
    }
}

pub open spec fn num_has_exp(s: Seq<u8>) -> bool {
    num_exp_pos(s) < s.len() && (s[num_exp_pos(s)] == 101 || s[num_exp_pos(s)] == 69)
}

pub open spec fn num_exp_neg(s: Seq<u8>) -> bool {
    num_exp_pos(s) + 1 < s.len() && s[num_exp_pos(s) + 1] == 45
}

pub open spec fn num_exp_digit_start(s: Seq<u8>) -> int {
    if num_exp_pos(s) + 1 < s.len() && (s[num_exp_pos(s) + 1] == 45 || s[num_exp_pos(s) + 1]
        == 43) {
        num_exp_pos(s) + 2
    } else {
        num_exp_pos(s) + 1
    }
}

pub open spec fn num_exp_digit_end(s: Seq<u8>) -> int {
    digit_run(s, num_exp_digit_start(s))
}

/// Whether the literal is well formed: sign, at least one integer digit, a
/// fraction only with digits, an exponent only with one to four digits, and
/// nothing after.
pub open spec fn spec_number_wf(s: Seq<u8>) -> bool {
    &&& s.len() <= MAX_NUMBER_LEN
    &&& num_int_end(s) > num_int_start(s)
    &&& (num_has_frac(s) ==> num_frac_end(s) > num_frac_start(s))
    &&& (if num_has_exp(s) {
        &&& num_exp_digit_end(s) > num_exp_digit_start(s)
        &&& num_exp_digit_end(s) - num_exp_digit_start(s) <= 4
        &&& num_exp_digit_end(s) == s.len()
    } else {
        num_exp_pos(s) == s.len()
    })
}

/// The literal's significant digits: integer digits then fraction digits.
pub open spec fn num_digits(s: Seq<u8>) -> Seq<u8> {
    if num_has_frac(s) {
        s.subrange(num_int_start(s), num_int_end(s)) + s.subrange(
            num_frac_start(s),
            num_frac_end(s),
        )
    } else {
        s.subrange(num_int_start(s), num_int_end(s))
    }
}

/// The signed exponent value.
pub open spec fn num_exp_val(s: Seq<u8>) -> int {
    if num_has_exp(s) {
        if num_exp_neg(s) {
            -digits_value(s, num_exp_digit_start(s), num_exp_digit_end(s))
        } else {
            digits_value(s, num_exp_digit_start(s), num_exp_digit_end(s))
        }
    } else {
        0
    }
}

/// Position of the decimal point within `num_digits`: the digit at index
/// `i` weighs `10 ^ (point - 1 - i)`.
pub open spec fn num_point(s: Seq<u8>) -> int {
    num_int_end(s) - num_int_start(s) + num_exp_val(s)
}

/// Whether the literal's value is strictly greater than one.
pub open spec fn spec_number_gt_one(s: Seq<u8>) -> bool {
    let d = num_digits(s);
    let f = first_nonzero(d, 0);
    let p = num_point(s);
    &&& f < d.len()
    &&& {
        ||| p - f >= 2
        ||| (p - f == 1 && (d[f] > 49 || first_nonzero(d, f + 1) < d.len()))
    }
}

/// Whether the literal's value lies within [0, 1]. A value of zero is
/// within, whatever its written sign.
pub open spec fn spec_number_in_unit(s: Seq<u8>) -> bool {
    let d = num_digits(s);
    ||| first_nonzero(d, 0) == d.len()
    ||| (!num_neg(s) && !spec_number_gt_one(s))
}

/// The literal's value in thousandths, truncated toward zero and clamped
/// into [0, 1000]: negative values read as 0, values above one as 1000.
pub open spec fn spec_number_milli(s: Seq<u8>) -> u32 {
    let d = num_digits(s);
    let f = first_nonzero(d, 0);
    let p = num_point(s);
    if f == d.len() {
        0
    } else if num_neg(s) {
        0
    } else if spec_number_gt_one(s) {
        1000
    } else if p - f == 1 {
        1000
    } else {
        (d_at(d, p) * 100 + d_at(d, p + 1) * 10 + d_at(d, p + 2)) as u32
    }
}

/// Finds the end of a digit run, as `digit_run` names it.
fn run_digits(b: &[u8], from: usize) -> (r: usize)
    requires
        from <= b@.len(),
    ensures
        r == digit_run(b@, from as int),
        from <= r <= b@.len(),
        forall|k: int| from <= k < r ==> is_ascii_digit(#[trigger] b@[k]),
{
    let n = b.len();
    let mut j = from;
    loop
        invariant
            from <= j <= n,
            n == b@.len(),
            digit_run(b@, from as int) == digit_run(b@, j as int),
        ensures
            from <= j <= n,
            digit_run(b@, from as int) == j,
        decreases n - j,
    {
        if j >= n {
            break;
        }
        let c = *vstd::slice::slice_index_get(b, j);
        if !(48 <= c && c <= 57) {
            break;
        }
        j = j + 1;
    }
    proof {
        lemma_digit_run_facts(b@, from as int);
    }
    j
}

/// Finds the first byte that is not '0', as `first_nonzero` names it.
fn scan_nonzero(d: &Vec<u8>, from: usize) -> (r: usize)
    requires
        from <= d@.len(),
    ensures
        r == first_nonzero(d@, from as int),
        from <= r <= d@.len(),
{
    let n = d.len();
    let mut j = from;
    loop
        invariant
            from <= j <= n,
            n == d@.len(),
            first_nonzero(d@, from as int) == first_nonzero(d@, j as int),
        ensures
            from <= j <= n,
            first_nonzero(d@, from as int) == j,
        decreases n - j,
    {
        if j >= n {
            break;
        }
        if d[j] != 48 {
            break;
        }
        j = j + 1;
    }
    j
}

/// The digit at a possibly out-of-range index, zero outside.
fn digit_at(d: &Vec<u8>, i: i64) -> (r: u32)
    requires
        d@.len() <= MAX_NUMBER_LEN,
        forall|k: int| 0 <= k < d@.len() ==> is_ascii_digit(#[trigger] d@[k]),
    ensures
        r == d_at(d@, i as int),
        r <= 9,
{
    let n = d.len();
    if 0 <= i && i < n as i64 {
        (d[i as usize] - 48) as u32
    } else {
        0
    }
}

/// Reads a confidence literal: whether it is well formed, whether its value
/// lies within [0, 1], and its clamped value in thousandths.
pub fn unit_number(lit: &str) -> (r: Option<(bool, u32)>)
    ensures
        match r {
            Some(p) => {
                &&& spec_number_wf(lit.spec_bytes())
                &&& p.0 == spec_number_in_unit(lit.spec_bytes())
                &&& p.1 == spec_number_milli(lit.spec_bytes())
                &&& p.1 <= 1000
            },
            None => !spec_number_wf(lit.spec_bytes()),
        },
{
    let b = lit.as_bytes();
    let ghost s = lit.spec_bytes();
    let n = b.len();
    if n == 0 || n > MAX_NUMBER_LEN {
        return None;
    }
    let neg = *vstd::slice::slice_index_get(b, 0) == 45;
    let i0: usize = if neg {
        1
    } else {
        0
    };
    let ie = run_digits(b, i0);
    if ie == i0 {
        return None;
    }
    let has_frac = ie < n && *vstd::slice::slice_index_get(b, ie) == 46;
    let fs: usize = if has_frac {
        ie + 1
    } else {
        ie
    };
    let fe: usize = if has_frac {
        run_digits(b, fs)
    } else {
        ie
    };
    if has_frac && fe == fs {
        return None;
    }
    let epos: usize = if has_frac {
        fe
    } else {
        ie
    };
    assert(epos == num_exp_pos(s));
    let exp_marker: u8 = if epos < n {
        *vstd::slice::slice_index_get(b, epos)
    } else {
        0
    };
    let has_exp = epos < n && (exp_marker == 101 || exp_marker == 69);
    if !has_exp {
        if epos != n {
            return None;
        }
    }
    let mut exp_val: i64 = 0;
    if has_exp {
        let exp_sign_byte: u8 = if epos + 1 < n {
            *vstd::slice::slice_index_get(b, epos + 1)
        } else {
            0
        };
        let exp_neg = exp_sign_byte == 45;
        let ed0: usize = if exp_sign_byte == 45 || exp_sign_byte == 43 {
            epos + 2
        } else {
            epos + 1
        };
        assert(ed0 == num_exp_digit_start(s));
        if ed0 > n {
            return None;
        }
        let ee = run_digits(b, ed0);
        if ee == ed0 || ee - ed0 > 4 || ee != n {
            return None;
        }
        let mut j = ed0;
        while j < ee
            invariant
                ed0 <= j <= ee <= n,
                n == s.len(),
                b@ == s,
                ee - ed0 <= 4,
                exp_val == digits_value(s, ed0 as int, j as int),
                0 <= exp_val <= 9999,
                forall|k: int| ed0 <= k < ee ==> is_ascii_digit(#[trigger] s[k]),
            decreases ee - j,
        {
            let c = *vstd::slice::slice_index_get(b, j);
            proof {
                assert(is_ascii_digit(s[j as int]));
                assert(digits_value(s, ed0 as int, j as int + 1) == digits_value(
                    s,
                    ed0 as int,
                    j as int,
                ) * 10 + digit_val(s[j as int]));
                assert(j as int + 1 - ed0 <= 4);
                lemma_digits_value_bound(s, ed0 as int, j as int + 1);
            }
            exp_val = exp_val * 10 + ((c - 48) as i64);
            j = j + 1;
        }
        if exp_neg {
            exp_val = -exp_val;
        }
        assert(exp_val == num_exp_val(s));
    } else {
        assert(exp_val == num_exp_val(s));
    }
    // Gather the significant digits.
    let int_part = vstd::slice::slice_subrange(b, i0, ie);
    let mut digits: Vec<u8> = vstd::slice::slice_to_vec(int_part);
    if has_frac {
        let frac_part = vstd::slice::slice_subrange(b, fs, fe);
        let mut tail = vstd::slice::slice_to_vec(frac_part);
        digits.append(&mut tail);
    }
    assert(digits@ =~= num_digits(s));
    assert(forall|k: int| 0 <= k < digits@.len() ==> is_ascii_digit(#[trigger] digits@[k])) by {
        assert(forall|k: int| i0 <= k < ie ==> is_ascii_digit(#[trigger] s[k]));
        assert(forall|k: int| fs <= k < fe ==> is_ascii_digit(#[trigger] s[k]));
    }
    let f = scan_nonzero(&digits, 0);
    let dn = digits.len();
    // point position: int digit count plus exponent
    let p: i64 = (ie - i0) as i64 + exp_val;
    assert(p == num_point(s));
    if f == dn {
        return Some((true, 0));
    }
    let after: usize = if f + 1 <= dn {
        scan_nonzero(&digits, f + 1)
    } else {
        dn
    };
    let gt_one = p - (f as i64) >= 2 || (p - (f as i64) == 1 && (digits[f] > 49 || after < dn));
    assert(gt_one == spec_number_gt_one(s));
    let within = !neg && !gt_one;
    assert(within == spec_number_in_unit(s));
    let milli: u32 = if neg {
        0
    } else if gt_one {
        1000
    } else if p - (f as i64) == 1 {
        1000
    } else {
        digit_at(&digits, p) * 100 + digit_at(&digits, p + 1) * 10 + digit_at(&digits, p + 2)
    };
    assert(milli == spec_number_milli(s));
    Some((within, milli))
}

pub proof fn lemma_digits_value_bound(s: Seq<u8>, i: int, j: int)
    requires
        i <= j,
        forall|k: int| i <= k < j ==> is_ascii_digit(#[trigger] s[k]),
        j - i <= 4,
    ensures
        0 <= digits_value(s, i, j),
        j - i == 0 ==> digits_value(s, i, j) == 0,
        j - i <= 1 ==> digits_value(s, i, j) <= 9,
        j - i <= 2 ==> digits_value(s, i, j) <= 99,
        j - i <= 3 ==> digits_value(s, i, j) <= 999,
        digits_value(s, i, j) <= 9999,
    decreases j - i,
{
    if j > i {
        lemma_digits_value_bound(s, i, j - 1);
    }
}


/// Length of a leading '+' or '-' sign.
pub open spec fn int_sign_len(s: Seq<u8>) -> int {
    if s.len() > 0 && (s[0] == 45 || s[0] == 43) {
        1
    } else {
        0
    }
}

/// Whether the bytes are a well-formed signed integer numeral: an optional
/// sign, then one or more digits and nothing else.
pub open spec fn spec_int_wf(s: Seq<u8>) -> bool {
    s.len() > int_sign_len(s) && digit_run(s, int_sign_len(s)) == s.len()
}

/// The numeral's mathematical value.
pub open spec fn spec_int_value(s: Seq<u8>) -> int {
    if s.len() > 0 && s[0] == 45 {
        -digits_value(s, int_sign_len(s), s.len() as int)
    } else {
        digits_value(s, int_sign_len(s), s.len() as int)
    }
}

/// What `str::parse::<i64>` yields on these bytes: the value when the
/// numeral is well formed and fits, `None` otherwise.
pub open spec fn spec_parse_i64(s: Seq<u8>) -> Option<i64> {
    if spec_int_wf(s) && i64::MIN <= spec_int_value(s) <= i64::MAX {
        Some(spec_int_value(s) as i64)
    } else {
        None
    }
}

pub proof fn lemma_digits_value_mono(s: Seq<u8>, i: int, j: int, k: int)
    requires
        i <= j <= k,
        forall|m: int| i <= m < k ==> is_ascii_digit(#[trigger] s[m]),
    ensures
        0 <= digits_value(s, i, j) <= digits_value(s, i, k),
    decreases k - j,
{
    if k == j {
        lemma_digits_value_nonneg(s, i, j);
    } else {
        lemma_digits_value_mono(s, i, j, k - 1);
    }
}

pub proof fn lemma_digits_value_nonneg(s: Seq<u8>, i: int, j: int)
    requires
        i <= j,
        forall|m: int| i <= m < j ==> is_ascii_digit(#[trigger] s[m]),
    ensures
        0 <= digits_value(s, i, j),
    decreases j - i,
{
    if j > i {
        lemma_digits_value_nonneg(s, i, j - 1);
    }
}

/// Parses a signed 64-bit integer, exactly as the standard numeric parser
/// reads it: `None` on a malformed numeral or one out of range.
pub fn parse_i64(s: &str) -> (r: Option<i64>)
    ensures
        r == spec_parse_i64(s.spec_bytes()),
{
    let b = s.as_bytes();
    let ghost sb = s.spec_bytes();
    let n = b.len();
    if n == 0 {
        return None;
    }
    let first = *vstd::slice::slice_index_get(b, 0);
    let neg = first == 45;
    let d0: usize = if first == 45 || first == 43 {
        1
    } else {
        0
    };
    if d0 >= n {
        return None;
    }
    let de = run_digits(b, d0);
    if de == d0 || de != n {
        return None;
    }
    let mut acc: i64 = 0;
    let mut j = d0;
    while j < n
        invariant
            d0 <= j <= n,
            n == sb.len(),
            b@ == sb,
            sb == s.spec_bytes(),
            forall|m: int| d0 <= m < n ==> is_ascii_digit(#[trigger] sb[m]),
            acc == -digits_value(sb, d0 as int, j as int),
            acc <= 0,
            spec_int_wf(sb),
            int_sign_len(sb) == d0,
            (sb[0] == 45) == neg,
        decreases n - j,
    {
        let d = (*vstd::slice::slice_index_get(b, j) - 48) as i64;
        proof {
            assert(digits_value(sb, d0 as int, j as int + 1) == digits_value(
                sb,
                d0 as int,
                j as int,
            ) * 10 + digit_val(sb[j as int]));
            lemma_digits_value_mono(sb, d0 as int, j as int + 1, n as int);
        }
        let ghost big = digits_value(sb, d0 as int, n as int);
        let ghost next = digits_value(sb, d0 as int, j as int + 1);
        let shifted = match acc.checked_mul(10) {
            Some(x) => x,
            None => {
                proof {
                    assert(acc * 10 < i64::MIN);
                    assert(next > i64::MAX);
                    assert(big >= next);
                    assert(spec_int_value(sb) > i64::MAX || spec_int_value(sb) < i64::MIN);
                }
                return None;
            },
        };
        acc = match shifted.checked_sub(d) {
            Some(x) => x,
            None => {
                proof {
                    assert(shifted - d < i64::MIN);
                    assert(next > i64::MAX);
                    assert(big >= next);
                    assert(spec_int_value(sb) > i64::MAX || spec_int_value(sb) < i64::MIN);
                }
                return None;
            },
        };
        j = j + 1;
    }
    if neg {
        Some(acc)
    } else if acc == i64::MIN {
        None
    } else {
        Some(-acc)
    }
}

} // verus!
