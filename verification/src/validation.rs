//! Validation of the product edit form.
//!
//! The price field must hold a plain decimal number — an optional sign,
//! digits, and at most one dot — and the quantity field a plain integer.
//! Both are parsed here exactly, digit by digit, so each of the distinct
//! rejection messages can be tied to the precise condition that causes it,
//! and every rejection happens before any store write.
//!
//! The plain-decimal grammar is a deliberate choice: exponent and special
//! floating-point spellings (`1e3`, `inf`, `NaN`) are rejected as not a
//! valid number. The store carries prices as decimal strings, and a
//! written `NaN` would otherwise slip past both the negativity and the
//! upper-bound check.

use vstd::prelude::*;
use vstd::string::StrSliceExecFns;
use vstd::string::StringExecFns;
use vstd::utf8::encode_utf8;
use crate::models::EditProductForm;
use crate::text::{is_blank, is_blank_seq, spec_trim, trimmed};

verus! {

/// A decimal digit character.
pub open spec fn is_digit_char(c: char) -> bool {
    48 <= c as u32 && c as u32 <= 57
}

/// The value of a decimal digit character.
pub open spec fn digit_val(c: char) -> int {
    c as u32 - 48
}

/// Every character of `s` is a decimal digit.
pub open spec fn all_digits(s: Seq<char>) -> bool {
    forall|i: int| 0 <= i < s.len() ==> is_digit_char(#[trigger] s[i])
}

/// The number written by a sequence of digit characters, most significant
/// digit first; leading zeros are allowed and the empty sequence reads 0.
pub open spec fn dec_val(s: Seq<char>) -> int
    decreases s.len(),
{
    if s.len() == 0 {
        0
    } else {
        dec_val(s.drop_last()) * 10 + digit_val(s.last())
    }
}

/// Some digit of `s` is not zero.
pub open spec fn has_nonzero_digit(s: Seq<char>) -> bool {
    exists|i: int|
        0 <= i < s.len() && is_digit_char(#[trigger] s[i]) && digit_val(s[i]) != 0
}

/// `s` begins with an explicit sign character.
pub open spec fn has_sign(s: Seq<char>) -> bool {
    s.len() > 0 && (s[0] == '+' || s[0] == '-')
}

/// `s` begins with a minus sign.
pub open spec fn minus_signed(s: Seq<char>) -> bool {
    s.len() > 0 && s[0] == '-'
}

/// `s` with its sign character, if any, removed.
pub open spec fn num_body(s: Seq<char>) -> Seq<char> {
    if has_sign(s) {
        s.drop_first()
    } else {
        s
    }
}

/// The characters of `s` before its first dot (all of `s` when it has
/// none).
pub open spec fn before_dot(s: Seq<char>) -> Seq<char>
    decreases s.len(),
{
    if s.len() == 0 {
        Seq::empty()
    } else if s[0] == '.' {
        Seq::empty()
    } else {
        seq![s[0]] + before_dot(s.drop_first())
    }
}

/// The characters of `s` after its first dot (empty when it has none).
pub open spec fn after_dot(s: Seq<char>) -> Seq<char>
    decreases s.len(),
{
    if s.len() == 0 {
        Seq::empty()
    } else if s[0] == '.' {
        s.drop_first()
    } else {
        after_dot(s.drop_first())
    }
}

/// `s` contains a dot somewhere.
pub open spec fn contains_dot(s: Seq<char>) -> bool {
    exists|i: int| 0 <= i < s.len() && #[trigger] s[i] == '.'
}

proof fn lemma_contains_dot_drop_first(s: Seq<char>)
    requires
        s.len() > 0,
        s[0] != '.',
    ensures
        contains_dot(s) == contains_dot(s.drop_first()),
{
    if contains_dot(s) {
        let k = choose|i: int| 0 <= i < s.len() && s[i] == '.';
        assert(k != 0);
        assert(s.drop_first()[k - 1] == '.');
    }
    if contains_dot(s.drop_first()) {
        let k = choose|i: int| 0 <= i < s.drop_first().len() && s.drop_first()[i] == '.';
        assert(s[k + 1] == '.');
    }
}

proof fn lemma_dot_push(x: Seq<char>, c: char)
    ensures
        before_dot(x.push(c)) == if contains_dot(x) {
            before_dot(x)
        } else if c == '.' {
            x
        } else {
            x.push(c)
        },
        after_dot(x.push(c)) == if contains_dot(x) {
            after_dot(x).push(c)
        } else {
            Seq::<char>::empty()
        },
    decreases x.len(),
{
    if x.len() == 0 {
        assert(x.push(c)[0] == c);
        if c == '.' {
            assert(before_dot(x.push(c)) =~= Seq::<char>::empty());
            assert(x =~= Seq::<char>::empty());
            assert(x.push(c).drop_first() =~= Seq::<char>::empty());
            assert(after_dot(x.push(c)) =~= Seq::<char>::empty());
        } else {
            assert(x.push(c).drop_first() =~= Seq::<char>::empty());
            assert(before_dot(x.push(c).drop_first()) =~= Seq::<char>::empty());
            assert(before_dot(x.push(c)) == seq![x.push(c)[0]] + before_dot(x.push(c).drop_first()));
            assert(before_dot(x.push(c)) =~= x.push(c));
            assert(after_dot(x.push(c)) == after_dot(x.push(c).drop_first()));
            assert(after_dot(x.push(c)) =~= Seq::<char>::empty());
        }
    } else if x[0] == '.' {
        assert(contains_dot(x));
        assert(x.push(c)[0] == '.');
        assert(before_dot(x.push(c)) =~= Seq::<char>::empty());
        assert(before_dot(x) =~= Seq::<char>::empty());
        assert(x.push(c).drop_first() =~= x.drop_first().push(c));
        assert(after_dot(x.push(c)) == x.drop_first().push(c));
        assert(after_dot(x) == x.drop_first());
    } else {
        lemma_dot_push(x.drop_first(), c);
        lemma_contains_dot_drop_first(x);
        assert(x.push(c)[0] == x[0]);
        assert(x.push(c).drop_first() =~= x.drop_first().push(c));
        if contains_dot(x) {
            assert(before_dot(x.push(c)) =~= seq![x[0]] + before_dot(x.drop_first()));
            assert(after_dot(x.push(c)) == after_dot(x.drop_first()).push(c));
        } else {
            if c == '.' {
                assert(before_dot(x.push(c)) =~= seq![x[0]] + x.drop_first());
                assert(seq![x[0]] + x.drop_first() =~= x);
            } else {
                assert(before_dot(x.push(c)) =~= seq![x[0]] + x.drop_first().push(c));
                assert(seq![x[0]] + x.drop_first().push(c) =~= x.push(c));
            }
        }
    }
}

proof fn lemma_dot_decompose(s: Seq<char>)
    requires
        contains_dot(s),
    ensures
        s =~= before_dot(s) + seq!['.'] + after_dot(s),
        !contains_dot(before_dot(s)),
        before_dot(s).len() < s.len(),
    decreases s.len(),
{
    if s[0] == '.' {
        assert(s =~= Seq::<char>::empty() + seq!['.'] + s.drop_first());
        assert(before_dot(s) =~= Seq::<char>::empty());
    } else {
        lemma_contains_dot_drop_first(s);
        lemma_dot_decompose(s.drop_first());
        assert(s =~= seq![s[0]] + s.drop_first());
        assert(before_dot(s) =~= seq![s[0]] + before_dot(s.drop_first()));
        if contains_dot(before_dot(s)) {
            let k = choose|i: int|
                0 <= i < before_dot(s).len() && #[trigger] before_dot(s)[i] == '.';
            assert(k != 0);
            assert(before_dot(s.drop_first())[k - 1] == '.');
        }
    }
}

proof fn lemma_no_dot(s: Seq<char>)
    requires
        !contains_dot(s),
    ensures
        before_dot(s) == s,
        after_dot(s) == Seq::<char>::empty(),
    decreases s.len(),
{
    if s.len() > 0 {
        assert(s[0] != '.');
        assert(!contains_dot(s.drop_first())) by {
            if contains_dot(s.drop_first()) {
                let k = choose|i: int|
                    0 <= i < s.drop_first().len() && #[trigger] s.drop_first()[i] == '.';
                assert(s[k + 1] == '.');
            }
        }
        lemma_no_dot(s.drop_first());
        assert(before_dot(s) =~= s);
    }
}

/// Digit sequences read as non-negative numbers.
pub proof fn lemma_dec_val_nonneg(s: Seq<char>)
    requires
        all_digits(s),
    ensures
        dec_val(s) >= 0,
    decreases s.len(),
{
    if s.len() > 0 {
        assert(all_digits(s.drop_last())) by {
            assert(forall|i: int|
                0 <= i < s.drop_last().len() ==> #[trigger] s.drop_last()[i] == s[i]);
        }
        lemma_dec_val_nonneg(s.drop_last());
    }
}

/// A digit sequence reads 0 exactly when every digit is zero.
pub proof fn lemma_dec_val_zero(s: Seq<char>)
    requires
        all_digits(s),
    ensures
        (dec_val(s) == 0) <==> !has_nonzero_digit(s),
    decreases s.len(),
{
    if s.len() > 0 {
        assert(all_digits(s.drop_last())) by {
            assert(forall|i: int|
                0 <= i < s.drop_last().len() ==> #[trigger] s.drop_last()[i] == s[i]);
        }
        lemma_dec_val_nonneg(s.drop_last());
        lemma_dec_val_zero(s.drop_last());
        if dec_val(s) == 0 {
            assert(dec_val(s.drop_last()) == 0 && digit_val(s.last()) == 0);
            if has_nonzero_digit(s) {
                let k = choose|i: int|
                    0 <= i < s.len() && is_digit_char(#[trigger] s[i]) && digit_val(s[i]) != 0;
                if k < s.len() - 1 {
                    assert(s.drop_last()[k] == s[k]);
                    assert(has_nonzero_digit(s.drop_last()));
                }
            }
        } else {
            if dec_val(s.drop_last()) != 0 {
                let k = choose|i: int|
                    0 <= i < s.drop_last().len() && is_digit_char(#[trigger] s.drop_last()[i])
                        && digit_val(s.drop_last()[i]) != 0;
                assert(s[k] == s.drop_last()[k]);
                assert(has_nonzero_digit(s));
            } else {
                assert(digit_val(s.last()) != 0);
                assert(s[s.len() - 1] == s.last());
                assert(has_nonzero_digit(s));
            }
        }
    }
}

/// The body of a well-formed plain decimal number: at least one digit, and
/// either all digits, or digits split by a single dot.
pub open spec fn price_grammar_ok(t: Seq<char>) -> bool {
    let b = num_body(t);
    &&& b.len() >= 1
    &&& if contains_dot(b) {
        all_digits(before_dot(b)) && all_digits(after_dot(b)) && before_dot(b).len() + after_dot(
            b,
        ).len() >= 1
    } else {
        all_digits(b)
    }
}

/// A well-formed price is rejected as negative when it carries a minus
/// sign and any digit is non-zero (a written negative zero is allowed, as
/// it reads 0).
pub open spec fn price_negative(t: Seq<char>) -> bool {
    minus_signed(t) && has_nonzero_digit(num_body(t))
}

/// The fraction digits read as more than ninety-nine hundredths: they
/// begin `99` and some later digit is non-zero.
pub open spec fn frac_gt_99(f: Seq<char>) -> bool {
    f.len() >= 3 && digit_val(f[0]) == 9 && digit_val(f[1]) == 9 && exists|i: int|
        2 <= i < f.len() && digit_val(#[trigger] f[i]) != 0
}

/// A well-formed price reads as more than 999,999.99.
pub open spec fn price_exceeds_max(t: Seq<char>) -> bool {
    dec_val(before_dot(num_body(t))) > 999999 || (dec_val(before_dot(num_body(t))) == 999999
        && frac_gt_99(after_dot(num_body(t))))
}

/// The body of a well-formed plain integer: at least one digit and nothing
/// else.
pub open spec fn qty_grammar_ok(t: Seq<char>) -> bool {
    num_body(t).len() >= 1 && all_digits(num_body(t))
}

/// The magnitude a well-formed integer string reads as.
pub open spec fn qty_abs(t: Seq<char>) -> int {
    dec_val(num_body(t))
}

/// A well-formed integer string parses as a 32-bit value.
pub open spec fn qty_in_i32(t: Seq<char>) -> bool {
    if minus_signed(t) {
        qty_abs(t) <= 0x8000_0000
    } else {
        qty_abs(t) <= 0x7fff_ffff
    }
}

/// The quantity string parses: well-formed and within the 32-bit range.
pub open spec fn qty_parse_ok(t: Seq<char>) -> bool {
    qty_grammar_ok(t) && qty_in_i32(t)
}

/// A parsed quantity is rejected as negative when it carries a minus sign
/// and reads non-zero.
pub open spec fn qty_negative(t: Seq<char>) -> bool {
    minus_signed(t) && qty_abs(t) > 0
}

/// What a successful price parse carries: the whole part clamped just
/// above the acceptance bound, the fraction digit values in order, and the
/// two flags the validation rules need.
struct PriceParts {
    neg: bool,
    whole: u64,
    frac: Vec<u8>,
    any_nonzero: bool,
    frac_over_99: bool,
}

/// Cap for the accumulated whole part: anything at or above it is already
/// over the acceptance bound, so growth beyond it need not be tracked.
const WHOLE_CAP: u64 = 10_000_000;

/// Cap for the accumulated quantity magnitude, just above the 32-bit
/// range.
const QTY_CAP: u64 = 3_000_000_000;

fn parse_price_str(t: &str) -> (r: Option<PriceParts>)
    ensures
        r is Some <==> price_grammar_ok(t@),
        r matches Some(p) ==> {
            &&& p.neg == minus_signed(t@)
            &&& if dec_val(before_dot(num_body(t@))) <= WHOLE_CAP {
                p.whole == dec_val(before_dot(num_body(t@)))
            } else {
                p.whole == WHOLE_CAP
            }
            &&& p.frac@.len() == after_dot(num_body(t@)).len()
            &&& forall|i: int|
                0 <= i < p.frac@.len() ==> #[trigger] p.frac@[i] as int == digit_val(
                    after_dot(num_body(t@))[i],
                )
            &&& p.any_nonzero == has_nonzero_digit(num_body(t@))
            &&& p.frac_over_99 == frac_gt_99(after_dot(num_body(t@)))
        },
{
    let len = t.unicode_len();
    let mut neg = false;
    let mut start: usize = 0;
    if len > 0 {
        let c0 = t.get_char(0);
        if c0 == '+' || c0 == '-' {
            neg = c0 == '-';
            start = 1;
        }
    }
    let body = t.substring_char(start, len);
    proof {
        assert(body@ =~= num_body(t@));
    }
    let blen = body.unicode_len();
    let ghost b = body@;

    let mut whole: u64 = 0;
    let mut frac: Vec<u8> = Vec::new();
    let mut any_nonzero = false;
    let mut seen_dot = false;
    let mut saw_digit = false;
    let mut i: usize = 0;
    while i < blen
        invariant
            0 <= i <= blen,
            blen == b.len(),
            body@ == b,
            b == num_body(t@),
            neg == minus_signed(t@),
            seen_dot == contains_dot(b.take(i as int)),
            !seen_dot ==> {
                &&& all_digits(b.take(i as int))
                &&& frac@.len() == 0
            },
            seen_dot ==> {
                &&& all_digits(before_dot(b.take(i as int)))
                &&& all_digits(after_dot(b.take(i as int)))
                &&& frac@.len() == after_dot(b.take(i as int)).len()
                &&& forall|j: int|
                    0 <= j < frac@.len() ==> #[trigger] frac@[j] as int == digit_val(
                        after_dot(b.take(i as int))[j],
                    )
            },
            if dec_val(before_dot(b.take(i as int))) <= WHOLE_CAP {
                whole == dec_val(before_dot(b.take(i as int)))
            } else {
                whole == WHOLE_CAP
            },
            any_nonzero == has_nonzero_digit(b.take(i as int)),
            saw_digit == exists|j: int|
                0 <= j < i && is_digit_char(#[trigger] b[j]),
        decreases blen - i,
    {
        let ghost pre = b.take(i as int);
        let c = body.get_char(i);
        proof {
            assert(b.take(i + 1) =~= pre.push(c));
            lemma_dot_push(pre, c);
            if !contains_dot(pre) {
                lemma_no_dot(pre);
                lemma_dec_val_nonneg(pre);
            } else {
                lemma_dec_val_nonneg(before_dot(pre));
            }
        }
        let u = c as u32;
        if 48 <= u && u <= 57 {
            let d = (u - 48) as u64;
            if !seen_dot {
                let cand = whole * 10 + d;
                whole = if cand > WHOLE_CAP {
                    WHOLE_CAP
                } else {
                    cand
                };
                proof {
                    assert(before_dot(pre.push(c)) == pre.push(c));
                    assert(dec_val(pre.push(c)) == dec_val(pre.push(c).drop_last()) * 10
                        + digit_val(pre.push(c).last()));
                    assert(pre.push(c).drop_last() =~= pre);
                    assert(all_digits(pre.push(c))) by {
                        assert(forall|j: int|
                            0 <= j < pre.len() ==> #[trigger] pre.push(c)[j] == pre[j]);
                    }
                }
            } else {
                frac.push((u - 48) as u8);
                proof {
                    assert(after_dot(pre.push(c)) == after_dot(pre).push(c));
                    assert(before_dot(pre.push(c)) == before_dot(pre));
                    assert(all_digits(after_dot(pre).push(c))) by {
                        assert(forall|j: int|
                            0 <= j < after_dot(pre).len() ==> #[trigger] after_dot(pre).push(c)[j]
                                == after_dot(pre)[j]);
                    }
                }
            }
            if u != 48 {
                any_nonzero = true;
            }
            saw_digit = true;
            proof {
                assert(has_nonzero_digit(pre.push(c)) == (has_nonzero_digit(pre) || digit_val(c)
                    != 0)) by {
                    assert(pre.push(c)[pre.len() as int] == c);
                    assert(forall|j: int| 0 <= j < pre.len() ==> #[trigger] pre.push(c)[j] == pre[j]);
                    if has_nonzero_digit(pre) {
                        let k = choose|j: int|
                            0 <= j < pre.len() && is_digit_char(#[trigger] pre[j]) && digit_val(
                                pre[j],
                            ) != 0;
                        assert(pre.push(c)[k] == pre[k]);
                    }
                }
                assert(b[i as int] == c);
            }
        } else if c == '.' && !seen_dot {
            seen_dot = true;
            proof {
                assert(before_dot(pre.push(c)) == pre);
                assert(after_dot(pre.push(c)) =~= Seq::<char>::empty());
                assert(contains_dot(pre.push(c))) by {
                    assert(pre.push(c)[pre.len() as int] == '.');
                }
                assert(!is_digit_char(c));
                assert((exists|j: int| 0 <= j < i + 1 && is_digit_char(#[trigger] b[j])) == (
                exists|j: int| 0 <= j < i && is_digit_char(#[trigger] b[j]))) by {
                    if exists|j: int| 0 <= j < i + 1 && is_digit_char(#[trigger] b[j]) {
                        let k = choose|j: int| 0 <= j < i + 1 && is_digit_char(#[trigger] b[j]);
                        assert(b[i as int] == c);
                        assert(k != i);
                    }
                }
                assert(has_nonzero_digit(pre.push(c)) == has_nonzero_digit(pre)) by {
                    assert(forall|j: int| 0 <= j < pre.len() ==> #[trigger] pre.push(c)[j] == pre[j]);
                    if has_nonzero_digit(pre.push(c)) {
                        let k = choose|j: int|
                            0 <= j < pre.push(c).len() && is_digit_char(#[trigger] pre.push(c)[j])
                                && digit_val(pre.push(c)[j]) != 0;
                        assert(k != pre.len());
                        assert(pre[k] == pre.push(c)[k]);
                    }
                }
            }
        } else {
            proof {
                if price_grammar_ok(t@) {
                    assert(b[i as int] == c);
                    if contains_dot(b) {
                        lemma_dot_decompose(b);
                        let bl = before_dot(b).len() as int;
                        if i < bl {
                            assert(b[i as int] == before_dot(b)[i as int]);
                            assert(is_digit_char(c));
                        } else if i == bl {
                            assert(b[i as int] == '.');
                            if seen_dot {
                                let k = choose|j: int|
                                    0 <= j < pre.len() && #[trigger] pre[j] == '.';
                                assert(b[k] == '.');
                                if k < bl {
                                    assert(b[k] == before_dot(b)[k]);
                                    assert(!contains_dot(before_dot(b)));
                                }
                            }
                        } else {
                            assert(b[i as int] == after_dot(b)[i - bl - 1]);
                            assert(is_digit_char(c));
                            if c == '.' {
                                assert(false);
                            }
                        }
                        if c == '.' && !seen_dot {
                            assert(false);
                        }
                    } else {
                        assert(is_digit_char(b[i as int]));
                    }
                    assert(false);
                }
            }
            return None;
        }
        i += 1;
    }
    proof {
        assert(b.take(blen as int) =~= b);
    }
    if !saw_digit {
        proof {
            if price_grammar_ok(t@) {
                if contains_dot(b) {
                    lemma_dot_decompose(b);
                    if before_dot(b).len() >= 1 {
                        assert(b[0] == before_dot(b)[0]);
                        assert(is_digit_char(b[0]));
                    } else {
                        let bl = before_dot(b).len() as int;
                        assert(after_dot(b).len() >= 1);
                        assert(b[bl + 1] == after_dot(b)[0]);
                        assert(is_digit_char(b[bl + 1]));
                    }
                } else {
                    assert(b.len() >= 1);
                    assert(is_digit_char(b[0]));
                }
                assert(false);
            }
        }
        return None;
    }
    let frac_over_99 = frac_over_limit(&frac);
    proof {
        assert(exists|j: int| 0 <= j < blen && is_digit_char(#[trigger] b[j]));
        let k = choose|j: int| 0 <= j < blen && is_digit_char(#[trigger] b[j]);
        assert(b.len() >= 1);
        if contains_dot(b) {
            lemma_dot_decompose(b);
            if before_dot(b).len() + after_dot(b).len() == 0 {
                assert(b =~= seq!['.']);
                assert(is_digit_char(b[k]));
                assert(false);
            }
        } else {
            lemma_no_dot(b);
        }
        assert(price_grammar_ok(t@));
        let f = after_dot(b);
        assert(frac@.len() == f.len());
        assert(frac_over_99 == frac_gt_99(f)) by {
            if frac_gt_99(f) {
                let j = choose|j: int| 2 <= j < f.len() && digit_val(#[trigger] f[j]) != 0;
                assert(frac@[j] as int == digit_val(f[j]));
                assert(frac@[0] as int == digit_val(f[0]));
                assert(frac@[1] as int == digit_val(f[1]));
                assert(frac@[j] != 0);
            }
            if frac_over_99 {
                let j = choose|j: int| 2 <= j < frac@.len() && #[trigger] frac@[j] != 0;
                assert(frac@[j] as int == digit_val(f[j]));
                assert(frac@[0] as int == digit_val(f[0]));
                assert(frac@[1] as int == digit_val(f[1]));
                assert(digit_val(f[j]) != 0);
            }
        }
    }
    Some(PriceParts { neg, whole, frac, any_nonzero, frac_over_99 })
}

/// Whether recorded fraction digits read as more than ninety-nine
/// hundredths.
fn frac_over_limit(frac: &Vec<u8>) -> (r: bool)
    ensures
        r == (frac@.len() >= 3 && frac@[0] == 9 && frac@[1] == 9 && exists|i: int|
            2 <= i < frac@.len() && #[trigger] frac@[i] != 0),
{
    if frac.len() < 3 {
        return false;
    }
    if frac[0] != 9 || frac[1] != 9 {
        return false;
    }
    let mut i: usize = 2;
    while i < frac.len()
        invariant
            2 <= i <= frac@.len(),
            frac@.len() >= 3,
            frac@[0] == 9,
            frac@[1] == 9,
            forall|j: int| 2 <= j < i ==> #[trigger] frac@[j] == 0,
        decreases frac@.len() - i,
    {
        if frac[i] != 0 {
            proof {
                assert(2 <= (i as int) && (i as int) < frac@.len() && frac@[i as int] != 0);
            }
            return true;
        }
        i += 1;
    }
    false
}

fn parse_qty_str(t: &str) -> (r: Option<(bool, u64)>)
    ensures
        r is Some <==> qty_grammar_ok(t@),
        r matches Some(p) ==> {
            &&& p.0 == minus_signed(t@)
            &&& if qty_abs(t@) <= QTY_CAP {
                p.1 == qty_abs(t@)
            } else {
                p.1 == QTY_CAP
            }
        },
{
    let len = t.unicode_len();
    let mut neg = false;
    let mut start: usize = 0;
    if len > 0 {
        let c0 = t.get_char(0);
        if c0 == '+' || c0 == '-' {
            neg = c0 == '-';
            start = 1;
        }
    }
    let body = t.substring_char(start, len);
    proof {
        assert(body@ =~= num_body(t@));
    }
    let blen = body.unicode_len();
    let ghost b = body@;
    if blen == 0 {
        return None;
    }
    let mut val: u64 = 0;
    let mut i: usize = 0;
    while i < blen
        invariant
            0 <= i <= blen,
            blen == b.len(),
            blen >= 1,
            body@ == b,
            b == num_body(t@),
            neg == minus_signed(t@),
            all_digits(b.take(i as int)),
            if dec_val(b.take(i as int)) <= QTY_CAP {
                val == dec_val(b.take(i as int))
            } else {
                val == QTY_CAP
            },
        decreases blen - i,
    {
        let ghost pre = b.take(i as int);
        let c = body.get_char(i);
        proof {
            assert(b.take(i + 1) =~= pre.push(c));
            lemma_dec_val_nonneg(pre);
        }
        let u = c as u32;
        if !(48 <= u && u <= 57) {
            proof {
                assert(b[i as int] == c);
            }
            return None;
        }
        let d = (u - 48) as u64;
        let cand = val * 10 + d;
        val = if cand > QTY_CAP {
            QTY_CAP
        } else {
            cand
        };
        proof {
            assert(dec_val(pre.push(c)) == dec_val(pre.push(c).drop_last()) * 10 + digit_val(
                pre.push(c).last(),
            ));
            assert(pre.push(c).drop_last() =~= pre);
            assert(all_digits(pre.push(c))) by {
                assert(forall|j: int| 0 <= j < pre.len() ==> #[trigger] pre.push(c)[j] == pre[j]);
            }
        }
        i += 1;
    }
    proof {
        assert(b.take(blen as int) =~= b);
    }
    Some((neg, val))
}

/// What a successful validation hands back for the price: the whole part
/// and the fraction digit values, exactly as written (less sign and
/// leading zeros of the whole part).
#[derive(Debug, Clone)]
pub struct ParsedPrice {
    pub whole: u64,
    pub frac: Vec<u8>,
}

/// The name field passes: not blank, and at most 255 bytes.
pub open spec fn name_ok(form: EditProductForm) -> bool {
    !is_blank_seq(form.name@) && encode_utf8(form.name@).len() <= 255
}

/// The price field passes: a well-formed decimal, not negative, and at
/// most 999,999.99.
pub open spec fn price_ok(form: EditProductForm) -> bool {
    let t = spec_trim(form.price@);
    price_grammar_ok(t) && !price_negative(t) && !price_exceeds_max(t)
}

/// The quantity field passes: a well-formed 32-bit integer, not negative,
/// and at most 999,999.
pub open spec fn qty_ok(form: EditProductForm) -> bool {
    let t = spec_trim(form.quantity@);
    qty_parse_ok(t) && !qty_negative(t) && qty_abs(t) <= 999999
}

/// Checks the product edit form before any store write, stopping at the
/// first violation in a fixed order: name non-empty, name length, price
/// well-formed, price non-negative, price bound, quantity well-formed,
/// quantity non-negative, quantity bound, description length. Each
/// violation carries its own message; success carries the parsed price and
/// quantity.
pub fn validate_product_form(form: &EditProductForm) -> (r: Result<(ParsedPrice, i32), String>)
    ensures
        is_blank_seq(form.name@) ==> (r matches Err(m) && m@ == "Product name cannot be empty"@),
        !is_blank_seq(form.name@) && encode_utf8(form.name@).len() > 255 ==> (r matches Err(m)
            && m@ == "Product name must be less than 255 characters"@),
        name_ok(*form) && !price_grammar_ok(spec_trim(form.price@)) ==> (r matches Err(m) && m@
            == "Price must be a valid number"@),
        name_ok(*form) && price_grammar_ok(spec_trim(form.price@)) && price_negative(
            spec_trim(form.price@),
        ) ==> (r matches Err(m) && m@ == "Price cannot be negative"@),
        name_ok(*form) && price_grammar_ok(spec_trim(form.price@)) && !price_negative(
            spec_trim(form.price@),
        ) && price_exceeds_max(spec_trim(form.price@)) ==> (r matches Err(m) && m@
            == "Price cannot exceed £999,999.99"@),
        name_ok(*form) && price_ok(*form) && !qty_parse_ok(spec_trim(form.quantity@)) ==> (
        r matches Err(m) && m@ == "Quantity must be a valid number"@),
        name_ok(*form) && price_ok(*form) && qty_parse_ok(spec_trim(form.quantity@))
            && qty_negative(spec_trim(form.quantity@)) ==> (r matches Err(m) && m@
            == "Quantity cannot be negative"@),
        name_ok(*form) && price_ok(*form) && qty_parse_ok(spec_trim(form.quantity@))
            && !qty_negative(spec_trim(form.quantity@)) && qty_abs(spec_trim(form.quantity@))
            > 999999 ==> (r matches Err(m) && m@ == "Quantity cannot exceed 999,999"@),
        name_ok(*form) && price_ok(*form) && qty_ok(*form) && encode_utf8(
            form.description@,
        ).len() > 5000 ==> (r matches Err(m) && m@
            == "Description must be less than 5,000 characters"@),
        name_ok(*form) && price_ok(*form) && qty_ok(*form) && encode_utf8(
            form.description@,
        ).len() <= 5000 ==> (r matches Ok(v) && {
            &&& v.0.whole == dec_val(before_dot(num_body(spec_trim(form.price@))))
            &&& v.0.frac@.len() == after_dot(num_body(spec_trim(form.price@))).len()
            &&& forall|i: int|
                0 <= i < v.0.frac@.len() ==> #[trigger] v.0.frac@[i] as int == digit_val(
                    after_dot(num_body(spec_trim(form.price@)))[i],
                )
            &&& v.1 == qty_abs(spec_trim(form.quantity@))
        }),
{
    if is_blank(form.name.as_str()) {
        return Err(String::from_str("Product name cannot be empty"));
    }
    let name_bytes = form.name.as_str().as_bytes().len();
    proof {
        assert(name_bytes == encode_utf8(form.name@).len());
    }
    if name_bytes > 255 {
        return Err(String::from_str("Product name must be less than 255 characters"));
    }

    let price_trimmed = trimmed(form.price.as_str());
    let price_parts = match parse_price_str(price_trimmed) {
        Some(p) => p,
        None => {
            return Err(String::from_str("Price must be a valid number"));
        },
    };
    if price_parts.neg && price_parts.any_nonzero {
        return Err(String::from_str("Price cannot be negative"));
    }
    if price_parts.whole > 999999 || (price_parts.whole == 999999 && price_parts.frac_over_99) {
        return Err(String::from_str("Price cannot exceed £999,999.99"));
    }

    let qty_trimmed = trimmed(form.quantity.as_str());
    let (qneg, qval) = match parse_qty_str(qty_trimmed) {
        Some(p) => p,
        None => {
            return Err(String::from_str("Quantity must be a valid number"));
        },
    };
    if qneg {
        if qval > 0x8000_0000 {
            return Err(String::from_str("Quantity must be a valid number"));
        }
        if qval > 0 {
            return Err(String::from_str("Quantity cannot be negative"));
        }
    } else {
        if qval > 0x7fff_ffff {
            return Err(String::from_str("Quantity must be a valid number"));
        }
    }
    if qval > 999999 {
        return Err(String::from_str("Quantity cannot exceed 999,999"));
    }

    let desc_bytes = form.description.as_str().as_bytes().len();
    proof {
        assert(desc_bytes == encode_utf8(form.description@).len());
    }
    if desc_bytes > 5000 {
        return Err(String::from_str("Description must be less than 5,000 characters"));
    }

    Ok((ParsedPrice { whole: price_parts.whole, frac: price_parts.frac }, qval as i32))
}

} // verus!
