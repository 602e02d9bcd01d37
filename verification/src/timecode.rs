//! Encoding the race clock for the outside world: elapsed milliseconds as
//! ASCII decimal digits, and the exact inverse. The persistence and score
//! submission layers store and reload nothing but this value, so the
//! round trip is proved to give back exactly the milliseconds that went in.
use vstd::prelude::*;

verus! {

/// An ASCII decimal digit.
pub open spec fn is_ascii_digit(b: u8) -> bool {
    48 <= b <= 57
}

/// The numeric value of an ASCII digit.
pub open spec fn digit_val(b: u8) -> int {
    b - 48
}

/// Every byte of the sequence is an ASCII digit.
pub open spec fn all_digits(s: Seq<u8>) -> bool {
    forall|i: int| 0 <= i < s.len() ==> is_ascii_digit(#[trigger] s[i])
}

/// The number a digit sequence denotes, most significant digit first.
pub open spec fn value_of(s: Seq<u8>) -> int
    decreases s.len(),
{
    if s.len() == 0 {
        0
    } else {
        value_of(s.drop_last()) * 10 + digit_val(s.last())
    }
}

/// The canonical digit sequence of a number: most significant digit
/// first, no leading zeros, a single "0" for zero.
pub open spec fn digits_of(n: int) -> Seq<u8>
    decreases n,
{
    if n <= 9 {
        seq![(48 + n) as u8]
    } else {
        digits_of(n / 10) + seq![(48 + n % 10) as u8]
    }
}

/// A sequence the decoder accepts: nonempty, all digits, and denoting a
/// value the millisecond counter can hold.
pub open spec fn valid_timecode(s: Seq<u8>) -> bool {
    s.len() > 0 && all_digits(s) && value_of(s) <= u64::MAX
}

/// A digit sequence denotes nothing negative.
proof fn lemma_value_nonneg(s: Seq<u8>)
    requires
        all_digits(s),
    ensures
        value_of(s) >= 0,
    decreases s.len(),
{
    if s.len() > 0 {
        assert(all_digits(s.drop_last())) by {
            assert(forall|i: int|
                0 <= i < s.drop_last().len() ==> s.drop_last()[i] == s[i] && is_ascii_digit(
                    #[trigger] s[i],
                ));
        }
        lemma_value_nonneg(s.drop_last());
    }
}

/// Prefixes of a digit sequence never denote more than the whole.
proof fn lemma_value_prefix_le(s: Seq<u8>, i: int)
    requires
        all_digits(s),
        0 <= i <= s.len(),
    ensures
        value_of(s.take(i)) <= value_of(s),
    decreases s.len() - i,
{
    if i < s.len() {
        lemma_value_prefix_le(s, i + 1);
        assert(s.take(i + 1).drop_last() =~= s.take(i));
        assert(all_digits(s.take(i))) by {
            assert(forall|j: int|
                0 <= j < s.take(i).len() ==> s.take(i)[j] == s[j] && is_ascii_digit(
                    #[trigger] s[j],
                ));
        }
        lemma_value_nonneg(s.take(i));
        assert(value_of(s.take(i + 1)) == value_of(s.take(i)) * 10 + digit_val(s[i]));
        assert(value_of(s.take(i)) * 10 >= value_of(s.take(i))) by (nonlinear_arith)
            requires
                value_of(s.take(i)) >= 0,
        ;
    } else {
        assert(s.take(i) =~= s);
    }
}

/// The canonical digit sequence really is all digits.
proof fn lemma_digits_of_all_digits(n: int)
    requires
        n >= 0,
    ensures
        all_digits(digits_of(n)),
        digits_of(n).len() > 0,
    decreases n,
{
    if n <= 9 {
    } else {
        lemma_digits_of_all_digits(n / 10);
    }
}

/// Decoding the canonical digit sequence gives the number back.
proof fn lemma_value_of_digits_of(n: int)
    requires
        n >= 0,
    ensures
        value_of(digits_of(n)) == n,
    decreases n,
{
    if n <= 9 {
        assert(digits_of(n).drop_last() =~= Seq::<u8>::empty());
        assert(value_of(Seq::<u8>::empty()) == 0);
        assert(value_of(digits_of(n)) == value_of(digits_of(n).drop_last()) * 10 + digit_val(
            digits_of(n).last(),
        ));
    } else {
        lemma_value_of_digits_of(n / 10);
        assert(digits_of(n).drop_last() =~= digits_of(n / 10));
        assert(digits_of(n).last() == (48 + n % 10) as u8);
        assert(value_of(digits_of(n)) == value_of(digits_of(n).drop_last()) * 10 + digit_val(
            digits_of(n).last(),
        ));
        assert(n / 10 * 10 + n % 10 == n);
    }
}

/// The encoder and decoder invert each other: the digit text of any
/// elapsed time is accepted by the decoder and denotes exactly the
/// milliseconds that were encoded.
pub proof fn lemma_timecode_round_trip(ms: u64)
    ensures
        valid_timecode(digits_of(ms as int)),
        value_of(digits_of(ms as int)) == ms,
{
    lemma_digits_of_all_digits(ms as int);
    lemma_value_of_digits_of(ms as int);
}

/// Append the decimal digits of `n`, most significant first.
fn push_digits(n: u64, out: &mut Vec<u8>)
    ensures
        final(out)@ == old(out)@ + digits_of(n as int),
    decreases n,
{
    if n <= 9 {
        out.push((48 + n) as u8);
        assert(final(out)@ =~= old(out)@ + digits_of(n as int));
    } else {
        push_digits(n / 10, out);
        out.push(48 + (n % 10) as u8);
        assert(final(out)@ =~= old(out)@ + digits_of(n as int));
    }
}

/// Encode an elapsed time in milliseconds as ASCII decimal digits.
pub fn encode_elapsed_ms(ms: u64) -> (r: Vec<u8>)
    ensures
        r@ == digits_of(ms as int),
        valid_timecode(r@),
{
    let mut out: Vec<u8> = Vec::new();
    push_digits(ms, &mut out);
    proof {
        lemma_timecode_round_trip(ms);
        assert(out@ =~= digits_of(ms as int));
    }
    out
}

/// A millisecond remainder as exactly three zero-padded ASCII digits.
pub open spec fn pad3_digits(n: int) -> Seq<u8> {
    seq![(48 + n / 100) as u8, (48 + (n / 10) % 10) as u8, (48 + n % 10) as u8]
}

/// The race clock as the display writes it: whole seconds, a dot, and
/// the milliseconds as three zero-padded digits.
pub open spec fn race_time_text_spec(ms: u64) -> Seq<u8> {
    digits_of(ms as int / 1000) + seq![46u8] + pad3_digits(ms as int % 1000)
}

/// Render an elapsed time as the "seconds.milliseconds" text the race
/// clock display and the leaderboard rows show.
pub fn race_time_text(ms: u64) -> (r: Vec<u8>)
    ensures
        r@ == race_time_text_spec(ms),
{
    let mut out: Vec<u8> = Vec::new();
    push_digits(ms / 1000, &mut out);
    out.push(46);
    let rem = ms % 1000;
    out.push(48 + (rem / 100) as u8);
    out.push(48 + ((rem / 10) % 10) as u8);
    out.push(48 + (rem % 10) as u8);
    proof {
        assert(out@ =~= race_time_text_spec(ms));
    }
    out
}

/// Decode an ASCII decimal digit text back into elapsed milliseconds.
/// Exactly the valid timecodes are accepted: anything empty, holding a
/// non-digit, or denoting more than the counter can hold gives nothing.
pub fn parse_elapsed_ms(s: &Vec<u8>) -> (r: Option<u64>)
    ensures
        valid_timecode(s@) ==> r == Some(value_of(s@) as u64),
        !valid_timecode(s@) ==> r is None,
{
    if s.len() == 0 {
        return None;
    }
    let mut acc: u64 = 0;
    let mut i: usize = 0;
    while i < s.len()
        invariant
            0 <= i <= s@.len(),
            all_digits(s@.take(i as int)),
            acc == value_of(s@.take(i as int)),
        decreases s@.len() - i,
    {
        let b = s[i];
        if b < 48 || b > 57 {
            assert(!is_ascii_digit(s@[i as int]));
            return None;
        }
        let d: u64 = (b - 48) as u64;
        let shifted = match acc.checked_mul(10) {
            Some(m) => m.checked_add(d),
            None => None,
        };
        match shifted {
            Some(v) => {
                acc = v;
            },
            None => {
                proof {
                    assert(s@.take(i + 1).drop_last() =~= s@.take(i as int));
                    assert(all_digits(s@.take(i + 1))) by {
                        assert(forall|j: int|
                            0 <= j < s@.take(i + 1).len() ==> s@.take(i + 1)[j] == s@[j]);
                    }
                    assert(value_of(s@.take(i + 1)) > u64::MAX);
                    if all_digits(s@) {
                        lemma_value_prefix_le(s@, i + 1);
                    }
                }
                return None;
            },
        }
        proof {
            assert(s@.take(i + 1).drop_last() =~= s@.take(i as int));
        }
        i = i + 1;
    }
    proof {
        assert(s@.take(i as int) =~= s@);
    }
    Some(acc)
}

} // verus!
