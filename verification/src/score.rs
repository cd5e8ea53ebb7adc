//! The persisted high score: a single unsigned integer as plain decimal
//! text. Encoding is exact; a missing or corrupt value degrades to zero
//! rather than failing the session.

use vstd::prelude::*;
use vstd::arithmetic::div_mod::lemma_fundamental_div_mod;

verus! {

/// The numeric value of a decimal digit string, most significant first.
pub open spec fn digits_value(s: Seq<u8>) -> int
    decreases s.len(),
{
    if s.len() == 0 {
        0
    } else {
        digits_value(s.drop_last()) * 10 + (s.last() - 48)
    }
}

/// Every byte is an ASCII decimal digit.
pub open spec fn all_digits(s: Seq<u8>) -> bool {
    forall|i: int| 0 <= i < s.len() ==> 48 <= #[trigger] s[i] <= 57
}

/// A loadable stored score: non-empty, all digits, and within `u64`.
pub open spec fn valid_score_text(s: Seq<u8>) -> bool {
    &&& s.len() >= 1
    &&& all_digits(s)
    &&& digits_value(s) <= u64::MAX
}

pub proof fn lemma_digits_value_nonneg(s: Seq<u8>)
    requires
        all_digits(s),
    ensures
        digits_value(s) >= 0,
    decreases s.len(),
{
    if s.len() > 0 {
        assert(all_digits(s.drop_last()));
        lemma_digits_value_nonneg(s.drop_last());
    }
}

/// A digit string's value never shrinks as it grows to the right.
pub proof fn lemma_digits_value_prefix_le(s: Seq<u8>, i: int)
    requires
        all_digits(s),
        0 <= i <= s.len(),
    ensures
        digits_value(s.take(i)) <= digits_value(s),
    decreases s.len() - i,
{
    if i < s.len() {
        lemma_digits_value_prefix_le(s, i + 1);
        assert(s.take(i + 1).drop_last() =~= s.take(i));
        assert(all_digits(s.take(i)));
        lemma_digits_value_nonneg(s.take(i));
        assert(digits_value(s.take(i + 1)) == digits_value(s.take(i)) * 10 + (s[i] - 48));
        assert(digits_value(s.take(i)) * 10 >= digits_value(s.take(i))) by (nonlinear_arith)
            requires
                digits_value(s.take(i)) >= 0,
        ;
    } else {
        assert(s.take(i) =~= s);
    }
}

/// Render a score as decimal text, most significant digit first.
pub fn render_score(n: u64) -> (r: Vec<u8>)
    ensures
        r@.len() >= 1,
        all_digits(r@),
        digits_value(r@) == n,
        valid_score_text(r@),
    decreases n,
{
    if n < 10 {
        let mut v: Vec<u8> = Vec::new();
        v.push((n as u8) + 48);
        proof {
            assert(v@.drop_last() =~= Seq::<u8>::empty());
            assert(digits_value(Seq::<u8>::empty()) == 0);
        }
        v
    } else {
        let mut v = render_score(n / 10);
        let ghost rec = v@;
        let d: u8 = ((n % 10) as u8) + 48;
        v.push(d);
        proof {
            assert(v@.drop_last() =~= rec);
            lemma_fundamental_div_mod(n as int, 10);
            assert forall|i: int| 0 <= i < v@.len() implies 48 <= #[trigger] v@[i] <= 57 by {
                if i < rec.len() {
                    assert(48 <= rec[i] <= 57);
                }
            }
        }
        v
    }
}

/// Parse stored score text. A well-formed decimal value loads exactly; a
/// corrupt one (empty, a stray byte, or overflow) degrades to zero.
pub fn parse_score(s: &Vec<u8>) -> (r: u64)
    ensures
        valid_score_text(s@) ==> r == digits_value(s@),
        !valid_score_text(s@) ==> r == 0,
{
    let n = s.len();
    if n == 0 {
        return 0;
    }
    let mut val: u64 = 0;
    for i in 0..n
        invariant
            n == s@.len(),
            all_digits(s@.take(i as int)),
            val == digits_value(s@.take(i as int)),
    {
        proof {
            assert(s@.take(i as int + 1).drop_last() =~= s@.take(i as int));
        }
        let b = s[i];
        if b < 48 || b > 57 {
            proof {
                assert(!all_digits(s@));
            }
            return 0;
        }
        let d: u64 = (b - 48) as u64;
        if val > (u64::MAX - d) / 10 {
            proof {
                let g = s@.take(i as int + 1);
                assert(all_digits(g));
                assert(digits_value(g) == val * 10 + d);
                assert(val * 10 + d > u64::MAX) by (nonlinear_arith)
                    requires
                        val > (u64::MAX - d) / 10,
                        0 <= d <= 9,
                        val <= u64::MAX,
                ;
                if valid_score_text(s@) {
                    lemma_digits_value_prefix_le(s@, i as int + 1);
                    assert(digits_value(s@) <= u64::MAX);
                    assert(false);
                }
            }
            return 0;
        }
        proof {
            assert(val * 10 + d <= u64::MAX) by (nonlinear_arith)
                requires
                    val <= (u64::MAX - d) / 10,
                    0 <= d <= 9,
            ;
        }
        val = val * 10 + d;
    }
    proof {
        assert(s@.take(n as int) =~= s@);
        lemma_digits_value_prefix_le(s@, n as int);
    }
    val
}

} // verus!
