//! Decimal rendering of counters, with thousands grouping.

use vstd::prelude::*;
use vstd::string::StringExecFns;

verus! {

/// The character for one decimal digit value.
pub open spec fn digit_char(d: u64) -> char
    recommends
        d < 10,
{
    if d == 0 {
        '0'
    } else if d == 1 {
        '1'
    } else if d == 2 {
        '2'
    } else if d == 3 {
        '3'
    } else if d == 4 {
        '4'
    } else if d == 5 {
        '5'
    } else if d == 6 {
        '6'
    } else if d == 7 {
        '7'
    } else if d == 8 {
        '8'
    } else {
        '9'
    }
}

/// Decimal digits of `n`, most significant first; empty for zero.
pub open spec fn spec_digits_rec(n: u64) -> Seq<char>
    decreases n,
{
    if n == 0 {
        Seq::<char>::empty()
    } else {
        spec_digits_rec(n / 10).push(digit_char(n % 10))
    }
}

/// Decimal rendering of `n`, most significant digit first; `"0"` for zero.
pub open spec fn spec_decimal(n: u64) -> Seq<char> {
    if n == 0 {
        seq!['0']
    } else {
        spec_digits_rec(n)
    }
}

/// The digits from position `i` on, with a comma before every later group
/// of three counting from the right.
pub open spec fn spec_grouped_from(s: Seq<char>, i: int) -> Seq<char>
    decreases s.len() - i,
{
    if i < 0 || i >= s.len() {
        Seq::<char>::empty()
    } else {
        let sep: Seq<char> = if i > 0 && (s.len() - i) % 3 == 0 {
            seq![',']
        } else {
            Seq::<char>::empty()
        };
        sep + seq![s[i]] + spec_grouped_from(s, i + 1)
    }
}

/// A digit sequence with commas inserted every three digits from the right.
pub open spec fn spec_grouped(s: Seq<char>) -> Seq<char> {
    spec_grouped_from(s, 0)
}

/// The one-character string for a decimal digit value.
fn digit_str(d: u64) -> (r: &'static str)
    requires
        d < 10,
    ensures
        r@ == seq![digit_char(d)],
{
    proof {
        reveal_strlit("0");
        reveal_strlit("1");
        reveal_strlit("2");
        reveal_strlit("3");
        reveal_strlit("4");
        reveal_strlit("5");
        reveal_strlit("6");
        reveal_strlit("7");
        reveal_strlit("8");
        reveal_strlit("9");
    }
    if d == 0 {
        "0"
    } else if d == 1 {
        "1"
    } else if d == 2 {
        "2"
    } else if d == 3 {
        "3"
    } else if d == 4 {
        "4"
    } else if d == 5 {
        "5"
    } else if d == 6 {
        "6"
    } else if d == 7 {
        "7"
    } else if d == 8 {
        "8"
    } else {
        "9"
    }
}

/// The decimal digit values of `n`, most significant first; `[0]` for zero.
fn digits_of(n: u64) -> (r: Vec<u64>)
    ensures
        r@.map_values(|d: u64| digit_char(d)) == spec_decimal(n),
        forall|k: int| 0 <= k < r@.len() ==> r@[k] < 10,
        r@.len() > 0,
{
    let ghost f = |d: u64| digit_char(d);
    if n == 0 {
        let mut r: Vec<u64> = Vec::new();
        r.push(0);
        proof {
            assert(r@.map_values(f) =~= seq![digit_char(0)]);
        }
        return r;
    }
    let mut rev: Vec<u64> = Vec::new();
    let mut m: u64 = n;
    proof {
        assert(spec_digits_rec(n) =~= spec_digits_rec(m) + rev@.map_values(f).reverse());
    }
    while m > 0
        invariant
            f == (|d: u64| digit_char(d)),
            spec_digits_rec(n) == spec_digits_rec(m) + rev@.map_values(f).reverse(),
            forall|k: int| 0 <= k < rev@.len() ==> rev@[k] < 10,
        decreases m,
    {
        let d = m % 10;
        let ghost oldrev = rev@;
        rev.push(d);
        proof {
            assert(rev@ == oldrev.push(d));
            assert forall|ii: int| 0 <= ii < rev@.len() implies rev@.map_values(f)[ii]
                == oldrev.map_values(f).push(digit_char(d))[ii] by {
                if ii < oldrev.len() {
                    assert(rev@[ii] == oldrev[ii]);
                } else {
                    assert(rev@[ii] == d);
                }
            }
            assert(rev@.map_values(f) =~= oldrev.map_values(f).push(digit_char(d)));
            assert(rev@.map_values(f).reverse() =~= seq![digit_char(d)] + oldrev.map_values(
                f,
            ).reverse());
            assert(spec_digits_rec(m / 10) + rev@.map_values(f).reverse() =~= spec_digits_rec(
                m / 10,
            ).push(digit_char(d)) + oldrev.map_values(f).reverse());
        }
        m = m / 10;
    }
    let mut fwd: Vec<u64> = Vec::new();
    let mut i: usize = rev.len();
    while i > 0
        invariant
            i <= rev@.len(),
            fwd@.len() == rev@.len() - i,
            forall|k: int| 0 <= k < fwd@.len() ==> fwd@[k] == rev@[rev@.len() - 1 - k],
            forall|k: int| 0 <= k < rev@.len() ==> rev@[k] < 10,
        decreases i,
    {
        i = i - 1;
        fwd.push(rev[i]);
    }
    proof {
        assert(fwd@ =~= rev@.reverse());
        assert(fwd@.map_values(f) =~= rev@.map_values(f).reverse());
        assert(rev@.len() > 0);
        assert(fwd@.len() > 0);
    }
    fwd
}

/// Plain decimal rendering of `n`.
pub fn decimal_string(n: u64) -> (r: String)
    ensures
        r@ == spec_decimal(n),
{
    let digits = digits_of(n);
    let ghost dseq = spec_decimal(n);
    let mut out = String::new();
    let mut k: usize = 0;
    proof {
        assert(out@ =~= dseq.subrange(0, 0));
    }
    while k < digits.len()
        invariant
            k <= digits@.len(),
            digits@.map_values(|d: u64| digit_char(d)) == dseq,
            forall|j: int| 0 <= j < digits@.len() ==> digits@[j] < 10,
            out@ == dseq.subrange(0, k as int),
        decreases digits@.len() - k,
    {
        let piece = digit_str(digits[k]);
        out.append(piece);
        proof {
            assert(dseq[k as int] == digit_char(digits@[k as int]));
            assert(out@ =~= dseq.subrange(0, k as int + 1));
        }
        k = k + 1;
    }
    proof {
        assert(dseq.subrange(0, dseq.len() as int) =~= dseq);
    }
    out
}

/// Decimal rendering of `n` with a comma between every group of three
/// digits, counting from the least significant digit.
pub fn format_number(n: u64) -> (r: String)
    ensures
        r@ == spec_grouped(spec_decimal(n)),
{
    let digits = digits_of(n);
    let ghost dseq = spec_decimal(n);
    let len = digits.len();
    let mut out = String::new();
    let mut k: usize = 0;
    proof {
        assert(out@ + spec_grouped_from(dseq, 0) =~= spec_grouped(dseq));
    }
    while k < len
        invariant
            k <= len,
            len == digits@.len(),
            digits@.map_values(|d: u64| digit_char(d)) == dseq,
            forall|j: int| 0 <= j < digits@.len() ==> digits@[j] < 10,
            out@ + spec_grouped_from(dseq, k as int) == spec_grouped(dseq),
        decreases len - k,
    {
        let ghost before = out@;
        if k > 0 && (len - k) % 3 == 0 {
            proof {
                reveal_strlit(",");
            }
            out.append(",");
        }
        let piece = digit_str(digits[k]);
        out.append(piece);
        proof {
            let sep: Seq<char> = if k > 0 && (dseq.len() - k as int) % 3 == 0 {
                seq![',']
            } else {
                Seq::<char>::empty()
            };
            assert(dseq[k as int] == digit_char(digits@[k as int]));
            assert(out@ =~= before + sep + seq![dseq[k as int]]);
            assert(spec_grouped_from(dseq, k as int) == sep + seq![dseq[k as int]]
                + spec_grouped_from(dseq, k as int + 1));
            assert(out@ + spec_grouped_from(dseq, k as int + 1) =~= before + spec_grouped_from(
                dseq,
                k as int,
            ));
        }
        k = k + 1;
    }
    proof {
        assert(spec_grouped_from(dseq, len as int) =~= Seq::<char>::empty());
        assert(out@ + Seq::<char>::empty() =~= out@);
    }
    out
}

} // verus!
