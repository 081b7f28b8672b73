//! The duration parser: turns a compact duration encoding (digit runs
//! followed by single-letter unit markers, hours/minutes/seconds) into a
//! total count of whole seconds. The parser never fails: malformed input
//! degrades to a shorter duration.

use vstd::prelude::*;

verus! {

/// Whether `c` is an ASCII decimal digit.
pub open spec fn is_digit(c: char) -> bool {
    48 <= c as u32 && c as u32 <= 57
}

/// The numeric value of an ASCII decimal digit.
pub open spec fn digit_val(c: char) -> int {
    c as u32 - 48
}

/// The value of a sequence of decimal digits read left to right.
pub open spec fn digits_val(d: Seq<char>) -> int
    decreases d.len(),
{
    if d.len() == 0 {
        0
    } else {
        digits_val(d.drop_last()) * 10 + digit_val(d.last())
    }
}

/// The raw value of the maximal run of digits that ends just before
/// index `i` of `s`.
pub open spec fn run_val(s: Seq<char>, i: int) -> int
    decreases i,
{
    if i <= 0 || !is_digit(s[i - 1]) {
        0
    } else {
        run_val(s, i - 1) * 10 + digit_val(s[i - 1])
    }
}

/// What the run before a unit marker at index `i` contributes: its value,
/// except that a run too large for the second count's machine type is
/// treated as unparseable and contributes nothing.
pub open spec fn run_contrib(s: Seq<char>, i: int) -> int {
    if run_val(s, i) <= i64::MAX {
        run_val(s, i)
    } else {
        0
    }
}

/// Seconds per unit for the three unit markers; any other character
/// contributes nothing.
pub open spec fn unit_weight(c: char) -> int {
    if c == 'H' {
        3600
    } else if c == 'M' {
        60
    } else if c == 'S' {
        1
    } else {
        0
    }
}

/// Total seconds contributed by the unit markers among the first `i`
/// characters of `s`.
pub open spec fn duration_prefix(s: Seq<char>, i: int) -> int
    decreases i,
{
    if i <= 0 {
        0
    } else {
        duration_prefix(s, i - 1) + unit_weight(s[i - 1]) * run_contrib(s, i - 1)
    }
}

/// The second count encoded by `s`: the sum, over every unit marker, of
/// the digit run immediately preceding it times the marker's weight.
pub open spec fn duration_secs(s: Seq<char>) -> int {
    duration_prefix(s, s.len() as int)
}

/// `n` clamped from above into the range of `i64`.
pub open spec fn clamp_i64(n: int) -> int {
    if n > i64::MAX {
        i64::MAX as int
    } else {
        n
    }
}

proof fn lemma_run_val_nonneg(s: Seq<char>, i: int)
    ensures
        run_val(s, i) >= 0,
    decreases i,
{
    if !(i <= 0 || !is_digit(s[i - 1])) {
        lemma_run_val_nonneg(s, i - 1);
    }
}

proof fn lemma_duration_prefix_nonneg(s: Seq<char>, i: int)
    ensures
        duration_prefix(s, i) >= 0,
    decreases i,
{
    if i > 0 {
        lemma_duration_prefix_nonneg(s, i - 1);
        lemma_run_val_nonneg(s, i - 1);
    }
}

proof fn lemma_clamp_add(a: int, m: int)
    requires
        a >= 0,
        m >= 0,
    ensures
        clamp_i64(clamp_i64(a) + clamp_i64(m)) == clamp_i64(a + m),
{
}

proof fn lemma_prefix_skip(s: Seq<char>, j: int, i: int)
    requires
        0 <= j <= i,
        forall|k: int| j <= k < i ==> unit_weight(#[trigger] s[k]) == 0,
    ensures
        duration_prefix(s, i) == duration_prefix(s, j),
    decreases i - j,
{
    if i > j {
        lemma_prefix_skip(s, j, i - 1);
    }
}

proof fn lemma_run_of_digits(s: Seq<char>, j: int, i: int)
    requires
        0 <= j <= i <= s.len(),
        j == 0 || !is_digit(s[j - 1]),
        forall|k: int| j <= k < i ==> is_digit(#[trigger] s[k]),
    ensures
        run_val(s, i) == digits_val(s.subrange(j, i)),
    decreases i - j,
{
    if i == j {
        assert(s.subrange(j, i).len() == 0);
    } else {
        lemma_run_of_digits(s, j, i - 1);
        assert(s.subrange(j, i).drop_last() =~= s.subrange(j, i - 1));
        assert(s.subrange(j, i).last() == s[i - 1]);
    }
}

/// Law: a well-formed compact duration, two header characters followed by an
/// hour run, the hour marker, a minute run, the minute marker, a second run
/// and the second marker, encodes exactly hours times 3600 plus minutes
/// times 60 plus seconds, for any digit runs whose values fit in the second
/// count's machine type.
pub proof fn lemma_duration_well_formed(hd: Seq<char>, md: Seq<char>, sd: Seq<char>)
    requires
        forall|k: int| 0 <= k < hd.len() ==> is_digit(#[trigger] hd[k]),
        forall|k: int| 0 <= k < md.len() ==> is_digit(#[trigger] md[k]),
        forall|k: int| 0 <= k < sd.len() ==> is_digit(#[trigger] sd[k]),
        digits_val(hd) <= i64::MAX,
        digits_val(md) <= i64::MAX,
        digits_val(sd) <= i64::MAX,
    ensures
        duration_secs(seq!['P', 'T'] + hd + seq!['H'] + md + seq!['M'] + sd + seq!['S'])
            == 3600 * digits_val(hd) + 60 * digits_val(md) + digits_val(sd),
{
    let s = seq!['P', 'T'] + hd + seq!['H'] + md + seq!['M'] + sd + seq!['S'];
    let hl = hd.len() as int;
    let ml = md.len() as int;
    let sl = sd.len() as int;
    let ih = 2 + hl;
    let im = ih + 1 + ml;
    let ie = im + 1 + sl;
    assert(s.len() == ie + 1);
    assert(s[0] == 'P');
    assert(s[1] == 'T');
    assert(forall|k: int| 2 <= k < ih ==> s[k] == hd[k - 2]);
    assert(s[ih] == 'H');
    assert(forall|k: int| ih + 1 <= k < im ==> s[k] == md[k - ih - 1]);
    assert(s[im] == 'M');
    assert(forall|k: int| im + 1 <= k < ie ==> s[k] == sd[k - im - 1]);
    assert(s[ie] == 'S');

    assert(duration_prefix(s, ih) == 0) by {
        assert(forall|k: int| 0 <= k < ih ==> unit_weight(#[trigger] s[k]) == 0);
        lemma_prefix_skip(s, 0, ih);
    }
    assert(run_val(s, ih) == digits_val(hd)) by {
        lemma_run_of_digits(s, 2, ih);
        assert(s.subrange(2, ih) =~= hd);
    }
    assert(duration_prefix(s, ih + 1) == 3600 * digits_val(hd));

    assert(duration_prefix(s, im) == duration_prefix(s, ih + 1)) by {
        assert(forall|k: int| ih + 1 <= k < im ==> unit_weight(#[trigger] s[k]) == 0);
        lemma_prefix_skip(s, ih + 1, im);
    }
    assert(run_val(s, im) == digits_val(md)) by {
        lemma_run_of_digits(s, ih + 1, im);
        assert(s.subrange(ih + 1, im) =~= md);
    }
    assert(duration_prefix(s, im + 1) == 3600 * digits_val(hd) + 60 * digits_val(md));

    assert(duration_prefix(s, ie) == duration_prefix(s, im + 1)) by {
        assert(forall|k: int| im + 1 <= k < ie ==> unit_weight(#[trigger] s[k]) == 0);
        lemma_prefix_skip(s, im + 1, ie);
    }
    assert(run_val(s, ie) == digits_val(sd)) by {
        lemma_run_of_digits(s, im + 1, ie);
        assert(s.subrange(im + 1, ie) =~= sd);
    }
    assert(duration_prefix(s, ie + 1) == 3600 * digits_val(hd) + 60 * digits_val(md)
        + digits_val(sd));
}

/// Parses a compact duration encoding into whole seconds, scanning left to
/// right: each `H`, `M` or `S` marker adds the digit run immediately before
/// it times 3600, 60 or 1; every other character contributes nothing. The
/// result is the encoded total, clamped from above into `i64`; it is never
/// negative and the parser never fails.
pub fn from_iso8601(period: &str) -> (r: i64)
    ensures
        r == clamp_i64(duration_secs(period@)),
        r >= 0,
{
    let n = period.unicode_len();
    let mut acc: i64 = 0;
    let mut run: i64 = 0;
    let mut run_ok: bool = true;
    let mut i: usize = 0;
    while i < n
        invariant
            i <= n,
            n == period@.len(),
            run_ok ==> run == run_val(period@, i as int),
            !run_ok ==> run_val(period@, i as int) > i64::MAX,
            run >= 0,
            acc == clamp_i64(duration_prefix(period@, i as int)),
        decreases n - i,
    {
        proof {
            lemma_run_val_nonneg(period@, i as int);
            lemma_duration_prefix_nonneg(period@, i as int);
        }
        let c = period.get_char(i);
        let u = c as u32;
        if 48 <= u && u <= 57 {
            let d = (u - 48) as i64;
            if run_ok {
                match run.checked_mul(10) {
                    Some(r10) => match r10.checked_add(d) {
                        Some(r2) => {
                            run = r2;
                        },
                        None => {
                            run_ok = false;
                        },
                    },
                    None => {
                        run_ok = false;
                    },
                }
            }
            proof {
                if !run_ok {
                    lemma_run_val_nonneg(period@, i + 1);
                }
            }
        } else {
            let amount: i64 = if run_ok {
                run
            } else {
                0
            };
            assert(amount == run_contrib(period@, i as int));
            if c == 'H' {
                acc = add_weighted(acc, amount, 3600);
            } else if c == 'M' {
                acc = add_weighted(acc, amount, 60);
            } else if c == 'S' {
                acc = add_weighted(acc, amount, 1);
            }
            proof {
                lemma_clamp_add(
                    duration_prefix(period@, i as int),
                    unit_weight(period@[i as int]) * run_contrib(period@, i as int),
                );
            }
            run = 0;
            run_ok = true;
        }
        i = i + 1;
    }
    proof {
        lemma_duration_prefix_nonneg(period@, n as int);
    }
    acc
}

/// One saturating step of the accumulation: `acc + weight * amount`,
/// clamped into `i64`.
fn add_weighted(acc: i64, amount: i64, weight: i64) -> (r: i64)
    requires
        acc >= 0,
        amount >= 0,
        1 <= weight <= 3600,
    ensures
        r == clamp_i64(acc + clamp_i64(weight * amount)),
        r >= 0,
{
    proof {
        vstd::arithmetic::mul::lemma_mul_nonnegative(weight as int, amount as int);
    }
    let m: i64 = match weight.checked_mul(amount) {
        Some(m) => m,
        None => i64::MAX,
    };
    match acc.checked_add(m) {
        Some(a) => a,
        None => i64::MAX,
    }
}

} // verus!
