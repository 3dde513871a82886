//! The mathematical model of the text exposition format.
//!
//! Every observation the backend accepts appends one block of
//! newline-terminated lines to its document.  The spec functions here say,
//! character for character, what that block is: how a metric key is
//! normalized into an exposition identifier, how unsigned and signed
//! integers render as decimal text, and how the lines of a counter, gauge
//! or histogram-summary block are assembled.

use vstd::prelude::*;

verus! {

/// One character of a metric key after normalization: the exposition
/// grammar reserves `.` in identifiers, so `.` becomes `_` and every other
/// character is kept as it is.
pub open spec fn norm_char(c: char) -> char {
    if c == '.' {
        '_'
    } else {
        c
    }
}

/// A metric key normalized for use as an exposition identifier: every `.`
/// replaced with `_`.
pub open spec fn norm_key(key: Seq<char>) -> Seq<char> {
    key.map_values(|c: char| norm_char(c))
}

/// Replaces every `.` in `key` with `_`, as the exposition grammar
/// requires of identifiers.  All other characters, whatever they are, pass
/// through unchanged.
pub fn normalize_key(key: &str) -> (r: String)
    ensures
        r@ == norm_key(key@),
{
    let n = key.unicode_len();
    let mut out = String::new();
    let mut i: usize = 0;
    while i < n
        invariant
            n == key@.len(),
            i <= n,
            out@ == norm_key(key@.take(i as int)),
        decreases n - i,
    {
        let c = key.get_char(i);
        if c == '.' {
            out.append("_");
        } else {
            push_char(&mut out, c);
        }
        proof {
            reveal_strlit("_");
            key@.lemma_map_take_succ(|ch: char| norm_char(ch), i as int);
        }
        i = i + 1;
    }
    proof {
        assert(key@.take(n as int) =~= key@);
    }
    out
}

/// Relies on `String::push`, which std documents as appending the given
/// `char` to the end of the `String`.
#[verifier::external_body]
fn push_char(out: &mut String, c: char)
    ensures
        final(out)@ == old(out)@ + seq![c],
{
    out.push(c);
}

/// The decimal digit character for `d`, which must be below ten.
pub open spec fn dec_digit(d: nat) -> char {
    if d == 0 {
        '0'
    } else if d == 1 {
        '1'
    } else if d == 2 {
        '2'
    } else if d == 3 {
        '3'
    } else if d == 4 {
        '4'
    } else if d == 5 {
        '5'
    } else if d == 6 {
        '6'
    } else if d == 7 {
        '7'
    } else if d == 8 {
        '8'
    } else {
        '9'
    }
}

/// The plain decimal text of an unsigned integer: digits only, no leading
/// zeros, no grouping; zero renders as `0`.
pub open spec fn u64_dec(v: nat) -> Seq<char>
    decreases v,
{
    if v < 10 {
        seq![dec_digit(v)]
    } else {
        u64_dec(v / 10) + seq![dec_digit(v % 10)]
    }
}

/// The decimal text of a signed integer: a single leading `-` for
/// negative values, otherwise the unsigned rendering of the magnitude.
pub open spec fn i64_dec(v: int) -> Seq<char> {
    if v < 0 {
        seq!['-'] + u64_dec((-v) as nat)
    } else {
        u64_dec(v as nat)
    }
}

/// Appends the single decimal digit character for `d`.
fn append_digit(out: &mut String, d: u64)
    requires
        d < 10,
    ensures
        final(out)@ == old(out)@ + seq![dec_digit(d as nat)],
{
    let s: &str = if d == 0 {
        "0"
    } else if d == 1 {
        "1"
    } else if d == 2 {
        "2"
    } else if d == 3 {
        "3"
    } else if d == 4 {
        "4"
    } else if d == 5 {
        "5"
    } else if d == 6 {
        "6"
    } else if d == 7 {
        "7"
    } else if d == 8 {
        "8"
    } else {
        "9"
    };
    proof {
        reveal_strlit("0");
        reveal_strlit("1");
        reveal_strlit("2");
        reveal_strlit("3");
        reveal_strlit("4");
        reveal_strlit("5");
        reveal_strlit("6");
        reveal_strlit("7");
        reveal_strlit("8");
        reveal_strlit("9");
        assert(s@ =~= seq![dec_digit(d as nat)]);
    }
    out.append(s);
}

/// Appends the decimal text of `v` to `out`.
pub fn append_u64(out: &mut String, v: u64)
    ensures
        final(out)@ == old(out)@ + u64_dec(v as nat),
    decreases v,
{
    if v >= 10 {
        append_u64(out, v / 10);
    }
    append_digit(out, v % 10);
    proof {
        if v >= 10 {
            assert(out@ =~= old(out)@ + (u64_dec((v / 10) as nat) + seq![
                dec_digit((v % 10) as nat),
            ]));
        }
    }
}

/// Appends the decimal text of `v` to `out`, with a leading `-` when `v`
/// is negative.
pub fn append_i64(out: &mut String, v: i64)
    ensures
        final(out)@ == old(out)@ + i64_dec(v as int),
{
    if v < 0 {
        out.append("-");
        let magnitude: u64 = (-(v as i128)) as u64;
        append_u64(out, magnitude);
        proof {
            reveal_strlit("-");
            assert("-"@ =~= seq!['-']);
            assert(out@ =~= old(out)@ + (seq!['-'] + u64_dec(magnitude as nat)));
        }
    } else {
        append_u64(out, v as u64);
    }
}

/// The block of lines appended for a counter observation: a type
/// declaration line followed by one sample line, each newline-terminated.
pub open spec fn counter_block(key: Seq<char>, value: u64) -> Seq<char> {
    let k = norm_key(key);
    "# TYPE "@ + k + " counter\n"@ + k + " "@ + u64_dec(value as nat) + "\n"@
}

/// The block of lines appended for a gauge observation: a type
/// declaration line followed by one sample line, each newline-terminated.
/// The sample value keeps its sign.
pub open spec fn gauge_block(key: Seq<char>, value: i64) -> Seq<char> {
    let k = norm_key(key);
    "# TYPE "@ + k + " gauge\n"@ + k + " "@ + i64_dec(value as int) + "\n"@
}

/// One quantile sample line of a histogram-summary block: the identifier,
/// a `{quantile="..."}` label holding the quantile's text verbatim (no
/// space before the brace), one space, and the decimal value.
pub open spec fn quantile_line(k: Seq<char>, quantile: Seq<char>, value: u64) -> Seq<char> {
    k + "{quantile=\""@ + quantile + "\"} "@ + u64_dec(value as nat) + "\n"@
}

/// The quantile sample lines of a histogram-summary block, one per
/// sample, in exactly the order the samples were supplied.
pub open spec fn quantile_lines(k: Seq<char>, samples: Seq<(Seq<char>, u64)>) -> Seq<char>
    decreases samples.len(),
{
    if samples.len() == 0 {
        Seq::empty()
    } else {
        quantile_lines(k, samples.drop_last()) + quantile_line(
            k,
            samples.last().0,
            samples.last().1,
        )
    }
}

/// The block of lines appended for a histogram observation: a type
/// declaration line, the quantile sample lines in supplied order, then
/// the `_sum` and `_count` lines carrying the caller-supplied totals.
pub open spec fn histogram_block(
    key: Seq<char>,
    samples: Seq<(Seq<char>, u64)>,
    sum: u64,
    count: u64,
) -> Seq<char> {
    let k = norm_key(key);
    "# TYPE "@ + k + " summary\n"@ + quantile_lines(k, samples) + k + "_sum "@ + u64_dec(
        sum as nat,
    ) + "\n"@ + k + "_count "@ + u64_dec(count as nat) + "\n"@
}

/// The quantile samples of a histogram observation as the pairs the
/// format model speaks of: the quantile's text and the sampled value.
pub open spec fn samples_view(samples: Seq<crate::observer::QuantileSample>) -> Seq<
    (Seq<char>, u64),
> {
    samples.map_values(|q: crate::observer::QuantileSample| (q.quantile@, q.value))
}

} // verus!
