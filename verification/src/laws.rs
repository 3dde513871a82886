//! Properties of the exposition model, stated and proved once for all
//! inputs: normalization leaves no reserved character behind and is
//! idempotent, a counter block is exactly two newline-terminated lines,
//! gauge text parses back to the value it was rendered from, and an
//! append never disturbs what a document already holds.

use vstd::prelude::*;
use crate::exposition::counter_block;
use crate::exposition::dec_digit;
use crate::exposition::i64_dec;
use crate::exposition::norm_char;
use crate::exposition::norm_key;
use crate::exposition::quantile_line;
use crate::exposition::quantile_lines;
use crate::exposition::u64_dec;

verus! {

/// Whether `c` is one of the ten decimal digit characters.
pub open spec fn is_dec_digit(c: char) -> bool {
    c == '0' || c == '1' || c == '2' || c == '3' || c == '4' || c == '5' || c == '6' || c == '7'
        || c == '8' || c == '9'
}

/// The numeric value of a decimal digit character.
pub open spec fn digit_val(c: char) -> nat {
    if c == '0' {
        0
    } else if c == '1' {
        1
    } else if c == '2' {
        2
    } else if c == '3' {
        3
    } else if c == '4' {
        4
    } else if c == '5' {
        5
    } else if c == '6' {
        6
    } else if c == '7' {
        7
    } else if c == '8' {
        8
    } else {
        9
    }
}

/// The number a sequence of decimal digit characters denotes, read left
/// to right.
pub open spec fn dec_val(s: Seq<char>) -> nat
    decreases s.len(),
{
    if s.len() == 0 {
        0
    } else {
        dec_val(s.drop_last()) * 10 + digit_val(s.last())
    }
}

/// The integer a piece of decimal text denotes: a leading `-` negates
/// the value of the remaining digits.
pub open spec fn signed_dec_val(s: Seq<char>) -> int {
    if s.len() > 0 && s[0] == '-' {
        -(dec_val(s.skip(1)) as int)
    } else {
        dec_val(s) as int
    }
}

/// How many lines a piece of text holds: the number of line feeds in it.
pub open spec fn line_count(s: Seq<char>) -> nat
    decreases s.len(),
{
    if s.len() == 0 {
        0
    } else if s.last() == '\n' {
        line_count(s.drop_last()) + 1
    } else {
        line_count(s.drop_last())
    }
}

proof fn lemma_line_count_add(a: Seq<char>, b: Seq<char>)
    ensures
        line_count(a + b) == line_count(a) + line_count(b),
    decreases b.len(),
{
    if b.len() == 0 {
        assert(a + b =~= a);
    } else {
        lemma_line_count_add(a, b.drop_last());
        assert((a + b).drop_last() =~= a + b.drop_last());
        assert((a + b).last() == b.last());
    }
}

proof fn lemma_line_count_zero(s: Seq<char>)
    requires
        forall|i: int| 0 <= i < s.len() ==> s[i] != '\n',
    ensures
        line_count(s) == 0,
    decreases s.len(),
{
    if s.len() > 0 {
        lemma_line_count_zero(s.drop_last());
    }
}

proof fn lemma_u64_dec_digits(v: nat)
    ensures
        u64_dec(v).len() >= 1,
        forall|i: int| 0 <= i < u64_dec(v).len() ==> is_dec_digit(#[trigger] u64_dec(v)[i]),
    decreases v,
{
    if v >= 10 {
        lemma_u64_dec_digits(v / 10);
        assert forall|i: int| 0 <= i < u64_dec(v).len() implies is_dec_digit(
            #[trigger] u64_dec(v)[i],
        ) by {
            if i < u64_dec(v / 10).len() {
                assert(u64_dec(v)[i] == u64_dec(v / 10)[i]);
            } else {
                assert(u64_dec(v)[i] == dec_digit(v % 10));
            }
        }
    }
}

proof fn lemma_u64_dec_round_trip(v: nat)
    ensures
        dec_val(u64_dec(v)) == v,
    decreases v,
{
    reveal_with_fuel(dec_val, 2);
    if v < 10 {
        assert(seq![dec_digit(v)].drop_last() =~= Seq::<char>::empty());
        assert(seq![dec_digit(v)].last() == dec_digit(v));
        assert(digit_val(dec_digit(v)) == v);
    } else {
        lemma_u64_dec_round_trip(v / 10);
        assert((u64_dec(v / 10) + seq![dec_digit(v % 10)]).drop_last() =~= u64_dec(v / 10));
        assert((u64_dec(v / 10) + seq![dec_digit(v % 10)]).last() == dec_digit(v % 10));
        assert(digit_val(dec_digit(v % 10)) == v % 10);
        assert(dec_val(u64_dec(v)) == dec_val(u64_dec(v / 10)) * 10 + digit_val(
            dec_digit(v % 10),
        ));
        assert(v / 10 * 10 + v % 10 == v) by (nonlinear_arith);
    }
}

/// Normalization never leaves a `.` behind: whatever the key, every
/// character of the normalized identifier differs from `.`, and the
/// length is unchanged.
pub proof fn lemma_norm_key_has_no_dot(key: Seq<char>)
    ensures
        norm_key(key).len() == key.len(),
        forall|i: int| 0 <= i < key.len() ==> #[trigger] norm_key(key)[i] != '.',
{
    assert forall|i: int| 0 <= i < key.len() implies #[trigger] norm_key(key)[i] != '.' by {
        assert(norm_key(key)[i] == norm_char(key[i]));
    }
}

/// Normalizing an already-normalized key is a no-op.
pub proof fn lemma_norm_key_idempotent(key: Seq<char>)
    ensures
        norm_key(norm_key(key)) == norm_key(key),
{
    assert forall|i: int| 0 <= i < key.len() implies #[trigger] norm_key(norm_key(key))[i]
        == norm_key(key)[i] by {
        assert(norm_key(key)[i] == norm_char(key[i]));
        assert(norm_key(norm_key(key))[i] == norm_char(norm_char(key[i])));
    }
    assert(norm_key(norm_key(key)) =~= norm_key(key));
}

/// A counter observation renders as exactly two lines: a newline-
/// terminated `# TYPE <key> counter` declaration followed by a newline-
/// terminated `<key> <value>` sample, provided the key itself holds no
/// line feed.
pub proof fn lemma_counter_block_two_lines(key: Seq<char>, value: u64)
    requires
        forall|i: int| 0 <= i < key.len() ==> key[i] != '\n',
    ensures
        ({
            let k = norm_key(key);
            let declaration = "# TYPE "@ + k + " counter\n"@;
            let sample = k + " "@ + u64_dec(value as nat) + "\n"@;
            &&& counter_block(key, value) == declaration + sample
            &&& line_count(declaration) == 1
            &&& line_count(sample) == 1
            &&& line_count(counter_block(key, value)) == 2
        }),
{
    reveal_strlit("# TYPE ");
    reveal_strlit(" counter");
    reveal_strlit(" counter\n");
    reveal_strlit(" ");
    reveal_strlit("\n");
    let k = norm_key(key);
    let declaration = "# TYPE "@ + k + " counter\n"@;
    let sample = k + " "@ + u64_dec(value as nat) + "\n"@;
    assert(counter_block(key, value) =~= declaration + sample);
    assert forall|i: int| 0 <= i < k.len() implies #[trigger] k[i] != '\n' by {
        assert(k[i] == norm_char(key[i]));
    }
    lemma_u64_dec_digits(value as nat);
    let digits = u64_dec(value as nat);
    assert forall|i: int| 0 <= i < digits.len() implies #[trigger] digits[i] != '\n' by {
        assert(is_dec_digit(digits[i]));
    }
    assert(" counter\n"@ =~= " counter"@ + "\n"@);
    assert(line_count("\n"@) == 1) by {
        reveal_with_fuel(line_count, 3);
        assert("\n"@.drop_last() =~= Seq::<char>::empty());
    }
    lemma_line_count_zero("# TYPE "@);
    lemma_line_count_zero(" counter"@);
    lemma_line_count_zero(" "@);
    lemma_line_count_zero(k);
    lemma_line_count_zero(digits);
    lemma_line_count_add("# TYPE "@, k);
    lemma_line_count_add("# TYPE "@ + k, " counter"@);
    lemma_line_count_add("# TYPE "@ + k + " counter"@, "\n"@);
    assert(declaration =~= ("# TYPE "@ + k + " counter"@) + "\n"@);
    lemma_line_count_add(k, " "@);
    lemma_line_count_add(k + " "@, digits);
    lemma_line_count_add(k + " "@ + digits, "\n"@);
    assert(sample =~= (k + " "@ + digits) + "\n"@);
    lemma_line_count_add(declaration, sample);
}

/// The decimal text rendered for a gauge value parses back to exactly
/// that value, and it starts with a `-` sign precisely when the value is
/// negative.
pub proof fn lemma_gauge_value_round_trips(value: i64)
    ensures
        signed_dec_val(i64_dec(value as int)) == value as int,
        value < 0 <==> i64_dec(value as int)[0] == '-',
{
    if value < 0 {
        let magnitude = (-(value as int)) as nat;
        assert((seq!['-'] + u64_dec(magnitude)).skip(1) =~= u64_dec(magnitude));
        lemma_u64_dec_digits(magnitude);
        lemma_u64_dec_round_trip(magnitude);
    } else {
        lemma_u64_dec_digits(value as nat);
        assert(is_dec_digit(i64_dec(value as int)[0]));
        lemma_u64_dec_round_trip(value as nat);
    }
}

/// Quantile sample lines follow the supplied order exactly: the lines
/// rendered for one list of samples followed by another are the lines of
/// the first list, unchanged, followed by the lines of the second.  No
/// sample is reordered, merged or dropped, whatever its quantile text
/// says.
pub proof fn lemma_quantile_lines_keep_order(
    k: Seq<char>,
    before: Seq<(Seq<char>, u64)>,
    after: Seq<(Seq<char>, u64)>,
)
    ensures
        quantile_lines(k, before + after) == quantile_lines(k, before) + quantile_lines(k, after),
    decreases after.len(),
{
    if after.len() == 0 {
        assert(before + after =~= before);
        assert(quantile_lines(k, after) =~= Seq::<char>::empty());
        assert(quantile_lines(k, before) + quantile_lines(k, after) =~= quantile_lines(k, before));
    } else {
        lemma_quantile_lines_keep_order(k, before, after.drop_last());
        assert((before + after).drop_last() =~= before + after.drop_last());
        assert((before + after).last() == after.last());
        assert(quantile_lines(k, before) + quantile_lines(k, after) =~= quantile_lines(
            k,
            before,
        ) + quantile_lines(k, after.drop_last()) + quantile_line(
            k,
            after.last().0,
            after.last().1,
        ));
    }
}

/// Appending to a document never alters what it already holds: the old
/// document is exactly the prefix of the new one, and the appended block
/// is exactly its remainder.  Applied once per observation, this gives
/// the whole document as the concatenation of every observation's block
/// in call order.
pub proof fn lemma_document_append_only(doc: Seq<char>, addition: Seq<char>)
    ensures
        (doc + addition).take(doc.len() as int) == doc,
        (doc + addition).skip(doc.len() as int) == addition,
{
    assert((doc + addition).take(doc.len() as int) =~= doc);
    assert((doc + addition).skip(doc.len() as int) =~= addition);
}

} // verus!
