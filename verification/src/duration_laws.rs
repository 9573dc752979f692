//! What the duration notation promises about texts written segment by
//! segment.

use vstd::prelude::*;
use crate::duration::{
    all_digits, body_segments, digits_value, is_digit, no_digits, parse_duration, run_len,
    segment_millis, segments, total_from, unit_millis, DurationFault, Segment,
};

verus! {

/// A segment as the notation intends it: at least one digit, nothing but
/// digits in the number, and a known unit.
pub open spec fn valid_segment(seg: Segment) -> bool {
    &&& seg.digits.len() > 0
    &&& all_digits(seg.digits)
    &&& unit_millis(seg.unit) is Some
}

/// Segments that read back as they were written: every one but the last
/// names its unit or writes the number zero. (Two numbers with nothing
/// between them read as one number; that changes nothing only where the
/// first of them is zero.)
pub open spec fn unambiguous(segs: Seq<Segment>) -> bool {
    forall|i: int|
        0 <= i < segs.len() - 1 ==> (#[trigger] segs[i]).unit.len() > 0 || digits_value(
            segs[i].digits,
        ) == 0
}

/// The text that writes the segments one after another.
pub open spec fn join(segs: Seq<Segment>) -> Seq<char>
    decreases segs.len(),
{
    if segs.len() == 0 {
        Seq::empty()
    } else {
        segs[0].digits + segs[0].unit + join(segs.skip(1))
    }
}

/// The sum over the segments of number times milliseconds per unit.
pub open spec fn sum_millis(segs: Seq<Segment>) -> nat
    decreases segs.len(),
{
    if segs.len() == 0 {
        0
    } else {
        digits_value(segs[0].digits) * unit_millis(segs[0].unit).unwrap() + sum_millis(
            segs.skip(1),
        )
    }
}

/// No known unit is written with a digit.
pub proof fn lemma_known_unit_has_no_digit(unit: Seq<char>)
    requires
        unit_millis(unit) is Some,
    ensures
        no_digits(unit),
{
}

/// A run that is followed by nothing, or by a character of the other kind,
/// ends exactly there.
proof fn lemma_run_exact(run: Seq<char>, then: Seq<char>, digits: bool)
    requires
        forall|i: int| 0 <= i < run.len() ==> is_digit(#[trigger] run[i]) == digits,
        then.len() == 0 || is_digit(then[0]) != digits,
    ensures
        run_len(run + then, digits) == run.len(),
    decreases run.len(),
{
    let text = run + then;
    if run.len() == 0 {
        assert(text =~= then);
    } else {
        assert(text[0] == run[0]);
        assert(text.skip(1) =~= run.skip(1) + then);
        lemma_run_exact(run.skip(1), then, digits);
    }
}

/// The joined text is empty or begins with a digit.
proof fn lemma_join_head(segs: Seq<Segment>)
    requires
        forall|i: int| 0 <= i < segs.len() ==> valid_segment(#[trigger] segs[i]),
    ensures
        segs.len() == 0 ==> join(segs).len() == 0,
        segs.len() > 0 ==> join(segs).len() > 0 && is_digit(join(segs)[0]),
{
    if segs.len() > 0 {
        assert(valid_segment(segs[0]));
        assert(join(segs)[0] == segs[0].digits[0]);
    }
}

/// Zeros in front of a number do not change it.
proof fn lemma_leading_zeros(zeros: Seq<char>, digits: Seq<char>)
    requires
        digits_value(zeros) == 0,
    ensures
        digits_value(zeros + digits) == digits_value(digits),
    decreases digits.len(),
{
    let all = zeros + digits;
    if digits.len() == 0 {
        assert(all =~= zeros);
    } else {
        assert(all.drop_last() =~= zeros + digits.drop_last());
        assert(all.last() == digits.last());
        lemma_leading_zeros(zeros, digits.drop_last());
    }
}

/// The rest of a row of valid, unambiguous segments is one as well.
proof fn lemma_rest_is_valid(segs: Seq<Segment>)
    requires
        segs.len() > 0,
        forall|i: int| 0 <= i < segs.len() ==> valid_segment(#[trigger] segs[i]),
        unambiguous(segs),
    ensures
        forall|i: int| 0 <= i < segs.len() - 1 ==> valid_segment(#[trigger] segs.skip(1)[i]),
        unambiguous(segs.skip(1)),
{
    let rest = segs.skip(1);
    assert forall|i: int| 0 <= i < rest.len() implies valid_segment(#[trigger] rest[i]) by {
        assert(rest[i] == segs[i + 1]);
    }
    assert forall|i: int| 0 <= i < rest.len() - 1 implies (#[trigger] rest[i]).unit.len() > 0
        || digits_value(rest[i].digits) == 0 by {
        assert(rest[i] == segs[i + 1]);
    }
}

/// The row in which the first two segments of `segs` are written as one:
/// the digits of both, with the unit of the second.
spec fn merge_first(segs: Seq<Segment>) -> Seq<Segment> {
    seq![Segment { digits: segs[0].digits + segs[1].digits, unit: segs[1].unit }] + segs.skip(2)
}

/// Where the first segment writes zero and names no unit, writing it as one
/// with the second changes neither the text nor the sum.
proof fn lemma_merge_first(segs: Seq<Segment>)
    requires
        segs.len() >= 2,
        forall|i: int| 0 <= i < segs.len() ==> valid_segment(#[trigger] segs[i]),
        unambiguous(segs),
        segs[0].unit.len() == 0,
    ensures
        join(merge_first(segs)) == join(segs),
        sum_millis(merge_first(segs)) == sum_millis(segs),
        forall|i: int|
            0 <= i < merge_first(segs).len() ==> valid_segment(#[trigger] merge_first(segs)[i]),
        unambiguous(merge_first(segs)),
        merge_first(segs).len() == segs.len() - 1,
{
    let first = segs[0];
    let second = segs[1];
    let rest = segs.skip(1);
    let tail = segs.skip(2);
    let row = merge_first(segs);
    let merged = row[0];
    assert(valid_segment(first));
    assert(valid_segment(second));
    assert(digits_value(first.digits) == 0);
    assert(rest[0] == second);
    assert(rest.skip(1) =~= tail);
    assert(row.skip(1) =~= tail);
    assert(first.unit =~= Seq::<char>::empty());
    assert(join(rest) == second.digits + second.unit + join(tail));
    assert(join(row) == merged.digits + merged.unit + join(tail));
    assert(join(segs) == first.digits + first.unit + join(rest));
    assert(join(row) =~= join(segs));
    lemma_leading_zeros(first.digits, second.digits);
    assert(sum_millis(segs) == sum_millis(rest));
    assert(sum_millis(rest) == digits_value(second.digits) * unit_millis(second.unit).unwrap()
        + sum_millis(tail));
    assert(sum_millis(row) == digits_value(merged.digits) * unit_millis(merged.unit).unwrap()
        + sum_millis(tail));
    assert forall|i: int| 0 <= i < row.len() implies valid_segment(#[trigger] row[i]) by {
        if i > 0 {
            assert(row[i] == segs[i + 1]);
        }
    }
    assert forall|i: int| 0 <= i < row.len() - 1 implies (#[trigger] row[i]).unit.len() > 0
        || digits_value(row[i].digits) == 0 by {
        assert(segs[i + 1].unit.len() > 0 || digits_value(segs[i + 1].digits) == 0);
        if i > 0 {
            assert(row[i] == segs[i + 1]);
        }
    }
}

/// Where the first segment names its unit, or stands alone, the cut of the
/// joined text begins with it and goes on with the cut of the rest.
proof fn lemma_cut_first(segs: Seq<Segment>)
    requires
        segs.len() > 0,
        forall|i: int| 0 <= i < segs.len() ==> valid_segment(#[trigger] segs[i]),
        segs[0].unit.len() > 0 || segs.len() == 1,
    ensures
        body_segments(join(segs)) == seq![segs[0]] + body_segments(join(segs.skip(1))),
{
    let text = join(segs);
    let first = segs[0];
    let rest = segs.skip(1);
    let after = join(rest);
    let d = first.digits.len() as int;
    let u = first.unit.len() as int;
    assert(valid_segment(first));
    assert forall|i: int| 0 <= i < rest.len() implies valid_segment(#[trigger] rest[i]) by {
        assert(rest[i] == segs[i + 1]);
    }
    lemma_join_head(rest);
    lemma_known_unit_has_no_digit(first.unit);
    assert(text =~= first.digits + (first.unit + after));
    lemma_run_exact(first.digits, first.unit + after, true);
    assert(text.skip(d) =~= first.unit + after);
    lemma_run_exact(first.unit, after, false);
    assert(text.take(d) =~= first.digits);
    assert(text.subrange(d, d + u) =~= first.unit);
    assert(text.skip(d + u) =~= after);
    let head = Segment { digits: text.take(d), unit: text.subrange(d, d + u) };
    assert(head == first);
}

/// Cutting the joined text and summing what comes out gives the sum of the
/// segments that were joined.
proof fn lemma_total_of_join(acc: nat, segs: Seq<Segment>)
    requires
        forall|i: int| 0 <= i < segs.len() ==> valid_segment(#[trigger] segs[i]),
        unambiguous(segs),
        acc + sum_millis(segs) <= u64::MAX,
    ensures
        total_from(acc, body_segments(join(segs))) == Ok::<nat, DurationFault>(
            acc + sum_millis(segs),
        ),
    decreases segs.len(),
{
    if segs.len() == 0 {
        assert(run_len(join(segs), true) == 0);
    } else if segs[0].unit.len() == 0 && segs.len() >= 2 {
        lemma_merge_first(segs);
        lemma_total_of_join(acc, merge_first(segs));
    } else {
        let first = segs[0];
        let rest = segs.skip(1);
        lemma_cut_first(segs);
        lemma_rest_is_valid(segs);
        let cut = body_segments(join(segs));
        assert(cut[0] == first);
        assert(cut.skip(1) =~= body_segments(join(rest)));
        assert(valid_segment(first));
        let number = digits_value(first.digits);
        let factor = unit_millis(first.unit).unwrap();
        assert(number <= number * factor) by (nonlinear_arith)
            requires
                factor >= 1,
        ;
        assert(segment_millis(first) == Ok::<nat, DurationFault>(number * factor));
        lemma_total_of_join(acc + number * factor, rest);
    }
}

/// Valid segments written one after another stand for the sum, over the
/// segments, of the number times the milliseconds in its unit (1 for `ms`,
/// 1000 for `s`, 60 000 for `m`, 3 600 000 for `h`, 86 400 000 for `d`,
/// 604 800 000 for `w`, 31 536 000 000 for `y`), provided the sum fits in 64
/// bits and every segment but the last names its unit or writes zero.
pub proof fn lemma_parse_is_sum_of_segments(segs: Seq<Segment>)
    requires
        forall|i: int| 0 <= i < segs.len() ==> valid_segment(#[trigger] segs[i]),
        unambiguous(segs),
        sum_millis(segs) <= u64::MAX,
    ensures
        parse_duration(join(segs)) == Ok::<nat, DurationFault>(sum_millis(segs)),
{
    let text = join(segs);
    lemma_join_head(segs);
    assert(run_len(text, false) == 0);
    assert(text.skip(0) =~= text);
    let body = body_segments(text);
    if body.len() > 0 {
        let led = Segment { digits: body[0].digits, unit: text.take(0) + body[0].unit };
        assert(led.unit =~= body[0].unit);
        assert(body.update(0, led) =~= body);
    }
    assert(segments(text) == body);
    lemma_total_of_join(0, segs);
}

} // verus!
