//! The compound duration notation used for timeouts, such as `"1h25ms"`.
//!
//! A text is read as a row of segments. A segment is a run of decimal digits
//! followed by the run of other characters up to the next digit; the second
//! run names the unit. The segments are summed, in milliseconds.

use vstd::prelude::*;
use vstd::string::{StrSliceExecFns, StringExecFns};
use crate::timespan::TimeSpan;

verus! {

pub const MILLIS_PER_SECOND: u64 = 1_000;

pub const MILLIS_PER_MINUTE: u64 = 60_000;

pub const MILLIS_PER_HOUR: u64 = 3_600_000;

pub const MILLIS_PER_DAY: u64 = 86_400_000;

pub const MILLIS_PER_WEEK: u64 = 604_800_000;

/// A year counts 365 days, whatever the calendar says.
pub const MILLIS_PER_YEAR: u64 = 31_536_000_000;

/// Why a text is no duration.
#[derive(Clone, Debug, PartialEq, Eq)]
pub enum DurationError {
    /// A segment's unit is none of the known ones; the unit is handed back.
    UnknownUnit(String),
    /// A run of digits writes a number that does not fit in 64 bits.
    NumberTooLarge,
    /// A segment, or the sum up to it, exceeds 64 bits of milliseconds.
    TotalTooLarge,
}

/// What a `DurationError` says, with the unit as a sequence of characters.
pub enum DurationFault {
    UnknownUnit(Seq<char>),
    NumberTooLarge,
    TotalTooLarge,
}

impl View for DurationError {
    type V = DurationFault;

    open spec fn view(&self) -> DurationFault {
        match self {
            DurationError::UnknownUnit(unit) => DurationFault::UnknownUnit(unit@),
            DurationError::NumberTooLarge => DurationFault::NumberTooLarge,
            DurationError::TotalTooLarge => DurationFault::TotalTooLarge,
        }
    }
}

impl DurationError {
    /// The message that belongs to a fault.
    pub open spec fn message_text(fault: DurationFault) -> Seq<char> {
        match fault {
            DurationFault::UnknownUnit(unit) => "unit "@ + unit + " not understood"@,
            DurationFault::NumberTooLarge => "number too large to fit in target type"@,
            DurationFault::TotalTooLarge => "duration too large to fit in target type"@,
        }
    }

    /// The error in words, for the operator.
    pub fn message(&self) -> (text: String)
        ensures
            text@ == Self::message_text(self@),
    {
        match self {
            DurationError::UnknownUnit(unit) => {
                let mut text = String::from_str("unit ");
                text.append(unit.as_str());
                text.append(" not understood");
                text
            },
            DurationError::NumberTooLarge => String::from_str(
                "number too large to fit in target type",
            ),
            DurationError::TotalTooLarge => String::from_str(
                "duration too large to fit in target type",
            ),
        }
    }
}

/// One `<digits><unit>` pair of a duration text.
pub struct Segment {
    pub digits: Seq<char>,
    pub unit: Seq<char>,
}

/// The ten ASCII digits; every other character is unit text.
pub open spec fn is_digit(c: char) -> bool {
    '0' <= c && c <= '9'
}

/// Every character of `text` is a digit.
pub open spec fn all_digits(text: Seq<char>) -> bool {
    forall|i: int| 0 <= i < text.len() ==> is_digit(#[trigger] text[i])
}

/// No character of `text` is a digit.
pub open spec fn no_digits(text: Seq<char>) -> bool {
    forall|i: int| 0 <= i < text.len() ==> !is_digit(#[trigger] text[i])
}

/// The length of the longest prefix of `text` made of digits only (`digits`
/// is true) or free of digits (`digits` is false).
pub open spec fn run_len(text: Seq<char>, digits: bool) -> nat
    decreases text.len(),
{
    if text.len() > 0 && is_digit(text[0]) == digits {
        1 + run_len(text.skip(1), digits)
    } else {
        0
    }
}

/// The number that a run of digits writes in base ten.
pub open spec fn digits_value(digits: Seq<char>) -> nat
    decreases digits.len(),
{
    if digits.len() == 0 {
        0
    } else {
        10 * digits_value(digits.drop_last()) + (digits.last() as nat - '0' as nat) as nat
    }
}

/// The milliseconds in one of the named unit, if the name is known. The
/// empty name counts as milliseconds.
pub open spec fn unit_millis(unit: Seq<char>) -> Option<nat> {
    if unit =~= Seq::empty() || unit =~= seq!['m', 's'] {
        Some(1)
    } else if unit =~= seq!['s'] {
        Some(MILLIS_PER_SECOND as nat)
    } else if unit =~= seq!['m'] {
        Some(MILLIS_PER_MINUTE as nat)
    } else if unit =~= seq!['h'] {
        Some(MILLIS_PER_HOUR as nat)
    } else if unit =~= seq!['d'] {
        Some(MILLIS_PER_DAY as nat)
    } else if unit =~= seq!['w'] {
        Some(MILLIS_PER_WEEK as nat)
    } else if unit =~= seq!['y'] {
        Some(MILLIS_PER_YEAR as nat)
    } else {
        None
    }
}

/// The milliseconds that one segment stands for. An unknown unit is
/// reported before a number that is too large.
pub open spec fn segment_millis(seg: Segment) -> Result<nat, DurationFault> {
    match unit_millis(seg.unit) {
        None => Err(DurationFault::UnknownUnit(seg.unit)),
        Some(factor) => {
            let number = digits_value(seg.digits);
            if number > u64::MAX {
                Err(DurationFault::NumberTooLarge)
            } else if number * factor > u64::MAX {
                Err(DurationFault::TotalTooLarge)
            } else {
                Ok(number * factor)
            }
        },
    }
}

/// The segments of a text that begins with a digit: each takes the longest
/// run of digits and the longest run of other characters behind it.
pub open spec fn body_segments(text: Seq<char>) -> Seq<Segment>
    decreases text.len(),
{
    let d = run_len(text, true);
    let u = run_len(text.skip(d as int), false);
    if d == 0 {
        Seq::empty()
    } else {
        proof {
            lemma_run_len_bound(text, true);
            lemma_run_len_bound(text.skip(d as int), false);
        }
        seq![Segment { digits: text.take(d as int), unit: text.subrange(d as int, (d + u) as int) }]
            + body_segments(text.skip((d + u) as int))
    }
}

/// The segments of a duration text. Whatever stands before the first digit
/// belongs to the unit of the first segment; a text without any digit has
/// no segment at all.
pub open spec fn segments(text: Seq<char>) -> Seq<Segment> {
    let lead = run_len(text, false);
    let body = body_segments(text.skip(lead as int));
    if body.len() == 0 {
        body
    } else {
        body.update(
            0,
            Segment { digits: body[0].digits, unit: text.take(lead as int) + body[0].unit },
        )
    }
}

/// Adds the segments to `acc` from left to right. The first segment that is
/// faulty, or that takes the sum beyond 64 bits, decides the fault.
pub open spec fn total_from(acc: nat, segs: Seq<Segment>) -> Result<nat, DurationFault>
    decreases segs.len(),
{
    if segs.len() == 0 {
        Ok(acc)
    } else {
        match segment_millis(segs[0]) {
            Err(fault) => Err(fault),
            Ok(millis) => if acc + millis > u64::MAX {
                Err(DurationFault::TotalTooLarge)
            } else {
                total_from(acc + millis, segs.skip(1))
            },
        }
    }
}

/// The milliseconds that a duration text stands for, or why it stands for
/// none.
pub open spec fn parse_duration(text: Seq<char>) -> Result<nat, DurationFault> {
    total_from(0, segments(text))
}

/// A run is no longer than the text it is the front of.
pub proof fn lemma_run_len_bound(text: Seq<char>, digits: bool)
    ensures
        run_len(text, digits) <= text.len(),
    decreases text.len(),
{
    if text.len() > 0 && is_digit(text[0]) == digits {
        lemma_run_len_bound(text.skip(1), digits);
    }
}

/// Reads a run of digits as a number, if it fits in 64 bits.
fn parse_digits(digits: &str) -> (number: Option<u64>)
    requires
        all_digits(digits@),
    ensures
        number == if digits_value(digits@) <= u64::MAX {
            Some(digits_value(digits@) as u64)
        } else {
            None::<u64>
        },
{
    let mut value: u64 = 0;
    let mut fits = true;
    for c in it: digits.chars()
        invariant
            it.seq() == digits@,
            all_digits(digits@),
            fits ==> value == digits_value(digits@.take(it.index() as int)),
            !fits ==> digits_value(digits@.take(it.index() as int)) > u64::MAX,
    {
        let ghost before = digits@.take(it.index() as int);
        let ghost after = digits@.take(it.index() + 1);
        assert(c == digits@[it.index() as int]);
        assert(after.drop_last() =~= before);
        assert(after.last() == c);
        let digit: u64 = (c as u32 - '0' as u32) as u64;
        if fits {
            if value > (u64::MAX - digit) / 10 {
                fits = false;
            } else {
                value = value * 10 + digit;
            }
        }
    }
    assert(digits@.take(digits@.len() as int) =~= digits@);
    if fits {
        Some(value)
    } else {
        None
    }
}

/// Looks a unit up by its name.
fn unit_factor(unit: &str) -> (factor: Option<u64>)
    ensures
        match unit_millis(unit@) {
            Some(millis) => factor == Some(millis as u64) && millis <= u64::MAX,
            None => factor is None,
        },
{
    let len = unit.unicode_len();
    if len == 0 {
        Some(1)
    } else if len == 1 {
        let c = unit.get_char(0);
        assert(unit@ =~= seq![c]);
        if c == 's' {
            Some(MILLIS_PER_SECOND)
        } else if c == 'm' {
            Some(MILLIS_PER_MINUTE)
        } else if c == 'h' {
            Some(MILLIS_PER_HOUR)
        } else if c == 'd' {
            Some(MILLIS_PER_DAY)
        } else if c == 'w' {
            Some(MILLIS_PER_WEEK)
        } else if c == 'y' {
            Some(MILLIS_PER_YEAR)
        } else {
            None
        }
    } else if len == 2 {
        let first = unit.get_char(0);
        let second = unit.get_char(1);
        assert(unit@ =~= seq![first, second]);
        if first == 'm' && second == 's' {
            Some(1)
        } else {
            None
        }
    } else {
        None
    }
}

/// Turns the digits and the unit collected so far into milliseconds and
/// empties both buffers. With no digits collected there is nothing to turn:
/// the result is zero, whatever the unit buffer holds.
pub fn dur_units(num: &mut String, unit: &mut String) -> (millis: Result<u64, DurationError>)
    requires
        all_digits(old(num)@),
    ensures
        old(num)@.len() == 0 ==> millis == Ok::<u64, DurationError>(0),
        old(num)@.len() > 0 ==> match segment_millis(
            Segment { digits: old(num)@, unit: old(unit)@ },
        ) {
            Ok(value) => millis == Ok::<u64, DurationError>(value as u64) && value <= u64::MAX,
            Err(fault) => millis is Err && millis->Err_0@ == fault,
        },
        millis is Ok ==> final(num)@.len() == 0 && final(unit)@.len() == 0,
        millis is Err ==> final(num)@ == old(num)@ && final(unit)@ == old(unit)@,
{
    let mut total: u64 = 0;
    if !num.as_str().is_empty() {
        let factor = match unit_factor(unit.as_str()) {
            Some(factor) => factor,
            None => {
                return Err(DurationError::UnknownUnit(unit.clone()));
            },
        };
        let number = match parse_digits(num.as_str()) {
            Some(number) => number,
            None => {
                return Err(DurationError::NumberTooLarge);
            },
        };
        total = match number.checked_mul(factor) {
            Some(product) => product,
            None => {
                return Err(DurationError::TotalTooLarge);
            },
        };
    }
    num.clear();
    unit.clear();
    Ok(total)
}

/// The segments of `text` when `lead` was read before it and held no digit.
spec fn led_segments(lead: Seq<char>, text: Seq<char>) -> Seq<Segment> {
    let skipped = run_len(text, false);
    let body = body_segments(text.skip(skipped as int));
    if body.len() == 0 {
        body
    } else {
        body.update(
            0,
            Segment { digits: body[0].digits, unit: lead + text.take(skipped as int) + body[0].unit },
        )
    }
}

/// What the whole text stands for, seen from the middle of a scan: `num` and
/// `unit` are the buffers, `after_unit` says that the last character read
/// was no digit, `acc` is the sum of the segments already closed, and `rest`
/// is what remains to be read.
spec fn pending(
    num: Seq<char>,
    unit: Seq<char>,
    after_unit: bool,
    acc: nat,
    rest: Seq<char>,
) -> Result<nat, DurationFault> {
    if num.len() == 0 {
        total_from(acc, led_segments(unit, rest))
    } else {
        let d = if after_unit {
            0
        } else {
            run_len(rest, true)
        };
        let u = run_len(rest.skip(d as int), false);
        let open = Segment {
            digits: num + rest.take(d as int),
            unit: unit + rest.subrange(d as int, (d + u) as int),
        };
        total_from(acc, seq![open] + body_segments(rest.skip((d + u) as int)))
    }
}

/// Before the first character nothing is pending but the text itself.
proof fn lemma_pending_start(text: Seq<char>)
    ensures
        pending(Seq::empty(), Seq::empty(), false, 0, text) == parse_duration(text),
{
    let lead = run_len(text, false) as int;
    let body = body_segments(text.skip(lead));
    if body.len() > 0 {
        assert(Seq::<char>::empty() + text.take(lead) + body[0].unit =~= text.take(lead)
            + body[0].unit);
    }
}

/// After the last character the buffers hold the last segment, if any.
proof fn lemma_pending_end(num: Seq<char>, unit: Seq<char>, after_unit: bool, acc: nat)
    ensures
        num.len() == 0 ==> pending(num, unit, after_unit, acc, Seq::empty()) == Ok::<
            nat,
            DurationFault,
        >(acc),
        num.len() > 0 ==> pending(num, unit, after_unit, acc, Seq::empty()) == total_from(
            acc,
            seq![Segment { digits: num, unit: unit }],
        ),
{
    let rest = Seq::<char>::empty();
    assert(run_len(rest, true) == 0);
    assert(run_len(rest, false) == 0);
    assert(rest.skip(0) =~= rest);
    assert(body_segments(rest) =~= Seq::empty());
    if num.len() > 0 {
        assert(num + rest.take(0) =~= num);
        assert(unit + rest.subrange(0, 0) =~= unit);
        assert(seq![Segment { digits: num, unit: unit }] + body_segments(rest) =~= seq![
            Segment { digits: num, unit: unit },
        ]);
    }
}

/// The sum after the segment `seg` is added to `acc`.
spec fn close_segment(acc: nat, seg: Segment) -> Result<nat, DurationFault> {
    match segment_millis(seg) {
        Err(fault) => Err(fault),
        Ok(millis) => if acc + millis > u64::MAX {
            Err(DurationFault::TotalTooLarge)
        } else {
            Ok(acc + millis)
        },
    }
}

/// Summing a single segment closes it.
proof fn lemma_total_single(acc: nat, seg: Segment)
    ensures
        total_from(acc, seq![seg]) == close_segment(acc, seg),
{
    let segs = seq![seg];
    assert(segs.skip(1) =~= Seq::empty());
    reveal_with_fuel(total_from, 2);
}

/// Summing a row of segments closes the first and goes on with the rest.
proof fn lemma_total_cons(acc: nat, seg: Segment, tail: Seq<Segment>)
    ensures
        total_from(acc, seq![seg] + tail) == match close_segment(acc, seg) {
            Err(fault) => Err(fault),
            Ok(sum) => total_from(sum, tail),
        },
{
    let segs = seq![seg] + tail;
    assert(segs[0] == seg);
    assert(segs.skip(1) =~= tail);
}

/// A text that begins with a digit: its first segment and the rest.
proof fn lemma_body_unfold(text: Seq<char>)
    requires
        text.len() > 0,
        is_digit(text[0]),
    ensures
        ({
            let d = run_len(text, true) as int;
            let u = run_len(text.skip(d), false) as int;
            &&& 1 <= d
            &&& d + u <= text.len()
            &&& d == 1 + run_len(text.skip(1), true)
            &&& body_segments(text) == seq![
                Segment { digits: text.take(d), unit: text.subrange(d, d + u) },
            ] + body_segments(text.skip(d + u))
        }),
{
    lemma_run_len_bound(text, true);
    lemma_run_len_bound(text.skip(run_len(text, true) as int), false);
}

/// Reading a character that is no digit: it joins the unit buffer.
proof fn lemma_step_unit(
    num: Seq<char>,
    unit: Seq<char>,
    after_unit: bool,
    acc: nat,
    rest: Seq<char>,
)
    requires
        rest.len() > 0,
        !is_digit(rest[0]),
    ensures
        pending(num, unit, after_unit, acc, rest) == pending(
            num,
            unit.push(rest[0]),
            true,
            acc,
            rest.skip(1),
        ),
{
    let c = rest[0];
    let tail = rest.skip(1);
    lemma_run_len_bound(tail, false);
    let k = run_len(tail, false) as int;
    assert(run_len(rest, false) == 1 + k);
    assert(run_len(rest, true) == 0);
    assert(rest.skip(1 + k) =~= tail.skip(k));
    if num.len() == 0 {
        assert(unit + rest.take(1 + k) =~= unit.push(c) + tail.take(k));
    } else {
        assert(rest.skip(0) =~= rest);
        assert(tail.skip(0) =~= tail);
        assert(num + rest.take(0) =~= num + tail.take(0));
        assert(unit + rest.subrange(0, 1 + k) =~= unit.push(c) + tail.subrange(0, k));
    }
}

/// Reading the first digit of all: what came before it leads the first
/// segment.
proof fn lemma_step_first_digit(unit: Seq<char>, after_unit: bool, acc: nat, rest: Seq<char>)
    requires
        rest.len() > 0,
        is_digit(rest[0]),
    ensures
        pending(Seq::empty(), unit, after_unit, acc, rest) == pending(
            seq![rest[0]],
            unit,
            false,
            acc,
            rest.skip(1),
        ),
{
    let c = rest[0];
    let tail = rest.skip(1);
    lemma_body_unfold(rest);
    let d = run_len(rest, true) as int;
    let u = run_len(rest.skip(d), false) as int;
    let k = d - 1;
    assert(run_len(rest, false) == 0);
    assert(rest.skip(0) =~= rest);
    assert(rest.take(0) =~= Seq::<char>::empty());
    assert(rest.skip(d) =~= tail.skip(k));
    assert(rest.skip(d + u) =~= tail.skip(k + u));
    let next = body_segments(rest.skip(d + u));
    let head = Segment { digits: rest.take(d), unit: rest.subrange(d, d + u) };
    let led = Segment { digits: head.digits, unit: unit + rest.take(0) + head.unit };
    assert((seq![head] + next).update(0, led) =~= seq![led] + next);
    assert(seq![c] + tail.take(k) =~= led.digits);
    assert(unit + tail.subrange(k, k + u) =~= led.unit);
    assert(led_segments(unit, rest) == seq![led] + next);
}

/// Reading a digit right after another digit: the number grows.
proof fn lemma_step_next_digit(num: Seq<char>, unit: Seq<char>, acc: nat, rest: Seq<char>)
    requires
        rest.len() > 0,
        is_digit(rest[0]),
        num.len() > 0,
    ensures
        pending(num, unit, false, acc, rest) == pending(
            num.push(rest[0]),
            unit,
            false,
            acc,
            rest.skip(1),
        ),
{
    let c = rest[0];
    let tail = rest.skip(1);
    lemma_body_unfold(rest);
    let d = run_len(rest, true) as int;
    let u = run_len(rest.skip(d), false) as int;
    let k = d - 1;
    assert(rest.skip(d) =~= tail.skip(k));
    assert(rest.skip(d + u) =~= tail.skip(k + u));
    assert(num + rest.take(d) =~= num.push(c) + tail.take(k));
    assert(rest.subrange(d, d + u) =~= tail.subrange(k, k + u));
}

/// Reading a digit after a unit: the segment collected so far is closed and
/// the digit opens the next one.
proof fn lemma_step_flush(num: Seq<char>, unit: Seq<char>, acc: nat, rest: Seq<char>)
    requires
        rest.len() > 0,
        is_digit(rest[0]),
        num.len() > 0,
    ensures
        pending(num, unit, true, acc, rest) == match close_segment(
            acc,
            Segment { digits: num, unit: unit },
        ) {
            Err(fault) => Err(fault),
            Ok(sum) => pending(seq![rest[0]], Seq::empty(), false, sum, rest.skip(1)),
        },
{
    let c = rest[0];
    let tail = rest.skip(1);
    lemma_body_unfold(rest);
    let d = run_len(rest, true) as int;
    let u = run_len(rest.skip(d), false) as int;
    let k = d - 1;
    assert(run_len(rest, false) == 0);
    assert(rest.skip(0) =~= rest);
    assert(num + rest.take(0) =~= num);
    assert(unit + rest.subrange(0, 0) =~= unit);
    let closed = Segment { digits: num, unit: unit };
    assert(pending(num, unit, true, acc, rest) == total_from(
        acc,
        seq![closed] + body_segments(rest),
    ));
    lemma_total_cons(acc, closed, body_segments(rest));
    assert(rest.skip(d) =~= tail.skip(k));
    assert(rest.skip(d + u) =~= tail.skip(k + u));
    assert(seq![c] + tail.take(k) =~= rest.take(d));
    assert(Seq::<char>::empty() + tail.subrange(k, k + u) =~= rest.subrange(d, d + u));
}

/// Reads a compound duration such as `"1h25ms"`.
///
/// The text is cut into segments, each a run of digits and the unit behind
/// it, and the segments are summed. Known units are `ms` (also written as
/// nothing at all), `s`, `m`, `h`, `d`, `w` and `y`. A text without any
/// digit holds no segment and stands for zero. The first segment from the
/// left that is faulty decides the error.
pub fn dur_from_str(s: &str) -> (parsed: Result<TimeSpan, DurationError>)
    ensures
        match parse_duration(s@) {
            Ok(millis) => millis <= u64::MAX && parsed == Ok::<TimeSpan, DurationError>(
                TimeSpan::of_millis(millis as u64),
            ),
            Err(fault) => parsed is Err && parsed->Err_0@ == fault,
        },
{
    let mut num = String::new();
    let mut units = String::new();
    let mut tot_ms: u64 = 0;
    let mut in_char = false;
    proof {
        lemma_pending_start(s@);
        assert(s@.skip(0) =~= s@);
    }
    for c in it: s.chars()
        invariant
            it.seq() == s@,
            all_digits(num@),
            parse_duration(s@) == pending(
                num@,
                units@,
                in_char,
                tot_ms as nat,
                s@.skip(it.index() as int),
            ),
    {
        let ghost rest = s@.skip(it.index() as int);
        proof {
            assert(rest[0] == c);
            assert(rest.skip(1) =~= s@.skip(it.index() + 1));
            if !is_digit(c) {
                lemma_step_unit(num@, units@, in_char, tot_ms as nat, rest);
            } else if num@.len() == 0 {
                assert(num@ =~= Seq::<char>::empty());
                lemma_step_first_digit(units@, in_char, tot_ms as nat, rest);
                assert(Seq::<char>::empty().push(c) =~= seq![c]);
            } else if in_char {
                lemma_step_flush(num@, units@, tot_ms as nat, rest);
                assert(Seq::<char>::empty().push(c) =~= seq![c]);
            } else {
                lemma_step_next_digit(num@, units@, tot_ms as nat, rest);
            }
        }
        if c >= '0' && c <= '9' {
            if in_char {
                let pending_digits = !num.as_str().is_empty();
                if pending_digits {
                    let millis = match dur_units(&mut num, &mut units) {
                        Ok(millis) => millis,
                        Err(error) => {
                            return Err(error);
                        },
                    };
                    tot_ms = match tot_ms.checked_add(millis) {
                        Some(sum) => sum,
                        None => {
                            return Err(DurationError::TotalTooLarge);
                        },
                    };
                    assert(num@ =~= Seq::<char>::empty());
                    assert(units@ =~= Seq::<char>::empty());
                }
            }
            num.push(c);
            in_char = false;
        } else {
            in_char = true;
            units.push(c);
        }
    }
    proof {
        assert(s@.skip(s@.len() as int) =~= Seq::<char>::empty());
        lemma_pending_end(num@, units@, in_char, tot_ms as nat);
        if num@.len() > 0 {
            lemma_total_single(tot_ms as nat, Segment { digits: num@, unit: units@ });
        }
    }
    if !num.as_str().is_empty() {
        let millis = match dur_units(&mut num, &mut units) {
            Ok(millis) => millis,
            Err(error) => {
                return Err(error);
            },
        };
        tot_ms = match tot_ms.checked_add(millis) {
            Some(sum) => sum,
            None => {
                return Err(DurationError::TotalTooLarge);
            },
        };
    }
    Ok(TimeSpan::from_millis(tot_ms))
}

} // verus!
