//! The window of time that a listing of pipelines is cut down to.

use vstd::prelude::*;
use crate::errors::ParseError;
use crate::records::Pipeline;
use crate::text::chars_of;

verus! {

/// The unit of a window.
#[derive(Debug, Clone, Copy, PartialEq, Eq, Structural)]
pub enum WindowUnit {
    Hours,
    Days,
}

/// A span of time that ends now: `amount` hours or days.
#[derive(Debug, Clone, Copy, PartialEq, Eq, Structural)]
pub struct Window {
    pub amount: u64,
    pub unit: WindowUnit,
}

/// A point in time: the whole seconds since the start of 1970 in UTC, leap
/// seconds not counted, and the nanoseconds since the last whole second.
///
/// Within a leap second the seconds stay at the second before it, and the
/// nanoseconds go on from 1,000,000,000 up to 1,999,999,999.
#[derive(Debug, Clone, Copy, PartialEq, Eq, Structural)]
pub struct Instant {
    pub seconds: i64,
    pub nanos: u32,
}

impl Instant {
    /// The whole seconds from midnight to this point.
    pub open spec fn second_of_day(self) -> int {
        (self.seconds as int) % 86_400
    }

    /// Whether this point lies within a leap second.
    pub open spec fn in_leap_second(self) -> bool {
        self.nanos >= 1_000_000_000
    }

    /// The whole seconds from midnight to this point.
    pub fn day_second(&self) -> (second: i64)
        ensures
            second == self.second_of_day(),
    {
        if self.seconds >= 0 {
            self.seconds % 86_400
        } else {
            let below: i64 = -(self.seconds + 1);
            86_399 - below % 86_400
        }
    }
}

/// The leap second that is counted between `created` and `now`, besides
/// what their seconds and nanoseconds tell: one more where `created` lies
/// within a leap second and `now` is later in its day, one less where
/// `now` lies within a leap second and `created` is later in its day.
pub open spec fn leap_between(created: Instant, now: Instant) -> int {
    if now.second_of_day() > created.second_of_day() && created.in_leap_second() {
        1
    } else if now.second_of_day() < created.second_of_day() && now.in_leap_second() {
        -1
    } else {
        0
    }
}

/// The nanoseconds from `created` to `now`; negative where `now` is the
/// earlier one.
pub open spec fn elapsed(created: Instant, now: Instant) -> int {
    (now.seconds - created.seconds + leap_between(created, now)) * 1_000_000_000 + (now.nanos
        - created.nanos)
}

impl Window {
    /// The seconds of one unit.
    pub open spec fn unit_seconds(self) -> int {
        match self.unit {
            WindowUnit::Hours => 3_600,
            WindowUnit::Days => 86_400,
        }
    }

    /// The length of the window in nanoseconds.
    pub open spec fn span(self) -> int {
        self.amount * self.unit_seconds() * 1_000_000_000
    }

    /// Whether `created` lies within the window that ends at `now`: no more
    /// than the window's length before it. The boundary belongs to the window.
    pub open spec fn holds(self, created: Instant, now: Instant) -> bool {
        elapsed(created, now) <= self.span()
    }

    /// Whether `created` lies within the window that ends at `now`.
    pub fn contains(&self, created: Instant, now: Instant) -> (inside: bool)
        ensures
            inside == self.holds(created, now),
    {
        let unit: i128 = match self.unit {
            WindowUnit::Hours => 3_600,
            WindowUnit::Days => 86_400,
        };
        let span: i128 = (self.amount as i128) * unit * 1_000_000_000;
        let now_second: i64 = now.day_second();
        let created_second: i64 = created.day_second();
        let leap: i128 = if now_second > created_second && created.nanos >= 1_000_000_000 {
            1
        } else if now_second < created_second && now.nanos >= 1_000_000_000 {
            -1
        } else {
            0
        };
        let seconds: i128 = (now.seconds as i128) - (created.seconds as i128) + leap;
        let nanos: i128 = (now.nanos as i128) - (created.nanos as i128);
        seconds * 1_000_000_000 + nanos <= span
    }
}

/// The unit that `c` stands for.
pub open spec fn unit_of(c: char) -> Option<WindowUnit> {
    if c == 'h' {
        Some(WindowUnit::Hours)
    } else if c == 'd' {
        Some(WindowUnit::Days)
    } else {
        None
    }
}

/// Whether `c` is one of the ten decimal digits.
pub open spec fn is_digit(c: char) -> bool {
    '0' as u32 <= c as u32 <= '9' as u32
}

/// The value of the digit `c`; 0 for any other character.
pub open spec fn digit_value(c: char) -> nat {
    if is_digit(c) {
        (c as u32 - '0' as u32) as nat
    } else {
        0
    }
}

/// Whether `s` holds decimal digits only.
pub open spec fn all_digits(s: Seq<char>) -> bool {
    forall|i: int| 0 <= i < s.len() ==> is_digit(#[trigger] s[i])
}

/// The number that the decimal digits of `s` write.
pub open spec fn digits_value(s: Seq<char>) -> nat
    decreases s.len(),
{
    if s.len() == 0 {
        0
    } else {
        digits_value(s.drop_last()) * 10 + digit_value(s.last())
    }
}

/// `s` without the plus sign at its start, if it has one.
pub open spec fn without_plus(s: Seq<char>) -> Seq<char> {
    if s.len() > 0 && s[0] == '+' {
        s.drop_first()
    } else {
        s
    }
}

/// The amount that `s` writes: one decimal digit or more, after at most one
/// plus sign, of a value that fits in 64 bits.
pub open spec fn amount_of(s: Seq<char>) -> Option<u64> {
    let digits = without_plus(s);
    if digits.len() > 0 && all_digits(digits) && digits_value(digits) <= u64::MAX {
        Some(digits_value(digits) as u64)
    } else {
        None
    }
}

/// The window that `s` writes: an amount, then `h` for hours or `d` for days.
pub open spec fn window_of(s: Seq<char>) -> Result<Window, ParseError> {
    if s.len() == 0 {
        Err(ParseError::InvalidUnit)
    } else {
        match unit_of(s.last()) {
            None => Err(ParseError::InvalidUnit),
            Some(unit) => match amount_of(s.drop_last()) {
                None => Err(ParseError::InvalidNumber),
                Some(amount) => Ok(Window { amount, unit }),
            },
        }
    }
}

/// The amount that the characters of `chars` before position `to` write.
fn read_amount(chars: &Vec<char>, to: usize) -> (amount: Option<u64>)
    requires
        to <= chars.len(),
    ensures
        amount == amount_of(chars@.take(to as int)),
{
    let ghost whole = chars@.take(to as int);
    let from: usize = if to > 0 && chars[0] == '+' { 1 } else { 0 };
    let ghost digits = without_plus(whole);
    assert(digits =~= chars@.subrange(from as int, to as int));
    if from == to {
        return None;
    }
    let mut value: u64 = 0;
    let mut fits: bool = true;
    let mut i: usize = from;
    assert(digits.take(0) =~= Seq::<char>::empty());
    while i < to
        invariant
            from <= i <= to <= chars.len(),
            digits == chars@.subrange(from as int, to as int),
            digits == without_plus(chars@.take(to as int)),
            all_digits(digits.take(i - from)),
            fits ==> value == digits_value(digits.take(i - from)),
            !fits ==> digits_value(digits.take(i - from)) > u64::MAX,
        decreases to - i,
    {
        let c = chars[i];
        let ghost before = digits.take(i - from);
        let ghost after = digits.take(i - from + 1);
        proof {
            assert(after.drop_last() =~= before);
            assert(after.last() == c);
        }
        let code: u32 = c as u32;
        if code < 48 || code > 57 {
            assert(!is_digit(digits[i - from]));
            return None;
        }
        let d: u64 = (code - 48) as u64;
        assert(d == digit_value(c));
        if fits && value <= (u64::MAX - d) / 10 {
            value = value * 10 + d;
        } else {
            fits = false;
        }
        i += 1;
        proof {
            assert forall|j: int| 0 <= j < after.len() implies is_digit(#[trigger] after[j]) by {
                if j < before.len() {
                    assert(after[j] == before[j]);
                }
            }
        }
    }
    assert(digits.take(to - from) =~= digits);
    if fits {
        Some(value)
    } else {
        None
    }
}

/// Reads a window such as `2h` or `3d`.
///
/// The last character is the unit and is looked at first: without `h` or `d`
/// there the text is refused for its unit, whatever stands before it.
pub fn parse_duration(last: &str) -> (window: Result<Window, ParseError>)
    ensures
        window == window_of(last@),
{
    let chars = chars_of(last);
    if chars.len() == 0 {
        return Err(ParseError::InvalidUnit);
    }
    let end: usize = chars.len() - 1;
    let c = chars[end];
    let unit = if c == 'h' {
        WindowUnit::Hours
    } else if c == 'd' {
        WindowUnit::Days
    } else {
        return Err(ParseError::InvalidUnit);
    };
    assert(chars@.take(end as int) =~= last@.drop_last());
    match read_amount(&chars, end) {
        Some(amount) => Ok(Window { amount, unit }),
        None => Err(ParseError::InvalidNumber),
    }
}

/// The point in time that `text` writes in the format of RFC 3339, if it
/// writes one.
pub uninterp spec fn rfc3339_instant(text: Seq<char>) -> Option<Instant>;

/// Reads a point in time in the format of RFC 3339.
///
/// Trusted: `chrono::DateTime::parse_from_rfc3339` reads the text, and
/// `timestamp` and `timestamp_subsec_nanos` give the seconds and the
/// nanoseconds of what it read. The same text always gives the same result.
#[verifier::external_body]
fn read_rfc3339(text: &str) -> (at: Option<Instant>)
    ensures
        at == rfc3339_instant(text@),
{
    match chrono::DateTime::parse_from_rfc3339(text) {
        Ok(t) => Some(Instant { seconds: t.timestamp(), nanos: t.timestamp_subsec_nanos() }),
        Err(_) => None,
    }
}

/// The time at which `pipeline` was created, where it gives one that reads.
pub open spec fn created_at_of(pipeline: Pipeline) -> Option<Instant> {
    match pipeline.created_at {
        Some(text) => rfc3339_instant(text@),
        None => None,
    }
}

/// Whether `pipeline` stays in a listing cut down to `window` at `now`: it
/// gives a time of creation that reads, and that time lies within the window.
pub open spec fn retained(pipeline: Pipeline, window: Window, now: Instant) -> bool {
    match created_at_of(pipeline) {
        Some(created) => window.holds(created, now),
        None => false,
    }
}

/// The pipelines of `pipelines` that stay in a listing cut down to `window`
/// at `now`, in their order.
pub open spec fn kept(pipelines: Seq<Pipeline>, window: Window, now: Instant) -> Seq<Pipeline> {
    pipelines.filter(|pipeline: Pipeline| retained(pipeline, window, now))
}

/// The time at which `pipeline` was created, where it gives one that reads.
pub fn created_at(pipeline: &Pipeline) -> (at: Option<Instant>)
    ensures
        at == created_at_of(*pipeline),
{
    match &pipeline.created_at {
        Some(text) => read_rfc3339(text.as_str()),
        None => None,
    }
}

/// Cuts a listing down to the pipelines created within `window` of `now`.
///
/// A pipeline whose time of creation is missing or does not read is left
/// out. Those that stay keep their order.
pub fn filter_pipelines(pipelines: Vec<Pipeline>, window: Window, now: Instant) -> (out: Vec<
    Pipeline,
>)
    ensures
        out@ == kept(pipelines@, window, now),
{
    let ghost pred = |pipeline: Pipeline| retained(pipeline, window, now);
    let mut out: Vec<Pipeline> = Vec::new();
    let mut i: usize = 0;
    proof {
        reveal(Seq::filter);
        assert(pipelines@.take(0).filter(pred) =~= Seq::<Pipeline>::empty());
    }
    while i < pipelines.len()
        invariant
            i <= pipelines.len(),
            pred == |pipeline: Pipeline| retained(pipeline, window, now),
            out@ == pipelines@.take(i as int).filter(pred),
        decreases pipelines.len() - i,
    {
        let stays = match created_at(&pipelines[i]) {
            Some(created) => window.contains(created, now),
            None => false,
        };
        proof {
            reveal(Seq::filter);
            let next = pipelines@.take(i + 1);
            assert(next.drop_last() =~= pipelines@.take(i as int));
            assert(next.last() == pipelines@[i as int]);
            assert(stays == pred(pipelines@[i as int]));
        }
        if stays {
            out.push(pipelines[i].duplicate());
        }
        i += 1;
    }
    assert(pipelines@.take(i as int) =~= pipelines@);
    out
}

/// A pipeline created exactly one window before `now` stays in the listing:
/// the boundary belongs to the window.
pub proof fn lemma_boundary_stays(pipelines: Seq<Pipeline>, window: Window, now: Instant, i: int)
    requires
        0 <= i < pipelines.len(),
        created_at_of(pipelines[i]) is Some,
        elapsed(created_at_of(pipelines[i])->0, now) == window.span(),
    ensures
        kept(pipelines, window, now).contains(pipelines[i]),
{
    let pred = |pipeline: Pipeline| retained(pipeline, window, now);
    assert(pred(pipelines[i]));
    pipelines.lemma_filter_contains(pred, i);
}

/// A pipeline whose time of creation is missing or does not read is in no
/// listing that was cut down, whatever the window.
pub proof fn lemma_unreadable_leaves(
    pipelines: Seq<Pipeline>,
    window: Window,
    now: Instant,
    pipeline: Pipeline,
)
    requires
        created_at_of(pipeline) is None,
    ensures
        !kept(pipelines, window, now).contains(pipeline),
{
    let pred = |pipeline: Pipeline| retained(pipeline, window, now);
    let out = pipelines.filter(pred);
    if out.contains(pipeline) {
        let k = choose|k: int| 0 <= k < out.len() && out[k] == pipeline;
        pipelines.lemma_filter_pred(pred, k);
        assert(pred(out[k]));
    }
}

/// Cutting a listing down keeps the order of what stays: of two pipelines
/// that stay, the one that comes first afterwards came first before.
pub proof fn lemma_order_stays(
    pipelines: Seq<Pipeline>,
    window: Window,
    now: Instant,
    a: int,
    b: int,
)
    requires
        0 <= a < b < kept(pipelines, window, now).len(),
    ensures
        exists|i: int, j: int|
            0 <= i < j < pipelines.len() && pipelines[i] == kept(pipelines, window, now)[a]
                && pipelines[j] == kept(pipelines, window, now)[b],
    decreases pipelines.len(),
{
    let pred = |pipeline: Pipeline| retained(pipeline, window, now);
    let out = pipelines.filter(pred);
    reveal(Seq::filter);
    if pipelines.len() > 0 {
        let rest = pipelines.drop_last();
        let before = rest.filter(pred);
        assert(before == kept(rest, window, now));
        if b < before.len() {
            lemma_order_stays(rest, window, now, a, b);
            let (i, j) = choose|i: int, j: int|
                0 <= i < j < rest.len() && rest[i] == before[a] && rest[j] == before[b];
            assert(pipelines[i] == out[a] && pipelines[j] == out[b]);
        } else {
            assert(pred(pipelines.last()));
            assert(out == before.push(pipelines.last()));
            assert(before.contains(before[a]));
            rest.lemma_filter_contains_rev(pred, before[a]);
            let i = choose|i: int| 0 <= i < rest.len() && rest[i] == before[a];
            let j = pipelines.len() - 1;
            assert(pipelines[i] == out[a] && pipelines[j] == out[b]);
        }
    }
}

} // verus!
