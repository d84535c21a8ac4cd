use vstd::prelude::*;

verus! {

/// A point in time or a length of time, in nanoseconds.
///
/// Points in time count from an origin that the caller chooses once and keeps;
/// only differences between them matter.
pub type Nanos = u64;

pub const NANOS_IN_MICROSECOND: u64 = 1_000;

pub const NANOS_IN_MILLISECOND: u64 = 1_000_000;

pub const NANOS_IN_SECOND: u64 = 1_000_000_000;

/// The time that has passed at `now` since `since`; zero where `since` is
/// not in the past.
pub open spec fn elapsed(since: Nanos, now: Nanos) -> Nanos {
    if now >= since {
        (now - since) as u64
    } else {
        0
    }
}

/// Measures the time between a start and a stop, and can be read later.
#[derive(Debug, Clone, Copy, PartialEq, Eq, Structural)]
pub enum Stopwatch {
    Running { start_time: Nanos },
    Paused { paused_since: Nanos, runtime: Nanos },
}

impl Stopwatch {
    /// What the stopwatch shows at `now`.
    pub open spec fn reading(&self, now: Nanos) -> Nanos {
        match *self {
            Stopwatch::Running { start_time } => elapsed(start_time, now),
            Stopwatch::Paused { runtime, .. } => runtime,
        }
    }

    /// A stopwatch that is paused at zero.
    pub fn new(now: Nanos) -> (stopwatch: Self)
        ensures
            stopwatch == (Stopwatch::Paused { paused_since: now, runtime: 0 }),
    {
        Stopwatch::Paused { paused_since: now, runtime: 0 }
    }

    /// A stopwatch that starts running at `now`.
    pub fn start_new(now: Nanos) -> (stopwatch: Self)
        ensures
            stopwatch == (Stopwatch::Running { start_time: now }),
    {
        Stopwatch::Running { start_time: now }
    }

    pub fn is_running(&self) -> (running: bool)
        ensures
            running == (*self is Running),
    {
        match self {
            Stopwatch::Running { .. } => true,
            Stopwatch::Paused { .. } => false,
        }
    }

    /// Restarts the measurement from zero at `now`.
    pub fn start(&mut self, now: Nanos)
        ensures
            *final(self) == (Stopwatch::Running { start_time: now }),
    {
        *self = Stopwatch::start_new(now);
    }

    /// Freezes a running stopwatch at what it shows at `now`; a paused one
    /// stays as it is.
    pub fn stop(&mut self, now: Nanos)
        ensures
            *final(self) == match *old(self) {
                Stopwatch::Running { start_time } => Stopwatch::Paused {
                    paused_since: now,
                    runtime: elapsed(start_time, now),
                },
                Stopwatch::Paused { paused_since, runtime } => Stopwatch::Paused {
                    paused_since,
                    runtime,
                },
            },
            final(self).reading(now) == old(self).reading(now),
    {
        if let Stopwatch::Running { start_time } = *self {
            *self = Stopwatch::Paused {
                paused_since: now,
                runtime: now.saturating_sub(start_time),
            };
        }
    }

    /// What the stopwatch shows at `now`.
    pub fn read(&self, now: Nanos) -> (runtime: Nanos)
        ensures
            runtime == self.reading(now),
    {
        match *self {
            Stopwatch::Running { start_time } => now.saturating_sub(start_time),
            Stopwatch::Paused { runtime, .. } => runtime,
        }
    }
}

/// A stopped stopwatch shows the same time whenever it is read.
pub proof fn lemma_paused_reading_is_fixed(stopwatch: Stopwatch, first: Nanos, second: Nanos)
    requires
        stopwatch is Paused,
    ensures
        stopwatch.reading(first) == stopwatch.reading(second),
{
}

/// A running stopwatch never shows more than the time between its start and
/// the moment it is read, and never runs backwards.
pub proof fn lemma_running_reading_is_bounded(start_time: Nanos, first: Nanos, second: Nanos)
    requires
        first <= second,
    ensures
        (Stopwatch::Running { start_time }).reading(first) <= (Stopwatch::Running {
            start_time,
        }).reading(second),
        (Stopwatch::Running { start_time }).reading(second) <= second,
        start_time <= second ==> (Stopwatch::Running { start_time }).reading(second) == second
            - start_time,
{
}

/// The character of a decimal digit.
pub open spec fn digit_char(digit: nat) -> char
    recommends
        digit < 10,
{
    if digit == 0 {
        '0'
    } else if digit == 1 {
        '1'
    } else if digit == 2 {
        '2'
    } else if digit == 3 {
        '3'
    } else if digit == 4 {
        '4'
    } else if digit == 5 {
        '5'
    } else if digit == 6 {
        '6'
    } else if digit == 7 {
        '7'
    } else if digit == 8 {
        '8'
    } else {
        '9'
    }
}

/// The decimal numeral of a number, without leading zeros.
pub open spec fn decimal(n: nat) -> Seq<char>
    decreases n,
{
    if n < 10 {
        seq![digit_char(n)]
    } else {
        decimal(n / 10).push(digit_char(n % 10))
    }
}

/// The number of units that a duration is split into.
pub const UNIT_COUNT: usize = 9;

/// The length of a unit in nanoseconds, from the year down to the nanosecond.
/// A year has 365 days.
pub open spec fn unit_size(i: int) -> nat {
    if i == 0 {
        31_536_000_000_000_000
    } else if i == 1 {
        604_800_000_000_000
    } else if i == 2 {
        86_400_000_000_000
    } else if i == 3 {
        3_600_000_000_000
    } else if i == 4 {
        60_000_000_000
    } else if i == 5 {
        1_000_000_000
    } else if i == 6 {
        1_000_000
    } else if i == 7 {
        1_000
    } else {
        1
    }
}

/// The suffix of a unit.
pub open spec fn unit_name(i: int) -> Seq<char> {
    if i == 0 {
        seq!['y']
    } else if i == 1 {
        seq!['w']
    } else if i == 2 {
        seq!['d']
    } else if i == 3 {
        seq!['h']
    } else if i == 4 {
        seq!['m']
    } else if i == 5 {
        seq!['s']
    } else if i == 6 {
        seq!['m', 's']
    } else if i == 7 {
        seq!['\u{b5}', 's']
    } else {
        seq!['n', 's']
    }
}

/// Whether unit `i` is shown for what remains of a duration: the unit fits
/// at least once, and the budget of units is not used up. A negative budget is
/// never used up.
pub open spec fn shows(remaining: nat, budget: int, i: int) -> bool {
    budget != 0 && remaining >= unit_size(i)
}

/// The text of a duration from unit `i` on: every shown unit as its count and
/// its suffix, the units separated by one space.
pub open spec fn rendered(remaining: nat, budget: int, i: int, first: bool) -> Seq<char>
    decreases 9 - i,
{
    if i < 0 || i >= 9 {
        Seq::empty()
    } else if shows(remaining, budget, i) {
        (if first {
            Seq::<char>::empty()
        } else {
            seq![' ']
        }) + decimal(remaining / unit_size(i)) + unit_name(i) + rendered(
            remaining % unit_size(i),
            budget - 1,
            i + 1,
            false,
        )
    } else {
        rendered(remaining, budget, i + 1, first)
    }
}

/// The text of a duration of `nanos` nanoseconds that shows at most `prec`
/// units, or all of them where `prec` is negative. Units that do not occur
/// are left out; the empty duration is `0ns`.
pub open spec fn formatted(nanos: u128, prec: i8) -> Seq<char> {
    if nanos == 0 {
        seq!['0', 'n', 's']
    } else {
        rendered(nanos as nat, prec as int, 0, true)
    }
}

fn unit_length(i: usize) -> (size: u128)
    requires
        i < UNIT_COUNT,
    ensures
        size == unit_size(i as int),
{
    if i == 0 {
        31_536_000_000_000_000
    } else if i == 1 {
        604_800_000_000_000
    } else if i == 2 {
        86_400_000_000_000
    } else if i == 3 {
        3_600_000_000_000
    } else if i == 4 {
        60_000_000_000
    } else if i == 5 {
        1_000_000_000
    } else if i == 6 {
        1_000_000
    } else if i == 7 {
        1_000
    } else {
        1
    }
}

fn push_unit_name(text: &mut String, i: usize)
    requires
        i < UNIT_COUNT,
    ensures
        final(text)@ == old(text)@ + unit_name(i as int),
{
    proof {
        reveal_strlit("y");
        reveal_strlit("w");
        reveal_strlit("d");
        reveal_strlit("h");
        reveal_strlit("m");
        reveal_strlit("s");
        reveal_strlit("ms");
        reveal_strlit("\u{b5}s");
        reveal_strlit("ns");
    }
    if i == 0 {
        text.append("y");
    } else if i == 1 {
        text.append("w");
    } else if i == 2 {
        text.append("d");
    } else if i == 3 {
        text.append("h");
    } else if i == 4 {
        text.append("m");
    } else if i == 5 {
        text.append("s");
    } else if i == 6 {
        text.append("ms");
    } else if i == 7 {
        text.append("\u{b5}s");
    } else {
        text.append("ns");
    }
    assert(text@ =~= old(text)@ + unit_name(i as int));
}

fn push_digit(text: &mut String, digit: u8)
    requires
        digit < 10,
    ensures
        final(text)@ == old(text)@.push(digit_char(digit as nat)),
{
    proof {
        reveal_strlit("0");
        reveal_strlit("1");
        reveal_strlit("2");
        reveal_strlit("3");
        reveal_strlit("4");
        reveal_strlit("5");
        reveal_strlit("6");
        reveal_strlit("7");
        reveal_strlit("8");
        reveal_strlit("9");
    }
    if digit == 0 {
        text.append("0");
    } else if digit == 1 {
        text.append("1");
    } else if digit == 2 {
        text.append("2");
    } else if digit == 3 {
        text.append("3");
    } else if digit == 4 {
        text.append("4");
    } else if digit == 5 {
        text.append("5");
    } else if digit == 6 {
        text.append("6");
    } else if digit == 7 {
        text.append("7");
    } else if digit == 8 {
        text.append("8");
    } else {
        text.append("9");
    }
    assert(text@ =~= old(text)@.push(digit_char(digit as nat)));
}

/// Appends the decimal numeral of `n`.
fn push_decimal(text: &mut String, n: u128)
    ensures
        final(text)@ == old(text)@ + decimal(n as nat),
    decreases n,
{
    if n < 10 {
        push_digit(text, n as u8);
        assert(text@ =~= old(text)@ + decimal(n as nat));
    } else {
        push_decimal(text, n / 10);
        push_digit(text, (n % 10) as u8);
        assert(text@ =~= old(text)@ + decimal(n as nat));
    }
}

/// Formats a duration of `nanos` nanoseconds for a reader, from years down
/// to nanoseconds.
///
/// A positive `prec` limits the text to that many units, counted from the
/// largest one that occurs; a negative one shows every unit that occurs.
pub fn format(nanos: u128, prec: i8) -> (text: String)
    ensures
        text@ == formatted(nanos, prec),
{
    let mut text = String::new();
    if nanos == 0 {
        proof {
            reveal_strlit("0ns");
        }
        text.append("0ns");
        assert(text@ =~= seq!['0', 'n', 's']);
        return text;
    }
    let mut remaining: u128 = nanos;
    let mut budget: i16 = prec as i16;
    let mut first = true;
    let mut i: usize = 0;
    while i < UNIT_COUNT
        invariant
            i <= UNIT_COUNT,
            -128 - i <= budget <= 127,
            text@ + rendered(remaining as nat, budget as int, i as int, first) == formatted(
                nanos,
                prec,
            ),
        decreases UNIT_COUNT - i,
    {
        let size = unit_length(i);
        let ghost before = text@;
        let ghost tail = rendered(remaining as nat, budget as int, i as int, first);
        if budget != 0 && remaining >= size {
            if !first {
                proof {
                    reveal_strlit(" ");
                }
                text.append(" ");
            }
            push_decimal(&mut text, remaining / size);
            push_unit_name(&mut text, i);
            remaining = remaining % size;
            budget = budget - 1;
            first = false;
            assert(text@ + rendered(remaining as nat, budget as int, i + 1, first) =~= before
                + tail);
        }
        i += 1;
    }
    assert(text@ + Seq::<char>::empty() =~= text@);
    text
}

} // verus!
