//! The pace of the machine: how many cycles it made in a second, measured
//! from one frame of the host to the next.

use vstd::prelude::*;

verus! {

/// The number of frames that the host draws in a second.
pub const TARGET_FPS: u64 = 60;

/// What the host keeps from frame to frame. Times are milliseconds since the
/// epoch.
#[derive(Clone, Copy, Debug, PartialEq, Eq, Structural)]
pub struct TimeMeasurements {
    pub next_render_time: u64,
    pub last_cycle_count: u64,
    pub last_render_time: u64,
    /// The sum of the frequencies that were measured since the average was
    /// taken last.
    pub clock_frequency_accumulator: u64,
    /// When the average is taken next.
    pub next_clock_frequency_render: u64,
    pub num_clock_frequency_accumulations: u64,
    /// The average of the frequencies, in cycles a second.
    pub clock_frequency_average: u64,
}

/// The milliseconds in `seconds` seconds and `subsec_nanos` nanoseconds.
pub fn ms_since_epoch(seconds: u64, subsec_nanos: u32) -> (ms: u64)
    requires
        seconds * 1000 + subsec_nanos / 1_000_000 <= u64::MAX,
    ensures
        ms == seconds * 1000 + subsec_nanos / 1_000_000,
{
    seconds * 1000 + (subsec_nanos / 1_000_000) as u64
}

impl TimeMeasurements {
    /// The measurements at the start, at the time `now`: a frame is due at
    /// once, and the first average a second later.
    pub fn new(now: u64) -> (measurements: Self)
        requires
            now + 1000 <= u64::MAX,
        ensures
            measurements == (TimeMeasurements {
                next_render_time: now,
                last_cycle_count: 0,
                last_render_time: 0,
                clock_frequency_accumulator: 0,
                next_clock_frequency_render: (now + 1000) as u64,
                num_clock_frequency_accumulations: 0,
                clock_frequency_average: 0,
            }),
    {
        TimeMeasurements {
            next_render_time: now,
            last_cycle_count: 0,
            last_render_time: 0,
            clock_frequency_accumulator: 0,
            next_clock_frequency_render: now + 1000,
            num_clock_frequency_accumulations: 0,
            clock_frequency_average: 0,
        }
    }

    /// The frequency of the clock between the last frame and now, in cycles
    /// a second.
    pub open spec fn frequency(self, current_time: u64, current_cycle_count: u64) -> int {
        1000 * (current_cycle_count - self.last_cycle_count) / (current_time
            - self.last_render_time)
    }

    /// Whether a measurement can be taken at `current_time` with
    /// `current_cycle_count` cycles counted: time has passed since the last
    /// frame, the cycles have not become fewer, and every number that is
    /// worked out can be held.
    pub open spec fn measurable(self, current_time: u64, current_cycle_count: u64) -> bool {
        &&& current_time > self.last_render_time
        &&& current_cycle_count >= self.last_cycle_count
        &&& 1000 * (current_cycle_count - self.last_cycle_count) <= u64::MAX
        &&& self.clock_frequency_accumulator + self.frequency(current_time, current_cycle_count)
            <= u64::MAX
        &&& self.num_clock_frequency_accumulations < u64::MAX
        &&& current_time + 1000 <= u64::MAX
    }

    /// Tells whether a measurement can be taken.
    pub fn can_measure(&self, current_time: u64, current_cycle_count: u64) -> (measurable: bool)
        ensures
            measurable == self.measurable(current_time, current_cycle_count),
    {
        if current_time <= self.last_render_time || current_cycle_count < self.last_cycle_count {
            return false;
        }
        let cycles: u64 = current_cycle_count - self.last_cycle_count;
        if cycles > u64::MAX / 1000 {
            return false;
        }
        let frequency: u64 = 1000 * cycles / (current_time - self.last_render_time);
        frequency <= u64::MAX - self.clock_frequency_accumulator
            && self.num_clock_frequency_accumulations < u64::MAX && current_time <= u64::MAX
            - 1000
    }
}

/// Takes a measurement of the clock's frequency: the frequency since the
/// last frame joins the sum, and once the time for the next average has
/// come, the average of the sum is taken and the sum starts anew.
pub fn calculate_clock_frequency(
    current_time: u64,
    time_measurements: &mut TimeMeasurements,
    current_cycle_count: u64,
)
    requires
        old(time_measurements).measurable(current_time, current_cycle_count),
    ensures
        ({
            let before = *old(time_measurements);
            let sum = before.clock_frequency_accumulator + before.frequency(
                current_time,
                current_cycle_count,
            );
            let count = before.num_clock_frequency_accumulations + 1;
            *final(time_measurements) == if current_time >= before.next_clock_frequency_render {
                TimeMeasurements {
                    clock_frequency_average: (sum / count) as u64,
                    next_clock_frequency_render: (current_time + 1000) as u64,
                    clock_frequency_accumulator: 0,
                    num_clock_frequency_accumulations: 0,
                    ..before
                }
            } else {
                TimeMeasurements {
                    clock_frequency_accumulator: sum as u64,
                    num_clock_frequency_accumulations: count as u64,
                    ..before
                }
            }
        }),
{
    let time_since_last_render: u64 = current_time - time_measurements.last_render_time;
    let cycles_since_last_render: u64 = current_cycle_count - time_measurements.last_cycle_count;
    let clock_frequency: u64 = 1000 * cycles_since_last_render / time_since_last_render;
    time_measurements.clock_frequency_accumulator += clock_frequency;
    time_measurements.num_clock_frequency_accumulations += 1;
    if current_time >= time_measurements.next_clock_frequency_render {
        time_measurements.clock_frequency_average = time_measurements.clock_frequency_accumulator
            / time_measurements.num_clock_frequency_accumulations;
        time_measurements.next_clock_frequency_render = current_time + 1000;
        time_measurements.clock_frequency_accumulator = 0;
        time_measurements.num_clock_frequency_accumulations = 0;
    }
}

/// The character for the decimal digit `digit`.
pub open spec fn digit_character(digit: nat) -> char
    recommends
        digit < 10,
{
    if digit == 0 {
        '0'
    } else if digit == 1 {
        '1'
    } else if digit == 2 {
        '2'
    } else if digit == 3 {
        '3'
    } else if digit == 4 {
        '4'
    } else if digit == 5 {
        '5'
    } else if digit == 6 {
        '6'
    } else if digit == 7 {
        '7'
    } else if digit == 8 {
        '8'
    } else {
        '9'
    }
}

/// The decimal digits of `value`, without a zero in front.
pub open spec fn digits(value: nat) -> Seq<char>
    decreases value,
{
    if value < 10 {
        seq![digit_character(value)]
    } else {
        digits(value / 10).push(digit_character(value % 10))
    }
}

/// The three decimal digits of `value`, which is below a thousand, with
/// zeros in front where it is below a hundred.
pub open spec fn three_digits(value: nat) -> Seq<char>
    recommends
        value < 1000,
{
    seq![
        digit_character(value / 100),
        digit_character(value / 10 % 10),
        digit_character(value % 10),
    ]
}

/// The decimal digits of `value` in groups of three, counted from the right,
/// with `separator` between the groups.
pub open spec fn grouped(value: nat, separator: Seq<char>) -> Seq<char>
    decreases value,
{
    if value < 1000 {
        digits(value)
    } else {
        grouped(value / 1000, separator) + separator + three_digits(value % 1000)
    }
}

/// Grouping at work: a number below a thousand is its digits, and one of
/// seven digits falls into a group of one and two groups of three.
pub proof fn grouping_by_example(separator: Seq<char>)
    ensures
        grouped(0, separator) == seq!['0'],
        grouped(999, separator) == seq!['9', '9', '9'],
        grouped(1_234_567, separator) == seq!['1'] + separator + seq!['2', '3', '4'] + separator
            + seq!['5', '6', '7'],
        grouped(25_000, separator) == seq!['2', '5'] + separator + seq!['0', '0', '0'],
{
    reveal_with_fuel(grouped, 4);
    reveal_with_fuel(digits, 4);
    assert(grouped(0, separator) =~= seq!['0']);
    assert(grouped(999, separator) =~= seq!['9', '9', '9']);
    assert(grouped(1, separator) =~= seq!['1']);
    assert(grouped(25, separator) =~= seq!['2', '5']);
    assert(three_digits(234) =~= seq!['2', '3', '4']);
    assert(three_digits(567) =~= seq!['5', '6', '7']);
    assert(three_digits(0) =~= seq!['0', '0', '0']);
    assert(grouped(1_234, separator) == seq!['1'] + separator + seq!['2', '3', '4']);
}

/// Calls `num_format`: `CustomFormat::builder`, `separator` and `build` for
/// the format, and `to_formatted_string` for the number. The format is the
/// one that `num_format` starts from, with the separator replaced: it writes
/// the digits in groups of three with the separator between the groups.
/// Hands back nothing where `num_format` does not take the separator, which
/// it does not where the separator has more than eight bytes; a separator of
/// up to eight characters that each take one byte is taken.
#[verifier::external_body]
pub(crate) fn group_digits(value: u64, separator: &str) -> (text: Option<String>)
    ensures
        text matches Some(written) ==> written@ == grouped(value as nat, separator@),
        vstd::string::is_ascii(separator) && separator@.len() <= 8 ==> text is Some,
{
    let format = num_format::CustomFormat::builder().separator(separator).build().ok()?;
    Some(num_format::ToFormattedString::to_formatted_string(&value, &format))
}

/// The label for a frequency that is written as `number`: the number and the
/// unit.
pub fn label_of(number: &str) -> (label: String)
    ensures
        label@ == number@ + " kHz"@,
{
    let mut label: String = String::new();
    label.push_str(number);
    label.push_str(" kHz");
    assert(label@ =~= number@ + " kHz"@);
    label
}

/// The label for the average frequency `clock_frequency_average`, in cycles
/// a second: the thousands of cycles a second, their digits in groups of
/// three with a space between the groups, and the unit.
pub fn clock_frequency_label(clock_frequency_average: u64) -> (label: Option<String>)
    ensures
        label matches Some(label) && label@ == grouped(
            (clock_frequency_average / 1000) as nat,
            " "@,
        ) + " kHz"@,
{
    proof {
        reveal_strlit(" ");
    }
    match group_digits(clock_frequency_average / 1000, " ") {
        Some(number) => Some(label_of(number.as_str())),
        None => None,
    }
}

} // verus!
