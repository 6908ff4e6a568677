use vstd::prelude::*;

verus! {

/// The closed set of supported exercise lengths.
///
/// A duration is selected before a session starts and stays fixed for the
/// session's lifetime.
#[derive(Clone, Copy, Debug, PartialEq, Eq, Structural, Hash)]
pub enum TypingDuration {
    ThirtySec,
    Minute,
    ThreeMinutes,
}

impl Default for TypingDuration {
    /// The default exercise length is one minute.
    fn default() -> (r: Self)
        ensures
            r == TypingDuration::Minute,
    {
        Self::Minute
    }
}

impl TypingDuration {
    /// The length of this duration in seconds.
    pub open spec fn seconds(self) -> u32 {
        match self {
            TypingDuration::ThirtySec => 30u32,
            TypingDuration::Minute => 60u32,
            TypingDuration::ThreeMinutes => 180u32,
        }
    }

    /// The short display label for this duration.
    pub fn to_string(&self) -> (r: String)
        ensures
            *self == TypingDuration::ThirtySec ==> r@ == "30s"@,
            *self == TypingDuration::Minute ==> r@ == "60s"@,
            *self == TypingDuration::ThreeMinutes ==> r@ == "180s"@,
    {
        let time = match self {
            TypingDuration::Minute => "60s",
            TypingDuration::ThirtySec => "30s",
            TypingDuration::ThreeMinutes => "180s",
        };
        time.to_string()
    }

    pub fn as_seconds(&self) -> (r: u32)
        ensures
            r == self.seconds(),
            r > 0,
    {
        match self {
            TypingDuration::ThirtySec => 30,
            TypingDuration::Minute => 60,
            TypingDuration::ThreeMinutes => 180,
        }
    }
}

/// The one failure of the metrics engine: the counters handed in are
/// malformed (`elapsed_seconds == 0` or `mistakes > chars_typed`), so no
/// statistic may be computed from them.
#[derive(Clone, Copy, Debug, PartialEq, Eq, Structural)]
pub enum StatError {
    InvalidInput,
}

/// The share of typed characters that were correct, kept as an exact
/// fraction `numerator / denominator` (so the percentage is
/// `100 * numerator / denominator`, never rounded).
///
/// A well-formed value has `denominator > 0` and
/// `numerator <= denominator`, so the percentage lies in `[0, 100]`.
#[derive(Clone, Copy, Debug, PartialEq, Eq, Structural)]
pub struct Accuracy {
    pub numerator: usize,
    pub denominator: usize,
}

impl Accuracy {
    /// The fraction is a meaningful share: positive denominator, and no
    /// more correct characters than typed ones.
    pub open spec fn wf(self) -> bool {
        0 < self.denominator && self.numerator <= self.denominator
    }

    /// The fraction equals exactly one, that is, one hundred percent.
    pub open spec fn is_full(self) -> bool {
        self.numerator == self.denominator
    }

    pub fn get_numerator(&self) -> (r: usize)
        ensures
            r == self.numerator,
    {
        self.numerator
    }

    pub fn get_denominator(&self) -> (r: usize)
        ensures
            r == self.denominator,
    {
        self.denominator
    }
}

/// Words-per-minute from `chars` characters in `secs` seconds, with a
/// 5-character word and the result rounded half-up to the nearest integer:
/// the exact rate is `(chars / 5) / (secs / 60) == 12 * chars / secs`, and
/// `floor((2 * a + b) / (2 * b))` is `a / b` rounded half-up for
/// `a >= 0 < b`.
pub open spec fn wpm(chars: int, secs: int) -> int
    recommends
        0 <= chars,
        0 < secs,
{
    (24 * chars + secs) / (2 * secs)
}

/// Numerator of the accuracy fraction: the net-correct characters, or 1
/// (out of 1) when nothing was typed, which counts as trivially accurate.
pub open spec fn accuracy_numerator(chars: int, mistakes: int) -> int {
    if chars == 0 {
        1
    } else {
        chars - mistakes
    }
}

/// Denominator of the accuracy fraction: the characters typed, or 1 when
/// nothing was typed.
pub open spec fn accuracy_denominator(chars: int) -> int {
    if chars == 0 {
        1
    } else {
        chars
    }
}

/// The record of one completed session: created once by [`Stat::new`] from
/// the session counters and never changed afterwards.
#[derive(Clone, Copy, Debug, PartialEq, Eq, Structural)]
pub struct Stat {
    pub duration: TypingDuration,
    pub average_wpm: usize,
    pub raw_wpm: usize,
    pub accuracy: Accuracy,
}

/// What [`Stat::new`] returns, as a function of its inputs alone: an
/// `InvalidInput` error exactly when the counters are malformed, and
/// otherwise the fully determined record.
pub open spec fn compute_spec(
    duration: TypingDuration,
    chars: int,
    mistakes: int,
    secs: int,
) -> Result<Stat, StatError> {
    if secs <= 0 || mistakes > chars {
        Err(StatError::InvalidInput)
    } else {
        Ok(
            Stat {
                duration,
                average_wpm: wpm(chars - mistakes, secs) as usize,
                raw_wpm: wpm(chars, secs) as usize,
                accuracy: Accuracy {
                    numerator: accuracy_numerator(chars, mistakes) as usize,
                    denominator: accuracy_denominator(chars) as usize,
                },
            },
        )
    }
}

impl Stat {
    /// The metrics engine. Turns the raw session counters into a `Stat`,
    /// or fails with `InvalidInput` when no time elapsed or more mistakes
    /// than characters were reported. Pure: the result is a function of
    /// the arguments alone.
    pub fn new(
        duration: TypingDuration,
        chars_counter: usize,
        mistakes_counter: usize,
        time_limit: usize,
    ) -> (r: Result<Stat, StatError>)
        requires
            24 * chars_counter + time_limit <= usize::MAX,
            2 * time_limit <= usize::MAX,
        ensures
            r == compute_spec(
                duration,
                chars_counter as int,
                mistakes_counter as int,
                time_limit as int,
            ),
    {
        if time_limit == 0 || mistakes_counter > chars_counter {
            return Err(StatError::InvalidInput);
        }
        let net_chars: usize = chars_counter - mistakes_counter;
        let raw_wpm: usize = (24 * chars_counter + time_limit) / (2 * time_limit);
        let average_wpm: usize = (24 * net_chars + time_limit) / (2 * time_limit);
        let accuracy = if chars_counter == 0 {
            Accuracy { numerator: 1, denominator: 1 }
        } else {
            Accuracy { numerator: net_chars, denominator: chars_counter }
        };
        Ok(Stat { duration, average_wpm, raw_wpm, accuracy })
    }

    /// Returns the duration
    pub fn get_duration(&self) -> (r: &TypingDuration)
        ensures
            *r == self.duration,
    {
        &self.duration
    }

    /// Returns the average wpm
    pub fn get_average_wpm(&self) -> (r: usize)
        ensures
            r == self.average_wpm,
    {
        self.average_wpm
    }

    /// Returns the raw WPM
    pub fn get_raw_wpm(&self) -> (r: usize)
        ensures
            r == self.raw_wpm,
    {
        self.raw_wpm
    }

    /// Returns the accuracy
    pub fn get_accuracy(&self) -> (r: Accuracy)
        ensures
            r == self.accuracy,
    {
        self.accuracy
    }
}

/// For all valid counters (`mistakes <= chars`, `secs > 0`) the metrics
/// succeed, the two rates satisfy `0 <= average_wpm <= raw_wpm`, and the
/// accuracy fraction is well formed, so the percentage lies in `[0, 100]`.
pub proof fn lemma_stat_bounds(duration: TypingDuration, chars: usize, mistakes: usize, secs: usize)
    requires
        mistakes <= chars,
        0 < secs,
        24 * chars + secs <= usize::MAX,
    ensures
        compute_spec(duration, chars as int, mistakes as int, secs as int) is Ok,
        ({
            let stat = compute_spec(duration, chars as int, mistakes as int, secs as int)->Ok_0;
            &&& 0 <= stat.average_wpm <= stat.raw_wpm
            &&& stat.accuracy.wf()
        }),
{
    let net: int = 24 * (chars - mistakes) + secs;
    let total: int = 24 * chars + secs;
    let divisor: int = 2 * secs;
    vstd::arithmetic::div_mod::lemma_div_pos_is_pos(net, divisor);
    vstd::arithmetic::div_mod::lemma_div_is_ordered(net, total, divisor);
    vstd::arithmetic::div_mod::lemma_div_nonincreasing(total, divisor);
    vstd::arithmetic::div_mod::lemma_div_nonincreasing(net, divisor);
}

/// Whenever no mistake was made, the accuracy is exactly one hundred
/// percent, for any number of characters typed.
pub proof fn lemma_accuracy_perfect(duration: TypingDuration, chars: int, secs: int)
    requires
        0 <= chars,
        0 < secs,
    ensures
        compute_spec(duration, chars, 0, secs) is Ok,
        compute_spec(duration, chars, 0, secs)->Ok_0.accuracy.is_full(),
{
}

/// When nothing was typed the accuracy is one hundred percent: the vacuous
/// session counts as trivially accurate.
pub proof fn lemma_accuracy_vacuous(duration: TypingDuration, mistakes: int, secs: int)
    requires
        0 <= mistakes <= 0,
        0 < secs,
    ensures
        compute_spec(duration, 0, mistakes, secs) is Ok,
        compute_spec(duration, 0, mistakes, secs)->Ok_0.accuracy.is_full(),
{
}

/// The metrics engine is deterministic: two results obtained from
/// identical inputs are identical records, bit for bit. [`Stat::new`]
/// guarantees its result equals [`compute_spec`] of the inputs, so this
/// covers any two calls with the same arguments.
pub proof fn lemma_compute_deterministic(
    r1: Result<Stat, StatError>,
    r2: Result<Stat, StatError>,
    duration: TypingDuration,
    chars: int,
    mistakes: int,
    secs: int,
)
    requires
        r1 == compute_spec(duration, chars, mistakes, secs),
        r2 == compute_spec(duration, chars, mistakes, secs),
    ensures
        r1 == r2,
{
}

} // verus!
