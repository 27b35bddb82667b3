//! Timestamp readings for a stream of lines. A `Timer` is asked once per
//! line for an optional `Stamp`; the wall-clock strategy (`ChronoTimer`)
//! always answers, the extraction strategy (`RegexTimer`) parses a timestamp
//! out of the line text and may decline.

use crate::stamp::{opt_time_le, Delay, Stamp, TimePoint};
use vstd::arithmetic::div_mod::{lemma_fundamental_div_mod, lemma_fundamental_div_mod_converse};
use vstd::prelude::*;

verus! {

#[verifier::external_type_specification]
#[verifier::external_body]
pub struct ExRegex(regex::Regex);

#[verifier::external_type_specification]
#[verifier::external_body]
pub struct ExInstant(std::time::Instant);

#[verifier::external_type_specification]
#[verifier::external_body]
pub struct ExSystemTime(std::time::SystemTime);

/// Whether `regex::Regex::new` accepts a pattern: compilation consults the
/// pattern text alone.
pub uninterp spec fn pattern_compiles(pattern: Seq<char>) -> bool;

/// Whether a pattern contains a capture group named `time`, as
/// `regex::Regex::capture_names` reports it: a function of the pattern text
/// alone.
pub uninterp spec fn pattern_has_time_group(pattern: Seq<char>) -> bool;

/// The text of the capture group named `time` when the pattern matches the
/// line and that group takes part in the match, as `regex::Regex::captures`
/// and `regex::Captures::name` yield it for a pattern compiled by
/// `regex::Regex::new`: a function of the pattern text and the line alone.
pub uninterp spec fn captured_time(pattern: Seq<char>, line: Seq<char>) -> Option<Seq<char>>;

/// What `chrono::NaiveDateTime::parse_from_str` yields for a given text and
/// format, as seconds since the Unix epoch and nanoseconds since the last
/// whole second, or nothing when the text does not parse under the format.
pub uninterp spec fn parsed_time(text: Seq<char>, fmt: Seq<char>) -> Option<(i64, u32)>;

/// A pattern as `regex::Regex::new` compiled it, kept beside the text it was
/// compiled from. Values exist only through the two trusted constructors
/// below, so the stored text is always the source of the compiled pattern,
/// and what the pattern does can be spoken of over that text.
#[derive(Debug)]
pub struct TimePattern {
    regex: regex::Regex,
    text: String,
}

impl TimePattern {
    /// The pattern text the contained regex was compiled from.
    pub closed spec fn text(&self) -> Seq<char> {
        self.text@
    }
}

/// Relies on `regex::Regex::new`: the compiled pattern together with its
/// source text, or nothing exactly when the pattern is not valid regex
/// syntax.
#[verifier::external_body]
pub fn compile_pattern(pattern: &str) -> (r: Option<TimePattern>)
    ensures
        r is Some <==> pattern_compiles(pattern@),
        r matches Some(p) ==> p.text() == pattern@,
{
    regex::Regex::new(pattern).ok().map(
        |re| TimePattern { regex: re, text: pattern.to_owned() },
    )
}

/// Relies on `regex::Regex::new`: the built-in ISO-8601 millisecond pattern
/// is a fixed valid literal, so compiling it cannot fail.
#[verifier::external_body]
fn iso_pattern() -> (r: TimePattern)
    ensures
        r.text() == iso_pattern_text(),
{
    let text = "(?P<time>[0-9]{4}-[0-9]{2}-[0-9]{2}T[0-9]{2}:[0-9]{2}:[0-9]{2}\\.[0-9]{3})Z";
    TimePattern {
        regex: regex::Regex::new(text).expect("the built-in pattern is valid"),
        text: text.to_owned(),
    }
}

/// The built-in pattern for ISO-8601 timestamps with millisecond precision.
pub open spec fn iso_pattern_text() -> Seq<char> {
    "(?P<time>[0-9]{4}-[0-9]{2}-[0-9]{2}T[0-9]{2}:[0-9]{2}:[0-9]{2}\\.[0-9]{3})Z"@
}

/// The format the built-in ISO pattern's captures are parsed under.
pub open spec fn iso_format_text() -> Seq<char> {
    "%Y-%m-%dT%H:%M:%S%.3f"@
}

/// Relies on `regex::Regex::capture_names`: whether the pattern contains a
/// capture group named `time`.
#[verifier::external_body]
fn has_time_group(p: &TimePattern) -> (r: bool)
    ensures
        r == pattern_has_time_group(p.text()),
{
    p.regex.capture_names().any(|n| n == Some("time"))
}

/// Relies on `regex::Regex::captures` and `regex::Captures::name`: the text
/// of the capture group named `time`, if the pattern matches the line and
/// that group took part in the match. A capture is a substring of the line.
#[verifier::external_body]
fn capture_time(p: &TimePattern, line: &str) -> (r: Option<String>)
    ensures
        r is Some <==> captured_time(p.text(), line@) is Some,
        r matches Some(s) ==> Some(s@) == captured_time(p.text(), line@) && s@.len()
            <= line@.len(),
{
    p.regex.captures(line).and_then(|c| c.name("time")).map(|m| m.as_str().to_owned())
}

/// Relies on `chrono::NaiveDateTime::parse_from_str` (the parsed value is a
/// function of the text and the format alone, treated as UTC) and on the
/// documented ranges of `chrono`: the sub-second remainder stays below two
/// seconds, and representable dates span about 262,000 years around the
/// epoch, so their second counts stay well within the stated bounds.
#[verifier::external_body]
fn parse_time_text(text: &str, fmt: &str) -> (r: Option<(i64, u32)>)
    ensures
        r == parsed_time(text@, fmt@),
        r matches Some(p) ==> p.1 < 2_000_000_000 && -10_000_000_000_000 <= p.0
            <= 10_000_000_000_000,
{
    match chrono::NaiveDateTime::parse_from_str(text, fmt) {
        Ok(t) => Some((t.and_utc().timestamp(), t.and_utc().timestamp_subsec_nanos())),
        Err(_) => None,
    }
}

/// Relies on `std::time::Instant::now`: an opaque reading of the monotonic
/// clock.
#[verifier::external_body]
fn instant_now() -> (r: std::time::Instant)
{
    std::time::Instant::now()
}

/// Relies on `std::time::Instant::elapsed`: the time since `origin` on the
/// monotonic clock, whose sub-second part `std` documents to stay below one
/// second.
#[verifier::external_body]
fn elapsed_since(origin: &std::time::Instant) -> (r: Delay)
    ensures
        r.wf(),
{
    let d = origin.elapsed();
    Delay { secs: d.as_secs(), nanos: d.subsec_nanos() }
}

/// Relies on `std::time::SystemTime::now`: an opaque reading of the wall
/// clock.
#[verifier::external_body]
fn system_now() -> (r: std::time::SystemTime)
{
    std::time::SystemTime::now()
}

/// Relies on `std::time::SystemTime::duration_since`: the time since the
/// Unix epoch, or nothing when the clock stands before it; `std` documents
/// the sub-second part to stay below one second. No path panics.
#[verifier::external_body]
fn since_unix_epoch(t: &std::time::SystemTime) -> (r: Option<TimePoint>)
    ensures
        r matches Some(p) ==> p.nanos < 1_000_000_000,
{
    match t.duration_since(std::time::UNIX_EPOCH) {
        Ok(d) => Some(TimePoint { secs: d.as_secs() as i64, nanos: d.subsec_nanos() }),
        Err(_) => None,
    }
}

/// The wall-clock time for display, absent when the system clock stands
/// before the Unix epoch.
fn utc_now() -> (r: Option<TimePoint>)
    ensures
        r matches Some(t) ==> t.nanos < 2_000_000_000,
{
    let now = system_now();
    since_unix_epoch(&now)
}

/// The single capability the stream processor needs: given the next line,
/// produce an optional `Stamp`. A timer that declines a line leaves its own
/// state exactly as it was.
pub trait Timer: Sized {
    /// The strategy's internal consistency, established at construction and
    /// kept by every call.
    spec fn wf(&self) -> bool;

    /// The optional timestamp reading for this line.
    fn stamp(&mut self, line: &str) -> (r: Option<Stamp>)
        requires
            old(self).wf(),
        ensures
            final(self).wf(),
            r matches Some(st) ==> st.wf(),
            r is None ==> *final(self) == *old(self),
    ;
}

/// The well-formed delay whose length is `n` nanoseconds.
pub open spec fn delay_from_ns(n: int) -> Delay {
    Delay { secs: (n / 1_000_000_000) as u64, nanos: (n % 1_000_000_000) as u32 }
}

/// For a non-negative length that a `Delay` can hold, `delay_from_ns` is
/// well-formed, measures exactly that length, and is the only well-formed
/// delay that does.
pub proof fn lemma_delay_from_ns(n: int)
    requires
        0 <= n <= 0xffff_ffff_ffff_ffff * 1_000_000_000 + 999_999_999,
    ensures
        delay_from_ns(n).wf(),
        delay_from_ns(n).ns() == n,
        forall|d: Delay| d.wf() && d.ns() == n ==> d == delay_from_ns(n),
{
    lemma_fundamental_div_mod(n, 1_000_000_000);
    assert forall|d: Delay| d.wf() && d.ns() == n implies d == delay_from_ns(n) by {
        lemma_fundamental_div_mod_converse(n, 1_000_000_000, d.secs as int, d.nanos as int);
    }
}

/// What one wall-clock reading produces: `last` is the time since the
/// previous reading (clamped at zero), `total` the time since construction,
/// and the absolute time rides along for display where the clock offered
/// one.
pub open spec fn chrono_stamp(prev: Delay, now: Delay, utc: Option<TimePoint>) -> Stamp {
    Stamp {
        last: if now.ns() >= prev.ns() {
            delay_from_ns(now.ns() - prev.ns())
        } else {
            delay_from_ns(0)
        },
        total: now,
        utc: utc,
    }
}

/// The wall-clock strategy: measures the real time between successive calls
/// on the monotonic clock, so it never declines a line. The epoch is the
/// moment of construction, not of the first call.
pub struct ChronoTimer {
    origin: std::time::Instant,
    prev: Delay,
}

impl ChronoTimer {
    /// The monotonic reading (as time since construction) of the most recent
    /// call, zero before the first call.
    pub closed spec fn prev(&self) -> Delay {
        self.prev
    }

    pub open spec fn inv(&self) -> bool {
        self.prev().wf()
    }

    /// A timer whose epoch and previous reading are the moment of
    /// construction: the first call measures the age of the timer, not zero.
    pub fn new() -> (r: ChronoTimer)
        ensures
            r.inv(),
            r.prev().ns() == 0,
    {
        ChronoTimer { origin: instant_now(), prev: Delay::zero() }
    }

    /// One reading of the clock, taken as a plain value: the delays follow
    /// from the reading and the stored state by saturating subtraction, and
    /// the reading becomes the new previous reading.
    pub fn tick(&mut self, now: Delay, utc: Option<TimePoint>) -> (st: Stamp)
        requires
            old(self).inv(),
            now.wf(),
            utc matches Some(t) ==> t.nanos < 2_000_000_000,
        ensures
            final(self).inv(),
            final(self).prev() == now,
            st == chrono_stamp(old(self).prev(), now, utc),
            st.wf(),
    {
        proof {
            if now.ns() >= self.prev.ns() {
                lemma_delay_from_ns(now.ns() - self.prev.ns());
            } else {
                lemma_delay_from_ns(0);
            }
        }
        let last = now.saturating_sub(&self.prev);
        self.prev = now;
        Stamp { last, total: now, utc }
    }
}

impl Timer for ChronoTimer {
    open spec fn wf(&self) -> bool {
        self.inv()
    }

    fn stamp(&mut self, _line: &str) -> (r: Option<Stamp>)
        ensures
            r is Some,
            r matches Some(st) ==> exists|now: Delay, utc: Option<TimePoint>|
                now.wf() && st == chrono_stamp(old(self).prev(), now, utc) && final(self).prev()
                    == now,
    {
        let now = elapsed_since(&self.origin);
        let utc = utc_now();
        Some(self.tick(now, utc))
    }
}

/// The difference between two points in time as a delay, or nothing when it
/// would be negative.
fn sub_points(t: &TimePoint, p: &TimePoint) -> (r: Option<Delay>)
    requires
        t.wf(),
        p.wf(),
    ensures
        match r {
            Some(d) => d.wf() && d.ns() == t.ns() - p.ns(),
            None => t.ns() < p.ns(),
        },
{
    let tn = t.as_nanos();
    let pn = p.as_nanos();
    if tn < pn {
        return None;
    }
    let d = (tn - pn) as u128;
    proof {
        lemma_fundamental_div_mod(d as int, 1_000_000_000);
    }
    Some(Delay { secs: (d / 1_000_000_000) as u64, nanos: (d % 1_000_000_000) as u32 })
}

/// What one parsed reading does to the extraction strategy's state `(epoch,
/// previous)`: the first reading becomes the epoch and yields zero delays; a
/// later reading yields its distances to the previous reading and to the
/// epoch, unless either is negative, in which case the reading is declined
/// and the state is left untouched.
pub open spec fn regex_step(
    begin: Option<TimePoint>,
    prev: Option<TimePoint>,
    reading: Option<TimePoint>,
) -> (Option<TimePoint>, Option<TimePoint>, Option<Stamp>) {
    match (reading, begin, prev) {
        (Some(t), Some(b), Some(l)) => {
            if t.ns() < l.ns() || t.ns() < b.ns() {
                (begin, prev, None)
            } else {
                (
                    begin,
                    Some(t),
                    Some(
                        Stamp {
                            last: delay_from_ns(t.ns() - l.ns()),
                            total: delay_from_ns(t.ns() - b.ns()),
                            utc: Some(t),
                        },
                    ),
                )
            }
        },
        (Some(t), None, _) => (
            Some(t),
            Some(t),
            Some(
                Stamp {
                    last: Delay { secs: 0, nanos: 0 },
                    total: Delay { secs: 0, nanos: 0 },
                    utc: Some(t),
                },
            ),
        ),
        _ => (begin, prev, None),
    }
}

/// The reading the extraction strategy obtains from one line: the text the
/// pattern's `time` group captures, parsed under the format. Both steps are
/// functions of their texts, so the whole reading is a function of the
/// pattern, the format and the line.
pub open spec fn extracted_reading(
    pattern: Seq<char>,
    fmt: Seq<char>,
    line: Seq<char>,
) -> Option<TimePoint> {
    match captured_time(pattern, line) {
        None => None,
        Some(text) => match parsed_time(text, fmt) {
            None => None,
            Some(p) => Some(TimePoint { secs: p.0, nanos: p.1 }),
        },
    }
}

/// The extraction strategy: a pattern with a capture group named `time`
/// picks the timestamp text out of each line, and a format string tells the
/// parser how to read it (as UTC). Lines with no reading, and readings that
/// step backwards, are declined and leave the state untouched.
pub struct RegexTimer {
    pattern: TimePattern,
    fmt: String,
    last: Option<TimePoint>,
    begin: Option<TimePoint>,
}

impl RegexTimer {
    /// The stream's epoch: the first successfully parsed reading.
    pub closed spec fn begin(&self) -> Option<TimePoint> {
        self.begin
    }

    /// The most recent successfully parsed reading.
    pub closed spec fn prev(&self) -> Option<TimePoint> {
        self.last
    }

    /// The text of the pattern the timestamps are captured with.
    pub closed spec fn pattern(&self) -> Seq<char> {
        self.pattern.text()
    }

    /// The format string the timestamp text is parsed under.
    pub closed spec fn fmt_chars(&self) -> Seq<char> {
        self.fmt@
    }

    /// The stored readings are well-formed, and the epoch never lies after
    /// the most recent reading.
    pub open spec fn inv(&self) -> bool {
        &&& match self.begin() {
            Some(b) => b.wf(),
            None => true,
        }
        &&& match self.prev() {
            Some(l) => l.wf(),
            None => true,
        }
        &&& opt_time_le(self.begin(), self.prev())
    }

    /// A fresh extraction timer: no epoch yet, so the first line that parses
    /// becomes the epoch and yields zero delays.
    pub fn new(pattern: TimePattern, fmt: &str) -> (r: RegexTimer)
        ensures
            r.inv(),
            r.begin() is None,
            r.prev() is None,
            r.pattern() == pattern.text(),
            r.fmt_chars() == fmt@,
    {
        RegexTimer { pattern, fmt: fmt.to_owned(), last: None, begin: None }
    }

    /// Fold one optional parsed reading into the state, exactly as
    /// `regex_step` describes. Taking the reading as a plain value keeps
    /// this step verified for every value the parser could hand back.
    pub fn advance(&mut self, reading: Option<TimePoint>) -> (r: Option<Stamp>)
        requires
            old(self).inv(),
            reading matches Some(t) ==> t.wf(),
        ensures
            final(self).inv(),
            (final(self).begin(), final(self).prev(), r) == regex_step(
                old(self).begin(),
                old(self).prev(),
                reading,
            ),
            final(self).pattern() == old(self).pattern(),
            final(self).fmt_chars() == old(self).fmt_chars(),
            r matches Some(st) ==> st.wf(),
            (final(self).begin() == old(self).begin() && final(self).prev() == old(self).prev())
                ==> *final(self) == *old(self),
    {
        match reading {
            None => None,
            Some(t) => match (self.begin, self.last) {
                (Some(b), Some(l)) => match sub_points(&t, &l) {
                    None => None,
                    Some(dlast) => match sub_points(&t, &b) {
                        None => None,
                        Some(dtotal) => {
                            proof {
                                lemma_delay_from_ns(t.ns() - l.ns());
                                lemma_delay_from_ns(t.ns() - b.ns());
                            }
                            self.last = Some(t);
                            Some(Stamp { last: dlast, total: dtotal, utc: Some(t) })
                        },
                    },
                },
                (None, _) => {
                    self.begin = Some(t);
                    self.last = Some(t);
                    Some(
                        Stamp {
                            last: Delay { secs: 0, nanos: 0 },
                            total: Delay { secs: 0, nanos: 0 },
                            utc: Some(t),
                        },
                    )
                },
                (Some(_), None) => None,
            },
        }
    }
}

impl Timer for RegexTimer {
    open spec fn wf(&self) -> bool {
        self.inv()
    }

    fn stamp(&mut self, line: &str) -> (r: Option<Stamp>)
        ensures
            (final(self).begin(), final(self).prev(), r) == regex_step(
                old(self).begin(),
                old(self).prev(),
                extracted_reading(old(self).pattern(), old(self).fmt_chars(), line@),
            ),
            final(self).pattern() == old(self).pattern(),
            final(self).fmt_chars() == old(self).fmt_chars(),
    {
        let reading = match capture_time(&self.pattern, line) {
            Some(text) => parse_reading(text.as_str(), self.fmt.as_str()),
            None => None,
        };
        assert(reading == extracted_reading(self.pattern(), self.fmt_chars(), line@));
        self.advance(reading)
    }
}

/// The parser's answer for a piece of timestamp text, as a point in time.
fn parse_reading(text: &str, fmt: &str) -> (r: Option<TimePoint>)
    ensures
        match r {
            Some(t) => parsed_time(text@, fmt@) == Some((t.secs, t.nanos)) && t.wf(),
            None => parsed_time(text@, fmt@) is None,
        },
{
    match parse_time_text(text, fmt) {
        Some(p) => Some(TimePoint { secs: p.0, nanos: p.1 }),
        None => None,
    }
}

/// Whichever strategy the configuration selected; the stream processor works
/// against the `Timer` capability and does not care which.
pub enum AnyTimer {
    Wall(ChronoTimer),
    Extract(RegexTimer),
}

impl Timer for AnyTimer {
    open spec fn wf(&self) -> bool {
        match self {
            AnyTimer::Wall(t) => t.wf(),
            AnyTimer::Extract(t) => t.wf(),
        }
    }

    fn stamp(&mut self, line: &str) -> (r: Option<Stamp>)
        ensures
            *old(self) matches AnyTimer::Wall(_) ==> (*final(self) matches AnyTimer::Wall(_))
                && r is Some,
            *old(self) is Extract ==> (*final(self) is Extract
                && (final(self)->Extract_0.begin(), final(self)->Extract_0.prev(), r)
                == regex_step(
                old(self)->Extract_0.begin(),
                old(self)->Extract_0.prev(),
                extracted_reading(
                    old(self)->Extract_0.pattern(),
                    old(self)->Extract_0.fmt_chars(),
                    line@,
                ),
            ) && final(self)->Extract_0.pattern() == old(self)->Extract_0.pattern()
                && final(self)->Extract_0.fmt_chars() == old(self)->Extract_0.fmt_chars()),
    {
        match self {
            AnyTimer::Wall(t) => t.stamp(line),
            AnyTimer::Extract(t) => t.stamp(line),
        }
    }
}

/// A way the timer configuration can be refused before any line is read.
#[derive(Clone, Copy, Debug, PartialEq, Eq, Structural)]
pub enum ConfigError {
    /// The pattern has no capture group named `time`.
    MissingTimeGroup,
    /// A pattern and a format must be given together, and not beside the
    /// built-in ISO selection.
    MismatchedPatternFormat,
    /// The pattern does not compile.
    InvalidPattern,
}

/// The combinations of timer options that contradict each other: a pattern
/// without a format or the other way round, or either beside the built-in
/// ISO selection.
pub open spec fn config_conflict(has_regex: bool, has_fmt: bool, iso: bool) -> bool {
    !((has_regex && has_fmt && !iso) || (!has_regex && !has_fmt))
}

/// Select and build the timer strategy: a given pattern/format pair makes an
/// extraction timer once the pattern compiles and holds a `time` group; the
/// ISO selection makes an extraction timer for ISO-8601 millisecond
/// timestamps; no timer options at all make the wall-clock timer; anything
/// else is a configuration error.
pub fn make_timer(pattern: Option<String>, fmt: Option<String>, iso: bool) -> (r: Result<
    AnyTimer,
    ConfigError,
>)
    ensures
        r matches Ok(t) ==> t.wf(),
        r == Err::<AnyTimer, ConfigError>(ConfigError::MismatchedPatternFormat) <==> config_conflict(
            pattern is Some,
            fmt is Some,
            iso,
        ),
        (pattern is None && fmt is None && !iso) ==> (r matches Ok(AnyTimer::Wall(w)) && w.prev().ns()
            == 0),
        (pattern is None && fmt is None && iso) ==> (r matches Ok(AnyTimer::Extract(et))
            && et.begin() is None && et.prev() is None && et.pattern() == iso_pattern_text()
            && et.fmt_chars() == iso_format_text()),
        (pattern is Some && fmt is Some && !iso) ==> ({
            let p = pattern->0;
            let f = fmt->0;
            if !pattern_compiles(p@) {
                r == Err::<AnyTimer, ConfigError>(ConfigError::InvalidPattern)
            } else if !pattern_has_time_group(p@) {
                r == Err::<AnyTimer, ConfigError>(ConfigError::MissingTimeGroup)
            } else {
                r matches Ok(AnyTimer::Extract(et)) && et.begin() is None && et.prev() is None
                    && et.pattern() == p@ && et.fmt_chars() == f@
            }
        }),
{
    match (pattern, fmt, iso) {
        (Some(p), Some(f), false) => match compile_pattern(p.as_str()) {
            None => Err(ConfigError::InvalidPattern),
            Some(tp) => {
                if has_time_group(&tp) {
                    Ok(AnyTimer::Extract(RegexTimer::new(tp, f.as_str())))
                } else {
                    Err(ConfigError::MissingTimeGroup)
                }
            },
        },
        (None, None, true) => Ok(
            AnyTimer::Extract(RegexTimer::new(iso_pattern(), "%Y-%m-%dT%H:%M:%S%.3f")),
        ),
        (None, None, false) => Ok(AnyTimer::Wall(ChronoTimer::new())),
        _ => Err(ConfigError::MismatchedPatternFormat),
    }
}

/// For any two consecutive wall-clock readings separated by a non-negative
/// real elapsed time, the stamp's `last` delay is non-negative (it equals
/// the elapsed time when the clock did not step back past the previous
/// reading), and `total` never decreases from one call to the next.
pub proof fn lemma_wall_clock_monotonic(
    prev: Delay,
    n1: Delay,
    n2: Delay,
    u1: Option<TimePoint>,
    u2: Option<TimePoint>,
)
    requires
        prev.wf(),
        n1.wf(),
        n2.wf(),
        n1.ns() <= n2.ns(),
    ensures
        chrono_stamp(prev, n1, u1).last.ns() >= 0,
        chrono_stamp(n1, n2, u2).last.ns() >= 0,
        chrono_stamp(n1, n2, u2).last.ns() == n2.ns() - n1.ns(),
        chrono_stamp(n1, n2, u2).total.ns() >= chrono_stamp(prev, n1, u1).total.ns(),
{
    if n1.ns() >= prev.ns() {
        lemma_delay_from_ns(n1.ns() - prev.ns());
    } else {
        lemma_delay_from_ns(0);
    }
    lemma_delay_from_ns(n2.ns() - n1.ns());
}

} // verus!
