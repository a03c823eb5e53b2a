//! Read-only observation of a target: the signals sampled, the samples
//! taken and the readings of `/proc` and `/sys` they are made of.
//! Temperatures are in thousandths of a degree Celsius.

use crate::error::{LabError, LabResult};
use crate::procfs::{parse_u64, parse_u64_spec, split_whitespace, words};
use crate::run_validation::{split_chars, split_on};
use crate::text::{concat, is_prefix, starts_with, str_eq, views};
use vstd::prelude::*;

verus! {

/// A signal an observation samples.
#[derive(Debug, Clone, Copy, PartialEq, Eq, Structural)]
pub enum Signal {
    Cpu,
    Freq,
    Thermal,
    Memory,
}

/// The label of a signal.
pub open spec fn signal_label(s: Signal) -> Seq<char> {
    match s {
        Signal::Cpu => "cpu"@,
        Signal::Freq => "freq"@,
        Signal::Thermal => "thermal"@,
        Signal::Memory => "memory"@,
    }
}

impl Signal {
    /// The signal's label.
    pub fn label(&self) -> (s: &'static str)
        ensures
            s@ == signal_label(*self),
    {
        match self {
            Signal::Cpu => "cpu",
            Signal::Freq => "freq",
            Signal::Thermal => "thermal",
            Signal::Memory => "memory",
        }
    }

    /// The signal with the given label; any other text is refused.
    pub fn from_str(value: &str) -> (r: LabResult<Signal>)
        ensures
            match r {
                Ok(s) => signal_label(s) == value@,
                Err(e) => (forall|s: Signal| signal_label(s) != value@)
                    && (e matches LabError::Validation(m) && m@ == "unknown signal "@ + value@),
            },
    {
        if str_eq(value, "cpu") {
            Ok(Signal::Cpu)
        } else if str_eq(value, "freq") {
            Ok(Signal::Freq)
        } else if str_eq(value, "thermal") {
            Ok(Signal::Thermal)
        } else if str_eq(value, "memory") {
            Ok(Signal::Memory)
        } else {
            Err(LabError::Validation(concat("unknown signal ", value)))
        }
    }
}

/// One sample of an observation; a reading is absent when its signal was
/// not asked for or could not be read.
#[derive(Debug, Clone, PartialEq, Eq)]
pub struct ObservationSample {
    pub sample_index: usize,
    pub cpu_total_ticks: Option<u64>,
    pub cpu_idle_ticks: Option<u64>,
    pub memory_available_kb: Option<u64>,
    pub avg_cpu_freq_khz: Option<u64>,
    pub max_temp_millicelsius: Option<i64>,
}

/// An observation: the signals asked for and the samples taken.
#[derive(Debug, Clone, PartialEq, Eq)]
pub struct ObservationResult {
    pub schema_version: String,
    pub target_id: String,
    pub duration_ms: u64,
    pub signals: Vec<Signal>,
    pub samples: Vec<ObservationSample>,
}

fn needs(signals: &Vec<Signal>, signal: Signal) -> (r: bool)
    ensures
        r == signals@.contains(signal),
{
    let mut i: usize = 0;
    while i < signals.len()
        invariant
            i <= signals@.len(),
            forall|k: int| 0 <= k < i ==> signals@[k] != signal,
        decreases signals.len() - i,
    {
        if signals[i] == signal {
            return true;
        }
        i = i + 1;
    }
    false
}

/// A sample from the readings taken: each reading is kept when its signal
/// was asked for; asked-for CPU ticks that could not be read count as zero.
pub fn sample_from_readings(
    sample_index: usize,
    signals: &Vec<Signal>,
    cpu_ticks: Option<(u64, u64)>,
    mem_available_kb: Option<u64>,
    avg_cpu_freq_khz: Option<u64>,
    max_temp_millicelsius: Option<i64>,
) -> (s: ObservationSample)
    ensures
        s.sample_index == sample_index,
        s.cpu_total_ticks == (if signals@.contains(Signal::Cpu) {
            Some(match cpu_ticks { Some(t) => t.0, None => 0u64 })
        } else {
            None
        }),
        s.cpu_idle_ticks == (if signals@.contains(Signal::Cpu) {
            Some(match cpu_ticks { Some(t) => t.1, None => 0u64 })
        } else {
            None
        }),
        s.memory_available_kb == (if signals@.contains(Signal::Memory) { mem_available_kb } else { None }),
        s.avg_cpu_freq_khz == (if signals@.contains(Signal::Freq) { avg_cpu_freq_khz } else { None }),
        s.max_temp_millicelsius == (if signals@.contains(Signal::Thermal) { max_temp_millicelsius } else { None }),
{
    let cpu = needs(signals, Signal::Cpu);
    let (total, idle) = match cpu_ticks {
        Some(t) => t,
        None => (0, 0),
    };
    ObservationSample {
        sample_index,
        cpu_total_ticks: if cpu { Some(total) } else { None },
        cpu_idle_ticks: if cpu { Some(idle) } else { None },
        memory_available_kb: if needs(signals, Signal::Memory) { mem_available_kb } else { None },
        avg_cpu_freq_khz: if needs(signals, Signal::Freq) { avg_cpu_freq_khz } else { None },
        max_temp_millicelsius: if needs(signals, Signal::Thermal) { max_temp_millicelsius } else { None },
    }
}

/// `a + b`, held at `u64::MAX`.
pub open spec fn sat(a: int, b: int) -> u64 {
    if a + b > u64::MAX { u64::MAX } else { (a + b) as u64 }
}

/// The numbers among words, in order (words that are not numbers left out).
pub open spec fn numbers_of(ws: Seq<Seq<char>>) -> Seq<u64>
    decreases ws.len(),
{
    if ws.len() == 0 {
        Seq::empty()
    } else {
        let prev = numbers_of(ws.drop_last());
        match parse_u64_spec(ws.last()) {
            Some(v) => prev.push(v),
            None => prev,
        }
    }
}

/// The sum of numbers, held at `u64::MAX`.
pub open spec fn sat_sum(v: Seq<u64>) -> u64
    decreases v.len(),
{
    if v.len() == 0 { 0 } else { sat(sat_sum(v.drop_last()) as int, v.last() as int) }
}

/// The total and idle (idle plus I/O wait) ticks of the first line of
/// `/proc/stat`: the sum of the numbers after its first word, and the
/// fourth plus the fifth of them (zero where missing), each held at
/// `u64::MAX`.
pub open spec fn cpu_ticks_spec(text: Seq<char>) -> (u64, u64) {
    let w = words(split_on(text, '\n')[0]);
    let values = numbers_of(if w.len() > 0 { w.drop_first() } else { Seq::empty() });
    (sat_sum(values),
     sat(if values.len() > 3 { values[3] as int } else { 0 }, if values.len() > 4 { values[4] as int } else { 0 }))
}

/// The total and idle ticks of the CPUs, from a `/proc/stat` text.
pub fn cpu_ticks(text: &str) -> (t: (u64, u64))
    ensures
        t == cpu_ticks_spec(text@),
{
    let lines = split_chars(text, '\n');
    proof {
        crate::run_validation::lemma_split_nonempty(text@, '\n');
    }
    let w = split_whitespace(lines[0].as_str());
    if w.len() == 0 {
        proof {
            assert(numbers_of(Seq::<Seq<char>>::empty()) =~= Seq::<u64>::empty());
        }
        return (0, 0);
    }
    let mut values: Vec<u64> = Vec::new();
    let mut total: u64 = 0;
    let mut i: usize = 1;
    let ghost rest = views(w@).drop_first();
    while i < w.len()
        invariant
            1 <= i <= w@.len(),
            rest == views(w@).drop_first(),
            values@ == numbers_of(rest.take(i - 1)),
            total == sat_sum(values@),
        decreases w.len() - i,
    {
        proof {
            assert(rest.take(i as int).drop_last() =~= rest.take(i - 1));
            assert(rest.take(i as int).last() == views(w@)[i as int]);
        }
        match parse_u64(w[i].as_str()) {
            Some(v) => {
                let ghost prev = values@;
                values.push(v);
                total = if total > u64::MAX - v { u64::MAX } else { total + v };
                proof {
                    assert(values@.drop_last() =~= prev);
                }
            },
            None => {},
        }
        i = i + 1;
    }
    proof {
        assert(rest.take(w@.len() - 1) =~= rest);
    }
    let a: u64 = if values.len() > 3 { values[3] } else { 0 };
    let b: u64 = if values.len() > 4 { values[4] } else { 0 };
    let idle = if a > u64::MAX - b { u64::MAX } else { a + b };
    (total, idle)
}

/// The first line of a text that starts with `MemAvailable:`.
pub open spec fn first_available_line(lines: Seq<Seq<char>>) -> Option<Seq<char>>
    decreases lines.len(),
{
    if lines.len() == 0 {
        None
    } else if is_prefix("MemAvailable:"@, lines[0]) {
        Some(lines[0])
    } else {
        first_available_line(lines.drop_first())
    }
}

/// The available memory of a `/proc/meminfo` text: the first word after
/// `MemAvailable:` on the first line that starts with it, as a number.
pub open spec fn mem_available_spec(text: Seq<char>) -> Option<u64> {
    match first_available_line(split_on(text, '\n')) {
        Some(line) => {
            let w = words(line.subrange(13, line.len() as int));
            if w.len() > 0 { parse_u64_spec(w[0]) } else { None }
        },
        None => None,
    }
}

/// The available memory, in KiB, from a `/proc/meminfo` text.
pub fn mem_available_kb(text: &str) -> (v: Option<u64>)
    ensures
        v == mem_available_spec(text@),
{
    let lines = split_chars(text, '\n');
    let mut i: usize = 0;
    assert(views(lines@).subrange(0, lines@.len() as int) =~= views(lines@));
    while i < lines.len()
        invariant
            i <= lines@.len(),
            views(lines@) == split_on(text@, '\n'),
            first_available_line(views(lines@)) == first_available_line(views(lines@).subrange(i as int, lines@.len() as int)),
        decreases lines.len() - i,
    {
        let ghost rest = views(lines@).subrange(i as int, lines@.len() as int);
        assert(rest.drop_first() =~= views(lines@).subrange(i + 1, lines@.len() as int));
        let line = lines[i].as_str();
        if starts_with(line, "MemAvailable:") {
            proof {
                reveal_strlit("MemAvailable:");
            }
            let tail = line.substring_char(13, line.unicode_len());
            let w = split_whitespace(tail);
            if w.len() > 0 {
                return parse_u64(w[0].as_str());
            }
            return None;
        }
        i = i + 1;
    }
    None
}

/// The mean of frequencies, rounded down; none when there are none.
pub open spec fn mean_spec(values: Seq<u64>) -> Option<u64> {
    if values.len() == 0 { None } else { Some((total_of(values) / values.len() as int) as u64) }
}

/// The sum of values.
pub open spec fn total_of(values: Seq<u64>) -> int
    decreases values.len(),
{
    if values.len() == 0 { 0 } else { total_of(values.drop_last()) + values.last() }
}

proof fn lemma_total_bounds(values: Seq<u64>)
    ensures
        0 <= total_of(values) <= values.len() * u64::MAX,
    decreases values.len(),
{
    if values.len() > 0 {
        lemma_total_bounds(values.drop_last());
    }
}

/// The mean current frequency of the cpufreq policies, from the frequency
/// each policy reported (those that could not be read left out).
pub fn avg_cpu_freq_khz(values: &Vec<u64>) -> (v: Option<u64>)
    requires
        values@.len() < 0x1_0000_0000,
    ensures
        v == mean_spec(values@),
{
    if values.len() == 0 {
        return None;
    }
    let mut total: u128 = 0;
    let mut i: usize = 0;
    while i < values.len()
        invariant
            i <= values@.len(),
            values@.len() < 0x1_0000_0000,
            total == total_of(values@.take(i as int)),
        decreases values.len() - i,
    {
        proof {
            assert(values@.take(i + 1).drop_last() =~= values@.take(i as int));
            lemma_total_bounds(values@.take(i as int));
            assert(i * u64::MAX <= 0x1_0000_0000 * u64::MAX) by (nonlinear_arith)
                requires i < 0x1_0000_0000;
        }
        total = total + values[i] as u128;
        i = i + 1;
    }
    proof {
        assert(values@.take(values@.len() as int) =~= values@);
        lemma_total_bounds(values@);
        let n = values@.len() as int;
        assert(total_of(values@) / n <= u64::MAX) by (nonlinear_arith)
            requires n > 0, 0 <= total_of(values@) <= n * u64::MAX;
    }
    Some((total / values.len() as u128) as u64)
}

/// A temperature file's text as thousandths of a degree: an optional minus
/// sign and a number.
pub open spec fn temp_spec(raw: Seq<char>) -> Option<i64> {
    if raw.len() > 0 && raw[0] == '-' {
        match parse_u64_spec(raw.drop_first()) {
            Some(v) => if v <= i64::MAX { Some(-(v as int) as i64) } else { None },
            None => None,
        }
    } else {
        match parse_u64_spec(raw) {
            Some(v) => if v <= i64::MAX { Some(v as i64) } else { None },
            None => None,
        }
    }
}

/// The highest of the readings that parse, in thousandths of a degree.
pub open spec fn max_temp_spec(raws: Seq<Seq<char>>) -> Option<i64>
    decreases raws.len(),
{
    if raws.len() == 0 {
        None
    } else {
        let prev = max_temp_spec(raws.drop_last());
        match temp_spec(raws.last()) {
            Some(t) => match prev {
                Some(m) => if m >= t { Some(m) } else { Some(t) },
                None => Some(t),
            },
            None => prev,
        }
    }
}

fn parse_temp(raw: &str) -> (t: Option<i64>)
    ensures
        t == temp_spec(raw@),
{
    let n = raw.unicode_len();
    if n > 0 && raw.get_char(0) == '-' {
        let rest = raw.substring_char(1, n);
        proof {
            assert(rest@ =~= raw@.drop_first());
        }
        match parse_u64(rest) {
            Some(v) => if v <= i64::MAX as u64 { Some(-(v as i64)) } else { None },
            None => None,
        }
    } else {
        match parse_u64(raw) {
            Some(v) => if v <= i64::MAX as u64 { Some(v as i64) } else { None },
            None => None,
        }
    }
}

/// The hottest thermal zone, from the texts of the zones' `temp` files
/// (thousandths of a degree each).
pub fn max_temp_millicelsius(raws: &Vec<String>) -> (t: Option<i64>)
    ensures
        t == max_temp_spec(views(raws@)),
{
    let mut best: Option<i64> = None;
    let mut i: usize = 0;
    while i < raws.len()
        invariant
            i <= raws@.len(),
            best == max_temp_spec(views(raws@).take(i as int)),
        decreases raws.len() - i,
    {
        proof {
            assert(views(raws@).take(i + 1).drop_last() =~= views(raws@).take(i as int));
        }
        match parse_temp(raws[i].as_str()) {
            Some(t) => {
                best = match best {
                    Some(m) => if m >= t { Some(m) } else { Some(t) },
                    None => Some(t),
                };
            },
            None => {},
        }
        i = i + 1;
    }
    proof {
        assert(views(raws@).take(raws@.len() as int) =~= views(raws@));
    }
    best
}

/// What `humantime::parse_duration` gives for a text: the duration in
/// nanoseconds, or the text of its error.
pub uninterp spec fn humantime_duration(text: Seq<char>) -> Result<u128, Seq<char>>;

/// Calls `humantime::parse_duration`.  Claimed: the result is the one
/// `humantime_duration` names for the text (the duration in nanoseconds,
/// or the error's displayed text), below `2^64` seconds as every
/// `Duration` is, and the text `0` gives a zero duration, as the function's
/// source shows.
///
/// The parser panics when the seconds it has added up reach `u64::MAX` and
/// the nanoseconds then carried make a whole second.  Each number it adds,
/// with the carries that follow it, stands for at most its value plus two
/// times the seconds of its unit (a fraction for less than one unit), and
/// its numbers are digit runs ended by a unit letter or `.`, so the call is
/// made only on texts whose `duration_seconds_bound` is below `u64::MAX`.
#[verifier::external_body]
fn humantime_parse(value: &str) -> (r: Result<u128, String>)
    requires
        duration_seconds_bound(value@) < 0xFFFF_FFFF_FFFF_FFFF,
    ensures
        (match (r, humantime_duration(value@)) {
            (Ok(d), Ok(e)) => d == e && d < 0x1_0000_0000_0000_0000 * 1_000_000_000,
            (Err(m), Err(n)) => m@ == n,
            _ => false,
        }),
        r is Ok || value@ != "0"@,
        r matches Ok(d) ==> value@ != "0"@ || d == 0,
{
    match humantime::parse_duration(value) {
        Ok(d) => Ok(d.as_nanos()),
        Err(e) => Err(e.to_string()),
    }
}

/// A duration parsed by `humantime` as whole seconds and nanoseconds, or
/// its error as an invalid duration.
pub fn duration_from_parse(parsed: Result<u128, String>) -> (r: LabResult<(u64, u32)>)
    requires
        parsed matches Ok(n) ==> n < 0x1_0000_0000_0000_0000 * 1_000_000_000,
    ensures
        match parsed {
            Ok(n) => r matches Ok(d) && d.0 == n / 1_000_000_000 && d.1 == n % 1_000_000_000,
            Err(m) => r matches Err(LabError::InvalidDuration(e)) && e@ == m@,
        },
{
    match parsed {
        Ok(n) => Ok(((n / 1_000_000_000) as u64, (n % 1_000_000_000) as u32)),
        Err(m) => Err(LabError::InvalidDuration(m)),
    }
}

/// The seconds in a year of 365.25 days, the longest unit of a duration.
pub const SECONDS_PER_YEAR: u128 = 31_557_600;

/// The most seconds one unit of a duration stands for, by the unit's first
/// letter: one for nanoseconds, microseconds and seconds; a minute for the
/// units starting with `m` (minutes and milliseconds); an hour, day, week,
/// month of 30.44 days or year for `h`, `d`, `w`, `M` and `y`; a year for
/// any other letter and for a number followed by `.`, whose unit comes
/// after its fraction.
pub open spec fn unit_weight_spec(c: char) -> nat {
    if c == 'n' || c == 'u' || c == 's' { 1 }
    else if c == 'm' { 60 }
    else if c == 'h' { 3600 }
    else if c == 'd' { 86400 }
    else if c == 'w' { 604800 }
    else if c == 'M' { 2630016 }
    else { 31557600 }
}

fn unit_weight(c: char) -> (w: u128)
    ensures
        w == unit_weight_spec(c),
{
    if c == 'n' || c == 'u' || c == 's' { 1 }
    else if c == 'm' { 60 }
    else if c == 'h' { 3600 }
    else if c == 'd' { 86400 }
    else if c == 'w' { 604800 }
    else if c == 'M' { 2630016 }
    else { SECONDS_PER_YEAR }
}

/// The scan of a duration text for its numbers: the bound added up so far,
/// the value of the number being read, and whether one is being read.  A
/// number's digits run until an ASCII letter or `.`; other characters (the
/// white space a number may hold) neither end nor extend it.
pub open spec fn seconds_scan(s: Seq<char>) -> (nat, nat, bool)
    decreases s.len(),
{
    if s.len() == 0 {
        (0, 0, false)
    } else {
        let st = seconds_scan(s.drop_last());
        let c = s.last();
        if '0' <= c && c <= '9' {
            (st.0, (st.1 * 10 + (c as int - '0' as int)) as nat, true)
        } else if ('a' <= c && c <= 'z') || ('A' <= c && c <= 'Z') || c == '.' {
            if st.2 { ((st.0 + (st.1 + 2) * unit_weight_spec(c)) as nat, 0, false) } else { (st.0, 0, false) }
        } else {
            st
        }
    }
}

/// The bound of a scan state: what was added up, and the number being read
/// counted once.
pub open spec fn scan_bound(st: (nat, nat, bool)) -> nat {
    (st.0 + if st.2 { st.1 + 2 } else { 0 }) as nat
}

/// A bound on the seconds `humantime` adds up for a text: each number of
/// it, plus two, times the most seconds its unit stands for; a number not
/// (yet) followed by a unit counts once.
pub open spec fn duration_seconds_bound(s: Seq<char>) -> nat {
    scan_bound(seconds_scan(s))
}

/// The bound never shrinks as a text goes on.
pub proof fn lemma_seconds_bound_grows(s: Seq<char>, i: int)
    requires
        0 <= i <= s.len(),
    ensures
        duration_seconds_bound(s.subrange(0, i)) <= duration_seconds_bound(s),
    decreases s.len() - i,
{
    if i < s.len() {
        lemma_seconds_bound_grows(s, i + 1);
        let p = s.subrange(0, i + 1);
        assert(p.drop_last() =~= s.subrange(0, i));
    } else {
        assert(s.subrange(0, i) =~= s);
    }
}

/// The text's bound stays below `u64::MAX` seconds.
pub fn duration_within_bound(value: &str) -> (ok: bool)
    ensures
        ok == (duration_seconds_bound(value@) < 0xFFFF_FFFF_FFFF_FFFF),
{
    let len = value.unicode_len();
    let mut acc: u128 = 0;
    let mut cur: u128 = 0;
    let mut run = false;
    let mut i: usize = 0;
    while i < len
        invariant
            len == value@.len(),
            i <= len,
            seconds_scan(value@.subrange(0, i as int)) == (acc as nat, cur as nat, run),
            duration_seconds_bound(value@.subrange(0, i as int)) < 0xFFFF_FFFF_FFFF_FFFF,
            !run ==> cur == 0,
            acc < 0xFFFF_FFFF_FFFF_FFFF,
            cur < 0xFFFF_FFFF_FFFF_FFFF,
        decreases len - i,
    {
        let c = value.get_char(i);
        proof {
            assert(value@.subrange(0, i + 1).drop_last() =~= value@.subrange(0, i as int));
        }
        if '0' <= c && c <= '9' {
            cur = cur * 10 + ((c as u32 - '0' as u32) as u128);
            run = true;
        } else if ('a' <= c && c <= 'z') || ('A' <= c && c <= 'Z') || c == '.' {
            if run {
                let w = unit_weight(c);
                assert(cur + 2 <= 0x1_0000_0000_0000_0001);
                assert((cur + 2) * w <= 0x1_0000_0000_0000_0001 * 31557600) by (nonlinear_arith)
                    requires
                        cur + 2 <= 0x1_0000_0000_0000_0001,
                        w <= 31557600,
                ;
                acc = acc + (cur + 2) * w;
            }
            cur = 0;
            run = false;
        }
        let bound: u128 = if run { acc + cur + 2 } else { acc };
        if bound >= 0xFFFF_FFFF_FFFF_FFFF {
            proof {
                lemma_seconds_bound_grows(value@, i + 1);
            }
            return false;
        }
        i = i + 1;
    }
    proof {
        assert(value@.subrange(0, len as int) =~= value@);
    }
    true
}

/// Parses a human-readable duration such as `5s` or `2h 37min` into whole
/// seconds and nanoseconds.  A text whose numbers could add up to
/// `u64::MAX` seconds is refused before it reaches the parser.
pub fn parse_duration(value: &str) -> (r: LabResult<(u64, u32)>)
    ensures
        duration_seconds_bound(value@) >= 0xFFFF_FFFF_FFFF_FFFF ==> (r matches Err(LabError::InvalidDuration(e))
            && e@ == "duration text is too large"@),
        duration_seconds_bound(value@) < 0xFFFF_FFFF_FFFF_FFFF ==> match humantime_duration(value@) {
            Ok(n) => r matches Ok(d) && d.0 == n / 1_000_000_000 && d.1 == n % 1_000_000_000,
            Err(m) => r matches Err(LabError::InvalidDuration(e)) && e@ == m,
        },
        value@ == "0"@ ==> (r matches Ok(d) && d.0 == 0 && d.1 == 0),
{
    proof {
        reveal_strlit("0");
        if value@ == "0"@ {
            assert(value@.len() == 1);
            assert(value@.drop_last() =~= Seq::<char>::empty());
            assert(seconds_scan(value@.drop_last()) == (0nat, 0nat, false));
            assert(value@.last() == '0');
            assert(seconds_scan(value@) == (0nat, 0nat, true));
        }
    }
    if !duration_within_bound(value) {
        return Err(LabError::InvalidDuration(crate::text::owned("duration text is too large")));
    }
    duration_from_parse(humantime_parse(value))
}

} // verus!
