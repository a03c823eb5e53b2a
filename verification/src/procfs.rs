//! Parsers for the per-process files under `/proc`: the CPU ticks in
//! `stat`, and the memory, context-switch and I/O counters in `status`
//! and `io`.

use crate::error::{LabError, LabResult};
use crate::run_validation::{is_white_space, is_white_space_char, split_chars, split_on};
use crate::text::{occurs_at, owned, str_eq, views};
use vstd::prelude::*;

verus! {

/// The words of `s` after its first `n` characters have been read: the
/// words finished so far, and the word being read.
pub open spec fn words_after(s: Seq<char>, n: nat) -> (Seq<Seq<char>>, Seq<char>)
    decreases n,
{
    if n == 0 {
        (Seq::empty(), Seq::empty())
    } else {
        let prev = words_after(s, (n - 1) as nat);
        let c = s[n - 1];
        if is_white_space(c) {
            if prev.1.len() > 0 { (prev.0.push(prev.1), Seq::empty()) } else { prev }
        } else {
            (prev.0, prev.1.push(c))
        }
    }
}

/// The white-space separated words of `s` (`str::split_whitespace`).
pub open spec fn words(s: Seq<char>) -> Seq<Seq<char>> {
    let r = words_after(s, s.len());
    if r.1.len() > 0 { r.0.push(r.1) } else { r.0 }
}

/// The white-space separated words of a string.
pub fn split_whitespace(s: &str) -> (w: Vec<String>)
    ensures
        views(w@) == words(s@),
{
    let n = s.unicode_len();
    let mut done: Vec<String> = Vec::new();
    let mut in_word = false;
    let mut start: usize = 0;
    let mut i: usize = 0;
    while i < n
        invariant
            n == s@.len(),
            i <= n,
            start <= i,
            (views(done@), if in_word { s@.subrange(start as int, i as int) } else { Seq::empty() }) == words_after(s@, i as nat),
            in_word ==> start < i,
        decreases n - i,
    {
        let c = s.get_char(i);
        proof {
            assert(s@[i as int] == c);
        }
        if is_white_space_char(c) {
            if in_word {
                let ghost before = views(done@);
                done.push(owned(s.substring_char(start, i)));
                in_word = false;
                proof {
                    assert(views(done@) =~= before.push(s@.subrange(start as int, i as int)));
                }
            }
        } else {
            if !in_word {
                start = i;
                in_word = true;
                proof {
                    assert(s@.subrange(start as int, i + 1) =~= Seq::<char>::empty().push(c));
                }
            } else {
                proof {
                    assert(s@.subrange(start as int, i + 1) =~= s@.subrange(start as int, i as int).push(c));
                }
            }
        }
        i = i + 1;
    }
    if in_word {
        let ghost before = views(done@);
        done.push(owned(s.substring_char(start, n)));
        proof {
            assert(views(done@) =~= before.push(s@.subrange(start as int, n as int)));
        }
    }
    done
}

/// An ASCII digit.
pub open spec fn is_digit(c: char) -> bool {
    '0' <= c && c <= '9'
}

/// The value of a string of decimal digits.
pub open spec fn digits_value(s: Seq<char>) -> int
    decreases s.len(),
{
    if s.len() == 0 {
        0
    } else {
        digits_value(s.drop_last()) * 10 + (s.last() as int - '0' as int)
    }
}

/// What `str::parse::<u64>` gives: an optional plus sign, then one or
/// more decimal digits whose value fits in 64 bits.
pub open spec fn parse_u64_spec(s: Seq<char>) -> Option<u64> {
    let d = unsigned_digits(s);
    if d.len() > 0 && all_digits(d) && digits_value(d) <= u64::MAX {
        Some(digits_value(d) as u64)
    } else {
        None
    }
}

/// The digits of a number, behind an optional plus sign.
pub open spec fn unsigned_digits(s: Seq<char>) -> Seq<char> {
    if s.len() > 0 && s[0] == '+' { s.drop_first() } else { s }
}

/// Every character is a decimal digit.
pub open spec fn all_digits(d: Seq<char>) -> bool {
    forall|i: int| 0 <= i < d.len() ==> is_digit(#[trigger] d[i])
}

proof fn lemma_digits_nonneg(s: Seq<char>)
    requires
        forall|i: int| 0 <= i < s.len() ==> is_digit(#[trigger] s[i]),
    ensures
        digits_value(s) >= 0,
    decreases s.len(),
{
    if s.len() > 0 {
        lemma_digits_nonneg(s.drop_last());
    }
}

proof fn lemma_digits_monotone(s: Seq<char>, k: int)
    requires
        0 <= k <= s.len(),
        forall|i: int| 0 <= i < s.len() ==> is_digit(#[trigger] s[i]),
    ensures
        digits_value(s.take(k)) <= digits_value(s),
    decreases s.len() - k,
{
    if k < s.len() {
        lemma_digits_monotone(s, k + 1);
        assert(s.take(k + 1).drop_last() =~= s.take(k));
        lemma_digits_nonneg(s.take(k));
    } else {
        assert(s.take(k) =~= s);
    }
}

/// Parses an unsigned 64-bit decimal number as `str::parse` does.
pub fn parse_u64(s: &str) -> (r: Option<u64>)
    ensures
        r == parse_u64_spec(s@),
{
    let n = s.unicode_len();
    let mut start: usize = 0;
    if n > 0 && s.get_char(0) == '+' {
        start = 1;
    }
    let ghost d = unsigned_digits(s@);
    proof {
        assert(d =~= s@.subrange(start as int, n as int));
    }
    if start == n {
        return None;
    }
    let mut value: u64 = 0;
    let mut i: usize = start;
    while i < n
        invariant
            n == s@.len(),
            start <= i <= n,
            start < n,
            d == s@.subrange(start as int, n as int),
            d == unsigned_digits(s@),
            forall|k: int| 0 <= k < i - start ==> is_digit(#[trigger] d[k]),
            value as int == digits_value(d.take(i - start)),
        decreases n - i,
    {
        let c = s.get_char(i);
        proof {
            assert(d[i - start] == c);
            assert(d.take(i - start + 1).drop_last() =~= d.take(i - start));
        }
        if !('0' <= c && c <= '9') {
            proof {
                assert(!is_digit(d[i - start]));
                assert(!all_digits(d));
            }
            return None;
        }
        let digit: u64 = (c as u32 - '0' as u32) as u64;
        let next = match value.checked_mul(10) {
            Some(v) => v.checked_add(digit),
            None => None,
        };
        match next {
            Some(v) => {
                value = v;
            },
            None => {
                proof {
                    let k = i - start + 1;
                    assert(d.take(k).drop_last() =~= d.take(k - 1));
                    assert(d.take(k).last() == c);
                    assert(digits_value(d.take(k)) == value * 10 + digit);
                    assert(digits_value(d.take(k)) > u64::MAX);
                    assert(forall|j: int| 0 <= j < k ==> is_digit(#[trigger] d.take(k)[j]));
                    if all_digits(d) {
                        lemma_digits_monotone(d, k);
                        assert(digits_value(d) > u64::MAX);
                    }
                }
                return None;
            },
        }
        i = i + 1;
    }
    proof {
        assert(d.take(n - start) =~= d);
    }
    Some(value)
}

/// The last position where `needle` starts in `s`.
pub open spec fn last_occurrence(s: Seq<char>, needle: Seq<char>) -> Option<int> {
    if exists|i: int| occurs_at(s, needle, i) {
        Some(choose|i: int| occurs_at(s, needle, i) && forall|j: int| i < j ==> !occurs_at(s, needle, j))
    } else {
        None
    }
}

fn rfind_close_paren(s: &str) -> (r: Option<usize>)
    ensures
        match r {
            Some(i) => occurs_at(s@, ") "@, i as int) && forall|j: int| i < j ==> !occurs_at(s@, ") "@, j),
            None => forall|j: int| !occurs_at(s@, ") "@, j),
        },
{
    proof {
        reveal_strlit(") ");
    }
    let n = s.unicode_len();
    let mut k: usize = n;
    while k > 0
        invariant
            n == s@.len(),
            k <= n,
            ") "@.len() == 2,
            forall|j: int| k <= j ==> !occurs_at(s@, ") "@, j),
        decreases k,
    {
        let i = k - 1;
        if i + 1 < n && s.get_char(i) == ')' && s.get_char(i + 1) == ' ' {
            proof {
                reveal_strlit(") ");
                assert(s@.subrange(i as int, i + 2) =~= ") "@);
            }
            return Some(i);
        }
        proof {
            reveal_strlit(") ");
            if occurs_at(s@, ") "@, i as int) {
                assert(s@.subrange(i as int, i + 2)[0] == s@[i as int]);
                assert(s@.subrange(i as int, i + 2)[1] == s@[i + 1]);
            }
        }
        k = k - 1;
    }
    proof {
        assert forall|j: int| !occurs_at(s@, ") "@, j) by {
            if j < 0 {
            }
        }
    }
    None
}

/// The user and system CPU ticks `stat` records, or why they cannot be
/// read: the fields after the command name's closing parenthesis, the
/// twelfth and thirteenth of them.
pub open spec fn proc_stat_spec(text: Seq<char>) -> Result<(u64, u64), Seq<char>> {
    match last_occurrence(text, ") "@) {
        None => Err("could not parse /proc/<pid>/stat comm field"@),
        Some(e) => {
            let f = words(text.subrange(e + 2, text.len() as int));
            if !(f.len() > 11 && parse_u64_spec(f[11]) is Some) {
                Err("missing utime in /proc/<pid>/stat"@)
            } else if !(f.len() > 12 && parse_u64_spec(f[12]) is Some) {
                Err("missing stime in /proc/<pid>/stat"@)
            } else {
                Ok((parse_u64_spec(f[11]).unwrap(), parse_u64_spec(f[12]).unwrap()))
            }
        },
    }
}

/// Reads the user and system CPU ticks from a `/proc/<pid>/stat` text,
/// whose command name may hold spaces and parentheses.
pub fn parse_proc_stat(text: &str) -> (r: LabResult<(u64, u64)>)
    ensures
        match proc_stat_spec(text@) {
            Ok(v) => r == Ok::<(u64, u64), LabError>(v),
            Err(m) => r matches Err(LabError::Validation(got)) && got@ == m,
        },
{
    let end = match rfind_close_paren(text) {
        Some(e) => e,
        None => {
            proof {
                assert(!(exists|i: int| occurs_at(text@, ") "@, i)));
            }
            return Err(LabError::Validation(owned("could not parse /proc/<pid>/stat comm field")));
        },
    };
    proof {
        let chosen = choose|i: int| occurs_at(text@, ") "@, i) && forall|j: int| i < j ==> !occurs_at(text@, ") "@, j);
        assert(occurs_at(text@, ") "@, end as int));
        if chosen < end {
        } else if chosen > end {
        }
        assert(last_occurrence(text@, ") "@) == Some(end as int));
        reveal_strlit(") ");
    }
    let n = text.unicode_len();
    let rest = text.substring_char(end + 2, n);
    let fields = split_whitespace(rest);
    let utime = if fields.len() > 11 { parse_u64(fields[11].as_str()) } else { None };
    let utime = match utime {
        Some(v) => v,
        None => {
            return Err(LabError::Validation(owned("missing utime in /proc/<pid>/stat")));
        },
    };
    let stime = if fields.len() > 12 { parse_u64(fields[12].as_str()) } else { None };
    let stime = match stime {
        Some(v) => v,
        None => {
            return Err(LabError::Validation(owned("missing stime in /proc/<pid>/stat")));
        },
    };
    Ok((utime, stime))
}

/// The process counters a workload sample reads from `/proc/<pid>`.
#[derive(Debug, Clone, Copy, PartialEq, Eq, Structural)]
pub struct ProcSnapshot {
    pub utime_ticks: Option<u64>,
    pub stime_ticks: Option<u64>,
    pub rss_kb: Option<u64>,
    pub vmhwm_kb: Option<u64>,
    pub read_bytes: Option<u64>,
    pub write_bytes: Option<u64>,
    pub cancelled_write_bytes: Option<u64>,
    pub voluntary_ctxt_switches: Option<u64>,
    pub nonvoluntary_ctxt_switches: Option<u64>,
}

impl ProcSnapshot {
    /// A snapshot that has read nothing.
    pub fn empty() -> (s: Self)
        ensures
            s == (ProcSnapshot {
                utime_ticks: None,
                stime_ticks: None,
                rss_kb: None,
                vmhwm_kb: None,
                read_bytes: None,
                write_bytes: None,
                cancelled_write_bytes: None,
                voluntary_ctxt_switches: None,
                nonvoluntary_ctxt_switches: None,
            }),
    {
        ProcSnapshot {
            utime_ticks: None,
            stime_ticks: None,
            rss_kb: None,
            vmhwm_kb: None,
            read_bytes: None,
            write_bytes: None,
            cancelled_write_bytes: None,
            voluntary_ctxt_switches: None,
            nonvoluntary_ctxt_switches: None,
        }
    }
}

/// A word without its trailing colons.
pub open spec fn strip_colons(s: Seq<char>) -> Seq<char>
    decreases s.len(),
{
    if s.len() > 0 && s.last() == ':' { strip_colons(s.drop_last()) } else { s }
}

pub fn strip_colons_str(s: &str) -> (r: &str)
    ensures
        r@ == strip_colons(s@),
{
    let n = s.unicode_len();
    let mut k: usize = n;
    proof {
        assert(s@.subrange(0, n as int) =~= s@);
    }
    while k > 0 && s.get_char(k - 1) == ':'
        invariant
            n == s@.len(),
            k <= n,
            strip_colons(s@.subrange(0, k as int)) == strip_colons(s@),
        decreases k,
    {
        proof {
            assert(s@.subrange(0, k as int).drop_last() =~= s@.subrange(0, k - 1));
        }
        k = k - 1;
    }
    proof {
        assert(s@.subrange(0, n as int) =~= s@);
    }
    s.substring_char(0, k)
}

/// The key of a line: its first word without trailing colons.
pub open spec fn line_key(w: Seq<Seq<char>>) -> Seq<char> {
    strip_colons(if w.len() > 0 { w[0] } else { Seq::empty() })
}

/// The value of a line: its second word as a number.
pub open spec fn line_value(w: Seq<Seq<char>>) -> Option<u64> {
    if w.len() > 1 { parse_u64_spec(w[1]) } else { None }
}

/// The snapshot after one line of `status`.
pub open spec fn status_line(snap: ProcSnapshot, line: Seq<char>) -> ProcSnapshot {
    let w = words(line);
    let key = line_key(w);
    let v = line_value(w);
    if key == "VmRSS"@ {
        ProcSnapshot { rss_kb: v, ..snap }
    } else if key == "VmHWM"@ {
        ProcSnapshot { vmhwm_kb: v, ..snap }
    } else if key == "voluntary_ctxt_switches"@ {
        ProcSnapshot { voluntary_ctxt_switches: v, ..snap }
    } else if key == "nonvoluntary_ctxt_switches"@ {
        ProcSnapshot { nonvoluntary_ctxt_switches: v, ..snap }
    } else {
        snap
    }
}

/// The snapshot after one line of `io`.
pub open spec fn io_line(snap: ProcSnapshot, line: Seq<char>) -> ProcSnapshot {
    let w = words(line);
    let key = line_key(w);
    let v = line_value(w);
    if key == "read_bytes"@ {
        ProcSnapshot { read_bytes: v, ..snap }
    } else if key == "write_bytes"@ {
        ProcSnapshot { write_bytes: v, ..snap }
    } else if key == "cancelled_write_bytes"@ {
        ProcSnapshot { cancelled_write_bytes: v, ..snap }
    } else {
        snap
    }
}

/// The snapshot after the lines of a `status` (or, with `io`, of an `io`)
/// file: each line whose key is known sets its field, a later line
/// overriding an earlier one.
pub open spec fn lines_read(snap: ProcSnapshot, lines: Seq<Seq<char>>, io: bool) -> ProcSnapshot
    decreases lines.len(),
{
    if lines.len() == 0 {
        snap
    } else {
        let prev = lines_read(snap, lines.drop_last(), io);
        if io { io_line(prev, lines.last()) } else { status_line(prev, lines.last()) }
    }
}

fn read_line(snapshot: &mut ProcSnapshot, line: &str, io: bool)
    ensures
        *final(snapshot) == (if io { io_line(*old(snapshot), line@) } else { status_line(*old(snapshot), line@) }),
{
    let w = split_whitespace(line);
    let key = if w.len() > 0 { strip_colons_str(w[0].as_str()) } else { "" };
    let value = if w.len() > 1 { parse_u64(w[1].as_str()) } else { None };
    proof {
        reveal_strlit("");
        assert(key@ == line_key(views(w@)));
        assert(value == line_value(views(w@)));
    }
    if io {
        if str_eq(key, "read_bytes") {
            snapshot.read_bytes = value;
        } else if str_eq(key, "write_bytes") {
            snapshot.write_bytes = value;
        } else if str_eq(key, "cancelled_write_bytes") {
            snapshot.cancelled_write_bytes = value;
        }
    } else {
        if str_eq(key, "VmRSS") {
            snapshot.rss_kb = value;
        } else if str_eq(key, "VmHWM") {
            snapshot.vmhwm_kb = value;
        } else if str_eq(key, "voluntary_ctxt_switches") {
            snapshot.voluntary_ctxt_switches = value;
        } else if str_eq(key, "nonvoluntary_ctxt_switches") {
            snapshot.nonvoluntary_ctxt_switches = value;
        }
    }
}

fn read_lines(text: &str, snapshot: &mut ProcSnapshot, io: bool)
    ensures
        *final(snapshot) == lines_read(*old(snapshot), split_on(text@, '\n'), io),
{
    let lines = split_chars(text, '\n');
    let ghost start = *snapshot;
    let mut i: usize = 0;
    while i < lines.len()
        invariant
            i <= lines@.len(),
            views(lines@) == split_on(text@, '\n'),
            *snapshot == lines_read(start, views(lines@).take(i as int), io),
        decreases lines.len() - i,
    {
        proof {
            assert(views(lines@).take(i + 1).drop_last() =~= views(lines@).take(i as int));
        }
        read_line(snapshot, lines[i].as_str(), io);
        i = i + 1;
    }
    proof {
        assert(views(lines@).take(lines@.len() as int) =~= views(lines@));
    }
}

/// Reads the resident and peak memory and the context switches from a
/// `/proc/<pid>/status` text into a snapshot. Lines are split at line
/// feeds; a carriage return before one is white space and changes no word.
pub fn parse_proc_status(text: &str, snapshot: &mut ProcSnapshot)
    ensures
        *final(snapshot) == lines_read(*old(snapshot), split_on(text@, '\n'), false),
{
    read_lines(text, snapshot, false);
}

/// Reads the storage byte counters from a `/proc/<pid>/io` text into a
/// snapshot.
pub fn parse_proc_io(text: &str, snapshot: &mut ProcSnapshot)
    ensures
        *final(snapshot) == lines_read(*old(snapshot), split_on(text@, '\n'), true),
{
    read_lines(text, snapshot, true);
}

} // verus!
