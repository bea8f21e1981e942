//! Resource usage of a process, as Linux reports it in the text files
//! under `/proc`. The caller reads the files; these functions read the
//! numbers out of their text.
use vstd::prelude::*;
use crate::text::{bounded_reading, chars_of, read_bounded_chars, slice_of};

verus! {

/// Why a reading failed.
#[derive(Clone, Copy, Debug, PartialEq, Eq, Structural)]
pub enum ResourceError {
    /// The process's stat line has no closing parenthesis.
    InvalidStatFormat,
    /// The field for time spent in user mode is missing or no number.
    MissingUtime,
    /// The field for time spent in kernel mode is missing or no number.
    MissingStime,
    /// The system's stat text is empty.
    EmptyStat,
    /// The resident set size is no number.
    NotANumber,
    /// A number or a sum does not fit in 64 bits.
    TooLarge,
}

/// Whether `c` is white space: the characters with the Unicode property
/// `White_Space`.
pub open spec fn is_space(c: char) -> bool {
    c == ' ' || ('\t' <= c && c <= '\r') || c == '\u{85}' || c == '\u{a0}' || c == '\u{1680}' || (
    '\u{2000}' <= c && c <= '\u{200a}') || c == '\u{2028}' || c == '\u{2029}' || c == '\u{202f}'
        || c == '\u{205f}' || c == '\u{3000}'
}

/// The first position at or after `from` that holds no white space.
pub open spec fn skip_spaces(s: Seq<char>, from: int) -> int
    decreases s.len() - from,
{
    if 0 <= from < s.len() && is_space(s[from]) {
        skip_spaces(s, from + 1)
    } else {
        from
    }
}

/// The first position at or after `from` that holds white space.
pub open spec fn field_end(s: Seq<char>, from: int) -> int
    decreases s.len() - from,
{
    if 0 <= from < s.len() && !is_space(s[from]) {
        field_end(s, from + 1)
    } else {
        from
    }
}

/// Where the field with number `n`, counted from zero, among those at or
/// after `from` begins and ends. Fields are the maximal runs of
/// characters that are not white space.
pub open spec fn nth_field(s: Seq<char>, from: int, n: nat) -> Option<(int, int)>
    decreases n,
{
    let start = skip_spaces(s, from);
    if start >= s.len() {
        None
    } else if n == 0 {
        Some((start, field_end(s, start)))
    } else {
        nth_field(s, field_end(s, start), (n - 1) as nat)
    }
}

/// The number in the field with number `n` among those at or after
/// `from`; `None` where there is no such field or it holds no number
/// that fits in 64 bits.
pub open spec fn field_number(s: Seq<char>, from: int, n: nat) -> Option<nat> {
    match nth_field(s, from, n) {
        Some((start, end)) => bounded_reading(s.subrange(start, end), u64::MAX as nat),
        None => None,
    }
}

/// The first position at or after `from` that holds a line feed.
pub open spec fn line_end(s: Seq<char>, from: int) -> int
    decreases s.len() - from,
{
    if 0 <= from < s.len() && s[from] != '\n' {
        line_end(s, from + 1)
    } else {
        from
    }
}

/// Whether a line begins at position `i`.
pub open spec fn is_line_start(s: Seq<char>, i: int) -> bool {
    i == 0 || (0 < i <= s.len() && s[i - 1] == '\n')
}

/// What a line says of the resident set size: nothing, unless it begins
/// with `VmRSS:` and has a second field; else that field's number of
/// kibibytes in bytes, or why it cannot be given.
pub open spec fn rss_of_line(line: Seq<char>) -> Option<Result<u64, ResourceError>> {
    if "VmRSS:"@.is_prefix_of(line) {
        match nth_field(line, 0, 1) {
            Some((start, end)) => Some(
                match bounded_reading(line.subrange(start, end), u64::MAX as nat) {
                    Some(kib) => if kib * 1024 <= u64::MAX {
                        Ok((kib * 1024) as u64)
                    } else {
                        Err(ResourceError::TooLarge)
                    },
                    None => Err(ResourceError::NotANumber),
                },
            ),
            None => None,
        }
    } else {
        None
    }
}

/// What the lines that begin at or after `from` say of the resident set
/// size: what the first of them that says anything says, and zero where
/// none does.
pub open spec fn rss_from(s: Seq<char>, from: int) -> Result<u64, ResourceError>
    decreases s.len() - from,
{
    if from < 0 || from >= s.len() {
        Ok(0)
    } else if is_line_start(s, from) && rss_of_line(s.subrange(from, line_end(s, from))) is Some {
        rss_of_line(s.subrange(from, line_end(s, from)))->0
    } else {
        rss_from(s, from + 1)
    }
}

/// The last position of `c` in `s`, and -1 where it does not occur.
pub open spec fn last_index_of(s: Seq<char>, c: char) -> int
    decreases s.len(),
{
    if s.len() == 0 {
        -1
    } else if s.last() == c {
        s.len() - 1
    } else {
        last_index_of(s.drop_last(), c)
    }
}

/// The ticks that a process has used, from its stat line: the sum of the
/// fields with numbers 11 and 12 behind the last closing parenthesis,
/// which are the times spent in user and in kernel mode.
pub open spec fn process_ticks_of(stat: Seq<char>) -> Result<u64, ResourceError> {
    let close = last_index_of(stat, ')');
    let utime = field_number(stat, close + 1, 11);
    let stime = field_number(stat, close + 1, 12);
    if close < 0 {
        Err(ResourceError::InvalidStatFormat)
    } else if utime is None {
        Err(ResourceError::MissingUtime)
    } else if stime is None {
        Err(ResourceError::MissingStime)
    } else if utime->0 + stime->0 > u64::MAX {
        Err(ResourceError::TooLarge)
    } else {
        Ok((utime->0 + stime->0) as u64)
    }
}

/// Whether a field begins at position `i`.
pub open spec fn is_field_start(s: Seq<char>, i: int) -> bool {
    0 <= i < s.len() && !is_space(s[i]) && (i == 0 || is_space(s[i - 1]))
}

/// The number in the field that begins at `i`, and zero where it holds
/// no number that fits in 64 bits.
pub open spec fn ticks_at(s: Seq<char>, i: int) -> nat {
    match bounded_reading(s.subrange(i, field_end(s, i)), u64::MAX as nat) {
        Some(n) => n,
        None => 0,
    }
}

/// The sum of the numbers in the fields that begin at or after `from`.
pub open spec fn ticks_from(s: Seq<char>, from: int) -> nat
    decreases s.len() - from,
{
    if from < 0 || from >= s.len() {
        0
    } else {
        (if is_field_start(s, from) {
            ticks_at(s, from)
        } else {
            0
        }) + ticks_from(s, from + 1)
    }
}

/// The ticks that the system has counted, from its stat text: the sum of
/// the numbers on the first line, its first field left out.
pub open spec fn system_ticks_of(stat: Seq<char>) -> Result<u64, ResourceError> {
    let line = stat.subrange(0, line_end(stat, 0));
    let total = match nth_field(line, 0, 0) {
        Some((start, end)) => ticks_from(line, end),
        None => 0,
    };
    if stat.len() == 0 {
        Err(ResourceError::EmptyStat)
    } else if total > u64::MAX {
        Err(ResourceError::TooLarge)
    } else {
        Ok(total as u64)
    }
}

/// Where no line that says anything begins between two positions, the
/// lines from the first say what the lines from the second say.
proof fn lemma_rss_skip(s: Seq<char>, a: int, b: int)
    requires
        0 <= a <= b <= s.len(),
        forall|j: int|
            a <= j < b ==> !(is_line_start(s, j) && #[trigger] rss_of_line(
                s.subrange(j, line_end(s, j)),
            ) is Some),
    ensures
        rss_from(s, a) == rss_from(s, b),
    decreases b - a,
{
    if a < b {
        lemma_rss_skip(s, a + 1, b);
    }
}

/// A character that occurs at `k` and nowhere behind it occurs last at
/// `k`; one that does not occur has no last position.
proof fn lemma_last_index(s: Seq<char>, c: char, k: int)
    requires
        -1 <= k < s.len(),
        k >= 0 ==> s[k] == c,
        forall|j: int| k < j < s.len() ==> s[j] != c,
    ensures
        last_index_of(s, c) == k,
    decreases s.len(),
{
    if s.len() > 0 && s.last() != c {
        lemma_last_index(s.drop_last(), c, k);
    }
}

/// Where no field begins between two positions, the sum from the first
/// is the sum from the second.
proof fn lemma_ticks_skip(s: Seq<char>, a: int, b: int)
    requires
        0 <= a <= b <= s.len(),
        forall|j: int| a <= j < b ==> !is_field_start(s, j),
    ensures
        ticks_from(s, a) == ticks_from(s, b),
    decreases b - a,
{
    if a < b {
        lemma_ticks_skip(s, a + 1, b);
    }
}

/// Whether `c` is white space.
fn is_space_char(c: char) -> (r: bool)
    ensures
        r == is_space(c),
{
    c == ' ' || ('\t' <= c && c <= '\r') || c == '\u{85}' || c == '\u{a0}' || c == '\u{1680}' || (
    '\u{2000}' <= c && c <= '\u{200a}') || c == '\u{2028}' || c == '\u{2029}' || c == '\u{202f}'
        || c == '\u{205f}' || c == '\u{3000}'
}

/// The next field at or after `from`, if there is one.
fn next_field(chars: &Vec<char>, from: usize) -> (r: Option<(usize, usize)>)
    requires
        from <= chars.len(),
    ensures
        match r {
            Some((start, end)) => {
                &&& from <= start < end <= chars.len()
                &&& start == skip_spaces(chars@, from as int)
                &&& end == field_end(chars@, start as int)
                &&& forall|j: int| from <= j < start ==> is_space(#[trigger] chars@[j])
                &&& forall|j: int| start <= j < end ==> !is_space(#[trigger] chars@[j])
                &&& (end < chars.len() ==> is_space(chars@[end as int]))
            },
            None => {
                &&& skip_spaces(chars@, from as int) >= chars.len()
                &&& forall|j: int| from <= j < chars.len() ==> is_space(#[trigger] chars@[j])
            },
        },
{
    let mut start: usize = from;
    while start < chars.len() && is_space_char(chars[start])
        invariant
            from <= start <= chars.len(),
            skip_spaces(chars@, from as int) == skip_spaces(chars@, start as int),
            forall|j: int| from <= j < start ==> is_space(#[trigger] chars@[j]),
        decreases chars.len() - start,
    {
        start += 1;
    }
    if start >= chars.len() {
        return None;
    }
    let mut end: usize = start + 1;
    assert(field_end(chars@, start as int) == field_end(chars@, start + 1));
    while end < chars.len() && !is_space_char(chars[end])
        invariant
            start < end <= chars.len(),
            field_end(chars@, start as int) == field_end(chars@, end as int),
            forall|j: int| start <= j < end ==> !is_space(#[trigger] chars@[j]),
        decreases chars.len() - end,
    {
        end += 1;
    }
    Some((start, end))
}

/// The field with number `n` among those at or after `from`.
fn find_field(chars: &Vec<char>, from: usize, n: usize) -> (r: Option<(usize, usize)>)
    requires
        from <= chars.len(),
    ensures
        match r {
            Some((start, end)) => from <= start < end <= chars.len() && nth_field(
                chars@,
                from as int,
                n as nat,
            ) == Some((start as int, end as int)),
            None => nth_field(chars@, from as int, n as nat) is None,
        },
{
    let mut pos: usize = from;
    let mut left: usize = n;
    loop
        invariant
            from <= pos <= chars.len(),
            left <= n,
            nth_field(chars@, from as int, n as nat) == nth_field(chars@, pos as int, left as nat),
        decreases left,
    {
        match next_field(chars, pos) {
            Some((start, end)) => {
                if left == 0 {
                    return Some((start, end));
                }
                pos = end;
                left -= 1;
            },
            None => {
                return None;
            },
        }
    }
}

/// The number in the field with number `n` among those at or after
/// `from`.
fn read_field(chars: &Vec<char>, from: usize, n: usize) -> (r: Option<u64>)
    requires
        from <= chars.len(),
    ensures
        match r {
            Some(v) => field_number(chars@, from as int, n as nat) == Some(v as nat),
            None => field_number(chars@, from as int, n as nat) is None,
        },
{
    match find_field(chars, from, n) {
        Some((start, end)) => {
            let field = slice_of(chars, start, end);
            read_bounded_chars(&field, u64::MAX)
        },
        None => None,
    }
}

/// Where the line that begins at `from` ends.
fn line_end_from(chars: &Vec<char>, from: usize) -> (end: usize)
    requires
        from <= chars.len(),
    ensures
        from <= end <= chars.len(),
        end == line_end(chars@, from as int),
        forall|j: int| from <= j < end ==> #[trigger] chars@[j] != '\n',
        end < chars.len() ==> chars@[end as int] == '\n',
{
    let mut end: usize = from;
    while end < chars.len() && chars[end] != '\n'
        invariant
            from <= end <= chars.len(),
            line_end(chars@, from as int) == line_end(chars@, end as int),
            forall|j: int| from <= j < end ==> #[trigger] chars@[j] != '\n',
        decreases chars.len() - end,
    {
        end += 1;
    }
    end
}

/// Whether `line` begins with `prefix`.
fn has_prefix(line: &Vec<char>, prefix: &Vec<char>) -> (r: bool)
    ensures
        r == prefix@.is_prefix_of(line@),
{
    if prefix.len() > line.len() {
        return false;
    }
    let mut i: usize = 0;
    while i < prefix.len()
        invariant
            i <= prefix.len() <= line.len(),
            prefix@.take(i as int) == line@.subrange(0, i as int),
        decreases prefix.len() - i,
    {
        if prefix[i] != line[i] {
            assert(prefix@[i as int] != line@.subrange(0, prefix.len() as int)[i as int]);
            return false;
        }
        proof {
            assert(prefix@.take(i + 1) == prefix@.take(i as int).push(prefix@[i as int]));
            assert(line@.subrange(0, i + 1) == line@.subrange(0, i as int).push(line@[i as int]));
        }
        i += 1;
    }
    proof {
        assert(prefix@.take(prefix.len() as int) == prefix@);
    }
    true
}

/// What a line says of the resident set size.
fn read_rss_line(line: &Vec<char>, prefix: &Vec<char>) -> (r: Option<Result<u64, ResourceError>>)
    requires
        prefix@ == "VmRSS:"@,
    ensures
        r == rss_of_line(line@),
{
    if !has_prefix(line, prefix) {
        return None;
    }
    match find_field(line, 0, 1) {
        Some((start, end)) => {
            let field = slice_of(line, start, end);
            match read_bounded_chars(&field, u64::MAX) {
                Some(kib) => match kib.checked_mul(1024) {
                    Some(bytes) => Some(Ok(bytes)),
                    None => Some(Err(ResourceError::TooLarge)),
                },
                None => Some(Err(ResourceError::NotANumber)),
            }
        },
        None => None,
    }
}

/// Reads the resident set size in bytes out of the text of a process's
/// status file: the number of kibibytes on the first line that begins
/// with `VmRSS:` and has a second field, times 1024. Gives zero where
/// there is no such line.
pub fn parse_memory_rss(status: &str) -> (r: Result<u64, ResourceError>)
    ensures
        r == rss_from(status@, 0),
{
    let chars = chars_of(status);
    let prefix = chars_of("VmRSS:");
    let mut i: usize = 0;
    while i < chars.len()
        invariant
            i <= chars.len(),
            chars@ == status@,
            prefix@ == "VmRSS:"@,
            is_line_start(chars@, i as int),
            rss_from(chars@, 0) == rss_from(chars@, i as int),
        decreases chars.len() - i,
    {
        let end = line_end_from(&chars, i);
        let line = slice_of(&chars, i, end);
        match read_rss_line(&line, &prefix) {
            Some(r) => {
                return r;
            },
            None => {},
        }
        if end == chars.len() {
            proof {
                lemma_rss_skip(chars@, i as int, chars.len() as int);
            }
            return Ok(0);
        }
        proof {
            lemma_rss_skip(chars@, i as int, end + 1);
        }
        i = end + 1;
    }
    Ok(0)
}

/// Reads the ticks that a process has used out of its stat line.
pub fn parse_process_ticks(stat: &str) -> (r: Result<u64, ResourceError>)
    ensures
        r == process_ticks_of(stat@),
{
    let chars = chars_of(stat);
    let mut i: usize = chars.len();
    while i > 0 && chars[i - 1] != ')'
        invariant
            i <= chars.len(),
            forall|j: int| i <= j < chars.len() ==> #[trigger] chars@[j] != ')',
        decreases i,
    {
        i -= 1;
    }
    proof {
        lemma_last_index(chars@, ')', i - 1);
    }
    if i == 0 {
        return Err(ResourceError::InvalidStatFormat);
    }
    let utime = match read_field(&chars, i, 11) {
        Some(v) => v,
        None => {
            return Err(ResourceError::MissingUtime);
        },
    };
    let stime = match read_field(&chars, i, 12) {
        Some(v) => v,
        None => {
            return Err(ResourceError::MissingStime);
        },
    };
    match utime.checked_add(stime) {
        Some(total) => Ok(total),
        None => Err(ResourceError::TooLarge),
    }
}

/// Reads the ticks that the system has counted out of its stat text.
pub fn parse_system_ticks(stat: &str) -> (r: Result<u64, ResourceError>)
    ensures
        r == system_ticks_of(stat@),
{
    let chars = chars_of(stat);
    if chars.len() == 0 {
        return Err(ResourceError::EmptyStat);
    }
    let line_stop = line_end_from(&chars, 0);
    let line = slice_of(&chars, 0, line_stop);
    let mut pos: usize = match next_field(&line, 0) {
        Some((start, end)) => end,
        None => {
            return Ok(0);
        },
    };
    let ghost total = ticks_from(line@, pos as int);
    let ghost first_end = pos as int;
    let mut sum: u64 = 0;
    loop
        invariant
            stat@.len() > 0,
            line@ == stat@.subrange(0, line_end(stat@, 0)),
            nth_field(line@, 0, 0) matches Some((start, end)) && end == first_end,
            total == ticks_from(line@, first_end),
            pos <= line.len(),
            pos < line.len() ==> is_space(line@[pos as int]),
            sum + ticks_from(line@, pos as int) == total,
        decreases line.len() - pos,
    {
        match next_field(&line, pos) {
            Some((start, end)) => {
                let field = slice_of(&line, start, end);
                let value: u64 = match read_bounded_chars(&field, u64::MAX) {
                    Some(v) => v,
                    None => 0,
                };
                proof {
                    assert(is_field_start(line@, start as int));
                    lemma_ticks_skip(line@, pos as int, start as int);
                    assert forall|j: int| start + 1 <= j < end implies !is_field_start(
                        line@,
                        j,
                    ) by {
                        assert(!is_space(line@[j - 1]));
                    }
                    lemma_ticks_skip(line@, start + 1, end as int);
                    assert(ticks_at(line@, start as int) == value);
                }
                sum = match sum.checked_add(value) {
                    Some(s) => s,
                    None => {
                        return Err(ResourceError::TooLarge);
                    },
                };
                pos = end;
            },
            None => {
                proof {
                    assert forall|j: int| pos <= j < line.len() implies !is_field_start(
                        line@,
                        j,
                    ) by {
                        assert(is_space(line@[j]));
                    }
                    lemma_ticks_skip(line@, pos as int, line.len() as int);
                }
                return Ok(sum);
            },
        }
    }
}

/// The tick counts of the previous reading.
#[derive(Clone, Copy, Debug, PartialEq, Eq, Structural)]
pub struct CpuTracker {
    pub last_proc_ticks: u64,
    pub last_sys_ticks: u64,
}

/// The ticks counted since the previous reading.
#[derive(Clone, Copy, Debug, PartialEq, Eq, Structural)]
pub struct TickDelta {
    pub process: u64,
    pub system: u64,
}

/// How many more ticks `current` counts than `last`, and zero where it
/// counts fewer.
pub open spec fn ticks_since(last: u64, current: u64) -> u64 {
    if current >= last {
        (current - last) as u64
    } else {
        0
    }
}

impl CpuTracker {
    /// A tracker that has read nothing yet.
    pub fn new() -> (tracker: CpuTracker)
        ensures
            tracker.last_proc_ticks == 0,
            tracker.last_sys_ticks == 0,
    {
        CpuTracker { last_proc_ticks: 0, last_sys_ticks: 0 }
    }

    /// Takes in a reading: gives the ticks counted since the previous
    /// one, and remembers this one.
    pub fn advance(&mut self, proc_ticks: u64, sys_ticks: u64) -> (delta: TickDelta)
        ensures
            delta.process == ticks_since(old(self).last_proc_ticks, proc_ticks),
            delta.system == ticks_since(old(self).last_sys_ticks, sys_ticks),
            final(self).last_proc_ticks == proc_ticks,
            final(self).last_sys_ticks == sys_ticks,
    {
        let delta = TickDelta {
            process: proc_ticks.saturating_sub(self.last_proc_ticks),
            system: sys_ticks.saturating_sub(self.last_sys_ticks),
        };
        self.last_proc_ticks = proc_ticks;
        self.last_sys_ticks = sys_ticks;
        delta
    }
}

} // verus!
