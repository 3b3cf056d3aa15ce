//! The log viewer of the admin pages: reading log lines and picking the
//! entries to show.
use vstd::prelude::*;
use crate::text::{chars_of, string_of, copy_range, split_all, split_all_exec, splitn, splitn_char, trim, trim_bounds,
    find, find_from, views, parse_unsigned, parse_unsigned_exec};

verus! {

/// One line of the log: `[timestamp level target message...`.
pub struct LogEntry {
    pub timestamp: String,
    pub level: String,
    pub target: String,
    pub message: String,
}

pub struct LogFields {
    pub timestamp: Seq<char>,
    pub level: Seq<char>,
    pub target: Seq<char>,
    pub message: Seq<char>,
}

impl View for LogEntry {
    type V = LogFields;

    open spec fn view(&self) -> LogFields {
        LogFields { timestamp: self.timestamp@, level: self.level@, target: self.target@, message: self.message@ }
    }
}

/// `s` without leading `c`s.
pub open spec fn strip_start(s: Seq<char>, c: char) -> Seq<char>
    decreases s.len(),
{
    if s.len() > 0 && s[0] == c { strip_start(s.drop_first(), c) } else { s }
}

/// `s` without trailing `c`s.
pub open spec fn strip_end(s: Seq<char>, c: char) -> Seq<char>
    decreases s.len(),
{
    if s.len() > 0 && s.last() == c { strip_end(s.drop_last(), c) } else { s }
}

/// The entry a line holds: the trimmed line split at its first three spaces;
/// the timestamp loses its brackets, level and target their white space, and
/// the message is the rest of the line. A line with fewer than four parts holds none.
pub open spec fn log_entry(line: Seq<char>) -> Option<LogFields> {
    let t = trim(line);
    let parts = splitn_char(t, 4, ' ');
    if t.len() == 0 || parts.len() < 4 {
        None
    } else {
        Some(LogFields {
            timestamp: strip_end(strip_start(parts[0], '['), '['),
            level: trim(parts[1]),
            target: trim(parts[2]),
            message: parts[3],
        })
    }
}

/// `pat` occurs in `s` (`str::contains`).
pub open spec fn contains(s: Seq<char>, pat: Seq<char>) -> bool {
    find_from(s, pat, 0) is Some
}

/// An entry is shown where no filter is set, or where its message or its
/// target holds the filter.
pub open spec fn shown(e: LogFields, filter: Seq<char>) -> bool {
    filter.len() == 0 || contains(e.message, filter) || contains(e.target, filter)
}

/// The entries of the lines `ls` that pass the filter, in order.
pub open spec fn kept(ls: Seq<Seq<char>>, filter: Seq<char>) -> Seq<LogFields>
    decreases ls.len(),
{
    if ls.len() == 0 {
        Seq::<LogFields>::empty()
    } else {
        let r = kept(ls.drop_last(), filter);
        match log_entry(ls.last()) {
            Some(e) => if shown(e, filter) { r.push(e) } else { r },
            None => r,
        }
    }
}

/// The last `n` of the entries of `content` that pass the filter (all of them
/// where there are fewer), oldest first.
pub open spec fn tail_entries(content: Seq<char>, filter: Seq<char>, n: nat) -> Seq<LogFields> {
    let all = kept(split_all(content, '\n'), filter);
    if all.len() <= n { all } else { all.skip(all.len() - n) }
}

fn strip_bounds(s: &Vec<char>, c: char) -> (r: (usize, usize))
    ensures
        r.0 <= r.1 <= s.len(),
        s@.subrange(r.0 as int, r.1 as int) == strip_end(strip_start(s@, c), c),
{
    let mut i: usize = 0;
    assert(s@.subrange(0, s@.len() as int) =~= s@);
    while i < s.len() && s[i] == c
        invariant
            0 <= i <= s.len(),
            strip_start(s@, c) == strip_start(s@.subrange(i as int, s@.len() as int), c),
        decreases s.len() - i,
    {
        assert(s@.subrange(i as int, s@.len() as int).drop_first() =~= s@.subrange(i + 1, s@.len() as int));
        i += 1;
    }
    let mut j = s.len();
    while j > i && s[j - 1] == c
        invariant
            0 <= i <= j <= s.len(),
            strip_end(strip_start(s@, c), c) == strip_end(s@.subrange(i as int, j as int), c),
        decreases j - i,
    {
        assert(s@.subrange(i as int, j as int).drop_last() =~= s@.subrange(i as int, j - 1));
        j -= 1;
    }
    (i, j)
}

fn trimmed(s: &String) -> (r: String)
    ensures r@ == trim(s@),
{
    let cs = chars_of(s.as_str());
    let (a, b) = trim_bounds(&cs, 0, cs.len());
    assert(cs@.subrange(0, cs@.len() as int) =~= cs@);
    string_of(&copy_range(&cs, a, b))
}

/// Reads the entry a log line holds.
pub fn parse_line(line: &str) -> (r: Option<LogEntry>)
    ensures
        match r {
            Some(e) => log_entry(line@) == Some(e@),
            None => log_entry(line@) is None,
        },
{
    let cs = chars_of(line);
    let (a, b) = trim_bounds(&cs, 0, cs.len());
    assert(cs@.subrange(0, cs@.len() as int) =~= cs@);
    if a == b {
        return None;
    }
    let t = string_of(&copy_range(&cs, a, b));
    let parts = splitn(t.as_str(), 4, ' ');
    if parts.len() < 4 {
        return None;
    }
    let ts = chars_of(parts[0].as_str());
    let (x, y) = strip_bounds(&ts, '[');
    Some(LogEntry {
        timestamp: string_of(&copy_range(&ts, x, y)),
        level: trimmed(&parts[1]),
        target: trimmed(&parts[2]),
        message: parts[3].clone(),
    })
}

fn contains_exec(s: &String, pat: &str) -> (b: bool)
    ensures b == contains(s@, pat@),
{
    find(&chars_of(s.as_str()), &chars_of(pat), 0).is_some()
}

/// The entries the log viewer shows: of the entries in `content` whose
/// message or target holds `filter` (every entry where `filter` is empty),
/// the last `lines`, oldest first.
pub fn select_entries(content: &str, filter: &str, lines: usize) -> (r: Vec<LogEntry>)
    ensures r@.map_values(|e: LogEntry| e@) == tail_entries(content@, filter@, lines as nat),
{
    let ls = split_all_exec(content, '\n');
    let ghost lv = views(ls@);
    let no_filter = filter.is_empty();
    let mut all: Vec<LogEntry> = Vec::new();
    let mut k: usize = 0;
    while k < ls.len()
        invariant
            lv == views(ls@),
            lv == split_all(content@, '\n'),
            no_filter == (filter@.len() == 0),
            0 <= k <= ls.len(),
            all@.map_values(|e: LogEntry| e@) == kept(lv.take(k as int), filter@),
        decreases ls.len() - k,
    {
        assert(lv.take(k + 1).drop_last() =~= lv.take(k as int));
        assert(lv.take(k + 1).last() == ls@[k as int]@);
        let ghost before = all@.map_values(|e: LogEntry| e@);
        match parse_line(ls[k].as_str()) {
            Some(e) => {
                if no_filter || contains_exec(&e.message, filter) || contains_exec(&e.target, filter) {
                    let ghost ev = e@;
                    all.push(e);
                    assert(all@.map_values(|e: LogEntry| e@) =~= before.push(ev));
                }
            }
            None => {}
        }
        k += 1;
    }
    assert(lv.take(k as int) =~= lv);
    let ghost kv = all@.map_values(|e: LogEntry| e@);
    let start = if all.len() <= lines { 0 } else { all.len() - lines };
    let mut all = all;
    let rest: Vec<LogEntry> = all.split_off(start);
    assert(rest@.map_values(|e: LogEntry| e@) =~= kv.skip(start as int));
    if start == 0 {
        assert(kv.skip(0) =~= kv);
    }
    rest
}

/// How many entries the log viewer shows: the `lines` parameter where it is
/// a number, 50 otherwise.
pub fn log_line_count(lines: Option<&str>) -> (n: usize)
    ensures n == (match lines {
        Some(t) => match parse_unsigned(t@, usize::MAX as u64) {
            Some(v) => v as usize,
            None => 50usize,
        },
        None => 50usize,
    }),
{
    match lines {
        Some(t) => match parse_unsigned_exec(t, usize::MAX as u64) {
            Some(v) => v as usize,
            None => 50,
        },
        None => 50,
    }
}

} // verus!
