//! The table of known builds: its text form and the exact-match lookup.

use crate::text::chars_of;
use vstd::prelude::*;
use vstd::string::StrSliceExecFns;
use vstd::string::StringExecFns;

verus! {

/// One row of the table: a build time and the release it belongs to.
#[derive(Debug, Clone, PartialEq, Eq)]
pub struct VersionRecord {
    pub build_timestamp: String,
    pub version_string: String,
}

impl View for VersionRecord {
    type V = (Seq<char>, Seq<char>);

    open spec fn view(&self) -> (Seq<char>, Seq<char>) {
        (self.build_timestamp@, self.version_string@)
    }
}

/// The rows of the table, in the order of its text.
#[derive(Debug, Clone, PartialEq, Eq)]
pub struct VersionCatalog {
    pub records: Vec<VersionRecord>,
}

impl View for VersionCatalog {
    type V = Seq<(Seq<char>, Seq<char>)>;

    open spec fn view(&self) -> Seq<(Seq<char>, Seq<char>)> {
        Seq::new(self.records@.len(), |i: int| self.records@[i]@)
    }
}

/// How many characters stand at `from` before the next `sep` or the end.
pub open spec fn run_len(s: Seq<char>, sep: char, from: int) -> nat
    decreases s.len() - from,
{
    if from < 0 || from >= s.len() || s[from] == sep {
        0
    } else {
        1 + run_len(s, sep, from + 1)
    }
}

/// The row that a line stands for: a line of exactly four comma-separated
/// fields gives its first and its last field, any other line gives nothing.
pub open spec fn record_of_line(line: Seq<char>) -> Option<(Seq<char>, Seq<char>)> {
    let c1 = run_len(line, ',', 0) as int;
    let c2 = c1 + 1 + run_len(line, ',', c1 + 1);
    let c3 = c2 + 1 + run_len(line, ',', c2 + 1);
    let c4 = c3 + 1 + run_len(line, ',', c3 + 1);
    if c3 < line.len() && c4 >= line.len() {
        Some((line.subrange(0, c1), line.subrange(c3 + 1, line.len() as int)))
    } else {
        None
    }
}

/// Where the line that occupies `from..end` of the text stops, once a
/// carriage return before its line feed is left out.
pub open spec fn line_stop(text: Seq<char>, from: int, end: int) -> int {
    if from < end < text.len() && text[end - 1] == '\r' {
        end - 1
    } else {
        end
    }
}

/// The rows of the lines that start at or after `from`.
pub open spec fn records_from(text: Seq<char>, from: int) -> Seq<(Seq<char>, Seq<char>)>
    decreases text.len() - from,
{
    if from < 0 || from >= text.len() {
        Seq::empty()
    } else {
        let end = from + run_len(text, '\n', from);
        let line = text.subrange(from, line_stop(text, from, end));
        let here = match record_of_line(line) {
            Some(record) => seq![record],
            None => Seq::empty(),
        };
        if end >= text.len() {
            here
        } else {
            here + records_from(text, end + 1)
        }
    }
}

/// The rows of a table text.
pub open spec fn records_of(text: Seq<char>) -> Seq<(Seq<char>, Seq<char>)> {
    records_from(text, 0)
}

/// Row `i` is the first one with the build time `timestamp`.
pub open spec fn is_first_match(
    records: Seq<(Seq<char>, Seq<char>)>,
    timestamp: Seq<char>,
    i: int,
) -> bool {
    &&& 0 <= i < records.len()
    &&& records[i].0 == timestamp
    &&& forall|j: int| 0 <= j < i ==> (#[trigger] records[j]).0 != timestamp
}

/// The release of the first row with the build time `timestamp`.
pub open spec fn lookup_in(records: Seq<(Seq<char>, Seq<char>)>, timestamp: Seq<char>) -> Option<
    Seq<char>,
> {
    if exists|i: int| is_first_match(records, timestamp, i) {
        Some(records[choose|i: int| is_first_match(records, timestamp, i)].1)
    } else {
        None
    }
}

/// A build time that no row holds resolves to nothing.
pub proof fn lookup_unmatched(records: Seq<(Seq<char>, Seq<char>)>, timestamp: Seq<char>)
    requires
        forall|j: int| 0 <= j < records.len() ==> (#[trigger] records[j]).0 != timestamp,
    ensures
        lookup_in(records, timestamp) is None,
{
}

/// The first row that holds a build time decides, whatever follows it.
pub proof fn lookup_first_match(
    records: Seq<(Seq<char>, Seq<char>)>,
    timestamp: Seq<char>,
    i: int,
)
    requires
        is_first_match(records, timestamp, i),
    ensures
        lookup_in(records, timestamp) == Some(records[i].1),
{
    let c = choose|c: int| is_first_match(records, timestamp, c);
    assert(is_first_match(records, timestamp, c));
    if c < i {
        assert(records[c].0 != timestamp);
    }
    if i < c {
        assert(records[i].0 != timestamp);
    }
}

/// The position of the next `sep` at or after `from`, or the length.
fn find_from(cs: &Vec<char>, sep: char, from: usize) -> (end: usize)
    ensures
        from <= cs@.len() ==> end == from + run_len(cs@, sep, from as int),
        from > cs@.len() ==> end == cs@.len(),
        end <= cs@.len(),
{
    if from > cs.len() {
        return cs.len();
    }
    let mut i: usize = from;
    while i < cs.len() && cs[i] != sep
        invariant
            from <= i <= cs@.len(),
            run_len(cs@, sep, from as int) == (i - from) + run_len(cs@, sep, i as int),
        decreases cs@.len() - i,
    {
        i = i + 1;
    }
    i
}

/// Reads one line of the table.
pub fn parse_line(line: &str) -> (record: Option<VersionRecord>)
    ensures
        record.is_some() == record_of_line(line@).is_some(),
        record matches Some(r) ==> record_of_line(line@) == Some(r@),
{
    let cs = chars_of(line);
    let n = cs.len();
    let c1 = find_from(&cs, ',', 0);
    if c1 >= n {
        return None;
    }
    let c2 = find_from(&cs, ',', c1 + 1);
    if c2 >= n {
        return None;
    }
    let c3 = find_from(&cs, ',', c2 + 1);
    if c3 >= n {
        return None;
    }
    let c4 = find_from(&cs, ',', c3 + 1);
    if c4 < n {
        return None;
    }
    let first = line.substring_char(0, c1);
    let last = line.substring_char(c3 + 1, n);
    Some(
        VersionRecord {
            build_timestamp: String::from_str(first),
            version_string: String::from_str(last),
        },
    )
}

/// Reads the table: one row for each line of exactly four comma-separated
/// fields, in the order of the lines; every other line is passed over.
pub fn parse_source(text: &str) -> (catalog: VersionCatalog)
    ensures
        catalog@ == records_of(text@),
{
    let cs = chars_of(text);
    let n = cs.len();
    let mut records: Vec<VersionRecord> = Vec::new();
    let mut from: usize = 0;
    while from < n
        invariant
            cs@ == text@,
            n == cs@.len(),
            from <= n,
            records_of(text@) =~= Seq::new(records@.len(), |i: int| records@[i]@) + records_from(
                text@,
                from as int,
            ),
        decreases n - from,
    {
        let end = find_from(&cs, '\n', from);
        let stop = if from < end && end < n && cs[end - 1] == '\r' {
            end - 1
        } else {
            end
        };
        let ghost before = Seq::new(records@.len(), |i: int| records@[i]@);
        match parse_line(text.substring_char(from, stop)) {
            Some(record) => {
                records.push(record);
                assert(Seq::new(records@.len(), |i: int| records@[i]@) =~= before + seq![record@]);
            },
            None => {},
        }
        if end >= n {
            from = n;
        } else {
            from = end + 1;
        }
    }
    let catalog = VersionCatalog { records };
    assert(catalog@ =~= records_of(text@));
    catalog
}

impl VersionCatalog {
    /// The release of the first row whose build time is exactly `timestamp`.
    pub fn lookup(&self, timestamp: &str) -> (version: Option<String>)
        ensures
            version.is_some() == lookup_in(self@, timestamp@).is_some(),
            version matches Some(v) ==> lookup_in(self@, timestamp@) == Some(v@),
    {
        let key = String::from_str(timestamp);
        let mut i: usize = 0;
        while i < self.records.len()
            invariant
                key@ == timestamp@,
                i <= self.records@.len(),
                forall|j: int| 0 <= j < i ==> (#[trigger] self@[j]).0 != timestamp@,
            decreases self.records@.len() - i,
        {
            assert(self@[i as int] == self.records@[i as int]@);
            if self.records[i].build_timestamp == key {
                proof {
                    lookup_first_match(self@, timestamp@, i as int);
                }
                return Some(self.records[i].version_string.clone());
            }
            i = i + 1;
        }
        proof {
            lookup_unmatched(self@, timestamp@);
        }
        None
    }
}

} // verus!
