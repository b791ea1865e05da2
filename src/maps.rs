use crate::region::MemoryRegion;
use crate::text::{text_or_blank, utf8_or_empty};
use vstd::prelude::*;
use vstd::slice::slice_subrange;
use vstd::string::StringExecFns;

verus! {

// The memory-map table of a process lists one mapping per line:
// `BEGIN-END PERMS OFFSET DEVICE INODE [PATH]`, with BEGIN, END and OFFSET in
// hexadecimal without a prefix, INODE in decimal, fields separated by spaces.

pub open spec fn hex_digit(b: u8) -> Option<int> {
    if 0x30 <= b <= 0x39 {
        Some(b - 0x30)
    } else if 0x61 <= b <= 0x66 {
        Some(b - 0x61 + 10)
    } else if 0x41 <= b <= 0x46 {
        Some(b - 0x41 + 10)
    } else {
        None
    }
}

pub open spec fn is_dec_digit(b: u8) -> bool {
    0x30 <= b <= 0x39
}

/// The end of the run of hexadecimal digits that starts at `i`.
pub open spec fn hex_run_end(s: Seq<u8>, i: int) -> int
    decreases s.len() - i,
{
    if i < 0 || i >= s.len() || hex_digit(s[i]) is None {
        i
    } else {
        hex_run_end(s, i + 1)
    }
}

/// The end of the run of decimal digits that starts at `i`.
pub open spec fn dec_run_end(s: Seq<u8>, i: int) -> int
    decreases s.len() - i,
{
    if i < 0 || i >= s.len() || !is_dec_digit(s[i]) {
        i
    } else {
        dec_run_end(s, i + 1)
    }
}

/// The end of the run of spaces that starts at `i`.
pub open spec fn space_run_end(s: Seq<u8>, i: int) -> int
    decreases s.len() - i,
{
    if i < 0 || i >= s.len() || s[i] != 0x20 {
        i
    } else {
        space_run_end(s, i + 1)
    }
}

/// The end of the field that starts at `i`: the next space, or the end.
pub open spec fn field_end(s: Seq<u8>, i: int) -> int
    decreases s.len() - i,
{
    if i < 0 || i >= s.len() || s[i] == 0x20 {
        i
    } else {
        field_end(s, i + 1)
    }
}

/// The number that a run of hexadecimal digits denotes.
pub open spec fn hex_value(s: Seq<u8>) -> int
    decreases s.len(),
{
    if s.len() == 0 {
        0
    } else {
        hex_value(s.drop_last()) * 16 + match hex_digit(s.last()) {
            Some(d) => d,
            None => 0,
        }
    }
}

/// One mapping as the table lists it.
#[derive(Debug, Clone, Copy, PartialEq, Eq, Structural)]
pub struct MapsEntry {
    pub begin: usize,
    pub end: usize,
    /// The permissions begin with read permission.
    pub readable: bool,
    /// The mapping is backed by a file: its inode is not 0.
    pub file_backed: bool,
}

/// The fields of one line of the table, when it has the table's form and its
/// range is a valid, not reversed address range.
pub open spec fn parse_line(s: Seq<u8>) -> Option<MapsEntry> {
    let a = hex_run_end(s, 0);
    let b = hex_run_end(s, a + 1);
    let p0 = space_run_end(s, b);
    let p1 = field_end(s, p0);
    let o0 = space_run_end(s, p1);
    let o1 = hex_run_end(s, o0);
    let d0 = space_run_end(s, o1);
    let d1 = field_end(s, d0);
    let i0 = space_run_end(s, d1);
    let i1 = dec_run_end(s, i0);
    let begin = hex_value(s.subrange(0, a));
    let end = hex_value(s.subrange(a + 1, b));
    if a == 0 || a >= s.len() || s[a] != 0x2D || b == a + 1 || p0 == b || p1 == p0 || o0 == p1
        || o1 == o0 || d0 == o1 || d1 == d0 || i0 == d1 || i1 == i0 || (i1 < s.len() && s[i1]
        != 0x20) || begin > end || end > usize::MAX {
        None
    } else {
        Some(
            MapsEntry {
                begin: begin as usize,
                end: end as usize,
                readable: s[p0] == 0x72,
                file_backed: exists|k: int| i0 <= k < i1 && s[k] != 0x30,
            },
        )
    }
}

/// The end of the line that starts at `i`: the next newline, or the end.
pub open spec fn line_end(s: Seq<u8>, i: int) -> int
    decreases s.len() - i,
{
    if i < 0 || i >= s.len() || s[i] == 0x0A {
        i
    } else {
        line_end(s, i + 1)
    }
}

/// The readable, file-backed mappings of the lines from `i` on, each with the
/// text of its line.
pub open spec fn candidate_lines(s: Seq<u8>, i: int) -> Seq<(MapsEntry, Seq<u8>)>
    decreases s.len() - i,
    via candidate_lines_decreases
{
    if i < 0 || i >= s.len() {
        Seq::empty()
    } else {
        let j = line_end(s, i);
        let line = s.subrange(i, j);
        let here = match parse_line(line) {
            Some(e) => if e.readable && e.file_backed {
                seq![(e, line)]
            } else {
                Seq::empty()
            },
            None => Seq::empty(),
        };
        if j < s.len() {
            here + candidate_lines(s, j + 1)
        } else {
            here
        }
    }
}

#[via_fn]
proof fn candidate_lines_decreases(s: Seq<u8>, i: int) {
    if 0 <= i < s.len() {
        lemma_run_end_bounds(s, i);
    }
}

fn hex_digit_of(b: u8) -> (r: Option<usize>)
    ensures
        match hex_digit(b) {
            Some(d) => r == Some(d as usize),
            None => r is None,
        },
{
    if 0x30 <= b && b <= 0x39 {
        Some((b - 0x30) as usize)
    } else if 0x61 <= b && b <= 0x66 {
        Some((b - 0x61 + 10) as usize)
    } else if 0x41 <= b && b <= 0x46 {
        Some((b - 0x41 + 10) as usize)
    } else {
        None
    }
}

proof fn lemma_run_end_bounds(s: Seq<u8>, i: int)
    requires
        0 <= i <= s.len(),
    ensures
        i <= hex_run_end(s, i) <= s.len(),
        i <= dec_run_end(s, i) <= s.len(),
        i <= space_run_end(s, i) <= s.len(),
        i <= field_end(s, i) <= s.len(),
        i <= line_end(s, i) <= s.len(),
    decreases s.len() - i,
{
    if i < s.len() {
        lemma_run_end_bounds(s, i + 1);
    }
}

/// Scans the hexadecimal digits from `i`: where they end, and their value
/// when it fits in a `usize`.
fn scan_hex(s: &[u8], i: usize) -> (r: (usize, Option<usize>))
    requires
        i <= s@.len(),
    ensures
        r.0 == hex_run_end(s@, i as int),
        match r.1 {
            Some(v) => v == hex_value(s@.subrange(i as int, r.0 as int)),
            None => hex_value(s@.subrange(i as int, r.0 as int)) > usize::MAX,
        },
{
    let n = s.len();
    let mut j = i;
    let mut value: Option<usize> = Some(0);
    while j < n
        invariant
            n == s@.len(),
            i <= j <= n,
            hex_run_end(s@, i as int) == hex_run_end(s@, j as int),
            match value {
                Some(v) => v == hex_value(s@.subrange(i as int, j as int)),
                None => hex_value(s@.subrange(i as int, j as int)) > usize::MAX,
            },
        ensures
            i <= j <= n,
            hex_run_end(s@, i as int) == j,
            match value {
                Some(v) => v == hex_value(s@.subrange(i as int, j as int)),
                None => hex_value(s@.subrange(i as int, j as int)) > usize::MAX,
            },
        decreases n - j,
    {
        let d = match hex_digit_of(s[j]) {
            Some(d) => d,
            None => break,
        };
        let ghost prev = s@.subrange(i as int, j as int);
        assert(s@.subrange(i as int, j + 1).drop_last() =~= prev);
        value = match value {
            Some(v) => if v <= (usize::MAX - d) / 16 {
                Some(v * 16 + d)
            } else {
                None
            },
            None => None,
        };
        proof {
            lemma_hex_value_nonneg(prev);
        }
        j += 1;
    }
    (j, value)
}

proof fn lemma_hex_value_nonneg(s: Seq<u8>)
    ensures
        hex_value(s) >= 0,
    decreases s.len(),
{
    if s.len() > 0 {
        lemma_hex_value_nonneg(s.drop_last());
    }
}

fn skip_spaces(s: &[u8], i: usize) -> (r: usize)
    requires
        i <= s@.len(),
    ensures
        r == space_run_end(s@, i as int),
{
    let mut j = i;
    while j < s.len() && s[j] == 0x20
        invariant
            i <= j <= s@.len(),
            space_run_end(s@, i as int) == space_run_end(s@, j as int),
        decreases s@.len() - j,
    {
        j += 1;
    }
    j
}

fn skip_field(s: &[u8], i: usize) -> (r: usize)
    requires
        i <= s@.len(),
    ensures
        r == field_end(s@, i as int),
{
    let mut j = i;
    while j < s.len() && s[j] != 0x20
        invariant
            i <= j <= s@.len(),
            field_end(s@, i as int) == field_end(s@, j as int),
        decreases s@.len() - j,
    {
        j += 1;
    }
    j
}

/// Scans the decimal digits from `i`: where they end, and whether one of
/// them is not 0.
fn scan_dec_nonzero(s: &[u8], i: usize) -> (r: (usize, bool))
    requires
        i <= s@.len(),
    ensures
        r.0 == dec_run_end(s@, i as int),
        r.1 == exists|k: int| i <= k < r.0 && s@[k] != 0x30,
{
    let mut j = i;
    let mut nonzero = false;
    while j < s.len() && 0x30 <= s[j] && s[j] <= 0x39
        invariant
            i <= j <= s@.len(),
            dec_run_end(s@, i as int) == dec_run_end(s@, j as int),
            nonzero == exists|k: int| i <= k < j && s@[k] != 0x30,
        decreases s@.len() - j,
    {
        if s[j] != 0x30 {
            nonzero = true;
        }
        j += 1;
    }
    (j, nonzero)
}

/// Parses one line of the table.
pub fn parse_maps_line(s: &[u8]) -> (r: Option<MapsEntry>)
    ensures
        r == parse_line(s@),
        r matches Some(e) ==> e.begin <= e.end,
{
    let n = s.len();
    proof {
        lemma_run_end_bounds(s@, 0);
    }
    let (a, begin) = scan_hex(s, 0);
    if a == 0 || a >= n || s[a] != 0x2D {
        return None;
    }
    proof {
        lemma_run_end_bounds(s@, a + 1);
    }
    let (b, end) = scan_hex(s, a + 1);
    if b == a + 1 {
        return None;
    }
    proof {
        lemma_run_end_bounds(s@, b as int);
    }
    let p0 = skip_spaces(s, b);
    proof {
        lemma_run_end_bounds(s@, p0 as int);
    }
    let p1 = skip_field(s, p0);
    proof {
        lemma_run_end_bounds(s@, p1 as int);
    }
    let o0 = skip_spaces(s, p1);
    proof {
        lemma_run_end_bounds(s@, o0 as int);
    }
    let (o1, _offset) = scan_hex(s, o0);
    proof {
        lemma_run_end_bounds(s@, o1 as int);
    }
    let d0 = skip_spaces(s, o1);
    proof {
        lemma_run_end_bounds(s@, d0 as int);
    }
    let d1 = skip_field(s, d0);
    proof {
        lemma_run_end_bounds(s@, d1 as int);
    }
    let i0 = skip_spaces(s, d1);
    proof {
        lemma_run_end_bounds(s@, i0 as int);
    }
    let (i1, file_backed) = scan_dec_nonzero(s, i0);
    if p0 == b || p1 == p0 || o0 == p1 || o1 == o0 || d0 == o1 || d1 == d0 || i0 == d1 || i1 == i0
        || (i1 < n && s[i1] != 0x20) {
        return None;
    }
    match (begin, end) {
        (Some(begin), Some(end)) => {
            if begin > end {
                return None;
            }
            Some(MapsEntry { begin, end, readable: s[p0] == 0x72, file_backed })
        },
        _ => None,
    }
}

fn find_line_end(s: &[u8], i: usize) -> (r: usize)
    requires
        i <= s@.len(),
    ensures
        r == line_end(s@, i as int),
{
    let mut j = i;
    while j < s.len() && s[j] != 0x0A
        invariant
            i <= j <= s@.len(),
            line_end(s@, i as int) == line_end(s@, j as int),
        decreases s@.len() - j,
    {
        j += 1;
    }
    j
}

/// The region a candidate line of the table describes: its range, its
/// begin in hexadecimal as its name, and the line's text.
pub open spec fn region_matches_line(r: MemoryRegion, c: (MapsEntry, Seq<u8>)) -> bool {
    &&& r.wf()
    &&& r.begin == c.0.begin
    &&& r.end == c.0.end
    &&& r.data is None
    &&& !r.from_vec
    &&& r.debug_name@ == hex_text(c.0.begin as nat)
    &&& r.debug_info@ == text_or_blank(c.1)
}

/// The lowercase hexadecimal digits of `n`, without leading zeros.
pub open spec fn hex_text(n: nat) -> Seq<char>
    decreases n,
{
    if n < 16 {
        seq![hex_char(n)]
    } else {
        hex_text(n / 16) + seq![hex_char(n % 16)]
    }
}

pub open spec fn hex_char(d: nat) -> char {
    if d == 0 {
        '0'
    } else if d == 1 {
        '1'
    } else if d == 2 {
        '2'
    } else if d == 3 {
        '3'
    } else if d == 4 {
        '4'
    } else if d == 5 {
        '5'
    } else if d == 6 {
        '6'
    } else if d == 7 {
        '7'
    } else if d == 8 {
        '8'
    } else if d == 9 {
        '9'
    } else if d == 10 {
        'a'
    } else if d == 11 {
        'b'
    } else if d == 12 {
        'c'
    } else if d == 13 {
        'd'
    } else if d == 14 {
        'e'
    } else {
        'f'
    }
}

/// Relies on std's `{:x}` formatting: lowercase hexadecimal digits, without
/// leading zeros.
#[verifier::external_body]
pub(crate) fn lower_hex(n: usize) -> (r: String)
    ensures
        r@ == hex_text(n as nat),
{
    format!("{:x}", n)
}

/// The name of the file a region starting at `begin` is dumped to.
pub fn dump_file_name(begin: usize) -> (r: String)
    ensures
        r@ == hex_text(begin as nat) + ".bin"@,
{
    lower_hex(begin).concat(".bin")
}

/// The readable, file-backed regions that the memory-map table lists, in its
/// order. Lines that do not have the table's form are skipped.
pub fn get_memory_regions(maps: &[u8]) -> (r: Vec<MemoryRegion>)
    ensures
        r@.len() == candidate_lines(maps@, 0).len(),
        forall|k: int|
            0 <= k < r@.len() ==> region_matches_line(
                #[trigger] r@[k],
                candidate_lines(maps@, 0)[k],
            ),
{
    let n = maps.len();
    let mut regions: Vec<MemoryRegion> = Vec::new();
    let mut i: usize = 0;
    let ghost mut done: Seq<(MapsEntry, Seq<u8>)> = Seq::empty();
    while i < n
        invariant
            n == maps@.len(),
            i <= n,
            candidate_lines(maps@, 0) == done + candidate_lines(maps@, i as int),
            regions@.len() == done.len(),
            forall|k: int|
                0 <= k < regions@.len() ==> region_matches_line(#[trigger] regions@[k], done[k]),
        decreases n - i,
    {
        proof {
            lemma_run_end_bounds(maps@, i as int);
        }
        let j = find_line_end(maps, i);
        let line = slice_subrange(maps, i, j);
        let ghost line_view = maps@.subrange(i as int, j as int);
        let ghost before = regions@;
        let ghost done_before = done;
        match parse_maps_line(line) {
            Some(e) => {
                if e.readable && e.file_backed {
                    let name = lower_hex(e.begin);
                    let info = utf8_or_empty(line);
                    let reg = MemoryRegion::new(e.begin, e.end, name.as_str(), info.as_str());
                    regions.push(reg);
                    proof {
                        done = done + seq![(e, line_view)];
                        assert forall|k: int| 0 <= k < regions@.len() implies region_matches_line(
                            #[trigger] regions@[k],
                            done[k],
                        ) by {
                            if k < before.len() {
                                assert(regions@[k] == before[k]);
                            }
                        }
                    }
                }
            },
            None => {},
        }
        i = if j < n {
            j + 1
        } else {
            n
        };
        assert(candidate_lines(maps@, 0) =~= done + candidate_lines(maps@, i as int));
    }
    regions
}

} // verus!
