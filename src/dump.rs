use crate::anchor::{first_match_offset, first_region_from};
use crate::maps::{dump_file_name, hex_char, hex_text};
use crate::pattern::{signature_slots, PatternType};
use crate::region::{region_bytes, MemoryRegion};
use vstd::prelude::*;
use vstd::slice::slice_to_vec;
use vstd::string::StrSliceExecFns;

verus! {

/// One file of a memory dump: its name within the dump directory, its path
/// for diagnostics, and the region's bytes.
#[derive(Debug, Clone)]
pub struct DumpFile {
    pub name: String,
    pub path: String,
    pub data: Vec<u8>,
}

/// The name and bytes of the file each region that holds bytes is dumped
/// to: its begin in hexadecimal, with the suffix ".bin".
pub open spec fn dump_spec(regions: Seq<MemoryRegion>) -> Seq<(Seq<char>, Seq<u8>)>
    decreases regions.len(),
{
    if regions.len() == 0 {
        Seq::empty()
    } else {
        let last = regions.last();
        let rest = dump_spec(regions.drop_last());
        if last.data is Some {
            rest.push((hex_text(last.begin as nat) + ".bin"@, region_bytes(last)))
        } else {
            rest
        }
    }
}

/// The files of a dump of the regions, in the regions' order; regions
/// without bytes are left out.
pub fn dump_files(regions: &Vec<MemoryRegion>) -> (r: Vec<DumpFile>)
    ensures
        r@.len() == dump_spec(regions@).len(),
        forall|i: int|
            0 <= i < r@.len() ==> (#[trigger] r@[i]).name@ == dump_spec(regions@)[i].0 && r@[i].path@
                == dump_spec(regions@)[i].0 && r@[i].data@ == dump_spec(regions@)[i].1,
{
    let mut files: Vec<DumpFile> = Vec::new();
    let mut i: usize = 0;
    while i < regions.len()
        invariant
            i <= regions@.len(),
            files@.len() == dump_spec(regions@.subrange(0, i as int)).len(),
            forall|k: int|
                0 <= k < files@.len() ==> (#[trigger] files@[k]).name@ == dump_spec(
                    regions@.subrange(0, i as int),
                )[k].0 && files@[k].path@ == dump_spec(regions@.subrange(0, i as int))[k].0
                    && files@[k].data@ == dump_spec(regions@.subrange(0, i as int))[k].1,
        decreases regions@.len() - i,
    {
        let ghost prefix = regions@.subrange(0, i + 1);
        assert(prefix.drop_last() =~= regions@.subrange(0, i as int));
        let region = &regions[i];
        match &region.data {
            Some(d) => {
                let name = dump_file_name(region.begin);
                let path = dump_file_name(region.begin);
                files.push(DumpFile { name, path, data: slice_to_vec(d.as_slice()) });
            },
            None => {},
        }
        i += 1;
    }
    assert(regions@.subrange(0, i as int) =~= regions@);
    files
}

/// Rebuilds the regions of a dump, one per file, in the files' order. Each
/// starts at 0 and holds the file's bytes.
pub fn load_dump(files: Vec<DumpFile>) -> (r: Vec<MemoryRegion>)
    ensures
        r@.len() == files@.len(),
        forall|i: int|
            0 <= i < r@.len() ==> {
                &&& (#[trigger] r@[i]).wf()
                &&& r@[i].begin == 0
                &&& r@[i].from_vec
                &&& r@[i].data is Some
                &&& region_bytes(r@[i]) == files@[i].data@
                &&& r@[i].debug_name@ == files@[i].name@
                &&& r@[i].debug_info@ == files@[i].path@
            },
{
    let mut regions: Vec<MemoryRegion> = Vec::new();
    let mut i: usize = 0;
    while i < files.len()
        invariant
            i <= files@.len(),
            regions@.len() == i,
            forall|k: int|
                0 <= k < i ==> {
                    &&& (#[trigger] regions@[k]).wf()
                    &&& regions@[k].begin == 0
                    &&& regions@[k].from_vec
                    &&& regions@[k].data is Some
                    &&& region_bytes(regions@[k]) == files@[k].data@
                    &&& regions@[k].debug_name@ == files@[k].name@
                    &&& regions@[k].debug_info@ == files@[k].path@
                },
        decreases files@.len() - i,
    {
        let f = &files[i];
        let reg = MemoryRegion::from_vec(
            slice_to_vec(f.data.as_slice()),
            f.name.as_str(),
            f.path.as_str(),
        );
        regions.push(reg);
        i += 1;
    }
    regions
}

/// Where a signature's first match lies in a region set: the index of the
/// first region that has one, and its offset there.
pub open spec fn match_site(regions: Seq<MemoryRegion>, kind: PatternType) -> (int, int) {
    let sig = signature_slots(kind);
    let i = first_region_from(regions, sig, 0);
    (i, if 0 <= i < regions.len() {
        first_match_offset(region_bytes(regions[i]), sig)
    } else {
        0
    })
}

proof fn lemma_same_bytes_same_first_region(
    a: Seq<MemoryRegion>,
    b: Seq<MemoryRegion>,
    sig: Seq<Option<u8>>,
    i: int,
)
    requires
        a.len() == b.len(),
        0 <= i <= a.len(),
        forall|k: int| 0 <= k < a.len() ==> region_bytes(#[trigger] a[k]) == region_bytes(b[k]),
    ensures
        first_region_from(a, sig, i) == first_region_from(b, sig, i),
    decreases a.len() - i,
{
    if i < a.len() {
        assert(region_bytes(a[i]) == region_bytes(b[i]));
        lemma_same_bytes_same_first_region(a, b, sig, i + 1);
    }
}

proof fn lemma_dump_spec_all(regions: Seq<MemoryRegion>)
    requires
        forall|k: int| 0 <= k < regions.len() ==> (#[trigger] regions[k]).data is Some,
    ensures
        dump_spec(regions).len() == regions.len(),
        forall|k: int|
            0 <= k < regions.len() ==> (#[trigger] dump_spec(regions)[k]).1 == region_bytes(
                regions[k],
            ),
    decreases regions.len(),
{
    if regions.len() > 0 {
        let rest = regions.drop_last();
        assert forall|k: int| 0 <= k < rest.len() implies (#[trigger] rest[k]).data is Some by {
            assert(rest[k] == regions[k]);
        }
        lemma_dump_spec_all(rest);
        assert(regions.last().data is Some);
        assert forall|k: int| 0 <= k < regions.len() implies (#[trigger] dump_spec(
            regions,
        )[k]).1 == region_bytes(regions[k]) by {
            if k < rest.len() {
                assert(rest[k] == regions[k]);
            }
        }
    }
}

/// Dumping a region set whose regions all hold bytes, then loading the dump
/// back, gives one region per dumped region with the same bytes, in the
/// same order; every signature is then found in the same region, at the
/// same offset.
pub proof fn lemma_dump_round_trip(regions: Seq<MemoryRegion>, loaded: Seq<MemoryRegion>)
    requires
        forall|k: int| 0 <= k < regions.len() ==> (#[trigger] regions[k]).data is Some,
        loaded.len() == dump_spec(regions).len(),
        forall|k: int|
            0 <= k < loaded.len() ==> region_bytes(#[trigger] loaded[k]) == dump_spec(regions)[k].1,
    ensures
        loaded.len() == regions.len(),
        forall|k: int|
            0 <= k < loaded.len() ==> region_bytes(#[trigger] loaded[k]) == region_bytes(regions[k]),
        forall|kind: PatternType| #[trigger] match_site(loaded, kind) == match_site(regions, kind),
{
    lemma_dump_spec_all(regions);
    assert forall|k: int| 0 <= k < loaded.len() implies region_bytes(#[trigger] loaded[k])
        == region_bytes(regions[k]) by {
        assert(dump_spec(regions)[k].1 == region_bytes(regions[k]));
    }
    assert forall|kind: PatternType| #[trigger] match_site(loaded, kind) == match_site(
        regions,
        kind,
    ) by {
        let sig = signature_slots(kind);
        lemma_same_bytes_same_first_region(loaded, regions, sig, 0);
        let i = first_region_from(regions, sig, 0);
        if 0 <= i < regions.len() {
            assert(region_bytes(loaded[i]) == region_bytes(regions[i]));
        }
    }
}

pub open spec fn hex_char_value(c: char) -> Option<int> {
    if '0' <= c <= '9' {
        Some(c as int - '0' as int)
    } else if 'a' <= c <= 'f' {
        Some(c as int - 'a' as int + 10)
    } else {
        None
    }
}

/// The number that a run of lowercase hexadecimal digits denotes.
pub open spec fn hex_chars_value(s: Seq<char>) -> int
    decreases s.len(),
{
    if s.len() == 0 {
        0
    } else {
        hex_chars_value(s.drop_last()) * 16 + match hex_char_value(s.last()) {
            Some(d) => d,
            None => 0,
        }
    }
}

/// The begin address a dump file's name gives: lowercase hexadecimal digits
/// followed by ".bin", with a value that is a valid address.
pub open spec fn dump_name_begin(name: Seq<char>) -> Option<int> {
    let n = name.len() as int;
    let digits = name.subrange(0, n - 4);
    if n > 4 && name.subrange(n - 4, n) == ".bin"@ && (forall|i: int|
        0 <= i < n - 4 ==> (#[trigger] hex_char_value(name[i])) is Some) && hex_chars_value(digits)
        <= usize::MAX {
        Some(hex_chars_value(digits))
    } else {
        None
    }
}

proof fn lemma_hex_chars_value_nonneg(s: Seq<char>)
    ensures
        hex_chars_value(s) >= 0,
    decreases s.len(),
{
    if s.len() > 0 {
        lemma_hex_chars_value_nonneg(s.drop_last());
    }
}

/// The begin address a dump file's name gives, which orders the files of a
/// dump as the regions were ordered.
pub fn dump_file_begin(name: &str) -> (r: Option<usize>)
    ensures
        match dump_name_begin(name@) {
            Some(v) => r == Some(v as usize),
            None => r is None,
        },
{
    proof {
        reveal_strlit(".bin");
    }
    let n = name.unicode_len();
    if n <= 4 {
        return None;
    }
    let m = n - 4;
    if name.get_char(m) != '.' || name.get_char(m + 1) != 'b' || name.get_char(m + 2) != 'i'
        || name.get_char(m + 3) != 'n' {
        assert(name@.subrange(m as int, n as int) != ".bin"@) by {
            if name@.subrange(m as int, n as int) == ".bin"@ {
                assert(name@.subrange(m as int, n as int)[0] == '.');
                assert(name@.subrange(m as int, n as int)[1] == 'b');
                assert(name@.subrange(m as int, n as int)[2] == 'i');
                assert(name@.subrange(m as int, n as int)[3] == 'n');
            }
        }
        return None;
    }
    assert(name@.subrange(m as int, n as int) =~= ".bin"@);
    let mut value: usize = 0;
    let mut i: usize = 0;
    while i < m
        invariant
            m + 4 == n,
            n == name@.len(),
            i <= m,
            forall|k: int| 0 <= k < i ==> (#[trigger] hex_char_value(name@[k])) is Some,
            value == hex_chars_value(name@.subrange(0, i as int)),
        decreases m - i,
    {
        let c = name.get_char(i);
        let d: usize = if '0' <= c && c <= '9' {
            (c as u32 - '0' as u32) as usize
        } else if 'a' <= c && c <= 'f' {
            (c as u32 - 'a' as u32 + 10) as usize
        } else {
            assert(hex_char_value(name@[i as int]) is None);
            return None;
        };
        assert(name@.subrange(0, i + 1).drop_last() =~= name@.subrange(0, i as int));
        if value > (usize::MAX - d) / 16 {
            proof {
                lemma_hex_chars_value_grows(name@.subrange(0, m as int), i + 1);
                assert(name@.subrange(0, m as int).subrange(0, i + 1) =~= name@.subrange(0, i + 1));
            }
            return None;
        }
        value = value * 16 + d;
        i += 1;
    }
    assert(name@.subrange(0, m as int) =~= name@.subrange(0, n - 4));
    Some(value)
}

/// A longer run of digits never denotes a smaller number.
proof fn lemma_hex_chars_value_grows(s: Seq<char>, i: int)
    requires
        0 <= i <= s.len(),
    ensures
        hex_chars_value(s.subrange(0, i)) <= hex_chars_value(s),
    decreases s.len() - i,
{
    if i < s.len() {
        lemma_hex_chars_value_grows(s, i + 1);
        let t = s.subrange(0, i + 1);
        assert(t.drop_last() =~= s.subrange(0, i));
        lemma_hex_chars_value_nonneg(s.subrange(0, i));
    } else {
        assert(s.subrange(0, i) =~= s);
    }
}

proof fn lemma_hex_char_value(d: nat)
    requires
        d < 16,
    ensures
        hex_char_value(hex_char(d)) == Some(d as int),
{
}

proof fn lemma_hex_text_value(n: nat)
    ensures
        hex_chars_value(hex_text(n)) == n,
        hex_text(n).len() >= 1,
        forall|i: int| 0 <= i < hex_text(n).len() ==> (#[trigger] hex_char_value(hex_text(n)[i])) is Some,
    decreases n,
{
    if n < 16 {
        assert(hex_text(n) =~= seq![hex_char(n)]);
        assert(hex_text(n).drop_last() =~= Seq::<char>::empty());
        assert(hex_chars_value(Seq::<char>::empty()) == 0);
        lemma_hex_char_value(n);
    } else {
        lemma_hex_text_value(n / 16);
        let t = hex_text(n);
        assert(t.drop_last() =~= hex_text(n / 16));
        assert(t.last() == hex_char(n % 16));
        lemma_hex_char_value(n % 16);
        assert(hex_chars_value(t) == hex_chars_value(hex_text(n / 16)) * 16 + (n % 16) as int);
        assert(n == (n / 16) * 16 + n % 16);
    }
}

/// The name a region is dumped under gives back the region's begin.
pub proof fn lemma_dump_name_round_trip(begin: usize)
    ensures
        dump_name_begin(hex_text(begin as nat) + ".bin"@) == Some(begin as int),
{
    reveal_strlit(".bin");
    let h = hex_text(begin as nat);
    let name = h + ".bin"@;
    lemma_hex_text_value(begin as nat);
    assert(name.subrange(0, name.len() - 4) =~= h);
    assert(name.subrange(name.len() - 4, name.len() as int) =~= ".bin"@);
    assert forall|i: int| 0 <= i < name.len() - 4 implies (#[trigger] hex_char_value(name[i])) is Some by {
        assert(name[i] == h[i]);
    }
}

} // verus!
