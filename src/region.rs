use crate::error::HuntError;
use vstd::prelude::*;
use vstd::slice::{slice_subrange, slice_to_vec};

verus! {

/// One contiguous readable range `[begin, end)` of the target's address space.
#[derive(Debug, Clone)]
pub struct MemoryRegion {
    pub begin: usize,
    pub end: usize,
    pub debug_name: String,
    pub debug_info: String,
    pub data: Option<Vec<u8>>,
    pub from_vec: bool,
}

/// The bytes held for a region; empty when none were read.
pub open spec fn region_bytes(r: MemoryRegion) -> Seq<u8> {
    match r.data {
        Some(d) => d@,
        None => Seq::empty(),
    }
}

impl MemoryRegion {
    /// The range is not reversed, and bytes held cover it exactly.
    pub open spec fn wf(&self) -> bool {
        &&& self.begin <= self.end
        &&& self.data matches Some(d) ==> d@.len() == self.end - self.begin
    }

    /// A live region `[begin, end)` whose bytes are not read yet.
    pub fn new(begin: usize, end: usize, debug_name: &str, debug_info: &str) -> (r: Self)
        requires
            begin <= end,
        ensures
            r.wf(),
            r.begin == begin,
            r.end == end,
            r.debug_name@ == debug_name@,
            r.debug_info@ == debug_info@,
            r.data is None,
            !r.from_vec,
    {
        MemoryRegion {
            begin,
            end,
            debug_name: debug_name.to_owned(),
            debug_info: debug_info.to_owned(),
            data: None,
            from_vec: false,
        }
    }

    /// A region that holds `data` as it was loaded from a dump: it starts at 0.
    pub fn from_vec(data: Vec<u8>, debug_name: &str, debug_info: &str) -> (r: Self)
        ensures
            r.wf(),
            r.begin == 0,
            r.end == data@.len(),
            r.data == Some(data),
            r.debug_name@ == debug_name@,
            r.debug_info@ == debug_info@,
            r.from_vec,
    {
        let end = data.len();
        MemoryRegion {
            begin: 0,
            end,
            debug_name: debug_name.to_owned(),
            debug_info: debug_info.to_owned(),
            data: Some(data),
            from_vec: true,
        }
    }

    pub fn get_begin(&self) -> (r: usize)
        ensures
            r == self.begin,
    {
        self.begin
    }

    /// Takes the outcome of reading the region's range from the target. A
    /// region loaded from a dump keeps its bytes. Otherwise a read of exactly
    /// `end - begin` bytes becomes the region's data; anything else leaves it
    /// without data and is an error.
    pub fn fill_data(&mut self, read: Option<Vec<u8>>) -> (r: Result<(), HuntError>)
        requires
            old(self).wf(),
        ensures
            final(self).wf(),
            final(self).begin == old(self).begin,
            final(self).end == old(self).end,
            final(self).from_vec == old(self).from_vec,
            final(self).debug_name == old(self).debug_name,
            final(self).debug_info == old(self).debug_info,
            old(self).from_vec ==> r is Ok && final(self).data == old(self).data,
            !old(self).from_vec ==> match read {
                Some(b) if b@.len() == old(self).end - old(self).begin => r is Ok
                    && final(self).data == Some(b),
                _ => r == Err::<(), HuntError>(HuntError::RegionReadFailure)
                    && final(self).data is None,
            },
    {
        if self.from_vec {
            return Ok(());
        }
        match read {
            Some(b) => {
                if b.len() == self.end - self.begin {
                    self.data = Some(b);
                    Ok(())
                } else {
                    self.data = None;
                    Err(HuntError::RegionReadFailure)
                }
            },
            None => {
                self.data = None;
                Err(HuntError::RegionReadFailure)
            },
        }
    }
}

/// Consecutive regions are in ascending order of `begin`, and live ones do
/// not overlap. Regions loaded from a dump all start at 0 and are only held
/// to the order.
pub open spec fn regions_ordered(regions: Seq<MemoryRegion>) -> bool {
    forall|i: int|
        1 <= i < regions.len() ==> {
            &&& regions[i - 1].begin <= (#[trigger] regions[i]).begin
            &&& (!regions[i - 1].from_vec && !regions[i].from_vec) ==> regions[i - 1].end
                <= regions[i].begin
        }
}

/// Checks that the regions are ordered and disjoint.
pub fn verify_regions(regions: &[MemoryRegion]) -> (r: Result<(), HuntError>)
    ensures
        r is Ok <==> regions_ordered(regions@),
        r is Err ==> r == Err::<(), HuntError>(HuntError::RegionOrderingInvariant),
{
    let n = regions.len();
    if n == 0 {
        return Ok(());
    }
    let mut i: usize = 1;
    while i < n
        invariant
            1 <= i <= n,
            n == regions@.len(),
            regions_ordered(regions@.subrange(0, i as int)),
        decreases n - i,
    {
        let prev = &regions[i - 1];
        let cur = &regions[i];
        if cur.begin < prev.begin || (!prev.from_vec && !cur.from_vec && cur.begin < prev.end) {
            assert(!regions_ordered(regions@)) by {
                assert(regions@[i as int] == cur);
            }
            return Err(HuntError::RegionOrderingInvariant);
        }
        assert forall|j: int| 1 <= j < i + 1 implies {
            &&& regions@.subrange(0, i + 1)[j - 1].begin <= (#[trigger] regions@.subrange(0, i + 1)[j]).begin
            &&& (!regions@.subrange(0, i + 1)[j - 1].from_vec && !regions@.subrange(0, i + 1)[j].from_vec)
                ==> regions@.subrange(0, i + 1)[j - 1].end <= regions@.subrange(0, i + 1)[j].begin
        } by {
            if j < i {
                assert(regions@.subrange(0, i as int)[j] == regions@[j]);
                assert(regions@.subrange(0, i as int)[j - 1] == regions@[j - 1]);
            }
        }
        i += 1;
    }
    assert(regions@.subrange(0, n as int) =~= regions@);
    Ok(())
}

/// The region holds bytes for all of `[addr, addr + len)`.
pub open spec fn region_covers(r: MemoryRegion, addr: int, len: int) -> bool {
    &&& r.data is Some
    &&& r.begin <= addr
    &&& addr + len <= r.begin + region_bytes(r).len()
}

/// The bytes at `[addr, addr + len)` as the regions from index `i` on hold
/// them: taken from the first region that covers the whole range.
pub open spec fn read_from(regions: Seq<MemoryRegion>, addr: int, len: int, i: int) -> Option<
    Seq<u8>,
>
    decreases regions.len() - i,
{
    if i < 0 || i >= regions.len() {
        None
    } else if region_covers(regions[i], addr, len) {
        Some(
            region_bytes(regions[i]).subrange(addr - regions[i].begin, addr - regions[i].begin + len),
        )
    } else {
        read_from(regions, addr, len, i + 1)
    }
}

proof fn lemma_read_skips(regions: Seq<MemoryRegion>, addr: int, len: int, i: int)
    requires
        0 <= i <= regions.len(),
        forall|j: int| 0 <= j < i ==> !#[trigger] region_covers(regions[j], addr, len),
    ensures
        read_from(regions, addr, len, 0) == read_from(regions, addr, len, i),
    decreases i,
{
    if i > 0 {
        lemma_read_skips(regions, addr, len, i - 1);
        assert(!region_covers(regions[i - 1], addr, len));
    }
}

/// Reads `len` bytes at `addr` from the bytes the regions hold.
pub fn read_regions(regions: &Vec<MemoryRegion>, addr: usize, len: usize) -> (r: Option<Vec<u8>>)
    ensures
        match r {
            Some(v) => read_from(regions@, addr as int, len as int, 0) == Some(v@),
            None => read_from(regions@, addr as int, len as int, 0) is None,
        },
{
    let n = regions.len();
    let mut i: usize = 0;
    while i < n
        invariant
            n == regions@.len(),
            i <= n,
            forall|j: int| 0 <= j < i ==> !#[trigger] region_covers(regions@[j], addr as int, len as int),
        decreases n - i,
    {
        let reg = &regions[i];
        match &reg.data {
            Some(d) => {
                if reg.begin <= addr && addr - reg.begin <= d.len() && len <= d.len() - (addr - reg.begin) {
                    let off = addr - reg.begin;
                    let v = slice_to_vec(slice_subrange(d.as_slice(), off, off + len));
                    assert(region_covers(regions@[i as int], addr as int, len as int));
                    proof {
                        lemma_read_skips(regions@, addr as int, len as int, i as int);
                    }
                    return Some(v);
                }
            },
            None => {},
        }
        i += 1;
    }
    proof {
        lemma_read_skips(regions@, addr as int, len as int, n as int);
    }
    None
}

} // verus!
