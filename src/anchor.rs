use crate::error::HuntError;
use crate::pattern::{has_match, is_first_match, signature_slots, PatternGetter, PatternType};
use crate::region::{region_bytes, MemoryRegion};
use vstd::prelude::*;
use vstd::slice::slice_subrange;

verus! {

/// Length of the opcode in front of a RIP-relative displacement.
pub const OP_CODE_LEN: usize = 3;

/// Length of the displacement itself.
pub const PARAM_LEN: usize = 4;

/// Length of the whole instruction: the displacement counts from its end.
pub const INSTRUCTION_LEN: usize = 7;

/// Four bytes read as a little-endian unsigned number.
pub open spec fn le_u32(d: Seq<u8>) -> int {
    d[0] + d[1] * 0x100 + d[2] * 0x1_0000 + d[3] * 0x100_0000
}

/// Four bytes read as a little-endian signed 32-bit displacement.
pub open spec fn displacement(d: Seq<u8>) -> int {
    let u = le_u32(d);
    if u >= 0x8000_0000 {
        u - 0x1_0000_0000
    } else {
        u
    }
}

/// The address a RIP-relative instruction at `anchor` refers to: the address
/// of the next instruction plus the signed displacement.
pub open spec fn rip_target(anchor: int, d: Seq<u8>) -> int {
    anchor + INSTRUCTION_LEN + displacement(d)
}

/// The target of the RIP-relative instruction whose displacement bytes are
/// `disp`, when it is a valid address.
pub fn resolve_rip_relative(anchor: usize, disp: &[u8]) -> (r: Option<usize>)
    requires
        disp@.len() == PARAM_LEN,
    ensures
        match r {
            Some(t) => t == rip_target(anchor as int, disp@),
            None => !(0 <= rip_target(anchor as int, disp@) <= usize::MAX),
        },
{
    let u: u64 = disp[0] as u64 + disp[1] as u64 * 0x100 + disp[2] as u64 * 0x1_0000 + disp[3] as u64
        * 0x100_0000;
    let operand: i128 = if u >= 0x8000_0000 {
        u as i128 - 0x1_0000_0000
    } else {
        u as i128
    };
    let target: i128 = anchor as i128 + INSTRUCTION_LEN as i128 + operand;
    if 0 <= target && target <= usize::MAX as i128 {
        Some(target as usize)
    } else {
        None
    }
}

/// A displacement with its high bit set is negative; one below minus the
/// instruction length leads below the instruction itself.
pub proof fn lemma_negative_displacement_below_anchor(anchor: int, d: Seq<u8>)
    requires
        d.len() == PARAM_LEN,
        d[3] >= 0x80,
        displacement(d) < -(INSTRUCTION_LEN as int),
    ensures
        displacement(d) < 0,
        rip_target(anchor, d) < anchor,
{
}

/// The target of the instruction matched at offset `p` of a region, resolved
/// from the displacement bytes the region holds.
pub open spec fn resolved_at(bytes: Seq<u8>, begin: int, p: int) -> Option<int> {
    if 0 <= p && p + INSTRUCTION_LEN <= bytes.len() {
        let t = rip_target(begin + p, bytes.subrange(p + OP_CODE_LEN, p + INSTRUCTION_LEN));
        if 0 <= t <= usize::MAX {
            Some(t)
        } else {
            None
        }
    } else {
        None
    }
}

/// Resolves the RIP-relative operand of the instruction at `offset` in the
/// region, from the region's own bytes.
pub fn load_rel_addr(region: &MemoryRegion, offset: usize) -> (r: Option<usize>)
    requires
        region.wf(),
    ensures
        match resolved_at(region_bytes(*region), region.begin as int, offset as int) {
            Some(t) => r == Some(t as usize),
            None => r is None,
        },
{
    match &region.data {
        Some(d) => {
            if offset <= d.len() && INSTRUCTION_LEN <= d.len() - offset {
                let disp = slice_subrange(d.as_slice(), offset + OP_CODE_LEN, offset + INSTRUCTION_LEN);
                resolve_rip_relative(region.begin + offset, disp)
            } else {
                None
            }
        },
        None => None,
    }
}

/// A signature's location in the target, after the RIP-relative operand of
/// the matched instruction has been resolved.
#[derive(Debug, Clone, Copy)]
pub struct ResolvedAnchor {
    pub kind: PatternType,
    pub match_region_begin: usize,
    pub match_offset: usize,
    pub absolute_address: usize,
    pub found: bool,
}

/// The index of the first region, from `i` on, whose bytes match `sig`; the
/// number of regions when there is none.
pub open spec fn first_region_from(regions: Seq<MemoryRegion>, sig: Seq<Option<u8>>, i: int) -> int
    decreases regions.len() - i,
{
    if i < 0 || i >= regions.len() {
        regions.len() as int
    } else if has_match(region_bytes(regions[i]), sig) {
        i
    } else {
        first_region_from(regions, sig, i + 1)
    }
}

pub open spec fn first_match_offset(data: Seq<u8>, sig: Seq<Option<u8>>) -> int {
    choose|p: int| is_first_match(data, sig, p)
}

/// The anchor of `kind` in a region set: the first match in the first region
/// that has one, resolved when its operand leads to a valid address.
pub open spec fn anchor_of(regions: Seq<MemoryRegion>, kind: PatternType) -> ResolvedAnchor {
    let sig = signature_slots(kind);
    let i = first_region_from(regions, sig, 0);
    if i < regions.len() {
        let bytes = region_bytes(regions[i]);
        let p = first_match_offset(bytes, sig);
        let res = resolved_at(bytes, regions[i].begin as int, p);
        ResolvedAnchor {
            kind,
            match_region_begin: regions[i].begin,
            match_offset: p as usize,
            absolute_address: match res {
                Some(t) => t as usize,
                None => 0,
            },
            found: res is Some,
        }
    } else {
        ResolvedAnchor {
            kind,
            match_region_begin: 0,
            match_offset: 0,
            absolute_address: 0,
            found: false,
        }
    }
}

pub open spec fn all_wf(regions: Seq<MemoryRegion>) -> bool {
    forall|i: int| 0 <= i < regions.len() ==> (#[trigger] regions[i]).wf()
}

proof fn lemma_first_match_unique(data: Seq<u8>, sig: Seq<Option<u8>>, p: int, q: int)
    requires
        is_first_match(data, sig, p),
        is_first_match(data, sig, q),
    ensures
        p == q,
{
    if p < q {
        assert(!is_first_match(data, sig, q));
    } else if q < p {
        assert(!is_first_match(data, sig, p));
    }
}

proof fn lemma_first_region_skips(regions: Seq<MemoryRegion>, sig: Seq<Option<u8>>, i: int)
    requires
        0 <= i <= regions.len(),
        forall|j: int| 0 <= j < i ==> !has_match(region_bytes(#[trigger] regions[j]), sig),
    ensures
        first_region_from(regions, sig, 0) == first_region_from(regions, sig, i),
    decreases i,
{
    if i > 0 {
        lemma_first_region_skips(regions, sig, i - 1);
        assert(!has_match(region_bytes(regions[i - 1]), sig));
    }
}

/// Searches the regions in order for the signature of `kind` and resolves
/// the first match.
pub fn locate_anchor(kind: PatternType, regions: &Vec<MemoryRegion>) -> (r: ResolvedAnchor)
    requires
        all_wf(regions@),
    ensures
        r == anchor_of(regions@, kind),
{
    let ghost sig = signature_slots(kind);
    let n = regions.len();
    let mut getter = PatternGetter::new(kind);
    let mut i: usize = 0;
    while i < n
        invariant
            n == regions@.len(),
            i <= n,
            all_wf(regions@),
            getter.pattern_type == kind,
            sig == signature_slots(kind),
            forall|j: int| 0 <= j < i ==> !has_match(region_bytes(#[trigger] regions@[j]), sig),
        decreases n - i,
    {
        let region = &regions[i];
        assert(region.wf());
        // A region whose bytes could not be read holds no match.
        if getter.search(region).is_ok() {
            let loc = getter.mem_location.unwrap();
            proof {
                lemma_first_region_skips(regions@, sig, i as int);
                let bytes = region_bytes(regions@[i as int]);
                assert(has_match(bytes, sig));
                let p = first_match_offset(bytes, sig);
                lemma_first_match_unique(bytes, sig, p, loc.offset as int);
            }
            let target = load_rel_addr(region, loc.offset);
            return match target {
                Some(t) => ResolvedAnchor {
                    kind,
                    match_region_begin: region.begin,
                    match_offset: loc.offset,
                    absolute_address: t,
                    found: true,
                },
                None => ResolvedAnchor {
                    kind,
                    match_region_begin: region.begin,
                    match_offset: loc.offset,
                    absolute_address: 0,
                    found: false,
                },
            };
        }
        assert(!has_match(region_bytes(regions@[i as int]), sig));
        i += 1;
    }
    proof {
        lemma_first_region_skips(regions@, sig, n as int);
    }
    ResolvedAnchor {
        kind,
        match_region_begin: 0,
        match_offset: 0,
        absolute_address: 0,
        found: false,
    }
}

/// The position of each signature in an anchor table.
pub open spec fn kind_index(kind: PatternType) -> int {
    match kind {
        PatternType::PlayerName => 0,
        PatternType::CurrentPlayerName => 1,
        PatternType::PlayerDamage => 2,
        PatternType::Monsters => 3,
        PatternType::PlayerBuff => 4,
        PatternType::LobbyStatus => 5,
        PatternType::Emetta => 6,
        PatternType::PlayerNameLinux => 7,
    }
}

/// Number of signatures, and of entries in an anchor table.
pub const PATTERN_COUNT: usize = 8;

pub open spec fn all_kinds() -> Seq<PatternType> {
    seq![
        PatternType::PlayerName,
        PatternType::CurrentPlayerName,
        PatternType::PlayerDamage,
        PatternType::Monsters,
        PatternType::PlayerBuff,
        PatternType::LobbyStatus,
        PatternType::Emetta,
        PatternType::PlayerNameLinux,
    ]
}

/// Every signature, in the order of an anchor table.
pub fn all_pattern_types() -> (r: Vec<PatternType>)
    ensures
        r@ == all_kinds(),
{
    let r = vec![
        PatternType::PlayerName,
        PatternType::CurrentPlayerName,
        PatternType::PlayerDamage,
        PatternType::Monsters,
        PatternType::PlayerBuff,
        PatternType::LobbyStatus,
        PatternType::Emetta,
        PatternType::PlayerNameLinux,
    ];
    assert(r@ =~= all_kinds());
    r
}

/// The anchors of all signatures in a region set.
pub open spec fn table_of(regions: Seq<MemoryRegion>) -> Seq<ResolvedAnchor> {
    all_kinds().map_values(|k: PatternType| anchor_of(regions, k))
}

/// The first anchor that startup cannot do without and that was not found:
/// PlayerNameLinux, then PlayerDamage, then Monsters when monsters are shown.
pub open spec fn missing_required(anchors: Seq<ResolvedAnchor>, show_monsters: bool) -> Option<
    PatternType,
> {
    if !anchors[kind_index(PatternType::PlayerNameLinux)].found {
        Some(PatternType::PlayerNameLinux)
    } else if !anchors[kind_index(PatternType::PlayerDamage)].found {
        Some(PatternType::PlayerDamage)
    } else if show_monsters && !anchors[kind_index(PatternType::Monsters)].found {
        Some(PatternType::Monsters)
    } else {
        None
    }
}

/// The resolved anchors of all signatures, one per kind.
#[derive(Debug, Clone)]
pub struct AnchorTable {
    pub anchors: Vec<ResolvedAnchor>,
}

impl AnchorTable {
    pub open spec fn wf(&self) -> bool {
        &&& self.anchors@.len() == PATTERN_COUNT
        &&& forall|k: PatternType| (#[trigger] self.anchors@[kind_index(k)]).kind == k
    }

    /// Locates every signature in the regions.
    pub fn find_patterns(regions: &Vec<MemoryRegion>) -> (r: Self)
        requires
            all_wf(regions@),
        ensures
            r.wf(),
            r.anchors@ == table_of(regions@),
    {
        let kinds = all_pattern_types();
        let mut anchors: Vec<ResolvedAnchor> = Vec::new();
        let mut i: usize = 0;
        while i < kinds.len()
            invariant
                kinds@ == all_kinds(),
                i <= kinds@.len(),
                all_wf(regions@),
                anchors@ =~= table_of(regions@).subrange(0, i as int),
            decreases kinds@.len() - i,
        {
            anchors.push(locate_anchor(kinds[i], regions));
            i += 1;
        }
        assert(anchors@ =~= table_of(regions@));
        let r = AnchorTable { anchors };
        assert forall|k: PatternType| (#[trigger] r.anchors@[kind_index(k)]).kind == k by {
            assert(all_kinds()[kind_index(k)] == k);
        }
        r
    }

    /// The anchor of one signature.
    pub fn get(&self, kind: PatternType) -> (r: ResolvedAnchor)
        requires
            self.wf(),
        ensures
            r == self.anchors@[kind_index(kind)],
    {
        let i: usize = match kind {
            PatternType::PlayerName => 0,
            PatternType::CurrentPlayerName => 1,
            PatternType::PlayerDamage => 2,
            PatternType::Monsters => 3,
            PatternType::PlayerBuff => 4,
            PatternType::LobbyStatus => 5,
            PatternType::Emetta => 6,
            PatternType::PlayerNameLinux => 7,
        };
        self.anchors[i]
    }
}

/// Fails with the first required anchor that was not found.
pub fn check_required_anchors(table: &AnchorTable, show_monsters: bool) -> (r: Result<(), HuntError>)
    requires
        table.wf(),
    ensures
        match missing_required(table.anchors@, show_monsters) {
            Some(k) => r == Err::<(), HuntError>(HuntError::PatternMissing(k)),
            None => r is Ok,
        },
{
    if !table.get(PatternType::PlayerNameLinux).found {
        return Err(HuntError::PatternMissing(PatternType::PlayerNameLinux));
    }
    if !table.get(PatternType::PlayerDamage).found {
        return Err(HuntError::PatternMissing(PatternType::PlayerDamage));
    }
    if show_monsters && !table.get(PatternType::Monsters).found {
        return Err(HuntError::PatternMissing(PatternType::Monsters));
    }
    Ok(())
}

/// Startup's search: locates every signature in the filled regions, then
/// fails when a required anchor is missing. Without PlayerNameLinux or
/// PlayerDamage startup fails; without Monsters only when monsters are shown.
pub fn find_anchors(regions: &Vec<MemoryRegion>, show_monsters: bool) -> (r: Result<
    AnchorTable,
    HuntError,
>)
    requires
        all_wf(regions@),
    ensures
        match missing_required(table_of(regions@), show_monsters) {
            Some(k) => r == Err::<AnchorTable, HuntError>(HuntError::PatternMissing(k)),
            None => r matches Ok(t) && t.wf() && t.anchors@ == table_of(regions@),
        },
{
    let table = AnchorTable::find_patterns(regions);
    match check_required_anchors(&table, show_monsters) {
        Ok(()) => Ok(table),
        Err(e) => Err(e),
    }
}

/// A region set in which no region matches PlayerNameLinux makes startup
/// fail on that anchor; one in which PlayerNameLinux and PlayerDamage are
/// found does not fail when monsters are not shown, whatever becomes of the
/// Monsters anchor.
pub proof fn lemma_required_anchor_gating(regions: Seq<MemoryRegion>, show_monsters: bool)
    ensures
        (forall|i: int|
            0 <= i < regions.len() ==> !has_match(
                region_bytes(#[trigger] regions[i]),
                signature_slots(PatternType::PlayerNameLinux),
            )) ==> missing_required(table_of(regions), show_monsters) == Some(
            PatternType::PlayerNameLinux,
        ),
        anchor_of(regions, PatternType::PlayerNameLinux).found && anchor_of(
            regions,
            PatternType::PlayerDamage,
        ).found && !show_monsters ==> missing_required(table_of(regions), show_monsters) is None,
{
    let sig = signature_slots(PatternType::PlayerNameLinux);
    if forall|i: int|
        0 <= i < regions.len() ==> !has_match(region_bytes(#[trigger] regions[i]), sig) {
        lemma_first_region_skips(regions, sig, regions.len() as int);
    }
    assert(table_of(regions)[kind_index(PatternType::PlayerNameLinux)] == anchor_of(
        regions,
        PatternType::PlayerNameLinux,
    ));
    assert(table_of(regions)[kind_index(PatternType::PlayerDamage)] == anchor_of(
        regions,
        PatternType::PlayerDamage,
    ));
}

} // verus!
