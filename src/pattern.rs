use crate::error::HuntError;
use crate::region::{region_bytes, MemoryRegion};
use vstd::prelude::*;
use vstd::slice::slice_subrange;

verus! {

/// The signatures the dashboard looks for in the target's memory.
#[derive(Debug, Clone, Copy, PartialEq, Eq, Structural)]
pub enum PatternType {
    PlayerName,
    CurrentPlayerName,
    PlayerDamage,
    Monsters,
    PlayerBuff,
    LobbyStatus,
    Emetta,
    PlayerNameLinux,
}

/// Relies on memchr::memchr: the index of the first occurrence of `needle`,
/// or `None` when the byte does not occur.
pub assume_specification[ memchr::memchr ](needle: u8, haystack: &[u8]) -> (r: Option<usize>)
    ensures
        match r {
            Some(i) => i < haystack@.len() && haystack@[i as int] == needle && forall|j: int|
                0 <= j < i ==> haystack@[j] != needle,
            None => forall|j: int| 0 <= j < haystack@.len() ==> haystack@[j] != needle,
        },
;

/// Number of leading concrete bytes used as the search seed.
pub const SEED_LEN: usize = 3;

/// Concrete slots for the bytes of `s`.
pub open spec fn lit(s: Seq<u8>) -> Seq<Option<u8>> {
    s.map_values(|b: u8| Some(b))
}

/// `n` wildcard slots.
pub open spec fn gap(n: nat) -> Seq<Option<u8>> {
    Seq::new(n, |i: int| None)
}

/// The slots of each signature; `None` is a wildcard.
pub open spec fn signature_slots(kind: PatternType) -> Seq<Option<u8>> {
    match kind {
        PatternType::PlayerName => lit(seq![0x48u8, 0x8B, 0x0D]) + gap(4) + lit(
            seq![0x48u8, 0x8D, 0x54, 0x24, 0x38, 0xC6, 0x44, 0x24, 0x20, 0x00, 0xE8],
        ) + gap(4) + lit(
            seq![0x48u8, 0x8B, 0x5C, 0x24, 0x70, 0x48, 0x8B, 0x7C, 0x24, 0x60, 0x48, 0x83, 0xC4, 0x68, 0xC3],
        ),
        PatternType::CurrentPlayerName => lit(seq![0x48u8, 0x8B, 0x0D]) + gap(4) + lit(
            seq![0x48u8, 0x8D, 0x55],
        ) + gap(1) + lit(seq![0x45u8, 0x31, 0xC9, 0x41, 0x89, 0xC0, 0xE8]),
        PatternType::PlayerDamage => lit(seq![0x48u8, 0x8B, 0x0D]) + gap(4) + lit(seq![0xE8u8])
            + gap(4) + lit(seq![0x48u8, 0x8B, 0xD8, 0x48, 0x85, 0xC0, 0x75, 0x04, 0x33, 0xC9]),
        PatternType::Monsters => lit(seq![0x48u8, 0x8B, 0x0D]) + gap(4) + lit(
            seq![0xB2u8, 0x01, 0xE8],
        ) + gap(4) + lit(seq![0xC6u8, 0x83]) + gap(5) + lit(seq![0x48u8, 0x8B, 0x0D]),
        PatternType::PlayerBuff => lit(seq![0x48u8, 0x8B, 0x05]) + gap(4) + lit(
            seq![0x41u8, 0x8B, 0x94, 0x00],
        ) + gap(4) + lit(seq![0x89u8, 0x57]),
        PatternType::LobbyStatus => lit(seq![0x48u8, 0x8B, 0x0D]) + gap(4) + lit(seq![0xE8u8])
            + gap(4) + lit(seq![0x48u8, 0x8B, 0x4E]) + gap(1) + lit(seq![0xF3u8, 0x0F, 0x10, 0x86])
            + gap(4) + lit(seq![0xF3u8, 0x0F, 0x58, 0x86]) + gap(4) + lit(
            seq![0xF3u8, 0x0F, 0x11, 0x86],
        ) + gap(4) + lit(seq![0xE8u8]) + gap(4) + lit(seq![0x48u8, 0x8B, 0x4E]),
        PatternType::Emetta => lit(seq![0x45u8, 0x6D, 0x65, 0x74, 0x74, 0x61]),
        PatternType::PlayerNameLinux => lit(seq![0x48u8, 0x8B, 0x0D]) + gap(4) + lit(
            seq![0x48u8, 0x8D, 0x54, 0x24],
        ) + gap(14) + lit(seq![0x48u8, 0x8B, 0x5C, 0x24, 0x60, 0x48, 0x83, 0xC4, 0x50, 0x5F, 0xC3]),
    }
}

/// A usable signature: long enough, and its seed bytes are concrete.
pub open spec fn signature_wf(sig: Seq<Option<u8>>) -> bool {
    &&& sig.len() >= SEED_LEN
    &&& forall|i: int| 0 <= i < SEED_LEN ==> (#[trigger] sig[i]) is Some
}

pub open spec fn slot_accepts(slot: Option<u8>, b: u8) -> bool {
    match slot {
        Some(c) => c == b,
        None => true,
    }
}

/// The signature lies within `data` at offset `p`: each concrete slot equals
/// the byte under it; wildcards accept any byte.
pub open spec fn matches_at(data: Seq<u8>, sig: Seq<Option<u8>>, p: int) -> bool {
    &&& 0 <= p
    &&& p + sig.len() <= data.len()
    &&& forall|k: int| 0 <= k < sig.len() ==> slot_accepts(#[trigger] sig[k], data[p + k])
}

pub open spec fn is_first_match(data: Seq<u8>, sig: Seq<Option<u8>>, p: int) -> bool {
    &&& matches_at(data, sig, p)
    &&& forall|q: int| 0 <= q < p ==> !#[trigger] matches_at(data, sig, q)
}

pub open spec fn has_match(data: Seq<u8>, sig: Seq<Option<u8>>) -> bool {
    exists|q: int| #[trigger] matches_at(data, sig, q)
}

/// `r` is the offset of the first match, or `None` when there is none.
pub open spec fn search_result(data: Seq<u8>, sig: Seq<Option<u8>>, r: Option<usize>) -> bool {
    match r {
        Some(p) => is_first_match(data, sig, p as int),
        None => !has_match(data, sig),
    }
}

/// The leading concrete bytes of a signature.
pub open spec fn seed_of(sig: Seq<Option<u8>>) -> Seq<u8> {
    Seq::new(SEED_LEN as nat, |i: int| sig[i].unwrap())
}

/// `needle` occurs in `hay` at offset `i`.
pub open spec fn occurs_at(hay: Seq<u8>, needle: Seq<u8>, i: int) -> bool {
    &&& 0 <= i
    &&& i + needle.len() <= hay.len()
    &&& hay.subrange(i, i + needle.len()) == needle
}

/// The seed of a signature is a prefix of every match of it.
pub proof fn lemma_seed_prefix_of_match(data: Seq<u8>, sig: Seq<Option<u8>>, p: int)
    requires
        signature_wf(sig),
        matches_at(data, sig, p),
    ensures
        occurs_at(data, seed_of(sig), p),
        data.subrange(p, p + SEED_LEN) == seed_of(sig),
{
    assert forall|i: int| 0 <= i < SEED_LEN implies data.subrange(p, p + SEED_LEN)[i] == seed_of(
        sig,
    )[i] by {
        assert(sig[i] is Some);
        assert(slot_accepts(sig[i], data[p + i]));
    }
    assert(data.subrange(p, p + SEED_LEN) =~= seed_of(sig));
}

/// Changing bytes that lie under wildcard slots never breaks a match.
pub proof fn lemma_wildcards_accept_any(
    s: Seq<u8>,
    s2: Seq<u8>,
    sig: Seq<Option<u8>>,
)
    requires
        s.len() == sig.len(),
        matches_at(s, sig, 0),
        s2.len() == s.len(),
        forall|k: int| 0 <= k < s.len() && s[k] != s2[k] ==> (#[trigger] sig[k]) is None,
    ensures
        matches_at(s2, sig, 0),
{
    assert forall|k: int| 0 <= k < sig.len() implies slot_accepts(#[trigger] sig[k], s2[0 + k]) by {
        assert(slot_accepts(sig[k], s[0 + k]));
    }
}

/// No match is ever skipped: wherever the signature matches, a search
/// result is a match at that offset or before it.
pub proof fn lemma_no_match_skipped(
    data: Seq<u8>,
    sig: Seq<Option<u8>>,
    q: int,
    r: Option<usize>,
)
    requires
        search_result(data, sig, r),
        matches_at(data, sig, q),
    ensures
        r matches Some(p) && p <= q,
{
    assert(has_match(data, sig));
    if let Some(p) = r {
        if p > q {
            assert(!matches_at(data, sig, q));
        }
    }
}

/// The slots of a signature, concrete bytes as `Some`.
pub fn signature(kind: PatternType) -> (r: Vec<Option<u8>>)
    ensures
        r@ == signature_slots(kind),
        signature_wf(r@),
{
    let r = match kind {
        PatternType::PlayerName => vec![
            Some(0x48u8), Some(0x8B), Some(0x0D), None, None, None, None,
            Some(0x48), Some(0x8D), Some(0x54), Some(0x24), Some(0x38), Some(0xC6), Some(0x44),
            Some(0x24), Some(0x20), Some(0x00), Some(0xE8), None, None, None, None,
            Some(0x48), Some(0x8B), Some(0x5C), Some(0x24), Some(0x70), Some(0x48), Some(0x8B),
            Some(0x7C), Some(0x24), Some(0x60), Some(0x48), Some(0x83), Some(0xC4), Some(0x68),
            Some(0xC3),
        ],
        PatternType::CurrentPlayerName => vec![
            Some(0x48u8), Some(0x8B), Some(0x0D), None, None, None, None,
            Some(0x48), Some(0x8D), Some(0x55), None,
            Some(0x45), Some(0x31), Some(0xC9), Some(0x41), Some(0x89), Some(0xC0), Some(0xE8),
        ],
        PatternType::PlayerDamage => vec![
            Some(0x48u8), Some(0x8B), Some(0x0D), None, None, None, None,
            Some(0xE8), None, None, None, None,
            Some(0x48), Some(0x8B), Some(0xD8), Some(0x48), Some(0x85), Some(0xC0), Some(0x75),
            Some(0x04), Some(0x33), Some(0xC9),
        ],
        PatternType::Monsters => vec![
            Some(0x48u8), Some(0x8B), Some(0x0D), None, None, None, None,
            Some(0xB2), Some(0x01), Some(0xE8), None, None, None, None,
            Some(0xC6), Some(0x83), None, None, None, None, None,
            Some(0x48), Some(0x8B), Some(0x0D),
        ],
        PatternType::PlayerBuff => vec![
            Some(0x48u8), Some(0x8B), Some(0x05), None, None, None, None,
            Some(0x41), Some(0x8B), Some(0x94), Some(0x00), None, None, None, None,
            Some(0x89), Some(0x57),
        ],
        PatternType::LobbyStatus => vec![
            Some(0x48u8), Some(0x8B), Some(0x0D), None, None, None, None,
            Some(0xE8), None, None, None, None,
            Some(0x48), Some(0x8B), Some(0x4E), None,
            Some(0xF3), Some(0x0F), Some(0x10), Some(0x86), None, None, None, None,
            Some(0xF3), Some(0x0F), Some(0x58), Some(0x86), None, None, None, None,
            Some(0xF3), Some(0x0F), Some(0x11), Some(0x86), None, None, None, None,
            Some(0xE8), None, None, None, None,
            Some(0x48), Some(0x8B), Some(0x4E),
        ],
        PatternType::Emetta => vec![
            Some(0x45u8), Some(0x6D), Some(0x65), Some(0x74), Some(0x74), Some(0x61),
        ],
        PatternType::PlayerNameLinux => vec![
            Some(0x48u8), Some(0x8B), Some(0x0D), None, None, None, None,
            Some(0x48), Some(0x8D), Some(0x54), Some(0x24),
            None, None, None, None, None, None, None, None, None, None, None, None, None, None,
            Some(0x48), Some(0x8B), Some(0x5C), Some(0x24), Some(0x60), Some(0x48), Some(0x83),
            Some(0xC4), Some(0x50), Some(0x5F), Some(0xC3),
        ],
    };
    assert(r@ =~= signature_slots(kind));
    r
}

/// The seed of a signature: its leading concrete bytes.
pub fn seed(sig: &Vec<Option<u8>>) -> (r: Vec<u8>)
    requires
        signature_wf(sig@),
    ensures
        r@ == seed_of(sig@),
{
    let mut r: Vec<u8> = Vec::new();
    let mut i: usize = 0;
    while i < SEED_LEN
        invariant
            i <= SEED_LEN,
            signature_wf(sig@),
            r@ =~= seed_of(sig@).subrange(0, i as int),
        decreases SEED_LEN - i,
    {
        assert(sig@[i as int] is Some);
        match sig[i] {
            Some(b) => r.push(b),
            None => {},
        }
        i += 1;
    }
    assert(r@ =~= seed_of(sig@));
    r
}

/// Whether `needle` occurs in `hay` at offset `p`.
fn occurs_here(needle: &[u8], hay: &[u8], p: usize) -> (r: bool)
    requires
        p + needle@.len() <= hay@.len(),
    ensures
        r == occurs_at(hay@, needle@, p as int),
{
    let k = needle.len();
    let n = hay.len();
    let mut t: usize = 0;
    while t < k
        invariant
            t <= k,
            k == needle@.len(),
            n == hay@.len(),
            p + k <= n,
            forall|u: int| 0 <= u < t ==> hay@[p + u] == needle@[u],
        decreases k - t,
    {
        if hay[p + t] != needle[t] {
            assert(hay@.subrange(p as int, p + k)[t as int] != needle@[t as int]);
            return false;
        }
        t += 1;
    }
    assert(hay@.subrange(p as int, p + k) =~= needle@);
    true
}

/// The offset of the first occurrence of `first_bytes` in `input`.
pub fn get_search_index(first_bytes: &[u8], input: &[u8]) -> (r: Option<usize>)
    requires
        first_bytes@.len() >= 1,
    ensures
        match r {
            Some(i) => occurs_at(input@, first_bytes@, i as int) && forall|j: int|
                0 <= j < i ==> !#[trigger] occurs_at(input@, first_bytes@, j),
            None => forall|j: int| !#[trigger] occurs_at(input@, first_bytes@, j),
        },
{
    let k = first_bytes.len();
    let n = input.len();
    if n < k {
        return None;
    }
    let last = n - k;
    let mut pos: usize = 0;
    while pos <= last
        invariant
            k == first_bytes@.len(),
            k >= 1,
            n == input@.len(),
            last + k == n,
            forall|j: int| 0 <= j < pos ==> !#[trigger] occurs_at(input@, first_bytes@, j),
        decreases last + 1 - pos,
    {
        let window = slice_subrange(input, pos, last + 1);
        match memchr::memchr(first_bytes[0], window) {
            None => {
                assert forall|j: int| !#[trigger] occurs_at(input@, first_bytes@, j) by {
                    if pos <= j <= last && occurs_at(input@, first_bytes@, j) {
                        assert(input@.subrange(j, j + k)[0] == first_bytes@[0]);
                        assert(window@[j - pos] == input@[j]);
                    }
                }
                return None;
            },
            Some(i) => {
                let p = pos + i;
                assert forall|j: int| pos <= j < p implies !#[trigger] occurs_at(
                    input@,
                    first_bytes@,
                    j,
                ) by {
                    if occurs_at(input@, first_bytes@, j) {
                        assert(input@.subrange(j, j + k)[0] == first_bytes@[0]);
                        assert(window@[j - pos] == input@[j]);
                    }
                }
                if occurs_here(first_bytes, input, p) {
                    return Some(p);
                }
                pos = p + 1;
            },
        }
    }
    assert forall|j: int| !#[trigger] occurs_at(input@, first_bytes@, j) by {
        if j >= pos {
            assert(!occurs_at(input@, first_bytes@, j));
        }
    }
    None
}

/// Whether every concrete slot of `sig` equals the byte of `data` under it,
/// with the signature placed at `p`.
fn matches_here(sig: &Vec<Option<u8>>, data: &[u8], p: usize) -> (r: bool)
    requires
        p + sig@.len() <= data@.len(),
    ensures
        r == matches_at(data@, sig@, p as int),
{
    let m = sig.len();
    let n = data.len();
    let mut k: usize = 0;
    while k < m
        invariant
            k <= m,
            m == sig@.len(),
            n == data@.len(),
            p + m <= n,
            forall|j: int| 0 <= j < k ==> slot_accepts(#[trigger] sig@[j], data@[p + j]),
        decreases m - k,
    {
        match sig[k] {
            Some(b) => {
                if data[p + k] != b {
                    assert(!slot_accepts(sig@[k as int], data@[p + k]));
                    return false;
                }
            },
            None => {},
        }
        k += 1;
    }
    true
}

/// The offset of the first match of `sig` in `data`: the seed is searched
/// for, each seed hit is verified in full, and on a mismatch the search
/// resumes one byte further on.
pub fn search_signature(sig: &Vec<Option<u8>>, data: &[u8]) -> (r: Option<usize>)
    requires
        signature_wf(sig@),
    ensures
        search_result(data@, sig@, r),
{
    let m = sig.len();
    let n = data.len();
    if n < m {
        return None;
    }
    let seed_bytes = seed(sig);
    let last = n - m;
    let mut pos: usize = 0;
    while pos <= last
        invariant
            signature_wf(sig@),
            seed_bytes@ == seed_of(sig@),
            m == sig@.len(),
            n == data@.len(),
            last + m == n,
            forall|q: int| 0 <= q < pos ==> !#[trigger] matches_at(data@, sig@, q),
        decreases last + 1 - pos,
    {
        let window = slice_subrange(data, pos, last + SEED_LEN);
        match get_search_index(seed_bytes.as_slice(), window) {
            None => {
                assert forall|q: int| !#[trigger] matches_at(data@, sig@, q) by {
                    if pos <= q <= last && matches_at(data@, sig@, q) {
                        lemma_seed_prefix_of_match(data@, sig@, q);
                        assert(window@.subrange(q - pos, q - pos + SEED_LEN) =~= data@.subrange(
                            q,
                            q + SEED_LEN,
                        ));
                        assert(occurs_at(window@, seed_bytes@, q - pos));
                    }
                }
                return None;
            },
            Some(i) => {
                let p = pos + i;
                assert forall|q: int| pos <= q < p implies !#[trigger] matches_at(data@, sig@, q) by {
                    if matches_at(data@, sig@, q) {
                        lemma_seed_prefix_of_match(data@, sig@, q);
                        assert(window@.subrange(q - pos, q - pos + SEED_LEN) =~= data@.subrange(
                            q,
                            q + SEED_LEN,
                        ));
                        assert(occurs_at(window@, seed_bytes@, q - pos));
                    }
                }
                if matches_here(sig, data, p) {
                    return Some(p);
                }
                pos = p + 1;
            },
        }
    }
    assert forall|q: int| !#[trigger] matches_at(data@, sig@, q) by {
        if q >= pos {
            assert(!matches_at(data@, sig@, q));
        }
    }
    None
}

/// The offset of the first match of the signature of `kind` in `input`.
pub fn find_pattern(kind: PatternType, input: &[u8]) -> (r: Option<usize>)
    ensures
        search_result(input@, signature_slots(kind), r),
{
    let sig = signature(kind);
    search_signature(&sig, input)
}

/// 48 8B 0D ?? ?? ?? ?? 48 8D 54 24 38 C6 44 24 20 00 E8 ?? ?? ?? ?? 48 8B 5C 24 70 48 8B 7C 24 60 48 83 C4 68 C3
pub fn find_player_name(input: &[u8]) -> (r: Option<usize>)
    ensures
        search_result(input@, signature_slots(PatternType::PlayerName), r),
{
    find_pattern(PatternType::PlayerName, input)
}

/// 48 8B 0D ?? ?? ?? ?? 48 8D 55 ?? 45 31 C9 41 89 C0 E8
pub fn find_current_player_name(input: &[u8]) -> (r: Option<usize>)
    ensures
        search_result(input@, signature_slots(PatternType::CurrentPlayerName), r),
{
    find_pattern(PatternType::CurrentPlayerName, input)
}

/// 48 8B 0D ?? ?? ?? ?? E8 ?? ?? ?? ?? 48 8B D8 48 85 C0 75 04 33 C9
pub fn find_player_damage(input: &[u8]) -> (r: Option<usize>)
    ensures
        search_result(input@, signature_slots(PatternType::PlayerDamage), r),
{
    find_pattern(PatternType::PlayerDamage, input)
}

/// 48 8B 0D ?? ?? ?? ?? B2 01 E8 ?? ?? ?? ?? C6 83 ?? ?? ?? ?? ?? 48 8B 0D
pub fn find_monster(input: &[u8]) -> (r: Option<usize>)
    ensures
        search_result(input@, signature_slots(PatternType::Monsters), r),
{
    find_pattern(PatternType::Monsters, input)
}

/// 48 8B 05 ?? ?? ?? ?? 41 8B 94 00 ?? ?? ?? ?? 89 57
pub fn find_player_buff(input: &[u8]) -> (r: Option<usize>)
    ensures
        search_result(input@, signature_slots(PatternType::PlayerBuff), r),
{
    find_pattern(PatternType::PlayerBuff, input)
}

/// 48 8B 0D ?? ?? ?? ?? E8 ?? ?? ?? ?? 48 8B 4E ?? F3 0F 10 86 ?? ?? ?? ?? F3 0F 58 86 ?? ?? ?? ??
/// F3 0F 11 86 ?? ?? ?? ?? E8 ?? ?? ?? ?? 48 8B 4E
pub fn find_lobby_status(input: &[u8]) -> (r: Option<usize>)
    ensures
        search_result(input@, signature_slots(PatternType::LobbyStatus), r),
{
    find_pattern(PatternType::LobbyStatus, input)
}

/// The ASCII text "Emetta": 45 6D 65 74 74 61
pub fn find_emetta(input: &[u8]) -> (r: Option<usize>)
    ensures
        search_result(input@, signature_slots(PatternType::Emetta), r),
{
    find_pattern(PatternType::Emetta, input)
}

/// 48 8B 0D ?? ?? ?? ?? 48 8D 54 24 ?? ?? ?? ?? ?? ?? ?? ?? ?? ?? ?? ?? ?? ?? 48 8B 5C 24 60 48 83 C4 50 5F C3
pub fn find_player_name_linux(input: &[u8]) -> (r: Option<usize>)
    ensures
        search_result(input@, signature_slots(PatternType::PlayerNameLinux), r),
{
    find_pattern(PatternType::PlayerNameLinux, input)
}

/// Where a signature was found: the start of its region, the offset within
/// the region, and the absolute address of the first matched byte.
#[derive(Debug, Clone, Copy)]
pub struct MemoryLocation {
    pub start: usize,
    pub offset: usize,
    pub address: usize,
}

impl MemoryLocation {
    pub fn new(start: usize, offset: usize) -> (r: Self)
        requires
            start + offset <= usize::MAX,
        ensures
            r.start == start,
            r.offset == offset,
            r.address == start + offset,
    {
        MemoryLocation { start, offset, address: start + offset }
    }
}

/// The search state of one signature.
#[derive(Debug)]
pub struct PatternGetter {
    pub mem_location: Option<MemoryLocation>,
    pub pattern_type: PatternType,
}

impl PatternGetter {
    pub fn new(pattern_type: PatternType) -> (r: Self)
        ensures
            r.pattern_type == pattern_type,
            r.mem_location is None,
    {
        PatternGetter { pattern_type, mem_location: None }
    }

    /// Searches the bytes of one region for the signature. A region without
    /// bytes is an error and changes nothing; otherwise the location becomes
    /// that of the first match, or none when the signature is absent.
    pub fn search(&mut self, mem_region: &MemoryRegion) -> (r: Result<(), HuntError>)
        requires
            mem_region.wf(),
        ensures
            final(self).pattern_type == old(self).pattern_type,
            mem_region.data is None ==> r == Err::<(), HuntError>(HuntError::RegionReadFailure)
                && final(self).mem_location == old(self).mem_location,
            mem_region.data is Some ==> match final(self).mem_location {
                Some(loc) => r is Ok && loc.start == mem_region.begin && loc.address == loc.start
                    + loc.offset && is_first_match(
                    region_bytes(*mem_region),
                    signature_slots(old(self).pattern_type),
                    loc.offset as int,
                ),
                None => r == Err::<(), HuntError>(HuntError::PatternMissing(old(self).pattern_type))
                    && !has_match(region_bytes(*mem_region), signature_slots(old(self).pattern_type)),
            },
    {
        let data = match &mem_region.data {
            Some(data) => data,
            None => return Err(HuntError::RegionReadFailure),
        };
        match find_pattern(self.pattern_type, data.as_slice()) {
            Some(res) => {
                let loc = MemoryLocation::new(mem_region.get_begin(), res);
                self.mem_location = Some(loc);
                Ok(())
            },
            None => {
                self.mem_location = None;
                Err(HuntError::PatternMissing(self.pattern_type))
            },
        }
    }
}

} // verus!
