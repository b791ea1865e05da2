use crate::anchor::{kind_index, AnchorTable};
use crate::data::{default_session, GameData, SessionInfo, SessionView};
use crate::offsets::{
    EXPEDITION_STATUS_OFFSET, ID_LENGTH, MISSION_STATUS_OFFSET, PLAYER_NAME_LENGTH,
    SESSION_HOST_NAME, SESSION_ID,
};
use crate::pattern::PatternType;
use crate::region::{read_from, read_regions, MemoryRegion};
use crate::text::{field_string, field_text};
use vstd::prelude::*;

verus! {

/// The addresses the session walk reads, from the base of the lobby
/// structure.
#[derive(Debug, Clone, Copy, PartialEq, Eq, Structural)]
pub struct SessionReads {
    pub id_address: usize,
    pub host_address: usize,
    pub mission_address: usize,
    pub expedition_address: usize,
}

/// The walk's fields all lie at valid addresses from `base`.
pub open spec fn session_fits(base: int) -> bool {
    base + SESSION_HOST_NAME + PLAYER_NAME_LENGTH <= usize::MAX
}

pub open spec fn session_reads_at(base: int) -> SessionReads {
    SessionReads {
        id_address: (base + SESSION_ID) as usize,
        host_address: (base + SESSION_HOST_NAME) as usize,
        mission_address: (base + MISSION_STATUS_OFFSET) as usize,
        expedition_address: (base + EXPEDITION_STATUS_OFFSET) as usize,
    }
}

impl SessionReads {
    pub fn at(base: usize) -> (r: Option<Self>)
        ensures
            match r {
                Some(p) => session_fits(base as int) && p == session_reads_at(base as int),
                None => !session_fits(base as int),
            },
    {
        if base > usize::MAX - SESSION_HOST_NAME - PLAYER_NAME_LENGTH {
            return None;
        }
        Some(
            SessionReads {
                id_address: base + SESSION_ID,
                host_address: base + SESSION_HOST_NAME,
                mission_address: base + MISSION_STATUS_OFFSET,
                expedition_address: base + EXPEDITION_STATUS_OFFSET,
            },
        )
    }
}

/// The reads of the session walk: from the resolved LobbyStatus anchor, when
/// it was found and the fields lie at valid addresses.
pub open spec fn session_plan_of(table: AnchorTable) -> Option<SessionReads> {
    let a = table.anchors@[kind_index(PatternType::LobbyStatus)];
    if a.found && session_fits(a.absolute_address as int) {
        Some(session_reads_at(a.absolute_address as int))
    } else {
        None
    }
}

pub fn session_plan(table: &AnchorTable) -> (r: Option<SessionReads>)
    requires
        table.wf(),
    ensures
        r == session_plan_of(*table),
{
    let a = table.get(PatternType::LobbyStatus);
    if !a.found {
        return None;
    }
    SessionReads::at(a.absolute_address)
}

pub open spec fn bytes_of(o: Option<Vec<u8>>) -> Option<Seq<u8>> {
    match o {
        Some(v) => Some(v@),
        None => None,
    }
}

/// The text of a field that was read, or empty when the read failed.
pub open spec fn text_or_empty(o: Option<Seq<u8>>) -> Seq<char> {
    match o {
        Some(b) => field_text(b),
        None => Seq::empty(),
    }
}

/// A flag byte that was read is set when it is not zero; `default` stands in
/// for a failed read.
pub open spec fn flag_or(o: Option<Seq<u8>>, default: bool) -> bool {
    match o {
        Some(b) => if b.len() > 0 {
            b[0] != 0
        } else {
            default
        },
        None => default,
    }
}

fn text_field(o: Option<Vec<u8>>) -> (r: String)
    ensures
        r@ == text_or_empty(bytes_of(o)),
{
    match o {
        Some(b) => field_string(b.as_slice()),
        None => String::new(),
    }
}

fn flag_field(o: Option<Vec<u8>>, default: bool) -> (r: bool)
    ensures
        r == flag_or(bytes_of(o), default),
{
    match o {
        Some(b) => if b.len() > 0 {
            b[0] != 0
        } else {
            default
        },
        None => default,
    }
}

/// Builds the session from what the walk's reads returned, `None` for a read
/// that failed. A failed read leaves its field at the default.
pub fn decode_session(
    id: Option<Vec<u8>>,
    host: Option<Vec<u8>>,
    mission: Option<Vec<u8>>,
    expedition: Option<Vec<u8>>,
) -> (r: SessionInfo)
    ensures
        r.session_id@ == text_or_empty(bytes_of(id)),
        r.hostname@ == text_or_empty(bytes_of(host)),
        r.is_mission == flag_or(bytes_of(mission), true),
        r.is_expedition == flag_or(bytes_of(expedition), false),
{
    SessionInfo {
        session_id: text_field(id),
        hostname: text_field(host),
        is_mission: flag_field(mission, true),
        is_expedition: flag_field(expedition, false),
    }
}

/// The session as the walk decodes it from what the regions hold.
pub open spec fn session_from_image(regions: Seq<MemoryRegion>, table: AnchorTable) -> SessionView {
    match session_plan_of(table) {
        Some(p) => SessionView {
            session_id: text_or_empty(read_from(regions, p.id_address as int, ID_LENGTH as int, 0)),
            hostname: text_or_empty(
                read_from(regions, p.host_address as int, PLAYER_NAME_LENGTH as int, 0),
            ),
            is_mission: flag_or(read_from(regions, p.mission_address as int, 1, 0), true),
            is_expedition: flag_or(read_from(regions, p.expedition_address as int, 1, 0), false),
        },
        None => default_session(),
    }
}

/// Reads the session from the bytes the regions hold. Without a usable
/// LobbyStatus anchor the session is the default one.
pub fn get_session_data(regions: &Vec<MemoryRegion>, table: &AnchorTable) -> (r: SessionInfo)
    requires
        table.wf(),
    ensures
        r@ == session_from_image(regions@, *table),
{
    match session_plan(table) {
        None => SessionInfo::default(),
        Some(p) => decode_session(
            read_regions(regions, p.id_address, ID_LENGTH),
            read_regions(regions, p.host_address, PLAYER_NAME_LENGTH),
            read_regions(regions, p.mission_address, 1),
            read_regions(regions, p.expedition_address, 1),
        ),
    }
}

/// One snapshot from the bytes the regions hold: the session walk. The
/// player and monster walks have no data to read there, so those lists
/// stay empty.
pub fn update_all(regions: &Vec<MemoryRegion>, table: &AnchorTable) -> (r: GameData)
    requires
        table.wf(),
    ensures
        r.session@ == session_from_image(regions@, *table),
        r.players@.len() == 0,
        r.monsters@.len() == 0,
{
    GameData::new(get_session_data(regions, table))
}

} // verus!
