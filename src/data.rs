use crate::error::HuntError;
use crate::monster::{monster_data, monster_table, CrownType, MonsterData};
use crate::text::{field_string, field_text};
use vstd::prelude::*;

verus! {

/// Size categories of a monster.
#[derive(Debug, Clone, Copy, PartialEq, Eq, Structural)]
pub enum Crown {
    SmallGold,
    Silver,
    Gold,
}

/// The display name of a crown.
pub open spec fn crown_text(c: Crown) -> Seq<char> {
    match c {
        Crown::SmallGold => "Small Gold"@,
        Crown::Silver => "Silver"@,
        Crown::Gold => "Gold"@,
    }
}

impl Crown {
    /// The crown's display name.
    pub fn to_string(&self) -> (r: String)
        ensures
            r@ == crown_text(*self),
    {
        let s = match self {
            Crown::SmallGold => "Small Gold",
            Crown::Silver => "Silver",
            Crown::Gold => "Gold",
        };
        s.to_owned()
    }
}

/// One hunter of the session.
#[derive(Debug, Clone)]
pub struct PlayerInfo {
    pub name: String,
    pub damage: usize,
    pub left_session: bool,
}

/// Four bytes read as a little-endian unsigned number.
pub open spec fn le_u32_value(b: Seq<u8>) -> int {
    b[0] + b[1] * 0x100 + b[2] * 0x1_0000 + b[3] * 0x100_0000
}

impl PlayerInfo {
    /// Decodes one entry of the player array: its NUL-padded UTF-8 name, its
    /// little-endian 32-bit damage counter and its "left session" byte.
    pub fn get_player_info(name: &[u8], damage: &[u8], left_session: u8) -> (r: Self)
        requires
            damage@.len() == 4,
        ensures
            r.name@ == field_text(name@),
            r.damage == le_u32_value(damage@),
            r.left_session == (left_session != 0),
    {
        let d: u32 = damage[0] as u32 + damage[1] as u32 * 0x100 + damage[2] as u32 * 0x1_0000
            + damage[3] as u32 * 0x100_0000;
        PlayerInfo { name: field_string(name), damage: d as usize, left_session: left_session != 0 }
    }
}

/// The crown of a monster of `size` hundredths, with thresholds in percent
/// of `base_size` hundredths. An undefined crown type gives none.
pub open spec fn crown_of(size: int, base_size: int, m: MonsterData) -> Option<Crown> {
    let c = m.crown_data;
    if c.crown_type == CrownType::Undefined {
        None
    } else if size * 100 < base_size * c.small {
        Some(Crown::SmallGold)
    } else if size * 100 >= base_size * c.very_large {
        Some(Crown::Gold)
    } else if size * 100 >= base_size * c.large {
        Some(Crown::Silver)
    } else {
        None
    }
}

/// One monster of the hunt. `size` is in hundredths.
#[derive(Debug, Clone)]
pub struct MonsterInfo {
    pub id: u32,
    pub name: String,
    pub hp: u32,
    pub max_hp: u32,
    pub size: u64,
    pub crown: Option<Crown>,
}

impl MonsterInfo {
    /// A monster of the metadata table; an unknown id is an error.
    pub fn new(id: u32, hp: u32, max_hp: u32, size: u64) -> (r: Result<Self, HuntError>)
        ensures
            match monster_table(id) {
                Some(m) => r matches Ok(info) && info.id == id && info.name@ == m.name@ && info.hp
                    == hp && info.max_hp == max_hp && info.size == size && info.crown == crown_of(
                    size as int,
                    m.base_size as int,
                    m,
                ),
                None => r == Err::<Self, HuntError>(HuntError::UnknownMonster(id)),
            },
    {
        match monster_data(id) {
            None => Err(HuntError::UnknownMonster(id)),
            Some(m) => {
                let crown = Self::calc_crown(size, &m);
                Ok(MonsterInfo { id, name: m.name.to_owned(), hp, max_hp, size, crown })
            },
        }
    }

    /// Buckets a size into a crown by the monster's thresholds.
    pub fn calc_crown(size: u64, monster_data: &MonsterData) -> (r: Option<Crown>)
        ensures
            r == crown_of(size as int, monster_data.base_size as int, *monster_data),
    {
        let c = monster_data.crown_data;
        if c.crown_type == CrownType::Undefined {
            return None;
        }
        let scaled: u128 = size as u128 * 100;
        let base: u128 = monster_data.base_size as u128;
        proof {
            lemma_threshold_fits(base as int, c.small as int);
            lemma_threshold_fits(base as int, c.large as int);
            lemma_threshold_fits(base as int, c.very_large as int);
        }
        if scaled < base * c.small as u128 {
            return Some(Crown::SmallGold);
        }
        if scaled >= base * c.very_large as u128 {
            return Some(Crown::Gold);
        }
        if scaled >= base * c.large as u128 {
            return Some(Crown::Silver);
        }
        None
    }
}

proof fn lemma_threshold_fits(base: int, percent: int)
    requires
        0 <= base <= u64::MAX,
        0 <= percent <= u32::MAX,
    ensures
        base * percent <= u128::MAX,
{
    assert(base * percent <= u64::MAX * u32::MAX) by (nonlinear_arith)
        requires
            0 <= base <= u64::MAX,
            0 <= percent <= u32::MAX,
    ;
}

/// The state of the lobby.
#[derive(Debug, Clone)]
pub struct SessionInfo {
    pub session_id: String,
    pub hostname: String,
    pub is_mission: bool,
    pub is_expedition: bool,
}

/// The contents of a session.
pub struct SessionView {
    pub session_id: Seq<char>,
    pub hostname: Seq<char>,
    pub is_mission: bool,
    pub is_expedition: bool,
}

impl View for SessionInfo {
    type V = SessionView;

    open spec fn view(&self) -> SessionView {
        SessionView {
            session_id: self.session_id@,
            hostname: self.hostname@,
            is_mission: self.is_mission,
            is_expedition: self.is_expedition,
        }
    }
}

/// The session that stands in when none could be read.
pub open spec fn default_session() -> SessionView {
    SessionView {
        session_id: Seq::empty(),
        hostname: Seq::empty(),
        is_mission: true,
        is_expedition: false,
    }
}

impl Default for SessionInfo {
    /// No id or host; "in a mission", so that players and monsters are
    /// still looked for when the session could not be read.
    fn default() -> (r: Self)
        ensures
            r@ == default_session(),
    {
        SessionInfo {
            session_id: String::new(),
            hostname: String::new(),
            is_mission: true,
            is_expedition: false,
        }
    }
}

/// Sum of the damage of the players.
pub open spec fn total_damage(players: Seq<PlayerInfo>) -> int
    decreases players.len(),
{
    if players.len() == 0 {
        0
    } else {
        total_damage(players.drop_last()) + players.last().damage
    }
}

/// One snapshot of the hunt.
#[derive(Debug, Clone)]
pub struct GameData {
    pub session: SessionInfo,
    pub monsters: Vec<MonsterInfo>,
    pub players: Vec<PlayerInfo>,
}

impl GameData {
    pub fn new(session: SessionInfo) -> (r: Self)
        ensures
            r.session == session,
            r.monsters@.len() == 0,
            r.players@.len() == 0,
    {
        GameData { session, monsters: Vec::new(), players: Vec::new() }
    }

    pub fn get_total_damage(&self) -> (r: usize)
        requires
            total_damage(self.players@) <= usize::MAX,
        ensures
            r == total_damage(self.players@),
    {
        let mut total: usize = 0;
        let mut i: usize = 0;
        while i < self.players.len()
            invariant
                i <= self.players@.len(),
                total == total_damage(self.players@.subrange(0, i as int)),
                total_damage(self.players@) <= usize::MAX,
            decreases self.players@.len() - i,
        {
            proof {
                let s = self.players@.subrange(0, i + 1);
                assert(s.drop_last() =~= self.players@.subrange(0, i as int));
                lemma_total_damage_prefix(self.players@, i + 1);
            }
            total = total + self.players[i].damage;
            i += 1;
        }
        assert(self.players@.subrange(0, i as int) =~= self.players@);
        total
    }
}

proof fn lemma_total_damage_prefix(players: Seq<PlayerInfo>, i: int)
    requires
        0 <= i <= players.len(),
    ensures
        total_damage(players.subrange(0, i)) <= total_damage(players),
    decreases players.len(),
{
    if i < players.len() {
        assert(players.drop_last().subrange(0, i) =~= players.subrange(0, i));
        lemma_total_damage_prefix(players.drop_last(), i);
    } else {
        assert(players.subrange(0, i) =~= players);
    }
}

/// When no player's damage decreases from one snapshot to the next, neither
/// does the total.
pub proof fn lemma_total_damage_monotone(before: Seq<PlayerInfo>, after: Seq<PlayerInfo>)
    requires
        before.len() == after.len(),
        forall|i: int| 0 <= i < before.len() ==> (#[trigger] before[i]).damage <= after[i].damage,
    ensures
        total_damage(before) <= total_damage(after),
    decreases before.len(),
{
    if before.len() > 0 {
        lemma_total_damage_monotone(before.drop_last(), after.drop_last());
    }
}

} // verus!
