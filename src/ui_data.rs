use vstd::prelude::*;

pub use crate::data::Crown;

verus! {

/// A player as the dashboard lists it.
#[derive(Debug, Clone)]
pub struct PlayerInfo {
    pub name: String,
    pub damage: usize,
    pub left_session: bool,
}

/// A monster as the dashboard lists it.
#[derive(Debug, Clone)]
pub struct MonsterInfo {
    pub name: String,
    pub hp: u32,
    pub max_hp: u32,
    pub crown: Option<Crown>,
}

impl MonsterInfo {
    /// The entry shown while no monster data is available.
    pub fn get_monster_info() -> (r: Self)
        ensures
            r.name@ == "<N/A>"@,
            r.hp == 0,
            r.max_hp == 0,
            r.crown is None,
    {
        MonsterInfo { name: "<N/A>".to_owned(), hp: 0, max_hp: 0, crown: None }
    }
}

/// Number of entries of `s` that are present.
pub open spec fn count_some<T>(s: Seq<Option<T>>) -> int
    decreases s.len(),
{
    if s.len() == 0 {
        0
    } else {
        count_some(s.drop_last()) + if s.last() is Some {
            1int
        } else {
            0
        }
    }
}

fn count_present<T>(s: &[Option<T>]) -> (r: usize)
    ensures
        r == count_some(s@),
{
    let mut n: usize = 0;
    let mut i: usize = 0;
    while i < s.len()
        invariant
            i <= s@.len(),
            n == count_some(s@.subrange(0, i as int)),
            n <= i,
        decreases s@.len() - i,
    {
        assert(s@.subrange(0, i + 1).drop_last() =~= s@.subrange(0, i as int));
        if s[i].is_some() {
            n += 1;
        }
        i += 1;
    }
    assert(s@.subrange(0, i as int) =~= s@);
    n
}

/// Everything one frame of the dashboard shows.
pub struct UiInfo {
    pub player_info: [Option<PlayerInfo>; 4],
    pub monster_info: [Option<MonsterInfo>; 3],
    pub session_id: String,
    pub host_name: String,
}

impl UiInfo {
    pub fn get_num_players(&self) -> (r: usize)
        ensures
            r == count_some(self.player_info@),
    {
        count_present(self.player_info.as_slice())
    }

    pub fn get_num_monsters(&self) -> (r: usize)
        ensures
            r == count_some(self.monster_info@),
    {
        count_present(self.monster_info.as_slice())
    }
}

} // verus!
