use crate::data::Crown;
use vstd::prelude::*;

verus! {

/// What the monster bar shows.
pub struct Monster<'a> {
    pub name: &'a str,
    pub hp: u32,
    pub max_hp: u32,
    pub crown: Option<Crown>,
}

impl<'a> Monster<'a> {
    /// A monster bar at full health.
    pub fn new(name: &'a str, max_hp: u32, crown: Option<Crown>) -> (r: Self)
        ensures
            r.name == name,
            r.max_hp == max_hp,
            r.hp == max_hp,
            r.crown == crown,
    {
        Monster { name, max_hp, hp: max_hp, crown }
    }

    /// Sets the health shown, never above the maximum.
    pub fn update_hp(self, hp: u32) -> (r: Self)
        ensures
            r.name == self.name,
            r.max_hp == self.max_hp,
            r.crown == self.crown,
            r.hp == if hp > self.max_hp {
                self.max_hp
            } else {
                hp
            },
    {
        let mut s = self;
        if hp > s.max_hp {
            s.hp = s.max_hp;
        } else {
            s.hp = hp;
        }
        s
    }
}

/// What a player's damage bar shows.
pub struct Player<'a> {
    pub name: &'a str,
    pub total_damage: usize,
    pub damage_delt: usize,
}

impl<'a> Player<'a> {
    pub fn new(name: &'a str) -> (r: Self)
        ensures
            r.name == name,
            r.total_damage == 0,
            r.damage_delt == 0,
    {
        Player { name, total_damage: 0, damage_delt: 0 }
    }

    /// Sets the player's damage and the total of all players.
    pub fn update_damage(self, damage: usize, total_damage: usize) -> (r: Self)
        ensures
            r.name == self.name,
            r.damage_delt == damage,
            r.total_damage == total_damage,
    {
        let mut s = self;
        s.damage_delt = damage;
        s.total_damage = total_damage;
        s
    }
}

} // verus!
