use vstd::prelude::*;

verus! {

/// Which set of crown thresholds a monster uses.
#[derive(Debug, Clone, Copy, PartialEq, Eq, Structural)]
pub enum CrownType {
    Undefined,
    Standard,
    Alternate,
    Savage,
    Rajang,
}

/// Crown thresholds, in percent of the monster's base size.
#[derive(Debug, Clone, Copy, PartialEq, Eq, Structural)]
pub struct CrownData {
    pub crown_type: CrownType,
    pub small: u32,
    pub large: u32,
    pub very_large: u32,
}

/// The thresholds of each crown type.
pub open spec fn crown_data_spec(crown_type: CrownType) -> CrownData {
    match crown_type {
        CrownType::Undefined => CrownData { crown_type, small: 100, large: 100, very_large: 100 },
        CrownType::Standard => CrownData { crown_type, small: 90, large: 115, very_large: 123 },
        CrownType::Alternate => CrownData { crown_type, small: 90, large: 110, very_large: 120 },
        CrownType::Savage => CrownData { crown_type, small: 99, large: 114, very_large: 120 },
        CrownType::Rajang => CrownData { crown_type, small: 90, large: 111, very_large: 128 },
    }
}

/// The thresholds of a crown type.
pub fn crown_data(crown_type: CrownType) -> (r: CrownData)
    ensures
        r == crown_data_spec(crown_type),
{
    match crown_type {
        CrownType::Undefined => CrownData { crown_type, small: 100, large: 100, very_large: 100 },
        CrownType::Standard => CrownData { crown_type, small: 90, large: 115, very_large: 123 },
        CrownType::Alternate => CrownData { crown_type, small: 90, large: 110, very_large: 120 },
        CrownType::Savage => CrownData { crown_type, small: 99, large: 114, very_large: 120 },
        CrownType::Rajang => CrownData { crown_type, small: 90, large: 111, very_large: 128 },
    }
}

/// What the game's data says of one monster. `base_size` is in hundredths.
#[derive(Debug, Clone, Copy)]
pub struct MonsterData {
    pub str_id: &'static str,
    pub id: u32,
    pub base_size: u64,
    pub crown_data: CrownData,
    pub name: &'static str,
}

impl MonsterData {
    /// The crown thresholds are those of the monster's crown type.
    pub open spec fn wf(&self) -> bool {
        self.crown_data == crown_data_spec(self.crown_data.crown_type)
    }
}

pub open spec fn entry_spec(
    str_id: &'static str,
    id: u32,
    base_size: u64,
    crown_type: CrownType,
    name: &'static str,
) -> MonsterData {
    MonsterData { str_id, id, base_size, crown_data: crown_data_spec(crown_type), name }
}

/// The metadata table, by numeric id.
pub open spec fn monster_table(id: u32) -> Option<MonsterData> {
    match id {
        9 => Some(entry_spec("em001_00", 9, 175437, CrownType::Standard, "Rathian")),
        10 => Some(entry_spec("em001_01", 10, 175437, CrownType::Standard, "Pink Rathian")),
        88 => Some(entry_spec("em001_02", 88, 175437, CrownType::Standard, "Gold Rathian")),
        1 => Some(entry_spec("em002_00", 1, 170422, CrownType::Standard, "Rathalos")),
        11 => Some(entry_spec("em002_01", 11, 170422, CrownType::Standard, "Azure Rathalos")),
        89 => Some(entry_spec("em002_02", 89, 170422, CrownType::Standard, "Silver Rathalos")),
        12 => Some(entry_spec("em007_00", 12, 209625, CrownType::Standard, "Diablos")),
        13 => Some(entry_spec("em007_01", 13, 209625, CrownType::Standard, "Black Diablos")),
        14 => Some(entry_spec("em011_00", 14, 53626, CrownType::Standard, "Kirin")),
        90 => Some(entry_spec("em018_00", 90, 138901, CrownType::Standard, "Yian Garuga")),
        99 => Some(entry_spec("em018_05", 99, 138901, CrownType::Standard, "Scarred Yian Garuga")),
        91 => Some(entry_spec("em023_00", 91, 82911, CrownType::Rajang, "Rajang")),
        92 => Some(entry_spec("em023_05", 92, 82911, CrownType::Rajang, "Furious Rajang")),
        16 => Some(entry_spec("em024_00", 16, 191313, CrownType::Standard, "Kushala Daora")),
        17 => Some(entry_spec("em026_00", 17, 182869, CrownType::Standard, "Lunastra")),
        18 => Some(entry_spec("em027_00", 18, 179015, CrownType::Standard, "Teostra")),
        61 => Some(entry_spec("em032_00", 61, 194320, CrownType::Standard, "Tigrex")),
        93 => Some(entry_spec("em032_01", 93, 194320, CrownType::Standard, "Brute Tigrex")),
        19 => Some(entry_spec("em036_00", 19, 179724, CrownType::Standard, "Lavasioth")),
        62 => Some(entry_spec("em037_00", 62, 191474, CrownType::Standard, "Nargacuga")),
        63 => Some(entry_spec("em042_00", 63, 209830, CrownType::Standard, "Barioth")),
        20 => Some(entry_spec("em043_00", 20, 206382, CrownType::Alternate, "Deviljho")),
        64 => Some(entry_spec("em043_05", 64, 206382, CrownType::Savage, "Savage Deviljho")),
        21 => Some(entry_spec("em044_00", 21, 138307, CrownType::Standard, "Barroth")),
        22 => Some(entry_spec("em045_00", 22, 205863, CrownType::Alternate, "Uragaan")),
        94 => Some(entry_spec("em057_00", 94, 174349, CrownType::Standard, "Zinogre")),
        65 => Some(entry_spec("em063_00", 65, 163055, CrownType::Standard, "Brachydios")),
        96 => Some(entry_spec("em063_05", 96, 228277, CrownType::Standard, "Raging Brachydios")),
        95 => Some(entry_spec("em057_01", 95, 174349, CrownType::Standard, "Stygian Zinogre")),
        66 => Some(entry_spec("em080_00", 66, 246150, CrownType::Alternate, "Glavenus")),
        67 => Some(entry_spec("em080_01", 67, 237244, CrownType::Alternate, "Acidic Glavenus")),
        0 => Some(entry_spec("em100_00", 0, 164646, CrownType::Alternate, "Anjanath")),
        68 => Some(entry_spec("em100_01", 68, 164646, CrownType::Alternate, "Fulgur Anjanath")),
        7 => Some(entry_spec("em101_00", 7, 110966, CrownType::Standard, "Great Jagras")),
        24 => Some(entry_spec("em102_00", 24, 110245, CrownType::Alternate, "Pukei Pukei")),
        69 => Some(entry_spec("em102_01", 69, 110245, CrownType::Alternate, "Coral Pukei Pukei")),
        25 => Some(entry_spec("em103_00", 25, 184812, CrownType::Standard, "Nergigante")),
        70 => Some(entry_spec("em103_05", 70, 184812, CrownType::Standard, "Ruiner Nergigante")),
        97 => Some(entry_spec("em104_00", 97, 479978, CrownType::Standard, "Safi Jiiva")),
        26 => Some(entry_spec("em105_00", 26, 450910, CrownType::Undefined, "Xeno Jiiva")),
        4 => Some(entry_spec("em106_00", 4, 2576459, CrownType::Undefined, "Zorah Magdaros")),
        27 => Some(entry_spec("em107_00", 27, 90124, CrownType::Standard, "Kulu Ya Ku")),
        29 => Some(entry_spec("em108_00", 29, 150871, CrownType::Standard, "Jyuratodus")),
        30 => Some(entry_spec("em109_00", 30, 130052, CrownType::Alternate, "Tobi Kadachi")),
        71 => Some(entry_spec("em109_01", 71, 130052, CrownType::Alternate, "Viper Tobi Kadachi")),
        31 => Some(entry_spec("em110_00", 31, 114336, CrownType::Standard, "Paolumu")),
        72 => Some(entry_spec("em110_01", 72, 114336, CrownType::Standard, "Nightshade Paolumu")),
        32 => Some(entry_spec("em111_00", 32, 169975, CrownType::Standard, "Legiana")),
        73 => Some(entry_spec("em111_05", 73, 183169, CrownType::Standard, "Shrieking Legiana")),
        33 => Some(entry_spec("em112_00", 33, 105315, CrownType::Standard, "Great Girros")),
        34 => Some(entry_spec("em113_00", 34, 138875, CrownType::Standard, "Odogaron")),
        74 => Some(entry_spec("em113_01", 74, 138875, CrownType::Standard, "Ebony Odogaron")),
        35 => Some(entry_spec("em114_00", 35, 180347, CrownType::Alternate, "Radobaan")),
        36 => Some(entry_spec("em115_00", 36, 209540, CrownType::Standard, "Vaal Hazak")),
        75 => Some(entry_spec("em115_05", 75, 209540, CrownType::Standard, "Blackveil Vaal Hazak")),
        37 => Some(entry_spec("em116_00", 37, 111111, CrownType::Standard, "Dodogama")),
        38 => Some(entry_spec("em117_00", 38, 457325, CrownType::Undefined, "Kulve Taroth")),
        39 => Some(entry_spec("em118_00", 39, 192838, CrownType::Standard, "Bazelgeuse")),
        76 => Some(entry_spec("em118_05", 76, 192838, CrownType::Standard, "Seething Bazelgeuse")),
        28 => Some(entry_spec("em120_00", 28, 89404, CrownType::Standard, "Tzitzi Ya Ku")),
        15 => Some(entry_spec("em121_00", 15, 342365, CrownType::Undefined, "Behemoth")),
        77 => Some(entry_spec("em122_00", 77, 166199, CrownType::Standard, "Beotodus")),
        78 => Some(entry_spec("em123_00", 78, 240484, CrownType::Standard, "Banbaro")),
        79 => Some(entry_spec("em124_00", 79, 259605, CrownType::Standard, "Velkhana")),
        80 => Some(entry_spec("em125_00", 80, 204825, CrownType::Standard, "Namielle")),
        81 => Some(entry_spec("em126_00", 81, 291091, CrownType::Undefined, "Shara Ishvalda")),
        23 => Some(entry_spec("em127_00", 23, 54970, CrownType::Undefined, "Leshen")),
        51 => Some(entry_spec("em127_01", 51, 63381, CrownType::Undefined, "Ancient Leshen")),
        87 => Some(entry_spec("em050_00", 87, 296963, CrownType::Undefined, "Alatreon")),
        100 => Some(entry_spec("em042_05", 100, 209830, CrownType::Undefined, "Frostfang Barioth")),
        101 => Some(entry_spec("em013_00", 101, 413717, CrownType::Undefined, "Fatalis")),
        _ => None,
    }
}

fn entry(
    str_id: &'static str,
    id: u32,
    base_size: u64,
    crown_type: CrownType,
    name: &'static str,
) -> (r: MonsterData)
    ensures
        r == entry_spec(str_id, id, base_size, crown_type, name),
{
    MonsterData { str_id, id, base_size, crown_data: crown_data(crown_type), name }
}

/// Every entry of the table is filed under its own id, has a positive base
/// size, and carries the thresholds of its crown type.
pub proof fn lemma_table_wf(id: u32)
    ensures
        monster_table(id) matches Some(m) ==> m.id == id && m.wf() && m.base_size > 0,
{
}

/// Looks a monster up by its numeric id.
#[verifier::rlimit(50)]
pub fn monster_data(id: u32) -> (r: Option<MonsterData>)
    ensures
        r == monster_table(id),
{
    match id {
        9 => Some(entry("em001_00", 9, 175437, CrownType::Standard, "Rathian")),
        10 => Some(entry("em001_01", 10, 175437, CrownType::Standard, "Pink Rathian")),
        88 => Some(entry("em001_02", 88, 175437, CrownType::Standard, "Gold Rathian")),
        1 => Some(entry("em002_00", 1, 170422, CrownType::Standard, "Rathalos")),
        11 => Some(entry("em002_01", 11, 170422, CrownType::Standard, "Azure Rathalos")),
        89 => Some(entry("em002_02", 89, 170422, CrownType::Standard, "Silver Rathalos")),
        12 => Some(entry("em007_00", 12, 209625, CrownType::Standard, "Diablos")),
        13 => Some(entry("em007_01", 13, 209625, CrownType::Standard, "Black Diablos")),
        14 => Some(entry("em011_00", 14, 53626, CrownType::Standard, "Kirin")),
        90 => Some(entry("em018_00", 90, 138901, CrownType::Standard, "Yian Garuga")),
        99 => Some(entry("em018_05", 99, 138901, CrownType::Standard, "Scarred Yian Garuga")),
        91 => Some(entry("em023_00", 91, 82911, CrownType::Rajang, "Rajang")),
        92 => Some(entry("em023_05", 92, 82911, CrownType::Rajang, "Furious Rajang")),
        16 => Some(entry("em024_00", 16, 191313, CrownType::Standard, "Kushala Daora")),
        17 => Some(entry("em026_00", 17, 182869, CrownType::Standard, "Lunastra")),
        18 => Some(entry("em027_00", 18, 179015, CrownType::Standard, "Teostra")),
        61 => Some(entry("em032_00", 61, 194320, CrownType::Standard, "Tigrex")),
        93 => Some(entry("em032_01", 93, 194320, CrownType::Standard, "Brute Tigrex")),
        19 => Some(entry("em036_00", 19, 179724, CrownType::Standard, "Lavasioth")),
        62 => Some(entry("em037_00", 62, 191474, CrownType::Standard, "Nargacuga")),
        63 => Some(entry("em042_00", 63, 209830, CrownType::Standard, "Barioth")),
        20 => Some(entry("em043_00", 20, 206382, CrownType::Alternate, "Deviljho")),
        64 => Some(entry("em043_05", 64, 206382, CrownType::Savage, "Savage Deviljho")),
        21 => Some(entry("em044_00", 21, 138307, CrownType::Standard, "Barroth")),
        22 => Some(entry("em045_00", 22, 205863, CrownType::Alternate, "Uragaan")),
        94 => Some(entry("em057_00", 94, 174349, CrownType::Standard, "Zinogre")),
        65 => Some(entry("em063_00", 65, 163055, CrownType::Standard, "Brachydios")),
        96 => Some(entry("em063_05", 96, 228277, CrownType::Standard, "Raging Brachydios")),
        95 => Some(entry("em057_01", 95, 174349, CrownType::Standard, "Stygian Zinogre")),
        66 => Some(entry("em080_00", 66, 246150, CrownType::Alternate, "Glavenus")),
        67 => Some(entry("em080_01", 67, 237244, CrownType::Alternate, "Acidic Glavenus")),
        0 => Some(entry("em100_00", 0, 164646, CrownType::Alternate, "Anjanath")),
        68 => Some(entry("em100_01", 68, 164646, CrownType::Alternate, "Fulgur Anjanath")),
        7 => Some(entry("em101_00", 7, 110966, CrownType::Standard, "Great Jagras")),
        24 => Some(entry("em102_00", 24, 110245, CrownType::Alternate, "Pukei Pukei")),
        69 => Some(entry("em102_01", 69, 110245, CrownType::Alternate, "Coral Pukei Pukei")),
        25 => Some(entry("em103_00", 25, 184812, CrownType::Standard, "Nergigante")),
        70 => Some(entry("em103_05", 70, 184812, CrownType::Standard, "Ruiner Nergigante")),
        97 => Some(entry("em104_00", 97, 479978, CrownType::Standard, "Safi Jiiva")),
        26 => Some(entry("em105_00", 26, 450910, CrownType::Undefined, "Xeno Jiiva")),
        4 => Some(entry("em106_00", 4, 2576459, CrownType::Undefined, "Zorah Magdaros")),
        27 => Some(entry("em107_00", 27, 90124, CrownType::Standard, "Kulu Ya Ku")),
        29 => Some(entry("em108_00", 29, 150871, CrownType::Standard, "Jyuratodus")),
        30 => Some(entry("em109_00", 30, 130052, CrownType::Alternate, "Tobi Kadachi")),
        71 => Some(entry("em109_01", 71, 130052, CrownType::Alternate, "Viper Tobi Kadachi")),
        31 => Some(entry("em110_00", 31, 114336, CrownType::Standard, "Paolumu")),
        72 => Some(entry("em110_01", 72, 114336, CrownType::Standard, "Nightshade Paolumu")),
        32 => Some(entry("em111_00", 32, 169975, CrownType::Standard, "Legiana")),
        73 => Some(entry("em111_05", 73, 183169, CrownType::Standard, "Shrieking Legiana")),
        33 => Some(entry("em112_00", 33, 105315, CrownType::Standard, "Great Girros")),
        34 => Some(entry("em113_00", 34, 138875, CrownType::Standard, "Odogaron")),
        74 => Some(entry("em113_01", 74, 138875, CrownType::Standard, "Ebony Odogaron")),
        35 => Some(entry("em114_00", 35, 180347, CrownType::Alternate, "Radobaan")),
        36 => Some(entry("em115_00", 36, 209540, CrownType::Standard, "Vaal Hazak")),
        75 => Some(entry("em115_05", 75, 209540, CrownType::Standard, "Blackveil Vaal Hazak")),
        37 => Some(entry("em116_00", 37, 111111, CrownType::Standard, "Dodogama")),
        38 => Some(entry("em117_00", 38, 457325, CrownType::Undefined, "Kulve Taroth")),
        39 => Some(entry("em118_00", 39, 192838, CrownType::Standard, "Bazelgeuse")),
        76 => Some(entry("em118_05", 76, 192838, CrownType::Standard, "Seething Bazelgeuse")),
        28 => Some(entry("em120_00", 28, 89404, CrownType::Standard, "Tzitzi Ya Ku")),
        15 => Some(entry("em121_00", 15, 342365, CrownType::Undefined, "Behemoth")),
        77 => Some(entry("em122_00", 77, 166199, CrownType::Standard, "Beotodus")),
        78 => Some(entry("em123_00", 78, 240484, CrownType::Standard, "Banbaro")),
        79 => Some(entry("em124_00", 79, 259605, CrownType::Standard, "Velkhana")),
        80 => Some(entry("em125_00", 80, 204825, CrownType::Standard, "Namielle")),
        81 => Some(entry("em126_00", 81, 291091, CrownType::Undefined, "Shara Ishvalda")),
        23 => Some(entry("em127_00", 23, 54970, CrownType::Undefined, "Leshen")),
        51 => Some(entry("em127_01", 51, 63381, CrownType::Undefined, "Ancient Leshen")),
        87 => Some(entry("em050_00", 87, 296963, CrownType::Undefined, "Alatreon")),
        100 => Some(entry("em042_05", 100, 209830, CrownType::Undefined, "Frostfang Barioth")),
        101 => Some(entry("em013_00", 101, 413717, CrownType::Undefined, "Fatalis")),
        _ => None,
    }
}

} // verus!
