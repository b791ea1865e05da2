use linux_hunter_lib::anchor::{
    all_pattern_types, check_required_anchors, find_anchors, load_rel_addr, locate_anchor,
    resolve_rip_relative, AnchorTable,
};
use linux_hunter_lib::data::{Crown, GameData, MonsterInfo, PlayerInfo, SessionInfo};
use linux_hunter_lib::dump::{dump_file_begin, dump_files, load_dump};
use linux_hunter_lib::error::HuntError;
use linux_hunter_lib::maps::{dump_file_name, get_memory_regions, parse_maps_line};
use linux_hunter_lib::monster::{crown_data, monster_data, CrownType, MonsterData};
use linux_hunter_lib::offsets::{
    EXPEDITION_STATUS_OFFSET, ID_LENGTH, MISSION_STATUS_OFFSET, PLAYER_NAME_LENGTH,
    SESSION_HOST_NAME, SESSION_ID,
};
use linux_hunter_lib::orchestrator::{
    after_failed_discovery, exit_code, tick_sleep_ms, Discovery, DISCOVERY_INTERVAL_MS,
};
use linux_hunter_lib::pattern::{
    find_pattern, find_player_name, get_search_index, search_signature, seed, signature,
    MemoryLocation, PatternGetter, PatternType,
};
use linux_hunter_lib::region::{read_regions, verify_regions, MemoryRegion};
use linux_hunter_lib::text::{field_string, trim_nul, utf8_or_empty};
use linux_hunter_lib::ui_data::{MonsterInfo as UiMonsterInfo, UiInfo};
use linux_hunter_lib::update::{decode_session, get_session_data, session_plan, update_all};
use linux_hunter_lib::widgets::{Monster, Player};

/// The bytes of a signature, wildcards written as 0.
fn sig_bytes(kind: PatternType) -> Vec<u8> {
    signature(kind).iter().map(|s| s.unwrap_or(0)).collect()
}

const CODE_BEGIN: usize = 0x10000;
const LOBBY_BASE: usize = 0x20000;

/// A code region holding the signatures of `kinds`, with the LobbyStatus
/// operand pointing at `LOBBY_BASE`.
fn code_region(kinds: &[PatternType]) -> MemoryRegion {
    let mut bytes = vec![0u8; 16];
    for &kind in kinds {
        let at = bytes.len();
        let mut sig = sig_bytes(kind);
        if kind == PatternType::LobbyStatus {
            let disp = (LOBBY_BASE as i64 - (CODE_BEGIN + at + 7) as i64) as i32;
            sig[3..7].copy_from_slice(&disp.to_le_bytes());
        }
        bytes.extend_from_slice(&sig);
        bytes.extend_from_slice(&[0u8; 16]);
    }
    let mut r = MemoryRegion::new(CODE_BEGIN, CODE_BEGIN + bytes.len(), "10000", "code");
    r.fill_data(Some(bytes)).unwrap();
    r
}

/// The lobby structure: session id, NUL-padded host name and status bytes.
fn lobby_region(mission: u8, expedition: u8) -> MemoryRegion {
    let len = SESSION_HOST_NAME + PLAYER_NAME_LENGTH + 64;
    let mut bytes = vec![0u8; len];
    bytes[SESSION_ID..SESSION_ID + ID_LENGTH].copy_from_slice(b"ABCDEFGH0123");
    bytes[SESSION_HOST_NAME..SESSION_HOST_NAME + 5].copy_from_slice(b"alice");
    bytes[MISSION_STATUS_OFFSET] = mission;
    bytes[EXPEDITION_STATUS_OFFSET] = expedition;
    let mut r = MemoryRegion::new(LOBBY_BASE, LOBBY_BASE + len, "20000", "lobby");
    r.fill_data(Some(bytes)).unwrap();
    r
}

fn all_but(missing: &[PatternType]) -> Vec<PatternType> {
    all_pattern_types().into_iter().filter(|k| !missing.contains(k)).collect()
}

#[test]
fn seed_is_leading_concrete_bytes() {
    for kind in all_pattern_types() {
        let sig = signature(kind);
        let s = seed(&sig);
        assert_eq!(s.len(), 3);
        for i in 0..3 {
            assert_eq!(sig[i], Some(s[i]));
        }
        let bytes = sig_bytes(kind);
        let at = find_pattern(kind, &bytes).unwrap();
        assert_eq!(bytes[at..at + 3], s[..]);
    }
    assert_eq!(seed(&signature(PatternType::Emetta)), vec![0x45, 0x6D, 0x65]);
}

#[test]
fn wildcard_bytes_do_not_matter() {
    for kind in all_pattern_types() {
        let sig = signature(kind);
        let mut bytes = sig_bytes(kind);
        assert_eq!(find_pattern(kind, &bytes), Some(0));
        for (i, slot) in sig.iter().enumerate() {
            if slot.is_none() {
                bytes[i] = 0xA5;
            }
        }
        assert_eq!(find_pattern(kind, &bytes), Some(0));
        for (i, slot) in sig.iter().enumerate() {
            if slot.is_none() {
                bytes[i] = 0x48;
            }
        }
        assert_eq!(find_pattern(kind, &bytes), Some(0));
    }
}

#[test]
fn concrete_byte_mismatch_rejects() {
    let mut bytes = sig_bytes(PatternType::PlayerDamage);
    bytes[7] = 0xE9;
    assert_eq!(find_pattern(PatternType::PlayerDamage, &bytes), None);
}

#[test]
fn overlap_match_advances_one_byte() {
    let mut data = vec![0x00u8, 0x48, 0x8B, 0x0D, 0xAA, 0xBB, 0xCC];
    data.extend(sig_bytes(PatternType::PlayerName));
    assert_eq!(find_player_name(&data), Some(7));
}

#[test]
fn overlapping_seed_inside_wildcards() {
    let mut data = vec![0xAAu8, 0xBB, 0xCC, 0x48, 0x8B, 0x0D];
    data.extend(sig_bytes(PatternType::CurrentPlayerName));
    assert_eq!(find_pattern(PatternType::CurrentPlayerName, &data), Some(6));
}

#[test]
fn match_must_fit_in_region() {
    let bytes = sig_bytes(PatternType::PlayerNameLinux);
    assert_eq!(find_pattern(PatternType::PlayerNameLinux, &bytes[..bytes.len() - 1]), None);
    assert_eq!(find_pattern(PatternType::PlayerNameLinux, &[]), None);
}

#[test]
fn first_of_two_matches_wins() {
    let mut data = vec![0u8; 5];
    data.extend(sig_bytes(PatternType::Monsters));
    data.extend(sig_bytes(PatternType::Monsters));
    assert_eq!(find_pattern(PatternType::Monsters, &data), Some(5));
}

#[test]
fn search_index_finds_first_occurrence() {
    let hay = [1u8, 2, 1, 2, 3, 1, 2, 3];
    assert_eq!(get_search_index(&[1, 2, 3], &hay), Some(2));
    assert_eq!(get_search_index(&[2, 3, 4], &hay), None);
    assert_eq!(get_search_index(&[3], &hay), Some(4));
    let sig = vec![Some(1u8), Some(2), Some(3), None, Some(2)];
    assert_eq!(search_signature(&sig, &hay), Some(2));
}

#[test]
fn memory_location_adds_offset() {
    let loc = MemoryLocation::new(0x1000, 0x24);
    assert_eq!(loc.address, 0x1024);
    assert_eq!(loc.start, 0x1000);
    assert_eq!(loc.offset, 0x24);
}

#[test]
fn pattern_getter_search_states() {
    let mut getter = PatternGetter::new(PatternType::Emetta);
    assert!(getter.mem_location.is_none());
    let empty = MemoryRegion::new(0x5000, 0x5010, "5000", "empty");
    assert_eq!(getter.search(&empty), Err(HuntError::RegionReadFailure));

    let mut region = MemoryRegion::new(0x5000, 0x5010, "5000", "emetta");
    let mut bytes = vec![0u8; 16];
    bytes[4..10].copy_from_slice(b"Emetta");
    region.fill_data(Some(bytes)).unwrap();
    assert_eq!(getter.search(&region), Ok(()));
    let loc = getter.mem_location.unwrap();
    assert_eq!((loc.start, loc.offset, loc.address), (0x5000, 4, 0x5004));

    let mut other = MemoryRegion::new(0x6000, 0x6010, "6000", "zeros");
    other.fill_data(Some(vec![0u8; 16])).unwrap();
    assert_eq!(getter.search(&other), Err(HuntError::PatternMissing(PatternType::Emetta)));
    assert!(getter.mem_location.is_none());
}

#[test]
fn rip_relative_positive_and_negative() {
    assert_eq!(resolve_rip_relative(0x1000, &[0x10, 0x00, 0x00, 0x00]), Some(0x1017));
    assert_eq!(resolve_rip_relative(0x1000, &[0xF0, 0xFF, 0xFF, 0xFF]), Some(0xFF7));
    assert!(resolve_rip_relative(0x1000, &[0xF0, 0xFF, 0xFF, 0xFF]).unwrap() < 0x1000);
    assert_eq!(resolve_rip_relative(0x8000_0000, &[0x00, 0x00, 0x00, 0x80]), Some(7));
    assert_eq!(resolve_rip_relative(0x1000, &[0xFF, 0xFF, 0xFF, 0x7F]), Some(0x1000 + 7 + 0x7FFF_FFFF));
    assert_eq!(resolve_rip_relative(0, &[0xF0, 0xFF, 0xFF, 0xFF]), None);
    assert_eq!(resolve_rip_relative(usize::MAX - 3, &[0, 0, 0, 0]), None);
}

#[test]
fn load_rel_addr_reads_region_bytes() {
    let mut region = MemoryRegion::new(0x4000, 0x4010, "4000", "code");
    let mut bytes = vec![0u8; 16];
    bytes[2..9].copy_from_slice(&[0x48, 0x8B, 0x0D, 0x00, 0x01, 0x00, 0x00]);
    region.fill_data(Some(bytes)).unwrap();
    assert_eq!(load_rel_addr(&region, 2), Some(0x4002 + 7 + 0x100));
    assert_eq!(load_rel_addr(&region, 10), None);
    let empty = MemoryRegion::new(0x4000, 0x4010, "4000", "code");
    assert_eq!(load_rel_addr(&empty, 2), None);
}

#[test]
fn session_decode_from_regions() {
    let regions = vec![code_region(&all_pattern_types()), lobby_region(1, 0)];
    assert_eq!(verify_regions(&regions), Ok(()));
    let table = find_anchors(&regions, true).unwrap();
    let lobby = table.get(PatternType::LobbyStatus);
    assert!(lobby.found);
    assert_eq!(lobby.absolute_address, LOBBY_BASE);
    let plan = session_plan(&table).unwrap();
    assert_eq!(plan.id_address, LOBBY_BASE + SESSION_ID);
    let data = update_all(&regions, &table);
    assert_eq!(data.session.session_id, "ABCDEFGH0123");
    assert_eq!(data.session.hostname, "alice");
    assert!(data.session.is_mission);
    assert!(!data.session.is_expedition);
    assert!(data.players.is_empty());
}

#[test]
fn session_flags_follow_status_bytes() {
    let regions = vec![code_region(&all_pattern_types()), lobby_region(0, 7)];
    let table = find_anchors(&regions, false).unwrap();
    let session = get_session_data(&regions, &table);
    assert!(!session.is_mission);
    assert!(session.is_expedition);
}

#[test]
fn missing_monster_anchor_with_display_off() {
    let regions = vec![code_region(&all_but(&[PatternType::Monsters])), lobby_region(1, 0)];
    let table = find_anchors(&regions, false).unwrap();
    assert!(!table.get(PatternType::Monsters).found);
    let data = update_all(&regions, &table);
    assert!(data.monsters.is_empty());
    assert_eq!(data.session.session_id, "ABCDEFGH0123");
}

#[test]
fn missing_monster_anchor_with_display_on() {
    let regions = vec![code_region(&all_but(&[PatternType::Monsters])), lobby_region(1, 0)];
    let r = find_anchors(&regions, true);
    assert_eq!(r.clone().err(), Some(HuntError::PatternMissing(PatternType::Monsters)));
    assert_eq!(exit_code(&r.map(|_| ())), 1);
}

#[test]
fn missing_player_name_linux_is_fatal() {
    let regions = vec![code_region(&all_but(&[PatternType::PlayerNameLinux])), lobby_region(1, 0)];
    assert_eq!(
        find_anchors(&regions, false).err(),
        Some(HuntError::PatternMissing(PatternType::PlayerNameLinux))
    );
    let regions = vec![code_region(&all_but(&[PatternType::PlayerDamage])), lobby_region(1, 0)];
    assert_eq!(
        find_anchors(&regions, false).err(),
        Some(HuntError::PatternMissing(PatternType::PlayerDamage))
    );
}

#[test]
fn missing_lobby_gives_default_session() {
    let regions = vec![code_region(&all_but(&[PatternType::LobbyStatus])), lobby_region(0, 0)];
    let table = find_anchors(&regions, true).unwrap();
    assert!(session_plan(&table).is_none());
    let data = update_all(&regions, &table);
    assert_eq!(data.session.session_id, "");
    assert!(data.session.is_mission);
    assert!(!data.session.is_expedition);
    assert_eq!(check_required_anchors(&table, true), Ok(()));
}

#[test]
fn anchor_table_is_indexed_by_kind() {
    let regions = vec![code_region(&all_pattern_types())];
    let table = AnchorTable::find_patterns(&regions);
    for kind in all_pattern_types() {
        let a = table.get(kind);
        assert_eq!(a.kind, kind);
        assert!(a.found);
        assert_eq!(a.match_region_begin, CODE_BEGIN);
    }
}

#[test]
fn dump_round_trip_keeps_bytes_and_matches() {
    let regions = vec![code_region(&all_pattern_types()), lobby_region(1, 0)];
    let files = dump_files(&regions);
    assert_eq!(files.len(), 2);
    assert_eq!(files[0].name, "10000.bin");
    assert_eq!(files[1].name, "20000.bin");
    let loaded = load_dump(files);
    assert_eq!(loaded.len(), regions.len());
    for (l, r) in loaded.iter().zip(regions.iter()) {
        assert_eq!(l.data, r.data);
        assert_eq!(l.get_begin(), 0);
        assert!(l.from_vec);
    }
    for kind in all_pattern_types() {
        let a = locate_anchor(kind, &regions);
        let b = locate_anchor(kind, &loaded);
        assert_eq!(a.match_offset, b.match_offset);
        assert_eq!(a.found, b.found);
    }
}

#[test]
fn dump_skips_regions_without_data() {
    let regions = vec![MemoryRegion::new(0xabc000, 0xabd000, "abc000", "x"), lobby_region(0, 0)];
    let files = dump_files(&regions);
    assert_eq!(files.len(), 1);
    assert_eq!(files[0].name, "20000.bin");
    assert_eq!(dump_file_name(0x7f3a00), "7f3a00.bin");
    assert_eq!(dump_file_name(0), "0.bin");
}

#[test]
fn verify_regions_order_and_overlap() {
    let a = MemoryRegion::new(0x1000, 0x2000, "1000", "a");
    let b = MemoryRegion::new(0x2000, 0x3000, "2000", "b");
    let c = MemoryRegion::new(0x2800, 0x4000, "2800", "c");
    assert_eq!(verify_regions(&[a.clone(), b.clone()]), Ok(()));
    assert_eq!(verify_regions(&[b.clone(), a.clone()]), Err(HuntError::RegionOrderingInvariant));
    assert_eq!(verify_regions(&[a.clone(), b.clone(), c]), Err(HuntError::RegionOrderingInvariant));
    assert_eq!(verify_regions(&[]), Ok(()));
    let d1 = MemoryRegion::from_vec(vec![1, 2, 3], "d1", "d1");
    let d2 = MemoryRegion::from_vec(vec![4, 5], "d2", "d2");
    assert_eq!(verify_regions(&[d1, d2]), Ok(()));
}

#[test]
fn fill_data_requires_full_read() {
    let mut r = MemoryRegion::new(0x1000, 0x1004, "1000", "r");
    assert_eq!(r.fill_data(Some(vec![1, 2, 3])), Err(HuntError::RegionReadFailure));
    assert!(r.data.is_none());
    assert_eq!(r.fill_data(None), Err(HuntError::RegionReadFailure));
    assert_eq!(r.fill_data(Some(vec![1, 2, 3, 4])), Ok(()));
    assert_eq!(r.data, Some(vec![1, 2, 3, 4]));
    let mut d = MemoryRegion::from_vec(vec![9, 9], "d", "d");
    assert_eq!(d.fill_data(None), Ok(()));
    assert_eq!(d.data, Some(vec![9, 9]));
}

#[test]
fn read_regions_uses_first_covering_region() {
    let mut a = MemoryRegion::new(0x100, 0x104, "100", "a");
    a.fill_data(Some(vec![1, 2, 3, 4])).unwrap();
    let mut b = MemoryRegion::new(0x104, 0x108, "104", "b");
    b.fill_data(Some(vec![5, 6, 7, 8])).unwrap();
    let regions = vec![a, b];
    assert_eq!(read_regions(&regions, 0x101, 2), Some(vec![2, 3]));
    assert_eq!(read_regions(&regions, 0x105, 3), Some(vec![6, 7, 8]));
    assert_eq!(read_regions(&regions, 0x103, 2), None);
    assert_eq!(read_regions(&regions, 0x108, 1), None);
}

#[test]
fn maps_lines_parse() {
    let maps = "00400000-00452000 r-xp 00000000 08:02 173521      /usr/bin/dbus-daemon\n\
                00651000-00652000 r--p 00051000 08:02 173521      /usr/bin/dbus-daemon\n\
                00e03000-00e24000 rw-p 00000000 00:00 0           [heap]\n\
                7ffd1000-7ffd2000 ---p 00000000 08:02 173521      /lib/x.so\n\
                not a mapping\n\
                7f00AB00-7f00ac00 r--s 00000000 00:05 12\n";
    let regions = get_memory_regions(maps.as_bytes());
    assert_eq!(regions.len(), 3);
    assert_eq!((regions[0].begin, regions[0].end), (0x400000, 0x452000));
    assert_eq!(regions[0].debug_name, "400000");
    assert_eq!(
        regions[0].debug_info,
        "00400000-00452000 r-xp 00000000 08:02 173521      /usr/bin/dbus-daemon"
    );
    assert_eq!((regions[1].begin, regions[1].end), (0x651000, 0x652000));
    assert_eq!((regions[2].begin, regions[2].end), (0x7f00ab00, 0x7f00ac00));
    assert!(regions.iter().all(|r| r.data.is_none() && !r.from_vec));

    let e = parse_maps_line(b"00e03000-00e24000 rw-p 00000000 00:00 0   [heap]").unwrap();
    assert!(e.readable);
    assert!(!e.file_backed);
    assert!(parse_maps_line(b"2000-1000 r--p 0 08:02 1 /x").is_none());
    assert!(parse_maps_line(b"1000-2000 r--p").is_none());
    assert!(parse_maps_line(b"").is_none());
    assert!(get_memory_regions(b"").is_empty());
}

#[test]
fn crown_classification_thresholds() {
    let md = MonsterData {
        str_id: "test",
        id: 0,
        base_size: 100_000,
        crown_data: crown_data(CrownType::Standard),
        name: "Test",
    };
    assert_eq!(MonsterInfo::calc_crown(80_000, &md), Some(Crown::SmallGold));
    assert_eq!(MonsterInfo::calc_crown(100_000, &md), None);
    assert_eq!(MonsterInfo::calc_crown(116_000, &md), Some(Crown::Silver));
    assert_eq!(MonsterInfo::calc_crown(124_000, &md), Some(Crown::Gold));
    assert_eq!(MonsterInfo::calc_crown(115_000, &md), Some(Crown::Silver));
    assert_eq!(MonsterInfo::calc_crown(123_000, &md), Some(Crown::Gold));
    assert_eq!(MonsterInfo::calc_crown(89_999, &md), Some(Crown::SmallGold));
    assert_eq!(MonsterInfo::calc_crown(90_000, &md), None);
    let undefined = MonsterData { crown_data: crown_data(CrownType::Undefined), ..md };
    assert_eq!(MonsterInfo::calc_crown(10, &undefined), None);
    assert_eq!(MonsterInfo::calc_crown(1_000_000, &undefined), None);
}

#[test]
fn rathalos_crown_boundary() {
    let rathalos = monster_data(1).unwrap();
    assert_eq!(rathalos.name, "Rathalos");
    assert_eq!(rathalos.base_size, 170_422);
    let m = MonsterInfo::new(1, 12586, 20600, 196_000).unwrap();
    assert_eq!(m.crown, Some(Crown::Silver));
    assert_eq!(m.name, "Rathalos");
    assert_eq!((m.hp, m.max_hp, m.size), (12586, 20600, 196_000));
    assert_eq!(MonsterInfo::new(1, 0, 0, 209_700).unwrap().crown, Some(Crown::Gold));
    assert_eq!(MonsterInfo::new(9999, 0, 0, 0).err(), Some(HuntError::UnknownMonster(9999)));
    assert_eq!(MonsterInfo::new(101, 0, 0, 1).unwrap().crown, None);
    assert_eq!(Crown::Silver.to_string(), "Silver");
    assert_eq!(Crown::SmallGold.to_string(), "Small Gold");
}

#[test]
fn metadata_table_entries() {
    let rajang = monster_data(91).unwrap();
    assert_eq!(rajang.crown_data.crown_type, CrownType::Rajang);
    assert_eq!((rajang.crown_data.small, rajang.crown_data.large, rajang.crown_data.very_large), (90, 111, 128));
    assert_eq!(monster_data(20).unwrap().crown_data.large, 110);
    assert_eq!(monster_data(64).unwrap().crown_data.small, 99);
    assert_eq!(monster_data(4).unwrap().str_id, "em106_00");
    assert!(monster_data(2).is_none());
}

#[test]
fn total_damage_sums_players() {
    let mut data = GameData::new(SessionInfo::default());
    assert_eq!(data.get_total_damage(), 0);
    data.players.push(PlayerInfo { name: "a".to_string(), damage: 1200, left_session: false });
    data.players.push(PlayerInfo { name: "b".to_string(), damage: 300, left_session: true });
    assert_eq!(data.get_total_damage(), 1500);
    let before = data.get_total_damage();
    data.players[1].damage += 50;
    assert!(data.get_total_damage() >= before);
}

#[test]
fn player_info_from_bytes() {
    let mut name = [0u8; 32];
    name[..4].copy_from_slice(b"Hunt");
    let p = PlayerInfo::get_player_info(&name, &[0x10, 0x27, 0x00, 0x00], 0);
    assert_eq!(p.name, "Hunt");
    assert_eq!(p.damage, 10000);
    assert!(!p.left_session);
    let q = PlayerInfo::get_player_info(&[0xFF, 0xFE], &[1, 0, 0, 1], 3);
    assert_eq!(q.name, "");
    assert_eq!(q.damage, 0x0100_0001);
    assert!(q.left_session);
}

#[test]
fn session_decode_degrades_per_field() {
    let s = decode_session(Some(b"ABCDEFGH0123".to_vec()), None, None, Some(vec![1]));
    assert_eq!(s.session_id, "ABCDEFGH0123");
    assert_eq!(s.hostname, "");
    assert!(s.is_mission);
    assert!(s.is_expedition);
    let d = SessionInfo::default();
    assert_eq!((d.session_id.as_str(), d.hostname.as_str(), d.is_mission, d.is_expedition), ("", "", true, false));
}

#[test]
fn text_fields_stop_at_nul() {
    assert_eq!(trim_nul(b"ab\0cd"), b"ab".to_vec());
    assert_eq!(trim_nul(b"abc"), b"abc".to_vec());
    assert_eq!(field_string(b"al\xc3\xa9\0\0x"), "al\u{e9}");
    assert_eq!(field_string(b"\xc3\0"), "");
    assert_eq!(utf8_or_empty(b"r-xp"), "r-xp");
    assert_eq!(utf8_or_empty(b"\xff"), "");
}

#[test]
fn monster_widget_clamps_hp() {
    let m = Monster::new("Rathalos", 20600, Some(Crown::Gold));
    assert_eq!(m.hp, 20600);
    let m = m.update_hp(30000);
    assert_eq!(m.hp, 20600);
    let m = m.update_hp(12586);
    assert_eq!(m.hp, 12586);
    assert_eq!(m.crown, Some(Crown::Gold));
}

#[test]
fn player_widget_damage() {
    let p = Player::new("Hunter").update_damage(2500, 10000);
    assert_eq!((p.name, p.damage_delt, p.total_damage), ("Hunter", 2500, 10000));
    let p = Player::new("x");
    assert_eq!((p.damage_delt, p.total_damage), (0, 0));
}

#[test]
fn ui_counts_present_entries() {
    let info = UiInfo {
        player_info: [
            Some(linux_hunter_lib::ui_data::PlayerInfo { name: "a".to_string(), damage: 1, left_session: false }),
            None,
            Some(linux_hunter_lib::ui_data::PlayerInfo { name: "b".to_string(), damage: 2, left_session: false }),
            None,
        ],
        monster_info: [Some(UiMonsterInfo::get_monster_info()), None, None],
        session_id: String::new(),
        host_name: String::new(),
    };
    assert_eq!(info.get_num_players(), 2);
    assert_eq!(info.get_num_monsters(), 1);
    let m = UiMonsterInfo::get_monster_info();
    assert_eq!((m.name.as_str(), m.hp, m.max_hp), ("<N/A>", 0, 0));
}

#[test]
fn discovery_retries_then_gives_up() {
    assert_eq!(after_failed_discovery(1), Discovery::Retry { wait_ms: DISCOVERY_INTERVAL_MS });
    assert_eq!(after_failed_discovery(50), Discovery::Retry { wait_ms: 200 });
    assert_eq!(after_failed_discovery(51), Discovery::GiveUp(HuntError::NotAttached));
}

#[test]
fn tick_sleep_is_rest_of_interval() {
    assert_eq!(tick_sleep_ms(16, 4), 12);
    assert_eq!(tick_sleep_ms(16, 16), 0);
    assert_eq!(tick_sleep_ms(16, 40), 0);
    assert_eq!(exit_code::<HuntError>(&Ok(())), 0);
}

#[test]
fn dump_file_names_give_begin() {
    assert_eq!(dump_file_begin("10000.bin"), Some(0x10000));
    assert_eq!(dump_file_begin("7f3a00.bin"), Some(0x7f3a00));
    assert_eq!(dump_file_begin("0.bin"), Some(0));
    assert_eq!(dump_file_begin(".bin"), None);
    assert_eq!(dump_file_begin("abc"), None);
    assert_eq!(dump_file_begin("ABC.bin"), None);
    assert_eq!(dump_file_begin("12x4.bin"), None);
    assert_eq!(dump_file_begin("10000.bim"), None);
    assert_eq!(dump_file_begin("1ffffffffffffffff.bin"), None);
    assert_eq!(dump_file_begin(&dump_file_name(0xdeadbeef)), Some(0xdeadbeef));
}
