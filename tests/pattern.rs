use linux_hunter_lib::pattern::{
    find_current_player_name, find_emetta, find_lobby_status, find_monster, find_player_buff,
    find_player_damage, find_player_name, find_player_name_linux,
};

#[test]
fn test_find_player_name() {
    let data = [
        0x00, 0x00, 0x00, 0x00, 0x00, 0x00, 0x00, 0x00, 0x00, 0x00, 0x00, 0x00, 0x00, 0x00,
        0x00, 0x00, 0x00, 0x00, 0x00, 0x00, 0x00, 0x00, 0x00, 0x00, 0x00, 0x00, 0x00, 0x00,
        0x48, 0x8b, 0x0d, 0x0a, 0x0c, 0xba, 0x04, 0x48, 0x8d, 0x54, 0x24, 0x38, 0xc6, 0x44,
        0x24, 0x20, 0x00, 0xe8, 0x23, 0xfb, 0x4d, 0x01, 0x48, 0x8b, 0x5c, 0x24, 0x70, 0x48,
        0x8b, 0x7c, 0x24, 0x60, 0x48, 0x83, 0xc4, 0x68, 0xc3, 0x48, 0x63, 0x87, 0x58, 0x02,
        0x00, 0x00, 0x4c, 0x8d, 0x0d, 0xd6, 0xab, 0xac, 0x00, 0x4c, 0x8b, 0x47, 0x08, 0x8b,
        0x94, 0x87, 0x28, 0x02, 0x00, 0x00, 0xe8, 0x66,
    ];

    match find_player_name(&data) {
        None => panic!("pattern not found"),
        Some(pos) => {
            assert_eq!(data[pos..pos + 3], [0x48, 0x8B, 0x0D]);
        }
    }
}

#[test]
fn test_find_current_player_name() {
    let data = [
        0x00, 0x48, 0x8B, 0x0D, 0x00, 0x00, 0x00, 0x00, 0x48, 0x8D, 0x55, 0x00, 0x45, 0x31,
        0xC9, 0x41, 0x89, 0xC0, 0xE8, 0x00,
    ];

    match find_current_player_name(&data) {
        None => panic!("pattern not found"),
        Some(pos) => {
            assert_eq!(data[pos..pos + 3], [0x48, 0x8B, 0x0D]);
        }
    }
}

#[test]
fn test_find_player_damage() {
    let data = [
        0x00, 0x48, 0x8B, 0x0D, 0x00, 0x00, 0x00, 0x00, 0xE8, 0x00, 0x00, 0x00, 0x00, 0x48,
        0x8B, 0xD8, 0x48, 0x85, 0xC0, 0x75, 0x04, 0x33, 0xC9, 0x00,
    ];

    match find_player_damage(&data) {
        None => panic!("pattern not found"),
        Some(pos) => {
            assert_eq!(data[pos..pos + 3], [0x48, 0x8B, 0x0D]);
        }
    }
}

#[test]
fn test_find_monster() {
    let data = [
        0x00, 0x48, 0x8B, 0x0D, 0x00, 0x00, 0x00, 0x00, 0xB2, 0x01, 0xE8, 0x00, 0x00, 0x00,
        0x00, 0xC6, 0x83, 0x00, 0x00, 0x00, 0x00, 0x00, 0x48, 0x8B, 0x0D, 0x00,
    ];

    match find_monster(&data) {
        None => panic!("pattern not found"),
        Some(pos) => {
            assert_eq!(data[pos..pos + 3], [0x48, 0x8B, 0x0D]);
        }
    }
}

#[test]
fn test_find_player_buff() {
    let data = [
        0x00, 0x48, 0x8B, 0x05, 0x00, 0x00, 0x00, 0x00, 0x41, 0x8B, 0x94, 0x00, 0x00, 0x00,
        0x00, 0x00, 0x89, 0x57, 0x00,
    ];

    match find_player_buff(&data) {
        None => panic!("pattern not found"),
        Some(pos) => {
            assert_eq!(data[pos..pos + 3], [0x48, 0x8B, 0x05]);
        }
    }
}

#[test]
fn test_find_lobby_status() {
    let data = [
        0x00, 0x00, 0x00, 0x48, 0x00, 0x00, 0x00, 0x48, 0x00, 0x00, 0x00, 0x00, 0x48, 0x00,
        0x48, 0x8B, 0x0D, 0x00, 0x00, 0x00, 0x00, 0xE8, 0x00, 0x00, 0x00, 0x00, 0x48, 0x8B,
        0x4E, 0x00, 0xF3, 0x0F, 0x10, 0x86, 0x00, 0x00, 0x00, 0x00, 0xF3, 0x0F, 0x58, 0x86,
        0x00, 0x00, 0x00, 0x00, 0xF3, 0x0F, 0x11, 0x86, 0x00, 0x00, 0x00, 0x00, 0xE8, 0x00,
        0x00, 0x00, 0x00, 0x48, 0x8B, 0x4E, 0x00, 0x00, 0x00, 0x00, 0x00, 0x00, 0x00, 0x00,
    ];

    match find_lobby_status(&data) {
        None => panic!("pattern not found"),
        Some(pos) => {
            assert_eq!(data[pos..pos + 3], [0x48, 0x8B, 0x0D]);
        }
    }
}

#[test]
fn test_find_emetta() {
    let data = vec![
        0x00, 0x00, 0x00, 0x00, 0x45, 0x6D, 0x65, 0x74, 0x74, 0x61, 0x00, 0x00, 0x00, 0x00,
    ];

    match find_emetta(&data) {
        None => panic!("pattern not found"),
        Some(pos) => {
            assert_eq!(data[pos..pos + 6], [0x45, 0x6D, 0x65, 0x74, 0x74, 0x61]);
        }
    }
}

#[test]
fn test_find_player_name_linux() {
    let data = [
        0x00, 0x48, 0x8B, 0x0D, 0x00, 0x00, 0x00, 0x00, 0x48, 0x8D, 0x54, 0x24, 0x00, 0x00,
        0x00, 0x00, 0x00, 0x00, 0x00, 0x00, 0x00, 0x00, 0x00, 0x00, 0x00, 0x00, 0x48, 0x8B,
        0x5C, 0x24, 0x60, 0x48, 0x83, 0xC4, 0x50, 0x5F, 0xC3, 0x00,
    ];

    match find_player_name_linux(&data) {
        None => panic!("pattern not found"),
        Some(pos) => {
            assert_eq!(data[pos..pos + 3], [0x48, 0x8B, 0x0D]);
        }
    }
}
