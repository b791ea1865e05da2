// Verified core of a Linux hunt dashboard: it finds fixed byte signatures in
// a game process's memory, resolves the RIP-relative operands they carry
// into anchor addresses, and decodes the session state those anchors lead to.

pub mod anchor;
pub mod data;
pub mod dump;
pub mod error;
pub mod maps;
pub mod monster;
pub mod offsets;
pub mod orchestrator;
pub mod pattern;
pub mod region;
pub mod text;
pub mod ui_data;
pub mod update;
pub mod widgets;
