//! Logic of a small audio box: a playback controller driven by console,
//! JSON and RFID front ends, the register protocol of an MFRC522 card
//! reader, and the rules by which tag identifiers map to audio files.

pub mod audio_repository;
pub mod command;
pub mod config;
pub mod console_ui;
pub mod controller;
pub mod json_commands;
pub mod json_text;
pub mod physical_ui;
pub mod rc522_registers;
pub mod rfid;
pub mod rfid_ui;
pub mod settings;
