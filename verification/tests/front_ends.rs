use yotibox::command::{command_for, Command};
use yotibox::console_ui::ConsoleUI;
use yotibox::json_commands::{parse_json_command, JsonCommand};
use yotibox::physical_ui::{decode_poll_output, Action};

#[test]
fn console_menu_maps_to_commands() {
    let ui = ConsoleUI::new();
    assert_eq!(ui.menu_items(), ["Load 1", "Load 2", "Unload", "Reset"]);
    assert!(matches!(ui.command_for_selection(Some(0)), Some(Command::Load(ref id)) if id == "1"));
    assert!(matches!(ui.command_for_selection(Some(1)), Some(Command::Load(ref id)) if id == "2"));
    assert!(matches!(ui.command_for_selection(Some(2)), Some(Command::Unload)));
    assert!(ui.command_for_selection(Some(3)).is_none());
    assert!(ui.command_for_selection(Some(9)).is_none());
    assert!(ui.command_for_selection(None).is_none());
}

#[test]
fn action_types_map_to_commands() {
    assert!(matches!(command_for("load", "x"), Some(Command::Load(ref id)) if id == "x"));
    assert!(matches!(command_for("unload", "x"), Some(Command::Unload)));
    assert!(matches!(command_for("reset", ""), Some(Command::Reset)));
    assert!(command_for("Load", "x").is_none());
    assert!(command_for("play", "x").is_none());
}

#[test]
fn json_line_with_type_and_tag() {
    let c = parse_json_command(r#"{"type": "load", "nfc_tag_id": "04a1"}"#).unwrap();
    assert_eq!(c.typ, "load");
    assert_eq!(c.nfc_tag_id, "04a1");
    assert!(matches!(c.command(), Some(Command::Load(ref id)) if id == "04a1"));
}

#[test]
fn json_line_without_tag_defaults_to_empty() {
    let c = parse_json_command(r#"{"type": "unload"}"#).unwrap();
    assert_eq!(c.typ, "unload");
    assert_eq!(c.nfc_tag_id, "");
    assert!(matches!(c.command(), Some(Command::Unload)));
}

#[test]
fn json_line_with_non_string_tag_defaults_to_empty() {
    let c = parse_json_command(r#"{"type": "load", "nfc_tag_id": 12}"#).unwrap();
    assert_eq!(c.nfc_tag_id, "");
}

#[test]
fn json_line_without_type_is_an_error() {
    assert_eq!(
        parse_json_command(r#"{"nfc_tag_id": "04a1"}"#).unwrap_err(),
        "string field 'type' missing"
    );
    assert_eq!(parse_json_command(r#"{"type": 3}"#).unwrap_err(), "string field 'type' missing");
    assert_eq!(parse_json_command("[1, 2]").unwrap_err(), "string field 'type' missing");
}

#[test]
fn json_line_that_is_no_json_is_an_error() {
    let e = parse_json_command("load 42").unwrap_err();
    assert!(!e.is_empty());
    assert_ne!(e, "string field 'type' missing");
}

#[test]
fn from_members_builds_the_command() {
    let c = JsonCommand::from_members(Ok(Some(String::from("reset"))), Ok(None)).unwrap();
    assert_eq!(c.typ, "reset");
    assert_eq!(c.nfc_tag_id, "");
    let e = JsonCommand::from_members(Err(String::from("bad")), Ok(None)).unwrap_err();
    assert_eq!(e, "bad");
}

#[test]
fn poll_output_with_both_fields() {
    let a = decode_poll_output(br#"{"type": "load", "rfid_tag_id": "deadbeef"}"#).unwrap();
    assert_eq!(a.typ, "load");
    assert_eq!(a.rfid_tag_id, "deadbeef");
    assert!(matches!(a.command(), Some(Command::Load(ref id)) if id == "deadbeef"));
}

#[test]
fn poll_output_missing_fields() {
    assert_eq!(decode_poll_output(br#"{"rfid_tag_id": "x"}"#).unwrap_err(), "field 'type' missing");
    assert_eq!(decode_poll_output(br#"{"type": "unload"}"#).unwrap_err(), "field 'rfid_tag_id' missing");
    assert!(decode_poll_output(b"not json").is_err());
}

#[test]
fn action_from_members_requires_both() {
    let a = Action::from_members(Ok(Some(String::from("unload"))), Ok(Some(String::from("t")))).unwrap();
    assert!(matches!(a.command(), Some(Command::Unload)));
    assert_eq!(
        Action::from_members(Ok(Some(String::from("load"))), Ok(None)).unwrap_err(),
        "field 'rfid_tag_id' missing"
    );
}

