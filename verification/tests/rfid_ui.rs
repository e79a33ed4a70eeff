use yotibox::command::Command;
use yotibox::rfid::{ChipError, Error};
use yotibox::rfid_ui::{PiccRead, RfidUI, State};

fn tag(id: &str) -> Result<Option<String>, Error> {
    Ok(Some(String::from(id)))
}

#[test]
fn new_ui_has_seen_no_tag() {
    let ui = RfidUI::new();
    assert_eq!(ui.state(), State::TagNotPresent);
    assert_eq!(ui.next_read(), PiccRead::FromIdle);
}

#[test]
fn laying_a_card_loads_it() {
    let mut ui = RfidUI::new();
    let c = ui.on_read(&tag("04a1b2"));
    assert!(matches!(c, Some(Command::Load(ref id)) if id == "04a1b2"));
    assert_eq!(ui.state(), State::TagPresent);
    assert_eq!(ui.next_read(), PiccRead::FromHalted);
}

#[test]
fn card_left_on_reader_is_loaded_once() {
    let mut ui = RfidUI::new();
    ui.on_read(&tag("aa"));
    assert!(ui.on_read(&tag("aa")).is_none());
    assert!(ui.on_read(&tag("aa")).is_none());
}

#[test]
fn taking_the_card_away_unloads() {
    let mut ui = RfidUI::new();
    ui.on_read(&tag("aa"));
    let c = ui.on_read(&Ok(None));
    assert!(matches!(c, Some(Command::Unload)));
    assert_eq!(ui.state(), State::TagNotPresent);
    assert!(ui.on_read(&Ok(None)).is_none());
}

#[test]
fn failed_read_counts_as_no_card() {
    let mut ui = RfidUI::new();
    ui.on_read(&tag("aa"));
    let err = Err(Error::RC522Error(ChipError::Failure(String::from("crc"))));
    let c = ui.on_read(&err);
    assert!(matches!(c, Some(Command::Unload)));
    assert_eq!(ui.state(), State::TagNotPresent);
}

#[test]
fn handlers_give_state_and_command() {
    let ui = RfidUI::new();
    let (s, c) = ui.handle_no_tag();
    assert_eq!(s, State::TagNotPresent);
    assert!(c.is_none());
    let (s, c) = ui.handle_tag_present("bb");
    assert_eq!(s, State::TagPresent);
    assert!(matches!(c, Some(Command::Load(ref id)) if id == "bb"));
}

#[test]
fn loads_and_unloads_alternate() {
    let mut ui = RfidUI::new();
    let reads = vec![tag("a"), Ok(None), Ok(None), tag("b"), tag("b"), Ok(None), tag("c")];
    let mut present = false;
    let mut commands = 0;
    for r in &reads {
        match ui.on_read(r) {
            Some(Command::Load(_)) => {
                assert!(!present);
                present = true;
                commands += 1;
            }
            Some(Command::Unload) => {
                assert!(present);
                present = false;
                commands += 1;
            }
            _ => {}
        }
    }
    assert_eq!(commands, 5);
    assert_eq!(present, ui.state() == State::TagPresent);
}

#[test]
fn poll_interval_defaults_to_a_second() {
    assert_eq!(RfidUI::poll_interval_ms(None), 1000);
    assert_eq!(RfidUI::poll_interval_ms(Some(250)), 250);
}
