use yotibox::command::Command;
use yotibox::controller::{Controller, ControllerAction, ControllerState};
use yotibox::rfid_ui::RfidUI;

fn is_fetch(a: &ControllerAction, id: &str) -> bool {
    matches!(a, ControllerAction::FetchAudio(x) if x == id)
}

#[test]
fn new_controller_is_idle() {
    let c = Controller::new();
    assert_eq!(c.state(), ControllerState::Idle);
}

#[test]
fn load_while_idle_asks_for_lookup() {
    let mut c = Controller::new();
    let a = c.load("42");
    assert!(is_fetch(&a, "42"));
    assert_eq!(c.state(), ControllerState::Idle);
}

#[test]
fn found_audio_is_played() {
    let mut c = Controller::new();
    c.load("42");
    let a = c.on_audio_lookup("42", true);
    assert!(matches!(a, ControllerAction::Play));
    assert_eq!(c.state(), ControllerState::Playing);
}

#[test]
fn missing_audio_gets_a_stub() {
    let mut c = Controller::new();
    c.load("7");
    let a = c.on_audio_lookup("7", false);
    assert!(matches!(a, ControllerAction::CreateStub(ref id) if id == "7"));
    assert_eq!(c.state(), ControllerState::Idle);
}

#[test]
fn load_while_playing_is_ignored() {
    let mut c = Controller::new();
    c.load("1");
    c.on_audio_lookup("1", true);
    let a = c.load("2");
    assert!(matches!(a, ControllerAction::Nothing));
    assert_eq!(c.state(), ControllerState::Playing);
}

#[test]
fn lookup_result_while_playing_is_ignored() {
    let mut c = Controller::new();
    c.load("1");
    c.on_audio_lookup("1", true);
    let a = c.on_audio_lookup("2", true);
    assert!(matches!(a, ControllerAction::Nothing));
    assert_eq!(c.state(), ControllerState::Playing);
}

#[test]
fn unload_stops_playback() {
    let mut c = Controller::new();
    c.load("1");
    c.on_audio_lookup("1", true);
    let a = c.unload();
    assert!(matches!(a, ControllerAction::Stop));
    assert_eq!(c.state(), ControllerState::Idle);
}

#[test]
fn unload_while_idle_is_ignored() {
    let mut c = Controller::new();
    let a = c.unload();
    assert!(matches!(a, ControllerAction::Nothing));
    assert_eq!(c.state(), ControllerState::Idle);
}

#[test]
fn reset_acts_like_unload() {
    let mut c = Controller::new();
    assert!(matches!(c.reset(), ControllerAction::Nothing));
    c.load("1");
    c.on_audio_lookup("1", true);
    assert!(matches!(c.reset(), ControllerAction::Stop));
    assert_eq!(c.state(), ControllerState::Idle);
}

#[test]
fn play_and_stop_alternate_on_a_sequence() {
    // load, found, load again, unload, unload, load, found, reset
    let mut c = Controller::new();
    let mut playing = false;
    let mut trace = Vec::new();
    trace.push(c.load("a"));
    trace.push(c.on_audio_lookup("a", true));
    trace.push(c.load("b"));
    trace.push(c.unload());
    trace.push(c.unload());
    trace.push(c.load("c"));
    trace.push(c.on_audio_lookup("c", false));
    trace.push(c.load("c"));
    trace.push(c.on_audio_lookup("c", true));
    trace.push(c.reset());
    for a in &trace {
        match a {
            ControllerAction::Play => {
                assert!(!playing);
                playing = true;
            }
            ControllerAction::Stop => {
                assert!(playing);
                playing = false;
            }
            _ => {}
        }
    }
    assert_eq!(playing, c.state() == ControllerState::Playing);
    let plays = trace.iter().filter(|a| matches!(a, ControllerAction::Play)).count();
    assert_eq!(plays, 2);
}

#[test]
fn command_carries_its_identifier() {
    let c = Command::Load(String::from("9"));
    assert!(matches!(c, Command::Load(ref id) if id == "9"));
}

#[test]
fn card_on_reader_plays_and_removal_stops() {
    let mut ui = RfidUI::new();
    let mut c = Controller::new();
    let cmd = ui.on_read(&Ok(Some(String::from("04a1")))).unwrap();
    let action = match cmd {
        Command::Load(id) => c.load(&id),
        _ => panic!("expected a load"),
    };
    assert!(is_fetch(&action, "04a1"));
    assert!(matches!(c.on_audio_lookup("04a1", true), ControllerAction::Play));
    assert!(ui.on_read(&Ok(Some(String::from("04a1")))).is_none());
    let cmd = ui.on_read(&Ok(None)).unwrap();
    assert!(matches!(cmd, Command::Unload));
    assert!(matches!(c.unload(), ControllerAction::Stop));
    assert_eq!(c.state(), ControllerState::Idle);
}
