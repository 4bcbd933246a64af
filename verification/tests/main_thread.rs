use draft_hub::data::messaging::InternMessage;
use draft_hub::data::Settings;
use draft_hub::shared::{main_step, MainAction, MainEvent, MainState};

fn step(state: MainState, event: MainEvent) -> (MainState, MainAction) {
    main_step(state, event).expect("the thread goes on")
}

fn reply(pool: Option<&str>) -> MainEvent {
    MainEvent::PlayersReply(Some(InternMessage::new(Some("GEN_PLAYERS".to_string()), pool.map(|p| p.to_string()))))
}

#[test]
fn run_with_saved_settings_and_generation() {
    let s = Settings { draft: true, gen_players: true };
    let (st, a) = step(MainState::start(), MainEvent::SettingsRead(Some(s)));
    assert_eq!(st, MainState::AwaitingPlayers(s));
    match a {
        MainAction::RequestPlayers(m) => {
            assert_eq!(m.code.as_deref(), Some("GEN_PLAYERS"));
            assert_eq!(m.msg, None);
        }
        _ => panic!("expected a pool request"),
    }
    let (st, a) = step(st, reply(Some("[]")));
    assert_eq!(st, MainState::StoringPlayers(s));
    match a {
        MainAction::StorePlayers(j) => assert_eq!(j, "[]"),
        _ => panic!("expected the pool to be stored"),
    }
    let (st, a) = step(st, MainEvent::PlayersStored);
    assert_eq!(st, MainState::Generating);
    assert!(matches!(a, MainAction::PreparePayload { announce_draft: false }));
    let (st, a) = step(st, MainEvent::RequestPayload("[2,40,[]]".to_string()));
    assert_eq!(st, MainState::Finished);
    match a {
        MainAction::SendRequest(m) => {
            assert_eq!(m.code.as_deref(), Some("A3A3"));
            assert_eq!(m.msg.as_deref(), Some("[2,40,[]]"));
        }
        _ => panic!("expected the generation request"),
    }
    assert!(main_step(st, MainEvent::PlayersStored).is_none());
}

#[test]
fn run_without_generation_announces_draft_when_off() {
    let s = Settings { draft: false, gen_players: false };
    let (st, a) = step(MainState::start(), MainEvent::SettingsRead(Some(s)));
    assert_eq!(st, MainState::Generating);
    assert!(matches!(a, MainAction::PreparePayload { announce_draft: true }));
    let s = Settings { draft: true, gen_players: false };
    let (_, a) = step(MainState::start(), MainEvent::SettingsRead(Some(s)));
    assert!(matches!(a, MainAction::PreparePayload { announce_draft: false }));
}

#[test]
fn missing_settings_are_saved_as_defaults() {
    let (st, a) = step(MainState::start(), MainEvent::SettingsRead(None));
    assert_eq!(st, MainState::SavingDefaults);
    match a {
        MainAction::SaveSettings(s) => assert_eq!(s, Settings::new()),
        _ => panic!("expected the defaults to be saved"),
    }
    let (st, a) = step(st, MainEvent::SettingsSaved);
    assert_eq!(st, MainState::AwaitingPlayers(Settings::new()));
    assert!(matches!(a, MainAction::RequestPlayers(_)));
}

#[test]
fn reply_without_pool_stops_the_thread() {
    let s = Settings::new();
    assert!(main_step(MainState::AwaitingPlayers(s), reply(None)).is_none());
    assert!(main_step(MainState::AwaitingPlayers(s), MainEvent::PlayersReply(None)).is_none());
}

#[test]
fn unexpected_events_stop_the_thread() {
    assert!(main_step(MainState::start(), MainEvent::PlayersStored).is_none());
    assert!(main_step(MainState::Generating, MainEvent::SettingsSaved).is_none());
    assert!(main_step(MainState::Finished, MainEvent::RequestPayload(String::new())).is_none());
}
