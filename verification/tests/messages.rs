use draft_hub::data::messaging::{ExternMessage, GlobalComms, InternMessage};
use draft_hub::data::{Settings, GENERATE};
use draft_hub::python::route_python_message;
use tokio::sync::mpsc::unbounded_channel;

fn extern_msg(code: &str, contents: Option<&str>) -> ExternMessage {
    ExternMessage { preflight: code.to_string(), contents: contents.map(|c| c.to_string()) }
}

#[test]
fn settings_default_to_draft_and_generation() {
    let s = Settings::new();
    assert!(s.draft);
    assert!(s.gen_players);
}

#[test]
fn generate_code_is_a3a3() {
    assert_eq!(GENERATE, "A3A3");
}

#[test]
fn intern_message_keeps_its_fields() {
    let m = InternMessage::new(Some("GEN_PLAYERS".to_string()), None);
    assert_eq!(m.code.as_deref(), Some("GEN_PLAYERS"));
    assert_eq!(m.msg, None);
    let m = InternMessage::new(None, Some("{}".to_string()));
    assert_eq!(m.code, None);
    assert_eq!(m.msg.as_deref(), Some("{}"));
}

#[test]
fn extern_message_new_wraps_payload() {
    let m = ExternMessage::new("DRAFT_OK".to_string(), "[1,2]".to_string());
    assert_eq!(m.preflight, "DRAFT_OK");
    assert_eq!(m.contents.as_deref(), Some("[1,2]"));
}

#[test]
fn extern_to_intern_moves_code_and_payload() {
    let i: InternMessage = extern_msg("GEN_PLAYERS", Some("[]")).into();
    assert_eq!(i.code.as_deref(), Some("GEN_PLAYERS"));
    assert_eq!(i.msg.as_deref(), Some("[]"));
    let i = InternMessage::from(extern_msg("X", None));
    assert_eq!(i.code.as_deref(), Some("X"));
    assert_eq!(i.msg, None);
}

#[test]
fn intern_to_extern_moves_code_and_payload() {
    let e = ExternMessage::from_intern(InternMessage::new(Some("A3A3".to_string()), Some("p".to_string())));
    assert_eq!(e.preflight, "A3A3");
    assert_eq!(e.contents.as_deref(), Some("p"));
}

#[test]
fn round_trips_give_back_the_message() {
    let sent = extern_msg("DRAFT_OK", Some("{\"a\":1}"));
    let back = ExternMessage::from_intern(InternMessage::from(sent.clone()));
    assert_eq!(back.preflight, sent.preflight);
    assert_eq!(back.contents, sent.contents);

    let sent = InternMessage::new(Some("GEN_PLAYERS".to_string()), None);
    let back = InternMessage::from(ExternMessage::from_intern(sent.clone()));
    assert_eq!(back.code, sent.code);
    assert_eq!(back.msg, sent.msg);
}

#[test]
fn python_commands_are_forwarded() {
    let f = route_python_message(extern_msg("GEN_PLAYERS", Some("[]"))).expect("known command");
    assert_eq!(f.code.as_deref(), Some("GEN_PLAYERS"));
    assert_eq!(f.msg.as_deref(), Some("[]"));
    let f = route_python_message(extern_msg("DRAFT_OK", None)).expect("known command");
    assert_eq!(f.code.as_deref(), Some("DRAFT_OK"));
    assert_eq!(f.msg, None);
}

#[test]
fn unknown_python_commands_are_refused() {
    assert!(route_python_message(extern_msg("A3A3", None)).is_none());
    assert!(route_python_message(extern_msg("gen_players", None)).is_none());
    assert!(route_python_message(extern_msg("", Some("x"))).is_none());
    assert!(route_python_message(extern_msg("GEN_PLAYERS ", None)).is_none());
}

#[test]
fn empty_registry_refuses_browser() {
    let mut comms = GlobalComms::new();
    assert!(comms.send_to_py.is_none());
    assert!(comms.recv_from_py.is_none());
    assert!(comms.send_to_brow.is_none());
    assert!(comms.send_to_main.is_none());
    assert!(comms.attach_browser().is_none());
    assert!(comms.send_to_py.is_none());
}

#[test]
fn browser_attaches_once_after_python_registered() {
    let mut comms = GlobalComms::new();
    let (to_py, _py_rx) = unbounded_channel::<InternMessage>();
    let (to_brow, brow_rx) = unbounded_channel::<InternMessage>();
    let (to_main, _main_rx) = unbounded_channel::<InternMessage>();
    comms.register_python(to_py, brow_rx, to_brow, to_main);
    assert!(comms.send_to_py.is_some());
    assert!(comms.recv_from_py.is_some());
    assert!(comms.send_to_brow.is_some());
    assert!(comms.send_to_main.is_some());

    let mut link = comms.attach_browser().expect("first browser attaches");
    assert!(comms.recv_from_py.is_none());
    assert!(comms.send_to_brow.is_some());
    assert!(comms.send_to_py.is_some());

    // the handed-out senders feed the registered channels
    link.to_browser.send(InternMessage::new(Some("X".to_string()), None)).unwrap();
    let got = link.from_python.try_recv().expect("message through the browser channel");
    assert_eq!(got.code.as_deref(), Some("X"));

    assert!(comms.attach_browser().is_none());
    assert!(comms.send_to_brow.is_some());
}

#[test]
fn attached_senders_feed_their_own_channels() {
    let mut comms = GlobalComms::new();
    let (to_py, mut py_rx) = unbounded_channel::<InternMessage>();
    let (to_brow, brow_rx) = unbounded_channel::<InternMessage>();
    let (to_main, _main_rx) = unbounded_channel::<InternMessage>();
    comms.register_python(to_py, brow_rx, to_brow, to_main);
    let mut link = comms.attach_browser().expect("browser attaches");
    link.to_python.send(InternMessage::new(Some("P".to_string()), None)).unwrap();
    link.to_browser.send(InternMessage::new(Some("B".to_string()), None)).unwrap();
    assert_eq!(py_rx.try_recv().unwrap().code.as_deref(), Some("P"));
    assert!(py_rx.try_recv().is_err());
    assert_eq!(link.from_python.try_recv().unwrap().code.as_deref(), Some("B"));
    assert!(link.from_python.try_recv().is_err());
}

#[test]
fn registering_again_lets_a_browser_attach_again() {
    let mut comms = GlobalComms::new();
    for _ in 0..2 {
        let (to_py, _a) = unbounded_channel::<InternMessage>();
        let (to_brow, brow_rx) = unbounded_channel::<InternMessage>();
        let (to_main, _b) = unbounded_channel::<InternMessage>();
        comms.register_python(to_py, brow_rx, to_brow, to_main);
        assert!(comms.attach_browser().is_some());
        assert!(comms.attach_browser().is_none());
    }
}
