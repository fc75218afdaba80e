use sketch::{
    Focus, Key, KeyCode, KeyKind, Message, Mouse, MouseButton, MouseKind, Msg, Paste, Quit, Resize,
};

#[derive(Debug, PartialEq)]
struct Tick(u32);

impl Message for Tick {}

#[derive(Debug, PartialEq)]
struct Tock(u32);

impl Message for Tock {}

#[test]
fn cast_gives_back_the_payload_of_its_own_type() {
    let msg = Msg::new(Resize { width: 80, height: 24 });
    assert_eq!(msg.cast::<Resize>(), Some(&Resize { width: 80, height: 24 }));

    let msg = Msg::new(Focus::Lost);
    assert_eq!(msg.cast::<Focus>(), Some(&Focus::Lost));

    let msg = Msg::new(Paste(String::from("pasted")));
    assert_eq!(msg.cast::<Paste>().map(|p| p.0.as_str()), Some("pasted"));

    let msg = Msg::new(Tick(7));
    assert_eq!(msg.cast::<Tick>(), Some(&Tick(7)));
}

#[test]
fn cast_gives_nothing_for_another_type() {
    let msg = Msg::new(Resize { width: 80, height: 24 });
    assert!(msg.cast::<Focus>().is_none());
    assert!(msg.cast::<Quit>().is_none());
    assert!(msg.cast::<Key>().is_none());
    assert!(msg.cast::<Mouse>().is_none());
    assert!(msg.cast::<Paste>().is_none());
    assert!(msg.cast::<Tick>().is_none());

    let msg = Msg::new(Tick(7));
    assert!(msg.cast::<Tock>().is_none());
    assert!(msg.cast::<Resize>().is_none());
    assert!(msg.cast::<Quit>().is_none());
}

#[test]
fn cast_of_a_type_probed_after_another_was_put_in() {
    let tick = Msg::new(Tick(1));
    let tock = Msg::new(Tock(1));
    assert!(tick.cast::<Tock>().is_none());
    assert_eq!(tock.cast::<Tock>(), Some(&Tock(1)));
    assert_eq!(tick.cast::<Tick>(), Some(&Tick(1)));
}

#[test]
fn cast_can_be_asked_again() {
    let msg = Msg::new(Tick(3));
    let shared = &msg;
    assert_eq!(shared.cast::<Tick>(), Some(&Tick(3)));
    assert_eq!(shared.cast::<Tick>(), Some(&Tick(3)));
    assert!(shared.cast::<Quit>().is_none());
    assert_eq!(shared.cast::<Tick>(), Some(&Tick(3)));
}

#[test]
fn is_quit_only_for_quit() {
    assert!(Msg::new(Quit).is::<Quit>());
    assert!(!Msg::new(Focus::Gained).is::<Quit>());
    assert!(!Msg::new(Resize { width: 1, height: 1 }).is::<Quit>());
    assert!(!Msg::new(Paste(String::new())).is::<Quit>());
    assert!(!Msg::new(Key::new(KeyCode::Char('q'), 0, KeyKind::Press, 0)).is::<Quit>());
    assert!(!Msg::new(Mouse::new(MouseKind::Down(MouseButton::Left), 0, 0, 0)).is::<Quit>());
    assert!(!Msg::new(Tick(0)).is::<Quit>());
}

#[test]
fn is_agrees_with_cast() {
    let msg = Msg::new(Key::new(KeyCode::Enter, 0, KeyKind::Press, 0));
    assert!(msg.is::<Key>());
    assert!(!msg.is::<Mouse>());
    assert!(!msg.is::<Tick>());
    assert_eq!(msg.cast::<Key>().map(|k| k.code), Some(KeyCode::Enter));
}

fn can_cross_threads<T: Send>(_: &T) -> bool {
    true
}

#[test]
fn an_envelope_can_be_sent_through_a_channel() {
    let (tx, rx) = std::sync::mpsc::channel();
    let msg = Msg::new(Tick(9));
    assert!(can_cross_threads(&msg));
    tx.send(msg).unwrap();
    let msg: Msg = rx.recv().unwrap();
    assert_eq!(msg.cast::<Tick>(), Some(&Tick(9)));
}
