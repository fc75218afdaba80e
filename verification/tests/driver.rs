use sketch::{Action, App, Key, KeyCode, KeyKind, Message, Model, Msg, Phase, Quit};
use std::sync::atomic::{AtomicUsize, Ordering};
use std::sync::Arc;

struct Counter {
    count: usize,
}

impl Model for Counter {
    fn update(mut self, msg: &Msg) -> (Self, Option<Msg>) {
        if let Some(key) = msg.cast::<Key>() {
            match key.code {
                KeyCode::Enter => self.count += 1,
                KeyCode::Char('q') => return (self, Some(Msg::new(Quit))),
                _ => {}
            }
        }
        (self, None)
    }

    fn view(&self) -> String {
        self.count.to_string()
    }
}

fn key(code: KeyCode) -> Msg {
    Msg::new(Key::new(code, 0, KeyKind::Press, 0))
}

/// Runs the app until it draws, stops or has taken `limit` steps, and gives
/// the frame, if one was drawn, and the number of steps taken.
fn until_drawn<M: Model>(mut app: App<M>, limit: usize) -> (App<M>, Option<String>, usize) {
    let mut steps = 0;
    while steps < limit {
        let (next, action) = app.advance();
        app = next;
        steps += 1;
        match action {
            Action::Continue => {}
            Action::Draw(frame) => return (app, Some(frame), steps),
            Action::Stop => return (app, None, steps),
            Action::Disconnected => panic!("the app keeps a sender of its own"),
        }
    }
    (app, None, steps)
}

#[test]
fn enter_is_counted_and_q_quits_without_a_frame() {
    let app = App::new(Counter { count: 0 });
    let sender = app.sender();
    sender.send(key(KeyCode::Enter)).unwrap();
    sender.send(key(KeyCode::Char('q'))).unwrap();

    // Starting: no startup message.
    let (app, action) = app.advance();
    assert!(matches!(action, Action::Continue));
    // The key arrives, goes to update, and the frame is due.
    let (app, action) = app.advance();
    assert!(matches!(action, Action::Continue));
    let (app, action) = app.advance();
    assert!(matches!(action, Action::Continue));
    let (app, action) = app.advance();
    match action {
        Action::Draw(frame) => assert_eq!(frame, "1"),
        _ => panic!("the frame was due"),
    }
    // 'q' arrives, update answers with Quit, and the run is over.
    let (app, action) = app.advance();
    assert!(matches!(action, Action::Continue));
    let (app, action) = app.advance();
    assert!(matches!(action, Action::Continue));
    let (app, action) = app.advance();
    assert!(matches!(action, Action::Stop));
    let (_, action) = app.advance();
    assert!(matches!(action, Action::Stop));
}

struct Tick;

impl Message for Tick {}

struct Clock {
    ticks: u32,
}

impl Model for Clock {
    fn startup(&self) -> Option<Msg> {
        Some(Msg::new(Tick))
    }

    fn update(mut self, msg: &Msg) -> (Self, Option<Msg>) {
        if msg.is::<Tick>() {
            self.ticks += 1;
        }
        (self, None)
    }

    fn view(&self) -> String {
        format!("ticks\n{}", self.ticks)
    }
}

#[test]
fn startup_message_runs_one_cycle_before_any_event() {
    // Nothing is ever sent: the three steps do not wait for the channel.
    let app = App::new(Clock { ticks: 0 });
    let (app, action) = app.advance();
    assert!(matches!(action, Action::Continue));
    let (app, action) = app.advance();
    assert!(matches!(action, Action::Continue));
    let (_, action) = app.advance();
    match action {
        Action::Draw(frame) => assert_eq!(frame, "ticks\r\n1"),
        _ => panic!("the frame was due"),
    }
}

#[test]
fn every_message_is_drawn_once_and_in_order() {
    let app = App::new(Counter { count: 0 });
    let sender = app.sender();
    for _ in 0..3 {
        sender.send(key(KeyCode::Enter)).unwrap();
    }
    // One step for the startup, then three for each message.
    let (app, frame, steps) = until_drawn(app, 100);
    assert_eq!((frame.as_deref(), steps), (Some("1"), 4));
    let (app, frame, steps) = until_drawn(app, 100);
    assert_eq!((frame.as_deref(), steps), (Some("2"), 3));
    let (_, frame, steps) = until_drawn(app, 100);
    assert_eq!((frame.as_deref(), steps), (Some("3"), 3));
}

#[test]
fn a_message_that_the_model_does_not_know_is_drawn_too() {
    let app = App::new(Counter { count: 5 });
    app.sender().send(Msg::new(Tick)).unwrap();
    let (_, frame, steps) = until_drawn(app, 100);
    assert_eq!((frame.as_deref(), steps), (Some("5"), 4));
}

/// Counts down: a `Count(n)` with `n > 0` is answered with `Count(n - 1)`.
struct Count(u32);

impl Message for Count {}

struct Countdown {
    seen: Vec<u32>,
    updates: Arc<AtomicUsize>,
    views: Arc<AtomicUsize>,
    last: Option<Msg>,
}

impl Countdown {
    fn new(last: Option<Msg>) -> (Self, Arc<AtomicUsize>, Arc<AtomicUsize>) {
        let updates = Arc::new(AtomicUsize::new(0));
        let views = Arc::new(AtomicUsize::new(0));
        let model = Countdown {
            seen: Vec::new(),
            updates: updates.clone(),
            views: views.clone(),
            last,
        };
        (model, updates, views)
    }
}

impl Model for Countdown {
    fn update(mut self, msg: &Msg) -> (Self, Option<Msg>) {
        self.updates.fetch_add(1, Ordering::SeqCst);
        match msg.cast::<Count>() {
            Some(Count(0)) => {
                self.seen.push(0);
                let last = self.last.take();
                (self, last)
            }
            Some(Count(n)) => {
                self.seen.push(*n);
                (self, Some(Msg::new(Count(n - 1))))
            }
            None => (self, None),
        }
    }

    fn view(&self) -> String {
        self.views.fetch_add(1, Ordering::SeqCst);
        format!("{:?}", self.seen)
    }
}

#[test]
fn a_chain_is_drawn_once_when_it_is_drained() {
    for n in [0u32, 1, 2, 7] {
        let (model, updates, views) = Countdown::new(None);
        let app = App::new(model);
        app.sender().send(Msg::new(Count(n))).unwrap();
        let (app, action) = app.advance();
        assert!(matches!(action, Action::Continue));
        let (app, action) = app.advance();
        assert!(matches!(action, Action::Continue));
        // n follow-ups: n + 1 updates, and no frame before the last of them.
        let mut app = app;
        for done in 1..=(n as usize + 1) {
            assert_eq!(views.load(Ordering::SeqCst), 0);
            let (next, action) = app.advance();
            app = next;
            assert!(matches!(action, Action::Continue));
            assert_eq!(updates.load(Ordering::SeqCst), done);
        }
        let (_, action) = app.advance();
        let all: Vec<u32> = (0..=n).rev().collect();
        match action {
            Action::Draw(frame) => assert_eq!(frame, format!("{:?}", all)),
            _ => panic!("the frame was due"),
        }
        assert_eq!(updates.load(Ordering::SeqCst), n as usize + 1);
        assert_eq!(views.load(Ordering::SeqCst), 1);
    }
}

#[test]
fn quit_from_the_channel_halts_before_update_and_frame() {
    let (model, updates, views) = Countdown::new(None);
    let app = App::new(model);
    let sender = app.sender();
    sender.send(Msg::new(Quit)).unwrap();
    sender.send(Msg::new(Count(3))).unwrap();
    let (app, frame, steps) = until_drawn(app, 100);
    assert_eq!((frame, steps), (None, 3));
    // What arrived later is never taken, however often the app is asked.
    let (_, frame, steps) = until_drawn(app, 5);
    assert_eq!((frame, steps), (None, 1));
    assert_eq!(updates.load(Ordering::SeqCst), 0);
    assert_eq!(views.load(Ordering::SeqCst), 0);
}

#[test]
fn quit_as_a_follow_up_halts_before_the_frame() {
    let (model, updates, views) = Countdown::new(Some(Msg::new(Quit)));
    let app = App::new(model);
    let sender = app.sender();
    sender.send(Msg::new(Count(2))).unwrap();
    sender.send(Msg::new(Count(9))).unwrap();
    // Startup, receive, three updates, and the Quit that the last one returned.
    let (app, frame, steps) = until_drawn(app, 100);
    assert_eq!((frame, steps), (None, 6));
    assert_eq!(updates.load(Ordering::SeqCst), 3);
    assert_eq!(views.load(Ordering::SeqCst), 0);
    let (_, action) = app.advance();
    assert!(matches!(action, Action::Stop));
    assert_eq!(updates.load(Ordering::SeqCst), 3);
}

struct Leaving;

impl Model for Leaving {
    fn startup(&self) -> Option<Msg> {
        Some(Msg::new(Quit))
    }

    fn update(self, _: &Msg) -> (Self, Option<Msg>) {
        panic!("Quit does not reach update")
    }

    fn view(&self) -> String {
        panic!("nothing is drawn after Quit")
    }
}

#[test]
fn quit_at_startup_ends_the_run_at_once() {
    let app = App::new(Leaving);
    let (app, action) = app.advance();
    assert!(matches!(action, Action::Continue));
    let (app, action) = app.advance();
    assert!(matches!(action, Action::Stop));
    let (_, action) = app.advance();
    assert!(matches!(action, Action::Stop));
}

#[test]
fn every_sender_of_an_app_feeds_it() {
    let app = App::new(Counter { count: 0 });
    let first = app.sender();
    let second = app.sender();
    let third = second.clone();
    // A sender of another app does not.
    let other = App::new(Counter { count: 0 });
    other.sender().send(key(KeyCode::Char('q'))).unwrap();

    first.send(key(KeyCode::Enter)).unwrap();
    second.send(key(KeyCode::Enter)).unwrap();
    third.send(key(KeyCode::Enter)).unwrap();
    let (app, frame, _) = until_drawn(app, 100);
    assert_eq!(frame.as_deref(), Some("1"));
    let (app, frame, _) = until_drawn(app, 100);
    assert_eq!(frame.as_deref(), Some("2"));
    let (_, frame, _) = until_drawn(app, 100);
    assert_eq!(frame.as_deref(), Some("3"));
}

struct Lines;

impl Model for Lines {
    fn update(self, _: &Msg) -> (Self, Option<Msg>) {
        (self, None)
    }

    fn view(&self) -> String {
        String::from("one\ntwo\n")
    }
}

#[test]
fn the_frame_has_the_line_endings_of_the_terminal() {
    let app = App::new(Lines);
    app.sender().send(Msg::new(Tick)).unwrap();
    let (_, frame, _) = until_drawn(app, 100);
    assert_eq!(frame.as_deref(), Some("one\r\ntwo\r\n"));
}

#[test]
fn the_phase_after_startup_and_after_update() {
    assert!(matches!(Phase::after_startup(None), Phase::AwaitingMessage));
    assert!(matches!(Phase::after_update(None), Phase::Rendering));
    match Phase::after_startup(Some(Msg::new(Tick))) {
        Phase::Chaining(msg) => assert!(msg.is::<Tick>()),
        _ => panic!("the message of startup is the first of a chain"),
    }
    match Phase::after_update(Some(Msg::new(Quit))) {
        Phase::Chaining(msg) => assert!(msg.is::<Quit>()),
        _ => panic!("a follow-up goes on with the chain"),
    }
}

#[test]
fn proceed_drains_a_chain_in_one_call() {
    let (model, updates, views) = Countdown::new(None);
    let app = App::new(model);
    app.sender().send(Msg::new(Count(7))).unwrap();
    let (app, action) = app.proceed(usize::MAX);
    match action {
        Action::Draw(frame) => assert_eq!(frame, "[7, 6, 5, 4, 3, 2, 1, 0]"),
        _ => panic!("the frame was due"),
    }
    assert_eq!(updates.load(Ordering::SeqCst), 8);
    assert_eq!(views.load(Ordering::SeqCst), 1);

    app.sender().send(Msg::new(Quit)).unwrap();
    let (app, action) = app.proceed(usize::MAX);
    assert!(matches!(action, Action::Stop));
    let (_, action) = app.proceed(usize::MAX);
    assert!(matches!(action, Action::Stop));
    assert_eq!(updates.load(Ordering::SeqCst), 8);
    assert_eq!(views.load(Ordering::SeqCst), 1);
}

#[test]
fn proceed_takes_no_more_steps_than_it_may() {
    let (model, updates, views) = Countdown::new(None);
    let app = App::new(model);
    app.sender().send(Msg::new(Count(7))).unwrap();
    let (app, action) = app.proceed(0);
    assert!(matches!(action, Action::Continue));
    assert_eq!(updates.load(Ordering::SeqCst), 0);
    // Startup, the message, and three of the eight updates.
    let (app, action) = app.proceed(5);
    assert!(matches!(action, Action::Continue));
    assert_eq!(updates.load(Ordering::SeqCst), 3);
    // The other five updates, and the frame.
    let (_, action) = app.proceed(6);
    assert!(matches!(action, Action::Draw(_)));
    assert_eq!(updates.load(Ordering::SeqCst), 8);
    assert_eq!(views.load(Ordering::SeqCst), 1);
}
