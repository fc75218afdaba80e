//! The driver of a run: the state machine that takes messages, hands them to
//! the model and says when a frame is due.
//!
//! The driver does no work on the terminal. [`App::advance`] takes one step
//! and tells its caller, by an [`Action`], what to do before the next. What
//! the steps add up to is said over [`replay`], the run of the driver as a
//! function of what the model and the channel hand back.

use crate::msg::{law_is_quit, Msg, Quit};
use crate::text::{line_breaks, terminal_lines};
use std::sync::mpsc::{Receiver, RecvError, Sender};
use vstd::prelude::*;

verus! {

/// std's `mpsc::Sender`: the sending end of a channel.
#[verifier::external_type_specification]
#[verifier::external_body]
#[verifier::reject_recursive_types(T)]
pub struct ExSender<T>(Sender<T>);

/// std's `mpsc::Receiver`: the receiving end of a channel.
#[verifier::external_type_specification]
#[verifier::external_body]
#[verifier::reject_recursive_types(T)]
pub struct ExReceiver<T>(Receiver<T>);

/// std's `mpsc::RecvError`: no sender of the channel is left.
#[verifier::external_type_specification]
#[verifier::external_body]
pub struct ExRecvError(RecvError);

/// Whether what is sent through `sender` arrives at `receiver`: whether the two
/// are ends of one channel.
pub uninterp spec fn feeds(sender: Sender<Msg>, receiver: Receiver<Msg>) -> bool;

/// `mpsc::channel`: the two ends of a new channel.
#[verifier::external_body]
fn open_channel() -> (ends: (Sender<Msg>, Receiver<Msg>))
    ensures
        feeds(ends.0, ends.1),
{
    std::sync::mpsc::channel()
}

/// `Sender::clone`: another sending end of the same channel.
#[verifier::external_body]
fn clone_sender(sender: &Sender<Msg>) -> (handle: Sender<Msg>)
    ensures
        forall|receiver: Receiver<Msg>|
            #[trigger] feeds(handle, receiver) == feeds(*sender, receiver),
{
    sender.clone()
}

/// `Receiver::recv`: waits for the next message of the channel. Which message
/// comes, and whether one comes, is up to the senders.
#[verifier::external_body]
fn receive(receiver: &Receiver<Msg>) -> Result<Msg, RecvError> {
    receiver.recv()
}

/// A trait to turn your data in to something [`App`] can run.
pub trait Model: Sized {
    /// Where any initial startup commands are sent.
    ///
    /// A model that does not write this function sends none.
    fn startup(&self) -> (first: Option<Msg>)
        default_ensures
            first is None,
    {
        None
    }

    /// Where the messages are used to construct a new model.
    fn update(self, msg: &Msg) -> (Self, Option<Msg>);

    /// Where the model is used to render a frame.
    fn view(&self) -> String;
}

/// Where the driver stands in its cycle.
pub enum Phase {
    /// `startup` has not been asked yet.
    Starting,
    /// The chain of the last message is drained and shown; the next message
    /// comes from the channel.
    AwaitingMessage,
    /// This message is the next to go to `update`.
    Chaining(Msg),
    /// The chain is drained; the frame is due.
    Rendering,
    /// A `Quit` message was met.
    Terminating,
}

impl Phase {
    /// The phase after `startup` has answered: its message is the first of a
    /// chain, and without one the first message comes from the channel.
    pub fn after_startup(first: Option<Msg>) -> (phase: Phase)
        ensures
            phase == match first {
                Some(msg) => Phase::Chaining(msg),
                None => Phase::AwaitingMessage,
            },
    {
        match first {
            Some(msg) => Phase::Chaining(msg),
            None => Phase::AwaitingMessage,
        }
    }

    /// The phase after `update` has answered: a follow-up goes on with the
    /// chain, and without one the frame is due.
    pub fn after_update(follow_up: Option<Msg>) -> (phase: Phase)
        ensures
            phase == match follow_up {
                Some(msg) => Phase::Chaining(msg),
                None => Phase::Rendering,
            },
    {
        match follow_up {
            Some(msg) => Phase::Chaining(msg),
            None => Phase::Rendering,
        }
    }
}

/// What the caller of [`App::advance`] does before it calls again.
pub enum Action {
    /// Nothing.
    Continue,
    /// Clear the screen and write this frame.
    Draw(String),
    /// Leave the loop: the run is over.
    Stop,
    /// Give up: the channel of the messages is closed.
    Disconnected,
}

/// An [`Action`], with the frame as a text.
pub ghost enum Signal {
    Continue,
    Draw(Seq<char>),
    Stop,
    Disconnected,
}

impl View for Action {
    type V = Signal;

    open spec fn view(&self) -> Signal {
        match self {
            Action::Continue => Signal::Continue,
            Action::Draw(frame) => Signal::Draw(frame@),
            Action::Stop => Signal::Stop,
            Action::Disconnected => Signal::Disconnected,
        }
    }
}

/// The state of a run: the one live model and the phase.
pub ghost struct Driver<M> {
    pub model: M,
    pub phase: Phase,
}

/// What came back from outside the driver in one step.
pub ghost enum Outcome<M> {
    /// `startup` returned this.
    Started(Option<Msg>),
    /// The channel delivered this message.
    Received(Msg),
    /// The channel is closed.
    Closed,
    /// `update` returned this model and this follow-up.
    Updated(M, Option<Msg>),
    /// `view` returned this text.
    Viewed(Seq<char>),
    /// Nothing was asked.
    Idle,
}

/// Whether `outcome` is what the driver can get in the state `d`: what it asks
/// for in its phase, of its model as it is.
pub open spec fn admissible<M: Model>(d: Driver<M>, outcome: Outcome<M>) -> bool {
    match d.phase {
        Phase::Starting => outcome matches Outcome::Started(first) && call_ensures(
            M::startup,
            (&d.model,),
            first,
        ),
        Phase::AwaitingMessage => outcome is Received || outcome is Closed,
        Phase::Chaining(msg) => if msg@ is Quit {
            outcome is Idle
        } else {
            outcome matches Outcome::Updated(model, follow_up) && call_ensures(
                M::update,
                (d.model, &msg),
                (model, follow_up),
            )
        },
        Phase::Rendering => outcome matches Outcome::Viewed(text) && exists|shown: String|
            #![trigger call_ensures(M::view, (&d.model,), shown)]
            shown@ == text && call_ensures(M::view, (&d.model,), shown),
        Phase::Terminating => outcome is Idle,
    }
}

/// One step of the driver: the state after it, and what the caller is told.
///
/// A `Quit` message ends the run where it is met, before `update` sees it. Any
/// other message goes to `update`; the model that comes back replaces the old
/// one, and a follow-up is the next message of the chain. Only when no follow-up
/// comes back is the frame due, and only when it has been drawn is the next
/// message taken from the channel.
pub open spec fn step<M>(d: Driver<M>, outcome: Outcome<M>) -> (Driver<M>, Signal) {
    match (d.phase, outcome) {
        (Phase::Starting, Outcome::Started(Some(first))) => (
            Driver { model: d.model, phase: Phase::Chaining(first) },
            Signal::Continue,
        ),
        (Phase::Starting, Outcome::Started(None)) => (
            Driver { model: d.model, phase: Phase::AwaitingMessage },
            Signal::Continue,
        ),
        (Phase::AwaitingMessage, Outcome::Received(msg)) => (
            Driver { model: d.model, phase: Phase::Chaining(msg) },
            Signal::Continue,
        ),
        (Phase::AwaitingMessage, Outcome::Closed) => (d, Signal::Disconnected),
        (Phase::Chaining(msg), _) => if msg@ is Quit {
            (Driver { model: d.model, phase: Phase::Terminating }, Signal::Stop)
        } else {
            match outcome {
                Outcome::Updated(model, Some(follow_up)) => (
                    Driver { model, phase: Phase::Chaining(follow_up) },
                    Signal::Continue,
                ),
                Outcome::Updated(model, None) => (
                    Driver { model, phase: Phase::Rendering },
                    Signal::Continue,
                ),
                _ => (d, Signal::Continue),
            }
        },
        (Phase::Rendering, Outcome::Viewed(text)) => (
            Driver { model: d.model, phase: Phase::AwaitingMessage },
            Signal::Draw(line_breaks(text)),
        ),
        (Phase::Terminating, _) => (d, Signal::Stop),
        _ => (d, Signal::Continue),
    }
}

/// A type to hold on to and run your [`Model`].
pub struct App<M: Model> {
    model: M,
    phase: Phase,
    message_sender: Sender<Msg>,
    message_receiver: Receiver<Msg>,
}

impl<M: Model> View for App<M> {
    type V = Driver<M>;

    closed spec fn view(&self) -> Driver<M> {
        Driver { model: self.model, phase: self.phase }
    }
}

impl<M: Model> App<M> {
    /// The sender that the app keeps is an end of the channel that it reads.
    #[verifier::type_invariant]
    spec fn connected(self) -> bool {
        feeds(self.message_sender, self.message_receiver)
    }

    /// Whether what is sent through `handle` arrives at this app.
    pub closed spec fn accepts(&self, handle: Sender<Msg>) -> bool {
        feeds(handle, self.message_receiver)
    }

    /// Create a new [`App`].
    #[must_use]
    pub fn new(model: M) -> (app: Self)
        ensures
            app@ == (Driver { model, phase: Phase::Starting }),
    {
        let (message_sender, message_receiver) = open_channel();
        Self { model, phase: Phase::Starting, message_sender, message_receiver }
    }

    /// Get a copy of the [`Sender`] for sending [`Msg`]s.
    pub fn sender(&self) -> (handle: Sender<Msg>)
        ensures
            self.accepts(handle),
    {
        proof {
            use_type_invariant(self);
        }
        clone_sender(&self.message_sender)
    }

    /// Take the next step of the run, and say what the caller has to do.
    ///
    /// In the phase `AwaitingMessage` this waits for a message of the channel.
    pub fn advance(self) -> (next: (Self, Action))
        ensures
            exists|outcome: Outcome<M>|
                #![trigger admissible(self@, outcome)]
                admissible(self@, outcome) && (next.0@, next.1@) == step(self@, outcome),
            forall|handle: Sender<Msg>| next.0.accepts(handle) == self.accepts(handle),
    {
        proof {
            use_type_invariant(&self);
        }
        let ghost before = self@;
        let App { model, phase, message_sender, message_receiver } = self;
        match phase {
            Phase::Starting => {
                let first = model.startup();
                let ghost outcome = Outcome::<M>::Started(first);
                let phase = Phase::after_startup(first);
                let app = App { model, phase, message_sender, message_receiver };
                assert(admissible(before, outcome) && (app@, Signal::Continue) == step(
                    before,
                    outcome,
                ));
                (app, Action::Continue)
            },
            Phase::AwaitingMessage => {
                match receive(&message_receiver) {
                    Ok(msg) => {
                        let ghost outcome = Outcome::<M>::Received(msg);
                        let app = App {
                            model,
                            phase: Phase::Chaining(msg),
                            message_sender,
                            message_receiver,
                        };
                        assert(admissible(before, outcome) && (app@, Signal::Continue) == step(
                            before,
                            outcome,
                        ));
                        (app, Action::Continue)
                    },
                    Err(_) => {
                        let ghost outcome = Outcome::<M>::Closed;
                        let app = App {
                            model,
                            phase: Phase::AwaitingMessage,
                            message_sender,
                            message_receiver,
                        };
                        assert(admissible(before, outcome) && (app@, Signal::Disconnected)
                            == step(before, outcome));
                        (app, Action::Disconnected)
                    },
                }
            },
            Phase::Chaining(msg) => {
                let quit = msg.is::<Quit>();
                proof {
                    law_is_quit(msg@, quit);
                }
                if quit {
                    let ghost outcome = Outcome::<M>::Idle;
                    let app = App {
                        model,
                        phase: Phase::Terminating,
                        message_sender,
                        message_receiver,
                    };
                    assert(admissible(before, outcome) && (app@, Signal::Stop) == step(
                        before,
                        outcome,
                    ));
                    (app, Action::Stop)
                } else {
                    let (model, follow_up) = model.update(&msg);
                    let ghost outcome = Outcome::<M>::Updated(model, follow_up);
                    let phase = Phase::after_update(follow_up);
                    let app = App { model, phase, message_sender, message_receiver };
                    assert(admissible(before, outcome) && (app@, Signal::Continue) == step(
                        before,
                        outcome,
                    ));
                    (app, Action::Continue)
                }
            },
            Phase::Rendering => {
                let shown = model.view();
                let frame = terminal_lines(shown.as_str());
                let ghost outcome = Outcome::<M>::Viewed(shown@);
                let app = App {
                    model,
                    phase: Phase::AwaitingMessage,
                    message_sender,
                    message_receiver,
                };
                assert(admissible(before, outcome) && (app@, Signal::Draw(frame@)) == step(
                    before,
                    outcome,
                ));
                (app, Action::Draw(frame))
            },
            Phase::Terminating => {
                let ghost outcome = Outcome::<M>::Idle;
                let app = App {
                    model,
                    phase: Phase::Terminating,
                    message_sender,
                    message_receiver,
                };
                assert(admissible(before, outcome) && (app@, Signal::Stop) == step(
                    before,
                    outcome,
                ));
                (app, Action::Stop)
            },
        }
    }

    /// Take steps until the caller has something to do, `limit` steps at most.
    ///
    /// This drains a chain, however long, without a word to the caller: with
    /// the largest `limit` the caller hears of a frame that is due, of the end
    /// of the run and of a closed channel, and of nothing else.
    pub fn proceed(self, limit: usize) -> (next: (Self, Action))
        ensures
            exists|outcomes: Seq<Outcome<M>>|
                #![trigger feasible(self@, outcomes)]
                {
                    &&& outcomes.len() <= limit
                    &&& feasible(self@, outcomes)
                    &&& replay(self@, outcomes).0 == next.0@
                    &&& quiet_until(replay(self@, outcomes).1, next.1@)
                    &&& outcomes.len() == limit || !(next.1@ is Continue)
                },
            forall|handle: Sender<Msg>| next.0.accepts(handle) == self.accepts(handle),
    {
        let mut app = self;
        let mut action = Action::Continue;
        let mut taken: usize = 0;
        let mut going = true;
        let ghost mut outcomes = Seq::<Outcome<M>>::empty();
        while going && taken < limit
            invariant
                taken <= limit,
                outcomes.len() == taken,
                feasible(self@, outcomes),
                replay(self@, outcomes).0 == app@,
                replay(self@, outcomes).1.len() == taken,
                quiet_until(replay(self@, outcomes).1, action@),
                going == (action@ is Continue),
                forall|handle: Sender<Msg>| app.accepts(handle) == self.accepts(handle),
            decreases limit - taken,
        {
            let ghost standing = app@;
            let (stepped, told) = app.advance();
            proof {
                let outcome = choose|outcome: Outcome<M>|
                    #![trigger admissible(standing, outcome)]
                    admissible(standing, outcome) && (stepped@, told@) == step(
                        standing,
                        outcome,
                    );
                lemma_replay_push(self@, outcomes, outcome);
                assert(outcomes.push(outcome).drop_last() == outcomes);
                outcomes = outcomes.push(outcome);
            }
            app = stepped;
            going = matches!(told, Action::Continue);
            action = told;
            taken = taken + 1;
        }
        (app, action)
    }
}

/// The state after a run of steps, and what the caller was told at each of them.
pub open spec fn replay<M>(d: Driver<M>, outcomes: Seq<Outcome<M>>) -> (Driver<M>, Seq<Signal>)
    decreases outcomes.len(),
{
    if outcomes.len() == 0 {
        (d, Seq::empty())
    } else {
        let (before, signals) = replay(d, outcomes.drop_last());
        let (after, signal) = step(before, outcomes.last());
        (after, signals.push(signal))
    }
}

/// The frames that the caller was told to draw, in their order.
pub open spec fn frames(signals: Seq<Signal>) -> Seq<Seq<char>>
    decreases signals.len(),
{
    if signals.len() == 0 {
        Seq::empty()
    } else {
        match signals.last() {
            Signal::Draw(frame) => frames(signals.drop_last()).push(frame),
            _ => frames(signals.drop_last()),
        }
    }
}

/// Whether each of `outcomes` is what the driver can get where it stands when
/// it gets it.
pub open spec fn feasible<M: Model>(d: Driver<M>, outcomes: Seq<Outcome<M>>) -> bool
    decreases outcomes.len(),
{
    outcomes.len() == 0 || (feasible(d, outcomes.drop_last()) && admissible(
        replay(d, outcomes.drop_last()).0,
        outcomes.last(),
    ))
}

/// Whether the caller was told to continue at every step but the last, and
/// `last` at the last. Of no steps at all, `last` is to continue.
pub open spec fn quiet_until(signals: Seq<Signal>, last: Signal) -> bool {
    if signals.len() == 0 {
        last is Continue
    } else {
        &&& signals.last() == last
        &&& forall|i: int| 0 <= i < signals.len() - 1 ==> signals[i] is Continue
    }
}

/// What comes back while a chain is drained: `update` returns the models in
/// their order, each but the last with the follow-up of its place.
pub open spec fn chain<M>(models: Seq<M>, follow_ups: Seq<Msg>) -> Seq<Outcome<M>> {
    Seq::new(
        models.len(),
        |i: int|
            Outcome::Updated(
                models[i],
                if i < follow_ups.len() {
                    Some(follow_ups[i])
                } else {
                    None
                },
            ),
    )
}

/// What comes back in one cycle without a follow-up: a message of the channel,
/// the model that `update` makes of it, the text that `view` makes of that model.
pub open spec fn cycle<M>(msg: Msg, model: M, text: Seq<char>) -> Seq<Outcome<M>> {
    seq![Outcome::Received(msg), Outcome::Updated(model, None), Outcome::Viewed(text)]
}

/// What comes back in as many such cycles as there are messages.
pub open spec fn cycles<M>(msgs: Seq<Msg>, models: Seq<M>, texts: Seq<Seq<char>>) -> Seq<
    Outcome<M>,
>
    decreases msgs.len(),
{
    if msgs.len() == 0 {
        Seq::empty()
    } else {
        cycles(msgs.drop_last(), models.drop_last(), texts.drop_last()) + cycle(
            msgs.last(),
            models.last(),
            texts.last(),
        )
    }
}

/// A run that is one step longer.
pub proof fn lemma_replay_push<M>(d: Driver<M>, outcomes: Seq<Outcome<M>>, last: Outcome<M>)
    ensures
        replay(d, outcomes.push(last)).0 == step(replay(d, outcomes).0, last).0,
        replay(d, outcomes.push(last)).1 == replay(d, outcomes).1.push(
            step(replay(d, outcomes).0, last).1,
        ),
{
    assert(outcomes.push(last).drop_last() == outcomes);
}

/// The frames of signals with one more.
pub proof fn lemma_frames_push(signals: Seq<Signal>, last: Signal)
    ensures
        frames(signals.push(last)) == match last {
            Signal::Draw(frame) => frames(signals).push(frame),
            _ => frames(signals),
        },
{
    assert(signals.push(last).drop_last() == signals);
}

/// A run of two parts is the run of the second part from where the first ended.
pub proof fn lemma_replay_concat<M>(d: Driver<M>, first: Seq<Outcome<M>>, second: Seq<Outcome<M>>)
    ensures
        replay(d, first + second).0 == replay(replay(d, first).0, second).0,
        replay(d, first + second).1 == replay(d, first).1 + replay(replay(d, first).0, second).1,
    decreases second.len(),
{
    if second.len() > 0 {
        lemma_replay_concat(d, first, second.drop_last());
        lemma_replay_push(d, first + second.drop_last(), second.last());
        assert(second == second.drop_last().push(second.last()));
        lemma_replay_push(replay(d, first).0, second.drop_last(), second.last());
    }
}

/// The frames of two runs of signals, one after the other.
pub proof fn lemma_frames_concat(first: Seq<Signal>, second: Seq<Signal>)
    ensures
        frames(first + second) == frames(first) + frames(second),
    decreases second.len(),
{
    if second.len() > 0 {
        lemma_frames_concat(first, second.drop_last());
        lemma_frames_push(first + second.drop_last(), second.last());
        assert(second == second.drop_last().push(second.last()));
        lemma_frames_push(second.drop_last(), second.last());
    }
}

/// Steps that are quiet until the last draw no frame but the one that the last
/// step may tell of.
pub proof fn law_quiet_draws_last(signals: Seq<Signal>, last: Signal)
    requires
        quiet_until(signals, last),
    ensures
        frames(signals) == match last {
            Signal::Draw(frame) => seq![frame],
            _ => Seq::empty(),
        },
    decreases signals.len(),
{
    if signals.len() > 0 {
        let front = signals.drop_last();
        lemma_frames_push(front, last);
        if front.len() > 0 {
            law_quiet_draws_last(front, Signal::Continue);
        }
    }
}

/// With a `Quit` message at the head of the chain the run is over: whatever
/// comes back from then on, the model stays as it is, no frame is drawn, and
/// the caller is told to stop at every step.
proof fn lemma_quit_at_hand<M>(d: Driver<M>, outcomes: Seq<Outcome<M>>)
    requires
        d.phase matches Phase::Chaining(msg) && msg@ is Quit,
        outcomes.len() > 0,
    ensures
        replay(d, outcomes).0 == (Driver { model: d.model, phase: Phase::Terminating }),
        replay(d, outcomes).1.len() == outcomes.len(),
        forall|i: int| 0 <= i < outcomes.len() ==> replay(d, outcomes).1[i] is Stop,
        frames(replay(d, outcomes).1).len() == 0,
    decreases outcomes.len(),
{
    let front = outcomes.drop_last();
    lemma_replay_push(d, front, outcomes.last());
    if front.len() > 0 {
        lemma_quit_at_hand(d, front);
    }
    lemma_frames_push(replay(d, front).1, Signal::Stop);
}

/// Whether `arrival` brings the message `msg` to the driver in the state `d`:
/// as the message of `startup`, as a message of the channel, or as the
/// follow-up of an update.
pub open spec fn brings<M>(d: Driver<M>, arrival: Outcome<M>, msg: Msg) -> bool {
    match d.phase {
        Phase::Starting => arrival == Outcome::<M>::Started(Some(msg)),
        Phase::AwaitingMessage => arrival == Outcome::<M>::Received(msg),
        Phase::Chaining(at_hand) => {
            &&& !(at_hand@ is Quit)
            &&& arrival matches Outcome::Updated(_, Some(follow_up))
            &&& follow_up == msg
        },
        _ => false,
    }
}

/// A `Quit` message halts the run, wherever it came from: `startup`, the
/// channel, or an update that returned it as its follow-up.
///
/// The step that brings it draws nothing. At the next step the run is over:
/// from then on, whatever comes back, the model stays as it is, no frame is
/// drawn, no message is taken from the channel, and the caller is told to stop.
pub proof fn law_quit_halts<M>(
    d: Driver<M>,
    arrival: Outcome<M>,
    quit: Msg,
    later: Seq<Outcome<M>>,
)
    requires
        quit@ is Quit,
        brings(d, arrival, quit),
        later.len() > 0,
    ensures
        ({
            let met = step(d, arrival);
            let (halted, signals) = replay(d, seq![arrival] + later);
            &&& met.0.phase == Phase::Chaining(quit)
            &&& met.1 is Continue
            &&& halted == (Driver { model: met.0.model, phase: Phase::Terminating })
            &&& signals.len() == later.len() + 1
            &&& forall|i: int| 1 <= i < signals.len() ==> signals[i] is Stop
            &&& frames(signals).len() == 0
        }),
{
    let first = seq![arrival];
    let met = step(d, arrival);
    lemma_replay_push(d, Seq::empty(), arrival);
    lemma_replay_concat(d, first, later);
    lemma_quit_at_hand(met.0, later);
    lemma_frames_push(Seq::empty(), Signal::Continue);
    lemma_frames_concat(replay(d, first).1, replay(met.0, later).1);
}

/// While follow-ups come back the chain goes on and no frame is drawn: after
/// `n` updates that each returned a follow-up, the model is the last that came
/// back and its follow-up is the next message.
proof fn lemma_chain_goes_on<M>(d: Driver<M>, models: Seq<M>, follow_ups: Seq<Msg>, n: int)
    requires
        d.phase matches Phase::Chaining(first) && !(first@ is Quit),
        models.len() == follow_ups.len() + 1,
        forall|i: int| 0 <= i < follow_ups.len() ==> !(#[trigger] follow_ups[i]@ is Quit),
        0 <= n <= follow_ups.len(),
    ensures
        replay(d, chain(models, follow_ups).take(n)).0 == if n == 0 {
            d
        } else {
            Driver { model: models[n - 1], phase: Phase::Chaining(follow_ups[n - 1]) }
        },
        frames(replay(d, chain(models, follow_ups).take(n)).1).len() == 0,
    decreases n,
{
    let outcomes = chain(models, follow_ups).take(n);
    if n > 0 {
        let front = chain(models, follow_ups).take(n - 1);
        let last = Outcome::Updated(models[n - 1], Some(follow_ups[n - 1]));
        lemma_chain_goes_on(d, models, follow_ups, n - 1);
        assert(outcomes == front.push(last));
        lemma_replay_push(d, front, last);
        lemma_frames_push(replay(d, front).1, Signal::Continue);
    }
}

/// A chain is drawn once, when it is drained, and as the last model shows it.
///
/// Let `update` return a follow-up as many times as there are `follow_ups`, and
/// then none. After these updates the model is the last that came back, the
/// frame is due, and no frame has been drawn. The next step draws the text that
/// `view` makes, which is the one frame of the chain, and only then is another
/// message taken from the channel.
pub proof fn law_chain_renders_once<M>(
    d: Driver<M>,
    models: Seq<M>,
    follow_ups: Seq<Msg>,
    text: Seq<char>,
)
    requires
        d.phase matches Phase::Chaining(first) && !(first@ is Quit),
        models.len() == follow_ups.len() + 1,
        forall|i: int| 0 <= i < follow_ups.len() ==> !(#[trigger] follow_ups[i]@ is Quit),
    ensures
        replay(d, chain(models, follow_ups)).0 == (Driver {
            model: models.last(),
            phase: Phase::Rendering,
        }),
        frames(replay(d, chain(models, follow_ups)).1).len() == 0,
        replay(d, chain(models, follow_ups).push(Outcome::Viewed(text))).0 == (Driver {
            model: models.last(),
            phase: Phase::AwaitingMessage,
        }),
        frames(replay(d, chain(models, follow_ups).push(Outcome::Viewed(text))).1) == seq![
            line_breaks(text),
        ],
{
    let updates = chain(models, follow_ups);
    let n = follow_ups.len() as int;
    let front = updates.take(n);
    let last = Outcome::Updated(models.last(), None::<Msg>);
    lemma_chain_goes_on(d, models, follow_ups, n);
    lemma_replay_push(d, front, last);
    lemma_frames_push(replay(d, front).1, Signal::Continue);
    lemma_replay_push(d, updates, Outcome::Viewed(text));
    lemma_frames_push(replay(d, updates).1, Signal::Draw(line_breaks(text)));
}

/// A message that `startup` returns is drawn before any message of the channel
/// is taken: it is the first of a chain, and the chain is drained and drawn as
/// every chain is.
pub proof fn law_startup_message_is_drawn<M>(
    d: Driver<M>,
    first: Msg,
    models: Seq<M>,
    follow_ups: Seq<Msg>,
    text: Seq<char>,
)
    requires
        d.phase is Starting,
        !(first@ is Quit),
        models.len() == follow_ups.len() + 1,
        forall|i: int| 0 <= i < follow_ups.len() ==> !(#[trigger] follow_ups[i]@ is Quit),
    ensures
        ({
            let outcomes = seq![Outcome::Started(Some(first))] + chain(models, follow_ups).push(
                Outcome::Viewed(text),
            );
            &&& replay(d, outcomes).0 == (Driver {
                model: models.last(),
                phase: Phase::AwaitingMessage,
            })
            &&& frames(replay(d, outcomes).1) == seq![line_breaks(text)]
            &&& forall|i: int| 0 <= i < outcomes.len() ==> !(outcomes[i] is Received)
        }),
{
    let started = seq![Outcome::<M>::Started(Some(first))];
    let rest = chain(models, follow_ups).push(Outcome::Viewed(text));
    let chaining = Driver { model: d.model, phase: Phase::Chaining(first) };
    lemma_replay_push(d, Seq::empty(), Outcome::<M>::Started(Some(first)));
    lemma_replay_concat(d, started, rest);
    law_chain_renders_once(chaining, models, follow_ups, text);
    lemma_frames_push(Seq::empty(), Signal::Continue);
    lemma_frames_concat(replay(d, started).1, replay(chaining, rest).1);
}

/// One cycle without a follow-up draws one frame and waits again.
proof fn lemma_cycle<M>(d: Driver<M>, msg: Msg, model: M, text: Seq<char>)
    requires
        d.phase is AwaitingMessage,
        !(msg@ is Quit),
    ensures
        replay(d, cycle(msg, model, text)).0 == (Driver { model, phase: Phase::AwaitingMessage }),
        frames(replay(d, cycle(msg, model, text)).1) == seq![line_breaks(text)],
{
    let none = Seq::<Outcome<M>>::empty();
    let received = Outcome::<M>::Received(msg);
    let updated = Outcome::Updated(model, None::<Msg>);
    let viewed = Outcome::<M>::Viewed(text);
    assert(cycle(msg, model, text) == none.push(received).push(updated).push(viewed));
    lemma_replay_push(d, none, received);
    lemma_replay_push(d, none.push(received), updated);
    lemma_replay_push(d, none.push(received).push(updated), viewed);
    let quiet = Seq::<Signal>::empty();
    lemma_frames_push(quiet, Signal::Continue);
    lemma_frames_push(quiet.push(Signal::Continue), Signal::Continue);
    lemma_frames_push(
        quiet.push(Signal::Continue).push(Signal::Continue),
        Signal::Draw(line_breaks(text)),
    );
}

/// Where `update` returns no follow-up, every message of the channel is drawn
/// once, in the order of the messages.
///
/// The run takes each message, hands it to `update`, and draws what `view`
/// makes of the model that came back, before it takes the next message.
pub proof fn law_one_render_per_message<M>(
    d: Driver<M>,
    msgs: Seq<Msg>,
    models: Seq<M>,
    texts: Seq<Seq<char>>,
)
    requires
        d.phase is AwaitingMessage,
        msgs.len() == models.len() == texts.len(),
        forall|i: int| 0 <= i < msgs.len() ==> !(#[trigger] msgs[i]@ is Quit),
    ensures
        replay(d, cycles(msgs, models, texts)).0 == (Driver {
            model: if msgs.len() == 0 {
                d.model
            } else {
                models.last()
            },
            phase: Phase::AwaitingMessage,
        }),
        frames(replay(d, cycles(msgs, models, texts)).1) == Seq::new(
            msgs.len(),
            |i: int| line_breaks(texts[i]),
        ),
    decreases msgs.len(),
{
    if msgs.len() > 0 {
        let before = cycles(msgs.drop_last(), models.drop_last(), texts.drop_last());
        let last = cycle(msgs.last(), models.last(), texts.last());
        law_one_render_per_message(d, msgs.drop_last(), models.drop_last(), texts.drop_last());
        lemma_replay_concat(d, before, last);
        let waiting = replay(d, before).0;
        lemma_cycle(waiting, msgs.last(), models.last(), texts.last());
        lemma_frames_concat(replay(d, before).1, replay(waiting, last).1);
    }
}

} // verus!
