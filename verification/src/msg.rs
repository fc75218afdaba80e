//! The envelope of the messages: a value of any message type, with its type
//! forgotten and found again on request.

use crate::event::{Focus, Key, KeyView, Mouse, MouseView, Paste, Resize};
use crate::seal::Seal;
use std::any::Any;
use vstd::prelude::*;

verus! {

/// What an envelope carries, as the contracts of this library see it.
///
/// A payload of one of the library's types is named and carried whole. A
/// payload of any other type is `Custom`: that it is there is known, what it
/// holds and of which type it is are not.
pub ghost enum Payload {
    Quit,
    Key(KeyView),
    Mouse(MouseView),
    Focus(Focus),
    Resize(Resize),
    Paste(Seq<char>),
    Custom,
}

/// Whether a payload is one of the library's own.
pub open spec fn is_named(p: Payload) -> bool {
    !(p is Custom)
}

/// A trait to allow a type to be used as a [`Msg`].
///
/// It has nothing to implement.
pub trait Message: Send {
    /// What an envelope made of this value carries: see [`payload_of`].
    ///
    /// Only the library's own types say anything but `Custom` here. No other
    /// crate can name the type of `seal`, so none can write this function for a
    /// type of its own, and no type can pass for one of the library's.
    open spec fn payload(&self, seal: Seal) -> Payload {
        Payload::Custom
    }
}

/// What an envelope made of `msg` carries.
pub open spec fn payload_of<M: Message>(msg: M) -> Payload {
    msg.payload(Seal)
}

/// A message to instruct the [`App`](crate::App) to exit.
#[derive(Debug)]
pub struct Quit;

impl Message for Quit {
    open spec fn payload(&self, seal: Seal) -> Payload {
        Payload::Quit
    }
}

/// Whether some value of type `M` makes the payload `p`.
pub open spec fn carries<M: Message>(p: Payload) -> bool {
    exists|m: M| #[trigger] payload_of(m) == p
}

/// Whether `found` is an answer of an envelope that carries `p` to the question
/// for its payload as a value of type `M`.
///
/// What is found makes the payload of the envelope. Nothing is found in an
/// envelope with a named payload only if no value of type `M` makes it.
pub open spec fn extracted<M: Message>(p: Payload, found: Option<&M>) -> bool {
    match found {
        Some(m) => payload_of(*m) == p,
        None => is_named(p) ==> !carries::<M>(p),
    }
}

/// Whether `answer` tells if an envelope that carries `p` holds a value of type `M`.
pub open spec fn probed<M: Message>(p: Payload, answer: bool) -> bool {
    &&& answer ==> carries::<M>(p)
    &&& is_named(p) && carries::<M>(p) ==> answer
}

/// A value of any type that can be sent to another thread, with its type forgotten.
///
/// This is `Box<dyn Any + Send>`, which the verifier cannot read: nothing is
/// known of a value of this type but what `erased_payload` says of it.
#[verifier::external_body]
pub struct Erased {
    inner: Box<dyn Any + Send>,
}

/// The payload that the value in the box makes.
pub uninterp spec fn erased_payload(e: Erased) -> Payload;

/// `Box::new`, and the coercion of the box to `Box<dyn Any + Send>`: the box
/// holds the value it was made of.
#[verifier::external_body]
fn erase<M: Message + 'static>(msg: M) -> (r: Erased)
    ensures
        erased_payload(r) == payload_of(msg),
{
    Erased { inner: Box::new(msg) }
}

/// `<dyn Any>::downcast_ref`: the value in the box if it is of type `M`, and
/// `None` if it is of another type.
///
/// The contract says this of payloads. What is found is the value in the box,
/// so it makes the payload of the box. Where nothing is found the value in the
/// box is of another type than `M`; if its payload is a named one, that type
/// is one of the library's, whose payloads no value of another type makes.
#[verifier::external_body]
fn downcast<M: Message + 'static>(e: &Erased) -> (r: Option<&M>)
    ensures
        extracted::<M>(erased_payload(*e), r),
{
    e.inner.downcast_ref::<M>()
}

/// A type containing a [`Message`] implementing type.
pub struct Msg {
    msg: Erased,
}

impl View for Msg {
    type V = Payload;

    closed spec fn view(&self) -> Payload {
        erased_payload(self.msg)
    }
}

impl Msg {
    /// Create a new [`Msg`] from a type implementing [`Message`].
    pub fn new<M: Message + 'static>(msg: M) -> (r: Self)
        ensures
            r@ == payload_of(msg),
    {
        Self { msg: erase(msg) }
    }

    /// Try convert this [`Msg`] to a explicit [`Message`] implementing type.
    pub fn cast<M: Message + 'static>(&self) -> (found: Option<&M>)
        ensures
            extracted::<M>(self@, found),
    {
        downcast(&self.msg)
    }

    /// Check if this [`Msg`] is a specific [`Message`] implementing type.
    pub fn is<M: Message + 'static>(&self) -> (answer: bool)
        ensures
            probed::<M>(self@, answer),
    {
        self.cast::<M>().is_some()
    }
}

/// The payloads of the library's types are apart: a value of one of them makes
/// a payload of its own kind, and every payload of that kind is made by a value
/// of that one type.
pub proof fn law_named_payloads(p: Payload)
    ensures
        carries::<Quit>(p) <==> p is Quit,
        carries::<Key>(p) <==> p is Key,
        carries::<Mouse>(p) <==> p is Mouse,
        carries::<Focus>(p) <==> p is Focus,
        carries::<Resize>(p) <==> p is Resize,
        carries::<Paste>(p) ==> p is Paste,
{
    match p {
        Payload::Quit => {
            assert(payload_of(Quit) == p);
        },
        Payload::Key(view) => {
            let key = Key::with_view(view);
            assert(payload_of(key) == p);
        },
        Payload::Mouse(view) => {
            let mouse = Mouse::with_view(view);
            assert(payload_of(mouse) == p);
        },
        Payload::Focus(focus) => {
            assert(payload_of(focus) == p);
        },
        Payload::Resize(resize) => {
            assert(payload_of(resize) == p);
        },
        _ => {},
    }
}

/// The payload of a value of the library's types tells the value: two values
/// that make the same payload are the same, two pasted texts the same text.
pub proof fn law_payload_tells_value(
    keys: (Key, Key),
    mice: (Mouse, Mouse),
    focuses: (Focus, Focus),
    sizes: (Resize, Resize),
    pastes: (Paste, Paste),
)
    ensures
        payload_of(keys.0) == payload_of(keys.1) ==> keys.0 == keys.1,
        payload_of(mice.0) == payload_of(mice.1) ==> mice.0 == mice.1,
        payload_of(focuses.0) == payload_of(focuses.1) ==> focuses.0 == focuses.1,
        payload_of(sizes.0) == payload_of(sizes.1) ==> sizes.0 == sizes.1,
        payload_of(pastes.0) == payload_of(pastes.1) ==> pastes.0.0@ == pastes.1.0@,
{
    Key::view_tells_value(keys.0, keys.1);
    Mouse::view_tells_value(mice.0, mice.1);
}

/// Asked for the type of the payload that it was built from, an envelope gives
/// a value that makes the same payload as the one it was built from: for the
/// library's own types the same value.
pub proof fn law_cast_same_type<U: Message>(built_from: U, found: Option<&U>)
    requires
        is_named(payload_of(built_from)),
        extracted::<U>(payload_of(built_from), found),
    ensures
        found matches Some(got) && payload_of(*got) == payload_of(built_from),
{
}

/// Asked for a type of which no value makes its payload, an envelope gives nothing.
pub proof fn law_cast_other_type<T: Message, U: Message>(built_from: U, found: Option<&T>)
    requires
        !carries::<T>(payload_of(built_from)),
        extracted::<T>(payload_of(built_from), found),
    ensures
        found is None,
{
}

/// An envelope says that it holds a `Quit` if and only if it was built from one.
pub proof fn law_is_quit(p: Payload, answer: bool)
    requires
        probed::<Quit>(p, answer),
    ensures
        answer == (p is Quit),
{
    law_named_payloads(p);
}

} // verus!
