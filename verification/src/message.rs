//! The two units of work that flow through the runtime: messages, which the
//! dispatcher consumes one by one, and commands, which it schedules for
//! independent execution.
//!
//! A message is a tagged union. Two reserved variants carry control meaning
//! recognized only by the dispatcher: [`Message::Quit`] ends the loop and
//! [`Message::Batch`] schedules several commands at once. Input-derived
//! variants ([`Message::Key`], [`Message::Pointer`], [`Message::Resize`])
//! pass through to the application, as does the application-defined payload
//! variant [`Message::App`], whose contents the runtime never interprets.

use vstd::prelude::*;

verus! {

/// A terminal resize notification carrying the new (width, height).
#[derive(Clone, Copy, PartialEq, Eq, Structural, Debug)]
pub struct ResizeEvent(pub u16, pub u16);

/// A key press reported by the input provider, reduced to plain values:
/// a key code and a bit set of held modifiers.
#[derive(Clone, Copy, PartialEq, Eq, Structural, Debug)]
pub struct KeyInput {
    pub code: u32,
    pub modifiers: u8,
}

/// A pointer (mouse) action reported by the input provider, reduced to
/// plain values: an action tag and the cell the pointer was over.
#[derive(Clone, Copy, PartialEq, Eq, Structural, Debug)]
pub struct PointerInput {
    pub kind: u8,
    pub column: u16,
    pub row: u16,
}

/// One raw event from the external input provider, as handed to the
/// event source for translation into a [`Message`].
#[derive(Clone, Copy, PartialEq, Eq, Structural, Debug)]
pub enum InputEvent {
    Key(KeyInput),
    Pointer(PointerInput),
    Resize(u16, u16),
}

/// A unit of information delivered into the main loop.
///
/// `M` is the application's own message payload type and `C` its command
/// type; both are opaque to the runtime.
pub enum Message<M, C> {
    /// Payload-free sentinel: gracefully ends the main loop.
    Quit,
    /// An ordered sequence of commands to schedule independently.
    /// The dispatcher enqueues them in order and leaves the state untouched.
    Batch(Vec<C>),
    /// A key event passed through from the input provider.
    Key(KeyInput),
    /// A pointer event passed through from the input provider.
    Pointer(PointerInput),
    /// A terminal resize, translated by the event source.
    Resize(ResizeEvent),
    /// An application-defined message; the runtime never reads its contents.
    App(M),
}

impl<M, C> Message<M, C> {
    /// Control messages are interpreted by the dispatcher itself and are
    /// never forwarded to the application's `update`.
    pub open spec fn is_control(self) -> bool {
        self is Quit || self is Batch
    }
}

/// The message a raw input event turns into: key and pointer events pass
/// through unchanged in their own variants, a resize becomes a
/// [`ResizeEvent`] message carrying the new dimensions.
pub open spec fn message_of_event<M, C>(ev: InputEvent) -> Message<M, C> {
    match ev {
        InputEvent::Key(k) => Message::Key(k),
        InputEvent::Pointer(p) => Message::Pointer(p),
        InputEvent::Resize(w, h) => Message::Resize(ResizeEvent(w, h)),
    }
}

/// The event source's translation step: turns one raw input event into the
/// message placed on the message queue. The result is never a control
/// message, so every input event reaches the application.
pub fn translate_event<M, C>(ev: InputEvent) -> (m: Message<M, C>)
    ensures
        m == message_of_event::<M, C>(ev),
        !m.is_control(),
{
    match ev {
        InputEvent::Key(k) => Message::Key(k),
        InputEvent::Pointer(p) => Message::Pointer(p),
        InputEvent::Resize(w, h) => Message::Resize(ResizeEvent(w, h)),
    }
}

} // verus!
