//! The application contract: the user-supplied polymorphic unit the
//! dispatcher drives.
//!
//! An application chooses a message payload type `Msg` and a command type
//! `Cmd`, and describes its behaviour with three specification functions
//! (`init_spec`, `update_spec`, `view_spec`). The three executable
//! callbacks must agree with them, which is what lets every property of the
//! dispatcher loop be stated exactly: the loop's contracts speak of the
//! application's behaviour only through these specification functions.

use vstd::prelude::*;

use crate::message::Message;

verus! {

/// The trait a model must implement in order to be run.
///
/// `init` is called once, before any message is processed, and may yield a
/// first command. `update` is called for every processed non-control
/// message; it alone may mutate the state, and may yield a command.
/// `view` is called after `init` and after every processed message; it
/// renders the state into a byte sink and must leave the state unchanged
/// (it only receives a shared reference).
pub trait App: Sized {
    /// The application-defined message payload type.
    type Msg;

    /// The application-defined command type: a description of a deferred,
    /// one-shot unit of work, executed outside the dispatcher.
    type Cmd;

    /// The command `init` yields, if any.
    spec fn init_spec(&self) -> Option<Self::Cmd>;

    /// The state `update` leaves behind and the command it yields, as a
    /// function of the state before the call and the incoming message.
    spec fn update_spec(&self, msg: Message<Self::Msg, Self::Cmd>) -> (Self, Option<Self::Cmd>);

    /// The bytes `view` appends to the sink, as a function of the state.
    spec fn view_spec(&self) -> Seq<u8>;

    /// One-time initialization; may schedule a first command.
    fn init(&self) -> (c: Option<Self::Cmd>)
        ensures
            c == self.init_spec(),
    ;

    /// Reacts to one message: may mutate the state and may yield a command.
    fn update(&mut self, msg: Message<Self::Msg, Self::Cmd>) -> (c: Option<Self::Cmd>)
        ensures
            *final(self) == old(self).update_spec(msg).0,
            c == old(self).update_spec(msg).1,
    ;

    /// Renders the state, appending its output to the sink.
    fn view(&self, sink: &mut Vec<u8>)
        ensures
            final(sink)@ == old(sink)@ + self.view_spec(),
    ;
}

} // verus!
