//! The command executor's decision logic.
//!
//! The executor drains the command channel and hands every command, exactly
//! once, to an independent short-lived worker; the embedding runtime does
//! the spawning and the running. What is verified here is the step each
//! worker performs when its command has run to completion: forwarding the
//! command's optional message — and nothing else — onto the message
//! channel, unchanged.

use vstd::prelude::*;

use crate::message::Message;
use crate::queue::Queue;

verus! {

/// A worker's forwarding step, run after its command has executed.
///
/// A command yields at most one message: if it yielded one, exactly that
/// message is placed at the back of the message queue; if it yielded none,
/// the queue is left untouched — so a silent command feeds nothing back
/// into the loop, and causes no further `update` or render beyond those of
/// the message that scheduled it.
pub fn forward_result<M, C>(result: Option<Message<M, C>>, inbox: &mut Queue<Message<M, C>>)
    ensures
        match result {
            Some(m) => final(inbox)@ == old(inbox)@.push(m),
            None => final(inbox)@ == old(inbox)@,
        },
{
    if let Some(m) = result {
        inbox.enqueue(m);
    }
}

} // verus!
