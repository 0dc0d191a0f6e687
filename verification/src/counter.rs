//! A small sample application: a counter driven by tick messages. It is
//! the kind of model a user of the runtime writes, and the test suite
//! drives the whole loop with it.
//!
//! Its state is a counter plus a bit set of echoed values. A tick message
//! advances the counter and schedules another tick; an echo message
//! records its value; a key event schedules a fanout command, whose
//! execution asks the dispatcher (through a batch message) to schedule two
//! echo commands at once.

use vstd::prelude::*;

use crate::app::App;
use crate::message::Message;

verus! {

/// The sample application's message payload.
#[derive(Clone, Copy, PartialEq, Eq, Structural, Debug)]
pub enum CounterMsg {
    /// Advance the counter by one.
    Tick,
    /// A value reported back by a finished echo command.
    Echo(u64),
}

/// The sample application's command type: what each deferred unit of work
/// means is given by [`run_counter_cmd`].
#[derive(Clone, Copy, PartialEq, Eq, Structural, Debug)]
pub enum CounterCmd {
    /// Yields one tick message.
    Tick,
    /// Yields one echo message carrying this value.
    Echo(u64),
    /// Yields a batch that schedules an echo of 1 and an echo of 2.
    Fanout,
    /// Runs to completion without yielding any message.
    Silent,
}

/// A counter incremented once per tick, saturating at the type's maximum.
pub open spec fn inc_spec(c: u64) -> u64 {
    if c == u64::MAX {
        c
    } else {
        (c + 1) as u64
    }
}

/// The decimal rendering of `n`, as ASCII digit bytes, most significant
/// first, with no leading zeros (a lone zero for `n == 0`).
pub open spec fn dec_rep(n: nat) -> Seq<u8>
    decreases n,
{
    if n < 10 {
        seq![(48 + n) as u8]
    } else {
        dec_rep(n / 10).push((48 + n % 10) as u8)
    }
}

/// Appends the decimal rendering of `n` to the sink.
pub fn push_decimal(n: u64, sink: &mut Vec<u8>)
    ensures
        final(sink)@ == old(sink)@ + dec_rep(n as nat),
    decreases n,
{
    if n < 10 {
        sink.push((48 + n as u8));
        proof {
            assert(old(sink)@.push((48 + n) as u8) =~= old(sink)@ + dec_rep(n as nat));
        }
    } else {
        push_decimal(n / 10, sink);
        sink.push(48 + (n % 10) as u8);
        proof {
            assert((old(sink)@ + dec_rep((n / 10) as nat)).push((48 + n as nat % 10) as u8)
                =~= old(sink)@ + dec_rep(n as nat));
        }
    }
}

/// The sample application's state.
#[derive(Clone, Copy, PartialEq, Eq, Structural, Debug)]
pub struct CounterApp {
    /// How many ticks have been processed.
    pub count: u64,
    /// The values echoed back so far, OR-ed together, so that the set of
    /// delivered echoes can be observed independently of their order.
    pub echo_bits: u64,
}

impl CounterApp {
    /// A fresh counter: nothing counted, nothing echoed.
    pub fn new() -> (a: Self)
        ensures
            a == (CounterApp { count: 0, echo_bits: 0 }),
    {
        CounterApp { count: 0, echo_bits: 0 }
    }
}

impl App for CounterApp {
    type Msg = CounterMsg;

    type Cmd = CounterCmd;

    /// Initialization schedules nothing.
    open spec fn init_spec(&self) -> Option<CounterCmd> {
        None
    }

    /// A tick advances the counter and schedules the next tick; an echo
    /// records its value; a key event schedules a fanout; everything else
    /// leaves the state alone and yields nothing.
    open spec fn update_spec(&self, msg: Message<CounterMsg, CounterCmd>) -> (
        Self,
        Option<CounterCmd>,
    ) {
        match msg {
            Message::App(CounterMsg::Tick) => (
                CounterApp { count: inc_spec(self.count), echo_bits: self.echo_bits },
                Some(CounterCmd::Tick),
            ),
            Message::App(CounterMsg::Echo(v)) => (
                CounterApp { count: self.count, echo_bits: self.echo_bits | v },
                None,
            ),
            Message::Key(_) => (*self, Some(CounterCmd::Fanout)),
            _ => (*self, None),
        }
    }

    /// The view is the decimal rendering of the counter.
    open spec fn view_spec(&self) -> Seq<u8> {
        dec_rep(self.count as nat)
    }

    fn init(&self) -> (c: Option<CounterCmd>) {
        None
    }

    fn update(&mut self, msg: Message<CounterMsg, CounterCmd>) -> (c: Option<CounterCmd>) {
        match msg {
            Message::App(CounterMsg::Tick) => {
                if self.count < u64::MAX {
                    self.count = self.count + 1;
                }
                Some(CounterCmd::Tick)
            },
            Message::App(CounterMsg::Echo(v)) => {
                self.echo_bits = self.echo_bits | v;
                None
            },
            Message::Key(_) => Some(CounterCmd::Fanout),
            _ => None,
        }
    }

    fn view(&self, sink: &mut Vec<u8>) {
        push_decimal(self.count, sink);
    }
}

/// Executes one of the sample application's commands: the one-shot unit of
/// work the executor hands to a worker. A tick command yields a tick
/// message, an echo command echoes its value, a fanout command yields a
/// batch scheduling an echo of 1 and an echo of 2, in that order, and a
/// silent command yields nothing.
pub fn run_counter_cmd(cmd: CounterCmd) -> (r: Option<Message<CounterMsg, CounterCmd>>)
    ensures
        cmd is Tick ==> r == Some(Message::<CounterMsg, CounterCmd>::App(CounterMsg::Tick)),
        (forall|v: u64|
            cmd == CounterCmd::Echo(v) ==> r == Some(
                Message::<CounterMsg, CounterCmd>::App(CounterMsg::Echo(v)),
            )),
        cmd is Fanout ==> (r matches Some(m) && m matches Message::Batch(cs) && cs@ == seq![
            CounterCmd::Echo(1),
            CounterCmd::Echo(2),
        ]),
        cmd is Silent ==> r is None,
{
    match cmd {
        CounterCmd::Tick => Some(Message::App(CounterMsg::Tick)),
        CounterCmd::Echo(v) => Some(Message::App(CounterMsg::Echo(v))),
        CounterCmd::Fanout => {
            let cs = vec![CounterCmd::Echo(1), CounterCmd::Echo(2)];
            proof {
                assert(cs@ =~= seq![CounterCmd::Echo(1), CounterCmd::Echo(2)]);
            }
            Some(Message::Batch(cs))
        },
        CounterCmd::Silent => None,
    }
}

} // verus!
