//! The dispatcher: owner of the application state and of the main loop's
//! state machine.
//!
//! The dispatcher moves through three phases, `Init -> Running ->
//! Terminated`. While running it consumes one message at a time: the quit
//! sentinel terminates the loop with no further render, a batch enqueues
//! its commands in order and re-renders the unchanged state, and every
//! other message is forwarded to the application's `update` and followed by
//! exactly one render.
//!
//! The whole behaviour is captured by a specification-level transition
//! system: [`Config`] is a configuration (application state, phase, call
//! trace, command queue contents, sink contents), [`spec_step`] is the
//! one-message transition and [`spec_run`] its iteration. Every executable
//! entry point promises that it takes the configuration exactly where the
//! transition system says, and the loop's guarantees — one render per
//! processed message, strict update/render alternation, termination on
//! quit — are proved of `spec_run` itself.

use vstd::prelude::*;

use crate::app::App;
use crate::message::Message;
use crate::queue::Queue;

verus! {

/// The dispatcher's lifecycle phase.
#[derive(Clone, Copy, PartialEq, Eq, Structural, Debug)]
pub enum Phase {
    /// Created, but initialization has not run yet.
    Init,
    /// Consuming messages.
    Running,
    /// The quit sentinel was processed; no further message is consumed.
    Terminated,
}

/// One callback invocation the dispatcher makes into the application,
/// recorded (in ghost state) in the order the calls happen.
pub enum Call {
    /// A call of the application's `update`.
    Update,
    /// A call of the application's `view`.
    Render,
}

/// A specification-level configuration of the whole runtime: the
/// application state, the dispatcher's phase, the trace of callback
/// invocations made so far, and the contents of the command queue and of
/// the output sink.
#[verifier::ext_equal]
pub struct Config<A: App> {
    pub app: A,
    pub phase: Phase,
    pub calls: Seq<Call>,
    pub cmds: Seq<A::Cmd>,
    pub sink: Seq<u8>,
}

/// The transition one message causes on a running configuration:
/// - quit terminates the loop and makes no call at all;
/// - a batch appends its commands, in order, to the command queue, leaves
///   the application state untouched and renders the unchanged state;
/// - any other message goes to `update` (whose yielded command, if any, is
///   enqueued) and is followed by one render of the new state.
pub open spec fn spec_step<A: App>(c: Config<A>, m: Message<A::Msg, A::Cmd>) -> Config<A> {
    match m {
        Message::Quit => Config {
            app: c.app,
            phase: Phase::Terminated,
            calls: c.calls,
            cmds: c.cmds,
            sink: c.sink,
        },
        Message::Batch(v) => Config {
            app: c.app,
            phase: c.phase,
            calls: c.calls.push(Call::Render),
            cmds: c.cmds + v@,
            sink: c.sink + c.app.view_spec(),
        },
        _ => {
            let next = c.app.update_spec(m);
            Config {
                app: next.0,
                phase: c.phase,
                calls: c.calls.push(Call::Update).push(Call::Render),
                cmds: if next.1 is Some {
                    c.cmds.push(next.1.unwrap())
                } else {
                    c.cmds
                },
                sink: c.sink + next.0.view_spec(),
            }
        },
    }
}

/// The iterated transition: messages are consumed in order until none is
/// left or the configuration is no longer running; once terminated,
/// nothing changes any more.
pub open spec fn spec_run<A: App>(c: Config<A>, msgs: Seq<Message<A::Msg, A::Cmd>>) -> Config<A>
    decreases msgs.len(),
{
    if msgs.len() == 0 {
        c
    } else if !(c.phase is Running) {
        c
    } else {
        spec_run(spec_step(c, msgs[0]), msgs.drop_first())
    }
}

/// No quit sentinel anywhere in the sequence.
pub open spec fn quit_free<M, C>(msgs: Seq<Message<M, C>>) -> bool {
    forall|i: int| 0 <= i < msgs.len() ==> !((#[trigger] msgs[i]) is Quit)
}

/// How many of these messages a running dispatcher consumes: all of them,
/// or all up to and including the first quit sentinel.
pub open spec fn processed_count<M, C>(msgs: Seq<Message<M, C>>) -> nat
    decreases msgs.len(),
{
    if msgs.len() == 0 {
        0
    } else if msgs[0] is Quit {
        1
    } else {
        1 + processed_count(msgs.drop_first())
    }
}

/// The dispatcher: sole owner and sole mutator of the application state.
pub struct Dispatcher<A: App> {
    app: A,
    phase: Phase,
    calls: Ghost<Seq<Call>>,
}

impl<A: App> Dispatcher<A> {
    /// The application state, as the dispatcher holds it.
    pub closed spec fn app(&self) -> A {
        self.app
    }

    /// The current lifecycle phase.
    pub closed spec fn phase(&self) -> Phase {
        self.phase
    }

    /// The trace of `update` and `view` calls made so far, in order.
    pub closed spec fn calls(&self) -> Seq<Call> {
        self.calls@
    }

    /// This dispatcher's configuration, given the contents of the command
    /// queue and of the sink it works against.
    pub open spec fn config(&self, cmds: Seq<A::Cmd>, sink: Seq<u8>) -> Config<A> {
        Config {
            app: self.app(),
            phase: self.phase(),
            calls: self.calls(),
            cmds: cmds,
            sink: sink,
        }
    }

    /// A fresh dispatcher owning `app`, with no call made yet.
    pub fn new(app: A) -> (d: Self)
        ensures
            d.phase() is Init,
            d.app() == app,
            d.calls() == Seq::<Call>::empty(),
    {
        Dispatcher { app, phase: Phase::Init, calls: Ghost(Seq::empty()) }
    }

    /// Whether the dispatcher is consuming messages.
    pub fn is_running(&self) -> (b: bool)
        ensures
            b == (self.phase() is Running),
    {
        matches!(self.phase, Phase::Running)
    }

    /// Whether the quit sentinel has been processed.
    pub fn is_terminated(&self) -> (b: bool)
        ensures
            b == (self.phase() is Terminated),
    {
        matches!(self.phase, Phase::Terminated)
    }

    /// Read-only access to the application state.
    pub fn app_ref(&self) -> (a: &A)
        ensures
            *a == self.app(),
    {
        &self.app
    }

    /// Gives the application state back, consuming the dispatcher.
    pub fn into_app(self) -> (a: A)
        ensures
            a == self.app(),
    {
        let Dispatcher { app, phase, calls } = self;
        app
    }

    /// One render: calls the application's `view` on the sink and records
    /// the call.
    fn render(&mut self, sink: &mut Vec<u8>)
        ensures
            final(self).app() == old(self).app(),
            final(self).phase() == old(self).phase(),
            final(self).calls() == old(self).calls().push(Call::Render),
            final(sink)@ == old(sink)@ + old(self).app().view_spec(),
    {
        self.app.view(sink);
        self.calls = Ghost(self.calls@.push(Call::Render));
    }

    /// The initialization step: runs `initialize` (the application's
    /// `init`, with its command, if any, enqueued), renders the initial
    /// state unconditionally, and moves to `Running`.
    pub fn start(&mut self, cmds: &mut Queue<A::Cmd>, sink: &mut Vec<u8>)
        requires
            old(self).phase() is Init,
        ensures
            final(self).phase() is Running,
            final(self).app() == old(self).app(),
            final(self).calls() == old(self).calls().push(Call::Render),
            final(cmds)@ == if old(self).app().init_spec() is Some {
                old(cmds)@.push(old(self).app().init_spec().unwrap())
            } else {
                old(cmds)@
            },
            final(sink)@ == old(sink)@ + old(self).app().view_spec(),
    {
        initialize(&self.app, cmds);
        self.render(sink);
        self.phase = Phase::Running;
    }

    /// The main loop over the messages now waiting: consumes them in
    /// order, one [`Dispatcher::step`] per message, until the queue is
    /// drained or the quit sentinel is processed, and returns how many
    /// messages were consumed. The configuration ends up exactly where
    /// [`spec_run`] over the waiting messages says; unconsumed messages
    /// (those after a quit) stay in the queue. The real runtime blocks on
    /// an empty queue instead of returning; here the caller refills the
    /// queue and calls again.
    pub fn run_until_quit(
        &mut self,
        inbox: &mut Queue<Message<A::Msg, A::Cmd>>,
        cmds: &mut Queue<A::Cmd>,
        sink: &mut Vec<u8>,
    ) -> (n: usize)
        requires
            old(self).phase() is Running,
        ensures
            final(self).config(final(cmds)@, final(sink)@) == spec_run(
                old(self).config(old(cmds)@, old(sink)@),
                old(inbox)@,
            ),
            n == processed_count(old(inbox)@),
            final(inbox)@ == old(inbox)@.skip(n as int),
            final(self).phase() is Running <==> quit_free(old(inbox)@),
            final(self).phase() is Running || final(self).phase() is Terminated,
    {
        let ghost c0 = old(self).config(old(cmds)@, old(sink)@);
        let ghost inbox0 = old(inbox)@;
        let total = inbox.len();
        let mut n: usize = 0;
        loop
            invariant_except_break
                self.phase() is Running,
                total == inbox0.len(),
                n <= total,
                inbox@ == inbox0.skip(n as int),
                quit_free(inbox0.take(n as int)),
                processed_count(inbox0) == n + processed_count(inbox@),
                spec_run(self.config(cmds@, sink@), inbox@) == spec_run(c0, inbox0),
            ensures
                self.config(cmds@, sink@) == spec_run(c0, inbox0),
                n == processed_count(inbox0),
                inbox@ == inbox0.skip(n as int),
                self.phase() is Running <==> quit_free(inbox0),
                self.phase() is Running || self.phase() is Terminated,
            decreases inbox@.len(),
        {
            let m_opt = inbox.dequeue();
            match m_opt {
                None => {
                    proof {
                        assert(inbox0.take(n as int) =~= inbox0);
                    }
                    break;
                },
                Some(m) => {
                    let ghost rem = inbox0.skip(n as int);
                    let ghost mv = m;
                    let ghost pre = self.config(cmds@, sink@);
                    n = n + 1;
                    self.step(m, cmds, sink);
                    proof {
                        assert(rem.drop_first() =~= inbox0.skip(n as int));
                        assert(spec_run(pre, rem) == spec_run(
                            spec_step(pre, mv),
                            rem.drop_first(),
                        ));
                    }
                    if !self.is_running() {
                        proof {
                            assert(spec_run(self.config(cmds@, sink@), inbox@)
                                == self.config(cmds@, sink@));
                            assert(processed_count(rem) == 1);
                            assert(!quit_free(inbox0)) by {
                                assert(inbox0[n - 1] is Quit);
                            }
                        }
                        break;
                    }
                    proof {
                        assert(processed_count(rem) == 1 + processed_count(rem.drop_first()));
                        assert(quit_free(inbox0.take(n as int))) by {
                            assert forall|i: int| 0 <= i < n implies !((#[trigger] inbox0.take(
                                n as int,
                            )[i]) is Quit) by {
                                if i < n - 1 {
                                    assert(inbox0.take(n as int)[i] == inbox0.take(n - 1)[i]);
                                } else {
                                    assert(inbox0.take(n as int)[i] == mv);
                                }
                            }
                        }
                    }
                },
            }
        }
        n
    }

    /// Consumes one message: exactly the transition [`spec_step`]
    /// describes. In particular a batch's commands are enqueued in the
    /// batch's order, and the loop ends, with no render, exactly when the
    /// message is the quit sentinel.
    pub fn step(&mut self, msg: Message<A::Msg, A::Cmd>, cmds: &mut Queue<A::Cmd>, sink: &mut Vec<u8>)
        requires
            old(self).phase() is Running,
        ensures
            final(self).config(final(cmds)@, final(sink)@) == spec_step(
                old(self).config(old(cmds)@, old(sink)@),
                msg,
            ),
            final(self).phase() is Terminated <==> msg is Quit,
    {
        match msg {
            Message::Quit => {
                self.phase = Phase::Terminated;
            },
            Message::Batch(v) => {
                cmds.enqueue_all(v);
                self.render(sink);
            },
            other => {
                let c = self.app.update(other);
                self.calls = Ghost(self.calls@.push(Call::Update));
                if let Some(cmd) = c {
                    cmds.enqueue(cmd);
                }
                self.render(sink);
            },
        }
        proof {
            assert(self.config(cmds@, sink@) =~= spec_step(
                old(self).config(old(cmds)@, old(sink)@),
                msg,
            ));
        }
    }
}

/// The application's one-time initialization: if `init` yields a command,
/// it is placed on the command queue; otherwise the queue is untouched.
pub fn initialize<A: App>(app: &A, cmds: &mut Queue<A::Cmd>)
    ensures
        final(cmds)@ == if app.init_spec() is Some {
            old(cmds)@.push(app.init_spec().unwrap())
        } else {
            old(cmds)@
        },
{
    if let Some(cmd) = app.init() {
        cmds.enqueue(cmd);
    }
}

} // verus!
