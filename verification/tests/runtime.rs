//! End-to-end tests of the dispatch loop, driven with the sample counter
//! application: the test plays the roles the embedding runtime would play
//! (delivering messages, executing commands, collecting renders).

use rustea::counter::{run_counter_cmd, CounterApp, CounterCmd, CounterMsg};
use rustea::dispatcher::{initialize, Dispatcher};
use rustea::executor::forward_result;
use rustea::message::{KeyInput, Message, PointerInput, ResizeEvent};
use rustea::queue::Queue;

type Msg = Message<CounterMsg, CounterCmd>;

struct Harness {
    d: Dispatcher<CounterApp>,
    inbox: Queue<Msg>,
    cmds: Queue<CounterCmd>,
    sink: Vec<u8>,
}

/// Builds a dispatcher over a fresh counter and runs its initialization.
fn started() -> Harness {
    let mut d = Dispatcher::new(CounterApp::new());
    let mut cmds = Queue::new();
    let mut sink: Vec<u8> = Vec::new();
    d.start(&mut cmds, &mut sink);
    Harness { d, inbox: Queue::new(), cmds, sink }
}

impl Harness {
    fn run(&mut self) -> usize {
        assert!(self.d.is_running(), "dispatcher must be running");
        self.d
            .run_until_quit(&mut self.inbox, &mut self.cmds, &mut self.sink)
    }
}

#[test]
fn init_renders_initial_state() {
    let h = started();
    assert_eq!(h.sink, b"0".to_vec());
    assert!(h.cmds.is_empty(), "init yields no command");
    assert!(h.d.is_running());
}

#[test]
fn initialize_without_init_command_leaves_queue_untouched() {
    let app = CounterApp::new();
    let mut cmds: Queue<CounterCmd> = Queue::new();
    initialize(&app, &mut cmds);
    assert!(cmds.is_empty());
}

#[test]
fn scenario_counter_ticks() {
    // Scenario: each tick increments the counter and schedules the next
    // tick; after three ticks the renders read 0, 1, 2, 3 in order.
    let mut h = started();
    forward_result(run_counter_cmd(CounterCmd::Tick), &mut h.inbox);
    let mut round: usize = 0;
    while round < 3 {
        let n = h.run();
        assert_eq!(n, 1);
        let cmd = h.cmds.dequeue().expect("tick schedules the next tick");
        assert_eq!(cmd, CounterCmd::Tick);
        forward_result(run_counter_cmd(cmd), &mut h.inbox);
        round += 1;
    }
    assert_eq!(h.d.app_ref().count, 3);
    assert_eq!(h.sink, b"0123".to_vec());
}

#[test]
fn one_render_per_processed_message() {
    // Four non-control messages: four renders beyond the initial one,
    // one update each, in order.
    let mut h = started();
    let mut sent: usize = 0;
    while sent < 4 {
        h.inbox.enqueue(Message::App(CounterMsg::Tick));
        sent += 1;
    }
    let n = h.run();
    assert_eq!(n, 4);
    assert_eq!(h.sink, b"01234".to_vec());
    assert_eq!(h.d.app_ref().count, 4);
}

#[test]
fn input_messages_reach_update_and_render() {
    // Resize and pointer messages are not control messages: each one goes
    // through update (which, for this application, changes nothing) and
    // is followed by a render of the state.
    let mut h = started();
    h.inbox.enqueue(Message::Resize(ResizeEvent(80, 24)));
    h.inbox.enqueue(Message::Pointer(PointerInput { kind: 3, column: 1, row: 2 }));
    let n = h.run();
    assert_eq!(n, 2);
    assert_eq!(h.sink, b"000".to_vec());
    assert_eq!(h.d.app_ref().count, 0);
    assert!(h.cmds.is_empty());
}

#[test]
fn quit_ends_loop_without_rendering() {
    // Quit as the third message: two renders after the initial one, none
    // for quit itself, and the message after quit stays unprocessed.
    let mut h = started();
    h.inbox.enqueue(Message::App(CounterMsg::Tick));
    h.inbox.enqueue(Message::App(CounterMsg::Tick));
    h.inbox.enqueue(Message::Quit);
    h.inbox.enqueue(Message::App(CounterMsg::Tick));
    let n = h.run();
    assert_eq!(n, 3);
    assert!(h.d.is_terminated());
    assert_eq!(h.sink, b"012".to_vec());
    assert_eq!(h.d.app_ref().count, 2);
    assert_eq!(h.inbox.len(), 1, "the message after quit is left in place");
}

#[test]
fn quit_as_first_message_renders_only_init() {
    let mut h = started();
    h.inbox.enqueue(Message::Quit);
    let n = h.run();
    assert_eq!(n, 1);
    assert!(h.d.is_terminated());
    assert_eq!(h.sink, b"0".to_vec());
}

#[test]
fn batch_enqueues_all_commands_in_order() {
    // A batch of three commands: all three end up on the command queue in
    // the batch's order, the state is untouched, and the unchanged state
    // is rendered once more.
    let mut h = started();
    h.inbox.enqueue(Message::Batch(vec![
        CounterCmd::Echo(7),
        CounterCmd::Silent,
        CounterCmd::Tick,
    ]));
    let n = h.run();
    assert_eq!(n, 1);
    assert_eq!(h.cmds.dequeue(), Some(CounterCmd::Echo(7)));
    assert_eq!(h.cmds.dequeue(), Some(CounterCmd::Silent));
    assert_eq!(h.cmds.dequeue(), Some(CounterCmd::Tick));
    assert_eq!(h.cmds.dequeue(), None);
    assert_eq!(h.d.app_ref().count, 0, "batch leaves the state untouched");
    assert_eq!(h.sink, b"00".to_vec(), "the unchanged state is re-rendered");
}

#[test]
fn silent_command_produces_no_further_calls() {
    // A command that yields no message: nothing reaches the loop, so no
    // update and no render happen beyond those of the scheduling message.
    let mut h = started();
    h.inbox.enqueue(Message::App(CounterMsg::Tick));
    let n = h.run();
    assert_eq!(n, 1);
    assert_eq!(h.sink, b"01".to_vec());
    let result = run_counter_cmd(CounterCmd::Silent);
    assert!(result.is_none());
    forward_result(result, &mut h.inbox);
    let n2 = h.run();
    assert_eq!(n2, 0, "nothing was delivered, nothing is processed");
    assert_eq!(h.sink, b"01".to_vec(), "no further render");
    assert_eq!(h.d.app_ref().count, 1, "no further update");
}

#[test]
fn payload_round_trip() {
    // A payload built by a command reaches update unchanged.
    let mut h = started();
    forward_result(run_counter_cmd(CounterCmd::Echo(42)), &mut h.inbox);
    let n = h.run();
    assert_eq!(n, 1);
    assert_eq!(h.d.app_ref().echo_bits, 42);
}

#[test]
fn scenario_batch_fanout() {
    // A key event makes update schedule a fanout; its execution yields a
    // batch of two echo commands; both are executed and both messages are
    // observed, here with completions delivered in reverse order.
    let mut h = started();
    h.inbox.enqueue(Message::Key(KeyInput { code: 13, modifiers: 0 }));
    let n = h.run();
    assert_eq!(n, 1);
    let fanout = h.cmds.dequeue().expect("key schedules the fanout");
    assert_eq!(fanout, CounterCmd::Fanout);
    forward_result(run_counter_cmd(fanout), &mut h.inbox);
    let n2 = h.run();
    assert_eq!(n2, 1);
    let first = h.cmds.dequeue().expect("first command of the batch");
    let second = h.cmds.dequeue().expect("second command of the batch");
    assert_eq!(first, CounterCmd::Echo(1));
    assert_eq!(second, CounterCmd::Echo(2));
    assert!(h.cmds.is_empty());
    // workers complete in no guaranteed order: deliver the second first
    forward_result(run_counter_cmd(second), &mut h.inbox);
    forward_result(run_counter_cmd(first), &mut h.inbox);
    let n3 = h.run();
    assert_eq!(n3, 2);
    assert_eq!(h.d.app_ref().echo_bits, 3, "both echoes were delivered");
    assert_eq!(h.d.app_ref().count, 0);
}

#[test]
fn scenario_batch_fanout_in_order() {
    // The same fanout with completions delivered in the scheduled order.
    let mut h = started();
    h.inbox.enqueue(Message::Key(KeyInput { code: 13, modifiers: 0 }));
    h.run();
    let fanout = h.cmds.dequeue().expect("key schedules the fanout");
    forward_result(run_counter_cmd(fanout), &mut h.inbox);
    h.run();
    let first = h.cmds.dequeue().expect("first command of the batch");
    let second = h.cmds.dequeue().expect("second command of the batch");
    forward_result(run_counter_cmd(first), &mut h.inbox);
    forward_result(run_counter_cmd(second), &mut h.inbox);
    h.run();
    assert_eq!(h.d.app_ref().echo_bits, 3);
}

#[test]
fn into_app_returns_final_state() {
    let mut h = started();
    h.inbox.enqueue(Message::App(CounterMsg::Tick));
    h.run();
    let app = h.d.into_app();
    assert_eq!(app.count, 1);
}
