//! The loop's guarantees, proved of the transition system
//! ([`spec_run`]) that every dispatcher entry point is contracted to
//! follow.

use vstd::prelude::*;

use crate::app::App;
use crate::dispatcher::{quit_free, processed_count, spec_run, spec_step, Call, Config};
use crate::message::Message;

verus! {

/// How many `view` calls a trace contains.
pub open spec fn render_count(calls: Seq<Call>) -> nat
    decreases calls.len(),
{
    if calls.len() == 0 {
        0
    } else {
        render_count(calls.drop_last()) + (if calls.last() is Render {
            1nat
        } else {
            0nat
        })
    }
}

/// How many `update` calls a trace contains.
pub open spec fn update_count(calls: Seq<Call>) -> nat
    decreases calls.len(),
{
    if calls.len() == 0 {
        0
    } else {
        update_count(calls.drop_last()) + (if calls.last() is Update {
            1nat
        } else {
            0nat
        })
    }
}

/// `n` update/render pairs: the calls a running dispatcher makes for `n`
/// consecutive non-control messages.
pub open spec fn update_render_pairs(n: nat) -> Seq<Call>
    decreases n,
{
    if n == 0 {
        Seq::empty()
    } else {
        seq![Call::Update, Call::Render] + update_render_pairs((n - 1) as nat)
    }
}

proof fn lemma_count_push(s: Seq<Call>, x: Call)
    ensures
        render_count(s.push(x)) == render_count(s) + (if x is Render {
            1nat
        } else {
            0nat
        }),
        update_count(s.push(x)) == update_count(s) + (if x is Update {
            1nat
        } else {
            0nat
        }),
{
    assert(s.push(x).drop_last() =~= s);
    assert(s.push(x).last() == x);
}

proof fn lemma_count_concat(a: Seq<Call>, b: Seq<Call>)
    ensures
        render_count(a + b) == render_count(a) + render_count(b),
        update_count(a + b) == update_count(a) + update_count(b),
    decreases b.len(),
{
    if b.len() == 0 {
        assert(a + b =~= a);
    } else {
        lemma_count_concat(a, b.drop_last());
        assert((a + b).drop_last() =~= a + b.drop_last());
        assert((a + b).last() == b.last());
    }
}

proof fn lemma_counts_of_pairs(n: nat)
    ensures
        render_count(update_render_pairs(n)) == n,
        update_count(update_render_pairs(n)) == n,
    decreases n,
{
    if n != 0 {
        lemma_counts_of_pairs((n - 1) as nat);
        lemma_count_concat(seq![Call::Update, Call::Render], update_render_pairs((n - 1) as nat));
        lemma_counts_of_one_pair();
    }
}

proof fn lemma_counts_of_one_pair()
    ensures
        render_count(seq![Call::Update, Call::Render]) == 1,
        update_count(seq![Call::Update, Call::Render]) == 1,
{
    assert(seq![Call::Update].drop_last() =~= Seq::<Call>::empty());
    assert(render_count(Seq::<Call>::empty()) == 0);
    assert(update_count(Seq::<Call>::empty()) == 0);
    assert(render_count(seq![Call::Update]) == 0);
    assert(update_count(seq![Call::Update]) == 1);
    assert(seq![Call::Update, Call::Render].drop_last() =~= seq![Call::Update]);
    assert(seq![Call::Update, Call::Render].last() == Call::Render);
}

/// While running, every non-control message costs exactly one `update`
/// followed by one `view`: consuming such a sequence appends one
/// update/render pair per message to the call trace, and the dispatcher is
/// still running afterwards.
pub proof fn lemma_calls_while_running<A: App>(c: Config<A>, msgs: Seq<Message<A::Msg, A::Cmd>>)
    requires
        c.phase is Running,
        forall|i: int| 0 <= i < msgs.len() ==> !((#[trigger] msgs[i]).is_control()),
    ensures
        spec_run(c, msgs).calls == c.calls + update_render_pairs(msgs.len()),
        spec_run(c, msgs).phase is Running,
    decreases msgs.len(),
{
    if msgs.len() == 0 {
        assert(c.calls + update_render_pairs(0) =~= c.calls);
    } else {
        let m = msgs[0];
        let c1 = spec_step(c, m);
        let rest = msgs.drop_first();
        assert(!m.is_control());
        assert(forall|i: int|
            0 <= i < rest.len() ==> !((#[trigger] rest[i]).is_control())) by {
            assert(forall|i: int| 0 <= i < rest.len() ==> rest[i] == msgs[i + 1]);
        }
        lemma_calls_while_running(c1, rest);
        assert(c1.calls =~= c.calls + seq![Call::Update, Call::Render]);
        assert((c.calls + seq![Call::Update, Call::Render]) + update_render_pairs(rest.len())
            =~= c.calls + (seq![Call::Update, Call::Render] + update_render_pairs(rest.len())));
    }
}

/// For any `n` non-control messages processed while running, `view` is
/// invoked exactly `n + 1` times in total — `n` from the loop and one from
/// initialization — and `update` exactly `n` times, the two in strict
/// alternation: starting from the single render that `start` leaves in the
/// trace, the trace becomes that render followed by one update/render pair
/// per message.
pub proof fn lemma_view_count<A: App>(c: Config<A>, msgs: Seq<Message<A::Msg, A::Cmd>>)
    requires
        c.phase is Running,
        c.calls == seq![Call::Render],
        forall|i: int| 0 <= i < msgs.len() ==> !((#[trigger] msgs[i]).is_control()),
    ensures
        spec_run(c, msgs).calls == seq![Call::Render] + update_render_pairs(msgs.len()),
        render_count(spec_run(c, msgs).calls) == msgs.len() + 1,
        update_count(spec_run(c, msgs).calls) == msgs.len(),
{
    lemma_calls_while_running(c, msgs);
    lemma_count_concat(seq![Call::Render], update_render_pairs(msgs.len()));
    lemma_counts_of_pairs(msgs.len());
    assert(seq![Call::Render].drop_last() =~= Seq::<Call>::empty());
    assert(render_count(Seq::<Call>::empty()) == 0);
    assert(update_count(Seq::<Call>::empty()) == 0);
    assert(render_count(seq![Call::Render]) == 1);
    assert(update_count(seq![Call::Render]) == 0);
}

/// The quit sentinel, arriving as the `k + 1`-th message with none before
/// it, ends the loop exactly there: the run is terminated, exactly `k + 1`
/// messages are consumed, and exactly `k` renders are added to the trace —
/// one per message before the sentinel and none for the sentinel itself.
pub proof fn lemma_quit_ends_loop<A: App>(
    c: Config<A>,
    msgs: Seq<Message<A::Msg, A::Cmd>>,
    k: int,
)
    requires
        c.phase is Running,
        0 <= k < msgs.len(),
        msgs[k] is Quit,
        forall|i: int| 0 <= i < k ==> !((#[trigger] msgs[i]) is Quit),
    ensures
        spec_run(c, msgs).phase is Terminated,
        processed_count(msgs) == k + 1,
        render_count(spec_run(c, msgs).calls) == render_count(c.calls) + k,
    decreases k,
{
    let m = msgs[0];
    let c1 = spec_step(c, m);
    let rest = msgs.drop_first();
    if k == 0 {
        assert(spec_run(c1, rest) == c1);
    } else {
        assert(!(m is Quit));
        if m is Batch {
            lemma_count_push(c.calls, Call::Render);
        } else {
            lemma_count_push(c.calls, Call::Update);
            lemma_count_push(c.calls.push(Call::Update), Call::Render);
        }
        assert(render_count(c1.calls) == render_count(c.calls) + 1);
        assert(rest[k - 1] is Quit);
        assert(forall|i: int| 0 <= i < k - 1 ==> !((#[trigger] rest[i]) is Quit)) by {
            assert(forall|i: int| 0 <= i < k - 1 ==> rest[i] == msgs[i + 1]);
        }
        lemma_quit_ends_loop(c1, rest, k - 1);
    }
}

/// A message payload produced by a command reaches `update` unchanged: the
/// queues transfer values exactly as enqueued (see `Queue::dequeue` and
/// `forward_result`), and delivering an application message with payload
/// `p` after any quit-free run makes the application state exactly
/// `update_spec` of the state reached so far, applied to that very
/// payload.
pub proof fn lemma_payload_round_trip<A: App>(
    c: Config<A>,
    msgs: Seq<Message<A::Msg, A::Cmd>>,
    p: A::Msg,
)
    requires
        c.phase is Running,
        quit_free(msgs),
    ensures
        spec_run(c, msgs).phase is Running,
        spec_run(c, msgs.push(Message::App(p))).app == spec_run(c, msgs).app.update_spec(
            Message::App(p),
        ).0,
    decreases msgs.len(),
{
    let w = Message::<A::Msg, A::Cmd>::App(p);
    if msgs.len() == 0 {
        let one = msgs.push(w);
        assert(one[0] == w);
        assert(one.drop_first() =~= Seq::<Message<A::Msg, A::Cmd>>::empty());
        let c1 = spec_step(c, w);
        assert(spec_run(c, one) == spec_run(c1, one.drop_first()));
    } else {
        let m = msgs[0];
        assert(!(m is Quit));
        let c1 = spec_step(c, m);
        let rest = msgs.drop_first();
        assert(quit_free(rest)) by {
            assert(forall|i: int| 0 <= i < rest.len() ==> rest[i] == msgs[i + 1]);
        }
        lemma_payload_round_trip(c1, rest, p);
        assert(msgs.push(w)[0] == m);
        assert(msgs.push(w).drop_first() =~= rest.push(w));
    }
}

} // verus!
