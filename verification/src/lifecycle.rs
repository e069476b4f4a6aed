//! What holds of every run of a [`Session`](crate::session::Session): statements about
//! sequences of events, proved from the single-step rules.

use vstd::prelude::*;
use crate::poll_error::PollFailure;
use crate::qos::planned;
use crate::session::{
    command_of, delivery, initial, next, CommandView, ConnState, EventView, ExitStatus,
    MessageView, Phase, SessionView, MAX_RECONNECT_ATTEMPTS, RECONNECT_DELAY_SECS,
};

verus! {

/// The session after the events of `events` are reported in order.
pub open spec fn run(s: SessionView, events: Seq<EventView>) -> SessionView
    decreases events.len(),
{
    if events.len() == 0 {
        s
    } else {
        next(run(s, events.drop_last()), events.last())
    }
}

/// A sleep that ends, followed by a connection attempt that fails, `failures` times over.
pub open spec fn failed_attempts(failures: nat) -> Seq<EventView>
    decreases failures,
{
    if failures == 0 {
        Seq::empty()
    } else {
        failed_attempts((failures - 1) as nat) + seq![EventView::Woke, EventView::ConnectFailed]
    }
}

/// A sleep that ends, a connection attempt that succeeds, and subscriptions that are
/// accepted.
pub open spec fn recovery() -> Seq<EventView> {
    seq![EventView::Woke, EventView::ConnectOk, EventView::SubscribeOk]
}

/// Running two sequences in a row is running their concatenation.
pub proof fn run_splits(s: SessionView, first: Seq<EventView>, second: Seq<EventView>)
    ensures
        run(s, first + second) == run(run(s, first), second),
    decreases second.len(),
{
    if second.len() == 0 {
        assert(first + second =~= first);
    } else {
        assert((first + second).drop_last() =~= first + second.drop_last());
        assert((first + second).last() == second.last());
        run_splits(s, first, second.drop_last());
    }
}

/// Running one event is one step.
pub proof fn run_of_one(s: SessionView, e: EventView)
    ensures
        run(s, seq![e]) == next(s, e),
{
    assert(seq![e].drop_last() =~= Seq::<EventView>::empty());
    assert(run(s, seq![e].drop_last()) == s);
}

/// Every step keeps a session well formed, and leaves the configuration snapshot alone.
pub proof fn step_keeps_well_formed(s: SessionView, e: EventView)
    requires
        s.wf(),
    ensures
        next(s, e).wf(),
        next(s, e).topics == s.topics,
        next(s, e).qos == s.qos,
{
}

/// So does every run.
pub proof fn run_keeps_well_formed(s: SessionView, events: Seq<EventView>)
    requires
        s.wf(),
    ensures
        run(s, events).wf(),
        run(s, events).topics == s.topics,
        run(s, events).qos == s.qos,
    decreases events.len(),
{
    if events.len() > 0 {
        run_keeps_well_formed(s, events.drop_last());
        step_keeps_well_formed(run(s, events.drop_last()), events.last());
    }
}

/// A message is handed out only by a session that has every configured topic
/// subscribed with its normalised guarantee, whatever events led there.
pub proof fn delivery_needs_subscriptions(
    start: SessionView,
    events: Seq<EventView>,
    e: EventView,
)
    requires
        start.wf(),
    ensures
        delivery(run(start, events), e) is Some ==> run(start, events).subscriptions
            == start.plan(),
{
    run_keeps_well_formed(start, events);
}

/// Once the transport is open the session asks for every configured topic with its
/// normalised guarantee, and it polls for nothing until those subscriptions are reported
/// accepted: no event but that report makes it listen, and until then no message is
/// handed out.
pub proof fn connect_is_followed_by_subscribe(s: SessionView, e: EventView)
    requires
        s.wf(),
        s.phase == Phase::Connecting,
    ensures
        ({
            let connected = next(s, EventView::ConnectOk);
            &&& connected.phase.state() == ConnState::Connected
            &&& connected.attempts == 0
            &&& command_of(connected) == CommandView::Subscribe(s.plan())
            &&& delivery(connected, e) is None
            &&& command_of(next(connected, e)) == CommandView::Poll ==> e
                == EventView::SubscribeOk
            &&& next(connected, EventView::SubscribeOk).phase == Phase::Listening
            &&& next(connected, EventView::SubscribeOk).subscriptions == s.plan()
        }),
{
}

/// A new session that is started, connects and has its subscriptions accepted listens
/// with exactly the configured subscriptions; the request for them is the command that
/// follows the connect.
pub proof fn startup_reaches_listening(topics: Seq<Seq<char>>, qos: Seq<i32>)
    requires
        planned(topics, qos) is Ok,
    ensures
        ({
            let fresh = initial(topics, qos);
            let connected = run(fresh, seq![EventView::Start, EventView::ConnectOk]);
            let ready = run(
                fresh,
                seq![EventView::Start, EventView::ConnectOk, EventView::SubscribeOk],
            );
            &&& fresh.wf()
            &&& fresh.phase.state() == ConnState::Disconnected
            &&& command_of(next(fresh, EventView::Start)) == CommandView::Connect
            &&& command_of(connected) == CommandView::Subscribe(planned(topics, qos)->Ok_0)
            &&& ready.phase == Phase::Listening
            &&& ready.subscriptions == planned(topics, qos)->Ok_0
            &&& command_of(ready) == CommandView::Poll
        }),
{
    let fresh = initial(topics, qos);
    let two = seq![EventView::Start, EventView::ConnectOk];
    let three = seq![EventView::Start, EventView::ConnectOk, EventView::SubscribeOk];
    assert(two.drop_last() =~= seq![EventView::Start]);
    assert(three.drop_last() =~= two);
    run_of_one(fresh, EventView::Start);
}

/// Shutting down is final: no event brings a session back from it, and once only the
/// exit is left nothing changes any more.
pub proof fn shutdown_is_final(s: SessionView, e: EventView)
    requires
        s.phase.state() == ConnState::ShuttingDown,
    ensures
        next(s, e).phase.state() == ConnState::ShuttingDown,
        next(s, e).status == s.status,
        s.phase == Phase::Done ==> next(s, e) == s,
{
}

/// The first connection is not retried: its failure, and the refusal of a subscription,
/// end the process with a failure status and without any clean-up.
pub proof fn first_failure_is_fatal(s: SessionView)
    requires
        s.wf(),
    ensures
        s.phase == Phase::Connecting && !s.established ==> command_of(
            next(s, EventView::ConnectFailed),
        ) == CommandView::Exit(ExitStatus::Fatal),
        s.phase == Phase::Subscribing ==> command_of(next(s, EventView::SubscribeFailed))
            == CommandView::Exit(ExitStatus::Fatal),
        ExitStatus::Fatal.number() != 0,
{
}

/// While the connection is lost and attempts fail, the session sleeps the fixed delay
/// and tries again, counting the attempts.
proof fn failed_attempts_wait(s: SessionView, failures: nat)
    requires
        s.wf(),
        s.phase == Phase::Backoff,
        s.attempts + failures < MAX_RECONNECT_ATTEMPTS,
    ensures
        run(s, failed_attempts(failures)) == (SessionView {
            attempts: s.attempts + failures,
            ..s
        }),
    decreases failures,
{
    if failures == 0 {
        assert(run(s, failed_attempts(0)) == s);
    } else {
        let before = failed_attempts((failures - 1) as nat);
        failed_attempts_wait(s, (failures - 1) as nat);
        let mid = run(s, before);
        run_splits(s, before, seq![EventView::Woke, EventView::ConnectFailed]);
        let pair = seq![EventView::Woke, EventView::ConnectFailed];
        assert(pair.drop_last() =~= seq![EventView::Woke]);
        run_of_one(mid, EventView::Woke);
        assert(run(mid, pair) == next(next(mid, EventView::Woke), EventView::ConnectFailed));
    }
}

/// A connection loss followed by fewer failed reconnect attempts than the bound and
/// then a successful one brings the session back to listening: the attempt counter is
/// zero again, the same topics are subscribed with the same guarantees, and messages
/// are handed out as before.
pub proof fn reconnect_resumes(
    s: SessionView,
    lost: EventView,
    failures: nat,
    m: MessageView,
)
    requires
        s.wf(),
        s.phase == Phase::Listening,
        lost.loses_connection(),
        failures < MAX_RECONNECT_ATTEMPTS,
    ensures
        ({
            let back = run(s, seq![lost] + failed_attempts(failures) + recovery());
            &&& back == s
            &&& back.subscriptions == s.plan()
            &&& back.attempts == 0
            &&& command_of(back) == CommandView::Poll
            &&& delivery(back, EventView::Incoming(m)) == Some(m)
        }),
        ({
            let reopened = run(
                s,
                seq![lost] + failed_attempts(failures) + seq![
                    EventView::Woke,
                    EventView::ConnectOk,
                ],
            );
            command_of(reopened) == CommandView::Subscribe(s.plan())
        }),
{
    let down = next(s, lost);
    run_of_one(s, lost);
    failed_attempts_wait(down, failures);
    let waiting = run(down, failed_attempts(failures));
    run_splits(s, seq![lost], failed_attempts(failures));
    assert(run(s, seq![lost] + failed_attempts(failures)) == waiting);

    let reopen = seq![EventView::Woke, EventView::ConnectOk];
    assert(reopen.drop_last() =~= seq![EventView::Woke]);
    run_of_one(waiting, EventView::Woke);
    let reopened = next(next(waiting, EventView::Woke), EventView::ConnectOk);
    assert(run(waiting, reopen) == reopened);
    run_splits(s, seq![lost] + failed_attempts(failures), reopen);

    assert(recovery().drop_last() =~= reopen);
    assert(run(waiting, recovery()) == next(reopened, EventView::SubscribeOk));
    run_splits(s, seq![lost] + failed_attempts(failures), recovery());
    assert(next(reopened, EventView::SubscribeOk) =~= s);
}

/// A connection loss followed by as many failed reconnect attempts as the bound allows
/// makes the session give up. It then asks whether the connection is reported open;
/// only if it is does it unsubscribe from the configured topics and disconnect. Either
/// way the process ends with a status of its own, which is not success.
pub proof fn reconnect_gives_up(s: SessionView, lost: EventView)
    requires
        s.wf(),
        s.phase == Phase::Listening,
        lost.loses_connection(),
    ensures
        ({
            let spent = run(
                s,
                seq![lost] + failed_attempts((MAX_RECONNECT_ATTEMPTS - 1) as nat) + seq![
                    EventView::Woke,
                    EventView::ConnectFailed,
                ],
            );
            let open = next(spent, EventView::ConnectionReport { open: true });
            let closed = next(spent, EventView::ConnectionReport { open: false });
            &&& spent.phase.state() == ConnState::ShuttingDown
            &&& command_of(spent) == CommandView::ReportConnection
            &&& command_of(open) == CommandView::Cleanup { topics: s.topics }
            &&& command_of(next(open, EventView::CleanupDone)) == CommandView::Exit(
                ExitStatus::ReconnectExhausted,
            )
            &&& command_of(closed) == CommandView::Exit(ExitStatus::ReconnectExhausted)
        }),
        ExitStatus::ReconnectExhausted.number() != 0,
{
    let down = next(s, lost);
    run_of_one(s, lost);
    let most = (MAX_RECONNECT_ATTEMPTS - 1) as nat;
    failed_attempts_wait(down, most);
    let waiting = run(down, failed_attempts(most));
    run_splits(s, seq![lost], failed_attempts(most));
    let last = seq![EventView::Woke, EventView::ConnectFailed];
    assert(last.drop_last() =~= seq![EventView::Woke]);
    run_of_one(waiting, EventView::Woke);
    assert(run(waiting, last) == next(next(waiting, EventView::Woke), EventView::ConnectFailed));
    run_splits(s, seq![lost] + failed_attempts(most), last);
}

/// Before each reconnect attempt the session sleeps the fixed delay, and a failed poll
/// that did not lose the connection costs none of the attempts.
pub proof fn delays_are_fixed(s: SessionView)
    requires
        s.wf(),
    ensures
        s.phase == Phase::Backoff ==> command_of(s) == (CommandView::Sleep {
            seconds: RECONNECT_DELAY_SECS,
        }) && command_of(next(s, EventView::Woke)) == CommandView::Connect,
        s.phase == Phase::Listening ==> run(
            s,
            seq![EventView::PollFailed(PollFailure::Other), EventView::Woke],
        ) == s,
{
    let pause = seq![EventView::PollFailed(PollFailure::Other), EventView::Woke];
    assert(pause.drop_last() =~= seq![EventView::PollFailed(PollFailure::Other)]);
    run_of_one(s, EventView::PollFailed(PollFailure::Other));
    if s.phase == Phase::Listening {
        assert(run(s, pause) =~= s);
    }
}

/// A message that a poll brings while the session listens is handed out as it came,
/// and the session polls on unchanged.
pub proof fn message_is_delivered_unchanged(s: SessionView, m: MessageView)
    requires
        s.phase == Phase::Listening,
    ensures
        delivery(s, EventView::Incoming(m)) == Some(m),
        next(s, EventView::Incoming(m)) == s,
        command_of(next(s, EventView::Incoming(m))) == CommandView::Poll,
{
}

/// The acknowledgement of an outgoing disconnect ends the session cleanly: it cleans up
/// if the connection is still reported open and exits with success.
pub proof fn disconnect_ends_cleanly(s: SessionView, open: bool)
    requires
        s.phase == Phase::Listening,
    ensures
        ({
            let closing = next(s, EventView::OutgoingDisconnect);
            let reported = next(closing, EventView::ConnectionReport { open });
            &&& closing.phase.state() == ConnState::ShuttingDown
            &&& command_of(closing) == CommandView::ReportConnection
            &&& open ==> command_of(reported) == CommandView::Cleanup { topics: s.topics }
                && command_of(next(reported, EventView::CleanupDone)) == CommandView::Exit(
                ExitStatus::Clean,
            )
            &&& !open ==> command_of(reported) == CommandView::Exit(ExitStatus::Clean)
        }),
        ExitStatus::Clean.number() == 0,
{
}

} // verus!
