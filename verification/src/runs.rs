//! Whole runs of the step functions of a client, and what holds of them.
//!
//! A run drives a step function to its end against a fixed description of the
//! outside: which endpoints accept a connection, or which operations on the
//! stream work. It records what the caller was asked to do on the way.

use crate::client::{
    close_step, connect_step, ClientView, CloseEvent, CloseStep, ConnectEvent, ConnectStep, IoOp,
    IpcError, Phase,
};
use crate::locator::CANDIDATE_COUNT;
use vstd::prelude::*;

verus! {

/// A step of a sweep moves a client between phases in one way only: an
/// accepted connection makes it connected. Every other event leaves the client
/// as it was. A well-formed client stays well-formed, given that the event
/// speaks of one of the candidate endpoints.
pub proof fn lemma_connect_step_phases(client: ClientView, event: ConnectEvent)
    ensures
        event is Accepted ==> connect_step(client, event).0.phase() == Phase::Connected,
        !(event is Accepted) ==> connect_step(client, event).0 == client,
        connect_step(client, event).0.client_id == client.client_id,
        connect_step(client, event).0.access_token == client.access_token,
        client.wf() && (event matches ConnectEvent::Accepted(index) ==> index < CANDIDATE_COUNT)
            ==> connect_step(client, event).0.wf(),
{
}

/// A step of closing moves a client between phases in one way only: the
/// attempt to shut the stream down makes a connected client closed. No step
/// connects a client, gives it a stream or takes its stream away.
pub proof fn lemma_close_step_phases(client: ClientView, event: CloseEvent)
    ensures
        event is ShutDown ==> !close_step(client, event).0.connected,
        !(event is ShutDown) ==> close_step(client, event).0 == client,
        client.phase() == Phase::Connected && event is ShutDown ==> close_step(
            client,
            event,
        ).0.phase() == Phase::Closed,
        client.phase() != Phase::Connected ==> close_step(client, event).0.phase()
            == client.phase(),
        close_step(client, event).0.socket == client.socket,
        close_step(client, event).0.client_id == client.client_id,
        close_step(client, event).0.access_token == client.access_token,
        client.wf() ==> close_step(client, event).0.wf(),
{
}

/// A finished sweep.
pub ghost struct SweepRun {
    /// The client after the sweep.
    pub client: ClientView,
    /// How the sweep ended.
    pub end: ConnectStep,
    /// The endpoints that were probed, in the order of the attempts.
    pub probed: Seq<usize>,
}

/// What the caller reports after it probed the endpoint `index`, where
/// `reachable` says of each endpoint whether it accepts.
pub open spec fn probe_answer(reachable: Seq<bool>, index: usize) -> ConnectEvent {
    if reachable[index as int] {
        ConnectEvent::Accepted(index)
    } else {
        ConnectEvent::Refused(index)
    }
}

/// Number of steps that a sweep may still take after `step`.
pub open spec fn sweep_rank(step: ConnectStep) -> nat {
    match step {
        ConnectStep::Probe(index) => if index < CANDIDATE_COUNT {
            (CANDIDATE_COUNT + 1 - index) as nat
        } else {
            0
        },
        _ => 0,
    }
}

/// The rest of a sweep that stands at `step`, having probed `probed` so far.
pub open spec fn sweep_from(
    client: ClientView,
    step: ConnectStep,
    reachable: Seq<bool>,
    probed: Seq<usize>,
) -> SweepRun
    decreases sweep_rank(step),
{
    match step {
        ConnectStep::Probe(index) => if index < CANDIDATE_COUNT {
            let next = connect_step(client, probe_answer(reachable, index));
            sweep_from(next.0, next.1, reachable, probed.push(index))
        } else {
            SweepRun { client, end: step, probed }
        },
        _ => SweepRun { client, end: step, probed },
    }
}

/// The sweep of `client` over endpoints of which exactly those marked in
/// `reachable` accept a connection.
pub open spec fn sweep(client: ClientView, reachable: Seq<bool>) -> SweepRun {
    let first = connect_step(client, ConnectEvent::Start);
    sweep_from(first.0, first.1, reachable, Seq::empty())
}

/// The indices `from`, `from + 1`, up to but without `to`.
pub open spec fn index_range(from: int, to: int) -> Seq<usize> {
    Seq::new((to - from) as nat, |i: int| (from + i) as usize)
}

proof fn lemma_sweep_reaches(
    client: ClientView,
    reachable: Seq<bool>,
    probed: Seq<usize>,
    from: usize,
    first: usize,
)
    requires
        reachable.len() == CANDIDATE_COUNT,
        from <= first < CANDIDATE_COUNT,
        reachable[first as int],
        forall|j: int| from <= j < first ==> !reachable[j],
    ensures
        sweep_from(client, ConnectStep::Probe(from), reachable, probed) == (SweepRun {
            client: client.attached(first),
            end: ConnectStep::Connected,
            probed: probed + index_range(from as int, first + 1),
        }),
    decreases first - from,
{
    reveal_with_fuel(sweep_from, 2);
    if from == first {
        assert(probed.push(from) =~= probed + index_range(from as int, first + 1));
    } else {
        lemma_sweep_reaches(client, reachable, probed.push(from), (from + 1) as usize, first);
        assert(probed.push(from) + index_range(from + 1, first + 1) =~= probed + index_range(
            from as int,
            first + 1,
        ));
    }
}

proof fn lemma_sweep_runs_out(
    client: ClientView,
    reachable: Seq<bool>,
    probed: Seq<usize>,
    from: usize,
)
    requires
        reachable.len() == CANDIDATE_COUNT,
        from < CANDIDATE_COUNT,
        forall|j: int| from <= j < CANDIDATE_COUNT ==> !reachable[j],
    ensures
        sweep_from(client, ConnectStep::Probe(from), reachable, probed) == (SweepRun {
            client,
            end: ConnectStep::Failed(IpcError::DiscoveryExhausted),
            probed: probed + index_range(from as int, CANDIDATE_COUNT as int),
        }),
    decreases CANDIDATE_COUNT - from,
{
    reveal_with_fuel(sweep_from, 2);
    if from + 1 == CANDIDATE_COUNT {
        assert(probed.push(from) =~= probed + index_range(from as int, CANDIDATE_COUNT as int));
    } else {
        lemma_sweep_runs_out(client, reachable, probed.push(from), (from + 1) as usize);
        assert(probed.push(from) + index_range(from + 1, CANDIDATE_COUNT as int) =~= probed
            + index_range(from as int, CANDIDATE_COUNT as int));
    }
}

/// A sweep short-circuits: where `first` is the lowest endpoint that accepts,
/// the sweep probes the endpoints from 0 up to `first`, in this order and
/// none after it, and ends with the client connected to `first`.
pub proof fn lemma_connect_short_circuits(client: ClientView, reachable: Seq<bool>, first: usize)
    requires
        reachable.len() == CANDIDATE_COUNT,
        first < CANDIDATE_COUNT,
        reachable[first as int],
        forall|j: int| 0 <= j < first ==> !reachable[j],
    ensures
        sweep(client, reachable).end == ConnectStep::Connected,
        sweep(client, reachable).probed == index_range(0, first + 1),
        sweep(client, reachable).client == client.attached(first),
        sweep(client, reachable).client.connected,
{
    lemma_sweep_reaches(client, reachable, Seq::empty(), 0, first);
    assert(Seq::<usize>::empty() + index_range(0, first + 1) =~= index_range(0, first + 1));
}

/// A sweep that finds nothing fails: where no endpoint accepts, the sweep
/// probes each of the ten once, in ascending order, ends with
/// `DiscoveryExhausted`, and leaves the client as it was. A client that was
/// not connected before is not connected after.
pub proof fn lemma_connect_exhaustion(client: ClientView, reachable: Seq<bool>)
    requires
        reachable.len() == CANDIDATE_COUNT,
        forall|j: int| 0 <= j < CANDIDATE_COUNT ==> !reachable[j],
    ensures
        sweep(client, reachable).end == ConnectStep::Failed(IpcError::DiscoveryExhausted),
        sweep(client, reachable).probed == index_range(0, CANDIDATE_COUNT as int),
        sweep(client, reachable).client == client,
        !client.connected ==> !sweep(client, reachable).client.connected,
{
    lemma_sweep_runs_out(client, reachable, Seq::empty(), 0);
    assert(Seq::<usize>::empty() + index_range(0, CANDIDATE_COUNT as int) =~= index_range(
        0,
        CANDIDATE_COUNT as int,
    ));
}

/// Which of the operations of closing work.
pub ghost struct StreamFate {
    /// Writing the close frame works.
    pub send: bool,
    /// Flushing works.
    pub flush: bool,
    /// Shutting down works.
    pub shutdown: bool,
}

/// A finished closing.
pub ghost struct CloseRun {
    /// The client after closing.
    pub client: ClientView,
    /// How closing ended.
    pub end: CloseStep,
    /// What the caller was asked to do, in order.
    pub asked: Seq<CloseStep>,
}

/// Number of steps that closing may still take after `step`.
pub open spec fn close_rank(step: CloseStep) -> nat {
    match step {
        CloseStep::SendCloseFrame => 3,
        CloseStep::Flush => 2,
        CloseStep::Shutdown => 1,
        _ => 0,
    }
}

/// The rest of a closing that stands at `step`, having asked `asked` so far.
pub open spec fn close_from(
    client: ClientView,
    step: CloseStep,
    fate: StreamFate,
    asked: Seq<CloseStep>,
) -> CloseRun
    decreases close_rank(step),
{
    match step {
        CloseStep::SendCloseFrame => {
            let next = close_step(client, CloseEvent::FrameSent { ok: fate.send });
            close_from(next.0, next.1, fate, asked.push(step))
        },
        CloseStep::Flush => {
            let next = close_step(client, CloseEvent::Flushed { ok: fate.flush });
            close_from(next.0, next.1, fate, asked.push(step))
        },
        CloseStep::Shutdown => {
            let next = close_step(
                client,
                CloseEvent::ShutDown { ok: fate.shutdown, flushed: fate.flush },
            );
            close_from(next.0, next.1, fate, asked.push(step))
        },
        _ => CloseRun { client, end: step, asked },
    }
}

/// The closing of `client` on a stream whose operations fare as `fate` says.
pub open spec fn closing(client: ClientView, fate: StreamFate) -> CloseRun {
    let first = close_step(client, CloseEvent::Start);
    close_from(first.0, first.1, fate, Seq::empty())
}

/// Closing is best-effort: whether or not the close frame could be written,
/// and whether or not the flush worked, the stream is shut down and the client
/// is disconnected from then on. The caller is always asked for the same
/// three operations in the same order. Closing succeeds exactly if the flush
/// and the shutdown worked, and fails with the first of the two that did not;
/// what became of the close frame changes nothing. Identity and handle never
/// change.
pub proof fn lemma_close_best_effort(client: ClientView, fate: StreamFate)
    ensures
        closing(client, fate).asked == seq![
            CloseStep::SendCloseFrame,
            CloseStep::Flush,
            CloseStep::Shutdown,
        ],
        closing(client, fate).client == client.detached(),
        !closing(client, fate).client.connected,
        closing(client, fate).end == if !fate.flush {
            CloseStep::Failed(IpcError::Io(IoOp::Flush))
        } else if !fate.shutdown {
            CloseStep::Failed(IpcError::Io(IoOp::Shutdown))
        } else {
            CloseStep::Closed
        },
        closing(client, fate) == closing(client, StreamFate { send: !fate.send, ..fate }),
{
    reveal_with_fuel(close_from, 4);
    let run = closing(client, fate);
    assert(run.asked =~= seq![CloseStep::SendCloseFrame, CloseStep::Flush, CloseStep::Shutdown]);
    let other = closing(client, StreamFate { send: !fate.send, ..fate });
    assert(run.asked =~= other.asked);
}

} // verus!
