//! The listener loop's decision core.  A listener loop multiplexes two event
//! sources — an inbound datagram on its owned endpoint, and an administrative
//! command on its bus subscription — and runs each against its private
//! allocation manager.  The waiting itself is the embedding's business; every
//! decision is a step function here, with a proved contract.

use vstd::prelude::*;

use crate::allocation::has_session;
use crate::allocation::metrics_outcome;
use crate::allocation::new_allocation;
use crate::allocation::relay_recorded;
use crate::allocation::remove_owner;
use crate::allocation::AllocationInfo;
use crate::allocation::AllocationManager;
use crate::types::Error;
use crate::types::FiveTuple;

verus! {

/// Where a listener loop stands.
///
/// `Running` multiplexes datagrams against commands.  `Draining` has left the
/// loop and is releasing its sessions and its endpoint.  `Closed` is
/// terminal.  `Stalled` is the latent hazard of the single-slot result
/// channel: the loop is suspended inside its command branch, waiting to push
/// a reply into a slot that nobody will drain again, and therefore observes
/// no further event.
#[derive(Clone, Copy, PartialEq, Eq, Structural, Debug)]
pub enum ListenerState {
    Running,
    Stalled,
    Draining,
    Closed,
}

/// One administrative command, as every listener loop observes it.  The
/// side channels that carry completion and results back to the issuing
/// caller live with the embedding; the decision core sees the payload.
pub enum Command {
    /// Evict every session owned by the given identity.
    DeleteAllocations(String),
    /// Report the current session set.
    GetAllocations,
    /// Report the relayed-byte count of one session.
    GetMetrics(FiveTuple),
    /// Shut the listener loop down.
    Close,
}

/// What a listener loop must do after handling one command.
pub enum CommandAction {
    /// The eviction is done; the loop drops its clone of the completion
    /// token and continues.
    Acknowledged,
    /// Push this session snapshot into the shared result sink, then continue.
    SendAllocations(Vec<AllocationInfo>),
    /// Push this metrics outcome into the shared result sink, then continue.
    SendMetrics(Result<usize, Error>),
    /// Leave the loop and drain.
    ExitLoop,
}

/// What the external request handler reports after one inbound datagram.
/// The handler itself — decoding, authentication, relay policy — is outside
/// this core; the core applies its reported effect.
pub enum HandlerOutcome {
    /// The datagram established one session.
    NewAllocation(FiveTuple, String),
    /// The datagram relayed this many bytes on an existing session.
    Relayed(FiveTuple, usize),
    /// The datagram was handled without touching the session set.
    NoChange,
    /// The handler failed on this datagram; the failure is logged and the
    /// loop continues.
    Failed,
}

/// How a listener's session set changes when one datagram's reported effect
/// is applied.  A failed datagram changes nothing — in particular it never
/// terminates the loop.
pub open spec fn sessions_after_datagram(
    pre: Seq<AllocationInfo>,
    post: Seq<AllocationInfo>,
    outcome: HandlerOutcome,
) -> bool {
    match outcome {
        HandlerOutcome::NewAllocation(ft, name) => if has_session(pre, ft) {
            post == pre
        } else {
            post == pre.push(new_allocation(ft, name))
        },
        HandlerOutcome::Relayed(ft, bytes) => relay_recorded(pre, post, ft, bytes),
        HandlerOutcome::NoChange => post == pre,
        HandlerOutcome::Failed => post == pre,
    }
}

/// One datagram step of a running listener: the loop stays in its state and
/// its session set changes exactly by the handler's reported effect.
pub open spec fn datagram_step(pre: Listener, post: Listener, outcome: HandlerOutcome) -> bool {
    &&& post.state == pre.state
    &&& sessions_after_datagram(pre.manager.allocations@, post.manager.allocations@, outcome)
}

/// One listener loop: its state and its private allocation manager.
pub struct Listener {
    pub state: ListenerState,
    pub manager: AllocationManager,
}

impl Listener {
    /// A freshly spawned loop: running, with no sessions.
    pub fn new() -> (r: Listener)
        ensures
            r.state is Running,
            r.manager.allocations@ == Seq::<AllocationInfo>::empty(),
    {
        Listener { state: ListenerState::Running, manager: AllocationManager::new() }
    }

    /// Applies the outcome of handling one inbound datagram.  Whatever the
    /// handler reported — a failure included — the loop keeps running.
    pub fn handle_datagram(&mut self, outcome: HandlerOutcome)
        requires
            old(self).state is Running,
        ensures
            final(self).state is Running,
            datagram_step(*old(self), *final(self), outcome),
    {
        match outcome {
            HandlerOutcome::NewAllocation(ft, name) => {
                let _created = self.manager.create_allocation(ft, name);
            },
            HandlerOutcome::Relayed(ft, bytes) => {
                self.manager.add_relayed_bytes(ft, bytes);
            },
            HandlerOutcome::NoChange => {},
            HandlerOutcome::Failed => {},
        }
    }

    /// Executes one command against the private allocation manager and says
    /// what the loop must do next.
    pub fn handle_command(&mut self, cmd: &Command) -> (a: CommandAction)
        requires
            old(self).state is Running,
        ensures
            (cmd matches Command::DeleteAllocations(name) ==> {
                &&& final(self).state is Running
                &&& final(self).manager.allocations@ == remove_owner(
                    old(self).manager.allocations@,
                    name@,
                )
                &&& a is Acknowledged
            }),
            (cmd is GetAllocations ==> {
                &&& *final(self) == *old(self)
                &&& (a matches CommandAction::SendAllocations(v) && v@ == old(
                    self,
                ).manager.allocations@)
            }),
            (cmd matches Command::GetMetrics(ft) ==> {
                &&& *final(self) == *old(self)
                &&& (a matches CommandAction::SendMetrics(r) && metrics_outcome(
                    old(self).manager.allocations@,
                    *ft,
                    r,
                ))
            }),
            (cmd is Close ==> {
                &&& final(self).state is Draining
                &&& final(self).manager == old(self).manager
                &&& a is ExitLoop
            }),
    {
        match cmd {
            Command::DeleteAllocations(name) => {
                self.manager.delete_allocations_by_username(name);
                CommandAction::Acknowledged
            },
            Command::GetAllocations => CommandAction::SendAllocations(
                self.manager.get_allocations(),
            ),
            Command::GetMetrics(ft) => CommandAction::SendMetrics(self.manager.get_metrics(*ft)),
            Command::Close => {
                self.state = ListenerState::Draining;
                CommandAction::ExitLoop
            },
        }
    }

    /// A receive failure on the owned endpoint: fatal for this listener
    /// only — it leaves the loop and drains.
    pub fn on_recv_error(&mut self)
        requires
            old(self).state is Running,
        ensures
            final(self).state is Draining,
            final(self).manager == old(self).manager,
    {
        self.state = ListenerState::Draining;
    }

    /// The bus reports no publisher left: the server went away, so the loop
    /// leaves and drains.
    pub fn on_bus_closed(&mut self)
        requires
            old(self).state is Running,
        ensures
            final(self).state is Draining,
            final(self).manager == old(self).manager,
    {
        self.state = ListenerState::Draining;
    }

    /// The subscription queue overflowed and this many commands were
    /// skipped.  Non-fatal by design: the skipped commands cannot be
    /// recovered, and an administrative hiccup must not take down the relay
    /// path.  The loop logs and continues.
    pub fn on_lagged(&mut self, _skipped: u64)
        requires
            old(self).state is Running,
        ensures
            *final(self) == *old(self),
    {
    }

    /// The loop is suspended in its command branch, waiting on the occupied
    /// result slot; from here it observes no further event.
    pub fn mark_stalled(&mut self)
        requires
            old(self).state is Running,
        ensures
            final(self).state is Stalled,
            final(self).manager == old(self).manager,
    {
        self.state = ListenerState::Stalled;
    }

    /// Draining releases every session; the embedding closes the endpoint
    /// alongside.  Neither failure is escalated.
    pub fn drain(&mut self)
        requires
            old(self).state is Draining,
        ensures
            final(self).state is Closed,
            final(self).manager.allocations@ == Seq::<AllocationInfo>::empty(),
    {
        self.manager.close();
        self.state = ListenerState::Closed;
    }
}

/// Session keys stay unique through every datagram step: the handler's
/// reported effect can add a session only under a fresh key, and traffic
/// only moves a counter.
pub proof fn datagram_step_preserves_unique(pre: Listener, post: Listener, outcome: HandlerOutcome)
    requires
        crate::allocation::unique_sessions(pre.manager.allocations@),
        datagram_step(pre, post, outcome),
    ensures
        crate::allocation::unique_sessions(post.manager.allocations@),
{
    match outcome {
        HandlerOutcome::NewAllocation(ft, name) => {
            if !has_session(pre.manager.allocations@, ft) {
                crate::allocation::lemma_new_session_preserves_unique(
                    pre.manager.allocations@,
                    ft,
                    name,
                );
            }
        },
        HandlerOutcome::Relayed(ft, bytes) => {
            crate::allocation::lemma_relay_preserves_unique(
                pre.manager.allocations@,
                post.manager.allocations@,
                ft,
                bytes,
            );
        },
        HandlerOutcome::NoChange => {},
        HandlerOutcome::Failed => {},
    }
}

/// Session keys stay unique through every command as well: an eviction
/// only removes sessions, a query changes nothing, and a shutdown empties
/// the set.
pub proof fn command_preserves_unique(pre: Listener, post: Listener, name: Seq<char>)
    requires
        crate::allocation::unique_sessions(pre.manager.allocations@),
        post.manager.allocations@ == remove_owner(pre.manager.allocations@, name),
    ensures
        crate::allocation::unique_sessions(post.manager.allocations@),
{
    crate::allocation::lemma_remove_owner_preserves_unique(pre.manager.allocations@, name);
}

/// A malformed inbound datagram never takes the listener down: after the
/// handler reports a failure the loop is still running with its sessions
/// untouched, and the next datagram is applied exactly as if the failure had
/// never happened.
pub proof fn malformed_datagram_is_survivable(
    l0: Listener,
    l1: Listener,
    l2: Listener,
    outcome: HandlerOutcome,
)
    requires
        l0.state is Running,
        datagram_step(l0, l1, HandlerOutcome::Failed),
        datagram_step(l1, l2, outcome),
    ensures
        l1.state is Running,
        l1.manager.allocations@ == l0.manager.allocations@,
        l2.state is Running,
        sessions_after_datagram(l0.manager.allocations@, l2.manager.allocations@, outcome),
{
}

} // verus!
