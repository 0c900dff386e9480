//! The control-plane handle: the public façade that fans administrative
//! commands out to every listener loop and synchronizes with their
//! completion.
//!
//! Each public operation carries its whole meaning as a transition relation
//! between the server state before and after the call: what is published,
//! which loops act, what comes back, and — for the single-slot result
//! channel — which loops are left suspended on the occupied slot.  The
//! relations are the reference for the laws proved at the end of this
//! module.

use vstd::prelude::*;

use crate::allocation::has_session;
use crate::allocation::metrics_outcome;
use crate::allocation::remove_owner;
use crate::allocation::AllocationInfo;
use crate::listener::Command;
use crate::listener::HandlerOutcome;
use crate::listener::Listener;
use crate::listener::ListenerState;
use crate::nonce::NonceStore;
use crate::types::Error;
use crate::types::FiveTuple;
use crate::types::TransportAddr;

verus! {

/// The channel-bind lifetime applied when a configuration supplies none,
/// in seconds.
pub const DEFAULT_LIFETIME_SECS: u64 = 600;

/// One configured transport endpoint.  Binding the socket is the
/// embedding's business; the control plane only needs to know the endpoint
/// exists and spawns one listener loop for it.
pub struct ConnConfig {
    pub listen_addr: TransportAddr,
}

/// The server's fixed configuration.
pub struct ServerConfig {
    pub conn_configs: Vec<ConnConfig>,
    pub realm: String,
    pub channel_bind_timeout_secs: u64,
}

/// The control-plane handle.  `closed` stands for the publish side of the
/// command bus having been taken: once true, every administrative call
/// fails.  The listeners are the loops spawned at construction, each
/// subscribed to the bus for its whole lifetime.
pub struct Server {
    pub realm: String,
    pub channel_bind_timeout_secs: u64,
    pub nonces: NonceStore,
    pub closed: bool,
    pub listeners: Vec<Listener>,
}

/// Every loop has reached its terminal state: no subscription is left, and
/// publishing a command fails.
pub open spec fn all_closed(ls: Seq<Listener>) -> bool {
    forall|i: int| 0 <= i < ls.len() ==> (#[trigger] ls[i]).state is Closed
}

/// Some loop is still running its multiplexing loop.
pub open spec fn has_running(ls: Seq<Listener>) -> bool {
    exists|i: int| 0 <= i < ls.len() && (#[trigger] ls[i]).state is Running
}

/// No loop is suspended on the occupied result slot.
pub open spec fn no_stalled(ls: Seq<Listener>) -> bool {
    forall|i: int| 0 <= i < ls.len() ==> !((#[trigger] ls[i]).state is Stalled)
}

/// The handle's own fields — realm, channel-bind lifetime, nonce store —
/// are untouched between `pre` and `post`.
pub open spec fn same_handle(pre: Server, post: Server) -> bool {
    &&& post.realm == pre.realm
    &&& post.channel_bind_timeout_secs == pre.channel_bind_timeout_secs
    &&& post.nonces == pre.nonces
}

/// `k` is the first running loop: the one whose reply fills the one-slot
/// result sink before the handle performs its single receive.
pub open spec fn query_target(ls: Seq<Listener>, k: int) -> bool {
    &&& 0 <= k < ls.len()
    &&& ls[k].state is Running
    &&& forall|j: int| 0 <= j < k ==> !((#[trigger] ls[j]).state is Running)
}

/// How one loop ends up after a query command was published.  The
/// responder and every loop that was not running are untouched; every other
/// running loop attempted a second send into the occupied slot and is left
/// suspended there — the latent hazard of the single-slot design.
pub open spec fn listener_after_query(pre: Listener, post: Listener, responder: bool) -> bool {
    if pre.state is Running && !responder {
        &&& post.state is Stalled
        &&& post.manager == pre.manager
    } else {
        post == pre
    }
}

/// The loop-by-loop effect of a query whose responder is loop `k`.
pub open spec fn listeners_after_query(pre: Seq<Listener>, post: Seq<Listener>, k: int) -> bool {
    &&& post.len() == pre.len()
    &&& forall|i: int| 0 <= i < pre.len() ==> listener_after_query(
        #[trigger] pre[i],
        post[i],
        i == k,
    )
}

/// How one loop ends up after an eviction command: a running loop evicts
/// every session of the named identity and keeps running; a loop that no
/// longer listens is untouched.
pub open spec fn listener_after_delete(pre: Listener, post: Listener, name: Seq<char>) -> bool {
    if pre.state is Running {
        &&& post.state == pre.state
        &&& post.manager.allocations@ == remove_owner(pre.manager.allocations@, name)
    } else {
        post == pre
    }
}

/// How one loop ends up after a shutdown command: a running loop leaves its
/// multiplexing loop, drains and closes; every other is untouched.
pub open spec fn listener_after_shutdown(pre: Listener, post: Listener) -> bool {
    if pre.state is Running {
        &&& post.state is Closed
        &&& post.manager.allocations@ == Seq::<AllocationInfo>::empty()
    } else {
        post == pre
    }
}

/// What `delete_allocation` does: fails with the closed error when the
/// publish side is gone or no subscription is left; otherwise every running
/// loop finishes its eviction before the call returns — the completion
/// token reaches zero holders only then.
pub open spec fn delete_transition(
    pre: Server,
    post: Server,
    name: Seq<char>,
    r: Result<(), Error>,
) -> bool {
    if pre.closed || all_closed(pre.listeners@) {
        &&& post == pre
        &&& (r matches Err(e) && e == Error::Closed)
    } else {
        &&& same_handle(pre, post)
        &&& post.closed == pre.closed
        &&& post.listeners@.len() == pre.listeners@.len()
        &&& (forall|i: int| 0 <= i < pre.listeners@.len() ==> listener_after_delete(
            #[trigger] pre.listeners@[i],
            post.listeners@[i],
            name,
        ))
        &&& r is Ok
    }
}

/// What `get_allocations` does: fails with the closed error when the
/// publish side is gone or no subscription is left; otherwise returns the
/// session snapshot of the first running loop — taken at the moment that
/// loop processed the command — and leaves every other running loop
/// suspended on the occupied result slot.
pub open spec fn enumerate_transition(
    pre: Server,
    post: Server,
    r: Result<Vec<AllocationInfo>, Error>,
) -> bool {
    if pre.closed || all_closed(pre.listeners@) {
        &&& post == pre
        &&& (r matches Err(e) && e == Error::Closed)
    } else {
        &&& same_handle(pre, post)
        &&& post.closed == pre.closed
        &&& exists|k: int|
            #[trigger] query_target(pre.listeners@, k) && listeners_after_query(
                pre.listeners@,
                post.listeners@,
                k,
            ) && (r matches Ok(v) && v@ == pre.listeners@[k].manager.allocations@)
    }
}

/// What `get_metrics` does: shaped like the enumeration, except that the
/// first running loop answers with a definite metrics outcome — the
/// counter, or the not-found error as a value, never a disconnection.
pub open spec fn metrics_transition(
    pre: Server,
    post: Server,
    ft: FiveTuple,
    r: Result<usize, Error>,
) -> bool {
    if pre.closed || all_closed(pre.listeners@) {
        &&& post == pre
        &&& (r matches Err(e) && e == Error::Closed)
    } else {
        &&& same_handle(pre, post)
        &&& post.closed == pre.closed
        &&& exists|k: int|
            #[trigger] query_target(pre.listeners@, k) && listeners_after_query(
                pre.listeners@,
                post.listeners@,
                k,
            ) && metrics_outcome(pre.listeners@[k].manager.allocations@, ft, r)
    }
}

/// What `close` does: always succeeds.  A handle already closed changes
/// nothing; otherwise the publish side is taken and every running loop has
/// drained and closed before the call returns.
pub open spec fn close_transition(pre: Server, post: Server, r: Result<(), Error>) -> bool {
    &&& r is Ok
    &&& if pre.closed {
        post == pre
    } else {
        &&& same_handle(pre, post)
        &&& post.closed
        &&& post.listeners@.len() == pre.listeners@.len()
        &&& (forall|i: int| 0 <= i < pre.listeners@.len() ==> listener_after_shutdown(
            #[trigger] pre.listeners@[i],
            post.listeners@[i],
        ))
    }
}

/// A query call comes back only if it can fail at once, or some loop is
/// still running to fill the result slot.  With subscriptions left but
/// every subscribed loop suspended, the published command is never
/// processed and the handle's single receive waits forever.
pub open spec fn query_completes(s: Server) -> bool {
    s.closed || all_closed(s.listeners@) || has_running(s.listeners@)
}

/// A completion-barrier call (eviction, shutdown) comes back only if it can
/// fail at once, or no loop is suspended: a suspended loop never drops its
/// clone of the completion token, and the barrier never releases.
pub open spec fn barrier_completes(s: Server) -> bool {
    s.closed || no_stalled(s.listeners@)
}

impl Server {
    /// Creates the server: validates the configuration, applies the default
    /// channel-bind lifetime when none is supplied, and spawns one running
    /// listener loop per configured transport, each subscribed to the
    /// command bus before construction returns.
    pub fn new(config: ServerConfig) -> (r: Result<Server, Error>)
        ensures
            config.conn_configs@.len() == 0 ==> (r matches Err(e) && e == Error::NoAvailableConns),
            config.conn_configs@.len() > 0 ==> (r matches Ok(s) && {
                &&& s.closed == false
                &&& s.realm == config.realm
                &&& s.channel_bind_timeout_secs == (if config.channel_bind_timeout_secs == 0 {
                    DEFAULT_LIFETIME_SECS
                } else {
                    config.channel_bind_timeout_secs
                })
                &&& s.nonces.entries@ == Seq::<(String, u64)>::empty()
                &&& s.listeners@.len() == config.conn_configs@.len()
                &&& (forall|i: int| 0 <= i < s.listeners@.len() ==> (#[trigger] s.listeners@[i]).state
                    is Running && s.listeners@[i].manager.allocations@
                    == Seq::<AllocationInfo>::empty())
            }),
    {
        if config.conn_configs.len() == 0 {
            return Err(Error::NoAvailableConns);
        }
        let timeout: u64 = if config.channel_bind_timeout_secs == 0 {
            DEFAULT_LIFETIME_SECS
        } else {
            config.channel_bind_timeout_secs
        };
        let mut listeners: Vec<Listener> = Vec::new();
        let n = config.conn_configs.len();
        let mut i: usize = 0;
        while i < n
            invariant
                0 <= i <= n,
                listeners@.len() == i,
                forall|j: int| 0 <= j < i ==> (#[trigger] listeners@[j]).state is Running
                    && listeners@[j].manager.allocations@ == Seq::<AllocationInfo>::empty(),
            decreases n - i,
        {
            listeners.push(Listener::new());
            i += 1;
        }
        Ok(Server {
            realm: config.realm,
            channel_bind_timeout_secs: timeout,
            nonces: NonceStore::new(),
            closed: false,
            listeners,
        })
    }

    /// Whether any subscription is left on the bus: publishing fails only
    /// when every loop has closed.
    fn any_subscriber(&self) -> (r: bool)
        ensures
            r == !all_closed(self.listeners@),
    {
        let n = self.listeners.len();
        let mut i: usize = 0;
        while i < n
            invariant
                n == self.listeners.len(),
                0 <= i <= n,
                forall|j: int| 0 <= j < i ==> (#[trigger] self.listeners@[j]).state is Closed,
            decreases n - i,
        {
            let st = self.listeners[i].state;
            if !matches!(st, ListenerState::Closed) {
                return true;
            }
            i += 1;
        }
        false
    }

    /// Publishes the eviction command for `username` to every loop and
    /// returns once each running loop has finished its eviction: success is
    /// signalled by the completion token losing its last holder, so no
    /// enumeration issued afterwards can observe the evicted sessions.
    pub fn delete_allocation(&mut self, username: String) -> (r: Result<(), Error>)
        requires
            barrier_completes(*old(self)),
        ensures
            delete_transition(*old(self), *final(self), username@, r),
    {
        if self.closed {
            return Err(Error::Closed);
        }
        if !self.any_subscriber() {
            return Err(Error::Closed);
        }
        let ghost pre = *old(self);
        let cmd = Command::DeleteAllocations(username);
        let n = self.listeners.len();
        let mut i: usize = 0;
        while i < n
            invariant
                n == self.listeners.len(),
                n == pre.listeners@.len(),
                0 <= i <= n,
                same_handle(pre, *self),
                self.closed == pre.closed,
                (cmd matches Command::DeleteAllocations(name) && name@ == username@),
                forall|j: int| 0 <= j < i ==> listener_after_delete(
                    #[trigger] pre.listeners@[j],
                    self.listeners@[j],
                    username@,
                ),
                forall|j: int| i <= j < n ==> self.listeners@[j] == pre.listeners@[j],
            decreases n - i,
        {
            let st = self.listeners[i].state;
            if matches!(st, ListenerState::Running) {
                let l = &mut self.listeners[i];
                let _a = l.handle_command(&cmd);
            }
            i += 1;
        }
        Ok(())
    }

    /// Publishes an enumeration command with a fresh one-slot result sink
    /// and returns the single value received: the session snapshot of the
    /// first running loop, exactly as that loop saw it when it processed
    /// the command.  With more than one running loop, the later repliers
    /// stay suspended on the occupied slot and their loops stall — the
    /// documented limitation of the single-slot design.
    pub fn get_allocations(&mut self) -> (r: Result<Vec<AllocationInfo>, Error>)
        requires
            query_completes(*old(self)),
        ensures
            enumerate_transition(*old(self), *final(self), r),
    {
        if self.closed {
            return Err(Error::Closed);
        }
        if !self.any_subscriber() {
            return Err(Error::Closed);
        }
        let ghost pre = *old(self);
        let mut result: Option<Vec<AllocationInfo>> = None;
        let ghost mut k: int = 0int;
        let n = self.listeners.len();
        let mut i: usize = 0;
        while i < n
            invariant
                n == self.listeners.len(),
                n == pre.listeners@.len(),
                0 <= i <= n,
                same_handle(pre, *self),
                self.closed == pre.closed,
                result is None ==> *self == pre && (forall|j: int| 0 <= j < i ==> !((
                #[trigger] pre.listeners@[j]).state is Running)),
                result matches Some(v) ==> {
                    &&& query_target(pre.listeners@, k)
                    &&& k < i
                    &&& v@ == pre.listeners@[k].manager.allocations@
                    &&& forall|j: int| 0 <= j < i ==> listener_after_query(
                        #[trigger] pre.listeners@[j],
                        self.listeners@[j],
                        j == k,
                    )
                    &&& forall|j: int| i <= j < n ==> self.listeners@[j] == pre.listeners@[j]
                },
            decreases n - i,
        {
            let st = self.listeners[i].state;
            if matches!(st, ListenerState::Running) {
                if result.is_none() {
                    let v = self.listeners[i].manager.get_allocations();
                    proof {
                        k = i as int;
                    }
                    result = Some(v);
                } else {
                    let l = &mut self.listeners[i];
                    l.mark_stalled();
                }
            }
            i += 1;
        }
        match result {
            Some(v) => Ok(v),
            None => {
                // the precondition leaves no such state: some subscription
                // remained, so some loop was still running and replied
                proof {
                    assert(false);
                }
                Err(Error::Closed)
            },
        }
    }

    /// Publishes a metrics command for the session keyed by `five_tuple`
    /// and returns the single value received from the first running loop: a
    /// definite outcome — the counter, or the not-found error as a value —
    /// never an indefinite wait.  Later repliers stall as for the
    /// enumeration.
    pub fn get_metrics(&mut self, five_tuple: FiveTuple) -> (r: Result<usize, Error>)
        requires
            query_completes(*old(self)),
        ensures
            metrics_transition(*old(self), *final(self), five_tuple, r),
    {
        if self.closed {
            return Err(Error::Closed);
        }
        if !self.any_subscriber() {
            return Err(Error::Closed);
        }
        let ghost pre = *old(self);
        let mut result: Option<Result<usize, Error>> = None;
        let ghost mut k: int = 0int;
        let n = self.listeners.len();
        let mut i: usize = 0;
        while i < n
            invariant
                n == self.listeners.len(),
                n == pre.listeners@.len(),
                0 <= i <= n,
                same_handle(pre, *self),
                self.closed == pre.closed,
                result is None ==> *self == pre && (forall|j: int| 0 <= j < i ==> !((
                #[trigger] pre.listeners@[j]).state is Running)),
                result matches Some(m) ==> {
                    &&& query_target(pre.listeners@, k)
                    &&& k < i
                    &&& metrics_outcome(pre.listeners@[k].manager.allocations@, five_tuple, m)
                    &&& forall|j: int| 0 <= j < i ==> listener_after_query(
                        #[trigger] pre.listeners@[j],
                        self.listeners@[j],
                        j == k,
                    )
                    &&& forall|j: int| i <= j < n ==> self.listeners@[j] == pre.listeners@[j]
                },
            decreases n - i,
        {
            let st = self.listeners[i].state;
            if matches!(st, ListenerState::Running) {
                if result.is_none() {
                    let m = self.listeners[i].manager.get_metrics(five_tuple);
                    proof {
                        k = i as int;
                    }
                    result = Some(m);
                } else {
                    let l = &mut self.listeners[i];
                    l.mark_stalled();
                }
            }
            i += 1;
        }
        match result {
            Some(m) => m,
            None => {
                // the precondition leaves no such state: some subscription
                // remained, so some loop was still running and replied
                proof {
                    assert(false);
                }
                Err(Error::Closed)
            },
        }
    }

    /// Takes the publish handle.  With no subscription left there is
    /// nothing to wait for; otherwise the shutdown command is published and
    /// the call returns only after every running loop has drained and
    /// closed.  Always succeeds, and a second call changes nothing.
    pub fn close(&mut self) -> (r: Result<(), Error>)
        requires
            barrier_completes(*old(self)),
        ensures
            close_transition(*old(self), *final(self), r),
    {
        if self.closed {
            return Ok(());
        }
        self.closed = true;
        if !self.any_subscriber() {
            return Ok(());
        }
        let ghost pre = *old(self);
        let cmd = Command::Close;
        let n = self.listeners.len();
        let mut i: usize = 0;
        while i < n
            invariant
                n == self.listeners.len(),
                n == pre.listeners@.len(),
                0 <= i <= n,
                same_handle(pre, *self),
                self.closed,
                (cmd matches Command::Close),
                forall|j: int| 0 <= j < i ==> listener_after_shutdown(
                    #[trigger] pre.listeners@[j],
                    self.listeners@[j],
                ),
                forall|j: int| i <= j < n ==> self.listeners@[j] == pre.listeners@[j],
            decreases n - i,
        {
            let st = self.listeners[i].state;
            if matches!(st, ListenerState::Running) {
                let l = &mut self.listeners[i];
                let _a = l.handle_command(&cmd);
                l.drain();
            }
            i += 1;
        }
        Ok(())
    }

    /// The environment delivered one datagram to listener `i` and the
    /// external request handler reported `outcome`.  The loop applies the
    /// effect and keeps running, whatever was reported.
    pub fn deliver_datagram(&mut self, i: usize, outcome: HandlerOutcome)
        requires
            i < old(self).listeners@.len(),
            old(self).listeners@[i as int].state is Running,
        ensures
            same_handle(*old(self), *final(self)),
            final(self).closed == old(self).closed,
            final(self).listeners@.len() == old(self).listeners@.len(),
            final(self).listeners@[i as int].state is Running,
            crate::listener::datagram_step(
                old(self).listeners@[i as int],
                final(self).listeners@[i as int],
                outcome,
            ),
            forall|j: int| 0 <= j < old(self).listeners@.len() && j != i
                ==> final(self).listeners@[j] == old(self).listeners@[j],
    {
        let l = &mut self.listeners[i];
        l.handle_datagram(outcome);
    }

    /// A transport-level receive failure on listener `i`: fatal to that
    /// loop only, which drains and closes; sibling loops and the handle are
    /// untouched.
    pub fn transport_fault(&mut self, i: usize)
        requires
            i < old(self).listeners@.len(),
            old(self).listeners@[i as int].state is Running,
        ensures
            same_handle(*old(self), *final(self)),
            final(self).closed == old(self).closed,
            final(self).listeners@.len() == old(self).listeners@.len(),
            final(self).listeners@[i as int].state is Closed,
            final(self).listeners@[i as int].manager.allocations@
                == Seq::<AllocationInfo>::empty(),
            forall|j: int| 0 <= j < old(self).listeners@.len() && j != i
                ==> final(self).listeners@[j] == old(self).listeners@[j],
    {
        let l = &mut self.listeners[i];
        l.on_recv_error();
        l.drain();
    }
}

/// Closing is idempotent: after one `close`, a second `close` observes no
/// publish side, succeeds at once and changes nothing.
pub proof fn close_is_idempotent(
    s0: Server,
    s1: Server,
    r1: Result<(), Error>,
    s2: Server,
    r2: Result<(), Error>,
)
    requires
        close_transition(s0, s1, r1),
        close_transition(s1, s2, r2),
    ensures
        r2 is Ok,
        s2 == s1,
{
}

/// An eviction issued after `close` fails with the closed error — it never
/// hangs and never changes anything.
pub proof fn delete_after_close_fails(
    s0: Server,
    s1: Server,
    r1: Result<(), Error>,
    s2: Server,
    name: Seq<char>,
    r2: Result<(), Error>,
)
    requires
        close_transition(s0, s1, r1),
        delete_transition(s1, s2, name, r2),
    ensures
        (r2 matches Err(e) && e == Error::Closed),
        s2 == s1,
{
}

/// An enumeration issued after `close` fails with the closed error — it
/// never hangs and never changes anything.
pub proof fn enumerate_after_close_fails(
    s0: Server,
    s1: Server,
    r1: Result<(), Error>,
    s2: Server,
    r2: Result<Vec<AllocationInfo>, Error>,
)
    requires
        close_transition(s0, s1, r1),
        enumerate_transition(s1, s2, r2),
    ensures
        (r2 matches Err(e) && e == Error::Closed),
        s2 == s1,
{
}

/// A metrics call issued after `close` fails with the closed error — it
/// never hangs and never changes anything.
pub proof fn metrics_after_close_fails(
    s0: Server,
    s1: Server,
    r1: Result<(), Error>,
    s2: Server,
    ft: FiveTuple,
    r2: Result<usize, Error>,
)
    requires
        close_transition(s0, s1, r1),
        metrics_transition(s1, s2, ft, r2),
    ensures
        (r2 matches Err(e) && e == Error::Closed),
        s2 == s1,
{
}

/// On a single-listener server, evicting an identity leaves it with no
/// session at all, and an enumeration issued right afterwards returns that
/// evicted set — no stale snapshot can be observed, because the eviction
/// call returned only after the loop finished it.
pub proof fn single_listener_delete_evicts_owner(
    s0: Server,
    s1: Server,
    name: Seq<char>,
    r1: Result<(), Error>,
    s2: Server,
    r2: Result<Vec<AllocationInfo>, Error>,
)
    requires
        !s0.closed,
        s0.listeners@.len() == 1,
        s0.listeners@[0].state is Running,
        delete_transition(s0, s1, name, r1),
        enumerate_transition(s1, s2, r2),
    ensures
        r1 is Ok,
        s1.listeners@[0].manager.allocations@ == remove_owner(
            s0.listeners@[0].manager.allocations@,
            name,
        ),
        forall|i: int| 0 <= i < s1.listeners@[0].manager.allocations@.len() ==> (
        #[trigger] s1.listeners@[0].manager.allocations@[i]).username@ != name,
        (r2 matches Ok(v) && v@ == s1.listeners@[0].manager.allocations@),
{
    assert(!all_closed(s0.listeners@));
    assert(listener_after_delete(s0.listeners@[0], s1.listeners@[0], name));
    let survivors = s1.listeners@[0].manager.allocations@;
    let pred = crate::allocation::not_owned_by(name);
    assert(survivors == s0.listeners@[0].manager.allocations@.filter(pred));
    assert forall|i: int| 0 <= i < survivors.len() implies (#[trigger] survivors[i]).username@
        != name by {
        s0.listeners@[0].manager.allocations@.lemma_filter_pred(pred, i);
    }
    assert(!all_closed(s1.listeners@));
    let k = choose|k: int|
        #[trigger] query_target(s1.listeners@, k) && listeners_after_query(
            s1.listeners@,
            s2.listeners@,
            k,
        ) && (r2 matches Ok(v) && v@ == s1.listeners@[k].manager.allocations@);
    assert(k == 0);
}

/// On a single-listener server, an enumeration returns exactly the
/// listener's session set at the moment the loop processed the command —
/// neither a stale nor a future snapshot — and changes nothing.
pub proof fn single_listener_enumeration_is_exact(
    s0: Server,
    s1: Server,
    r: Result<Vec<AllocationInfo>, Error>,
)
    requires
        !s0.closed,
        s0.listeners@.len() == 1,
        s0.listeners@[0].state is Running,
        enumerate_transition(s0, s1, r),
    ensures
        (r matches Ok(v) && v@ == s0.listeners@[0].manager.allocations@),
        s1.listeners@ == s0.listeners@,
        s1.closed == s0.closed,
{
    assert(!all_closed(s0.listeners@));
    let k = choose|k: int|
        #[trigger] query_target(s0.listeners@, k) && listeners_after_query(
            s0.listeners@,
            s1.listeners@,
            k,
        ) && (r matches Ok(v) && v@ == s0.listeners@[k].manager.allocations@);
    assert(k == 0);
    assert(listener_after_query(s0.listeners@[0], s1.listeners@[0], true));
    assert(s1.listeners@ =~= s0.listeners@);
}

/// A metrics call for a key with no matching session returns the not-found
/// outcome as a value — never an indefinite wait, never a disconnection.
pub proof fn metrics_for_unknown_key_is_not_found(
    s0: Server,
    s1: Server,
    ft: FiveTuple,
    r: Result<usize, Error>,
)
    requires
        !s0.closed,
        s0.listeners@.len() == 1,
        s0.listeners@[0].state is Running,
        !has_session(s0.listeners@[0].manager.allocations@, ft),
        metrics_transition(s0, s1, ft, r),
    ensures
        (r matches Err(e) && e == Error::NoSuchAllocation),
        s1.listeners@ == s0.listeners@,
{
    assert(!all_closed(s0.listeners@));
    let k = choose|k: int|
        #[trigger] query_target(s0.listeners@, k) && listeners_after_query(
            s0.listeners@,
            s1.listeners@,
            k,
        ) && metrics_outcome(s0.listeners@[k].manager.allocations@, ft, r);
    assert(k == 0);
    assert(listener_after_query(s0.listeners@[0], s1.listeners@[0], true));
    assert(s1.listeners@ =~= s0.listeners@);
}

} // verus!
