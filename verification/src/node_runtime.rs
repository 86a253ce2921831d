//! The runtime coordinator: one shared storage session, three service
//! endpoints around it, and the startup decisions that bring them up.
//! The unverified shell performs the binds, spawns and waits; every
//! decision — what to start next, when serving begins, and that any
//! bind or open failure, guard poisoning or endpoint exit is fatal —
//! is taken here, one event at a time.

use vstd::prelude::*;

use crate::auth_storage::{mutation_entries, AuthStorage};
use crate::db3_address::DB3Address;
use crate::db3_error::DB3Error;
use crate::db3_signature::Signature;
use crate::key_derive::address_of_public;
use crate::mutation::{mutation_bytes, Mutation};
use crate::signature_scheme::scheme_accepts;

verus! {

#[derive(Clone, Copy, Debug, PartialEq, Eq, Structural)]
pub enum RuntimePhase {
    /// Storage and endpoints are still coming up; nothing serves yet.
    Initializing,
    /// All three endpoints are up around the shared store.
    Serving,
    /// A fatal condition was seen; the node must not serve again.
    Terminated,
}

#[derive(Clone, Copy, Debug, PartialEq, Eq, Structural)]
pub enum NodeEvent {
    StorageOpened,
    StorageOpenFailed,
    AbciStarted,
    AbciBindFailed,
    JsonRpcStarted,
    JsonRpcBindFailed,
    GrpcStarted,
    GrpcBindFailed,
    /// The primary endpoint returned; its termination ends the node.
    GrpcStopped,
    /// A panic was seen while the shared storage guard was held.
    GuardPoisoned,
}

#[derive(Clone, Copy, Debug, PartialEq, Eq, Structural)]
pub enum NodeAction {
    /// Bring up the consensus bridge listener on its own thread.
    StartAbci,
    /// Bring up the JSON endpoint on its own reactor.
    StartJsonRpc,
    /// Bring up the remote-procedure endpoint on the primary context.
    StartGrpc,
    /// Startup is complete; block on the primary endpoint.
    Serve,
    /// Fatal: stop the process without serving further.
    Abort,
}

/// An event after which the node must never serve.
pub open spec fn is_fatal_event(ev: NodeEvent) -> bool {
    ||| ev is StorageOpenFailed
    ||| ev is AbciBindFailed
    ||| ev is JsonRpcBindFailed
    ||| ev is GrpcBindFailed
    ||| ev is GrpcStopped
    ||| ev is GuardPoisoned
}

pub struct NodeRuntime {
    pub phase: RuntimePhase,
    pub storage_ready: bool,
    pub abci_up: bool,
    pub json_rpc_up: bool,
    pub grpc_up: bool,
}

/// A runtime never claims to serve with a service missing.
pub open spec fn runtime_inv(s: NodeRuntime) -> bool {
    s.phase is Serving ==> s.storage_ready && s.abci_up && s.json_rpc_up && s.grpc_up
}

/// The one transition relation: what the coordinator does with an
/// event. Any fatal event terminates; from Terminated every answer is
/// Abort; startup progresses storage, bridge, JSON endpoint,
/// remote-procedure endpoint, in that order, and Serving begins only
/// when all four are up.
pub open spec fn step_spec(s: NodeRuntime, ev: NodeEvent) -> (NodeRuntime, NodeAction) {
    if is_fatal_event(ev) {
        (NodeRuntime { phase: RuntimePhase::Terminated, ..s }, NodeAction::Abort)
    } else if s.phase is Terminated {
        (s, NodeAction::Abort)
    } else {
        match ev {
            NodeEvent::StorageOpened => (
                NodeRuntime { storage_ready: true, ..s },
                NodeAction::StartAbci,
            ),
            NodeEvent::AbciStarted => (NodeRuntime { abci_up: true, ..s }, NodeAction::StartJsonRpc),
            NodeEvent::JsonRpcStarted => (
                NodeRuntime { json_rpc_up: true, ..s },
                NodeAction::StartGrpc,
            ),
            NodeEvent::GrpcStarted => {
                let up = NodeRuntime { grpc_up: true, ..s };
                if up.storage_ready && up.abci_up && up.json_rpc_up {
                    (NodeRuntime { phase: RuntimePhase::Serving, ..up }, NodeAction::Serve)
                } else {
                    (NodeRuntime { phase: RuntimePhase::Terminated, ..up }, NodeAction::Abort)
                }
            },
            _ => (s, NodeAction::Abort),
        }
    }
}

/// The runtime after a whole sequence of events.
pub open spec fn run_spec(s: NodeRuntime, evs: Seq<NodeEvent>) -> NodeRuntime
    decreases evs.len(),
{
    if evs.len() == 0 {
        s
    } else {
        run_spec(step_spec(s, evs.first()).0, evs.drop_first())
    }
}

impl NodeRuntime {
    /// A node that has not opened storage or bound anything yet.
    pub fn new() -> (s: NodeRuntime)
        ensures
            s == (NodeRuntime {
                phase: RuntimePhase::Initializing,
                storage_ready: false,
                abci_up: false,
                json_rpc_up: false,
                grpc_up: false,
            }),
            runtime_inv(s),
    {
        NodeRuntime {
            phase: RuntimePhase::Initializing,
            storage_ready: false,
            abci_up: false,
            json_rpc_up: false,
            grpc_up: false,
        }
    }

    /// Feed one event to the coordinator and get the action to perform.
    pub fn step(&mut self, ev: NodeEvent) -> (action: NodeAction)
        ensures
            (*final(self), action) == step_spec(*old(self), ev),
            runtime_inv(*old(self)) ==> runtime_inv(*final(self)),
            is_fatal_event(ev) ==> final(self).phase is Terminated && action is Abort,
    {
        match ev {
            NodeEvent::StorageOpenFailed
            | NodeEvent::AbciBindFailed
            | NodeEvent::JsonRpcBindFailed
            | NodeEvent::GrpcBindFailed
            | NodeEvent::GrpcStopped
            | NodeEvent::GuardPoisoned => {
                self.phase = RuntimePhase::Terminated;
                NodeAction::Abort
            },
            _ => {
                if matches!(self.phase, RuntimePhase::Terminated) {
                    return NodeAction::Abort;
                }
                match ev {
                    NodeEvent::StorageOpened => {
                        self.storage_ready = true;
                        NodeAction::StartAbci
                    },
                    NodeEvent::AbciStarted => {
                        self.abci_up = true;
                        NodeAction::StartJsonRpc
                    },
                    NodeEvent::JsonRpcStarted => {
                        self.json_rpc_up = true;
                        NodeAction::StartGrpc
                    },
                    NodeEvent::GrpcStarted => {
                        self.grpc_up = true;
                        if self.storage_ready && self.abci_up && self.json_rpc_up {
                            self.phase = RuntimePhase::Serving;
                            NodeAction::Serve
                        } else {
                            self.phase = RuntimePhase::Terminated;
                            NodeAction::Abort
                        }
                    },
                    _ => NodeAction::Abort,
                }
            },
        }
    }
}

/// The error a terminating node reports for a fatal event: a failed
/// storage open or bind is a bind error, a poisoned storage guard is a
/// guard-poisoning error, and the primary endpoint returning ends the
/// node without an error of its own.
pub fn fatal_error(ev: NodeEvent) -> (r: Option<DB3Error>)
    ensures
        r is Some <==> is_fatal_event(ev) && !(ev is GrpcStopped),
        ev is StorageOpenFailed || ev is AbciBindFailed || ev is JsonRpcBindFailed
            || ev is GrpcBindFailed ==> r == Some(DB3Error::BindError),
        ev is GuardPoisoned ==> r == Some(DB3Error::GuardPoisonError),
{
    match ev {
        NodeEvent::StorageOpenFailed
        | NodeEvent::AbciBindFailed
        | NodeEvent::JsonRpcBindFailed
        | NodeEvent::GrpcBindFailed => Some(DB3Error::BindError),
        NodeEvent::GuardPoisoned => Some(DB3Error::GuardPoisonError),
        _ => None,
    }
}

/// Termination is absorbing: once the runtime is Terminated, no
/// sequence of later events brings it anywhere else.
pub proof fn lemma_terminated_is_final(s: NodeRuntime, evs: Seq<NodeEvent>)
    requires
        s.phase is Terminated,
    ensures
        run_spec(s, evs).phase is Terminated,
    decreases evs.len(),
{
    if evs.len() > 0 {
        lemma_terminated_is_final(step_spec(s, evs.first()).0, evs.drop_first());
    }
}

/// A bind or open failure, guard poisoning or endpoint exit is fatal:
/// after any fatal event, the node never reaches Serving, whatever
/// comes later.
pub proof fn lemma_failure_never_serves(s: NodeRuntime, ev: NodeEvent, rest: Seq<NodeEvent>)
    requires
        is_fatal_event(ev),
    ensures
        run_spec(step_spec(s, ev).0, rest).phase is Terminated,
{
    lemma_terminated_is_final(step_spec(s, ev).0, rest);
}

/// The serving invariant survives every event: however a run unfolds,
/// the node never serves with a service missing.
pub proof fn lemma_inv_preserved(s: NodeRuntime, evs: Seq<NodeEvent>)
    requires
        runtime_inv(s),
    ensures
        runtime_inv(run_spec(s, evs)),
    decreases evs.len(),
{
    if evs.len() > 0 {
        lemma_inv_preserved(step_spec(s, evs.first()).0, evs.drop_first());
    }
}

/// One deliver step of the consensus bridge, the only writer: decode
/// and verify the signature over the mutation's serialized bytes,
/// recover the acting address, and stage the mutation's writes. A
/// mutation whose signature does not validate is rejected and the
/// store does not move; either way the committed state a reader sees
/// is untouched until commit.
pub fn deliver_mutation(store: &mut AuthStorage, sig: &Signature, m: &Mutation) -> (r: Result<
    DB3Address,
    DB3Error,
>)
    ensures
        r is Ok <==> scheme_accepts(sig.scheme, sig.public_key@, mutation_bytes(*m), sig.signature@),
        r matches Ok(addr) ==> addr@ == address_of_public(sig.scheme, sig.public_key@),
        r matches Ok(addr) ==> addr.wf(),
        r is Ok ==> final(store).committed_log() == old(store).committed_log(),
        r matches Ok(addr) ==> final(store).pending_log() == old(store).pending_log()
            + mutation_entries(addr@, m.ns@, m.kv_pairs@),
        r is Err ==> *final(store) == *old(store),
        r matches Err(e) ==> e == DB3Error::VerifyMessageError,
{
    let payload = m.serialize();
    let addr = match sig.verify(payload.as_slice()) {
        Ok(addr) => addr,
        Err(e) => {
            return Err(e);
        },
    };
    store.apply_mutation(&addr, m);
    Ok(addr)
}

} // verus!
