//! The in-client agent: a state machine that installs and removes the hook
//! over the host's logging primitive as directives arrive.
//!
//! The host's mutable logging slot is modeled as a `u64` identity, so that
//! "restore the exact saved primitive" is a statement about identities: the
//! slot must come back to the very value it held before the hook went in.

use vstd::prelude::*;

use crate::message::format_message;
use crate::message::message_text_spec;
use crate::message::LogArg;
use crate::protocol::parse_directive;
use crate::protocol::parse_directive_spec;
use crate::protocol::Directive;

verus! {

#[derive(Clone, Copy, Debug, PartialEq, Eq, Structural)]
pub enum AgentState {
    /// No connection to the server yet.
    Unconnected,
    /// Connected, logging primitive untouched.
    Unhooked,
    /// Connected, forwarding primitive installed in the logging slot.
    Hooked,
    /// Connection closed; no automatic reconnect.
    Terminated,
}

/// The agent: its connection state and, while hooked, the saved identity of
/// the host's original logging primitive.
pub struct Agent {
    pub state: AgentState,
    pub saved: Option<u64>,
}

impl Agent {
    /// A saved original exists exactly while the hook is installed; a closed
    /// connection may leave the hook (and so the saved original) in place.
    pub open spec fn wf(self) -> bool {
        &&& self.state == AgentState::Hooked ==> self.saved is Some
        &&& (self.state == AgentState::Unconnected || self.state == AgentState::Unhooked)
            ==> self.saved is None
    }

    pub fn new() -> (a: Agent)
        ensures
            a.state == AgentState::Unconnected,
            a.saved is None,
            a.wf(),
    {
        Agent { state: AgentState::Unconnected, saved: None }
    }

    pub open spec fn connect_spec(self) -> Agent {
        if self.state == AgentState::Unconnected {
            Agent { state: AgentState::Unhooked, ..self }
        } else {
            self
        }
    }

    /// Establishes the single shared connection. Idempotent: an agent that
    /// already has one (hooked or not) keeps it; a terminated agent does not
    /// reconnect.
    pub fn connect(&mut self)
        requires
            old(self).wf(),
        ensures
            *final(self) == old(self).connect_spec(),
            final(self).wf(),
    {
        if matches!(self.state, AgentState::Unconnected) {
            self.state = AgentState::Unhooked;
        }
    }

    /// The transition a directive causes, on the agent together with the
    /// host's logging slot. Enabling while unhooked saves the slot and
    /// installs the forwarding primitive; enabling while hooked is a no-op;
    /// disabling while hooked restores the exact saved value; every other
    /// combination changes nothing.
    pub open spec fn step_directive_spec(self, slot: u64, d: Directive, forward: u64) -> (
        Agent,
        u64,
    ) {
        match d {
            Directive::EnableHook => {
                if self.state == AgentState::Unhooked {
                    (Agent { state: AgentState::Hooked, saved: Some(slot) }, forward)
                } else {
                    (self, slot)
                }
            },
            Directive::DisableHook => {
                if self.state == AgentState::Hooked {
                    (Agent { state: AgentState::Unhooked, saved: None }, self.saved.unwrap())
                } else {
                    (self, slot)
                }
            },
        }
    }

    /// Applies one directive to the agent and the host's logging slot.
    pub fn apply_directive(&mut self, d: Directive, slot: &mut u64, forward: u64)
        requires
            old(self).wf(),
        ensures
            final(self).wf(),
            (*final(self), *final(slot)) == old(self).step_directive_spec(
                *old(slot),
                d,
                forward,
            ),
    {
        match d {
            Directive::EnableHook => {
                if matches!(self.state, AgentState::Unhooked) {
                    self.saved = Some(*slot);
                    self.state = AgentState::Hooked;
                    *slot = forward;
                }
            },
            Directive::DisableHook => {
                if matches!(self.state, AgentState::Hooked) {
                    let orig: u64 = self.saved.unwrap();
                    *slot = orig;
                    self.saved = None;
                    self.state = AgentState::Unhooked;
                }
            },
        }
    }

    /// Handles one text frame from the server: a recognized directive is
    /// applied; any other frame changes nothing.
    pub fn on_message(&mut self, text: &str, slot: &mut u64, forward: u64)
        requires
            old(self).wf(),
        ensures
            final(self).wf(),
            parse_directive_spec(text@) matches Some(d) ==> (*final(self), *final(slot))
                == old(self).step_directive_spec(*old(slot), d, forward),
            parse_directive_spec(text@) is None ==> *final(self) == *old(self) && *final(slot)
                == *old(slot),
    {
        match parse_directive(text) {
            Some(d) => {
                self.apply_directive(d, slot, forward);
            },
            None => {},
        }
    }

    pub open spec fn close_spec(self) -> Agent {
        if self.state == AgentState::Unhooked || self.state == AgentState::Hooked {
            Agent { state: AgentState::Terminated, ..self }
        } else {
            self
        }
    }

    /// The connection closed. The agent terminates; the host's logging slot
    /// is not touched, so a still-installed hook stays installed.
    pub fn on_close(&mut self)
        requires
            old(self).wf(),
        ensures
            *final(self) == old(self).close_spec(),
            final(self).wf(),
    {
        if matches!(self.state, AgentState::Unhooked | AgentState::Hooked) {
            self.state = AgentState::Terminated;
        }
    }

    /// One invocation of the forwarding primitive: serializes the captured
    /// call. The agent itself is untouched, whatever the arguments are, so a
    /// failed serialization can never unhook or corrupt it.
    pub fn capture(&self, args: &Vec<LogArg>) -> (r: Option<String>)
        ensures
            (r is Some) <==> (forall|i: int|
                0 <= i < args@.len() ==> (#[trigger] args@[i]).serializable()),
            r matches Some(m) ==> m@ == message_text_spec(args@),
    {
        format_message(args)
    }
}

/// Enabling the hook is idempotent: once a first enable directive has been
/// handled, a second one changes neither the agent (in particular its one
/// saved original) nor the host's logging slot.
pub proof fn lemma_enable_idempotent(a: Agent, slot: u64, forward: u64)
    requires
        a.wf(),
    ensures
        ({
            let (a1, s1) = a.step_directive_spec(slot, Directive::EnableHook, forward);
            a1.step_directive_spec(s1, Directive::EnableHook, forward) == (a1, s1)
        }),
        a.state == AgentState::Unhooked ==> ({
            let (a1, s1) = a.step_directive_spec(slot, Directive::EnableHook, forward);
            a1.saved == Some(slot) && s1 == forward
        }),
        a.state == AgentState::Unhooked ==> ({
            let (a1, s1) = a.step_directive_spec(slot, Directive::EnableHook, forward);
            let (a2, s2) = a1.step_directive_spec(s1, Directive::EnableHook, forward);
            let (a3, s3) = a2.step_directive_spec(s2, Directive::DisableHook, forward);
            a3 == a && s3 == slot
        }),
{
}

/// Restoration fidelity: handling enable-hook then disable-hook leaves the
/// host's logging slot holding exactly the value it held before the hook
/// went in, and an unhooked agent comes back identical to where it started.
pub proof fn lemma_enable_disable_restores(a: Agent, slot: u64, forward: u64)
    requires
        a.wf(),
    ensures
        ({
            let (a1, s1) = a.step_directive_spec(slot, Directive::EnableHook, forward);
            let (a2, s2) = a1.step_directive_spec(s1, Directive::DisableHook, forward);
            &&& a.state == AgentState::Unhooked ==> a2 == a && s2 == slot
            &&& a.state == AgentState::Hooked ==> a2.state == AgentState::Unhooked && s2
                == a.saved.unwrap()
            &&& (a.state == AgentState::Unconnected || a.state == AgentState::Terminated)
                ==> a2 == a && s2 == slot
        }),
{
}

} // verus!
