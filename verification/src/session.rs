//! The server side: the shared hook toggle together with every session it
//! has accepted, and the lifecycle of each session.

use vstd::prelude::*;

use crate::hook::HookState;
use crate::protocol::directive_for_spec;
use crate::protocol::Directive;

verus! {

/// The lifecycle state of one accepted session.
#[derive(Clone, Copy, Debug, PartialEq, Eq, Structural)]
pub enum SessionState {
    Open,
    Closed,
}

/// One inbound frame on a session's connection. Only text frames carry log
/// messages; every other kind is ignored.
pub enum Frame {
    Text(String),
    NonText,
}

/// The server's whole state: the hook toggle and the sessions accepted so
/// far, identified by their index in acceptance order. Sessions hold nothing
/// beyond their transport state and never communicate with each other.
pub struct Bridge {
    pub hook: HookState,
    pub sessions: Vec<SessionState>,
}

impl Bridge {
    /// A freshly started service: capture enabled, no sessions yet.
    pub fn new() -> (b: Bridge)
        ensures
            b.hook == HookState::initial_spec(),
            b.sessions@ =~= Seq::<SessionState>::empty(),
    {
        Bridge { hook: HookState::initial(), sessions: Vec::new() }
    }

    /// One operator toggle. Only the hook state moves: no session opens,
    /// closes, or is sent anything, so already-open sessions never learn of
    /// the change.
    pub fn toggle(&mut self)
        ensures
            final(self).hook == old(self).hook.toggled_spec(),
            final(self).sessions@ == old(self).sessions@,
    {
        self.hook = self.hook.toggled();
    }

    /// Accepts one connection: a new open session, and the one directive it
    /// is immediately sent, reflecting the hook state at this very instant.
    /// No existing session is touched.
    pub fn accept(&mut self) -> (r: (usize, Directive))
        ensures
            final(self).hook == old(self).hook,
            final(self).sessions@ == old(self).sessions@.push(SessionState::Open),
            r.0 == old(self).sessions@.len(),
            r.1 == directive_for_spec(old(self).hook),
    {
        let id: usize = self.sessions.len();
        self.sessions.push(SessionState::Open);
        let d: Directive = crate::protocol::directive_for(self.hook);
        (id, d)
    }

    /// Receives one frame on one session: a text frame on an open session
    /// yields the exact text to forward to the local sink; anything else
    /// yields nothing. The server's state never changes on receipt.
    pub fn receive_frame(&self, id: usize, frame: &Frame) -> (r: Option<String>)
        requires
            id < self.sessions@.len(),
        ensures
            (r is Some) <==> (self.sessions@[id as int] == SessionState::Open && frame
                matches Frame::Text(_)),
            frame matches Frame::Text(t) ==> (self.sessions@[id as int] == SessionState::Open
                ==> (r matches Some(m) && m@ == t@)),
    {
        match frame {
            Frame::Text(t) => {
                if matches!(self.sessions[id], SessionState::Open) {
                    Some(t.clone())
                } else {
                    None
                }
            },
            Frame::NonText => None,
        }
    }

    /// Closes one session (from either side, or on error). Isolation: every
    /// other session and the hook state are left exactly as they were.
    pub fn close(&mut self, id: usize)
        requires
            id < old(self).sessions@.len(),
        ensures
            final(self).hook == old(self).hook,
            final(self).sessions@.len() == old(self).sessions@.len(),
            final(self).sessions@[id as int] == SessionState::Closed,
            forall|j: int|
                0 <= j < old(self).sessions@.len() && j != id ==> final(self).sessions@[j]
                    == old(self).sessions@[j],
    {
        self.sessions.set(id, SessionState::Closed);
    }
}

} // verus!
