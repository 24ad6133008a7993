//! The process-wide capture toggle and the operator console commands that
//! drive it.

use vstd::prelude::*;

verus! {

/// Process-wide capture intent. It is read once by every newly accepted
/// session; toggling it affects only sessions accepted afterwards.
#[derive(Clone, Copy, Debug, PartialEq, Eq, Structural)]
pub enum HookState {
    Enabled,
    Disabled,
}

impl HookState {
    /// The state the service starts in.
    pub open spec fn initial_spec() -> HookState {
        HookState::Enabled
    }

    pub fn initial() -> (r: HookState)
        ensures
            r == HookState::initial_spec(),
    {
        HookState::Enabled
    }

    pub open spec fn toggled_spec(self) -> HookState {
        match self {
            HookState::Enabled => HookState::Disabled,
            HookState::Disabled => HookState::Enabled,
        }
    }

    /// The state after one operator toggle.
    pub fn toggled(self) -> (r: HookState)
        ensures
            r == self.toggled_spec(),
    {
        match self {
            HookState::Enabled => HookState::Disabled,
            HookState::Disabled => HookState::Enabled,
        }
    }

    pub open spec fn as_flag_spec(self) -> bool {
        self == HookState::Enabled
    }

    /// The boolean form in which the state is held in a shared atomic cell.
    pub fn as_flag(self) -> (r: bool)
        ensures
            r == self.as_flag_spec(),
    {
        match self {
            HookState::Enabled => true,
            HookState::Disabled => false,
        }
    }

    /// The state a given atomic flag value stands for.
    pub fn from_flag(b: bool) -> (r: HookState)
        ensures
            r.as_flag_spec() == b,
            r == (if b {
                HookState::Enabled
            } else {
                HookState::Disabled
            }),
    {
        if b {
            HookState::Enabled
        } else {
            HookState::Disabled
        }
    }
}

/// Toggling twice returns the hook state to where it started.
pub proof fn lemma_toggle_involutive(h: HookState)
    ensures
        h.toggled_spec().toggled_spec() == h,
{
}

/// Whether an operator console line (already trimmed) is the toggle command.
/// Every other line is ignored by the console.
pub fn is_toggle_command(line: &str) -> (r: bool)
    ensures
        r == (line@ == "h"@),
{
    let owned: String = line.to_owned();
    let cmd: String = String::from_str("h");
    owned == cmd
}

pub open spec fn status_text_spec(h: HookState) -> Seq<char> {
    match h {
        HookState::Enabled => "Hook enabled"@,
        HookState::Disabled => "Hook disabled"@,
    }
}

/// The line printed to the operator after a toggle, naming the state now in
/// force.
pub fn status_text(h: HookState) -> (r: String)
    ensures
        r@ == status_text_spec(h),
{
    match h {
        HookState::Enabled => String::from_str("Hook enabled"),
        HookState::Disabled => String::from_str("Hook disabled"),
    }
}

} // verus!
