//! The directive wire protocol: the two server-to-agent control messages and
//! their exact text forms.

use vstd::prelude::*;

use crate::hook::HookState;

verus! {

/// A server-to-agent control message, sent exactly once per session at the
/// moment the connection is accepted.
#[derive(Clone, Copy, Debug, PartialEq, Eq, Structural)]
pub enum Directive {
    EnableHook,
    DisableHook,
}

pub open spec fn directive_for_spec(h: HookState) -> Directive {
    match h {
        HookState::Enabled => Directive::EnableHook,
        HookState::Disabled => Directive::DisableHook,
    }
}

/// The directive a newly accepted session must be sent, given the hook state
/// observed at that instant.
pub fn directive_for(h: HookState) -> (r: Directive)
    ensures
        r == directive_for_spec(h),
{
    match h {
        HookState::Enabled => Directive::EnableHook,
        HookState::Disabled => Directive::DisableHook,
    }
}

pub open spec fn directive_text_spec(d: Directive) -> Seq<char> {
    match d {
        Directive::EnableHook => "enable hook"@,
        Directive::DisableHook => "disable hook"@,
    }
}

/// The exact text frame carrying a directive.
pub fn directive_text(d: Directive) -> (r: String)
    ensures
        r@ == directive_text_spec(d),
{
    match d {
        Directive::EnableHook => String::from_str("enable hook"),
        Directive::DisableHook => String::from_str("disable hook"),
    }
}

pub open spec fn parse_directive_spec(s: Seq<char>) -> Option<Directive> {
    if s == "enable hook"@ {
        Some(Directive::EnableHook)
    } else if s == "disable hook"@ {
        Some(Directive::DisableHook)
    } else {
        None
    }
}

/// Recognize a directive text frame. Any other frame is no directive and is
/// ignored by the agent.
pub fn parse_directive(s: &str) -> (r: Option<Directive>)
    ensures
        r == parse_directive_spec(s@),
{
    let owned: String = s.to_owned();
    let enable: String = String::from_str("enable hook");
    if owned == enable {
        Some(Directive::EnableHook)
    } else {
        let disable: String = String::from_str("disable hook");
        if owned == disable {
            Some(Directive::DisableHook)
        } else {
            None
        }
    }
}

/// The two directive texts are distinct, so the text form identifies the
/// directive.
pub proof fn lemma_directive_text_injective(d1: Directive, d2: Directive)
    ensures
        directive_text_spec(d1) == directive_text_spec(d2) ==> d1 == d2,
{
    reveal_strlit("enable hook");
    reveal_strlit("disable hook");
    assert(directive_text_spec(Directive::EnableHook).len() == 11);
    assert(directive_text_spec(Directive::DisableHook).len() == 12);
}

/// Printing a directive and parsing it back yields the same directive.
pub proof fn lemma_directive_round_trip(d: Directive)
    ensures
        parse_directive_spec(directive_text_spec(d)) == Some(d),
{
    reveal_strlit("enable hook");
    reveal_strlit("disable hook");
    assert("enable hook"@.len() == 11);
    assert("disable hook"@.len() == 12);
}

/// Toggling the hook state always flips the directive that the next accepted
/// session will be sent.
pub proof fn lemma_toggle_flips_directive(h: HookState)
    ensures
        directive_for_spec(h.toggled_spec()) != directive_for_spec(h),
{
}

/// State visibility: a session accepted under a disabled hook state is first
/// sent exactly the text "disable hook", one accepted under an enabled state
/// exactly "enable hook", and a toggle swaps which text the next accepted
/// session receives.
pub proof fn lemma_state_visibility(h: HookState)
    ensures
        directive_text_spec(directive_for_spec(h)) == (if h == HookState::Disabled {
            "disable hook"@
        } else {
            "enable hook"@
        }),
        directive_text_spec(directive_for_spec(h.toggled_spec())) == (if h == HookState::Disabled {
            "enable hook"@
        } else {
            "disable hook"@
        }),
{
}

} // verus!
