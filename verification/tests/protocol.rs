use log_bridge::hook::is_toggle_command;
use log_bridge::hook::status_text;
use log_bridge::hook::HookState;
use log_bridge::protocol::directive_for;
use log_bridge::protocol::directive_text;
use log_bridge::protocol::parse_directive;
use log_bridge::protocol::Directive;

#[test]
fn initial_state_is_enabled() {
    assert_eq!(HookState::initial(), HookState::Enabled);
}

#[test]
fn toggle_flips_and_returns() {
    let h = HookState::initial();
    let once = h.toggled();
    assert_eq!(once, HookState::Disabled);
    assert_eq!(once.toggled(), HookState::Enabled);
}

#[test]
fn flag_round_trip() {
    assert!(HookState::Enabled.as_flag());
    assert!(!HookState::Disabled.as_flag());
    assert_eq!(HookState::from_flag(true), HookState::Enabled);
    assert_eq!(HookState::from_flag(false), HookState::Disabled);
}

#[test]
fn directive_follows_state() {
    assert_eq!(directive_for(HookState::Enabled), Directive::EnableHook);
    assert_eq!(directive_for(HookState::Disabled), Directive::DisableHook);
}

#[test]
fn directive_texts_are_exact() {
    assert_eq!(directive_text(Directive::EnableHook), "enable hook");
    assert_eq!(directive_text(Directive::DisableHook), "disable hook");
}

#[test]
fn parse_recognizes_both_directives() {
    assert_eq!(parse_directive("enable hook"), Some(Directive::EnableHook));
    assert_eq!(parse_directive("disable hook"), Some(Directive::DisableHook));
}

#[test]
fn parse_rejects_everything_else() {
    assert_eq!(parse_directive(""), None);
    assert_eq!(parse_directive("enable"), None);
    assert_eq!(parse_directive("ENABLE HOOK"), None);
    assert_eq!(parse_directive("enable hook "), None);
    assert_eq!(parse_directive("hello"), None);
}

#[test]
fn parse_inverts_text() {
    let both = [Directive::EnableHook, Directive::DisableHook];
    for d in both {
        assert_eq!(parse_directive(&directive_text(d)), Some(d));
    }
}

#[test]
fn toggle_command_is_single_letter() {
    assert!(is_toggle_command("h"));
    assert!(!is_toggle_command(""));
    assert!(!is_toggle_command("hh"));
    assert!(!is_toggle_command("x"));
    assert!(!is_toggle_command("h "));
}

#[test]
fn status_lines_name_the_state() {
    assert_eq!(status_text(HookState::Enabled), "Hook enabled");
    assert_eq!(status_text(HookState::Disabled), "Hook disabled");
}
