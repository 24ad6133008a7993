//! End-to-end run: two agents connect while capture is enabled, log calls
//! flow back to the server's sink, and a later toggle only affects agents
//! that connect afterwards.

use log_bridge::agent::Agent;
use log_bridge::agent::AgentState;
use log_bridge::message::LogArg;
use log_bridge::protocol::directive_text;
use log_bridge::protocol::Directive;
use log_bridge::session::Bridge;
use log_bridge::session::Frame;
use log_bridge::session::SessionState;

const FORWARDING_LOG: u64 = 1000;

#[test]
fn two_agents_capture_and_survive_a_toggle() {
    let mut bridge = Bridge::new();

    // Agent A connects: the service is enabled, so it is told to hook.
    let (session_a, directive_a) = bridge.accept();
    assert_eq!(directive_a, Directive::EnableHook);
    let mut agent_a = Agent::new();
    agent_a.connect();
    let mut slot_a: u64 = 1;
    agent_a.on_message(&directive_text(directive_a), &mut slot_a, FORWARDING_LOG);
    assert_eq!(agent_a.state, AgentState::Hooked);
    assert_eq!(slot_a, FORWARDING_LOG);

    // Agent B connects the same way.
    let (session_b, directive_b) = bridge.accept();
    assert_eq!(directive_b, Directive::EnableHook);
    let mut agent_b = Agent::new();
    agent_b.connect();
    let mut slot_b: u64 = 2;
    agent_b.on_message(&directive_text(directive_b), &mut slot_b, FORWARDING_LOG);
    assert_eq!(agent_b.state, AgentState::Hooked);

    // Agent A's page logs ("hi", 42); the sink receives "hi 42".
    let args = vec![LogArg::Text(String::from("hi")), LogArg::Num(42)];
    let message = agent_a.capture(&args).unwrap();
    assert_eq!(message, "hi 42");
    let forwarded = bridge.receive_frame(session_a, &Frame::Text(message));
    assert_eq!(forwarded, Some(String::from("hi 42")));

    // The operator toggles capture off: neither open agent is affected.
    bridge.toggle();
    assert_eq!(agent_a.state, AgentState::Hooked);
    assert_eq!(agent_b.state, AgentState::Hooked);
    assert_eq!(slot_a, FORWARDING_LOG);
    assert_eq!(slot_b, FORWARDING_LOG);

    // A third agent connecting now receives the opposite directive.
    let (_, directive_c) = bridge.accept();
    assert_eq!(directive_c, Directive::DisableHook);
    let mut agent_c = Agent::new();
    agent_c.connect();
    let mut slot_c: u64 = 3;
    agent_c.on_message(&directive_text(directive_c), &mut slot_c, FORWARDING_LOG);
    assert_eq!(agent_c.state, AgentState::Unhooked);
    assert_eq!(slot_c, 3);

    // Closing A's session leaves B fully connected and capturing.
    bridge.close(session_a);
    assert_eq!(bridge.sessions[session_b], SessionState::Open);
    let still = agent_b.capture(&vec![LogArg::Num(7)]).unwrap();
    assert_eq!(bridge.receive_frame(session_b, &Frame::Text(still)), Some(String::from("7")));
}
