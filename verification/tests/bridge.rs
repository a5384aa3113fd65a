use clareza::config::{ConfigError, ModelConfig};
use clareza::interactive::{InteractiveError, InteractiveSession, InteractiveState};
use clareza::router::{route_line, Channel};
use clareza::session::{
    build_full_prompt, preview_of, FailReason, PromptDelivery, SessionEvent, SessionOutcome,
    SessionRunner, SessionState,
};

fn fresh_session() -> SessionRunner {
    SessionRunner::new(
        "hi",
        None,
        Some("gemini-2.5-flash"),
        PromptDelivery::ViaStdin,
        120,
        false,
    )
}

fn run_to_streaming(s: &mut SessionRunner) {
    let banner = s.step(SessionEvent::LaunchRequested);
    assert_eq!(banner.events.len(), 2);
    assert_eq!(banner.events[0].message, "\u{276f} hi");
    assert_eq!(banner.events[1].message, "\u{23f3} Processando...");
    assert!(matches!(banner.events[0].stream, Channel::System));
    let spawned = s.step(SessionEvent::ExecutableResolved("/usr/bin/gemini".to_string()));
    let plan = spawned.spawn.expect("a spawn plan");
    assert_eq!(plan.program, "/usr/bin/gemini");
    assert_eq!(
        plan.args,
        vec!["-m", "gemini-2.5-flash", "--output-format", "stream-json"]
    );
    assert!(!plan.use_shell_wrapper);
    assert_eq!(plan.stdin_payload.as_deref(), Some("hi"));
    let running = s.step(SessionEvent::SpawnSucceeded);
    assert!(running.events.is_empty() && running.outcome.is_none());
    assert_eq!(s.state, SessionState::Streaming);
}

#[test]
fn two_assistant_lines_complete_with_hello() {
    let mut s = fresh_session();
    run_to_streaming(&mut s);
    let first = s.step(SessionEvent::LineRead(
        Channel::Stdout,
        r#"{"type":"message","role":"assistant","content":"Hel"}"#.to_string(),
    ));
    assert_eq!(first.events.len(), 1);
    assert_eq!(first.events[0].message, "Hel");
    assert!(matches!(first.events[0].stream, Channel::Stdout));
    let second = s.step(SessionEvent::LineRead(
        Channel::Stdout,
        r#"{"type":"message","role":"assistant","content":"lo"}"#.to_string(),
    ));
    assert_eq!(second.events[0].message, "lo");
    s.step(SessionEvent::ChannelClosed(Channel::Stdout));
    s.step(SessionEvent::ChannelClosed(Channel::Stderr));
    let done = s.step(SessionEvent::ProcessExited(true, "exit status: 0".to_string()));
    match done.outcome {
        Some(SessionOutcome::Completed(text)) => assert_eq!(text, "Hello"),
        other => panic!("expected Completed, got {:?}", other),
    }
    assert_eq!(done.events.len(), 2);
    assert_eq!(done.events[1].message, "\u{2705} Conclu\u{ed}do");
    assert_eq!(s.state, SessionState::Completed);
}

#[test]
fn nonzero_exit_without_assistant_lines_fails() {
    let mut s = fresh_session();
    run_to_streaming(&mut s);
    s.step(SessionEvent::LineRead(Channel::Stdout, "warming up".to_string()));
    s.step(SessionEvent::ChannelClosed(Channel::Stdout));
    s.step(SessionEvent::ChannelClosed(Channel::Stderr));
    let done = s.step(SessionEvent::ProcessExited(false, "exit status: 1".to_string()));
    assert!(matches!(
        done.outcome,
        Some(SessionOutcome::Failed(FailReason::NonZeroExit))
    ));
    assert_eq!(
        done.events[0].message,
        "\u{274c} Erro: Gemini CLI exited with status: exit status: 1"
    );
    assert!(matches!(done.events[0].stream, Channel::Stderr));
    assert_eq!(s.state, SessionState::Failed);
}

#[test]
fn timeout_kills_and_reports_once() {
    let mut s = fresh_session();
    run_to_streaming(&mut s);
    let out = s.step(SessionEvent::TimeoutFired);
    assert!(out.kill);
    assert!(matches!(
        out.outcome,
        Some(SessionOutcome::Failed(FailReason::Timeout))
    ));
    assert_eq!(
        out.events[0].message,
        "\u{274c} Erro: Command timed out after 120 seconds"
    );
    assert_eq!(s.state, SessionState::TimedOut);
    // A finished session ignores everything: no second outcome, ever.
    let late = s.step(SessionEvent::ProcessExited(true, "exit status: 0".to_string()));
    assert!(late.outcome.is_none() && late.events.is_empty() && !late.kill);
    let late2 = s.step(SessionEvent::LineRead(
        Channel::Stdout,
        r#"{"type":"message","role":"assistant","content":"x"}"#.to_string(),
    ));
    assert!(late2.outcome.is_none() && late2.events.is_empty());
    assert_eq!(s.state, SessionState::TimedOut);
}

#[test]
fn lines_arriving_while_draining_still_accumulate() {
    let mut s = fresh_session();
    run_to_streaming(&mut s);
    // The process exits first; its pipes still hold a buffered line.
    let early = s.step(SessionEvent::ProcessExited(true, "exit status: 0".to_string()));
    assert!(early.outcome.is_none());
    assert_eq!(s.state, SessionState::Draining);
    let late_line = s.step(SessionEvent::LineRead(
        Channel::Stdout,
        r#"{"type":"message","role":"assistant","content":"tail"}"#.to_string(),
    ));
    assert_eq!(late_line.events[0].message, "tail");
    s.step(SessionEvent::ChannelClosed(Channel::Stdout));
    let done = s.step(SessionEvent::ChannelClosed(Channel::Stderr));
    match done.outcome {
        Some(SessionOutcome::Completed(text)) => assert_eq!(text, "tail"),
        other => panic!("expected Completed, got {:?}", other),
    }
}

#[test]
fn resolve_failure_reports_not_found_before_any_spawn() {
    let mut s = fresh_session();
    s.step(SessionEvent::LaunchRequested);
    let out = s.step(SessionEvent::ResolveFailed);
    assert!(out.spawn.is_none());
    assert!(matches!(
        out.outcome,
        Some(SessionOutcome::Failed(FailReason::NotFound))
    ));
    assert_eq!(out.events[0].message, "\u{274c} Erro: Gemini CLI not found in PATH");
    assert_eq!(s.state, SessionState::Failed);
    // Nothing can be spawned afterwards.
    let late = s.step(SessionEvent::ExecutableResolved("/usr/bin/gemini".to_string()));
    assert!(late.spawn.is_none());
}

#[test]
fn spawn_failure_reports_spawn_error() {
    let mut s = fresh_session();
    s.step(SessionEvent::LaunchRequested);
    s.step(SessionEvent::ExecutableResolved("/usr/bin/gemini".to_string()));
    let out = s.step(SessionEvent::SpawnFailed("permission denied".to_string()));
    assert!(matches!(
        out.outcome,
        Some(SessionOutcome::Failed(FailReason::SpawnError))
    ));
    assert_eq!(
        out.events[0].message,
        "\u{274c} Erro: Failed to spawn gemini process: permission denied"
    );
}

#[test]
fn prompt_delivered_as_argument_when_configured() {
    let mut s = SessionRunner::new(
        "ask",
        None,
        None,
        PromptDelivery::ViaArg,
        120,
        false,
    );
    s.step(SessionEvent::LaunchRequested);
    let out = s.step(SessionEvent::ExecutableResolved("gemini".to_string()));
    let plan = out.spawn.expect("a spawn plan");
    assert_eq!(plan.args, vec!["--output-format", "stream-json", "-p", "ask"]);
    assert!(plan.stdin_payload.is_none());
}

#[test]
fn batch_file_spawns_through_shell_wrapper() {
    let mut s = SessionRunner::new(
        "ask",
        None,
        None,
        PromptDelivery::ViaStdin,
        120,
        true,
    );
    s.step(SessionEvent::LaunchRequested);
    let out = s.step(SessionEvent::ExecutableResolved(
        "C:\\tools\\gemini.CMD".to_string(),
    ));
    assert!(out.spawn.expect("a spawn plan").use_shell_wrapper);
}

#[test]
fn malformed_line_passes_through_verbatim() {
    let out = route_line(Channel::Stdout, "not json at all");
    assert!(out.accum.is_none());
    assert_eq!(out.events.len(), 1);
    assert_eq!(out.events[0].message, "not json at all");
    assert!(matches!(out.events[0].stream, Channel::Stdout));
}

#[test]
fn unrecognized_envelope_is_silently_ignored() {
    let out = route_line(Channel::Stdout, r#"{"type":"status","state":"busy"}"#);
    assert!(out.accum.is_none());
    assert!(out.events.is_empty());
}

#[test]
fn error_envelope_surfaces_on_stderr() {
    let out = route_line(Channel::Stdout, r#"{"error":"quota exceeded"}"#);
    assert!(out.accum.is_none());
    assert_eq!(out.events.len(), 1);
    assert_eq!(out.events[0].message, "Error: quota exceeded");
    assert!(matches!(out.events[0].stream, Channel::Stderr));
}

#[test]
fn assistant_envelope_accumulates_and_emits() {
    let out = route_line(
        Channel::Stdout,
        r#"{"type":"message","role":"assistant","content":"ok"}"#,
    );
    assert_eq!(out.accum.as_deref(), Some("ok"));
    assert_eq!(out.events[0].message, "ok");
}

#[test]
fn stderr_lines_pass_through_even_when_structured() {
    let out = route_line(Channel::Stderr, r#"{"error":"boom"}"#);
    assert!(out.accum.is_none());
    assert_eq!(out.events[0].message, r#"{"error":"boom"}"#);
    assert!(matches!(out.events[0].stream, Channel::Stderr));
}

#[test]
fn prompt_placeholder_is_substituted() {
    let merged = build_full_prompt("fix @file_reference please", Some("body"));
    assert_eq!(
        merged,
        "fix \n\nConte\u{fa}do do arquivo:\n```\nbody\n```\n please"
    );
}

#[test]
fn prompt_without_placeholder_appends_content() {
    let merged = build_full_prompt("review this", Some("body"));
    assert_eq!(
        merged,
        "review this\n\nConte\u{fa}do do arquivo atual:\n```\nbody\n```"
    );
}

#[test]
fn prompt_without_content_is_unchanged() {
    assert_eq!(build_full_prompt("just ask", None), "just ask");
}

#[test]
fn long_prompts_are_previewed_with_ellipsis() {
    let long = "x".repeat(150);
    let p = preview_of(&long);
    assert_eq!(p.len(), 103);
    assert!(p.ends_with("..."));
    assert_eq!(preview_of("short"), "short");
    let exactly_100 = "y".repeat(100);
    assert_eq!(preview_of(&exactly_100), exactly_100);
}

#[test]
fn stopping_a_stopped_session_is_a_no_op() {
    let mut it = InteractiveSession::new();
    assert_eq!(it.state, InteractiveState::Stopped);
    assert!(!it.stop());
    assert_eq!(it.state, InteractiveState::Stopped);
    it.start("gemini", None, false).expect("first start");
    assert!(it.stop());
    assert!(!it.stop());
}

#[test]
fn starting_twice_is_rejected_without_a_second_spawn() {
    let mut it = InteractiveSession::new();
    let plan = it.start("gemini", Some("gemini-2.5-pro"), false).expect("first start");
    assert_eq!(plan.program, "gemini");
    assert_eq!(
        plan.args,
        vec!["-m", "gemini-2.5-pro", "--output-format", "stream-json"]
    );
    assert_eq!(plan.keep_alive, "\n");
    assert_eq!(it.state, InteractiveState::Running);
    match it.start("gemini", None, false) {
        Err(InteractiveError::AlreadyRunning) => {}
        other => panic!("expected AlreadyRunning, got {:?}", other),
    }
    assert_eq!(it.state, InteractiveState::Running);
}

#[test]
fn interactive_send_appends_newline_only_while_running() {
    let mut it = InteractiveSession::new();
    assert!(matches!(it.send("hello"), Err(InteractiveError::NotRunning)));
    it.start("gemini", None, false).expect("start");
    assert_eq!(it.send("hello").expect("payload"), "hello\n");
    it.process_exited();
    assert_eq!(it.state, InteractiveState::Stopped);
    assert!(matches!(it.send("again"), Err(InteractiveError::NotRunning)));
}

#[test]
fn invalid_model_is_rejected_and_selection_kept() {
    let mut cfg = ModelConfig::new();
    assert_eq!(cfg.get(), "gemini-2.5-flash");
    match cfg.set("not-a-real-model") {
        Err(ConfigError::InvalidModel) => {}
        other => panic!("expected InvalidModel, got {:?}", other),
    }
    assert_eq!(cfg.get(), "gemini-2.5-flash");
    cfg.set("gemini-2.5-pro").expect("allowed model");
    assert_eq!(cfg.get(), "gemini-2.5-pro");
    assert_eq!(
        clareza::config::invalid_model_message("nope"),
        "Invalid model 'nope'. Valid models: gemini-2.5-flash, gemini-2.5-flash-lite, gemini-2.5-pro"
    );
}
