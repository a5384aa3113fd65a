//! One request/response cycle with the external tool, as a state machine:
//! resolve the executable, spawn it, stream both output channels through
//! the router, race the exit against a timeout, and end in exactly one
//! outcome.  The host performs the I/O each step asks for (spawn, kill)
//! and feeds the observations back as events; every decision in between
//! is verified.
use crate::resolve;
use crate::router;
use crate::router::Channel;
use crate::router::StreamEvent;
use crate::router::StreamEventView;
use crate::text;
use vstd::prelude::*;
use vstd::string::StrSliceExecFns;
use vstd::string::StringExecFns;

verus! {

/// How the prompt reaches the subprocess: written to its standard input
/// and closed, or passed as one argument.
#[derive(Clone, Copy, Debug, PartialEq, Eq, Structural)]
pub enum PromptDelivery {
    ViaStdin,
    ViaArg,
}

/// Why a session failed.
#[derive(Clone, Copy, Debug, PartialEq, Eq, Structural)]
pub enum FailReason {
    NotFound,
    SpawnError,
    NonZeroExit,
    Timeout,
}

/// The terminal result of one session: the accumulated answer, or a
/// failure.
#[derive(Debug, Clone)]
pub enum SessionOutcome {
    Completed(String),
    Failed(FailReason),
}

/// Spec-level shape of a session outcome.
#[verifier::ext_equal]
pub ghost enum SessionOutcomeView {
    Completed(Seq<char>),
    Failed(FailReason),
}

impl View for SessionOutcome {
    type V = SessionOutcomeView;

    open spec fn view(&self) -> SessionOutcomeView {
        match self {
            SessionOutcome::Completed(s) => SessionOutcomeView::Completed(s@),
            SessionOutcome::Failed(r) => SessionOutcomeView::Failed(*r),
        }
    }
}

impl DeepView for SessionOutcome {
    type V = SessionOutcomeView;

    open spec fn deep_view(&self) -> SessionOutcomeView {
        self.view()
    }
}

/// Where a session stands.
#[derive(Clone, Copy, Debug, PartialEq, Eq, Structural)]
pub enum SessionState {
    Idle,
    Resolving,
    Spawning,
    Streaming,
    Draining,
    Completed,
    Failed,
    TimedOut,
}

/// A session is over: it has emitted its one outcome.
pub open spec fn spec_is_terminal(st: SessionState) -> bool {
    st == SessionState::Completed || st == SessionState::Failed || st == SessionState::TimedOut
}

/// What the host observed and hands to the machine.
#[derive(Debug, Clone)]
pub enum SessionEvent {
    /// The caller asked for the session to run.
    LaunchRequested,
    /// The executable was found at this path.
    ExecutableResolved(String),
    /// No executable was found on the search path.
    ResolveFailed,
    /// The subprocess is running.
    SpawnSucceeded,
    /// The subprocess could not be created; the rendered OS error.
    SpawnFailed(String),
    /// One line arrived on an output channel.
    LineRead(Channel, String),
    /// An output channel reached end of stream.
    ChannelClosed(Channel),
    /// The subprocess exited: did it succeed, and its rendered status.
    ProcessExited(bool, String),
    /// The time budget ran out before the subprocess exited.
    TimeoutFired,
}

/// Spec-level shape of a session event.
#[verifier::ext_equal]
pub ghost enum SessionEventView {
    LaunchRequested,
    ExecutableResolved(Seq<char>),
    ResolveFailed,
    SpawnSucceeded,
    SpawnFailed(Seq<char>),
    LineRead(Channel, Seq<char>),
    ChannelClosed(Channel),
    ProcessExited(bool, Seq<char>),
    TimeoutFired,
}

impl View for SessionEvent {
    type V = SessionEventView;

    open spec fn view(&self) -> SessionEventView {
        match self {
            SessionEvent::LaunchRequested => SessionEventView::LaunchRequested,
            SessionEvent::ExecutableResolved(p) => SessionEventView::ExecutableResolved(p@),
            SessionEvent::ResolveFailed => SessionEventView::ResolveFailed,
            SessionEvent::SpawnSucceeded => SessionEventView::SpawnSucceeded,
            SessionEvent::SpawnFailed(e) => SessionEventView::SpawnFailed(e@),
            SessionEvent::LineRead(c, l) => SessionEventView::LineRead(*c, l@),
            SessionEvent::ChannelClosed(c) => SessionEventView::ChannelClosed(*c),
            SessionEvent::ProcessExited(ok, st) => SessionEventView::ProcessExited(*ok, st@),
            SessionEvent::TimeoutFired => SessionEventView::TimeoutFired,
        }
    }
}

/// What the host must spawn: the program, its argument vector (never a
/// concatenated shell string), whether a shell wrapper is needed for a
/// batch file, and what to write to the child's standard input.
#[derive(Debug, Clone)]
pub struct SpawnPlan {
    pub program: String,
    pub args: Vec<String>,
    pub use_shell_wrapper: bool,
    pub stdin_payload: Option<String>,
}

/// Spec-level shape of a spawn request.
#[verifier::ext_equal]
pub ghost struct SpawnPlanView {
    pub program: Seq<char>,
    pub args: Seq<Seq<char>>,
    pub use_shell_wrapper: bool,
    pub stdin_payload: Option<Seq<char>>,
}

impl View for SpawnPlan {
    type V = SpawnPlanView;

    open spec fn view(&self) -> SpawnPlanView {
        SpawnPlanView {
            program: self.program@,
            args: self.args.deep_view(),
            use_shell_wrapper: self.use_shell_wrapper,
            stdin_payload: self.stdin_payload.deep_view(),
        }
    }
}

impl DeepView for SpawnPlan {
    type V = SpawnPlanView;

    open spec fn deep_view(&self) -> SpawnPlanView {
        self.view()
    }
}

/// Everything one step of the machine asks of the host: UI events to
/// emit in order, at most one spawn, a kill, and at most one outcome.
#[derive(Debug, Clone)]
pub struct StepOutput {
    pub events: Vec<StreamEvent>,
    pub spawn: Option<SpawnPlan>,
    pub kill: bool,
    pub outcome: Option<SessionOutcome>,
}

/// Spec-level shape of one step's output.
#[verifier::ext_equal]
pub ghost struct StepOutputView {
    pub events: Seq<StreamEventView>,
    pub spawn: Option<SpawnPlanView>,
    pub kill: bool,
    pub outcome: Option<SessionOutcomeView>,
}

impl View for StepOutput {
    type V = StepOutputView;

    open spec fn view(&self) -> StepOutputView {
        StepOutputView {
            events: router::event_views(self.events@),
            spawn: self.spawn.deep_view(),
            kill: self.kill,
            outcome: self.outcome.deep_view(),
        }
    }
}

/// The full prompt of a request: the user's text, with injected file
/// content substituted for the placeholder token if the text has one,
/// else appended under a label; without injected content, the text alone.
pub open spec fn spec_full_prompt(user: Seq<char>, injected: Option<Seq<char>>) -> Seq<char> {
    match injected {
        Option::None => user,
        Option::Some(content) => {
            if text::contains_sub(user, "@file_reference"@) {
                text::spec_replace(
                    user,
                    "@file_reference"@,
                    "\n\nConte\u{fa}do do arquivo:\n```\n"@ + content + "\n```\n"@,
                )
            } else {
                user + "\n\nConte\u{fa}do do arquivo atual:\n```\n"@ + content + "\n```"@
            }
        },
    }
}

/// Merge the user's text with optional injected file content.
pub fn build_full_prompt(user: &str, injected: Option<&str>) -> (r: String)
    ensures
        r@ == spec_full_prompt(user@, injected.deep_view()),
{
    match injected {
        Option::None => String::from_str(user),
        Option::Some(content) => {
            proof {
                reveal_strlit("@file_reference");
            }
            if text::contains_str(user, "@file_reference") {
                let mut rep = String::from_str("\n\nConte\u{fa}do do arquivo:\n```\n");
                rep.append(content);
                rep.append("\n```\n");
                text::replace_all(user, "@file_reference", rep.as_str())
            } else {
                let mut out = String::from_str(user);
                out.append("\n\nConte\u{fa}do do arquivo atual:\n```\n");
                out.append(content);
                out.append("\n```");
                out
            }
        },
    }
}

/// The prompt as shown in the session banner: at most 100 characters,
/// with an ellipsis when cut.
pub open spec fn spec_preview(user: Seq<char>) -> Seq<char> {
    if user.len() > 100 {
        user.take(100) + "..."@
    } else {
        user
    }
}

/// Cut the prompt down for the session banner.
pub fn preview_of(user: &str) -> (r: String)
    ensures
        r@ == spec_preview(user@),
{
    let len = user.unicode_len();
    if len > 100 {
        let mut out = String::from_str(user.substring_char(0, 100));
        out.append("...");
        assert(out@ =~= user@.take(100) + "..."@);
        out
    } else {
        String::from_str(user)
    }
}

/// The argument vector of one invocation: the model flag when a model is
/// chosen, the fixed output format, and the prompt as an argument when it
/// is not delivered over standard input.
pub open spec fn spec_args(
    model: Option<Seq<char>>,
    delivery: PromptDelivery,
    prompt: Seq<char>,
) -> Seq<Seq<char>> {
    (match model {
        Option::Some(m) => seq!["-m"@, m],
        Option::None => Seq::<Seq<char>>::empty(),
    }) + seq!["--output-format"@, "stream-json"@] + (match delivery {
        PromptDelivery::ViaArg => seq!["-p"@, prompt],
        PromptDelivery::ViaStdin => Seq::<Seq<char>>::empty(),
    })
}

/// What spawning at `path` asks of the host, for the given configuration.
pub open spec fn spec_spawn_plan(
    path: Seq<char>,
    model: Option<Seq<char>>,
    delivery: PromptDelivery,
    prompt: Seq<char>,
    windows: bool,
) -> SpawnPlanView {
    SpawnPlanView {
        program: path,
        args: spec_args(model, delivery, prompt),
        use_shell_wrapper: windows && resolve::spec_is_batch_file(path),
        stdin_payload: match delivery {
            PromptDelivery::ViaStdin => Some(prompt),
            PromptDelivery::ViaArg => None,
        },
    }
}

/// The state of one session between two events.
pub struct SessionRunner {
    pub state: SessionState,
    pub user_prompt: String,
    pub prompt: String,
    pub model: Option<String>,
    pub delivery: PromptDelivery,
    pub timeout_secs: u64,
    pub windows: bool,
    pub accumulated: String,
    pub stdout_open: bool,
    pub stderr_open: bool,
    pub exited: Option<bool>,
    pub exit_status_text: String,
    pub outcome: Option<SessionOutcome>,
}

/// Spec-level shape of a session.
#[verifier::ext_equal]
pub ghost struct SessionView {
    pub state: SessionState,
    pub user_prompt: Seq<char>,
    pub prompt: Seq<char>,
    pub model: Option<Seq<char>>,
    pub delivery: PromptDelivery,
    pub timeout_secs: u64,
    pub windows: bool,
    pub accumulated: Seq<char>,
    pub stdout_open: bool,
    pub stderr_open: bool,
    pub exited: Option<bool>,
    pub exit_status_text: Seq<char>,
    pub outcome: Option<SessionOutcomeView>,
}

impl View for SessionRunner {
    type V = SessionView;

    open spec fn view(&self) -> SessionView {
        SessionView {
            state: self.state,
            user_prompt: self.user_prompt@,
            prompt: self.prompt@,
            model: self.model.deep_view(),
            delivery: self.delivery,
            timeout_secs: self.timeout_secs,
            windows: self.windows,
            accumulated: self.accumulated@,
            stdout_open: self.stdout_open,
            stderr_open: self.stderr_open,
            exited: self.exited,
            exit_status_text: self.exit_status_text@,
            outcome: self.outcome.deep_view(),
        }
    }
}

/// A fresh session over the given configuration: idle, with the full
/// prompt already built, nothing accumulated and no outcome.
pub open spec fn spec_init(
    user: Seq<char>,
    injected: Option<Seq<char>>,
    model: Option<Seq<char>>,
    delivery: PromptDelivery,
    timeout_secs: u64,
    windows: bool,
) -> SessionView {
    SessionView {
        state: SessionState::Idle,
        user_prompt: user,
        prompt: spec_full_prompt(user, injected),
        model: model,
        delivery: delivery,
        timeout_secs: timeout_secs,
        windows: windows,
        accumulated: Seq::<char>::empty(),
        stdout_open: false,
        stderr_open: false,
        exited: None,
        exit_status_text: Seq::<char>::empty(),
        outcome: None,
    }
}

/// A step that asks nothing of the host.
pub open spec fn spec_no_output() -> StepOutputView {
    StepOutputView { events: Seq::<StreamEventView>::empty(), spawn: None, kill: false, outcome: None }
}

/// A message on the system channel.
pub open spec fn spec_sys_event(m: Seq<char>) -> StreamEventView {
    StreamEventView { message: m, stream: Channel::System }
}

/// A failure message on the error channel, under the error marker the UI
/// shows.
pub open spec fn spec_error_event(t: Seq<char>) -> StreamEventView {
    StreamEventView { message: "\u{274c} Erro: "@ + t, stream: Channel::Stderr }
}

/// The user-visible text of each failure.
pub open spec fn spec_fail_text(s: SessionView, reason: FailReason, detail: Seq<char>) -> Seq<
    char,
> {
    match reason {
        FailReason::NotFound => "Gemini CLI not found in PATH"@,
        FailReason::SpawnError => "Failed to spawn gemini process: "@ + detail,
        FailReason::NonZeroExit => "Gemini CLI exited with status: "@ + detail,
        FailReason::Timeout => "Command timed out after "@ + text::spec_digits(
            s.timeout_secs as int,
        ) + " seconds"@,
    }
}

/// A transition into `Failed`: the one outcome, and one error event.
pub open spec fn spec_fail(s: SessionView, reason: FailReason, detail: Seq<char>) -> (
    SessionView,
    StepOutputView,
) {
    (
        SessionView { state: SessionState::Failed, outcome: Some(SessionOutcomeView::Failed(reason)), ..s },
        StepOutputView {
            events: seq![spec_error_event(spec_fail_text(s, reason, detail))],
            spawn: None,
            kill: false,
            outcome: Some(SessionOutcomeView::Failed(reason)),
        },
    )
}

/// After a channel closed or the exit was observed: finalize once both
/// channels are closed and the exit is known, else keep draining.
pub open spec fn spec_advance(s: SessionView) -> (SessionView, StepOutputView) {
    if !s.stdout_open && !s.stderr_open && s.exited is Some {
        if s.exited == Some(true) {
            (
                SessionView {
                    state: SessionState::Completed,
                    outcome: Some(SessionOutcomeView::Completed(s.accumulated)),
                    ..s
                },
                StepOutputView {
                    events: seq![
                        spec_sys_event(
                            "\u{2500}\u{2500}\u{2500}\u{2500}\u{2500}\u{2500}\u{2500}\u{2500}\u{2500}\u{2500}\u{2500}\u{2500}\u{2500}\u{2500}\u{2500}\u{2500}\u{2500}\u{2500}\u{2500}\u{2500}\u{2500}\u{2500}\u{2500}\u{2500}\u{2500}\u{2500}\u{2500}\u{2500}\u{2500}\u{2500}\u{2500}\u{2500}\u{2500}"@,
                        ),
                        spec_sys_event("\u{2705} Conclu\u{ed}do"@),
                    ],
                    spawn: None,
                    kill: false,
                    outcome: Some(SessionOutcomeView::Completed(s.accumulated)),
                },
            )
        } else {
            spec_fail(s, FailReason::NonZeroExit, s.exit_status_text)
        }
    } else {
        (
            SessionView {
                state: if s.exited is Some || (!s.stdout_open && !s.stderr_open) {
                    SessionState::Draining
                } else {
                    SessionState::Streaming
                },
                ..s
            },
            spec_no_output(),
        )
    }
}

/// One step of the session machine: what the state becomes and what the
/// host must do.  A terminal session ignores every further event, so one
/// session can never emit a second outcome.
pub open spec fn spec_step(s: SessionView, ev: SessionEventView) -> (SessionView, StepOutputView) {
    if spec_is_terminal(s.state) {
        (s, spec_no_output())
    } else {
        match ev {
            SessionEventView::LaunchRequested => {
                if s.state == SessionState::Idle {
                    (
                        SessionView { state: SessionState::Resolving, ..s },
                        StepOutputView {
                            events: seq![
                                spec_sys_event("\u{276f} "@ + spec_preview(s.user_prompt)),
                                spec_sys_event("\u{23f3} Processando..."@),
                            ],
                            spawn: None,
                            kill: false,
                            outcome: None,
                        },
                    )
                } else {
                    (s, spec_no_output())
                }
            },
            SessionEventView::ExecutableResolved(path) => {
                if s.state == SessionState::Resolving {
                    (
                        SessionView { state: SessionState::Spawning, ..s },
                        StepOutputView {
                            events: Seq::<StreamEventView>::empty(),
                            spawn: Some(
                                spec_spawn_plan(path, s.model, s.delivery, s.prompt, s.windows),
                            ),
                            kill: false,
                            outcome: None,
                        },
                    )
                } else {
                    (s, spec_no_output())
                }
            },
            SessionEventView::ResolveFailed => {
                if s.state == SessionState::Resolving {
                    spec_fail(s, FailReason::NotFound, Seq::<char>::empty())
                } else {
                    (s, spec_no_output())
                }
            },
            SessionEventView::SpawnSucceeded => {
                if s.state == SessionState::Spawning {
                    (
                        SessionView {
                            state: SessionState::Streaming,
                            stdout_open: true,
                            stderr_open: true,
                            ..s
                        },
                        spec_no_output(),
                    )
                } else {
                    (s, spec_no_output())
                }
            },
            SessionEventView::SpawnFailed(e) => {
                if s.state == SessionState::Spawning {
                    spec_fail(s, FailReason::SpawnError, e)
                } else {
                    (s, spec_no_output())
                }
            },
            SessionEventView::LineRead(chan, line) => {
                if s.state == SessionState::Streaming || s.state == SessionState::Draining {
                    let route = router::spec_route(chan, router::envelope_of(line), line);
                    (
                        SessionView {
                            accumulated: s.accumulated + router::some_or_empty(route.accum),
                            ..s
                        },
                        StepOutputView {
                            events: route.events,
                            spawn: None,
                            kill: false,
                            outcome: None,
                        },
                    )
                } else {
                    (s, spec_no_output())
                }
            },
            SessionEventView::ChannelClosed(chan) => {
                if s.state == SessionState::Streaming || s.state == SessionState::Draining {
                    match chan {
                        Channel::Stdout => spec_advance(SessionView { stdout_open: false, ..s }),
                        Channel::Stderr => spec_advance(SessionView { stderr_open: false, ..s }),
                        Channel::System => (s, spec_no_output()),
                    }
                } else {
                    (s, spec_no_output())
                }
            },
            SessionEventView::ProcessExited(success, status_text) => {
                if (s.state == SessionState::Streaming || s.state == SessionState::Draining)
                    && s.exited is None {
                    spec_advance(
                        SessionView { exited: Some(success), exit_status_text: status_text, ..s },
                    )
                } else {
                    (s, spec_no_output())
                }
            },
            SessionEventView::TimeoutFired => {
                if (s.state == SessionState::Streaming || s.state == SessionState::Draining)
                    && s.exited is None {
                    (
                        SessionView {
                            state: SessionState::TimedOut,
                            outcome: Some(SessionOutcomeView::Failed(FailReason::Timeout)),
                            ..s
                        },
                        StepOutputView {
                            events: seq![
                                spec_error_event(
                                    spec_fail_text(s, FailReason::Timeout, Seq::<char>::empty()),
                                ),
                            ],
                            spawn: None,
                            kill: true,
                            outcome: Some(SessionOutcomeView::Failed(FailReason::Timeout)),
                        },
                    )
                } else {
                    (s, spec_no_output())
                }
            },
        }
    }
}

/// What routing one line adds to the accumulator: the content of an
/// assistant message, nothing for any other line.
pub open spec fn spec_line_delta(chan: Channel, line: Seq<char>) -> Seq<char> {
    router::some_or_empty(router::spec_route(chan, router::envelope_of(line), line).accum)
}

/// What a sequence of lines adds to the accumulator, in arrival order.
pub open spec fn spec_lines_delta(lines: Seq<(Channel, Seq<char>)>) -> Seq<char>
    decreases lines.len(),
{
    if lines.len() == 0 {
        Seq::<char>::empty()
    } else {
        spec_line_delta(lines[0].0, lines[0].1) + spec_lines_delta(lines.skip(1))
    }
}

/// The machine after a sequence of line events.
pub open spec fn spec_run_lines(s: SessionView, lines: Seq<(Channel, Seq<char>)>) -> SessionView
    decreases lines.len(),
{
    if lines.len() == 0 {
        s
    } else {
        spec_run_lines(
            spec_step(s, SessionEventView::LineRead(lines[0].0, lines[0].1)).0,
            lines.skip(1),
        )
    }
}

/// Only assistant-authored structured message content counts toward the
/// accumulated answer: an assistant message on standard output contributes
/// exactly its content field, and any other line, on any channel,
/// contributes nothing.
pub proof fn lemma_line_delta_is_assistant_content(line: Seq<char>)
    ensures
        router::spec_is_assistant(router::envelope_of(line)) ==> spec_line_delta(
            Channel::Stdout,
            line,
        ) == router::some_or_empty(router::envelope_of(line).content),
        !router::spec_is_assistant(router::envelope_of(line)) ==> spec_line_delta(
            Channel::Stdout,
            line,
        ) == Seq::<char>::empty(),
        spec_line_delta(Channel::Stderr, line) == Seq::<char>::empty(),
        spec_line_delta(Channel::System, line) == Seq::<char>::empty(),
{
}

/// Feeding any lines to a streaming session extends the accumulated text
/// by exactly the concatenation, in arrival order, of the assistant
/// message contents among them (`spec_line_delta` is the content field
/// for an assistant message and empty for every other line), and moves
/// the session to no other state.
pub proof fn lemma_accumulated_is_content_concat(
    s: SessionView,
    lines: Seq<(Channel, Seq<char>)>,
)
    requires
        s.state == SessionState::Streaming || s.state == SessionState::Draining,
    ensures
        spec_run_lines(s, lines).accumulated == s.accumulated + spec_lines_delta(lines),
        spec_run_lines(s, lines).state == s.state,
    decreases lines.len(),
{
    if lines.len() == 0 {
        assert(s.accumulated + spec_lines_delta(lines) =~= s.accumulated);
    } else {
        let s1 = spec_step(s, SessionEventView::LineRead(lines[0].0, lines[0].1)).0;
        assert(s1.accumulated == s.accumulated + spec_line_delta(lines[0].0, lines[0].1));
        assert(s1.state == s.state);
        lemma_accumulated_is_content_concat(s1, lines.skip(1));
        assert(s.accumulated + spec_line_delta(lines[0].0, lines[0].1) + spec_lines_delta(
            lines.skip(1),
        ) =~= s.accumulated + spec_lines_delta(lines));
    }
}

/// For a subprocess that never exits, the timeout event moves a running
/// session to `TimedOut`, asks the host to kill the process, and reports
/// the one `Failed(Timeout)` outcome.
pub proof fn lemma_timeout_reaches_timed_out(s: SessionView)
    requires
        s.state == SessionState::Streaming || s.state == SessionState::Draining,
        s.exited is None,
    ensures
        spec_step(s, SessionEventView::TimeoutFired).0.state == SessionState::TimedOut,
        spec_step(s, SessionEventView::TimeoutFired).1.kill,
        spec_step(s, SessionEventView::TimeoutFired).1.outcome == Some(
            SessionOutcomeView::Failed(FailReason::Timeout),
        ),
        spec_is_terminal(spec_step(s, SessionEventView::TimeoutFired).0.state),
{
}

/// A finished session ignores every further event: nothing is emitted,
/// spawned or killed, and no second outcome can ever appear.
pub proof fn lemma_terminal_is_absorbing(s: SessionView, ev: SessionEventView)
    requires
        spec_is_terminal(s.state),
    ensures
        spec_step(s, ev).0 == s,
        spec_step(s, ev).1 == spec_no_output(),
{
}

/// A step reports an outcome exactly when it moves the session from a
/// running state into a terminal one; together with the terminal states
/// being absorbing, each session reports exactly one outcome.
pub proof fn lemma_one_outcome_per_session(s: SessionView, ev: SessionEventView)
    ensures
        (spec_step(s, ev).1.outcome is Some) <==> (!spec_is_terminal(s.state) && spec_is_terminal(
            spec_step(s, ev).0.state,
        )),
{
}

/// The machine after a whole sequence of events.
pub open spec fn spec_run(s: SessionView, evs: Seq<SessionEventView>) -> SessionView
    decreases evs.len(),
{
    if evs.len() == 0 {
        s
    } else {
        spec_run(spec_step(s, evs[0]).0, evs.skip(1))
    }
}

/// How many outcomes a whole sequence of events makes the machine report.
pub open spec fn spec_outcome_count(s: SessionView, evs: Seq<SessionEventView>) -> int
    decreases evs.len(),
{
    if evs.len() == 0 {
        0
    } else {
        (if spec_step(s, evs[0]).1.outcome is Some {
            1 as int
        } else {
            0 as int
        }) + spec_outcome_count(spec_step(s, evs[0]).0, evs.skip(1))
    }
}

/// A finished session stays finished and silent through any further
/// events: no event moves it and no outcome is ever reported again.
pub proof fn lemma_terminal_run_is_silent(s: SessionView, evs: Seq<SessionEventView>)
    requires
        spec_is_terminal(s.state),
    ensures
        spec_run(s, evs) == s,
        spec_outcome_count(s, evs) == 0,
    decreases evs.len(),
{
    if evs.len() == 0 {
    } else {
        lemma_terminal_is_absorbing(s, evs[0]);
        lemma_terminal_run_is_silent(s, evs.skip(1));
    }
}

/// Exactly one outcome per session, ever: over any whole run from a
/// running state, the machine reports one outcome if it ends in a
/// terminal state and none if it is still running.
pub proof fn lemma_exactly_one_outcome(s: SessionView, evs: Seq<SessionEventView>)
    requires
        !spec_is_terminal(s.state),
    ensures
        spec_outcome_count(s, evs) == if spec_is_terminal(spec_run(s, evs).state) {
            1 as int
        } else {
            0 as int
        },
    decreases evs.len(),
{
    if evs.len() == 0 {
    } else {
        let s1 = spec_step(s, evs[0]).0;
        lemma_one_outcome_per_session(s, evs[0]);
        if spec_is_terminal(s1.state) {
            lemma_terminal_run_is_silent(s1, evs.skip(1));
        } else {
            lemma_exactly_one_outcome(s1, evs.skip(1));
        }
    }
}

/// The outcome of a process exit, success or not, is reported only once
/// both output channels have closed: the machine joins both readers, so
/// every line that arrived before the exit has been routed by the time
/// the outcome appears.
pub proof fn lemma_exit_outcome_waits_for_both_channels(s: SessionView, ev: SessionEventView)
    ensures
        (match spec_step(s, ev).1.outcome {
            Some(o) => o is Completed || o == SessionOutcomeView::Failed(FailReason::NonZeroExit),
            None => false,
        }) ==> !spec_step(s, ev).0.stdout_open && !spec_step(s, ev).0.stderr_open && spec_step(
            s,
            ev,
        ).0.exited is Some,
{
}

/// A failed resolution fails the session with `NotFound`, and a spawn is
/// requested only by the step that receives a resolved executable: after
/// a resolution failure no process is ever spawned.
pub proof fn lemma_resolve_failure_spawns_nothing(s: SessionView, ev: SessionEventView)
    ensures
        s.state == SessionState::Resolving && ev == SessionEventView::ResolveFailed ==> {
            &&& spec_step(s, ev).0.state == SessionState::Failed
            &&& spec_step(s, ev).1.outcome == Some(SessionOutcomeView::Failed(FailReason::NotFound))
            &&& spec_step(s, ev).1.spawn is None
        },
        spec_step(s, ev).1.spawn is Some ==> s.state == SessionState::Resolving
            && ev is ExecutableResolved,
{
}

/// Is this a terminal state?
pub fn is_terminal_state(st: SessionState) -> (r: bool)
    ensures
        r == spec_is_terminal(st),
{
    st == SessionState::Completed || st == SessionState::Failed || st == SessionState::TimedOut
}

impl SessionRunner {
    /// A fresh idle session: the full prompt is built here, and the model
    /// is the caller's snapshot of the configuration.
    pub fn new(
        user_prompt: &str,
        injected: Option<&str>,
        model: Option<&str>,
        delivery: PromptDelivery,
        timeout_secs: u64,
        windows: bool,
    ) -> (r: SessionRunner)
        ensures
            r@ == spec_init(
                user_prompt@,
                injected.deep_view(),
                model.deep_view(),
                delivery,
                timeout_secs,
                windows,
            ),
    {
        let r = SessionRunner {
            state: SessionState::Idle,
            user_prompt: String::from_str(user_prompt),
            prompt: build_full_prompt(user_prompt, injected),
            model: match model {
                Option::Some(m) => Some(String::from_str(m)),
                Option::None => None,
            },
            delivery,
            timeout_secs,
            windows,
            accumulated: String::new(),
            stdout_open: false,
            stderr_open: false,
            exited: None,
            exit_status_text: String::new(),
            outcome: None,
        };
        assert(r@ =~~= spec_init(
            user_prompt@,
            injected.deep_view(),
            model.deep_view(),
            delivery,
            timeout_secs,
            windows,
        ));
        r
    }

    fn advance(&mut self) -> (r: StepOutput)
        ensures
            final(self)@ == spec_advance(old(self)@).0,
            r@ == spec_advance(old(self)@).1,
    {
        if !self.stdout_open && !self.stderr_open && self.exited.is_some() {
            let success = match self.exited {
                Option::Some(ok) => ok,
                Option::None => false,
            };
            if success {
                self.state = SessionState::Completed;
                self.outcome = Some(SessionOutcome::Completed(self.accumulated.clone()));
                let mut events: Vec<StreamEvent> = Vec::new();
                events.push(
                    StreamEvent {
                        message: String::from_str(
                            "\u{2500}\u{2500}\u{2500}\u{2500}\u{2500}\u{2500}\u{2500}\u{2500}\u{2500}\u{2500}\u{2500}\u{2500}\u{2500}\u{2500}\u{2500}\u{2500}\u{2500}\u{2500}\u{2500}\u{2500}\u{2500}\u{2500}\u{2500}\u{2500}\u{2500}\u{2500}\u{2500}\u{2500}\u{2500}\u{2500}\u{2500}\u{2500}\u{2500}",
                        ),
                        stream: Channel::System,
                    },
                );
                events.push(
                    StreamEvent {
                        message: String::from_str("\u{2705} Conclu\u{ed}do"),
                        stream: Channel::System,
                    },
                );
                let r = StepOutput {
                    events,
                    spawn: None,
                    kill: false,
                    outcome: Some(SessionOutcome::Completed(self.accumulated.clone())),
                };
                assert(self@ =~~= spec_advance(old(self)@).0);
                assert(r@ =~~= spec_advance(old(self)@).1);
                r
            } else {
                self.state = SessionState::Failed;
                self.outcome = Some(SessionOutcome::Failed(FailReason::NonZeroExit));
                let mut message = String::from_str("\u{274c} Erro: ");
                message.append("Gemini CLI exited with status: ");
                message.append(self.exit_status_text.as_str());
                let mut events: Vec<StreamEvent> = Vec::new();
                events.push(StreamEvent { message, stream: Channel::Stderr });
                let r = StepOutput {
                    events,
                    spawn: None,
                    kill: false,
                    outcome: Some(SessionOutcome::Failed(FailReason::NonZeroExit)),
                };
                assert(self@ =~~= spec_advance(old(self)@).0);
                assert(r@ =~~= spec_advance(old(self)@).1);
                r
            }
        } else {
            if self.exited.is_some() || (!self.stdout_open && !self.stderr_open) {
                self.state = SessionState::Draining;
            } else {
                self.state = SessionState::Streaming;
            }
            let r = StepOutput { events: Vec::new(), spawn: None, kill: false, outcome: None };
            assert(self@ =~~= spec_advance(old(self)@).0);
            assert(r@ =~~= spec_advance(old(self)@).1);
            r
        }
    }

    /// Feed one observation to the machine and carry out nothing: the
    /// returned output says what the host must now do.
    pub fn step(&mut self, ev: SessionEvent) -> (r: StepOutput)
        ensures
            final(self)@ == spec_step(old(self)@, ev@).0,
            r@ == spec_step(old(self)@, ev@).1,
    {
        if is_terminal_state(self.state) {
            let r = StepOutput { events: Vec::new(), spawn: None, kill: false, outcome: None };
            assert(r@ =~~= spec_no_output());
            return r;
        }
        match ev {
            SessionEvent::LaunchRequested => {
                if self.state == SessionState::Idle {
                    self.state = SessionState::Resolving;
                    let mut banner = String::from_str("\u{276f} ");
                    let preview = preview_of(self.user_prompt.as_str());
                    banner.append(preview.as_str());
                    let mut events: Vec<StreamEvent> = Vec::new();
                    events.push(StreamEvent { message: banner, stream: Channel::System });
                    events.push(
                        StreamEvent {
                            message: String::from_str("\u{23f3} Processando..."),
                            stream: Channel::System,
                        },
                    );
                    let r = StepOutput { events, spawn: None, kill: false, outcome: None };
                    assert(self@ =~~= spec_step(old(self)@, ev@).0);
                    assert(r@ =~~= spec_step(old(self)@, ev@).1);
                    r
                } else {
                    let r = StepOutput {
                        events: Vec::new(),
                        spawn: None,
                        kill: false,
                        outcome: None,
                    };
                    assert(r@ =~~= spec_no_output());
                    r
                }
            },
            SessionEvent::ExecutableResolved(path) => {
                if self.state == SessionState::Resolving {
                    self.state = SessionState::Spawning;
                    let mut args: Vec<String> = Vec::new();
                    match &self.model {
                        Option::Some(m) => {
                            args.push(String::from_str("-m"));
                            args.push(m.clone());
                        },
                        Option::None => {},
                    }
                    args.push(String::from_str("--output-format"));
                    args.push(String::from_str("stream-json"));
                    let stdin_payload: Option<String> = match self.delivery {
                        PromptDelivery::ViaArg => {
                            args.push(String::from_str("-p"));
                            args.push(self.prompt.clone());
                            None
                        },
                        PromptDelivery::ViaStdin => Some(self.prompt.clone()),
                    };
                    assert(args.deep_view() =~~= spec_args(
                        old(self)@.model,
                        old(self)@.delivery,
                        old(self)@.prompt,
                    ));
                    let use_shell = self.windows && resolve::is_batch_file(path.as_str());
                    let plan = SpawnPlan {
                        program: path,
                        args,
                        use_shell_wrapper: use_shell,
                        stdin_payload,
                    };
                    let r = StepOutput {
                        events: Vec::new(),
                        spawn: Some(plan),
                        kill: false,
                        outcome: None,
                    };
                    assert(self@ =~~= spec_step(old(self)@, ev@).0);
                    assert(r@ =~~= spec_step(old(self)@, ev@).1);
                    r
                } else {
                    let r = StepOutput {
                        events: Vec::new(),
                        spawn: None,
                        kill: false,
                        outcome: None,
                    };
                    assert(r@ =~~= spec_no_output());
                    r
                }
            },
            SessionEvent::ResolveFailed => {
                if self.state == SessionState::Resolving {
                    self.state = SessionState::Failed;
                    self.outcome = Some(SessionOutcome::Failed(FailReason::NotFound));
                    let mut message = String::from_str("\u{274c} Erro: ");
                    message.append("Gemini CLI not found in PATH");
                    let mut events: Vec<StreamEvent> = Vec::new();
                    events.push(StreamEvent { message, stream: Channel::Stderr });
                    let r = StepOutput {
                        events,
                        spawn: None,
                        kill: false,
                        outcome: Some(SessionOutcome::Failed(FailReason::NotFound)),
                    };
                    assert(self@ =~~= spec_step(old(self)@, ev@).0);
                    assert(r@ =~~= spec_step(old(self)@, ev@).1);
                    r
                } else {
                    let r = StepOutput {
                        events: Vec::new(),
                        spawn: None,
                        kill: false,
                        outcome: None,
                    };
                    assert(r@ =~~= spec_no_output());
                    r
                }
            },
            SessionEvent::SpawnSucceeded => {
                if self.state == SessionState::Spawning {
                    self.state = SessionState::Streaming;
                    self.stdout_open = true;
                    self.stderr_open = true;
                }
                let r = StepOutput { events: Vec::new(), spawn: None, kill: false, outcome: None };
                assert(r@ =~~= spec_no_output());
                assert(self@ =~~= spec_step(old(self)@, ev@).0);
                r
            },
            SessionEvent::SpawnFailed(e) => {
                if self.state == SessionState::Spawning {
                    self.state = SessionState::Failed;
                    self.outcome = Some(SessionOutcome::Failed(FailReason::SpawnError));
                    let mut message = String::from_str("\u{274c} Erro: ");
                    message.append("Failed to spawn gemini process: ");
                    message.append(e.as_str());
                    let mut events: Vec<StreamEvent> = Vec::new();
                    events.push(StreamEvent { message, stream: Channel::Stderr });
                    let r = StepOutput {
                        events,
                        spawn: None,
                        kill: false,
                        outcome: Some(SessionOutcome::Failed(FailReason::SpawnError)),
                    };
                    assert(self@ =~~= spec_step(old(self)@, ev@).0);
                    assert(r@ =~~= spec_step(old(self)@, ev@).1);
                    r
                } else {
                    let r = StepOutput {
                        events: Vec::new(),
                        spawn: None,
                        kill: false,
                        outcome: None,
                    };
                    assert(r@ =~~= spec_no_output());
                    r
                }
            },
            SessionEvent::LineRead(chan, line) => {
                if self.state == SessionState::Streaming || self.state == SessionState::Draining {
                    let route = router::route_line(chan, line.as_str());
                    match &route.accum {
                        Option::Some(c) => {
                            self.accumulated.append(c.as_str());
                        },
                        Option::None => {},
                    }
                    let r = StepOutput {
                        events: route.events,
                        spawn: None,
                        kill: false,
                        outcome: None,
                    };
                    assert(self@ =~~= spec_step(old(self)@, ev@).0);
                    assert(r@ =~~= spec_step(old(self)@, ev@).1);
                    r
                } else {
                    let r = StepOutput {
                        events: Vec::new(),
                        spawn: None,
                        kill: false,
                        outcome: None,
                    };
                    assert(r@ =~~= spec_no_output());
                    r
                }
            },
            SessionEvent::ChannelClosed(chan) => {
                if self.state == SessionState::Streaming || self.state == SessionState::Draining {
                    match chan {
                        Channel::Stdout => {
                            self.stdout_open = false;
                            let r = self.advance();
                            assert(self@ =~~= spec_step(old(self)@, ev@).0);
                            assert(r@ =~~= spec_step(old(self)@, ev@).1);
                            r
                        },
                        Channel::Stderr => {
                            self.stderr_open = false;
                            let r = self.advance();
                            assert(self@ =~~= spec_step(old(self)@, ev@).0);
                            assert(r@ =~~= spec_step(old(self)@, ev@).1);
                            r
                        },
                        Channel::System => {
                            let r = StepOutput {
                                events: Vec::new(),
                                spawn: None,
                                kill: false,
                                outcome: None,
                            };
                            assert(r@ =~~= spec_no_output());
                            r
                        },
                    }
                } else {
                    let r = StepOutput {
                        events: Vec::new(),
                        spawn: None,
                        kill: false,
                        outcome: None,
                    };
                    assert(r@ =~~= spec_no_output());
                    r
                }
            },
            SessionEvent::ProcessExited(success, status_text) => {
                if (self.state == SessionState::Streaming || self.state == SessionState::Draining)
                    && self.exited.is_none() {
                    self.exited = Some(success);
                    self.exit_status_text = status_text;
                    let r = self.advance();
                    assert(self@ =~~= spec_step(old(self)@, ev@).0);
                    assert(r@ =~~= spec_step(old(self)@, ev@).1);
                    r
                } else {
                    let r = StepOutput {
                        events: Vec::new(),
                        spawn: None,
                        kill: false,
                        outcome: None,
                    };
                    assert(r@ =~~= spec_no_output());
                    r
                }
            },
            SessionEvent::TimeoutFired => {
                if (self.state == SessionState::Streaming || self.state == SessionState::Draining)
                    && self.exited.is_none() {
                    self.state = SessionState::TimedOut;
                    self.outcome = Some(SessionOutcome::Failed(FailReason::Timeout));
                    let mut message = String::from_str("\u{274c} Erro: ");
                    message.append("Command timed out after ");
                    let digits = text::u64_to_string(self.timeout_secs);
                    message.append(digits.as_str());
                    message.append(" seconds");
                    let mut events: Vec<StreamEvent> = Vec::new();
                    events.push(StreamEvent { message, stream: Channel::Stderr });
                    let r = StepOutput {
                        events,
                        spawn: None,
                        kill: true,
                        outcome: Some(SessionOutcome::Failed(FailReason::Timeout)),
                    };
                    assert(self@ =~~= spec_step(old(self)@, ev@).0);
                    assert(r@ =~~= spec_step(old(self)@, ev@).1);
                    r
                } else {
                    let r = StepOutput {
                        events: Vec::new(),
                        spawn: None,
                        kill: false,
                        outcome: None,
                    };
                    assert(r@ =~~= spec_no_output());
                    r
                }
            },
        }
    }
}

} // verus!
