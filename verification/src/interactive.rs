//! The long-lived interactive mode: one subprocess kept alive across
//! prompts, process-wide at most one.  Starting while one runs is
//! rejected; stopping is idempotent; a self-terminated process converges
//! on the same cleanup as an explicit stop.
use crate::session;
use crate::session::PromptDelivery;
use vstd::prelude::*;
use vstd::string::StringExecFns;

verus! {

/// Rejection of an interactive-mode request.
#[derive(Clone, Copy, Debug, PartialEq, Eq, Structural)]
pub enum InteractiveError {
    AlreadyRunning,
    NotRunning,
}

/// Whether the one interactive subprocess exists.
#[derive(Clone, Copy, Debug, PartialEq, Eq, Structural)]
pub enum InteractiveState {
    Stopped,
    Running,
}

/// What starting the interactive subprocess asks of the host: spawn with
/// standard input kept open, and write the keep-alive line at once (the
/// tool treats absent input as end of file and exits early).
#[derive(Debug, Clone)]
pub struct StartPlan {
    pub program: String,
    pub args: Vec<String>,
    pub use_shell_wrapper: bool,
    pub keep_alive: String,
}

/// Spec-level shape of an interactive start.
#[verifier::ext_equal]
pub ghost struct StartPlanView {
    pub program: Seq<char>,
    pub args: Seq<Seq<char>>,
    pub use_shell_wrapper: bool,
    pub keep_alive: Seq<char>,
}

impl View for StartPlan {
    type V = StartPlanView;

    open spec fn view(&self) -> StartPlanView {
        StartPlanView {
            program: self.program@,
            args: self.args.deep_view(),
            use_shell_wrapper: self.use_shell_wrapper,
            keep_alive: self.keep_alive@,
        }
    }
}

/// The owner of the single interactive subprocess.
pub struct InteractiveSession {
    pub state: InteractiveState,
}

impl InteractiveSession {
    /// A fresh handle with no subprocess.
    pub fn new() -> (r: InteractiveSession)
        ensures
            r.state == InteractiveState::Stopped,
    {
        InteractiveSession { state: InteractiveState::Stopped }
    }

    /// Start the interactive subprocess at `program`: rejected, spawning
    /// nothing and changing nothing, while one is already running; else
    /// the session becomes running and the host receives the spawn plan,
    /// keep-alive line included.
    pub fn start(&mut self, program: &str, model: Option<&str>, windows: bool) -> (r: Result<
        StartPlan,
        InteractiveError,
    >)
        ensures
            old(self).state == InteractiveState::Running ==> r == Err::<
                StartPlan,
                InteractiveError,
            >(InteractiveError::AlreadyRunning) && *final(self) == *old(self),
            old(self).state == InteractiveState::Stopped ==> {
                &&& final(self).state == InteractiveState::Running
                &&& r matches Ok(plan) && plan@ == (StartPlanView {
                    program: program@,
                    args: session::spec_args(
                        model.deep_view(),
                        PromptDelivery::ViaStdin,
                        Seq::<char>::empty(),
                    ),
                    use_shell_wrapper: windows && crate::resolve::spec_is_batch_file(program@),
                    keep_alive: "\n"@,
                })
            },
    {
        if self.state == InteractiveState::Running {
            return Err(InteractiveError::AlreadyRunning);
        }
        self.state = InteractiveState::Running;
        let mut args: Vec<String> = Vec::new();
        match model {
            Option::Some(m) => {
                args.push(String::from_str("-m"));
                args.push(String::from_str(m));
            },
            Option::None => {},
        }
        args.push(String::from_str("--output-format"));
        args.push(String::from_str("stream-json"));
        assert(args.deep_view() =~~= session::spec_args(
            model.deep_view(),
            PromptDelivery::ViaStdin,
            Seq::<char>::empty(),
        ));
        let use_shell = windows && crate::resolve::is_batch_file(program);
        let plan = StartPlan {
            program: String::from_str(program),
            args,
            use_shell_wrapper: use_shell,
            keep_alive: String::from_str("\n"),
        };
        assert(plan@ =~~= StartPlanView {
            program: program@,
            args: session::spec_args(
                model.deep_view(),
                PromptDelivery::ViaStdin,
                Seq::<char>::empty(),
            ),
            use_shell_wrapper: windows && crate::resolve::spec_is_batch_file(program@),
            keep_alive: "\n"@,
        });
        Ok(plan)
    }

    /// The spawn the last `start` asked for could not be made: no process
    /// exists, so the session is stopped again.
    pub fn spawn_failed(&mut self)
        ensures
            final(self).state == InteractiveState::Stopped,
    {
        self.state = InteractiveState::Stopped;
    }

    /// The line to write for one prompt: the text with a newline, only
    /// while the subprocess runs.  Replies arrive asynchronously through
    /// the reader loop; nothing correlates them here.
    pub fn send(&self, text: &str) -> (r: Result<String, InteractiveError>)
        ensures
            self.state == InteractiveState::Running ==> (r matches Ok(p) && p@ == text@ + "\n"@),
            self.state == InteractiveState::Stopped ==> r == Err::<String, InteractiveError>(
                InteractiveError::NotRunning,
            ),
    {
        if self.state == InteractiveState::Running {
            let mut out = String::from_str(text);
            out.append("\n");
            Ok(out)
        } else {
            Err(InteractiveError::NotRunning)
        }
    }

    /// Stop the session: the host must kill the process exactly when one
    /// was running.  Stopping an already-stopped session changes nothing
    /// and never errs.
    pub fn stop(&mut self) -> (kill: bool)
        ensures
            final(self).state == InteractiveState::Stopped,
            kill == (old(self).state == InteractiveState::Running),
            old(self).state == InteractiveState::Stopped ==> *final(self) == *old(self),
    {
        let kill = self.state == InteractiveState::Running;
        self.state = InteractiveState::Stopped;
        kill
    }

    /// The subprocess ended on its own: the reader loop reports it, and
    /// the session converges on the same cleanup as `stop`.
    pub fn process_exited(&mut self)
        ensures
            final(self).state == InteractiveState::Stopped,
    {
        self.state = InteractiveState::Stopped;
    }
}

} // verus!
