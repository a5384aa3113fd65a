//! Dependency checking: which commands to try, in what order, and how to
//! read a version probe's output.  Running the commands is the host's
//! work; the decisions about their output are verified here.
use crate::text;
use vstd::prelude::*;
use vstd::string::StrSliceExecFns;
use vstd::string::StringExecFns;

verus! {

/// Outcome of probing one dependency.
#[derive(Debug, Clone)]
pub struct DependencyResult {
    pub name: String,
    pub installed: bool,
    pub version: Option<String>,
    pub error: Option<String>,
}

/// One command to try while probing: either a program with its argument
/// vector, or a full command line for the system shell.
#[derive(Debug, Clone)]
pub struct CommandPlan {
    pub program: String,
    pub args: Vec<String>,
    pub via_shell: bool,
}

/// Spec-level shape of one planned command.
#[verifier::ext_equal]
pub ghost struct CommandPlanView {
    pub program: Seq<char>,
    pub args: Seq<Seq<char>>,
    pub via_shell: bool,
}

impl View for CommandPlan {
    type V = CommandPlanView;

    open spec fn view(&self) -> CommandPlanView {
        CommandPlanView { program: self.program@, args: self.args.deep_view(), via_shell: self.via_shell }
    }
}

/// The views of a sequence of planned commands.
pub open spec fn plan_views(s: Seq<CommandPlan>) -> Seq<CommandPlanView> {
    s.map_values(|p: CommandPlan| p@)
}

/// A version string without its optional `v`/`Version ` lead-in.  The
/// single-letter strip is tried first, as the probe does.
pub open spec fn spec_strip_version_prefix(t: Seq<char>) -> Seq<char> {
    if t.len() > 0 && t[0] == 'v' {
        t.skip(1)
    } else if text::occurs_at(t, "Version "@, 0) {
        t.skip("Version "@.len() as int)
    } else {
        t
    }
}

/// The first line of `u`: everything before the first newline, without a
/// carriage return left at its end by a CRLF line ending.
pub open spec fn spec_first_line(u: Seq<char>) -> Seq<char> {
    match text::spec_find(u, '\n') {
        Option::None => u,
        Option::Some(i) => {
            let line = u.take(i);
            if line.len() > 0 && line.last() == '\r' {
                line.drop_last()
            } else {
                line
            }
        },
    }
}

/// Everything before the first space of `line`, or all of it.
pub open spec fn spec_take_token(line: Seq<char>) -> Seq<char> {
    match text::spec_find(line, ' ') {
        Option::None => line,
        Option::Some(p) => line.take(p),
    }
}

/// The version number read from a probe's output: trimmed, without its
/// lead-in, first line only, first space-separated token only.
pub open spec fn spec_extract_version(s: Seq<char>) -> Seq<char> {
    spec_take_token(spec_first_line(spec_strip_version_prefix(text::spec_trim(s))))
}

/// Read the version number out of a probe's output.
pub fn extract_version(output: &str) -> (r: String)
    ensures
        r@ == spec_extract_version(output@),
{
    let cleaned = trim_owned(output);
    let c_len = cleaned.as_str().unicode_len();
    proof {
        reveal_strlit("Version ");
    }
    let stripped: String = if c_len > 0 && cleaned.as_str().get_char(0) == 'v' {
        String::from_str(cleaned.as_str().substring_char(1, c_len))
    } else if c_len >= 8 && text::match_at(cleaned.as_str(), "Version ", 0) {
        String::from_str(cleaned.as_str().substring_char(8, c_len))
    } else {
        proof {
            if text::occurs_at(cleaned@, "Version "@, 0) {
                assert(cleaned@.len() >= 8);
            }
        }
        cleaned
    };
    assert(stripped@ =~= spec_strip_version_prefix(text::spec_trim(output@)));
    let line: String = match text::find_char(stripped.as_str(), '\n') {
        Option::None => stripped,
        Option::Some(i) => {
            if i > 0 && stripped.as_str().get_char(i - 1) == '\r' {
                proof {
                    assert(stripped@.take(i as int).last() == stripped@[i - 1]);
                    assert(stripped@.take(i as int).drop_last() =~= stripped@.take(i - 1));
                }
                String::from_str(stripped.as_str().substring_char(0, i - 1))
            } else {
                proof {
                    if i > 0 {
                        assert(stripped@.take(i as int).last() == stripped@[i - 1]);
                    }
                }
                String::from_str(stripped.as_str().substring_char(0, i))
            }
        },
    };
    assert(line@ =~= spec_first_line(stripped@));
    match text::find_char(line.as_str(), ' ') {
        Option::None => line,
        Option::Some(p) => String::from_str(line.as_str().substring_char(0, p)),
    }
}

fn trim_owned(s: &str) -> (r: String)
    ensures
        r@ == text::spec_trim(s@),
{
    text::trim_spaces(s)
}

/// The output that carries the version: standard output if it has any,
/// else (for a successful run) standard error, else nothing.
pub open spec fn spec_version_output(so: Seq<char>, se: Seq<char>, success: bool) -> Seq<char> {
    if so.len() > 0 {
        so
    } else if se.len() > 0 && success {
        se
    } else {
        Seq::<char>::empty()
    }
}

/// The failure text of a direct probe: standard error if any, else
/// standard output, else a fixed note.
pub open spec fn spec_direct_error(so: Seq<char>, se: Seq<char>) -> Seq<char> {
    if se.len() > 0 {
        se
    } else if so.len() > 0 {
        so
    } else {
        "No output received"@
    }
}

/// Decide the result of one direct probe from its exit status and raw
/// output: installed exactly when it succeeded with some output, with the
/// version read from that output.
pub fn interpret_command_output(name: &str, success: bool, stdout_raw: &str, stderr_raw: &str) -> (r:
    DependencyResult)
    ensures
        r.name@ == name@,
        r.installed == (success && spec_version_output(
            text::spec_trim(stdout_raw@),
            text::spec_trim(stderr_raw@),
            success,
        ).len() > 0),
        r.installed ==> (r.version matches Some(v) && v@ == spec_extract_version(
            spec_version_output(
                text::spec_trim(stdout_raw@),
                text::spec_trim(stderr_raw@),
                success,
            ),
        ) && r.error is None),
        !r.installed ==> r.version is None && (r.error matches Some(m) && m@ == spec_direct_error(
            text::spec_trim(stdout_raw@),
            text::spec_trim(stderr_raw@),
        )),
{
    let so = trim_owned(stdout_raw);
    let se = trim_owned(stderr_raw);
    let so_len = so.as_str().unicode_len();
    let se_len = se.as_str().unicode_len();
    let version_output: String = if so_len > 0 {
        so.clone()
    } else if se_len > 0 && success {
        se.clone()
    } else {
        String::new()
    };
    if success && version_output.as_str().unicode_len() > 0 {
        let version = extract_version(version_output.as_str());
        DependencyResult {
            name: String::from_str(name),
            installed: true,
            version: Some(version),
            error: None,
        }
    } else {
        let error: String = if se_len > 0 {
            se
        } else if so_len > 0 {
            so
        } else {
            String::from_str("No output received")
        };
        DependencyResult {
            name: String::from_str(name),
            installed: false,
            version: None,
            error: Some(error),
        }
    }
}

/// The failure text of a shell probe, quoting both outputs.
pub open spec fn spec_shell_error(so: Seq<char>, se: Seq<char>) -> Seq<char> {
    "Command failed. stdout: '"@ + so + "', stderr: '"@ + se + "'"@
}

/// Decide the result of one probe made through the system shell: the
/// same installed/version rule as a direct probe, with a failure text
/// that quotes both outputs.
pub fn interpret_shell_output(name: &str, success: bool, stdout_raw: &str, stderr_raw: &str) -> (r:
    DependencyResult)
    ensures
        r.name@ == name@,
        r.installed == (success && spec_version_output(
            text::spec_trim(stdout_raw@),
            text::spec_trim(stderr_raw@),
            success,
        ).len() > 0),
        r.installed ==> (r.version matches Some(v) && v@ == spec_extract_version(
            spec_version_output(
                text::spec_trim(stdout_raw@),
                text::spec_trim(stderr_raw@),
                success,
            ),
        ) && r.error is None),
        !r.installed ==> r.version is None && (r.error matches Some(m) && m@ == spec_shell_error(
            text::spec_trim(stdout_raw@),
            text::spec_trim(stderr_raw@),
        )),
{
    let so = trim_owned(stdout_raw);
    let se = trim_owned(stderr_raw);
    let so_len = so.as_str().unicode_len();
    let se_len = se.as_str().unicode_len();
    let version_output: String = if so_len > 0 {
        so.clone()
    } else if se_len > 0 && success {
        se.clone()
    } else {
        String::new()
    };
    if success && version_output.as_str().unicode_len() > 0 {
        let version = extract_version(version_output.as_str());
        DependencyResult {
            name: String::from_str(name),
            installed: true,
            version: Some(version),
            error: None,
        }
    } else {
        let mut error = String::from_str("Command failed. stdout: '");
        error.append(so.as_str());
        error.append("', stderr: '");
        error.append(se.as_str());
        error.append("'");
        assert(error@ =~= spec_shell_error(text::spec_trim(stdout_raw@), text::spec_trim(
            stderr_raw@,
        )));
        DependencyResult {
            name: String::from_str(name),
            installed: false,
            version: None,
            error: Some(error),
        }
    }
}

/// A probe that could not even run: not installed, carrying the rendered
/// launch failure.
pub fn spawn_failure(name: &str, rendered: &str) -> (r: DependencyResult)
    ensures
        r.name@ == name@,
        r.installed == false,
        r.version is None,
        r.error matches Some(m) && m@ == rendered@,
{
    DependencyResult {
        name: String::from_str(name),
        installed: false,
        version: None,
        error: Some(String::from_str(rendered)),
    }
}

/// A shell probe that could not run: the same, with the shell noted.
pub fn shell_spawn_failure(name: &str, rendered: &str) -> (r: DependencyResult)
    ensures
        r.name@ == name@,
        r.installed == false,
        r.version is None,
        r.error matches Some(m) && m@ == "Shell execution failed: "@ + rendered@,
{
    let mut error = String::from_str("Shell execution failed: ");
    error.append(rendered);
    DependencyResult {
        name: String::from_str(name),
        installed: false,
        version: None,
        error: Some(error),
    }
}

/// Arguments joined with single spaces, for a shell command line.
pub open spec fn spec_space_join(xs: Seq<Seq<char>>) -> Seq<char>
    decreases xs.len(),
{
    if xs.len() == 0 {
        Seq::<char>::empty()
    } else if xs.len() == 1 {
        xs[0]
    } else {
        spec_space_join(xs.drop_last()) + " "@ + xs.last()
    }
}

/// Join arguments with single spaces.
pub fn space_join(xs: &Vec<String>) -> (r: String)
    ensures
        r@ == spec_space_join(xs.deep_view()),
{
    let mut out = String::new();
    let mut k: usize = 0;
    assert(xs.deep_view().take(0) =~~= Seq::<Seq<char>>::empty());
    while k < xs.len()
        invariant
            0 <= k <= xs.len(),
            xs.deep_view().len() == xs.len(),
            out@ == spec_space_join(xs.deep_view().take(k as int)),
        decreases xs.len() - k,
    {
        if k > 0 {
            out.append(" ");
        }
        out.append(xs[k].as_str());
        proof {
            let dv = xs.deep_view();
            assert(dv.take(k + 1).drop_last() =~~= dv.take(k as int));
            assert(dv.take(k + 1).last() == dv[k as int]);
            assert(dv[k as int] == xs@[k as int]@);
            if k == 0 {
                assert(out@ =~= spec_space_join(dv.take(1)));
            } else {
                assert(out@ =~= spec_space_join(dv.take(k as int)) + " "@ + dv[k as int]);
            }
        }
        k += 1;
    }
    assert(xs.deep_view().take(xs.deep_view().len() as int) =~~= xs.deep_view());
    out
}

/// The ordered probes for one dependency: the command itself; on a
/// platform with batch files also its `.exe` and `.cmd` forms; and last a
/// run of the same line through the system shell.
pub open spec fn spec_fallback_plan(
    command: Seq<char>,
    args: Seq<Seq<char>>,
    windows: bool,
) -> Seq<CommandPlanView> {
    let direct = CommandPlanView { program: command, args: args, via_shell: false };
    let shell = CommandPlanView {
        program: command + " "@ + spec_space_join(args),
        args: Seq::<Seq<char>>::empty(),
        via_shell: true,
    };
    if windows {
        seq![
            direct,
            CommandPlanView { program: command + ".exe"@, args: args, via_shell: false },
            CommandPlanView { program: command + ".cmd"@, args: args, via_shell: false },
            shell,
        ]
    } else {
        seq![direct, shell]
    }
}

/// Build the ordered probes for one dependency command.
pub fn fallback_plan(command: &str, args: &Vec<String>, windows: bool) -> (r: Vec<CommandPlan>)
    ensures
        plan_views(r@) == spec_fallback_plan(command@, args.deep_view(), windows),
{
    let mut out: Vec<CommandPlan> = Vec::new();
    out.push(
        CommandPlan { program: String::from_str(command), args: clone_args(args), via_shell: false },
    );
    if windows {
        let mut exe = String::from_str(command);
        exe.append(".exe");
        out.push(CommandPlan { program: exe, args: clone_args(args), via_shell: false });
        let mut cmd = String::from_str(command);
        cmd.append(".cmd");
        out.push(CommandPlan { program: cmd, args: clone_args(args), via_shell: false });
    }
    let mut line = String::from_str(command);
    line.append(" ");
    line.append(space_join(args).as_str());
    out.push(CommandPlan { program: line, args: Vec::new(), via_shell: true });
    assert(plan_views(out@) =~~= spec_fallback_plan(command@, args.deep_view(), windows));
    out
}

fn clone_args(args: &Vec<String>) -> (r: Vec<String>)
    ensures
        r.deep_view() == args.deep_view(),
{
    let mut out: Vec<String> = Vec::new();
    let mut k: usize = 0;
    while k < args.len()
        invariant
            0 <= k <= args.len(),
            args.deep_view().len() == args.len(),
            out.deep_view() == args.deep_view().take(k as int),
        decreases args.len() - k,
    {
        out.push(args[k].clone());
        proof {
            assert(args.deep_view().take(k + 1) =~~= args.deep_view().take(k as int).push(
                args.deep_view()[k as int],
            ));
            assert(out.deep_view() =~~= args.deep_view().take(k + 1));
        }
        k += 1;
    }
    assert(args.deep_view().take(args.deep_view().len() as int) =~~= args.deep_view());
    out
}

/// The ordered probes for the external AI tool itself: four direct forms,
/// then two shell forms, version flag variants included.
pub open spec fn spec_gemini_check_plan() -> Seq<CommandPlanView> {
    seq![
        CommandPlanView { program: "gemini"@, args: seq!["--version"@], via_shell: false },
        CommandPlanView { program: "gemini.exe"@, args: seq!["--version"@], via_shell: false },
        CommandPlanView { program: "gemini"@, args: seq!["-v"@], via_shell: false },
        CommandPlanView { program: "gemini.exe"@, args: seq!["-v"@], via_shell: false },
        CommandPlanView {
            program: "gemini --version"@,
            args: Seq::<Seq<char>>::empty(),
            via_shell: true,
        },
        CommandPlanView { program: "gemini -v"@, args: Seq::<Seq<char>>::empty(), via_shell: true },
    ]
}

/// Build the ordered probes for the external AI tool.
pub fn gemini_check_plan() -> (r: Vec<CommandPlan>)
    ensures
        plan_views(r@) == spec_gemini_check_plan(),
{
    let mut out: Vec<CommandPlan> = Vec::new();
    out.push(direct_plan("gemini", "--version"));
    out.push(direct_plan("gemini.exe", "--version"));
    out.push(direct_plan("gemini", "-v"));
    out.push(direct_plan("gemini.exe", "-v"));
    out.push(
        CommandPlan {
            program: String::from_str("gemini --version"),
            args: Vec::new(),
            via_shell: true,
        },
    );
    out.push(
        CommandPlan { program: String::from_str("gemini -v"), args: Vec::new(), via_shell: true },
    );
    assert(plan_views(out@) =~~= spec_gemini_check_plan());
    out
}

fn direct_plan(program: &str, arg: &str) -> (r: CommandPlan)
    ensures
        r@.program == program@,
        r@.args == seq![arg@],
        r@.via_shell == false,
{
    let mut args: Vec<String> = Vec::new();
    args.push(String::from_str(arg));
    assert(args.deep_view() =~~= seq![arg@]);
    CommandPlan { program: String::from_str(program), args, via_shell: false }
}

/// Of the probes' results, the first that found the dependency, or the
/// last result when none did.
pub fn select_dependency_result(results: &Vec<DependencyResult>) -> (r: &DependencyResult)
    requires
        results@.len() >= 1,
    ensures
        (exists|i: int| 0 <= i < results@.len() && results@[i].installed) ==> exists|i: int|
            0 <= i < results@.len() && results@[i].installed && *r == results@[i] && (forall|j: int|
                0 <= j < i ==> !results@[j].installed),
        (forall|i: int| 0 <= i < results@.len() ==> !results@[i].installed) ==> *r == results@[
            results@.len() - 1
        ],
{
    let mut k: usize = 0;
    while k < results.len()
        invariant
            0 <= k <= results@.len(),
            results@.len() >= 1,
            forall|j: int| 0 <= j < k ==> !results@[j].installed,
        decreases results@.len() - k,
    {
        if results[k].installed {
            return &results[k];
        }
        k += 1;
    }
    &results[results.len() - 1]
}

} // verus!
