//! The external runner's decisions. A target is run as a subprocess by the
//! caller; this module says what to launch next and what the captured output
//! becomes, so that every failure degrades to "no text" rather than an error.
use vstd::prelude::*;

verus! {

/// A program and its arguments.
pub struct CommandLine {
    pub program: String,
    pub args: Vec<String>,
}

/// A benchmark implemented in another runtime, run as a subprocess.
pub struct ExternalTarget {
    pub source_name: String,
    pub invocation: CommandLine,
    pub build_step: Option<CommandLine>,
}

/// `c` runs `program` with `args`.
pub open spec fn runs(c: CommandLine, program: Seq<char>, args: Seq<Seq<char>>) -> bool {
    &&& c.program@ == program
    &&& c.args@.len() == args.len()
    &&& forall|k: int| 0 <= k < args.len() ==> #[trigger] c.args@[k]@ == args[k]
}

fn command_line(program: &str, args: &[&str]) -> (r: CommandLine)
    ensures
        r.program@ == program@,
        r.args@.len() == args@.len(),
        forall|k: int| 0 <= k < args@.len() ==> #[trigger] r.args@[k]@ == args@[k]@,
{
    let mut owned: Vec<String> = Vec::new();
    let mut k: usize = 0;
    while k < args.len()
        invariant
            k <= args@.len(),
            owned@.len() == k,
            forall|m: int| 0 <= m < k ==> #[trigger] owned@[m]@ == args@[m]@,
        decreases args@.len() - k,
    {
        owned.push(args[k].to_owned());
        k = k + 1;
    }
    CommandLine { program: program.to_owned(), args: owned }
}

/// The configured targets, in the order their records are reported:
/// Python and JavaScript run directly, Java is compiled first.
pub fn configured_targets() -> (r: Vec<ExternalTarget>)
    ensures
        r@.len() == 3,
        r[0].source_name@ == "Python"@,
        runs(r[0].invocation, "python3"@, seq!["benchmarks/python/benchmark.py"@]),
        r[0].build_step is None,
        r[1].source_name@ == "JavaScript"@,
        runs(r[1].invocation, "node"@, seq!["benchmarks/javascript/benchmark.js"@]),
        r[1].build_step is None,
        r[2].source_name@ == "Java"@,
        runs(r[2].invocation, "java"@, seq!["-cp"@, "benchmarks/java"@, "Benchmark"@]),
        r[2].build_step matches Some(b) && runs(b, "javac"@, seq!["benchmarks/java/Benchmark.java"@]),
{
    let mut r: Vec<ExternalTarget> = Vec::new();
    r.push(
        ExternalTarget {
            source_name: "Python".to_owned(),
            invocation: command_line("python3", &["benchmarks/python/benchmark.py"]),
            build_step: None,
        },
    );
    r.push(
        ExternalTarget {
            source_name: "JavaScript".to_owned(),
            invocation: command_line("node", &["benchmarks/javascript/benchmark.js"]),
            build_step: None,
        },
    );
    r.push(
        ExternalTarget {
            source_name: "Java".to_owned(),
            invocation: command_line("java", &["-cp", "benchmarks/java", "Benchmark"]),
            build_step: Some(command_line("javac", &["benchmarks/java/Benchmark.java"])),
        },
    );
    r
}

/// What `String::from_utf8` makes of `bytes`: the decoded text, or nothing
/// where the bytes are not valid UTF-8.
pub uninterp spec fn utf8_text(bytes: Seq<u8>) -> Option<Seq<char>>;

/// Relies on String::from_utf8: `Ok` with the decoded text exactly when the
/// bytes are valid UTF-8; no bytes decode to the empty string.
#[verifier::external_body]
fn decode_utf8(bytes: Vec<u8>) -> (r: Option<String>)
    ensures
        r is None <==> utf8_text(bytes@) is None,
        r is Some ==> utf8_text(bytes@) == Some(r->0@),
        bytes@.len() == 0 ==> r is Some && r->0@.len() == 0,
{
    String::from_utf8(bytes).ok()
}

/// What the caller reports back after performing an action.
pub enum RunnerEvent {
    /// The run of a target begins.
    Started,
    /// The build step was attempted; `launched` is false where it could not
    /// even be started (its exit status is not looked at).
    BuildFinished { launched: bool },
    /// The invocation was attempted: its standard output, or nothing where it
    /// could not be started.
    RunFinished { stdout: Option<Vec<u8>> },
}

/// What the caller does next.
pub enum RunnerAction {
    /// Launch the build step and wait for it.
    LaunchBuild,
    /// Launch the invocation and capture its standard output.
    LaunchRun,
    /// Stop: the text to parse as records, or nothing, which contributes no record.
    Finish { text: Option<String> },
}

/// The action that follows `event` for a target that has a build step
/// exactly when `has_build_step`.
pub open spec fn next_action_spec(has_build_step: bool, event: RunnerEvent) -> RunnerAction {
    match event {
        RunnerEvent::Started => if has_build_step {
            RunnerAction::LaunchBuild
        } else {
            RunnerAction::LaunchRun
        },
        RunnerEvent::BuildFinished { launched } => if launched {
            RunnerAction::LaunchRun
        } else {
            RunnerAction::Finish { text: None }
        },
        RunnerEvent::RunFinished { .. } => RunnerAction::Finish { text: None },
    }
}

/// Decides the runner's next action. A build step that could not be launched
/// ends the run with no text; one that ran, whatever its exit status, is
/// followed by the invocation. Output that could not be captured, or is not
/// valid UTF-8, gives no text.
pub fn next_action(has_build_step: bool, event: RunnerEvent) -> (r: RunnerAction)
    ensures
        !(event is RunFinished) ==> r == next_action_spec(has_build_step, event),
        event matches RunnerEvent::RunFinished { stdout } ==> match stdout {
            None => r == (RunnerAction::Finish { text: None }),
            Some(bytes) => r matches RunnerAction::Finish { text } && match text {
                Some(t) => utf8_text(bytes@) == Some(t@),
                None => utf8_text(bytes@) is None,
            },
        },
{
    match event {
        RunnerEvent::Started => if has_build_step {
            RunnerAction::LaunchBuild
        } else {
            RunnerAction::LaunchRun
        },
        RunnerEvent::BuildFinished { launched } => if launched {
            RunnerAction::LaunchRun
        } else {
            RunnerAction::Finish { text: None }
        },
        RunnerEvent::RunFinished { stdout } => match stdout {
            None => RunnerAction::Finish { text: None },
            Some(bytes) => RunnerAction::Finish { text: decode_utf8(bytes) },
        },
    }
}

} // verus!
