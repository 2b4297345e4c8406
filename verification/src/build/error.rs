//! What a failed step or build reports.

use vstd::prelude::*;
use vstd::string::StringExecFns;

verus! {

/// What a failed step reports: a one-line detail and the captured output of
/// the failing subprocess.
#[derive(Debug)]
pub struct BuildStepError {
    detail: String,
    stdout: String,
    stderr: String,
}

/// The content of a `BuildStepError`.
pub struct StepErrorView {
    pub detail: Seq<char>,
    pub stdout: Seq<char>,
    pub stderr: Seq<char>,
}

impl View for BuildStepError {
    type V = StepErrorView;

    closed spec fn view(&self) -> StepErrorView {
        StepErrorView { detail: self.detail@, stdout: self.stdout@, stderr: self.stderr@ }
    }
}

/// The standard-error text of a failure that came from the operating system
/// rather than from a subprocess.
pub open spec fn io_error_text(description: Seq<char>) -> Seq<char> {
    "IOError: "@ + description
}

impl BuildStepError {
    /// A failure with a detail and no captured output.
    pub fn new_simple(detail: &str) -> (error: Self)
        ensures
            error@ == (StepErrorView { detail: detail@, stdout: Seq::empty(), stderr: Seq::empty() }),
    {
        Self::new(detail.to_owned(), String::new(), String::new())
    }

    /// A failure of the operating system, whose description becomes the
    /// standard-error text.
    pub fn new_io(detail: &str, description: &str) -> (error: Self)
        ensures
            error@ == (StepErrorView {
                detail: detail@,
                stdout: Seq::empty(),
                stderr: io_error_text(description@),
            }),
    {
        let mut stderr = "IOError: ".to_owned();
        stderr.append(description);
        Self::new(detail.to_owned(), String::new(), stderr)
    }

    pub fn new(detail: String, stdout: String, stderr: String) -> (error: Self)
        ensures
            error@ == (StepErrorView { detail: detail@, stdout: stdout@, stderr: stderr@ }),
    {
        BuildStepError { detail, stdout, stderr }
    }

    pub fn detail(&self) -> (text: &str)
        ensures
            text@ == self@.detail,
    {
        self.detail.as_str()
    }

    pub fn stdout(&self) -> (text: &str)
        ensures
            text@ == self@.stdout,
    {
        self.stdout.as_str()
    }

    pub fn stderr(&self) -> (text: &str)
        ensures
            text@ == self@.stderr,
    {
        self.stderr.as_str()
    }
}

/// A step's failure together with the name of the step that failed.
#[derive(Debug)]
pub struct BuildError {
    step: String,
    error: BuildStepError,
}

/// The content of a `BuildError`.
pub struct BuildErrorView {
    pub step: Seq<char>,
    pub error: StepErrorView,
}

impl View for BuildError {
    type V = BuildErrorView;

    closed spec fn view(&self) -> BuildErrorView {
        BuildErrorView { step: self.step@, error: self.error@ }
    }
}

/// A captured stream under its heading, or nothing where the stream is empty.
pub open spec fn report_section(heading: Seq<char>, content: Seq<char>) -> Seq<char> {
    if content.len() == 0 {
        Seq::empty()
    } else {
        heading + content
    }
}

/// The report of a failed build: the step, the detail, then the captured
/// standard output and standard error, each left out where it is empty.
pub open spec fn error_report(error: BuildErrorView) -> Seq<char> {
    "Build step \""@ + error.step + "\" errored: "@ + error.error.detail + "\n"@ + report_section(
        "----------------- Stdout -----------------\n"@,
        error.error.stdout,
    ) + report_section("----------------- Stderr -----------------\n"@, error.error.stderr)
}

impl BuildError {
    /// Tags `error` with the name of the step it came from.
    pub fn new(step: String, error: BuildStepError) -> (tagged: Self)
        ensures
            tagged@ == (BuildErrorView { step: step@, error: error@ }),
    {
        BuildError { step, error }
    }

    pub fn step(&self) -> (text: &str)
        ensures
            text@ == self@.step,
    {
        self.step.as_str()
    }

    pub fn error(&self) -> (error: &BuildStepError)
        ensures
            error@ == self@.error,
    {
        &self.error
    }

    pub fn pretty_format(&self) -> (report: String)
        ensures
            report@ == error_report(self@),
    {
        let mut result = "Build step \"".to_owned();
        result.append(self.step.as_str());
        result.append("\" errored: ");
        result.append(self.error.detail.as_str());
        result.append("\n");
        if !self.error.stdout.as_str().is_empty() {
            result.append("----------------- Stdout -----------------\n");
            result.append(self.error.stdout.as_str());
        }
        proof {
            assert(report_section(
                "----------------- Stdout -----------------\n"@,
                self.error.stdout@,
            ) == if self.error.stdout@.len() == 0 {
                Seq::<char>::empty()
            } else {
                "----------------- Stdout -----------------\n"@ + self.error.stdout@
            });
        }
        if !self.error.stderr.as_str().is_empty() {
            result.append("----------------- Stderr -----------------\n");
            result.append(self.error.stderr.as_str());
        }
        assert(result@ =~= error_report(self@));
        result
    }
}

/// The view of the outcome of a phase of a build.
pub open spec fn outcome_view(outcome: Result<(), BuildStepError>) -> Result<(), StepErrorView> {
    match outcome {
        Ok(()) => Ok(()),
        Err(error) => Err(error@),
    }
}

/// The verdict on one phase of a build: its outcome, with a failure tagged by
/// the phase's name.
pub open spec fn phase_verdict(name: Seq<char>, outcome: Result<(), BuildStepError>) -> Result<
    (),
    BuildErrorView,
> {
    match outcome {
        Ok(()) => Ok(()),
        Err(error) => Err(BuildErrorView { step: name, error: error@ }),
    }
}

/// Passes a phase's success on, and tags its failure with the phase's name.
pub fn tag_outcome(name: &str, outcome: Result<(), BuildStepError>) -> (verdict: Result<
    (),
    BuildError,
>)
    ensures
        match verdict {
            Ok(()) => phase_verdict(name@, outcome) is Ok,
            Err(error) => phase_verdict(name@, outcome) == Err::<(), BuildErrorView>(error@),
        },
{
    match outcome {
        Ok(()) => Ok(()),
        Err(error) => Err(BuildError::new(name.to_owned(), error)),
    }
}

} // verus!
