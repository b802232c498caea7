//! What a run has to say: one line for each thing that is worth a line,
//! with its severity. A link that was made gives a line of information; a
//! fault or a failure gives a line of error; a link that was skipped gives
//! no line at all.

use vstd::prelude::*;
use crate::alias::AliasError;
use crate::document::ConfigError;
use crate::executor::Outcome;
use crate::request::{PathFault, SectionShapeError, ShapeFault};
use crate::resolve::{ResolvedLinkRequest, ResolvedLinkRequestView};
use crate::startup::StartupError;

verus! {

/// How much a line matters.
#[derive(Debug, Clone, Copy, PartialEq, Eq, Structural)]
pub enum Severity {
    /// Something went as asked.
    Info,
    /// Something went wrong.
    Error,
}

/// One line of a run.
#[derive(Debug, PartialEq, Eq)]
pub struct Report {
    /// How much the line matters.
    pub severity: Severity,
    /// The line.
    pub message: String,
}

/// A line as a mathematical value.
pub struct ReportView {
    pub severity: Severity,
    pub message: Seq<char>,
}

impl View for Report {
    type V = ReportView;

    open spec fn view(&self) -> ReportView {
        ReportView { severity: self.severity, message: self.message@ }
    }
}

/// `src -> dst`, as every line on a link shows its two paths.
pub open spec fn arrow_text(src: Seq<char>, dst: Seq<char>) -> Seq<char> {
    src + " -> "@ + dst
}

/// The line on a link that was made.
pub open spec fn linked_text(request: ResolvedLinkRequestView) -> Seq<char> {
    if request.kind.links_file() {
        "Successfully linked from "@ + arrow_text(request.src, request.dst)
    } else {
        "Successfully linked directory: "@ + arrow_text(request.src, request.dst)
    }
}

/// The line on a link that the system refused, with the cause.
pub open spec fn failed_text(request: ResolvedLinkRequestView, cause: Seq<char>) -> Seq<char> {
    if request.kind.links_file() {
        "Failed to link from "@ + arrow_text(request.src, request.dst) + ". \n "@ + cause
    } else {
        "Failed to link directory from "@ + arrow_text(request.src, request.dst) + " \n "@
            + cause
    }
}

/// What is to be said of the end of a job: nothing of a link that was
/// skipped.
pub open spec fn outcome_line(request: ResolvedLinkRequestView, outcome: Outcome) -> Option<
    ReportView,
> {
    match outcome {
        Outcome::Linked => Some(
            ReportView { severity: Severity::Info, message: linked_text(request) },
        ),
        Outcome::Skipped => None,
        Outcome::Failed(cause) => Some(
            ReportView { severity: Severity::Error, message: failed_text(request, cause@) },
        ),
    }
}

/// The words for what is wrong with one path.
pub open spec fn path_fault_text(fault: PathFault) -> Seq<char> {
    match fault {
        PathFault::Missing => "is missing"@,
        PathFault::NotText => "is not a string"@,
        PathFault::Empty => "is empty"@,
    }
}

/// The words for how a section departs from its shape.
pub open spec fn shape_fault_text(fault: ShapeFault) -> Seq<char> {
    match fault {
        ShapeFault::NotAPair => "it is not a sequence of two elements"@,
        ShapeFault::Source(path) => "the src of its first element "@ + path_fault_text(path),
        ShapeFault::Destination(path) => "the dst of its second element "@ + path_fault_text(
            path,
        ),
    }
}

/// The line on a malformed section.
pub open spec fn shape_text(error: SectionShapeError) -> Seq<char> {
    "Failed to parse the section "@ + error.kind.section_key() + ": "@ + shape_fault_text(
        error.fault,
    )
}

/// The line on a run that cannot begin. `argument` is the path that was
/// given, where one was.
pub open spec fn startup_text(error: StartupError, argument: Seq<char>) -> Seq<char> {
    match error {
        StartupError::ArgumentMissing => "Path argument not supplied!"@,
        StartupError::InvalidConfigPath => argument + " is not a valid path to a YAML file"@,
    }
}

/// The line on a configuration that could not be had from `path`.
pub open spec fn config_text(error: ConfigError, path: Seq<char>) -> Seq<char> {
    match error {
        ConfigError::Read(cause) => "Failed to read the contents at: "@ + path + ". "@ + cause@,
        ConfigError::Parse(cause) => "Failed to parse the contents at: "@ + path + ". "@
            + cause@,
    }
}

/// The line on an alias table that could not be made.
pub open spec fn alias_text(error: AliasError) -> Seq<char> {
    match error {
        AliasError::HomeUnavailable => "The home directory could not be found"@,
    }
}

fn arrow(src: &str, dst: &str) -> (text: String)
    ensures
        text@ == arrow_text(src@, dst@),
{
    let mut text = src.to_owned();
    text.append(" -> ");
    text.append(dst);
    text
}

fn path_fault_words(fault: PathFault) -> (words: &'static str)
    ensures
        words@ == path_fault_text(fault),
{
    match fault {
        PathFault::Missing => "is missing",
        PathFault::NotText => "is not a string",
        PathFault::Empty => "is empty",
    }
}

/// Says what is to be said of the end of a job.
pub fn outcome_report(request: &ResolvedLinkRequest, outcome: &Outcome) -> (line: Option<Report>)
    ensures
        match line {
            Some(report) => outcome_line(request@, *outcome) == Some(report@),
            None => outcome_line(request@, *outcome) is None,
        },
{
    let file = request.kind.is_file_link();
    match outcome {
        Outcome::Skipped => None,
        Outcome::Linked => {
            let mut message = if file {
                "Successfully linked from ".to_owned()
            } else {
                "Successfully linked directory: ".to_owned()
            };
            message.append(arrow(request.src.as_str(), request.dst.as_str()).as_str());
            Some(Report { severity: Severity::Info, message })
        },
        Outcome::Failed(cause) => {
            let mut message = if file {
                "Failed to link from ".to_owned()
            } else {
                "Failed to link directory from ".to_owned()
            };
            message.append(arrow(request.src.as_str(), request.dst.as_str()).as_str());
            message.append(if file { ". \n " } else { " \n " });
            message.append(cause.as_str());
            Some(Report { severity: Severity::Error, message })
        },
    }
}

/// Says what is wrong with a malformed section.
pub fn shape_report(error: &SectionShapeError) -> (line: Report)
    ensures
        line@ == (ReportView { severity: Severity::Error, message: shape_text(*error) }),
{
    let mut message = "Failed to parse the section ".to_owned();
    message.append(error.kind.section_name());
    message.append(": ");
    match error.fault {
        ShapeFault::NotAPair => {
            message.append("it is not a sequence of two elements");
        },
        ShapeFault::Source(path) => {
            message.append("the src of its first element ");
            message.append(path_fault_words(path));
            assert(message@ =~= shape_text(*error));
        },
        ShapeFault::Destination(path) => {
            message.append("the dst of its second element ");
            message.append(path_fault_words(path));
            assert(message@ =~= shape_text(*error));
        },
    }
    Report { severity: Severity::Error, message }
}

/// Says why a run cannot begin.
pub fn startup_report(error: StartupError, argument: &str) -> (line: Report)
    ensures
        line@ == (ReportView {
            severity: Severity::Error,
            message: startup_text(error, argument@),
        }),
{
    let message = match error {
        StartupError::ArgumentMissing => "Path argument not supplied!".to_owned(),
        StartupError::InvalidConfigPath => {
            let mut message = argument.to_owned();
            message.append(" is not a valid path to a YAML file");
            message
        },
    };
    Report { severity: Severity::Error, message }
}

/// Says why the configuration at `path` could not be had.
pub fn config_report(error: &ConfigError, path: &str) -> (line: Report)
    ensures
        line@ == (ReportView { severity: Severity::Error, message: config_text(*error, path@) }),
{
    let mut message = match error {
        ConfigError::Read(_) => "Failed to read the contents at: ".to_owned(),
        ConfigError::Parse(_) => "Failed to parse the contents at: ".to_owned(),
    };
    message.append(path);
    message.append(". ");
    match error {
        ConfigError::Read(cause) => message.append(cause.as_str()),
        ConfigError::Parse(cause) => message.append(cause.as_str()),
    }
    Report { severity: Severity::Error, message }
}

/// Says why no alias table could be made.
pub fn alias_report(error: AliasError) -> (line: Report)
    ensures
        line@ == (ReportView { severity: Severity::Error, message: alias_text(error) }),
{
    match error {
        AliasError::HomeUnavailable => Report {
            severity: Severity::Error,
            message: "The home directory could not be found".to_owned(),
        },
    }
}

} // verus!
