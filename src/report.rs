//! What is shown to the user after each compilation.
use vstd::prelude::*;
use crate::text::{asm_texts, decimal, decimal_text, joined, output_texts};
use crate::types::{AsmOutput, SomeOutput};

verus! {

/// What the service answered about running the program.
#[derive(Debug, Clone)]
pub struct ExecOutcome {
    /// The exit code of the program.
    pub code: i32,
    /// What the program wrote to its standard output.
    pub stdout: SomeOutput,
}

/// What the service answered about one compilation, as far as the report
/// reads it.
#[derive(Debug, Clone)]
pub struct CompileOutcome {
    /// The exit code of the compiler.
    pub code: i32,
    /// The assembly produced.
    pub assembly: AsmOutput,
    /// The run of the program, when there was one.
    pub execution: Option<ExecOutcome>,
}

/// The sign in front of a summary line.
#[derive(Debug, Clone, Copy, PartialEq, Eq, Structural)]
pub enum Mark {
    Pass,
    Fail,
}

/// One line of a report: a text, with a sign in front in a summary.
#[derive(Debug, Clone)]
pub struct ReportLine {
    pub mark: Option<Mark>,
    pub text: String,
}

/// The sign for an exit code: a pass for zero.
pub open spec fn mark_of(code: i32) -> Mark {
    if code == 0 {
        Mark::Pass
    } else {
        Mark::Fail
    }
}

/// The lines reported on the compilation of `name`. In full, the assembly,
/// a notice when execution was asked for but the compiler cannot execute,
/// and what the program wrote when it ran. In a summary, one signed line for
/// the compilation, one for the missing execution, one for the run.
pub open spec fn report(
    name: Seq<char>,
    summary: bool,
    out: CompileOutcome,
    execution_dropped: bool,
) -> Seq<(Option<Mark>, Seq<char>)> {
    let first = if summary {
        (
            Some(mark_of(out.code)),
            "Compilation \""@ + name + "\" ("@ + decimal(out.code as int) + ")"@,
        )
    } else {
        (None, joined(asm_texts(out.assembly.0@)))
    };
    let dropped = if !execution_dropped {
        Seq::empty()
    } else if summary {
        seq![(Some(Mark::Fail), "Execution not supported for \""@ + name + "\"."@)]
    } else {
        seq![(None, "Execution not supported\n"@)]
    };
    let ran = match out.execution {
        None => Seq::empty(),
        Some(e) => if summary {
            seq![
                (
                    Some(mark_of(e.code)),
                    "Execution \""@ + name + "\" ("@ + decimal(e.code as int) + ")"@,
                ),
            ]
        } else {
            seq![(None, "Execution:\n"@ + joined(output_texts(e.stdout.0@)))]
        },
    };
    seq![first] + dropped + ran
}

/// The mark and text of each line.
pub open spec fn line_views(lines: Seq<ReportLine>) -> Seq<(Option<Mark>, Seq<char>)> {
    lines.map_values(|l: ReportLine| (l.mark, l.text@))
}

/// The sign for an exit code.
fn mark_for(code: i32) -> (m: Mark)
    ensures
        m == mark_of(code),
{
    if code == 0 {
        Mark::Pass
    } else {
        Mark::Fail
    }
}

/// `label "name" (code)`.
fn status_text(label: &str, name: &str, code: i32) -> (r: String)
    ensures
        r@ == label@ + name@ + "\" ("@ + decimal(code as int) + ")"@,
{
    String::from_str(label).concat(name).concat("\" (").concat(decimal_text(code).as_str()).concat(
        ")",
    )
}

/// The lines reported on the compilation of `name`; `execution_dropped`
/// tells that execution was asked for and the compiler cannot execute.
pub fn compile_report(
    name: &str,
    summary: bool,
    out: &CompileOutcome,
    execution_dropped: bool,
) -> (lines: Vec<ReportLine>)
    ensures
        line_views(lines@) == report(name@, summary, *out, execution_dropped),
{
    let ghost want = report(name@, summary, *out, execution_dropped);
    let mut lines: Vec<ReportLine> = Vec::new();
    if summary {
        lines.push(
            ReportLine {
                mark: Some(mark_for(out.code)),
                text: status_text("Compilation \"", name, out.code),
            },
        );
    } else {
        lines.push(ReportLine { mark: None, text: out.assembly.to_text() });
    }
    let ghost one = lines@;
    if execution_dropped {
        if summary {
            let text = String::from_str("Execution not supported for \"").concat(name).concat(
                "\".",
            );
            lines.push(ReportLine { mark: Some(Mark::Fail), text });
        } else {
            lines.push(ReportLine { mark: None, text: String::from_str("Execution not supported\n") });
        }
    }
    let ghost two = lines@;
    match &out.execution {
        Some(e) => {
            if summary {
                lines.push(
                    ReportLine {
                        mark: Some(mark_for(e.code)),
                        text: status_text("Execution \"", name, e.code),
                    },
                );
            } else {
                let text = String::from_str("Execution:\n").concat(e.stdout.to_text().as_str());
                lines.push(ReportLine { mark: None, text });
            }
        },
        None => {},
    }
    assert(line_views(lines@) =~= want);
    lines
}

} // verus!
