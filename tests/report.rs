use ce_rs::report::{compile_report, CompileOutcome, ExecOutcome, Mark, ReportLine};
use ce_rs::types::{AsmOutput, AsmOutputItem, OutputItem, SomeOutput};

fn outcome(code: i32, run: Option<(i32, &str)>) -> CompileOutcome {
    CompileOutcome {
        code,
        assembly: AsmOutput(vec![
            AsmOutputItem { text: "main:".to_string(), source: None, labels: Vec::new() },
            AsmOutputItem { text: "  ret".to_string(), source: None, labels: Vec::new() },
        ]),
        execution: run.map(|(c, out)| ExecOutcome {
            code: c,
            stdout: SomeOutput(vec![OutputItem { text: out.to_string(), tag: None }]),
        }),
    }
}

fn plain(lines: &[ReportLine]) -> Vec<(Option<Mark>, String)> {
    lines.iter().map(|l| (l.mark, l.text.clone())).collect()
}

#[test]
fn full_report_shows_the_assembly() {
    let r = compile_report("gcc 13", false, &outcome(0, None), false);
    assert_eq!(plain(&r), vec![(None, "main:\n  ret".to_string())]);
}

#[test]
fn full_report_shows_the_run_and_the_missing_execution() {
    let r = compile_report("gcc 13", false, &outcome(0, Some((3, "hello"))), true);
    assert_eq!(
        plain(&r),
        vec![
            (None, "main:\n  ret".to_string()),
            (None, "Execution not supported\n".to_string()),
            (None, "Execution:\nhello".to_string()),
        ]
    );
}

#[test]
fn summary_of_a_passing_compilation() {
    let r = compile_report("x86-64 gcc 13.1", true, &outcome(0, None), false);
    assert_eq!(
        plain(&r),
        vec![(Some(Mark::Pass), "Compilation \"x86-64 gcc 13.1\" (0)".to_string())]
    );
}

#[test]
fn summary_of_a_failing_compilation_and_run() {
    let r = compile_report("clang", true, &outcome(-1, Some((42, "x"))), true);
    assert_eq!(
        plain(&r),
        vec![
            (Some(Mark::Fail), "Compilation \"clang\" (-1)".to_string()),
            (Some(Mark::Fail), "Execution not supported for \"clang\".".to_string()),
            (Some(Mark::Fail), "Execution \"clang\" (42)".to_string()),
        ]
    );
}

#[test]
fn summary_of_a_passing_run() {
    let r = compile_report("clang", true, &outcome(1, Some((0, ""))), false);
    assert_eq!(
        plain(&r),
        vec![
            (Some(Mark::Fail), "Compilation \"clang\" (1)".to_string()),
            (Some(Mark::Pass), "Execution \"clang\" (0)".to_string()),
        ]
    );
}
