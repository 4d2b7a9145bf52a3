use ce_rs::types::{CompileJob, Filters};

#[test]
fn build_carries_source_arguments_and_filters() {
    let f = Filters::new().execute(true);
    let j = CompileJob::build("int main() {return 0;}", "-O2 -Wall", &f);
    assert_eq!(j.source, "int main() {return 0;}");
    assert_eq!(j.options.userArguments, "-O2 -Wall");
    assert_eq!(j.options.filters, f);
    assert!(!j.options.compilerOptions.skipAsm);
    assert!(!j.options.compilerOptions.executorRequest);
    assert!(j.options.tools.is_empty());
    assert!(j.options.libraries.is_empty());
    assert!(j.lang.is_none());
    assert!(j.allowStoreCodeDebug);
}

#[test]
fn build_simple_has_every_filter_off() {
    let j = CompileJob::build_simple("int x;", "");
    assert_eq!(j.source, "int x;");
    assert_eq!(j.options.userArguments, "");
    assert_eq!(j.options.filters, Filters::all_disabled());
    assert!(j.options.tools.is_empty() && j.options.libraries.is_empty());
    assert!(j.lang.is_none());
    assert!(j.allowStoreCodeDebug);
}
