use ce_rs::types::Filters;

fn all_off() -> Filters {
    Filters {
        binary: false,
        binaryObject: false,
        commentOnly: false,
        demangle: false,
        directives: false,
        execute: false,
        intel: false,
        labels: false,
        libraryCode: false,
        trim: false,
        debugCalls: false,
    }
}

#[test]
fn all_disabled_has_every_filter_off() {
    assert_eq!(Filters::all_disabled(), all_off());
}

#[test]
fn new_has_the_interactive_defaults() {
    let f = Filters::new();
    assert!(!f.binary && !f.binaryObject && !f.execute && !f.trim);
    assert!(f.commentOnly && f.demangle && f.directives && f.intel);
    assert!(f.labels && f.libraryCode && f.debugCalls);
}

#[test]
fn each_setter_changes_its_own_filter() {
    let f = all_off()
        .binary(true)
        .binary_object(true)
        .comment_only(true)
        .demangle(true)
        .directives(true)
        .execute(true)
        .intel(true)
        .labels(true)
        .libraryCode(true)
        .trim(true)
        .debugCalls(true);
    assert_eq!(
        f,
        Filters {
            binary: true,
            binaryObject: true,
            commentOnly: true,
            demangle: true,
            directives: true,
            execute: true,
            intel: true,
            labels: true,
            libraryCode: true,
            trim: true,
            debugCalls: true,
        }
    );
    let g = Filters::new().intel(false);
    assert!(!g.intel);
    assert!(g.demangle && g.labels);
    let h = Filters::new().binary(true).binary(false);
    assert_eq!(h, Filters::new());
}

#[test]
fn enable_named_knows_every_filter() {
    let names = [
        "binary", "binaryObject", "commentOnly", "demangle", "directives", "execute", "intel",
        "labels", "libraryCode", "trim", "debugCalls",
    ];
    for n in names {
        let mut f = Filters::all_disabled();
        assert!(f.enable_named(n), "{}", n);
        assert_ne!(f, all_off(), "{}", n);
    }
    let mut f = Filters::all_disabled();
    assert!(f.enable_named("libraryCode"));
    assert_eq!(f, all_off().libraryCode(true));
}

#[test]
fn enable_named_ignores_unknown_names() {
    let mut f = Filters::new();
    assert!(!f.enable_named("Binary"));
    assert!(!f.enable_named(""));
    assert!(!f.enable_named("binaries"));
    assert_eq!(f, Filters::new());
}

#[test]
fn from_names_enables_exactly_the_named() {
    let names: Vec<String> = vec!["intel".into(), "bogus".into(), "trim".into(), "x".into(), "trim".into()];
    let (f, unknown) = Filters::from_names(&names);
    assert_eq!(f, all_off().intel(true).trim(true));
    assert_eq!(unknown, vec!["bogus".to_string(), "x".to_string()]);
}

#[test]
fn from_names_of_nothing_is_all_off() {
    let (f, unknown) = Filters::from_names(&Vec::new());
    assert_eq!(f, all_off());
    assert!(unknown.is_empty());
}

#[test]
fn for_compiler_drops_execution_when_unsupported() {
    let asked = Filters::new().execute(true);
    assert_eq!(asked.for_compiler(true), asked);
    assert_eq!(asked.for_compiler(false), Filters::new());
    assert_eq!(Filters::new().for_compiler(false), Filters::new());
}
