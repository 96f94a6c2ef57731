use solve_matrix::cli::{format_transform, interpret_args, usage, Invocation, USAGE};
use solve_matrix::error::error_report;

fn args(list: &[&str]) -> Vec<String> {
    list.iter().map(|a| a.to_string()).collect()
}

#[test]
fn help_flag_anywhere() {
    assert_eq!(interpret_args(&args(&["--help"])), Invocation::Help);
    assert_eq!(interpret_args(&args(&["-h"])), Invocation::Help);
    assert_eq!(interpret_args(&args(&["a.txt", "--help"])), Invocation::Help);
    assert_eq!(interpret_args(&args(&["a.txt", "b.txt", "-h"])), Invocation::Help);
}

#[test]
fn two_paths_solve() {
    assert_eq!(
        interpret_args(&args(&["a.txt", "b.txt"])),
        Invocation::Solve { source: "a.txt".to_string(), target: "b.txt".to_string() }
    );
    assert_eq!(
        interpret_args(&args(&["a.txt", "b.txt", "c.txt"])),
        Invocation::Solve { source: "a.txt".to_string(), target: "b.txt".to_string() }
    );
}

#[test]
fn missing_paths() {
    let none = interpret_args(&args(&[]));
    assert_eq!(none, Invocation::MissingSource);
    assert_eq!(none.complaint(), Some("Missing source dataset".to_string()));
    let one = interpret_args(&args(&["a.txt"]));
    assert_eq!(one, Invocation::MissingTarget);
    let complaint = one.complaint().unwrap();
    assert_eq!(
        error_report(&complaint),
        "Error: Missing target dataset\n\nSee --help"
    );
    assert_eq!(Invocation::Help.complaint(), None);
}

#[test]
fn usage_text() {
    assert_eq!(usage(), USAGE);
    assert!(USAGE.starts_with("Usage: solve-matrix"));
    assert!(USAGE.contains("--help | -h"));
}

#[test]
fn transform_layout() {
    let cell = |v: f64| v.to_string();
    let cells = [
        [cell(1.0), cell(0.5), cell(-2.25)],
        [cell(0.0), cell(1.0), cell(0.0)],
        [cell(3.0), cell(0.125), cell(1.5)],
    ];
    assert_eq!(format_transform(&cells), "1 0.5 -2.25\n0 1 0\n3 0.125 1.5");
}
