use vstd::prelude::*;

verus! {

/// What a command line asks for.
#[derive(Debug, PartialEq, Eq)]
pub enum Invocation {
    /// Show the usage text.
    Help,
    /// Fit the transform from the dataset at `source` to the one at `target`.
    Solve { source: String, target: String },
    /// No dataset path was given.
    MissingSource,
    /// Only the source dataset path was given.
    MissingTarget,
}

/// The flags that ask for the usage text.
pub open spec fn is_help_flag(arg: Seq<char>) -> bool {
    arg == "--help"@ || arg == "-h"@
}

/// Some argument asks for the usage text.
pub open spec fn asks_for_help(args: Seq<String>) -> bool {
    exists|i: int| 0 <= i < args.len() && is_help_flag(#[trigger] args[i]@)
}

/// What the arguments `args` (without the program name) ask for. A help flag
/// anywhere wins; otherwise the first two arguments are the dataset paths and
/// any further ones are ignored.
pub fn interpret_args(args: &Vec<String>) -> (r: Invocation)
    ensures
        asks_for_help(args@) ==> r == Invocation::Help,
        !asks_for_help(args@) ==> match r {
            Invocation::Solve { source, target } => args.len() >= 2 && source@ == args[0]@
                && target@ == args[1]@,
            Invocation::MissingSource => args.len() == 0,
            Invocation::MissingTarget => args.len() == 1,
            Invocation::Help => false,
        },
{
    let long = String::from_str("--help");
    let short = String::from_str("-h");
    let mut i: usize = 0;
    while i < args.len()
        invariant
            i <= args.len(),
            long@ == "--help"@,
            short@ == "-h"@,
            forall|l: int| 0 <= l < i ==> !is_help_flag(#[trigger] args[l]@),
        decreases args.len() - i,
    {
        if args[i] == long || args[i] == short {
            return Invocation::Help;
        }
        i = i + 1;
    }
    if args.len() == 0 {
        Invocation::MissingSource
    } else if args.len() == 1 {
        Invocation::MissingTarget
    } else {
        Invocation::Solve { source: args[0].clone(), target: args[1].clone() }
    }
}

impl Invocation {
    /// The complaint about a missing argument, if this invocation has one.
    pub fn complaint(&self) -> (r: Option<String>)
        ensures
            match *self {
                Invocation::MissingSource => r is Some && r->0@ == "Missing source dataset"@,
                Invocation::MissingTarget => r is Some && r->0@ == "Missing target dataset"@,
                _ => r is None,
            },
    {
        match self {
            Invocation::MissingSource => Some(String::from_str("Missing source dataset")),
            Invocation::MissingTarget => Some(String::from_str("Missing target dataset")),
            _ => None,
        }
    }
}

/// The usage text.
pub const USAGE: &'static str = "Usage: solve-matrix [OPTIONS] [SOURCE DATASET PATH] [TARGET DATASET PATH]\n\nOPTIONS\n    --help | -h     Show this help message\n";

/// The usage text, as an owned string.
pub fn usage() -> (r: String)
    ensures
        r@ == USAGE@,
{
    String::from_str(USAGE)
}

/// One row of the transform as printed: its three numbers, separated by
/// single spaces.
pub open spec fn row_text(row: [String; 3]) -> Seq<char> {
    row[0]@ + " "@ + row[1]@ + " "@ + row[2]@
}

/// The transform as printed: its rows in order, one per line.
pub open spec fn transform_text(cells: [[String; 3]; 3]) -> Seq<char> {
    row_text(cells[0]) + "\n"@ + row_text(cells[1]) + "\n"@ + row_text(cells[2])
}

fn format_row(row: &[String; 3]) -> (r: String)
    ensures
        r@ == row_text(*row),
{
    let r = row[0].clone();
    let r = r.concat(" ");
    let r = r.concat(row[1].as_str());
    let r = r.concat(" ");
    r.concat(row[2].as_str())
}

/// Lays out the printed numbers of a 3x3 transform, row by row.
pub fn format_transform(cells: &[[String; 3]; 3]) -> (r: String)
    ensures
        r@ == transform_text(*cells),
{
    let r = format_row(&cells[0]);
    let r = r.concat("\n");
    let second = format_row(&cells[1]);
    let r = r.concat(second.as_str());
    let r = r.concat("\n");
    let third = format_row(&cells[2]);
    r.concat(third.as_str())
}

} // verus!
