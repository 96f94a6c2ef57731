use vstd::prelude::*;

verus! {

/// Why a dataset could not be turned into a point matrix, or why two
/// point matrices cannot be paired for a regression.
#[derive(Debug, PartialEq, Eq)]
pub enum MatrixError {
    /// The text could not be obtained; carries the system's message.
    Io(String),
    /// A token is not a number; carries the number parser's message.
    Parse(String),
    /// The token stream ended in the middle of a triplet.
    NotATriplet,
    /// The paired datasets hold no samples.
    NoSamples,
    /// The source and target datasets hold different numbers of samples.
    SampleCountMismatch { source: usize, target: usize },
}

/// The text shown for each kind of error.
pub open spec fn message_of(e: MatrixError) -> Seq<char> {
    match e {
        MatrixError::Io(m) => m@,
        MatrixError::Parse(m) => m@,
        MatrixError::NotATriplet => "line is not a triplet"@,
        MatrixError::NoSamples => "the datasets hold no samples"@,
        MatrixError::SampleCountMismatch { .. } =>
            "the source and target datasets hold different numbers of samples"@,
    }
}

/// How a failure with the text `message` is reported to a user.
pub open spec fn report_of(message: Seq<char>) -> Seq<char> {
    "Error: "@ + message + "\n\nSee --help"@
}

/// The report of a failure with the text `message`.
pub fn error_report(message: &str) -> (r: String)
    ensures
        r@ == report_of(message@),
{
    let head = String::from_str("Error: ");
    let r = head.concat(message);
    r.concat("\n\nSee --help")
}

impl MatrixError {
    /// The text of this error, as shown to a user.
    pub fn message(&self) -> (r: String)
        ensures
            r@ == message_of(*self),
    {
        match self {
            MatrixError::Io(m) => m.clone(),
            MatrixError::Parse(m) => m.clone(),
            MatrixError::NotATriplet => String::from_str("line is not a triplet"),
            MatrixError::NoSamples => String::from_str("the datasets hold no samples"),
            MatrixError::SampleCountMismatch { .. } => String::from_str(
                "the source and target datasets hold different numbers of samples",
            ),
        }
    }

    /// The full report of this error, as written to standard error.
    pub fn report(&self) -> (r: String)
        ensures
            r@ == report_of(message_of(*self)),
    {
        let m = self.message();
        error_report(m.as_str())
    }
}

} // verus!
