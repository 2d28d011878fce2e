//! The outcome of one conversion attempt: success, or a failure classified
//! by the stage that failed, carrying the underlying diagnostic text
//! verbatim. Every failure is terminal for its attempt; nothing is retried.

use vstd::prelude::*;

verus! {

/// The result of one `convert` attempt.
#[derive(Debug, Clone, PartialEq, Eq)]
pub enum ConversionResult {
    /// The external renderer ran and exited zero.
    Success,
    /// The source or the destination path was empty; no filesystem access
    /// happened.
    InvalidInput,
    /// The source path does not exist.
    SourceNotFound,
    /// The source path exists but does not name a regular file.
    SourceNotAFile,
    /// Reading the source file failed; carries the underlying message.
    ReadError(String),
    /// Writing the scratch HTML file failed; no subprocess was attempted.
    ScratchWriteError(String),
    /// Creating the destination's parent directories failed.
    DestDirError(String),
    /// The external renderer could not be launched at all.
    LauncherError(String),
    /// The external renderer exited non-zero; carries its stderr and stdout
    /// text verbatim.
    RenderError { stderr: String, stdout: String },
}

/// The human-readable status line for a result, given the source path the
/// attempt was made with.
pub open spec fn status_message_of(r: ConversionResult, source: Seq<char>) -> Seq<char> {
    match r {
        ConversionResult::Success => "Conversion successful!"@,
        ConversionResult::InvalidInput => "Please fill both paths"@,
        ConversionResult::SourceNotFound => "Error: Markdown file not found at '"@ + source + "'"@,
        ConversionResult::SourceNotAFile => "Error: '"@ + source + "' is not a file."@,
        ConversionResult::ReadError(e) => "Failed to read Markdown file: "@ + e@,
        ConversionResult::ScratchWriteError(e) => "Failed to write temporary HTML: "@ + e@,
        ConversionResult::DestDirError(e) => "Failed to create output directory: "@ + e@,
        ConversionResult::LauncherError(e) => (
        "Failed to execute wkhtmltopdf. Is it installed and in your PATH? Error: "@ + e@),
        ConversionResult::RenderError { stderr, stdout } => (
        "Conversion failed. Stderr: "@ + stderr@ + "\nStdout: "@ + stdout@),
    }
}

impl ConversionResult {
    /// The human-readable status line for this result, with the source path
    /// of the attempt filled into the messages that name it.
    pub fn status_message(&self, source: &str) -> (r: String)
        ensures
            r@ == status_message_of(*self, source@),
    {
        match self {
            ConversionResult::Success => String::from_str("Conversion successful!"),
            ConversionResult::InvalidInput => String::from_str("Please fill both paths"),
            ConversionResult::SourceNotFound => {
                let mut m = String::from_str("Error: Markdown file not found at '");
                m.append(source);
                m.append("'");
                proof {
                    assert(m@ =~= status_message_of(*self, source@));
                }
                m
            },
            ConversionResult::SourceNotAFile => {
                let mut m = String::from_str("Error: '");
                m.append(source);
                m.append("' is not a file.");
                proof {
                    assert(m@ =~= status_message_of(*self, source@));
                }
                m
            },
            ConversionResult::ReadError(e) => {
                let mut m = String::from_str("Failed to read Markdown file: ");
                m.append(e.as_str());
                proof {
                    assert(m@ =~= status_message_of(*self, source@));
                }
                m
            },
            ConversionResult::ScratchWriteError(e) => {
                let mut m = String::from_str("Failed to write temporary HTML: ");
                m.append(e.as_str());
                proof {
                    assert(m@ =~= status_message_of(*self, source@));
                }
                m
            },
            ConversionResult::DestDirError(e) => {
                let mut m = String::from_str("Failed to create output directory: ");
                m.append(e.as_str());
                proof {
                    assert(m@ =~= status_message_of(*self, source@));
                }
                m
            },
            ConversionResult::LauncherError(e) => {
                let mut m = String::from_str(
                    "Failed to execute wkhtmltopdf. Is it installed and in your PATH? Error: ",
                );
                m.append(e.as_str());
                proof {
                    assert(m@ =~= status_message_of(*self, source@));
                }
                m
            },
            ConversionResult::RenderError { stderr, stdout } => {
                let mut m = String::from_str("Conversion failed. Stderr: ");
                m.append(stderr.as_str());
                m.append("\nStdout: ");
                m.append(stdout.as_str());
                proof {
                    assert(m@ =~= status_message_of(*self, source@));
                }
                m
            },
        }
    }
}

} // verus!
