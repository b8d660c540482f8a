//! What a run is asked for on the command line.

use vstd::prelude::*;
use vstd::string::*;
use crate::text::str_eq;

verus! {

/// The policy file where none is named.
pub const DEFAULT_LICRC_FILE: &'static str = ".licrc";

/// The arguments of a run.
#[derive(Debug, PartialEq, Eq)]
pub struct Cli {
    /// The path of the dependency file (`package-lock.json`, `yarn.lock`...).
    pub dependency_file: String,
    /// The path of the policy file.
    pub licrc_file: String,
    /// The format of the report.
    pub output_format: OutputFormat,
}

impl Clone for Cli {
    fn clone(&self) -> (r: Self)
        ensures
            r.dependency_file@ == self.dependency_file@,
            r.licrc_file@ == self.licrc_file@,
            r.output_format == self.output_format,
    {
        Cli {
            dependency_file: self.dependency_file.clone(),
            licrc_file: self.licrc_file.clone(),
            output_format: self.output_format,
        }
    }
}

/// The format of the report.
#[derive(Debug, Clone, Copy, PartialEq, Eq, Structural)]
pub enum OutputFormat {
    /// JSON.
    Json,
    /// Markdown.
    Markdown,
}

impl OutputFormat {
    /// The format that `s` names: Markdown for `markdown` and `md`, JSON for
    /// anything else.
    pub open spec fn named(s: Seq<char>) -> OutputFormat {
        if s == "markdown"@ || s == "md"@ {
            OutputFormat::Markdown
        } else {
            OutputFormat::Json
        }
    }

    /// The format that `s` names.
    pub fn parse(s: &str) -> (r: OutputFormat)
        ensures
            r == OutputFormat::named(s@),
    {
        if str_eq(s, "markdown") || str_eq(s, "md") {
            OutputFormat::Markdown
        } else {
            OutputFormat::Json
        }
    }
}

impl std::str::FromStr for OutputFormat {
    type Err = &'static str;

    fn from_str(s: &str) -> (r: Result<Self, Self::Err>)
        ensures
            r == Ok::<OutputFormat, &'static str>(OutputFormat::named(s@)),
    {
        Ok(OutputFormat::parse(s))
    }
}

} // verus!
