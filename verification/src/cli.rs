//! Command-line options and the rules over them.
//!
//! The fields mirror the command-line flags; actual flag parsing and the
//! derive-based argument definitions live with the binary, which converts
//! into this plain struct.  What is decided here — which flag
//! combinations are rejected, and which output format a set of flags
//! selects — is stated exactly.

use vstd::prelude::*;

use crate::display::OutputFormat;

verus! {

/// A shell for which completions can be generated.
#[derive(Debug, Clone, Copy, PartialEq, Eq, Structural)]
pub enum Shell {
    Bash,
    Zsh,
    Fish,
    PowerShell,
    Elvish,
}

/// The two full output formats.
#[derive(Debug, Clone, Copy, PartialEq, Eq, Structural)]
pub enum Format {
    /// Human-readable format with progress bar.
    Human,
    /// JSON format.
    Json,
}

/// The command-line options.
#[derive(Debug, Clone)]
pub struct Cli {
    /// Output format.
    pub format: Format,
    /// Enable colored output.
    pub color: bool,
    /// Print only the used data in GB.
    pub used: bool,
    /// Print only the total data in GB.
    pub total: bool,
    /// Print only the remaining data in GB.
    pub remaining: bool,
    /// Print only the usage percentage.
    pub percentage: bool,
    /// Print only the plan name.
    pub plan: bool,
    /// Watch mode: refresh every N seconds.
    pub watch: Option<u64>,
    /// Custom URL to fetch from.
    pub url: Option<String>,
    /// Read from a local HTML file instead of fetching.
    pub file: Option<String>,
    /// Enable verbose logging.
    pub verbose: bool,
    /// Log to a file.
    pub log: Option<String>,
    /// Generate shell completions for the given shell.
    pub generate_completions: Option<Shell>,
    /// Generate a man page.
    pub generate_man: bool,
}

impl Cli {
    /// Whether any single-value output flag is set.
    pub open spec fn single_value_flag(&self) -> bool {
        self.used || self.total || self.remaining || self.percentage || self.plan
    }

    /// The output format the flags select: the first single-value flag in
    /// order, else the chosen full format.
    pub open spec fn spec_output_format(&self) -> OutputFormat {
        if self.used {
            OutputFormat::Used
        } else if self.total {
            OutputFormat::Total
        } else if self.remaining {
            OutputFormat::Remaining
        } else if self.percentage {
            OutputFormat::Percentage
        } else if self.plan {
            OutputFormat::Plan
        } else {
            match self.format {
                Format::Human => OutputFormat::Human,
                Format::Json => OutputFormat::Json,
            }
        }
    }

    /// Rejects flag combinations that make no sense: watch mode with a
    /// single-value flag, or both a file and a URL.
    pub fn validate(&self) -> (r: Result<(), String>)
        ensures
            match r {
                Ok(_) => !(self.watch is Some && self.single_value_flag()) && !(self.file is Some
                    && self.url is Some),
                Err(m) => (self.watch is Some && self.single_value_flag() && m@
                    == "Watch mode is not compatible with single value output flags"@) || (!(
                self.watch is Some && self.single_value_flag()) && self.file is Some
                    && self.url is Some && m@ == "Cannot specify both --file and --url"@),
            },
    {
        if self.watch.is_some() && (self.used || self.total || self.remaining || self.percentage
            || self.plan) {
            return Err(
                String::from_str("Watch mode is not compatible with single value output flags"),
            );
        }
        if self.file.is_some() && self.url.is_some() {
            return Err(String::from_str("Cannot specify both --file and --url"));
        }
        Ok(())
    }

    /// The output format the flags select.
    pub fn get_output_format(&self) -> (r: OutputFormat)
        ensures
            r == self.spec_output_format(),
    {
        if self.used {
            OutputFormat::Used
        } else if self.total {
            OutputFormat::Total
        } else if self.remaining {
            OutputFormat::Remaining
        } else if self.percentage {
            OutputFormat::Percentage
        } else if self.plan {
            OutputFormat::Plan
        } else {
            match self.format {
                Format::Human => OutputFormat::Human,
                Format::Json => OutputFormat::Json,
            }
        }
    }
}

} // verus!
