//! The parsed command line: the global options and the subcommand with its
//! fields.

use vstd::prelude::*;
use crate::text::opt_text;

verus! {

/// The subcommand and what was given with it.
#[derive(Debug, PartialEq, Eq)]
#[allow(inconsistent_fields)]
pub enum Commands {
    /// Process a media file: transcode it, resize it, change its bitrate.
    Process {
        input: String,
        output: Option<String>,
        resolution: Option<String>,
        bitrate: Option<String>,
        format: Option<String>,
        dry_run: bool,
    },
    /// Compare two media files.
    Compare { original: String, processed: String },
    /// Show what is known about a media file.
    Info { file: String },
    /// Convert a media file to another format.
    Convert { input: String, output: Option<String>, format: String },
    /// Compress a video file to a target bitrate.
    Compress { input: String, output: Option<String>, bitrate: String },
}

/// View of a [`Commands`].
#[allow(inconsistent_fields)]
pub enum CommandsView {
    Process {
        input: Seq<char>,
        output: Option<Seq<char>>,
        resolution: Option<Seq<char>>,
        bitrate: Option<Seq<char>>,
        format: Option<Seq<char>>,
        dry_run: bool,
    },
    Compare { original: Seq<char>, processed: Seq<char> },
    Info { file: Seq<char> },
    Convert { input: Seq<char>, output: Option<Seq<char>>, format: Seq<char> },
    Compress { input: Seq<char>, output: Option<Seq<char>>, bitrate: Seq<char> },
}

impl View for Commands {
    type V = CommandsView;

    open spec fn view(&self) -> CommandsView {
        match self {
            Commands::Process {
                input,
                output,
                resolution,
                bitrate,
                format,
                dry_run,
            } => CommandsView::Process {
                input: input@,
                output: opt_text(*output),
                resolution: opt_text(*resolution),
                bitrate: opt_text(*bitrate),
                format: opt_text(*format),
                dry_run: *dry_run,
            },
            Commands::Compare { original, processed } => CommandsView::Compare {
                original: original@,
                processed: processed@,
            },
            Commands::Info { file } => CommandsView::Info { file: file@ },
            Commands::Convert { input, output, format } => CommandsView::Convert {
                input: input@,
                output: opt_text(*output),
                format: format@,
            },
            Commands::Compress { input, output, bitrate } => CommandsView::Compress {
                input: input@,
                output: opt_text(*output),
                bitrate: bitrate@,
            },
        }
    }
}

/// Everything the command line said.
#[derive(Debug, PartialEq, Eq)]
pub struct CliArgs {
    /// The address of the backend, where one was given.
    pub backend_url: Option<String>,
    /// Whether to work without a backend.
    pub local: bool,
    pub command: Commands,
}

/// View of a [`CliArgs`].
pub struct CliArgsView {
    pub backend_url: Option<Seq<char>>,
    pub local: bool,
    pub command: CommandsView,
}

impl View for CliArgs {
    type V = CliArgsView;

    open spec fn view(&self) -> CliArgsView {
        CliArgsView {
            backend_url: opt_text(self.backend_url),
            local: self.local,
            command: self.command@,
        }
    }
}

} // verus!
