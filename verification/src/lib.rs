//! A typed builder for the command line of the pandoc document converter.

pub mod formats;
pub mod text;
pub mod options;
pub mod pandoc;
pub mod laws;

pub use formats::{DocumentClass, EmailObfuscation, InputFormat, MarkdownExtension, OutputFormat, TrackChanges};
pub use formats::DocumentClass::{Article, Book, Report};
pub use options::{PandocOption, Tld, URL};
pub use pandoc::{new, InputKind, Invocation, OutputKind, Pandoc, PandocError, PandocOutput, RunFailure};
