//! Verified core of a small crawl-to-markdown command-line tool.
//!
//! The tool asks a remote crawling service for the pages of a site, joins the
//! markdown bodies it gets back into one text blob, writes that blob to a file
//! and to the clipboard, and reports a token count.  Everything that decides
//! or computes lives here with a contract: resolving the configuration,
//! joining the page bodies, deriving the default output file name, planning
//! which outputs to produce, and counting tokens.  The surrounding binary only
//! performs the I/O that these functions ask for.

pub mod config;
pub mod output;
pub mod run;
pub mod tokens;
