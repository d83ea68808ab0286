//! The one decision the run makes after the crawl: turn the service's answer
//! into an output plan or into the run's error.

use vstd::prelude::*;
use crate::config::ConfigError;
use crate::config::RunConfig;
use crate::output::OutputPlan;
use crate::output::Page;
use crate::output::concat_spec;
use crate::output::file_decision;
use crate::output::plan_output;

verus! {

/// The one output format the service is asked for.
#[derive(Debug, Clone, Copy, PartialEq, Eq, Structural)]
pub enum OutputFormat {
    /// Page content rendered as markdown.
    Markdown,
}

/// The single request issued to the crawling service, built once per run.
#[derive(Debug, Clone)]
pub struct CrawlRequest {
    /// The URL to crawl.
    pub url: String,
    /// The maximum number of pages to crawl.
    pub limit: u32,
    /// The format each page is asked for.
    pub format: OutputFormat,
}

/// Builds the request for the crawling service: the configured URL and page
/// limit, always asking for markdown.
pub fn make_request(config: &RunConfig) -> (r: CrawlRequest)
    ensures
        r.url == config.url,
        r.limit == config.limit,
        r.format == OutputFormat::Markdown,
{
    CrawlRequest { url: config.url.clone(), limit: config.limit, format: OutputFormat::Markdown }
}

/// What came back from the crawling service.
#[derive(Debug, Clone)]
pub enum CrawlOutcome {
    /// The crawl finished; these are its pages, in result order.
    Completed(Vec<Page>),
    /// The crawl failed; the service's message, forwarded verbatim.
    Failed(String),
}

/// Why a run failed.
#[derive(Debug, Clone)]
pub enum RunError {
    /// The configuration was unusable.
    Config(ConfigError),
    /// The crawling service reported a failure.
    Crawl(String),
}

/// Decides what to do with the service's answer.  A failed crawl becomes the
/// run's error, so no file and no clipboard text is produced for it; a
/// completed crawl becomes an output plan.
pub fn process_outcome(config: &RunConfig, outcome: CrawlOutcome) -> (r: Result<
    OutputPlan,
    RunError,
>)
    ensures
        outcome matches CrawlOutcome::Failed(m) ==> r == Err::<OutputPlan, RunError>(
            RunError::Crawl(m),
        ),
        outcome matches CrawlOutcome::Completed(pages) ==> ({
            match file_decision(config.clipboard_only, config.output, config.url@) {
                Ok(None) => {
                    &&& r matches Ok(plan)
                    &&& plan.text@ == concat_spec(pages@)
                    &&& plan.file is None
                },
                Ok(Some(name)) => {
                    &&& r matches Ok(plan)
                    &&& plan.text@ == concat_spec(pages@)
                    &&& plan.file matches Some(f)
                    &&& f@ == name
                },
                Err(e) => r == Err::<OutputPlan, RunError>(RunError::Config(e)),
            }
        }),
{
    match outcome {
        CrawlOutcome::Failed(m) => Err(RunError::Crawl(m)),
        CrawlOutcome::Completed(pages) => match plan_output(config, &pages) {
            Ok(plan) => Ok(plan),
            Err(e) => Err(RunError::Config(e)),
        },
    }
}

} // verus!
