use crawlmd::config::build_config;
use crawlmd::config::ConfigError;
use crawlmd::config::DEFAULT_PAGE_LIMIT;
use crawlmd::output::concat_markdown;
use crawlmd::output::default_output_name;
use crawlmd::output::first_label;
use crawlmd::output::plan_output;
use crawlmd::output::resolve_output_target;
use crawlmd::output::Page;
use crawlmd::run::make_request;
use crawlmd::run::process_outcome;
use crawlmd::run::CrawlOutcome;
use crawlmd::run::OutputFormat;
use crawlmd::run::RunError;

fn pages(bodies: &[Option<&str>]) -> Vec<Page> {
    bodies
        .iter()
        .map(|b| Page { markdown: b.map(|s| s.to_string()) })
        .collect()
}

fn config_with(
    url: &str,
    output: Option<&str>,
    clipboard_only: bool,
) -> crawlmd::config::RunConfig {
    build_config(
        url.to_string(),
        output.map(|s| s.to_string()),
        DEFAULT_PAGE_LIMIT,
        Some("key".to_string()),
        None,
        clipboard_only,
    )
    .unwrap()
}

#[test]
fn concat_joins_present_bodies_in_order() {
    let p = pages(&[Some("# First"), None, Some("Second page")]);
    assert_eq!(concat_markdown(&p), "# First\nSecond page");
}

#[test]
fn concat_separates_but_does_not_terminate() {
    assert_eq!(concat_markdown(&pages(&[Some("a")])), "a");
    assert_eq!(concat_markdown(&pages(&[Some("")])), "");
    assert_eq!(concat_markdown(&pages(&[Some(""), Some("")])), "\n");
    assert_eq!(concat_markdown(&pages(&[None, Some("a"), None, Some("b"), None])), "a\nb");
}

#[test]
fn concat_of_no_pages_is_empty() {
    assert_eq!(concat_markdown(&pages(&[])), "");
    assert_eq!(concat_markdown(&pages(&[None, None])), "");
}

#[test]
fn missing_api_key_is_refused() {
    let r = build_config("https://example.com".to_string(), None, 50, None, None, false);
    assert_eq!(r.unwrap_err(), ConfigError::MissingApiKey);
}

#[test]
fn api_key_flag_wins_over_environment() {
    let r = build_config(
        "https://example.com".to_string(),
        None,
        50,
        Some("flag-key".to_string()),
        Some("env-key".to_string()),
        false,
    )
    .unwrap();
    assert_eq!(r.api_key, "flag-key");
}

#[test]
fn api_key_falls_back_to_environment() {
    let r = build_config(
        "https://example.com".to_string(),
        None,
        50,
        None,
        Some("env-key".to_string()),
        true,
    )
    .unwrap();
    assert_eq!(r.api_key, "env-key");
    assert!(r.clipboard_only);
}

#[test]
fn default_name_uses_first_host_label() {
    let r = resolve_output_target(&None, "https://example.com/docs").unwrap();
    assert_eq!(r, "example.md");
}

#[test]
fn default_name_takes_only_the_first_label() {
    let r = resolve_output_target(&None, "https://docs.example.com/guide").unwrap();
    assert_eq!(r, "docs.md");
}

#[test]
fn explicit_output_path_is_kept() {
    let r = resolve_output_target(&Some("notes.txt".to_string()), "https://example.com").unwrap();
    assert_eq!(r, "notes.txt");
}

#[test]
fn malformed_url_is_a_config_error() {
    let r = resolve_output_target(&None, "not a url at all");
    assert_eq!(r.unwrap_err(), ConfigError::MalformedUrl);
}

#[test]
fn url_without_host_is_a_config_error() {
    let r = resolve_output_target(&None, "data:text/plain,stuff");
    assert_eq!(r.unwrap_err(), ConfigError::MissingDomain);
}

#[test]
fn first_label_without_dot_is_whole_host() {
    assert_eq!(first_label("localhost"), "localhost");
    assert_eq!(default_output_name("localhost"), "localhost.md");
}

#[test]
fn plan_writes_blob_to_derived_file() {
    let cfg = config_with("https://example.com/docs", None, false);
    let p = pages(&[Some("body")]);
    let plan = plan_output(&cfg, &p).unwrap();
    assert_eq!(plan.text, "body");
    assert_eq!(plan.file.as_deref(), Some("example.md"));
}

#[test]
fn clipboard_only_plan_has_no_file() {
    let cfg = config_with("https://example.com/docs", None, true);
    let p = pages(&[Some("body")]);
    let plan = plan_output(&cfg, &p).unwrap();
    assert_eq!(plan.text, "body");
    assert!(plan.file.is_none());
}

#[test]
fn request_carries_url_limit_and_markdown_format() {
    let cfg = config_with("https://example.com", None, false);
    let req = make_request(&cfg);
    assert_eq!(req.url, "https://example.com");
    assert_eq!(req.limit, DEFAULT_PAGE_LIMIT);
    assert_eq!(req.format, OutputFormat::Markdown);
}

#[test]
fn failed_crawl_yields_no_plan() {
    let cfg = config_with("https://example.com", None, false);
    let r = process_outcome(&cfg, CrawlOutcome::Failed("service said no".to_string()));
    assert!(matches!(r, Err(RunError::Crawl(m)) if m == "service said no"));
}

#[test]
fn completed_crawl_yields_full_plan() {
    let cfg = config_with("https://example.com", Some("out.md"), false);
    let p = pages(&[Some("one"), Some("two")]);
    let plan = process_outcome(&cfg, CrawlOutcome::Completed(p)).unwrap();
    assert_eq!(plan.text, "one\ntwo");
    assert_eq!(plan.file.as_deref(), Some("out.md"));
}

#[test]
fn completed_crawl_with_bad_url_fails_without_file() {
    let cfg = config_with("not a url at all", None, false);
    let p = pages(&[Some("one")]);
    let r = process_outcome(&cfg, CrawlOutcome::Completed(p));
    assert!(matches!(r, Err(RunError::Config(ConfigError::MalformedUrl))));
}
