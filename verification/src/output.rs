//! From crawl result to outputs: joining the page bodies into one text blob
//! and choosing where that blob goes.

use vstd::prelude::*;
use crate::config::ConfigError;
use crate::config::RunConfig;

verus! {

/// One crawled page; the service may omit the markdown body.
#[derive(Debug, Clone)]
pub struct Page {
    /// The page content rendered as markdown, when the service returned one.
    pub markdown: Option<String>,
}

/// Whether any of the first `n` pages has a markdown body.
pub open spec fn has_body(pages: Seq<Page>, n: int) -> bool {
    exists|i: int| 0 <= i < n && pages[i].markdown is Some
}

/// The text contributed by the first `n` pages: their present markdown
/// bodies, in result order, joined by single newlines.
pub open spec fn join_prefix(pages: Seq<Page>, n: int) -> Seq<char>
    decreases n,
{
    if n <= 0 {
        Seq::<char>::empty()
    } else {
        let rest = join_prefix(pages, n - 1);
        match pages[n - 1].markdown {
            Some(m) => if has_body(pages, n - 1) {
                rest + seq!['\n'] + m@
            } else {
                rest + m@
            },
            None => rest,
        }
    }
}

/// The whole text blob: every present markdown body, in result order, joined
/// by single newlines; pages without a body are skipped and add no newline,
/// and there is no trailing newline.
pub open spec fn concat_spec(pages: Seq<Page>) -> Seq<char> {
    join_prefix(pages, pages.len() as int)
}

proof fn lemma_has_body_step(pages: Seq<Page>, n: int)
    requires
        0 <= n < pages.len(),
    ensures
        pages[n].markdown is Some ==> has_body(pages, n + 1),
        pages[n].markdown is None ==> (has_body(pages, n + 1) <==> has_body(pages, n)),
{
    if pages[n].markdown is Some {
        assert(0 <= n < n + 1 && pages[n].markdown is Some);
    } else {
        if has_body(pages, n + 1) {
            let w = choose|w: int| 0 <= w < n + 1 && pages[w].markdown is Some;
            assert(0 <= w < n && pages[w].markdown is Some);
        }
        if has_body(pages, n) {
            let w = choose|w: int| 0 <= w < n && pages[w].markdown is Some;
            assert(0 <= w < n + 1 && pages[w].markdown is Some);
        }
    }
}

/// Joins the present markdown bodies of `pages`, in result order, with a
/// single newline between consecutive bodies.
pub fn concat_markdown(pages: &Vec<Page>) -> (r: String)
    ensures
        r@ == concat_spec(pages@),
{
    let mut out = String::new();
    let mut any = false;
    let n = pages.len();
    let mut i: usize = 0;
    while i < n
        invariant
            i <= n,
            n == pages@.len(),
            any == has_body(pages@, i as int),
            out@ == join_prefix(pages@, i as int),
        decreases n - i,
    {
        match &pages[i].markdown {
            Some(m) => {
                if any {
                    out.append("\n");
                }
                out.append(m.as_str());
                any = true;
                proof {
                    reveal_strlit("\n");
                    assert("\n"@ =~= seq!['\n']);
                    lemma_has_body_step(pages@, i as int);
                    assert(out@ =~= join_prefix(pages@, i as int + 1));
                }
            },
            None => {
                proof {
                    lemma_has_body_step(pages@, i as int);
                    assert(out@ =~= join_prefix(pages@, i as int + 1));
                }
            },
        }
        i += 1;
    }
    out
}

/// Index of the first `'.'` in `s`, or `s.len()` when there is none.
pub open spec fn first_dot(s: Seq<char>) -> int
    decreases s.len(),
{
    if s.len() == 0 {
        0
    } else if s[0] == '.' {
        0
    } else {
        1 + first_dot(s.drop_first())
    }
}

/// The host's first label: everything before the first `'.'`, or the whole
/// host when it has no `'.'`.
pub open spec fn first_label_spec(s: Seq<char>) -> Seq<char> {
    s.take(first_dot(s))
}

proof fn lemma_first_dot_at(s: Seq<char>, i: int)
    requires
        0 <= i <= s.len(),
        forall|j: int| 0 <= j < i ==> s[j] != '.',
        i < s.len() ==> s[i] == '.',
    ensures
        first_dot(s) == i,
    decreases i,
{
    if i > 0 {
        assert(s[0] != '.');
        assert forall|j: int| 0 <= j < i - 1 implies s.drop_first()[j] != '.' by {
            assert(s[j + 1] != '.');
        }
        assert(i - 1 < s.drop_first().len() ==> s.drop_first()[i - 1] == '.');
        lemma_first_dot_at(s.drop_first(), i - 1);
    }
}

/// Returns the first label of `host`: the characters before the first `'.'`.
pub fn first_label(host: &str) -> (r: String)
    ensures
        r@ == first_label_spec(host@),
{
    let n = host.unicode_len();
    let mut i: usize = 0;
    loop
        invariant_except_break
            i <= n,
            n == host@.len(),
            forall|j: int| 0 <= j < i ==> host@[j] != '.',
        ensures
            i <= n,
            n == host@.len(),
            forall|j: int| 0 <= j < i ==> host@[j] != '.',
            i < n ==> host@[i as int] == '.',
        decreases n - i,
    {
        if i >= n {
            break;
        }
        if host.get_char(i) == '.' {
            break;
        }
        i += 1;
    }
    proof {
        lemma_first_dot_at(host@, i as int);
        assert(host@.subrange(0, i as int) =~= first_label_spec(host@));
    }
    let label = host.substring_char(0, i);
    String::from_str(label)
}

/// Whether the `url` crate accepts this text as a URL.
pub uninterp spec fn url_parse_ok(url: Seq<char>) -> bool;

/// The host part the `url` crate finds in this text, if it parses and has one.
pub uninterp spec fn url_host(url: Seq<char>) -> Option<Seq<char>>;

/// Relies on `url::Url::parse` and `url::Url::host_str`: whether a text
/// parses as a URL, and which host it then has, depend on the text alone.
#[verifier::external_body]
fn parse_host(url: &str) -> (r: Result<Option<String>, ()>)
    ensures
        r is Ok <==> url_parse_ok(url@),
        r matches Ok(h) ==> (h is Some <==> url_host(url@) is Some),
        r matches Ok(h) ==> (h matches Some(s) ==> url_host(url@) == Some(s@)),
{
    match url::Url::parse(url) {
        Ok(u) => Ok(u.host_str().map(|h| h.to_string())),
        Err(_) => Err(()),
    }
}

/// The default output file name for a host: its first label plus `.md`.
pub fn default_output_name(host: &str) -> (r: String)
    ensures
        r@ == first_label_spec(host@) + ".md"@,
{
    let label = first_label(host);
    label.concat(".md")
}

/// The file the run should write: none in clipboard-only mode, the explicit
/// path when one was given, else the default name derived from the URL's
/// host; an error when no name can be derived.
pub open spec fn file_decision(clipboard_only: bool, output: Option<String>, url: Seq<char>)
    -> Result<Option<Seq<char>>, ConfigError>
{
    if clipboard_only {
        Ok(None)
    } else if output is Some {
        Ok(Some((output->0)@))
    } else if !url_parse_ok(url) {
        Err(ConfigError::MalformedUrl)
    } else if url_host(url) is None {
        Err(ConfigError::MissingDomain)
    } else {
        Ok(Some(first_label_spec(url_host(url)->0) + ".md"@))
    }
}

/// Picks the output file name: the explicit path when one was given, else the
/// default derived from the URL's host.
pub fn resolve_output_target(output: &Option<String>, url: &str) -> (r: Result<
    String,
    ConfigError,
>)
    ensures
        ({
            match file_decision(false, *output, url@) {
                Ok(Some(name)) => r matches Ok(f) && f@ == name,
                Ok(None) => false,
                Err(e) => r == Err::<String, ConfigError>(e),
            }
        }),
{
    match output {
        Some(p) => Ok(p.clone()),
        None => match parse_host(url) {
            Ok(Some(h)) => Ok(default_output_name(h.as_str())),
            Ok(None) => Err(ConfigError::MissingDomain),
            Err(_) => Err(ConfigError::MalformedUrl),
        },
    }
}

/// What a successful run should produce: the text blob that the clipboard
/// always receives, and the file that should also receive it, if any.
#[derive(Debug, Clone)]
pub struct OutputPlan {
    /// The concatenated markdown bodies.
    pub text: String,
    /// The file to write `text` to; `None` in clipboard-only mode.
    pub file: Option<String>,
}

/// Turns a successful crawl into an output plan: the blob is the joined page
/// bodies, and the file target follows `file_decision`.
pub fn plan_output(config: &RunConfig, pages: &Vec<Page>) -> (r: Result<OutputPlan, ConfigError>)
    ensures
        ({
            match file_decision(config.clipboard_only, config.output, config.url@) {
                Ok(None) => {
                    &&& r matches Ok(plan)
                    &&& plan.text@ == concat_spec(pages@)
                    &&& plan.file is None
                },
                Ok(Some(name)) => {
                    &&& r matches Ok(plan)
                    &&& plan.text@ == concat_spec(pages@)
                    &&& plan.file matches Some(f)
                    &&& f@ == name
                },
                Err(e) => r == Err::<OutputPlan, ConfigError>(e),
            }
        }),
{
    let text = concat_markdown(pages);
    if config.clipboard_only {
        Ok(OutputPlan { text, file: None })
    } else {
        match resolve_output_target(&config.output, config.url.as_str()) {
            Ok(name) => Ok(OutputPlan { text, file: Some(name) }),
            Err(e) => Err(e),
        }
    }
}

/// Clipboard-only mode never chooses a file target, whatever the URL and
/// whatever explicit path was given.
pub proof fn lemma_clipboard_only_no_file(output: Option<String>, url: Seq<char>)
    ensures
        file_decision(true, output, url) == Ok::<Option<Seq<char>>, ConfigError>(None),
{
}

} // verus!
