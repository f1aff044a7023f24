use plist::Value;
use qlhighlight::highlight::{apply_style, error_block, PathLookup};
use qlhighlight::registry::GrammarRegistry;
use qlhighlight::rendering::{Outcome, Rendering, Request};
use qlhighlight::util::{get_settings, Config, Preferences};
use std::path::Path;
use syntect::highlighting::{Theme, ThemeSet};
use syntect::parsing::{SyntaxReference, SyntaxSet};

const BANNER: &str =
    "<pre><span style=\"color:#ff0000\">Highlighting failed, syntax may be invalid!</span></pre>";

const PARSE_ERROR: &str =
    "<pre><span style=\"color:#ff0000\">Error parsing structured data</span></pre>";

const TEXT_ERROR: &str =
    "<pre><span style=\"color:#ff0000\">Invalid text encoding in structured data</span></pre>";

fn config() -> Config {
    let registry = GrammarRegistry::new(SyntaxSet::load_defaults_newlines()).unwrap();
    get_settings(Preferences::empty().resolve(), &ThemeSet::new(), registry, Theme::default())
}

fn html(fragment: &str) -> Outcome<'static> {
    Outcome::Html(String::from(fragment))
}

fn start(conf: &Config) -> Rendering<'_> {
    let rust = conf.syntax_set.by_name("Rust").unwrap();
    Rendering::start(String::from("fn main() {}"), rust, conf.syntax_set.plain_text())
}

fn lookup<'a>(conf: &'a Config, path: &'a Path) -> Rendering<'a> {
    Rendering::Lookup {
        text: String::from("all:"),
        path,
        fallback: conf.syntax_set.by_name("Makefile").unwrap(),
        plain: conf.syntax_set.plain_text(),
    }
}

fn encode(conf: &Config) -> Rendering<'_> {
    Rendering::Encode {
        value: Value::Boolean(true),
        syntax: conf.syntax_set.by_name("XML").unwrap(),
        plain: conf.syntax_set.plain_text(),
    }
}

fn highlight_request<'r>(job: &'r Rendering<'_>) -> (&'r str, &'r SyntaxReference) {
    match job.request() {
        Some(Request::Highlight { text, syntax }) => (text, syntax),
        _ => panic!("the job does not ask for highlighting"),
    }
}

#[test]
fn a_job_starts_by_asking_for_the_resolved_grammar() {
    let conf = config();
    let job = start(&conf);
    assert!(!job.is_finished());
    assert!(job.page(&conf).is_none());
    let (text, syntax) = highlight_request(&job);
    assert_eq!(text, "fn main() {}");
    assert_eq!(syntax.name, "Rust");
}

#[test]
fn success_at_once_gives_the_fragment_alone() {
    let conf = config();
    let job = start(&conf).advance(html("<pre>ok</pre>"));
    assert!(job.is_finished());
    assert!(job.request().is_none());
    assert_eq!(job.page(&conf).unwrap(), apply_style("<pre>ok</pre>", &conf));
}

#[test]
fn a_failure_asks_for_plain_text() {
    let conf = config();
    let job = start(&conf).advance(Outcome::Failed);
    assert!(!job.is_finished());
    assert!(job.page(&conf).is_none());
    let (text, syntax) = highlight_request(&job);
    assert_eq!(text, "fn main() {}");
    assert_eq!(syntax.name, "Plain Text");
}

#[test]
fn a_retry_that_succeeds_stands_below_the_banner() {
    let conf = config();
    let job = start(&conf).advance(Outcome::Failed).advance(html("<pre>plain</pre>"));
    assert!(job.is_finished());
    assert!(job.request().is_none());
    assert_eq!(
        job.page(&conf).unwrap(),
        apply_style(&format!("{}<pre>plain</pre>", BANNER), &conf)
    );
}

#[test]
fn a_retry_that_fails_leaves_the_banner_alone() {
    let conf = config();
    let job = start(&conf).advance(Outcome::Failed).advance(Outcome::Failed);
    assert!(job.is_finished());
    assert!(job.request().is_none());
    assert_eq!(job.page(&conf).unwrap(), apply_style(BANNER, &conf));
}

#[test]
fn the_banner_is_the_error_block_of_its_message() {
    assert_eq!(error_block("Highlighting failed, syntax may be invalid!"), BANNER);
}

#[test]
fn a_finished_job_ignores_further_outcomes() {
    let conf = config();
    let job = start(&conf).advance(html("one"));
    let job = job.advance(html("two"));
    assert_eq!(job.page(&conf).unwrap(), apply_style("one", &conf));
    let job = job.advance(Outcome::Failed);
    assert_eq!(job.page(&conf).unwrap(), apply_style("one", &conf));
    let job = job.advance(Outcome::Xml(vec![b'x']));
    assert_eq!(job.page(&conf).unwrap(), apply_style("one", &conf));
}

#[test]
fn every_job_is_finished_after_three_outcomes() {
    let conf = config();
    let path = Path::new("Makefile");
    for first in 0..4 {
        for second in 0..4 {
            for third in 0..4 {
                for kind in 0..3 {
                    let mut job = match kind {
                        0 => start(&conf),
                        1 => lookup(&conf, path),
                        _ => encode(&conf),
                    };
                    for outcome in [first, second, third] {
                        job = job.advance(match outcome {
                            0 => Outcome::Failed,
                            1 => Outcome::Grammar(PathLookup::Unknown),
                            2 => Outcome::Xml(vec![b'<', b'a', b'/', b'>']),
                            _ => html("x"),
                        });
                    }
                    assert!(job.is_finished());
                    assert!(job.request().is_none());
                    assert!(job.page(&conf).is_some());
                }
            }
        }
    }
}

#[test]
fn a_job_can_be_finished_from_the_start() {
    let conf = config();
    let job = Rendering::finished(String::from("<pre>done</pre>"));
    assert!(job.is_finished());
    assert!(job.request().is_none());
    assert_eq!(job.page(&conf).unwrap(), apply_style("<pre>done</pre>", &conf));
}

#[test]
fn an_empty_fragment_is_a_fragment() {
    let conf = config();
    let job = start(&conf).advance(html(""));
    assert!(job.is_finished());
    assert_eq!(job.page(&conf).unwrap(), apply_style("", &conf));
}

#[test]
fn an_outcome_of_another_kind_is_a_failed_attempt() {
    let conf = config();
    let job = start(&conf).advance(Outcome::Xml(vec![b'x']));
    assert_eq!(highlight_request(&job).1.name, "Plain Text");
    let job = job.advance(Outcome::Grammar(PathLookup::Unknown));
    assert_eq!(job.page(&conf).unwrap(), apply_style(BANNER, &conf));
}

#[test]
fn a_lookup_asks_for_the_path() {
    let conf = config();
    let path = Path::new("/src/Makefile");
    let job = lookup(&conf, path);
    assert!(!job.is_finished());
    assert!(job.page(&conf).is_none());
    match job.request() {
        Some(Request::Lookup { path: asked }) => assert_eq!(asked, path),
        _ => panic!("the job does not ask for a lookup"),
    }
}

#[test]
fn a_grammar_that_was_found_is_used() {
    let conf = config();
    let rust = conf.syntax_set.by_name("Rust").unwrap();
    let job = lookup(&conf, Path::new("Makefile")).advance(Outcome::Grammar(PathLookup::Found(rust)));
    let (text, syntax) = highlight_request(&job);
    assert_eq!(text, "all:");
    assert_eq!(syntax.name, "Rust");
    let retry = job.advance(Outcome::Failed);
    assert_eq!(highlight_request(&retry).1.name, "Plain Text");
}

#[test]
fn a_file_that_matches_nothing_gets_the_fallback() {
    let conf = config();
    let job = lookup(&conf, Path::new("Makefile")).advance(Outcome::Grammar(PathLookup::Unknown));
    let (text, syntax) = highlight_request(&job);
    assert_eq!(text, "all:");
    assert_eq!(syntax.name, "Makefile");
}

#[test]
fn a_file_that_cannot_be_read_gets_plain_text() {
    let conf = config();
    let job =
        lookup(&conf, Path::new("Makefile")).advance(Outcome::Grammar(PathLookup::Unreadable));
    assert_eq!(highlight_request(&job).1.name, "Plain Text");
    let job = job.advance(html("<pre>all:</pre>"));
    assert_eq!(job.page(&conf).unwrap(), apply_style("<pre>all:</pre>", &conf));
}

#[test]
fn a_lookup_that_fails_is_a_first_attempt_that_fails() {
    let conf = config();
    let job = lookup(&conf, Path::new("Makefile")).advance(Outcome::Failed);
    let (text, syntax) = highlight_request(&job);
    assert_eq!(text, "all:");
    assert_eq!(syntax.name, "Plain Text");
    let job = job.advance(html("<pre>all:</pre>"));
    assert_eq!(
        job.page(&conf).unwrap(),
        apply_style(&format!("{}<pre>all:</pre>", BANNER), &conf)
    );
}

#[test]
fn a_property_list_asks_to_be_written() {
    let conf = config();
    let job = encode(&conf);
    assert!(!job.is_finished());
    assert!(job.page(&conf).is_none());
    match job.request() {
        Some(Request::Encode { value }) => assert_eq!(value, &Value::Boolean(true)),
        _ => panic!("the job does not ask for the XML"),
    }
}

#[test]
fn written_xml_is_highlighted_as_xml() {
    let conf = config();
    let job = encode(&conf).advance(Outcome::Xml("<tr\u{fc}e/>".as_bytes().to_vec()));
    let (text, syntax) = highlight_request(&job);
    assert_eq!(text, "<tr\u{fc}e/>");
    assert_eq!(syntax.name, "XML");
    let retry = job.advance(Outcome::Failed);
    let (text, syntax) = highlight_request(&retry);
    assert_eq!(text, "<tr\u{fc}e/>");
    assert_eq!(syntax.name, "Plain Text");
}

#[test]
fn a_property_list_that_was_not_written_is_reported() {
    let conf = config();
    let job = encode(&conf).advance(Outcome::Failed);
    assert!(job.is_finished());
    assert_eq!(job.page(&conf).unwrap(), apply_style(PARSE_ERROR, &conf));
    let job = encode(&conf).advance(html("<pre>true</pre>"));
    assert_eq!(job.page(&conf).unwrap(), apply_style(PARSE_ERROR, &conf));
}

#[test]
fn xml_that_is_not_utf8_is_reported() {
    let conf = config();
    let job = encode(&conf).advance(Outcome::Xml(vec![b'<', 0xff, b'>']));
    assert!(job.is_finished());
    assert!(job.request().is_none());
    assert_eq!(job.page(&conf).unwrap(), apply_style(TEXT_ERROR, &conf));
}
