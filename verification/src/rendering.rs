//! The course of one rendering job.
//!
//! Three steps of a job are not taken by the library: looking up the grammar
//! of a file by its path, which may read the file; writing a property list as
//! XML, which aborts on a value that XML cannot hold; and highlighting, which
//! may abort on a defective grammar. The job says which step is due and on
//! what. The caller takes the step behind a fault barrier and reports what
//! came of it: the complete result, or a failure.
//!
//! A property list that cannot be written ends the job with its message. A
//! lookup or a first highlighting attempt that fails is answered with a
//! warning banner and one more attempt with the grammar without highlighting
//! rules; where that fails too, the job ends with the banner alone.

use crate::highlight::{apply_style, error_block, error_fragment, styled, PathLookup};
use crate::plist_xml::{encoding_message, parse_message, xml_text, xml_text_of};
use crate::util::Config;
use std::path::Path;
use syntect::parsing::SyntaxReference;
use vstd::prelude::*;
use vstd::string::*;
use vstd::utf8::{decode_utf8, valid_utf8};

verus! {

/// A rendering job. It holds what the step in progress needs and the output
/// so far, and nothing else.
pub enum Rendering<'a> {
    /// A property list was read and is to be written as XML, which is then
    /// highlighted with `syntax`.
    Encode { value: plist::Value, syntax: &'a SyntaxReference, plain: &'a SyntaxReference },
    /// The grammar of the file at `path` is to be looked up by the path.
    /// `fallback` is the grammar of a file that matches nothing.
    Lookup {
        text: String,
        path: &'a Path,
        fallback: &'a SyntaxReference,
        plain: &'a SyntaxReference,
    },
    /// The text is to be highlighted with the grammar that was resolved for it.
    FirstTry { text: String, syntax: &'a SyntaxReference, plain: &'a SyntaxReference },
    /// The first attempt failed: the text is to be highlighted once more, as
    /// plain text, below the banner.
    Retry { text: String, plain: &'a SyntaxReference, fragment: String },
    /// The fragment is complete.
    Finished { fragment: String },
}

/// The step that the caller is asked to take.
#[derive(Clone, Copy)]
pub enum Request<'r> {
    /// Look up the grammar of the file at `path`.
    Lookup { path: &'r Path },
    /// Write `value` as an XML property list.
    Encode { value: &'r plist::Value },
    /// Highlight `text` with `syntax`.
    Highlight { text: &'r str, syntax: &'r SyntaxReference },
}

/// What came of a step.
pub enum Outcome<'a> {
    /// The step aborted or reported an error.
    Failed,
    /// What the lookup by path gave.
    Grammar(PathLookup<'a>),
    /// The property list as XML.
    Xml(Vec<u8>),
    /// The highlighted fragment.
    Html(String),
}

/// A job as contracts speak of it.
pub enum Job<'a> {
    Encode { value: plist::Value, syntax: SyntaxReference, plain: SyntaxReference },
    Lookup { text: Seq<char>, path: &'a Path, fallback: SyntaxReference, plain: SyntaxReference },
    FirstTry { text: Seq<char>, syntax: SyntaxReference, plain: SyntaxReference },
    Retry { text: Seq<char>, plain: SyntaxReference, fragment: Seq<char> },
    Finished { fragment: Seq<char> },
}

/// A request as contracts speak of it.
pub enum Step<'a> {
    Lookup { path: &'a Path },
    Encode { value: plist::Value },
    Highlight { text: Seq<char>, syntax: SyntaxReference },
}

/// An outcome as contracts speak of it.
pub enum Report<'a> {
    Failed,
    Grammar(PathLookup<'a>),
    Xml(Seq<u8>),
    Html(Seq<char>),
}

/// The text of the banner that stands above a plain-text rendering.
pub open spec fn banner_message() -> Seq<char> {
    "Highlighting failed, syntax may be invalid!"@
}

/// The banner: the message in the warning colour.
pub open spec fn banner() -> Seq<char> {
    error_fragment(banner_message())
}

/// The grammar of a file of which the lookup by path gave `found`: the one
/// that was found; `fallback` where nothing matches the file; `plain` where
/// the file could not be read.
pub open spec fn looked_up(
    found: PathLookup<'_>,
    fallback: SyntaxReference,
    plain: SyntaxReference,
) -> SyntaxReference {
    match found {
        PathLookup::Found(syntax) => *syntax,
        PathLookup::Unknown => fallback,
        PathLookup::Unreadable => plain,
    }
}

impl<'a> Report<'a> {
    /// The XML that was reported, if any was.
    pub open spec fn xml(self) -> Option<Seq<u8>> {
        match self {
            Report::Xml(bytes) => Some(bytes),
            _ => None,
        }
    }
}

impl<'a> Job<'a> {
    /// The job after the caller has reported the outcome of the step that
    /// was asked for. An outcome of another kind than the step's counts as a
    /// failure of the step. A finished job stays as it is.
    pub open spec fn advance(self, report: Report<'_>) -> Job<'a> {
        match self {
            Job::Encode { value, syntax, plain } => match xml_text_of(report.xml()) {
                Ok(text) => Job::FirstTry { text, syntax, plain },
                Err(error) => Job::Finished { fragment: error_fragment(error.message_text()) },
            },
            Job::Lookup { text, path, fallback, plain } => match report {
                Report::Grammar(found) => Job::FirstTry {
                    text,
                    syntax: looked_up(found, fallback, plain),
                    plain,
                },
                _ => Job::Retry { text, plain, fragment: banner() },
            },
            Job::FirstTry { text, syntax, plain } => match report {
                Report::Html(fragment) => Job::Finished { fragment },
                _ => Job::Retry { text, plain, fragment: banner() },
            },
            Job::Retry { text, plain, fragment } => match report {
                Report::Html(below) => Job::Finished { fragment: fragment + below },
                _ => Job::Finished { fragment },
            },
            Job::Finished { fragment } => Job::Finished { fragment },
        }
    }

    /// The step that the job asks the caller to take.
    pub open spec fn request(self) -> Option<Step<'a>> {
        match self {
            Job::Encode { value, syntax, plain } => Some(Step::Encode { value }),
            Job::Lookup { text, path, fallback, plain } => Some(Step::Lookup { path }),
            Job::FirstTry { text, syntax, plain } => Some(Step::Highlight { text, syntax }),
            Job::Retry { text, plain, fragment } => Some(Step::Highlight { text, syntax: plain }),
            Job::Finished { fragment } => None,
        }
    }

    /// The fragment of a finished job.
    pub open spec fn fragment(self) -> Option<Seq<char>> {
        match self {
            Job::Finished { fragment } => Some(fragment),
            _ => None,
        }
    }
}

impl<'a> View for Rendering<'a> {
    type V = Job<'a>;

    open spec fn view(&self) -> Job<'a> {
        match *self {
            Rendering::Encode { value, syntax, plain } => Job::Encode {
                value,
                syntax: *syntax,
                plain: *plain,
            },
            Rendering::Lookup { text, path, fallback, plain } => Job::Lookup {
                text: text@,
                path,
                fallback: *fallback,
                plain: *plain,
            },
            Rendering::FirstTry { text, syntax, plain } => Job::FirstTry {
                text: text@,
                syntax: *syntax,
                plain: *plain,
            },
            Rendering::Retry { text, plain, fragment } => Job::Retry {
                text: text@,
                plain: *plain,
                fragment: fragment@,
            },
            Rendering::Finished { fragment } => Job::Finished { fragment: fragment@ },
        }
    }
}

impl<'r> View for Request<'r> {
    type V = Step<'r>;

    open spec fn view(&self) -> Step<'r> {
        match *self {
            Request::Lookup { path } => Step::Lookup { path },
            Request::Encode { value } => Step::Encode { value: *value },
            Request::Highlight { text, syntax } => Step::Highlight { text: text@, syntax: *syntax },
        }
    }
}

impl<'a> View for Outcome<'a> {
    type V = Report<'a>;

    open spec fn view(&self) -> Report<'a> {
        match *self {
            Outcome::Failed => Report::Failed,
            Outcome::Grammar(found) => Report::Grammar(found),
            Outcome::Xml(bytes) => Report::Xml(bytes@),
            Outcome::Html(fragment) => Report::Html(fragment@),
        }
    }
}

/// What an optional request holds.
pub open spec fn request_view<'r>(request: Option<Request<'r>>) -> Option<Step<'r>> {
    match request {
        Some(asked) => Some(asked@),
        None => None,
    }
}

impl<'a> Rendering<'a> {
    /// A job that highlights `text` with `syntax`, and with `plain` should that
    /// fail.
    pub fn start(
        text: String,
        syntax: &'a SyntaxReference,
        plain: &'a SyntaxReference,
    ) -> (job: Rendering<'a>)
        ensures
            job@ == (Job::FirstTry { text: text@, syntax: *syntax, plain: *plain }),
    {
        Rendering::FirstTry { text, syntax, plain }
    }

    /// A job that needs no further step: the fragment is there.
    pub fn finished(fragment: String) -> (job: Rendering<'a>)
        ensures
            job@ == (Job::Finished { fragment: fragment@ }),
    {
        Rendering::Finished { fragment }
    }

    /// The step that the caller is to take next, or nothing once the job is
    /// finished.
    pub fn request(&self) -> (asked: Option<Request<'_>>)
        ensures
            request_view(asked) == self@.request(),
    {
        match self {
            Rendering::Encode { value, syntax, plain } => Some(Request::Encode { value }),
            Rendering::Lookup { text, path, fallback, plain } => Some(
                Request::Lookup { path: *path },
            ),
            Rendering::FirstTry { text, syntax, plain } => Some(
                Request::Highlight { text: text.as_str(), syntax: *syntax },
            ),
            Rendering::Retry { text, plain, fragment } => Some(
                Request::Highlight { text: text.as_str(), syntax: *plain },
            ),
            Rendering::Finished { fragment } => None,
        }
    }

    /// Takes the outcome of the step that was asked for. Nothing of a step
    /// that failed reaches the output.
    pub fn advance(self, outcome: Outcome<'a>) -> (next: Rendering<'a>)
        ensures
            next@ == self@.advance(outcome@),
    {
        match self {
            Rendering::Encode { value, syntax, plain } => {
                let encoded = match outcome {
                    Outcome::Xml(bytes) => Some(bytes),
                    _ => None,
                };
                match xml_text(encoded) {
                    Ok(text) => Rendering::FirstTry { text, syntax, plain },
                    Err(error) => Rendering::Finished { fragment: error_block(error.message()) },
                }
            },
            Rendering::Lookup { text, path, fallback, plain } => match outcome {
                Outcome::Grammar(found) => {
                    let syntax = match found {
                        PathLookup::Found(syntax) => syntax,
                        PathLookup::Unknown => fallback,
                        PathLookup::Unreadable => plain,
                    };
                    Rendering::FirstTry { text, syntax, plain }
                },
                _ => Rendering::Retry { text, plain, fragment: banner_block() },
            },
            Rendering::FirstTry { text, syntax, plain } => match outcome {
                Outcome::Html(fragment) => Rendering::Finished { fragment },
                _ => Rendering::Retry { text, plain, fragment: banner_block() },
            },
            Rendering::Retry { text, plain, fragment } => match outcome {
                Outcome::Html(below) => Rendering::Finished {
                    fragment: fragment.concat(below.as_str()),
                },
                _ => Rendering::Finished { fragment },
            },
            Rendering::Finished { fragment } => Rendering::Finished { fragment },
        }
    }

    /// Whether the fragment is complete.
    pub fn is_finished(&self) -> (done: bool)
        ensures
            done == (self@.fragment() is Some),
    {
        match self {
            Rendering::Finished { fragment } => true,
            _ => false,
        }
    }

    /// The page of a finished job: its fragment in the page shell. A job that
    /// still asks for a step has no page.
    pub fn page(&self, conf: &Config) -> (page: Option<String>)
        ensures
            page is Some <==> self@.fragment() is Some,
            page is Some ==> page.unwrap()@ == styled(self@.fragment().unwrap(), *conf),
    {
        match self {
            Rendering::Finished { fragment } => Some(apply_style(fragment.as_str(), conf)),
            _ => None,
        }
    }
}

fn banner_block() -> (fragment: String)
    ensures
        fragment@ == banner(),
{
    error_block("Highlighting failed, syntax may be invalid!")
}

/// Every job is finished once three outcomes have been reported, whatever
/// they are.
pub proof fn three_outcomes_finish(
    job: Job<'_>,
    first: Report<'_>,
    second: Report<'_>,
    third: Report<'_>,
)
    ensures
        job.advance(first).advance(second).advance(third).fragment() is Some,
        job.advance(first).advance(second).advance(third).request() is None,
{
}

/// A job asks for a step exactly as long as it has no fragment to show.
pub proof fn request_or_fragment(job: Job<'_>)
    ensures
        job.request() is Some <==> job.fragment() is None,
{
}

/// An attempt that succeeds at once yields its own fragment, with no banner.
pub proof fn success_is_passed_on(
    text: Seq<char>,
    syntax: SyntaxReference,
    plain: SyntaxReference,
    fragment: Seq<char>,
)
    ensures
        (Job::FirstTry { text, syntax, plain }).advance(Report::Html(fragment)).fragment() == Some(
            fragment,
        ),
{
}

/// After a failed first attempt the same text is asked for once more, with the
/// grammar without highlighting rules. If that attempt succeeds, the fragment
/// is the banner followed by the plain rendering; if it fails too, the
/// fragment is the banner alone.
pub proof fn failure_falls_back_to_plain_text(
    text: Seq<char>,
    syntax: SyntaxReference,
    plain: SyntaxReference,
    below: Seq<char>,
)
    ensures
        (Job::FirstTry { text, syntax, plain }).advance(Report::Failed).request() == Some(
            Step::Highlight { text, syntax: plain },
        ),
        (Job::FirstTry { text, syntax, plain }).advance(Report::Failed).advance(
            Report::Html(below),
        ).fragment() == Some(banner() + below),
        (Job::FirstTry { text, syntax, plain }).advance(Report::Failed).advance(
            Report::Failed,
        ).fragment() == Some(banner()),
{
}

/// A lookup that fails is a first attempt that fails: the text is asked for
/// as plain text, below the banner.
pub proof fn failed_lookup_falls_back_to_plain_text(
    text: Seq<char>,
    path: &Path,
    fallback: SyntaxReference,
    plain: SyntaxReference,
)
    ensures
        (Job::Lookup { text, path, fallback, plain }).advance(Report::Failed) == (Job::Retry {
            text,
            plain,
            fragment: banner(),
        }),
{
}

/// A property list that could not be written as XML, or whose XML is not
/// UTF-8, ends its job at once with the message of that failure; XML that is
/// UTF-8 is the text to highlight.
pub proof fn written_property_list_is_highlighted(
    value: plist::Value,
    syntax: SyntaxReference,
    plain: SyntaxReference,
    bytes: Seq<u8>,
)
    ensures
        (Job::Encode { value, syntax, plain }).advance(Report::Failed).fragment() == Some(
            error_fragment(parse_message()),
        ),
        !valid_utf8(bytes) ==> (Job::Encode { value, syntax, plain }).advance(
            Report::Xml(bytes),
        ).fragment() == Some(error_fragment(encoding_message())),
        valid_utf8(bytes) ==> (Job::Encode { value, syntax, plain }).advance(Report::Xml(bytes))
            == (Job::FirstTry { text: decode_utf8(bytes), syntax, plain }),
{
}

} // verus!
