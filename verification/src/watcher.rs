//! The endpoint watcher: consumes the child process's standard output line
//! by line, looking for the one sentinel line that announces the server's
//! bound address, and publishes the discovered URL exactly once per process
//! lifetime.
//!
//! The caller owns the pipe and the asynchronous read loop (it ends when
//! the pipe closes, that is, when the process exits) and feeds every line
//! to [`EndpointWatcher::on_line`].  A line that does not carry the
//! sentinel prefix, or whose remainder is not a parsable URL, is ignored:
//! a malformed announcement must not end supervision and must not publish
//! an endpoint.  Once an endpoint is published, all further lines are
//! ignored (first match wins).

use vstd::prelude::*;
use vstd::string::StrSliceExecFns;
use crate::text::str_starts_with;

verus! {

/// What `url::Url::parse` makes of a string: the parsed URL's
/// serialization, or nothing when the string is not an absolute URL.
pub uninterp spec fn url_parse(s: Seq<char>) -> Option<Seq<char>>;

/// Relies on `url::Url::parse`: parsing depends on the input characters
/// alone, returns `Ok` exactly for absolute URLs, and `String::from` on the
/// parsed value yields its serialization.
#[verifier::external_body]
fn parse_url(s: &str) -> (r: Option<String>)
    ensures
        match r {
            Some(u) => url_parse(s@) == Some(u@),
            None => url_parse(s@) is None,
        },
{
    match url::Url::parse(s) {
        Ok(u) => Some(String::from(u)),
        Err(_) => None,
    }
}

/// The fixed prefix of the sentinel line on the child's standard output.
pub open spec fn spec_sentinel_prefix() -> Seq<char> {
    "EngineFS server started at "@
}

/// The endpoint a line announces: for a line made of the sentinel prefix
/// followed by an absolute URL, that URL's serialization; for every other
/// line, nothing.
pub open spec fn spec_sentinel_url(line: Seq<char>) -> Option<Seq<char>> {
    if line.len() >= spec_sentinel_prefix().len() && line.subrange(
        0,
        spec_sentinel_prefix().len() as int,
    ) == spec_sentinel_prefix() {
        url_parse(line.subrange(spec_sentinel_prefix().len() as int, line.len() as int))
    } else {
        None
    }
}

/// How one line changes the watcher's published endpoint: a published
/// endpoint is kept (first match wins), otherwise the line's announcement,
/// if any, is published.
pub open spec fn spec_on_line(endpoint: Option<Seq<char>>, line: Seq<char>) -> Option<Seq<char>> {
    if endpoint is Some {
        endpoint
    } else {
        spec_sentinel_url(line)
    }
}

/// The endpoint published after a whole sequence of lines has been read.
pub open spec fn spec_watch_lines(endpoint: Option<Seq<char>>, lines: Seq<Seq<char>>) -> Option<
    Seq<char>,
>
    decreases lines.len(),
{
    if lines.len() == 0 {
        endpoint
    } else {
        spec_watch_lines(spec_on_line(endpoint, lines[0]), lines.drop_first())
    }
}

/// The endpoint is published exactly once per process lifetime: once a
/// URL is out, every later line — further sentinel announcements
/// included — leaves it untouched.
pub proof fn lemma_first_match_wins(url: Seq<char>, lines: Seq<Seq<char>>)
    ensures
        spec_watch_lines(Some(url), lines) == Some(url),
    decreases lines.len(),
{
    if lines.len() > 0 {
        lemma_first_match_wins(url, lines.drop_first());
    }
}

/// If no line of the output ever announces a valid endpoint, the watcher
/// publishes nothing, however many lines it reads; the start sequence then
/// runs out of its grace window and fails, it does not discover a
/// false-positive endpoint.
pub proof fn lemma_no_sentinel_no_discovery(lines: Seq<Seq<char>>)
    requires
        forall|i: int| 0 <= i < lines.len() ==> spec_sentinel_url(lines[i]) is None,
    ensures
        spec_watch_lines(None, lines) is None,
    decreases lines.len(),
{
    if lines.len() > 0 {
        lemma_no_sentinel_no_discovery(lines.drop_first());
    }
}

/// The watcher.  It holds the endpoint discovered so far, if any.
pub struct EndpointWatcher {
    endpoint: Option<String>,
}

impl EndpointWatcher {
    /// The published endpoint (abstract view).
    pub closed spec fn endpoint(&self) -> Option<Seq<char>> {
        match self.endpoint {
            Some(u) => Some(u@),
            None => None,
        }
    }

    /// A fresh watcher has published nothing.
    pub fn new() -> (r: EndpointWatcher)
        ensures
            r.endpoint() is None,
    {
        EndpointWatcher { endpoint: None }
    }

    /// A copy of the published endpoint, for observers.
    pub fn discovered(&self) -> (r: Option<String>)
        ensures
            match r {
                Some(u) => self.endpoint() == Some(u@),
                None => self.endpoint() is None,
            },
    {
        match &self.endpoint {
            Some(u) => Some(u.clone()),
            None => None,
        }
    }

    /// Reads one line of the child's standard output.  Returns whether this
    /// very line published the endpoint.
    pub fn on_line(&mut self, line: &str) -> (published: bool)
        ensures
            final(self).endpoint() == spec_on_line(old(self).endpoint(), line@),
            published == (old(self).endpoint() is None && spec_sentinel_url(line@) is Some),
    {
        if self.endpoint.is_some() {
            return false;
        }
        let prefix = "EngineFS server started at ";
        if !str_starts_with(line, prefix) {
            return false;
        }
        let n = line.unicode_len();
        let p = prefix.unicode_len();
        let rest = line.substring_char(p, n);
        match parse_url(rest) {
            Some(u) => {
                self.endpoint = Some(u);
                true
            },
            None => false,
        }
    }
}

} // verus!
