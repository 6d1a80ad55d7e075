//! The shared error type of the crawl pipeline.
//!
//! Every fallible step reports a [`CrawlError`]: a kind that callers can
//! branch on programmatically, plus a human-readable cause string.

use vstd::prelude::*;

verus! {

/// Which stage of the pipeline failed.
#[derive(Clone, Copy, PartialEq, Eq, Structural, Debug)]
pub enum ErrorKind {
    /// Visitor-session acquisition failed with a non-success status.
    Auth,
    /// Feed retrieval or structured extraction of its response failed.
    Fetch,
    /// A media download failed.
    Download,
    /// A payload or timestamp could not be parsed.
    Parse,
}

/// A failure of one pipeline step: a kind plus a human-readable cause.
#[derive(Debug)]
pub struct CrawlError {
    pub kind: ErrorKind,
    pub cause: String,
}

/// The fixed prefix that [`CrawlError::describe`] puts before the cause.
pub open spec fn kind_prefix(k: ErrorKind) -> Seq<char> {
    match k {
        ErrorKind::Auth => "auth error: "@,
        ErrorKind::Fetch => "fetch error: "@,
        ErrorKind::Download => "download error: "@,
        ErrorKind::Parse => "parse error: "@,
    }
}

impl CrawlError {
    /// The full message [`CrawlError::describe`] returns.
    pub open spec fn spec_describe(self) -> Seq<char> {
        kind_prefix(self.kind) + self.cause@
    }

    pub fn auth(cause: &str) -> (e: CrawlError)
        ensures
            e.kind == ErrorKind::Auth,
            e.cause@ == cause@,
    {
        CrawlError { kind: ErrorKind::Auth, cause: String::from_str(cause) }
    }

    pub fn fetch(cause: &str) -> (e: CrawlError)
        ensures
            e.kind == ErrorKind::Fetch,
            e.cause@ == cause@,
    {
        CrawlError { kind: ErrorKind::Fetch, cause: String::from_str(cause) }
    }

    pub fn download(cause: &str) -> (e: CrawlError)
        ensures
            e.kind == ErrorKind::Download,
            e.cause@ == cause@,
    {
        CrawlError { kind: ErrorKind::Download, cause: String::from_str(cause) }
    }

    pub fn parse(cause: &str) -> (e: CrawlError)
        ensures
            e.kind == ErrorKind::Parse,
            e.cause@ == cause@,
    {
        CrawlError { kind: ErrorKind::Parse, cause: String::from_str(cause) }
    }

    /// A loggable message: a fixed prefix naming the kind, then the cause.
    pub fn describe(&self) -> (r: String)
        ensures
            r@ == self.spec_describe(),
    {
        let mut r = match self.kind {
            ErrorKind::Auth => String::from_str("auth error: "),
            ErrorKind::Fetch => String::from_str("fetch error: "),
            ErrorKind::Download => String::from_str("download error: "),
            ErrorKind::Parse => String::from_str("parse error: "),
        };
        r.append(self.cause.as_str());
        r
    }
}

} // verus!
