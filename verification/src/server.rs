//! What a scrape decides: when its two streams are drained, what the answer
//! to a request is, and what a reload leaves in place.

use crate::config::Config;
use crate::matcher::{CompileError, MatchableConfig};
use vstd::prelude::*;
use vstd::string::{StrSliceExecFns, StringSliceAdditionalSpecFns};

verus! {

/// The seconds after which a request is given up.
pub const TIMEOUT_SECONDS: u64 = 10;

/// The content type of the metrics.
pub const METRICS_CONTENT_TYPE: &'static str = "text/plain; version=0.0.4";

/// The content type of the answer to a failed scrape.
pub const ERROR_CONTENT_TYPE: &'static str = "text/plain; charset=utf-8";

/// The body of the answer to a failed scrape.
pub const ERROR_BODY: &'static str = "Internal Server Error";

/// The page at `/`.
pub const HOMEPAGE: &'static str =
    "<h1>cgroups_exporter</h1>\n<p>This is a Prometheus exporter for cgroups and processes.</p>\n<p>Visit the <a href='/metrics'>metrics endpoint</a> to get started.</p>\n";

/// The page at `/`.
pub fn homepage() -> (r: &'static str)
    ensures
        r@ == HOMEPAGE@,
{
    HOMEPAGE
}

/// One of the two streams that a scrape drains.
#[derive(Debug, Clone, Copy, PartialEq, Eq, Structural)]
pub enum Source {
    Cgroups,
    Processes,
}

/// Which of the two streams of a scrape have ended.
#[derive(Debug, Clone, Copy, PartialEq, Eq, Structural)]
pub struct ScrapeProgress {
    pub cgroups_done: bool,
    pub procs_done: bool,
}

impl ScrapeProgress {
    /// The start of a scrape: no stream has ended.
    pub fn new() -> (r: ScrapeProgress)
        ensures
            r == (ScrapeProgress { cgroups_done: false, procs_done: false }),
    {
        ScrapeProgress { cgroups_done: false, procs_done: false }
    }

    /// Whether a stream has ended.
    pub open spec fn ended(&self, source: Source) -> bool {
        match source {
            Source::Cgroups => self.cgroups_done,
            Source::Processes => self.procs_done,
        }
    }

    /// Whether a stream is still asked for groups: it is until it has ended.
    pub fn polls(&self, source: Source) -> (r: bool)
        ensures
            r == !self.ended(source),
    {
        match source {
            Source::Cgroups => !self.cgroups_done,
            Source::Processes => !self.procs_done,
        }
    }

    /// Notes that a stream has ended. The other stream is as it was.
    pub fn stream_ended(&mut self, source: Source)
        ensures
            final(self).ended(source),
            forall|other: Source| other != source ==> final(self).ended(other) == old(self).ended(other),
    {
        match source {
            Source::Cgroups => {
                self.cgroups_done = true;
            },
            Source::Processes => {
                self.procs_done = true;
            },
        }
    }

    /// Whether the scrape has drained both streams: only then is the output
    /// finished.
    pub fn is_finished(&self) -> (r: bool)
        ensures
            r == (self.ended(Source::Cgroups) && self.ended(Source::Processes)),
    {
        self.cgroups_done && self.procs_done
    }
}

/// The answer to a request for the metrics.
#[derive(Debug, Clone, PartialEq, Eq)]
pub struct ScrapeResponse {
    pub status: u16,
    pub content_type: &'static str,
    pub body: Vec<u8>,
}

/// The answer to a request for the metrics: the rendered text with status
/// 200, or, where rendering failed, status 500 with a body that says no
/// more than that.
pub fn metrics_response(rendered: Option<Vec<u8>>) -> (r: ScrapeResponse)
    ensures
        match rendered {
            Some(body) => r.status == 200 && r.content_type@ == METRICS_CONTENT_TYPE@ && r.body@
                == body@,
            None => r.status == 500 && r.content_type@ == ERROR_CONTENT_TYPE@ && r.body@
                == ERROR_BODY.spec_bytes(),
        },
{
    match rendered {
        Some(body) => ScrapeResponse { status: 200, content_type: METRICS_CONTENT_TYPE, body },
        None => ScrapeResponse {
            status: 500,
            content_type: ERROR_CONTENT_TYPE,
            body: ERROR_BODY.as_bytes_vec(),
        },
    }
}

/// Takes a new configuration in place of the active one. The rules are
/// replaced all at once or not at all: where the new configuration
/// compiles, the active rules are its rules; where it does not, the active
/// rules are what they were, and the error says why.
pub fn reload(active: &mut MatchableConfig, candidate: Config) -> (r: Result<(), CompileError>)
    ensures
        r is Ok <==> crate::matcher::config_compiles(candidate),
        r is Ok ==> final(active).compiled_from(candidate),
        r matches Err(error) ==> *final(active) == *old(active) && crate::matcher::names_first_fault(
            error,
            candidate,
        ),
{
    match MatchableConfig::try_from(candidate) {
        Ok(compiled) => {
            *active = compiled;
            Ok(())
        },
        Err(error) => Err(error),
    }
}

} // verus!
