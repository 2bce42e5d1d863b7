//! The relay's configuration: broker address, topic, source URL, tick
//! interval and destination filename, with the validity rules that are
//! checked once at startup (never per tick).

use vstd::prelude::*;

use vstd::string::StrSliceExecFns;

verus! {

/// Broker list used when none is given on the command line.
pub const DEFAULT_BROKERS: &'static str = "localhost:9092";

/// Destination file for the local copy of each snapshot.
pub const DEFAULT_FILENAME: &'static str = "image.png";

/// Tick period of the scheduler, in milliseconds.
pub const DEFAULT_INTERVAL_MS: u64 = 60000;

/// How long the broker client waits for a delivery acknowledgement before
/// reporting the message as failed, in milliseconds.
pub const DELIVERY_TIMEOUT_MS: u64 = 5000;

/// A minimally well-formed absolute HTTP(S) URL: the `http://` or
/// `https://` scheme followed by at least one further character.
pub open spec fn url_is_http(url: Seq<char>) -> bool {
    ||| (url.len() > 7 && url[0] == 'h' && url[1] == 't' && url[2] == 't' && url[3] == 'p'
        && url[4] == ':' && url[5] == '/' && url[6] == '/')
    ||| (url.len() > 8 && url[0] == 'h' && url[1] == 't' && url[2] == 't' && url[3] == 'p'
        && url[4] == 's' && url[5] == ':' && url[6] == '/' && url[7] == '/')
}

/// Whether a source URL is acceptable: an absolute HTTP(S) URL with a
/// nonempty remainder after the scheme.
pub fn validate_url(url: &str) -> (r: bool)
    ensures
        r == url_is_http(url@),
{
    let n = url.unicode_len();
    if n > 7 && url.get_char(0) == 'h' && url.get_char(1) == 't' && url.get_char(2) == 't'
        && url.get_char(3) == 'p' {
        if url.get_char(4) == ':' && url.get_char(5) == '/' && url.get_char(6) == '/' {
            true
        } else {
            n > 8 && url.get_char(4) == 's' && url.get_char(5) == ':' && url.get_char(6) == '/'
                && url.get_char(7) == '/'
        }
    } else {
        false
    }
}

/// Immutable configuration of the relay, created once at startup and read
/// only thereafter.
#[derive(Debug)]
pub struct Config {
    /// Broker list, in `host:port` form.
    pub brokers: String,
    /// Destination topic on the broker.
    pub topic: String,
    /// Source URL fetched on every tick.
    pub snapshot_url: String,
    /// Tick period, in milliseconds.
    pub interval_ms: u64,
    /// Destination file for the local copy.
    pub filename: String,
}

impl Config {
    /// Validity, established once at construction: nonempty broker list,
    /// topic and filename, a well-formed HTTP(S) source URL, and a positive
    /// tick interval.
    pub open spec fn wf(self) -> bool {
        &&& self.brokers@.len() > 0
        &&& self.topic@.len() > 0
        &&& url_is_http(self.snapshot_url@)
        &&& self.interval_ms > 0
        &&& self.filename@.len() > 0
    }

    /// Build a configuration, accepting it exactly when every field is
    /// valid; an accepted configuration carries the given values unchanged.
    pub fn new(
        brokers: String,
        topic: String,
        snapshot_url: String,
        interval_ms: u64,
        filename: String,
    ) -> (r: Option<Config>)
        ensures
            r matches Some(c) ==> c.wf() && c.brokers@ == brokers@ && c.topic@ == topic@
                && c.snapshot_url@ == snapshot_url@ && c.interval_ms == interval_ms
                && c.filename@ == filename@,
            r is None <==> !(brokers@.len() > 0 && topic@.len() > 0 && url_is_http(snapshot_url@)
                && interval_ms > 0 && filename@.len() > 0),
    {
        let ok = !brokers.as_str().is_empty() && !topic.as_str().is_empty() && validate_url(
            snapshot_url.as_str(),
        ) && interval_ms > 0 && !filename.as_str().is_empty();
        if ok {
            Some(Config { brokers, topic, snapshot_url, interval_ms, filename })
        } else {
            None
        }
    }
}

} // verus!
