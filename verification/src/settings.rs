//! Run configuration.

use vstd::prelude::*;
use vstd::string::*;

verus! {

/// Number of simultaneous probes when none is configured.
pub const DEFAULT_THREADS: usize = 30;

/// Seconds granted to one probe when none is configured.
pub const DEFAULT_TIMEOUT: u64 = 5;

/// The `User-Agent` sent when none is configured.
pub open spec fn default_useragent() -> Seq<char> {
    seq!['u', 'r', 'l', 'p', 'r', 'o', 'b', 'e']
}

/// What a run is configured with. It is fixed for the lifetime of the run.
#[derive(Clone, Debug, PartialEq, Eq)]
pub struct Settings {
    /// Only report URLs that could not be reached with a 200.
    pub quiet: bool,
    /// Number of simultaneous probes; at least one.
    pub threads: usize,
    /// Seconds to wait before giving up on a URL.
    pub timeout: u64,
    /// The `User-Agent` header of every request.
    pub useragent: String,
}

impl Settings {
    /// A configuration is usable when it allows at least one probe in flight.
    pub open spec fn wf(&self) -> bool {
        self.threads >= 1
    }

    /// Whether the pipeline accepts this configuration.
    pub fn is_valid(&self) -> (ok: bool)
        ensures
            ok == self.wf(),
    {
        self.threads >= 1
    }
}

impl Default for Settings {
    fn default() -> (s: Settings)
        ensures
            !s.quiet,
            s.threads == DEFAULT_THREADS,
            s.timeout == DEFAULT_TIMEOUT,
            s.useragent@ == default_useragent(),
            s.wf(),
    {
        proof {
            reveal_strlit("urlprobe");
        }
        let useragent = String::from_str("urlprobe");
        assert(useragent@ =~= default_useragent());
        Settings { quiet: false, threads: DEFAULT_THREADS, timeout: DEFAULT_TIMEOUT, useragent }
    }
}

} // verus!
