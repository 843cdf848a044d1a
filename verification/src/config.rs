//! Session configuration.

use std::time::Duration;
use vstd::prelude::*;

verus! {

/// The duration that `Duration::from_secs(secs)` returns.
pub uninterp spec fn secs_duration(secs: u64) -> Duration;

/// `Duration::from_secs`: the duration of `secs` whole seconds.
#[verifier::external_body]
fn duration_from_secs(secs: u64) -> (d: Duration)
    ensures
        d == secs_duration(secs),
{
    Duration::from_secs(secs)
}

/// `Duration`'s `Clone` (it is `Copy`): the clone equals the value it was taken from.
pub assume_specification[ <Duration as Clone>::clone ](d: &Duration) -> (r: Duration)
    ensures
        r == *d,
;

/// Default initial per-stream window: 256 KiB.
pub const DEFAULT_INITIAL_STREAM_WINDOW: u32 = 256 * 1024;

/// Default maximum single-frame payload: 64 KiB.
pub const DEFAULT_MAX_FRAME_SIZE: u32 = 64 * 1024;

/// Default maximum concurrent streams.
pub const DEFAULT_MAX_STREAMS: usize = 1024;

/// Default keepalive interval, in seconds.
pub const DEFAULT_KEEPALIVE_INTERVAL_SECS: u64 = 30;

/// Default keepalive timeout, in seconds.
pub const DEFAULT_KEEPALIVE_TIMEOUT_SECS: u64 = 30;

/// Default open timeout, in seconds.
pub const DEFAULT_OPEN_TIMEOUT_SECS: u64 = 10;

/// Tunable parameters for a session.
///
/// Build via [`Config::builder`] or take [`Config::default`] for sensible
/// defaults. Once a session is constructed the configuration is immutable.
#[derive(Debug, Clone)]
pub struct Config {
    /// Initial credit (in bytes) granted to each newly-opened receive stream.
    /// Doubles as the maximum amount of pending unread data the session will
    /// buffer per stream before exerting back-pressure on the peer.
    pub initial_stream_window: u32,
    /// Hard upper bound on the payload of a single `Data` frame. Larger user
    /// writes are transparently fragmented.
    pub max_frame_size: u32,
    /// Hard cap on concurrently open streams. Attempts to exceed this raise
    /// [`Error::TooManyStreams`](crate::Error::TooManyStreams).
    pub max_streams: usize,
    /// Interval between automatic `Ping` frames. `None` disables keepalive.
    pub keepalive_interval: Option<Duration>,
    /// How long to wait for a `Ping` reply before declaring the session dead.
    pub keepalive_timeout: Duration,
    /// Maximum time `Session::open` will wait for the peer's `ACK`.
    pub open_timeout: Duration,
}

impl Config {
    /// The configuration that [`Config::default`] returns.
    pub open spec fn spec_default() -> Config {
        Config {
            initial_stream_window: DEFAULT_INITIAL_STREAM_WINDOW,
            max_frame_size: DEFAULT_MAX_FRAME_SIZE,
            max_streams: DEFAULT_MAX_STREAMS,
            keepalive_interval: Some(secs_duration(DEFAULT_KEEPALIVE_INTERVAL_SECS)),
            keepalive_timeout: secs_duration(DEFAULT_KEEPALIVE_TIMEOUT_SECS),
            open_timeout: secs_duration(DEFAULT_OPEN_TIMEOUT_SECS),
        }
    }

    /// The limits are all at least one.
    pub open spec fn wf(self) -> bool {
        &&& self.initial_stream_window >= 1
        &&& self.max_frame_size >= 1
        &&& self.max_streams >= 1
    }

    /// Start a new builder using the default configuration.
    pub fn builder() -> (b: ConfigBuilder)
        ensures
            b.spec_inner() == Config::spec_default(),
    {
        ConfigBuilder::default()
    }
}

impl Default for Config {
    fn default() -> (c: Self)
        ensures
            c == Config::spec_default(),
    {
        Self {
            initial_stream_window: DEFAULT_INITIAL_STREAM_WINDOW,
            max_frame_size: DEFAULT_MAX_FRAME_SIZE,
            max_streams: DEFAULT_MAX_STREAMS,
            keepalive_interval: Some(duration_from_secs(DEFAULT_KEEPALIVE_INTERVAL_SECS)),
            keepalive_timeout: duration_from_secs(DEFAULT_KEEPALIVE_TIMEOUT_SECS),
            open_timeout: duration_from_secs(DEFAULT_OPEN_TIMEOUT_SECS),
        }
    }
}

/// Fluent builder for [`Config`].
#[derive(Debug, Clone)]
pub struct ConfigBuilder {
    inner: Config,
}

impl Default for ConfigBuilder {
    fn default() -> (b: Self)
        ensures
            b.spec_inner() == Config::spec_default(),
    {
        ConfigBuilder { inner: Config::default() }
    }
}

/// `n`, raised to one when it is zero.
pub open spec fn at_least_one(n: int) -> int {
    if n == 0 {
        1
    } else {
        n
    }
}

impl ConfigBuilder {
    /// The configuration built so far.
    pub closed spec fn spec_inner(self) -> Config {
        self.inner
    }

    /// Override the initial per-stream window (bytes); zero becomes one.
    pub fn initial_stream_window(self, bytes: u32) -> (b: Self)
        ensures
            b.spec_inner() == (Config { initial_stream_window: at_least_one(bytes as int) as u32, ..self.spec_inner() }),
    {
        let mut s = self;
        s.inner.initial_stream_window = if bytes == 0 { 1 } else { bytes };
        s
    }

    /// Override the maximum single-frame payload (bytes); zero becomes one.
    pub fn max_frame_size(self, bytes: u32) -> (b: Self)
        ensures
            b.spec_inner() == (Config { max_frame_size: at_least_one(bytes as int) as u32, ..self.spec_inner() }),
    {
        let mut s = self;
        s.inner.max_frame_size = if bytes == 0 { 1 } else { bytes };
        s
    }

    /// Override the maximum number of concurrent streams; zero becomes one.
    pub fn max_streams(self, n: usize) -> (b: Self)
        ensures
            b.spec_inner() == (Config { max_streams: at_least_one(n as int) as usize, ..self.spec_inner() }),
    {
        let mut s = self;
        s.inner.max_streams = if n == 0 { 1 } else { n };
        s
    }

    /// Override the keepalive interval. `None` disables keepalive.
    pub fn keepalive_interval(self, every: Option<Duration>) -> (b: Self)
        ensures
            b.spec_inner() == (Config { keepalive_interval: every, ..self.spec_inner() }),
    {
        let mut s = self;
        s.inner.keepalive_interval = every;
        s
    }

    /// Override the keepalive timeout.
    pub fn keepalive_timeout(self, dur: Duration) -> (b: Self)
        ensures
            b.spec_inner() == (Config { keepalive_timeout: dur, ..self.spec_inner() }),
    {
        let mut s = self;
        s.inner.keepalive_timeout = dur;
        s
    }

    /// Override the open timeout.
    pub fn open_timeout(self, dur: Duration) -> (b: Self)
        ensures
            b.spec_inner() == (Config { open_timeout: dur, ..self.spec_inner() }),
    {
        let mut s = self;
        s.inner.open_timeout = dur;
        s
    }

    /// Finalize and return the constructed [`Config`].
    pub fn build(self) -> (c: Config)
        ensures
            c == self.spec_inner(),
    {
        self.inner
    }
}

/// Every configuration that comes out of the builder has all its limits at
/// least one, whatever the setters were given.
pub proof fn lemma_builder_keeps_limits_positive(b: ConfigBuilder, bytes: u32, n: usize)
    requires
        b.spec_inner().wf(),
    ensures
        (Config { initial_stream_window: at_least_one(bytes as int) as u32, ..b.spec_inner() }).wf(),
        (Config { max_frame_size: at_least_one(bytes as int) as u32, ..b.spec_inner() }).wf(),
        (Config { max_streams: at_least_one(n as int) as usize, ..b.spec_inner() }).wf(),
        Config::spec_default().wf(),
{
}

} // verus!
