//! Politeness and retry policy of the HTTP client.
//!
//! The client itself sends requests and sleeps; what it decides (how long to
//! pause before a request, whether a failed attempt is tried again and after
//! how long) is computed here from plain values.

use vstd::prelude::*;

verus! {

/// Redirects followed for one request.
pub const MAX_REDIRECTS: usize = 10;

/// Default number of attempts for one request, the first included.
pub const DEFAULT_RETRY_COUNT: u32 = 5;

/// Default pause between two requests, in seconds.
pub const DEFAULT_DELAY_SECS: u64 = 4;

/// Default time allowed for one request, in seconds.
pub const DEFAULT_TIMEOUT_SECS: u64 = 30;

/// The user agent sent when none is configured.
pub open spec fn default_user_agent() -> Seq<char> {
    "Mozilla/5.0 (compatible; rdrscrape/0.1; +https://github.com/rdrscrape)"@
}

/// Seconds to wait after each failed attempt when none are configured.
pub open spec fn default_backoff() -> Seq<u64> {
    seq![1u64, 2u64, 4u64, 8u64]
}

/// Seconds to wait after each attempt that the server answered with 429.
pub open spec fn rate_limit_backoff() -> Seq<u64> {
    seq![30u64, 60u64, 90u64, 120u64]
}

/// The doubling schedule 1, 2, 4, 8, 16, 16, ... of `n` waits.
pub open spec fn doubling_backoff(n: nat) -> Seq<u64> {
    Seq::new(
        n,
        |i: int|
            if i == 0 {
                1u64
            } else if i == 1 {
                2u64
            } else if i == 2 {
                4u64
            } else if i == 3 {
                8u64
            } else {
                16u64
            },
    )
}

/// The wait after attempt number `attempt` (from 0): the schedule's entry,
/// its last entry once the schedule is used up, `fallback` if it is empty.
pub open spec fn wait_at(schedule: Seq<u64>, attempt: nat, fallback: u64) -> u64 {
    if attempt < schedule.len() {
        schedule[attempt as int]
    } else if schedule.len() > 0 {
        schedule.last()
    } else {
        fallback
    }
}

/// A status that is worth another attempt: a server error, or 429.
pub open spec fn retryable_status(status: u16) -> bool {
    500 <= status <= 599 || status == 429
}

/// What to do after an attempt.
#[derive(Debug, Clone, Copy, PartialEq, Eq, Structural)]
pub enum Retry {
    /// Hand the response or the error to the caller.
    Deliver,
    /// Sleep for this many seconds, then try again.
    WaitSecs(u64),
}

/// What a builder or a client is set to.
pub ghost struct ClientSettings {
    pub user_agent: Option<Seq<char>>,
    pub delay_secs: u64,
    pub timeout_secs: u64,
    pub retry_count: u32,
    pub backoff_secs: Seq<u64>,
}

/// Settings of a `PoliteClient` in the making.
#[derive(Debug)]
pub struct PoliteClientBuilder {
    user_agent: Option<String>,
    delay_secs: u64,
    timeout_secs: u64,
    retry_count: u32,
    retry_backoff_secs: Vec<u64>,
}

/// The policy of one client: pause between requests, attempts per request
/// and the waits between them.
#[derive(Debug)]
pub struct PoliteClient {
    user_agent: String,
    delay_secs: u64,
    timeout_secs: u64,
    retry_count: u32,
    backoff_secs: Vec<u64>,
}

pub open spec fn default_settings() -> ClientSettings {
    ClientSettings {
        user_agent: None,
        delay_secs: DEFAULT_DELAY_SECS,
        timeout_secs: DEFAULT_TIMEOUT_SECS,
        retry_count: DEFAULT_RETRY_COUNT,
        backoff_secs: default_backoff(),
    }
}

/// What `build` makes of a builder's settings: the default user agent where
/// none is set, and the doubling schedule where the list of waits is empty.
pub open spec fn built(s: ClientSettings) -> ClientSettings {
    ClientSettings {
        user_agent: Some(
            match s.user_agent {
                Some(ua) => ua,
                None => default_user_agent(),
            },
        ),
        backoff_secs: if s.backoff_secs.len() == 0 {
            doubling_backoff(
                if s.retry_count >= 1 {
                    (s.retry_count - 1) as nat
                } else {
                    0
                },
            )
        } else {
            s.backoff_secs
        },
        ..s
    }
}

/// The decision after an attempt that got a response with `status`.
pub open spec fn decision_for_status(s: ClientSettings, attempt: u32, status: u16) -> Retry {
    if retryable_status(status) && attempt + 1 < s.retry_count {
        if status == 429 {
            Retry::WaitSecs(wait_at(rate_limit_backoff(), attempt as nat, 60))
        } else {
            Retry::WaitSecs(wait_at(s.backoff_secs, attempt as nat, 1))
        }
    } else {
        Retry::Deliver
    }
}

/// The decision after an attempt that failed in transport.
pub open spec fn decision_for_failure(
    s: ClientSettings,
    attempt: u32,
    timed_out: bool,
    connect_failed: bool,
) -> Retry {
    if (timed_out || connect_failed) && attempt + 1 < s.retry_count {
        Retry::WaitSecs(wait_at(s.backoff_secs, attempt as nat, 1))
    } else {
        Retry::Deliver
    }
}

/// Nanoseconds still to wait before the next request.
pub open spec fn pause_nanos(delay_secs: u64, elapsed: Option<(u64, u32)>) -> int {
    match elapsed {
        None => 0,
        Some(e) => {
            let rest = delay_secs * 1_000_000_000 - (e.0 * 1_000_000_000 + e.1);
            if rest > 0 {
                rest
            } else {
                0
            }
        },
    }
}

fn wait_in(schedule: &Vec<u64>, attempt: u32, fallback: u64) -> (w: u64)
    ensures
        w == wait_at(schedule@, attempt as nat, fallback),
{
    let n = schedule.len();
    if (attempt as usize) < n {
        schedule[attempt as usize]
    } else if n > 0 {
        schedule[n - 1]
    } else {
        fallback
    }
}

impl Default for PoliteClientBuilder {
    fn default() -> (b: Self)
        ensures
            b@ == default_settings(),
    {
        let mut waits: Vec<u64> = Vec::new();
        waits.push(1);
        waits.push(2);
        waits.push(4);
        waits.push(8);
        assert(waits@ =~= default_backoff());
        PoliteClientBuilder {
            user_agent: None,
            delay_secs: DEFAULT_DELAY_SECS,
            timeout_secs: DEFAULT_TIMEOUT_SECS,
            retry_count: DEFAULT_RETRY_COUNT,
            retry_backoff_secs: waits,
        }
    }
}

impl PoliteClientBuilder {
    pub closed spec fn view(&self) -> ClientSettings {
        ClientSettings {
            user_agent: match self.user_agent {
                Some(ua) => Some(ua@),
                None => None,
            },
            delay_secs: self.delay_secs,
            timeout_secs: self.timeout_secs,
            retry_count: self.retry_count,
            backoff_secs: self.retry_backoff_secs@,
        }
    }

    /// Sets the user agent to send.
    pub fn user_agent(self, ua: String) -> (b: Self)
        ensures
            b@ == (ClientSettings { user_agent: Some(ua@), ..self@ }),
    {
        let mut b = self;
        b.user_agent = Some(ua);
        b
    }

    /// Sets the pause between two requests, in seconds.
    pub fn delay_secs(self, secs: u64) -> (b: Self)
        ensures
            b@ == (ClientSettings { delay_secs: secs, ..self@ }),
    {
        let mut b = self;
        b.delay_secs = secs;
        b
    }

    /// Sets the time allowed for one request, in seconds.
    pub fn timeout_secs(self, secs: u64) -> (b: Self)
        ensures
            b@ == (ClientSettings { timeout_secs: secs, ..self@ }),
    {
        let mut b = self;
        b.timeout_secs = secs;
        b
    }

    /// Sets the number of attempts for one request; at least one is made.
    pub fn retry_count(self, n: u32) -> (b: Self)
        ensures
            b@ == (ClientSettings {
                retry_count: if n < 1 {
                    1
                } else {
                    n
                },
                ..self@
            }),
    {
        let mut b = self;
        b.retry_count = if n < 1 {
            1
        } else {
            n
        };
        b
    }

    /// Sets the waits after failed attempts, in seconds. A schedule shorter
    /// than the attempts repeats its last wait; an empty one stands for the
    /// doubling schedule.
    pub fn retry_backoff_secs(self, secs: Vec<u64>) -> (b: Self)
        ensures
            b@ == (ClientSettings { backoff_secs: secs@, ..self@ }),
    {
        let mut b = self;
        b.retry_backoff_secs = secs;
        b
    }
}

impl PoliteClientBuilder {
    /// The client policy for these settings.
    pub fn build(self) -> (c: PoliteClient)
        ensures
            c@ == built(self@),
    {
        let user_agent = match self.user_agent {
            Some(ua) => ua,
            None => "Mozilla/5.0 (compatible; rdrscrape/0.1; +https://github.com/rdrscrape)".to_string(),
        };
        let backoff_secs = if self.retry_backoff_secs.len() == 0 {
            let n: u32 = if self.retry_count >= 1 {
                self.retry_count - 1
            } else {
                0
            };
            let mut waits: Vec<u64> = Vec::new();
            let mut i: u32 = 0;
            while i < n
                invariant
                    i <= n,
                    waits@ == doubling_backoff(i as nat),
                decreases n - i,
            {
                let w: u64 = if i == 0 {
                    1
                } else if i == 1 {
                    2
                } else if i == 2 {
                    4
                } else if i == 3 {
                    8
                } else {
                    16
                };
                waits.push(w);
                assert(waits@ =~= doubling_backoff((i + 1) as nat));
                i += 1;
            }
            waits
        } else {
            self.retry_backoff_secs
        };
        PoliteClient {
            user_agent,
            delay_secs: self.delay_secs,
            timeout_secs: self.timeout_secs,
            retry_count: self.retry_count,
            backoff_secs,
        }
    }
}

impl PoliteClient {
    pub closed spec fn view(&self) -> ClientSettings {
        ClientSettings {
            user_agent: Some(self.user_agent@),
            delay_secs: self.delay_secs,
            timeout_secs: self.timeout_secs,
            retry_count: self.retry_count,
            backoff_secs: self.backoff_secs@,
        }
    }

    /// A builder with the default settings.
    pub fn builder() -> (b: PoliteClientBuilder)
        ensures
            b@ == default_settings(),
    {
        PoliteClientBuilder::default()
    }

    /// The policy with the default settings.
    pub fn new() -> (c: PoliteClient)
        ensures
            c@ == built(default_settings()),
    {
        PoliteClientBuilder::default().build()
    }

    /// The user agent to send.
    pub fn user_agent(&self) -> (ua: &str)
        ensures
            Some(ua@) == self@.user_agent,
    {
        self.user_agent.as_str()
    }

    /// The pause between two requests, in seconds.
    pub fn delay_secs(&self) -> (secs: u64)
        ensures
            secs == self@.delay_secs,
    {
        self.delay_secs
    }

    /// The time allowed for one request, in seconds.
    pub fn timeout_secs(&self) -> (secs: u64)
        ensures
            secs == self@.timeout_secs,
    {
        self.timeout_secs
    }

    /// The number of attempts for one request.
    pub fn retry_count(&self) -> (n: u32)
        ensures
            n == self@.retry_count,
    {
        self.retry_count
    }

    /// How long to sleep before the next request, as whole seconds and
    /// nanoseconds, when the last one was sent `elapsed` (seconds,
    /// nanoseconds) ago; nothing before the first request.
    pub fn pause_before_request(&self, elapsed: Option<(u64, u32)>) -> (pause: (u64, u32))
        requires
            elapsed matches Some(e) ==> e.1 < 1_000_000_000,
        ensures
            pause.1 < 1_000_000_000,
            pause.0 * 1_000_000_000 + pause.1 == pause_nanos(self@.delay_secs, elapsed),
    {
        match elapsed {
            None => (0, 0),
            Some((secs, nanos)) => {
                if secs >= self.delay_secs {
                    (0, 0)
                } else if nanos == 0 {
                    (self.delay_secs - secs, 0)
                } else {
                    (self.delay_secs - secs - 1, 1_000_000_000 - nanos)
                }
            },
        }
    }

    /// What to do after attempt number `attempt` (from 0) got a response
    /// with `status`: a server error or 429 is tried again while attempts
    /// are left, 429 after a longer wait.
    pub fn after_response(&self, attempt: u32, status: u16) -> (r: Retry)
        ensures
            r == decision_for_status(self@, attempt, status),
    {
        let retryable = (500 <= status && status <= 599) || status == 429;
        if retryable && attempt < self.retry_count && attempt + 1 < self.retry_count {
            if status == 429 {
                let mut waits: Vec<u64> = Vec::new();
                waits.push(30);
                waits.push(60);
                waits.push(90);
                waits.push(120);
                assert(waits@ =~= rate_limit_backoff());
                Retry::WaitSecs(wait_in(&waits, attempt, 60))
            } else {
                Retry::WaitSecs(wait_in(&self.backoff_secs, attempt, 1))
            }
        } else {
            Retry::Deliver
        }
    }

    /// What to do after attempt number `attempt` (from 0) failed in
    /// transport: a timeout or a failed connection is tried again while
    /// attempts are left.
    pub fn after_failure(&self, attempt: u32, timed_out: bool, connect_failed: bool) -> (r: Retry)
        ensures
            r == decision_for_failure(self@, attempt, timed_out, connect_failed),
    {
        if (timed_out || connect_failed) && attempt < self.retry_count && attempt + 1
            < self.retry_count {
            Retry::WaitSecs(wait_in(&self.backoff_secs, attempt, 1))
        } else {
            Retry::Deliver
        }
    }
}

} // verus!
