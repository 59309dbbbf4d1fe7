//! Wait strategies: each one is a readiness test with a decision procedure
//! "is the target ready now?" over an observation of the container, and a
//! poll cadence.
//!
//! Decision procedures are pure: they look only at the observation handed in
//! (current time, accumulated logs, health status, exit code), never at the
//! runtime itself.

use vstd::prelude::*;
use crate::digits::all_dec_digits;
use crate::digits::dec_value;
use crate::digits::is_dec_digit;
use crate::digits::lemma_dec_value_monotone;
use crate::errors::HealthStatus;
use crate::errors::WaitFailure;

verus! {

/// Poll cadence used when a strategy does not declare its own.
pub const DEFAULT_POLL_INTERVAL_NS: u64 = 100_000_000;

/// Which accumulated output stream a log strategy scans.
#[derive(Clone, Copy, Debug, PartialEq, Eq, Structural)]
pub enum LogStream {
    StdOut,
    StdErr,
    StdOutOrErr,
}

/// Wait until a message has appeared a number of times in a log stream.
#[derive(Clone, Debug, PartialEq, Eq)]
pub struct RsLogWaitStrategy {
    pub stream: LogStream,
    /// The message looked for; it occupies its UTF-8 bytes in the stream.
    pub message: String,
    /// How often the message must appear; at least once by default.
    pub times: usize,
}

impl RsLogWaitStrategy {
    /// The bytes the message occupies in a log stream.
    pub open spec fn message_bytes(&self) -> Seq<u8> {
        vstd::utf8::encode_utf8(self.message@)
    }
}

/// Wait until the runtime reports the container healthy.
#[derive(Clone, Copy, Debug, PartialEq, Eq, Structural)]
pub struct RsHealthWaitStrategy {
    pub poll_interval_ns: Option<u64>,
}

/// Wait until the container's process has exited, optionally with one
/// specific exit code.
#[derive(Clone, Copy, Debug, PartialEq, Eq, Structural)]
pub struct RsExitWaitStrategy {
    pub poll_interval_ns: Option<u64>,
    pub expected_code: Option<i64>,
}

/// One readiness test for a container.
#[derive(Clone, Debug, PartialEq, Eq)]
pub enum RsWaitFor {
    /// Ready immediately.
    Nothing,
    /// Ready once the given wall-clock time has passed since start.
    Duration { length_ns: u64 },
    Log { strategy: RsLogWaitStrategy },
    Healthcheck { strategy: RsHealthWaitStrategy },
    Exit { strategy: RsExitWaitStrategy },
    /// Like `Duration`, with the length read in milliseconds from a variable
    /// of the test-process environment when the strategies are resolved.
    EnvVarDelay { name: String },
}

/// What one poll of a strategy concluded.
#[derive(Clone, Copy, Debug, PartialEq, Eq, Structural)]
pub enum PollDecision {
    Ready,
    NotYet,
    Failed { failure: WaitFailure },
}

/// A snapshot of the container as seen at one poll: the current time, the
/// output accumulated since start, and what the runtime reports.
#[derive(Clone, Debug, PartialEq, Eq)]
pub struct WaitObservation {
    pub now_ns: u64,
    pub stdout: Vec<u8>,
    pub stderr: Vec<u8>,
    pub health: HealthStatus,
    pub exit_code: Option<i64>,
}

// ---------------------------------------------------------------------------
// Counting message occurrences in a log stream.
// ---------------------------------------------------------------------------

/// The needle occurs in the haystack at position `i`.
pub open spec fn matches_at(hay: Seq<u8>, needle: Seq<u8>, i: int) -> bool {
    0 <= i && i + needle.len() <= hay.len() && hay.subrange(i, i + needle.len()) == needle
}

/// How many positions `< end` the needle occurs at.
pub open spec fn count_matches_upto(hay: Seq<u8>, needle: Seq<u8>, end: int) -> nat
    decreases end,
{
    if end <= 0 {
        0
    } else {
        count_matches_upto(hay, needle, end - 1) + (if matches_at(hay, needle, end - 1) {
            1nat
        } else {
            0nat
        })
    }
}

/// How often the needle occurs in the haystack (occurrences may overlap).
pub open spec fn count_matches(hay: Seq<u8>, needle: Seq<u8>) -> nat {
    count_matches_upto(hay, needle, hay.len() - needle.len() + 1)
}

fn bytes_match_at(hay: &[u8], needle: &[u8], i: usize) -> (r: bool)
    requires
        i + needle@.len() <= hay@.len(),
        hay@.len() <= usize::MAX,
    ensures
        r == matches_at(hay@, needle@, i as int),
{
    let n = needle.len();
    let mut j: usize = 0;
    while j < n
        invariant
            n == needle@.len(),
            i + n <= hay@.len(),
            hay@.len() <= usize::MAX,
            j <= n,
            forall|k: int| 0 <= k < j ==> hay@[i + k] == needle@[k],
        decreases n - j,
    {
        if hay[i + j] != needle[j] {
            proof {
                assert(hay@.subrange(i as int, i + needle@.len())[j as int] == hay@[i + j]);
            }
            return false;
        }
        j += 1;
    }
    proof {
        assert(hay@.subrange(i as int, i + needle@.len()) =~= needle@);
    }
    true
}

/// Counts the occurrences of a non-empty needle in the haystack.
pub fn count_occurrences(hay: &[u8], needle: &[u8]) -> (n: usize)
    requires
        needle@.len() >= 1,
    ensures
        n == count_matches(hay@, needle@),
{
    if hay.len() < needle.len() {
        return 0;
    }
    let last = hay.len() - needle.len();
    let mut n: usize = 0;
    let mut i: usize = 0;
    while i <= last
        invariant
            needle@.len() >= 1,
            needle@.len() <= hay@.len(),
            hay@.len() <= usize::MAX,
            last == hay@.len() - needle@.len(),
            i <= last + 1,
            n <= i,
            n == count_matches_upto(hay@, needle@, i as int),
        decreases last + 1 - i,
    {
        if bytes_match_at(hay, needle, i) {
            n += 1;
        }
        i += 1;
    }
    n
}

// ---------------------------------------------------------------------------
// Decision procedures.
// ---------------------------------------------------------------------------

/// How often the strategy's message occurs in the stream it scans; for the
/// combined stream the occurrences of both streams are added.
pub open spec fn spec_log_count(strategy: RsLogWaitStrategy, obs: WaitObservation) -> nat {
    match strategy.stream {
        LogStream::StdOut => count_matches(obs.stdout@, strategy.message_bytes()),
        LogStream::StdErr => count_matches(obs.stderr@, strategy.message_bytes()),
        LogStream::StdOutOrErr => count_matches(obs.stdout@, strategy.message_bytes())
            + count_matches(obs.stderr@, strategy.message_bytes()),
    }
}

/// What one poll of the given strategy concludes on the given observation,
/// for a container started at `start_ns`.
///
/// An unresolved `EnvVarDelay` never reports ready; the engine only accepts
/// resolved strategies (see `resolve`).
pub open spec fn spec_decide(w: RsWaitFor, start_ns: u64, obs: WaitObservation) -> PollDecision {
    match w {
        RsWaitFor::Nothing => PollDecision::Ready,
        RsWaitFor::Duration { length_ns } => if obs.now_ns >= start_ns + length_ns {
            PollDecision::Ready
        } else {
            PollDecision::NotYet
        },
        RsWaitFor::Log { strategy } => if spec_log_count(strategy, obs) >= strategy.times {
            PollDecision::Ready
        } else {
            PollDecision::NotYet
        },
        RsWaitFor::Healthcheck { strategy } => match obs.health {
            HealthStatus::Healthy => PollDecision::Ready,
            HealthStatus::Unhealthy => PollDecision::Failed { failure: WaitFailure::Unhealthy },
            _ => PollDecision::NotYet,
        },
        RsWaitFor::Exit { strategy } => match obs.exit_code {
            None => PollDecision::NotYet,
            Some(code) => match strategy.expected_code {
                None => PollDecision::Ready,
                Some(expected) => if code == expected {
                    PollDecision::Ready
                } else {
                    PollDecision::Failed {
                        failure: WaitFailure::UnexpectedExitCode { code },
                    }
                },
            },
        },
        RsWaitFor::EnvVarDelay { .. } => PollDecision::NotYet,
    }
}

/// No needle can occur more often than there are positions before `end`.
proof fn lemma_count_upto_bound(hay: Seq<u8>, needle: Seq<u8>, end: int)
    ensures
        end <= 0 ==> count_matches_upto(hay, needle, end) == 0,
        end > 0 ==> count_matches_upto(hay, needle, end) <= end,
    decreases end,
{
    if end > 0 {
        lemma_count_upto_bound(hay, needle, end - 1);
    }
}

/// With an empty needle every position matches, so the count up to `end`
/// is `end` itself.
proof fn lemma_count_empty_needle(hay: Seq<u8>, end: int)
    requires
        0 <= end <= hay.len() + 1,
    ensures
        count_matches_upto(hay, Seq::<u8>::empty(), end) == end,
    decreases end,
{
    if end > 0 {
        lemma_count_empty_needle(hay, end - 1);
        assert(hay.subrange(end - 1, end - 1) =~= Seq::<u8>::empty());
    }
}

fn count_in_stream(hay: &Vec<u8>, needle: &[u8]) -> (n: u128)
    ensures
        n == count_matches(hay@, needle@),
        n <= usize::MAX as u128 + 1,
{
    proof {
        lemma_count_upto_bound(hay@, needle@, hay@.len() - needle@.len() + 1);
    }
    if needle.len() == 0 {
        proof {
            assert(needle@ =~= Seq::<u8>::empty());
            lemma_count_empty_needle(hay@, hay@.len() as int + 1);
        }
        hay.len() as u128 + 1
    } else {
        count_occurrences(hay.as_slice(), needle) as u128
    }
}

/// How often the strategy's message has appeared in the stream it scans.
pub fn log_count(strategy: &RsLogWaitStrategy, obs: &WaitObservation) -> (n: u128)
    ensures
        n == spec_log_count(*strategy, *obs),
{
    let needle: &[u8] = strategy.message.as_str().as_bytes();
    match strategy.stream {
        LogStream::StdOut => count_in_stream(&obs.stdout, needle),
        LogStream::StdErr => count_in_stream(&obs.stderr, needle),
        LogStream::StdOutOrErr => {
            let a = count_in_stream(&obs.stdout, needle);
            let b = count_in_stream(&obs.stderr, needle);
            a + b
        },
    }
}

fn log_decision(strategy: &RsLogWaitStrategy, obs: &WaitObservation) -> (d: PollDecision)
    ensures
        d == if spec_log_count(*strategy, *obs) >= strategy.times {
            PollDecision::Ready
        } else {
            PollDecision::NotYet
        },
{
    let count = log_count(strategy, obs);
    if count >= strategy.times as u128 {
        PollDecision::Ready
    } else {
        PollDecision::NotYet
    }
}

/// Polls one strategy against one observation.
pub fn decide(w: &RsWaitFor, start_ns: u64, obs: &WaitObservation) -> (d: PollDecision)
    ensures
        d == spec_decide(*w, start_ns, *obs),
{
    match w {
        RsWaitFor::Nothing => PollDecision::Ready,
        RsWaitFor::Duration { length_ns } => match start_ns.checked_add(*length_ns) {
            Some(threshold) => if obs.now_ns >= threshold {
                PollDecision::Ready
            } else {
                PollDecision::NotYet
            },
            None => PollDecision::NotYet,
        },
        RsWaitFor::Log { strategy } => log_decision(strategy, obs),
        RsWaitFor::Healthcheck { strategy: _ } => match obs.health {
            HealthStatus::Healthy => PollDecision::Ready,
            HealthStatus::Unhealthy => PollDecision::Failed { failure: WaitFailure::Unhealthy },
            HealthStatus::Starting => PollDecision::NotYet,
            HealthStatus::NotConfigured => PollDecision::NotYet,
        },
        RsWaitFor::Exit { strategy } => match obs.exit_code {
            None => PollDecision::NotYet,
            Some(code) => match strategy.expected_code {
                None => PollDecision::Ready,
                Some(expected) => if code == expected {
                    PollDecision::Ready
                } else {
                    PollDecision::Failed {
                        failure: WaitFailure::UnexpectedExitCode { code },
                    }
                },
            },
        },
        RsWaitFor::EnvVarDelay { name: _ } => PollDecision::NotYet,
    }
}

// ---------------------------------------------------------------------------
// Laws of the decision procedures.
// ---------------------------------------------------------------------------

/// A duration strategy reports ready only once the observed time is at
/// least the configured length past the container start, and it never
/// fails on its own.
pub proof fn lemma_duration_decision(length_ns: u64, start_ns: u64, obs: WaitObservation)
    ensures
        spec_decide(RsWaitFor::Duration { length_ns }, start_ns, obs) == PollDecision::Ready
            <==> obs.now_ns - start_ns >= length_ns,
        !(spec_decide(RsWaitFor::Duration { length_ns }, start_ns, obs) is Failed),
{
}

/// A log strategy reports ready exactly when its message has appeared at
/// least the required number of times in the stream it scans, and it never
/// fails on its own.
pub proof fn lemma_log_decision(strategy: RsLogWaitStrategy, start_ns: u64, obs: WaitObservation)
    ensures
        spec_decide(RsWaitFor::Log { strategy }, start_ns, obs) == PollDecision::Ready
            <==> spec_log_count(strategy, obs) >= strategy.times,
        !(spec_decide(RsWaitFor::Log { strategy }, start_ns, obs) is Failed),
{
}

/// An exit strategy with an expected code reports ready exactly when that
/// code was observed; any other observed code is a definite failure naming
/// the observed code, never ready.
pub proof fn lemma_exit_decision(
    strategy: RsExitWaitStrategy,
    expected: i64,
    start_ns: u64,
    obs: WaitObservation,
)
    requires
        strategy.expected_code == Some(expected),
    ensures
        spec_decide(RsWaitFor::Exit { strategy }, start_ns, obs) == PollDecision::Ready
            <==> obs.exit_code == Some(expected),
        forall|code: i64|
            obs.exit_code == Some(code) && code != expected ==> spec_decide(
                RsWaitFor::Exit { strategy },
                start_ns,
                obs,
            ) == (PollDecision::Failed { failure: WaitFailure::UnexpectedExitCode { code } }),
{
}

/// A healthcheck strategy reports ready exactly when the runtime reports
/// the container healthy; an unhealthy report is a definite failure,
/// never ready.
pub proof fn lemma_health_decision(
    strategy: RsHealthWaitStrategy,
    start_ns: u64,
    obs: WaitObservation,
)
    ensures
        spec_decide(RsWaitFor::Healthcheck { strategy }, start_ns, obs) == PollDecision::Ready
            <==> obs.health == HealthStatus::Healthy,
        obs.health == HealthStatus::Unhealthy ==> spec_decide(
            RsWaitFor::Healthcheck { strategy },
            start_ns,
            obs,
        ) == (PollDecision::Failed { failure: WaitFailure::Unhealthy }),
{
}

/// The poll cadence a strategy declares, or the default.
pub open spec fn spec_poll_interval(w: RsWaitFor) -> u64 {
    match w {
        RsWaitFor::Healthcheck { strategy } => match strategy.poll_interval_ns {
            Some(ns) => ns,
            None => DEFAULT_POLL_INTERVAL_NS,
        },
        RsWaitFor::Exit { strategy } => match strategy.poll_interval_ns {
            Some(ns) => ns,
            None => DEFAULT_POLL_INTERVAL_NS,
        },
        _ => DEFAULT_POLL_INTERVAL_NS,
    }
}

/// The poll cadence of a strategy.
pub fn poll_interval(w: &RsWaitFor) -> (r: u64)
    ensures
        r == spec_poll_interval(*w),
{
    match w {
        RsWaitFor::Healthcheck { strategy } => match strategy.poll_interval_ns {
            Some(ns) => ns,
            None => DEFAULT_POLL_INTERVAL_NS,
        },
        RsWaitFor::Exit { strategy } => match strategy.poll_interval_ns {
            Some(ns) => ns,
            None => DEFAULT_POLL_INTERVAL_NS,
        },
        _ => DEFAULT_POLL_INTERVAL_NS,
    }
}

// ---------------------------------------------------------------------------
// Constructors.
// ---------------------------------------------------------------------------

pub fn rs_log_wait_strategy_stdout(message: String) -> (r: RsLogWaitStrategy)
    ensures
        r == (RsLogWaitStrategy { stream: LogStream::StdOut, message, times: 1 }),
{
    RsLogWaitStrategy { stream: LogStream::StdOut, message, times: 1 }
}

pub fn rs_log_wait_strategy_stderr(message: String) -> (r: RsLogWaitStrategy)
    ensures
        r == (RsLogWaitStrategy { stream: LogStream::StdErr, message, times: 1 }),
{
    RsLogWaitStrategy { stream: LogStream::StdErr, message, times: 1 }
}

pub fn rs_log_wait_strategy_stdout_or_stderr(message: String) -> (r: RsLogWaitStrategy)
    ensures
        r == (RsLogWaitStrategy { stream: LogStream::StdOutOrErr, message, times: 1 }),
{
    RsLogWaitStrategy { stream: LogStream::StdOutOrErr, message, times: 1 }
}

pub fn rs_log_wait_strategy_with_times(strategy: RsLogWaitStrategy, times: usize) -> (r:
    RsLogWaitStrategy)
    ensures
        r == (RsLogWaitStrategy { times, ..strategy }),
{
    RsLogWaitStrategy { times, ..strategy }
}

pub fn rs_log_wait_strategy_destroy(strategy: RsLogWaitStrategy) {
    let _ = strategy;
}

pub fn rs_health_wait_strategy_new() -> (r: RsHealthWaitStrategy)
    ensures
        r == (RsHealthWaitStrategy { poll_interval_ns: None }),
{
    RsHealthWaitStrategy { poll_interval_ns: None }
}

pub fn rs_health_wait_strategy_with_poll_interval(
    strategy: RsHealthWaitStrategy,
    interval_ns: u64,
) -> (r: RsHealthWaitStrategy)
    ensures
        r == (RsHealthWaitStrategy { poll_interval_ns: Some(interval_ns) }),
{
    let _ = strategy;
    RsHealthWaitStrategy { poll_interval_ns: Some(interval_ns) }
}

pub fn rs_health_wait_strategy_destroy(strategy: RsHealthWaitStrategy) {
    let _ = strategy;
}

pub fn rs_exit_wait_strategy_new() -> (r: RsExitWaitStrategy)
    ensures
        r == (RsExitWaitStrategy { poll_interval_ns: None, expected_code: None }),
{
    RsExitWaitStrategy { poll_interval_ns: None, expected_code: None }
}

pub fn rs_exit_wait_strategy_with_poll_interval(
    strategy: RsExitWaitStrategy,
    interval_ns: u64,
) -> (r: RsExitWaitStrategy)
    ensures
        r == (RsExitWaitStrategy { poll_interval_ns: Some(interval_ns), ..strategy }),
{
    RsExitWaitStrategy { poll_interval_ns: Some(interval_ns), ..strategy }
}

pub fn rs_exit_wait_strategy_with_exit_code(strategy: RsExitWaitStrategy, exit_code: i64) -> (r:
    RsExitWaitStrategy)
    ensures
        r == (RsExitWaitStrategy { expected_code: Some(exit_code), ..strategy }),
{
    RsExitWaitStrategy { expected_code: Some(exit_code), ..strategy }
}

pub fn rs_exit_wait_strategy_destroy(strategy: RsExitWaitStrategy) {
    let _ = strategy;
}

pub fn rs_wait_for_nothing() -> (r: RsWaitFor)
    ensures
        r == RsWaitFor::Nothing,
{
    RsWaitFor::Nothing
}

pub fn rs_wait_for_duration(duration_ns: u64) -> (r: RsWaitFor)
    ensures
        r == (RsWaitFor::Duration { length_ns: duration_ns }),
{
    RsWaitFor::Duration { length_ns: duration_ns }
}

pub fn rs_wait_for_log(strategy: RsLogWaitStrategy) -> (r: RsWaitFor)
    ensures
        r == (RsWaitFor::Log { strategy }),
{
    RsWaitFor::Log { strategy }
}

pub fn rs_wait_for_healthcheck(strategy: RsHealthWaitStrategy) -> (r: RsWaitFor)
    ensures
        r == (RsWaitFor::Healthcheck { strategy }),
{
    RsWaitFor::Healthcheck { strategy }
}

pub fn rs_wait_for_exit(strategy: RsExitWaitStrategy) -> (r: RsWaitFor)
    ensures
        r == (RsWaitFor::Exit { strategy }),
{
    RsWaitFor::Exit { strategy }
}

pub fn rs_wait_for_millis_in_env_var(name: String) -> (r: RsWaitFor)
    ensures
        r == (RsWaitFor::EnvVarDelay { name }),
{
    RsWaitFor::EnvVarDelay { name }
}

pub fn rs_wait_for_vec_push(vec: &mut Vec<RsWaitFor>, wait_for: RsWaitFor)
    ensures
        final(vec)@ == old(vec)@.push(wait_for),
{
    vec.push(wait_for);
}

pub fn rs_wait_for_vec_pop(vec: &mut Vec<RsWaitFor>) -> (r: Option<RsWaitFor>)
    ensures
        old(vec)@.len() == 0 ==> r is None && final(vec)@ == old(vec)@,
        old(vec)@.len() > 0 ==> r == Some(old(vec)@.last())
            && final(vec)@ == old(vec)@.drop_last(),
{
    vec.pop()
}

pub fn rs_wait_for_destroy(wait_for: RsWaitFor) {
    let _ = wait_for;
}

impl RsWaitFor {
    /// An exact copy of this strategy.
    pub fn rs_wait_for_clone(&self) -> (r: RsWaitFor)
        ensures
            r == *self,
    {
        match self {
            RsWaitFor::Nothing => RsWaitFor::Nothing,
            RsWaitFor::Duration { length_ns } => RsWaitFor::Duration { length_ns: *length_ns },
            RsWaitFor::Log { strategy } => RsWaitFor::Log {
                strategy: RsLogWaitStrategy {
                    stream: strategy.stream,
                    message: strategy.message.clone(),
                    times: strategy.times,
                },
            },
            RsWaitFor::Healthcheck { strategy } => RsWaitFor::Healthcheck { strategy: *strategy },
            RsWaitFor::Exit { strategy } => RsWaitFor::Exit { strategy: *strategy },
            RsWaitFor::EnvVarDelay { name } => RsWaitFor::EnvVarDelay { name: name.clone() },
        }
    }
}

// ---------------------------------------------------------------------------
// Resolving environment-variable delays.
// ---------------------------------------------------------------------------

/// What an environment value means as a millisecond delay: its decimal
/// value when it is a plain decimal number that fits, and zero otherwise.
pub open spec fn spec_parse_millis(s: Seq<char>) -> int {
    if s.len() >= 1 && all_dec_digits(s) && dec_value(s) <= u64::MAX {
        dec_value(s)
    } else {
        0
    }
}

/// Reads a decimal millisecond count, yielding zero on anything that is
/// not a plain decimal number that fits.
pub fn parse_millis(s: &String) -> (r: u64)
    ensures
        r == spec_parse_millis(s@),
{
    let text = s.as_str();
    let n = text.unicode_len();
    if n == 0 {
        return 0;
    }
    let mut acc: u64 = 0;
    let mut i: usize = 0;
    while i < n
        invariant
            n == s@.len(),
            text@ == s@,
            i <= n,
            forall|j: int| 0 <= j < i ==> is_dec_digit(#[trigger] s@[j]),
            acc == dec_value(s@.take(i as int)),
        decreases n - i,
    {
        let c = text.get_char(i);
        let u = c as u32;
        if u < 48 || u > 57 {
            return 0;
        }
        let d = (u - 48) as u64;
        proof {
            assert(s@.take(i + 1).drop_last() =~= s@.take(i as int));
            assert(s@.take(i + 1).last() == s@[i as int]);
        }
        let next = match acc.checked_mul(10) {
            Some(x) => x.checked_add(d),
            None => None,
        };
        match next {
            Some(x) => {
                acc = x;
            },
            None => {
                // The value already exceeds u64::MAX; digits only grow it.
                proof {
                    if all_dec_digits(s@) {
                        lemma_dec_value_monotone(s@, s@.len() as int);
                        assert(s@.take(s@.len() as int) =~= s@);
                        assert(dec_value(s@.take(i + 1)) <= dec_value(s@));
                    }
                }
                return 0;
            },
        }
        i += 1;
    }
    proof {
        assert(s@.take(n as int) =~= s@);
    }
    acc
}

/// The first value bound to `name`, scanning the environment in order.
pub open spec fn spec_env_lookup(env: Seq<(String, String)>, name: Seq<char>) -> Option<Seq<char>>
    decreases env.len(),
{
    if env.len() == 0 {
        None
    } else if env[0].0@ == name {
        Some(env[0].1@)
    } else {
        spec_env_lookup(env.drop_first(), name)
    }
}

/// Looks a variable up in a captured environment.
pub fn env_lookup<'a>(env: &'a Vec<(String, String)>, name: &String) -> (r: Option<&'a String>)
    ensures
        match r {
            Some(v) => spec_env_lookup(env@, name@) == Some(v@),
            None => spec_env_lookup(env@, name@) is None,
        },
{
    let n = env.len();
    let mut i: usize = 0;
    proof {
        assert(env@.skip(0) =~= env@);
    }
    while i < n
        invariant
            n == env@.len(),
            i <= n,
            spec_env_lookup(env@, name@) == spec_env_lookup(env@.skip(i as int), name@),
        decreases n - i,
    {
        if env[i].0 == *name {
            proof {
                assert(env@.skip(i as int)[0] == env@[i as int]);
            }
            return Some(&env[i].1);
        }
        proof {
            assert(env@.skip(i as int)[0] == env@[i as int]);
            assert(env@.skip(i as int).drop_first() =~= env@.skip(i + 1));
        }
        i += 1;
    }
    proof {
        assert(env@.skip(n as int) =~= Seq::<(String, String)>::empty());
    }
    None
}

/// A millisecond count as nanoseconds, saturating at the largest
/// representable duration.
pub open spec fn spec_millis_to_ns(ms: int) -> int {
    if ms * 1_000_000 <= u64::MAX {
        ms * 1_000_000
    } else {
        u64::MAX as int
    }
}

/// The delay, in nanoseconds, that an environment gives an
/// environment-variable strategy named `name`.
pub open spec fn spec_env_delay_ns(env: Seq<(String, String)>, name: Seq<char>) -> int {
    match spec_env_lookup(env, name) {
        Some(v) => spec_millis_to_ns(spec_parse_millis(v)),
        None => 0,
    }
}

/// A strategy with its environment-variable delay replaced by the duration
/// the environment gives it; every other strategy is returned unchanged.
pub open spec fn spec_resolve_one(w: RsWaitFor, env: Seq<(String, String)>) -> RsWaitFor {
    match w {
        RsWaitFor::EnvVarDelay { name } => RsWaitFor::Duration {
            length_ns: spec_env_delay_ns(env, name@) as u64,
        },
        _ => w,
    }
}

/// True when no strategy still depends on the environment.
pub open spec fn spec_all_resolved(s: Seq<RsWaitFor>) -> bool {
    forall|i: int| 0 <= i < s.len() ==> !(#[trigger] s[i] is EnvVarDelay)
}

/// Replaces every environment-variable delay by the duration the captured
/// environment gives it, leaving all other strategies as they are.
pub fn resolve_ready_conditions(
    strategies: Vec<RsWaitFor>,
    env: &Vec<(String, String)>,
) -> (r: Vec<RsWaitFor>)
    ensures
        r@.len() == strategies@.len(),
        forall|i: int| 0 <= i < r@.len() ==> r@[i] == spec_resolve_one(strategies@[i], env@),
        spec_all_resolved(r@),
{
    let ghost orig = strategies@;
    let mut rest = strategies;
    let mut out: Vec<RsWaitFor> = Vec::new();
    while rest.len() > 0
        invariant
            out@.len() + rest@.len() == orig.len(),
            rest@ == orig.skip(out@.len() as int),
            forall|i: int| 0 <= i < out@.len() ==> out@[i] == spec_resolve_one(orig[i], env@),
            spec_all_resolved(out@),
        decreases rest@.len(),
    {
        let w = rest.remove(0);
        proof {
            assert(w == orig[out@.len() as int]);
        }
        let resolved = match w {
            RsWaitFor::EnvVarDelay { name } => {
                let ms = match env_lookup(env, &name) {
                    Some(v) => parse_millis(v),
                    None => 0,
                };
                let ns = match ms.checked_mul(1_000_000) {
                    Some(x) => x,
                    None => u64::MAX,
                };
                RsWaitFor::Duration { length_ns: ns }
            },
            other => other,
        };
        out.push(resolved);
        proof {
            assert(rest@ =~= orig.skip(out@.len() as int));
        }
    }
    proof {
        assert(out@.len() == orig.len());
    }
    out
}

} // verus!
