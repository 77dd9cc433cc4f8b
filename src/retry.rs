use vstd::prelude::*;
use crate::connection_manager::{config_problem, BrokerConfig};
use crate::error::{BrokerError, ConfigProblem};

verus! {

/// The wait between two connection attempts in the default policy: two seconds.
pub const DEFAULT_RETRY_DELAY_MS: u64 = 2000;

/// How connection acquisition reacts to a failed open attempt.
#[derive(Clone, Copy, Debug, PartialEq, Eq, Structural)]
pub struct RetryPolicy {
    /// Failed attempts after which acquisition gives up; `None` retries forever.
    /// At least one attempt is always made.
    pub max_attempts: Option<u64>,
    /// Fixed wait before each new attempt, in milliseconds.
    pub delay_ms: u64,
}

impl RetryPolicy {
    /// The default policy: retry forever, two seconds apart.
    pub open spec fn unbounded_spec() -> RetryPolicy {
        RetryPolicy { max_attempts: None, delay_ms: DEFAULT_RETRY_DELAY_MS }
    }

    /// Retry forever, waiting two seconds between attempts.
    pub fn unbounded() -> (r: RetryPolicy)
        ensures
            r == RetryPolicy::unbounded_spec(),
    {
        RetryPolicy { max_attempts: None, delay_ms: DEFAULT_RETRY_DELAY_MS }
    }

    /// Give up once `max_attempts` attempts in a row have failed.
    pub fn bounded(max_attempts: u64, delay_ms: u64) -> (r: RetryPolicy)
        ensures
            r.max_attempts == Some(max_attempts),
            r.delay_ms == delay_ms,
    {
        RetryPolicy { max_attempts: Some(max_attempts), delay_ms }
    }
}

/// Where one acquisition stands. Every acquisition starts from `Disconnected`.
#[derive(Clone, Copy, Debug, PartialEq, Eq, Structural)]
pub enum AcquireState {
    Disconnected,
    /// Attempting to open, after `failures` failed attempts.
    Connecting { failures: u64 },
    /// A connection is open; it took `failures` failed attempts before it.
    Connected { failures: u64 },
    /// Acquisition gave up after `failures` failed attempts.
    Failed { failures: u64 },
}

/// What the driver of an acquisition reports.
#[derive(Clone, Copy, Debug, PartialEq, Eq, Structural)]
pub enum AcquireEvent {
    /// A connection is requested.
    Begin,
    /// The last open attempt produced an open connection.
    Opened,
    /// The last open attempt failed at the transport.
    OpenFailed,
}

/// What the driver of an acquisition must do next.
#[derive(Clone, Debug, PartialEq, Eq)]
pub enum AcquireAction {
    /// Attempt to open a connection now.
    Open,
    /// Wait this long, then attempt to open a connection.
    WaitThenOpen { delay_ms: u64 },
    /// Hand the open connection to the caller.
    Deliver,
    /// Hand this failure to the caller.
    Surface(BrokerError),
    /// The event does not apply in this state; nothing changes.
    Ignore,
}

/// Whether `failures` failed attempts in a row exhaust the policy.
pub open spec fn exhausted(p: RetryPolicy, failures: u64) -> bool {
    match p.max_attempts {
        Some(m) => failures >= m,
        None => false,
    }
}

/// One transition of the acquisition state machine, for a configuration whose
/// pre-flight check found `problem`.
pub open spec fn next(
    p: RetryPolicy,
    problem: Option<ConfigProblem>,
    s: AcquireState,
    e: AcquireEvent,
) -> (AcquireState, AcquireAction) {
    match (s, e) {
        (AcquireState::Disconnected, AcquireEvent::Begin) => match problem {
            Some(pr) => (
                AcquireState::Failed { failures: 0 },
                AcquireAction::Surface(BrokerError::Configuration(pr)),
            ),
            None => (AcquireState::Connecting { failures: 0 }, AcquireAction::Open),
        },
        (AcquireState::Connecting { failures }, AcquireEvent::Opened) => (
            AcquireState::Connected { failures },
            AcquireAction::Deliver,
        ),
        (AcquireState::Connecting { failures }, AcquireEvent::OpenFailed) => {
            let n: u64 = if failures < u64::MAX { (failures + 1) as u64 } else { failures };
            if exhausted(p, n) {
                (
                    AcquireState::Failed { failures: n },
                    AcquireAction::Surface(BrokerError::TransientConnectivity { attempts: n }),
                )
            } else {
                (AcquireState::Connecting { failures: n }, AcquireAction::WaitThenOpen { delay_ms: p.delay_ms })
            }
        },
        _ => (s, AcquireAction::Ignore),
    }
}

/// Milliseconds that an action makes the driver wait.
pub open spec fn waited(a: AcquireAction) -> int {
    match a {
        AcquireAction::WaitThenOpen { delay_ms } => delay_ms as int,
        _ => 0,
    }
}

/// The state reached from `s` after the events in order, with the total wait.
pub open spec fn run(
    p: RetryPolicy,
    problem: Option<ConfigProblem>,
    s: AcquireState,
    events: Seq<AcquireEvent>,
) -> (AcquireState, int)
    decreases events.len(),
{
    if events.len() == 0 {
        (s, 0)
    } else {
        let (s1, a) = next(p, problem, s, events[0]);
        let (s2, w) = run(p, problem, s1, events.drop_first());
        (s2, waited(a) + w)
    }
}

/// `k` failed open attempts in a row.
pub open spec fn failures(k: nat) -> Seq<AcquireEvent> {
    Seq::new(k, |i: int| AcquireEvent::OpenFailed)
}

/// A connection is handed out only on an `Opened` event in the `Connecting`
/// state, and the state reached then is `Connected`; once `Connected`, no
/// event changes the state or asks for anything.
pub proof fn lemma_deliver_only_when_opened(
    p: RetryPolicy,
    problem: Option<ConfigProblem>,
    s: AcquireState,
    e: AcquireEvent,
)
    ensures
        next(p, problem, s, e).1 is Deliver <==> (s is Connecting && e is Opened),
        next(p, problem, s, e).1 is Deliver ==> next(p, problem, s, e).0 is Connected,
        s is Connected ==> next(p, problem, s, e) == (s, AcquireAction::Ignore),
{
}

/// Against a reachable broker, every acquisition of a well-formed
/// configuration opens at the first attempt, without waiting.
pub proof fn lemma_reachable_broker_connects(c: BrokerConfig)
    requires
        config_problem(c) is None,
    ensures
        run(c.retry, config_problem(c), AcquireState::Disconnected, seq![AcquireEvent::Begin, AcquireEvent::Opened])
            == (AcquireState::Connected { failures: 0 }, 0int),
{
    let p = c.retry;
    let problem = config_problem(c);
    let events = seq![AcquireEvent::Begin, AcquireEvent::Opened];
    let tail = seq![AcquireEvent::Opened];
    assert(events.drop_first() =~= tail);
    assert(tail.drop_first() =~= Seq::<AcquireEvent>::empty());
    let s1 = AcquireState::Connecting { failures: 0 };
    let s2 = AcquireState::Connected { failures: 0 };
    assert(run(p, problem, s2, tail.drop_first()) == (s2, 0int));
    assert(next(p, problem, s1, AcquireEvent::Opened) == (AcquireState::Connected { failures: 0 }, AcquireAction::Deliver));
    assert(run(p, problem, s1, tail) == (AcquireState::Connected { failures: 0 }, 0int));
}

/// Once acquisition has given up, later events change nothing and cost no wait.
pub proof fn lemma_failed_is_final(
    p: RetryPolicy,
    problem: Option<ConfigProblem>,
    f: u64,
    events: Seq<AcquireEvent>,
)
    ensures
        run(p, problem, AcquireState::Failed { failures: f }, events)
            == (AcquireState::Failed { failures: f }, 0int),
    decreases events.len(),
{
    if events.len() > 0 {
        lemma_failed_is_final(p, problem, f, events.drop_first());
    }
}

proof fn lemma_unbounded_from(p: RetryPolicy, f: nat, k: nat)
    requires
        p.max_attempts is None,
        f + k <= u64::MAX,
    ensures
        run(p, None, AcquireState::Connecting { failures: f as u64 }, failures(k) + seq![AcquireEvent::Opened])
            == (AcquireState::Connected { failures: (f + k) as u64 }, k * p.delay_ms),
    decreases k,
{
    let events = failures(k) + seq![AcquireEvent::Opened];
    if k == 0 {
        assert(events.drop_first() =~= Seq::<AcquireEvent>::empty());
        let s1 = AcquireState::Connected { failures: f as u64 };
        assert(run(p, None, s1, events.drop_first()) == (s1, 0int));
    } else {
        assert(events[0] == AcquireEvent::OpenFailed);
        assert(events.drop_first() =~= failures((k - 1) as nat) + seq![AcquireEvent::Opened]);
        lemma_unbounded_from(p, f + 1, (k - 1) as nat);
        assert(next(p, None, AcquireState::Connecting { failures: f as u64 }, AcquireEvent::OpenFailed)
            == (AcquireState::Connecting { failures: (f + 1) as u64 }, AcquireAction::WaitThenOpen { delay_ms: p.delay_ms }));
        let d = p.delay_ms as int;
        assert(d + (k - 1) * d == k * d) by (nonlinear_arith);
    }
}

/// With unbounded retry, a broker that is unreachable for `n` attempts and then
/// reachable yields a connection after `n` failures and `n` fixed waits.
pub proof fn lemma_recovers_after_failures(c: BrokerConfig, n: nat)
    requires
        config_problem(c) is None,
        c.retry.max_attempts is None,
        n <= u64::MAX,
    ensures
        run(
            c.retry,
            config_problem(c),
            AcquireState::Disconnected,
            seq![AcquireEvent::Begin] + failures(n) + seq![AcquireEvent::Opened],
        ) == (AcquireState::Connected { failures: n as u64 }, n * c.retry.delay_ms),
{
    let p = c.retry;
    let events = seq![AcquireEvent::Begin] + failures(n) + seq![AcquireEvent::Opened];
    assert(events.drop_first() =~= failures(n) + seq![AcquireEvent::Opened]);
    lemma_unbounded_from(p, 0, n);
}

proof fn lemma_bounded_from(p: RetryPolicy, m: u64, f: nat, k: nat, rest: Seq<AcquireEvent>)
    requires
        p.max_attempts == Some(m),
        f < m,
        f + k >= m,
    ensures
        run(p, None, AcquireState::Connecting { failures: f as u64 }, failures(k) + rest)
            == (AcquireState::Failed { failures: m }, (m - 1 - f) * p.delay_ms),
    decreases k,
{
    let events = failures(k) + rest;
    let d = p.delay_ms as int;
    assert(events.len() > 0);
    assert(events[0] == AcquireEvent::OpenFailed);
    assert(events.drop_first() =~= failures((k - 1) as nat) + rest);
    if f + 1 == m {
        lemma_failed_is_final(p, None, m, events.drop_first());
        assert(next(p, None, AcquireState::Connecting { failures: f as u64 }, AcquireEvent::OpenFailed).0
            == AcquireState::Failed { failures: m });
        assert((m - 1 - f) * d == 0) by (nonlinear_arith)
            requires
                m - 1 - f == 0,
        ;
    } else {
        lemma_bounded_from(p, m, f + 1, (k - 1) as nat, rest);
        assert(next(p, None, AcquireState::Connecting { failures: f as u64 }, AcquireEvent::OpenFailed)
            == (AcquireState::Connecting { failures: (f + 1) as u64 }, AcquireAction::WaitThenOpen { delay_ms: p.delay_ms }));
        assert(waited(AcquireAction::WaitThenOpen { delay_ms: p.delay_ms }) == d);
        assert(d + (m - 1 - (f + 1)) * d == (m - 1 - f) * d) by (nonlinear_arith);
    }
}

/// With at most `m` attempts, a broker that is unreachable for `n >= m`
/// attempts makes acquisition give up after exactly `m` failed attempts,
/// having waited `m - 1` times, whatever comes after.
pub proof fn lemma_bounded_gives_up(c: BrokerConfig, m: u64, n: nat, rest: Seq<AcquireEvent>)
    requires
        config_problem(c) is None,
        c.retry.max_attempts == Some(m),
        m >= 1,
        n >= m,
    ensures
        run(c.retry, config_problem(c), AcquireState::Disconnected, seq![AcquireEvent::Begin] + failures(n) + rest)
            == (AcquireState::Failed { failures: m }, (m - 1) * c.retry.delay_ms),
{
    let p = c.retry;
    let events = seq![AcquireEvent::Begin] + failures(n) + rest;
    assert(events.drop_first() =~= failures(n) + rest);
    lemma_bounded_from(p, m, 0, n, rest);
}

/// A configuration with a problem fails at once, before any attempt or wait.
pub proof fn lemma_bad_config_fails_first(c: BrokerConfig, pr: ConfigProblem, events: Seq<AcquireEvent>)
    requires
        config_problem(c) == Some(pr),
    ensures
        run(c.retry, config_problem(c), AcquireState::Disconnected, seq![AcquireEvent::Begin] + events)
            == (AcquireState::Failed { failures: 0 }, 0int),
        next(c.retry, config_problem(c), AcquireState::Disconnected, AcquireEvent::Begin).1
            == AcquireAction::Surface(BrokerError::Configuration(pr)),
{
    let p = c.retry;
    let all = seq![AcquireEvent::Begin] + events;
    assert(all.drop_first() =~= events);
    lemma_failed_is_final(p, Some(pr), 0, events);
}

} // verus!
