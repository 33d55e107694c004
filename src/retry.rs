//! Fetching with retries: which endpoint to try next, how long to wait first, and when to give
//! up. The decisions live here; the caller performs the fetches and the waits.
use vstd::prelude::*;

verus! {

/// Where a fetch-with-retry stands. Endpoint 0 is the primary URL, endpoint k the primary URL
/// through the k-th proxy. Rounds (attempts) are counted from 1.
#[derive(Clone, Copy, Debug, PartialEq, Eq)]
pub struct RetryState {
    pub attempt: u32,
    pub endpoint: usize,
    pub finished: bool,
}

/// What the caller does next.
#[derive(Clone, Copy, Debug, PartialEq, Eq)]
pub enum RetryAction {
    /// Wait `delay_ms` milliseconds, then fetch from `endpoint`.
    Fetch { endpoint: usize, delay_ms: u64 },
    /// The last fetch succeeded, in round `attempt` at `endpoint`.
    Succeeded { attempt: u32, endpoint: usize },
    /// Every endpoint failed in each of `attempts` rounds.
    GaveUp { attempts: u32 },
    /// Nothing: the retrying is over.
    Idle,
}

pub open spec fn pow2(n: nat) -> nat
    decreases n,
{
    if n == 0 {
        1
    } else {
        2 * pow2((n - 1) as nat)
    }
}

/// The wait before round `attempt + 1`: 2^attempt seconds, no more than 2^40 seconds.
pub open spec fn backoff_ms(attempt: u32) -> nat {
    if attempt < 40 {
        pow2(attempt as nat) * 1000
    } else {
        pow2(40) * 1000
    }
}

pub open spec fn retry_start() -> (RetryState, RetryAction) {
    (
        RetryState { attempt: 1, endpoint: 0, finished: false },
        RetryAction::Fetch { endpoint: 0, delay_ms: 0 },
    )
}

/// The decision after a fetch from `st` succeeded (`ok`) or failed, with `max` rounds over
/// the primary URL and `proxies` proxies.
pub open spec fn retry_step(max: u32, proxies: nat, st: RetryState, ok: bool) -> (
    RetryState,
    RetryAction,
) {
    if st.finished {
        (st, RetryAction::Idle)
    } else if ok {
        (
            RetryState { finished: true, ..st },
            RetryAction::Succeeded { attempt: st.attempt, endpoint: st.endpoint },
        )
    } else if st.endpoint < proxies {
        (
            RetryState { endpoint: (st.endpoint + 1) as usize, ..st },
            RetryAction::Fetch { endpoint: (st.endpoint + 1) as usize, delay_ms: 0 },
        )
    } else if st.attempt < max {
        (
            RetryState { attempt: (st.attempt + 1) as u32, endpoint: 0, finished: false },
            RetryAction::Fetch { endpoint: 0, delay_ms: backoff_ms(st.attempt) as u64 },
        )
    } else {
        (RetryState { finished: true, ..st }, RetryAction::GaveUp { attempts: st.attempt })
    }
}

/// The state and the last decision after the outcomes `outs`, from the start.
pub open spec fn retry_run(max: u32, proxies: nat, outs: Seq<bool>) -> (RetryState, RetryAction)
    decreases outs.len(),
{
    if outs.len() == 0 {
        retry_start()
    } else {
        let r = retry_run(max, proxies, outs.drop_last());
        retry_step(max, proxies, r.0, outs.last())
    }
}

/// The number of fetches that failed before the one that `st` describes.
pub open spec fn failures_before(proxies: nat, st: RetryState) -> int {
    (st.attempt - 1) * (proxies + 1) + st.endpoint
}

pub open spec fn failures(n: nat) -> Seq<bool> {
    Seq::new(n, |i: int| false)
}

/// How many rounds to make, and through which proxies.
pub struct RetryPolicy {
    pub max_attempts: u32,
    pub proxies: Vec<String>,
}

impl RetryPolicy {
    /// The first decision: fetch from the primary URL at once.
    pub fn start(&self) -> (r: (RetryState, RetryAction))
        ensures
            r == retry_start(),
    {
        (
            RetryState { attempt: 1, endpoint: 0, finished: false },
            RetryAction::Fetch { endpoint: 0, delay_ms: 0 },
        )
    }

    /// The next decision, given whether the fetch that `st` describes succeeded.
    pub fn step(&self, st: RetryState, ok: bool) -> (r: (RetryState, RetryAction))
        requires
            st.endpoint <= self.proxies@.len(),
        ensures
            r == retry_step(self.max_attempts, self.proxies@.len(), st, ok),
    {
        if st.finished {
            (st, RetryAction::Idle)
        } else if ok {
            (
                RetryState { finished: true, ..st },
                RetryAction::Succeeded { attempt: st.attempt, endpoint: st.endpoint },
            )
        } else if st.endpoint < self.proxies.len() {
            (
                RetryState { endpoint: st.endpoint + 1, ..st },
                RetryAction::Fetch { endpoint: st.endpoint + 1, delay_ms: 0 },
            )
        } else if st.attempt < self.max_attempts {
            (
                RetryState { attempt: st.attempt + 1, endpoint: 0, finished: false },
                RetryAction::Fetch { endpoint: 0, delay_ms: backoff(st.attempt) },
            )
        } else {
            (RetryState { finished: true, ..st }, RetryAction::GaveUp { attempts: st.attempt })
        }
    }

    /// The URL of an endpoint: the primary URL itself, or appended to a proxy's prefix.
    pub fn endpoint_url(&self, primary: &str, endpoint: usize) -> (r: String)
        requires
            endpoint <= self.proxies@.len(),
        ensures
            endpoint == 0 ==> r@ == primary@,
            endpoint > 0 ==> r@ == self.proxies@[endpoint - 1]@ + primary@,
    {
        if endpoint == 0 {
            String::from_str(primary)
        } else {
            self.proxies[endpoint - 1].clone().concat(primary)
        }
    }
}

/// The wait in milliseconds before the round after `attempt`.
pub fn backoff(attempt: u32) -> (r: u64)
    ensures
        r as nat == backoff_ms(attempt),
{
    let n: u32 = if attempt < 40 {
        attempt
    } else {
        40
    };
    let mut p: u64 = 1;
    let mut i: u32 = 0;
    while i < n
        invariant
            i <= n <= 40,
            p as nat == pow2(i as nat),
            p <= 0x100_0000_0000,
        decreases n - i,
    {
        proof {
            lemma_pow2_bound((i + 1) as nat);
        }
        p = p * 2;
        i = i + 1;
    }
    proof {
        lemma_pow2_bound(n as nat);
    }
    p * 1000
}

proof fn lemma_pow2_bound(n: nat)
    requires
        n <= 40,
    ensures
        pow2(n) <= pow2(40),
        pow2(40) == 0x100_0000_0000,
    decreases 40 - n,
{
    reveal_with_fuel(pow2, 41);
    if n < 40 {
        lemma_pow2_bound(n + 1);
    }
}

/// After `j` failed fetches, fewer than the rounds and endpoints allow, the retrying goes on:
/// it asks for another fetch, and `j` fetches have failed before it.
pub proof fn lemma_retry_continues(max: u32, proxies: nat, j: nat)
    requires
        max >= 1,
        proxies <= usize::MAX,
        j < max * (proxies + 1),
    ensures
        !retry_run(max, proxies, failures(j)).0.finished,
        1 <= retry_run(max, proxies, failures(j)).0.attempt <= max,
        retry_run(max, proxies, failures(j)).0.endpoint <= proxies,
        failures_before(proxies, retry_run(max, proxies, failures(j)).0) == j,
        retry_run(max, proxies, failures(j)).1 is Fetch,
    decreases j,
{
    if j > 0 {
        assert(failures(j).drop_last() =~= failures((j - 1) as nat));
        assert(failures(j).last() == false);
        lemma_retry_continues(max, proxies, (j - 1) as nat);
        let st = retry_run(max, proxies, failures((j - 1) as nat)).0;
        assert(retry_run(max, proxies, failures(j)) == retry_step(max, proxies, st, false));
        let next = retry_step(max, proxies, st, false).0;
        if st.endpoint < proxies {
            assert(failures_before(proxies, next) == failures_before(proxies, st) + 1);
        } else if st.attempt < max {
            assert(st.endpoint == proxies);
            assert(next.attempt == st.attempt + 1 && next.endpoint == 0);
            assert((next.attempt - 1) * (proxies + 1) == (st.attempt - 1) * (proxies + 1) + proxies
                + 1) by (nonlinear_arith)
                requires
                    next.attempt == st.attempt + 1,
            ;
        } else {
            assert(st.endpoint == proxies && st.attempt == max);
            assert((max - 1) * (proxies + 1) + proxies + 1 == max * (proxies + 1))
                by (nonlinear_arith);
        }
    } else {
        assert(failures(0) =~= Seq::<bool>::empty());
        assert(0 * (proxies + 1) == 0);
    }
}

/// Some failures and then a success: the retrying reports that one success, after exactly
/// those failures, as long as the failures leave a fetch to make.
pub proof fn lemma_success_after_failures(max: u32, proxies: nat, j: nat)
    requires
        max >= 1,
        proxies <= usize::MAX,
        j < max * (proxies + 1),
    ensures
        retry_run(max, proxies, failures(j).push(true)).1 is Succeeded,
        retry_run(max, proxies, failures(j).push(true)).0.finished,
        failures_before(proxies, retry_run(max, proxies, failures(j).push(true)).0) == j,
{
    lemma_retry_continues(max, proxies, j);
    assert(failures(j).push(true).drop_last() =~= failures(j));
}

/// Failures at every endpoint in every round: the retrying gives up, naming the number of
/// rounds.
pub proof fn lemma_exhausted(max: u32, proxies: nat)
    requires
        max >= 1,
        proxies <= usize::MAX,
    ensures
        retry_run(max, proxies, failures((max * (proxies + 1)) as nat)).1 == (RetryAction::GaveUp {
            attempts: max,
        }),
        retry_run(max, proxies, failures((max * (proxies + 1)) as nat)).0.finished,
{
    let total: nat = (max * (proxies + 1)) as nat;
    assert(max * (proxies + 1) >= 1) by (nonlinear_arith)
        requires
            max >= 1,
            proxies >= 0,
    ;
    let j = (total - 1) as nat;
    lemma_retry_continues(max, proxies, j);
    assert(failures(total).drop_last() =~= failures(j));
    let st = retry_run(max, proxies, failures(j)).0;
    assert((max - 1) * (proxies + 1) + proxies == max * (proxies + 1) - 1) by (nonlinear_arith);
    if st.endpoint < proxies {
        assert((st.attempt - 1) * (proxies + 1) <= (max - 1) * (proxies + 1)) by (nonlinear_arith)
            requires
                st.attempt <= max,
                st.attempt >= 1,
        ;
    } else if st.attempt < max {
        assert((st.attempt - 1) * (proxies + 1) + proxies < (max - 1) * (proxies + 1))
            by (nonlinear_arith)
            requires
                st.attempt < max,
                st.attempt >= 1,
        ;
    }
}

/// After giving up, the retrying asks for no further fetch, whatever comes.
pub proof fn lemma_gives_up(max: u32, proxies: nat, more: Seq<bool>)
    requires
        max >= 1,
        proxies <= usize::MAX,
    ensures
        retry_run(max, proxies, failures((max * (proxies + 1)) as nat) + more).0.finished,
        more.len() > 0 ==> retry_run(max, proxies, failures((max * (proxies + 1)) as nat)
            + more).1 is Idle,
    decreases more.len(),
{
    let fs = failures((max * (proxies + 1)) as nat);
    if more.len() > 0 {
        lemma_gives_up(max, proxies, more.drop_last());
        assert((fs + more).drop_last() =~= fs + more.drop_last());
    } else {
        lemma_exhausted(max, proxies);
        assert(fs + more =~= fs);
    }
}

/// Without proxies, the fetch after `j` failures is made in round `j + 1`, from the
/// primary URL: the rounds shown to the user count 1, 2, 3, ...
pub proof fn lemma_rounds_count_up(max: u32, j: nat)
    requires
        j < max,
    ensures
        retry_run(max, 0, failures(j)).0.attempt == j + 1,
        retry_run(max, 0, failures(j)).0.endpoint == 0,
        retry_run(max, 0, failures(j)).1 is Fetch,
{
    assert(max * (0 + 1) == max) by (nonlinear_arith);
    lemma_retry_continues(max, 0, j);
    let st = retry_run(max, 0, failures(j)).0;
    assert((st.attempt - 1) * (0 + 1) == st.attempt - 1) by (nonlinear_arith);
}

/// Three failed fetches and then one that succeeds, with rounds to spare: the retrying
/// reports that success, in the fourth round, after exactly three failures.
pub proof fn lemma_three_failures_then_success(max: u32)
    requires
        max >= 4,
    ensures
        retry_run(max, 0, failures(3).push(true)).1 == (RetryAction::Succeeded {
            attempt: 4,
            endpoint: 0,
        }),
        failures_before(0, retry_run(max, 0, failures(3).push(true)).0) == 3,
{
    lemma_rounds_count_up(max, 3);
    assert(max * (0 + 1) == max) by (nonlinear_arith);
    lemma_success_after_failures(max, 0, 3);
    assert(failures(3).push(true).drop_last() =~= failures(3));
}

/// Three failed fetches with three rounds allowed: the retrying gives up naming three rounds,
/// and a further outcome asks for no fourth fetch.
pub proof fn lemma_three_failures_give_up(more: bool)
    ensures
        retry_run(3, 0, failures(3)).1 == (RetryAction::GaveUp { attempts: 3 }),
        retry_run(3, 0, failures(3).push(more)).1 is Idle,
{
    lemma_exhausted(3, 0);
    lemma_gives_up(3, 0, seq![more]);
    assert(failures(3) + seq![more] =~= failures(3).push(more));
}

} // verus!
