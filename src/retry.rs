use vstd::prelude::*;

use crate::error::Error;

verus! {

/// Message of the error returned once the retry ceiling is exceeded.
pub const MAX_RETRY_MESSAGE: &'static str = "Max retry reached, could not perform the request.";

/// Status of the error returned once the retry ceiling is exceeded.
pub const MAX_RETRY_STATUS: u32 = 429;

/// Longest pause between two sends, in microseconds.
pub const MAX_BACKOFF_MICROS: u64 = 2_000_000;

pub open spec fn two_pow(n: nat) -> nat
    decreases n,
{
    if n == 0 {
        1
    } else {
        2 * two_pow((n - 1) as nat)
    }
}

/// Pause before the send that follows `attempts` earlier sends, in
/// microseconds: `min(2, 2^(attempts - 7))` seconds, and none before the first.
pub open spec fn backoff_micros(attempts: nat) -> nat {
    if attempts == 0 {
        0
    } else {
        let d = 15_625 * two_pow((attempts - 1) as nat);
        if d < 2_000_000 {
            d
        } else {
            2_000_000
        }
    }
}

/// Whether a send is allowed after `attempts` earlier sends.
pub open spec fn may_send(ceiling: Option<u32>, attempts: nat) -> bool {
    match ceiling {
        None => true,
        Some(n) => attempts <= n,
    }
}

/// The attempt counter after one more send (it stops at the largest `u64`).
pub open spec fn next_attempts(attempts: nat) -> nat {
    if attempts < u64::MAX {
        attempts + 1
    } else {
        attempts
    }
}

/// How many sends a loop with this ceiling still makes, from `attempts`
/// earlier sends, when no send ever ends the loop.
pub open spec fn sends_until_exhausted(ceiling: u32, attempts: nat) -> nat
    decreases ceiling + 1 - attempts,
{
    if may_send(Some(ceiling), attempts) {
        1 + sends_until_exhausted(ceiling, next_attempts(attempts))
    } else {
        0
    }
}

proof fn lemma_two_pow_monotone(a: nat, b: nat)
    requires
        a <= b,
    ensures
        two_pow(a) <= two_pow(b),
    decreases b,
{
    if a < b {
        lemma_two_pow_monotone(a, (b - 1) as nat);
    }
}

/// The pause before a send, in microseconds.
pub fn backoff_delay(attempts: u64) -> (r: u64)
    ensures
        r == backoff_micros(attempts as nat),
{
    if attempts == 0 {
        return 0;
    }
    if attempts >= 8 {
        proof {
            reveal_with_fuel(two_pow, 8);
            lemma_two_pow_monotone(7, (attempts - 1) as nat);
        }
        return MAX_BACKOFF_MICROS;
    }
    let mut d: u64 = 15_625;
    let mut i: u64 = 1;
    while i < attempts
        invariant
            1 <= i <= attempts <= 7,
            d == 15_625 * two_pow((i - 1) as nat),
        decreases attempts - i,
    {
        proof {
            reveal_with_fuel(two_pow, 6);
            lemma_two_pow_monotone((i - 1) as nat, 5);
        }
        d = d * 2;
        i = i + 1;
    }
    proof {
        reveal_with_fuel(two_pow, 7);
        lemma_two_pow_monotone((attempts - 1) as nat, 6);
    }
    d
}

/// The counter of one logical request: how many sends were made, against an
/// optional ceiling on retries (none: retry without end).
pub struct RetryLoop {
    max_retries: Option<u32>,
    attempts: u64,
}

impl RetryLoop {
    pub closed spec fn ceiling(&self) -> Option<u32> {
        self.max_retries
    }

    /// Sends made so far.
    pub closed spec fn attempts(&self) -> nat {
        self.attempts as nat
    }

    /// A loop that has made no send yet.
    pub fn new(max_retries: Option<u32>) -> (r: Self)
        ensures
            r.ceiling() == max_retries,
            r.attempts() == 0,
    {
        RetryLoop { max_retries, attempts: 0 }
    }

    /// Whether another send is allowed.
    pub fn can_send(&self) -> (r: bool)
        ensures
            r == may_send(self.ceiling(), self.attempts()),
    {
        match self.max_retries {
            None => true,
            Some(n) => self.attempts <= n as u64,
        }
    }

    /// Start one send: `None` once the ceiling is exceeded, otherwise the
    /// pause to take before sending, in microseconds. The send is counted.
    pub fn begin_attempt(&mut self) -> (r: Option<u64>)
        ensures
            final(self).ceiling() == old(self).ceiling(),
            may_send(old(self).ceiling(), old(self).attempts()) ==> {
                &&& r matches Some(d) && d == backoff_micros(old(self).attempts())
                &&& final(self).attempts() == next_attempts(old(self).attempts())
            },
            !may_send(old(self).ceiling(), old(self).attempts()) ==> {
                &&& r is None
                &&& final(self).attempts() == old(self).attempts()
            },
    {
        if !self.can_send() {
            return None;
        }
        let d = backoff_delay(self.attempts);
        if self.attempts < u64::MAX {
            self.attempts = self.attempts + 1;
        }
        Some(d)
    }

    /// The error returned once the ceiling is exceeded.
    pub fn exhausted_error() -> (e: Error)
        ensures
            e.is_client_error(MAX_RETRY_MESSAGE@, MAX_RETRY_STATUS),
    {
        Error::client_error(MAX_RETRY_MESSAGE.to_owned(), MAX_RETRY_STATUS)
    }
}

proof fn lemma_sends_remaining(ceiling: u32, attempts: nat)
    requires
        attempts <= ceiling + 1,
    ensures
        sends_until_exhausted(ceiling, attempts) == ceiling + 1 - attempts,
    decreases ceiling + 1 - attempts,
{
    if attempts <= ceiling {
        lemma_sends_remaining(ceiling, attempts + 1);
    }
}

/// With a ceiling of `n` retries, a loop that no send ends (every send fails
/// to connect) makes exactly `n + 1` sends, and then refuses to send again.
pub proof fn lemma_ceiling_allows_n_plus_one_sends(n: u32)
    ensures
        sends_until_exhausted(n, 0) == n + 1,
        forall|k: nat| k <= n ==> #[trigger] may_send(Some(n), k),
        !may_send(Some(n), (n + 1) as nat),
{
    lemma_sends_remaining(n, 0);
}

/// Without a ceiling the loop never refuses a send.
pub proof fn lemma_unbounded_never_exhausts(attempts: nat)
    ensures
        may_send(None, attempts),
{
}

} // verus!
