use vstd::prelude::*;

verus! {

/// Attempts made at most for one network call.
pub const MAX_ATTEMPTS: u32 = 30;

/// The delay that the linear backoff starts from, in milliseconds.
pub const INITIAL_DELAY_MS: u64 = 10;

/// What each further failure adds to the delay, in milliseconds.
pub const DELAY_STEP_MS: u64 = 100;

/// After `failures` failed attempts, how long to wait before the next one,
/// or `None` when the attempts are used up.
pub open spec fn retry_delay(failures: nat) -> Option<nat> {
    if failures < MAX_ATTEMPTS {
        Some((INITIAL_DELAY_MS + DELAY_STEP_MS * failures) as nat)
    } else {
        None
    }
}

/// The linear backoff of one network call: counts failed attempts and says
/// how long to wait after each.
pub struct Retry {
    failures: u32,
}

impl Retry {
    pub closed spec fn failures(&self) -> nat {
        self.failures as nat
    }

    pub closed spec fn wf(&self) -> bool {
        self.failures <= MAX_ATTEMPTS
    }

    pub fn new() -> (r: Retry)
        ensures
            r.wf(),
            r.failures() == 0,
    {
        Retry { failures: 0 }
    }

    pub fn failures_so_far(&self) -> (r: u32)
        ensures
            r as nat == self.failures(),
    {
        self.failures
    }

    /// Records a failed attempt. Returns the delay before the next attempt,
    /// or `None` when the call has now failed `MAX_ATTEMPTS` times and must
    /// be given up.
    pub fn on_failure(&mut self) -> (r: Option<u64>)
        requires
            old(self).wf(),
        ensures
            final(self).wf(),
            final(self).failures() == if old(self).failures() < MAX_ATTEMPTS {
                old(self).failures() + 1
            } else {
                old(self).failures()
            },
            r matches Some(d) ==> retry_delay(final(self).failures()) == Some(d as nat),
            r is None <==> retry_delay(final(self).failures()) is None,
    {
        if self.failures < MAX_ATTEMPTS {
            self.failures = self.failures + 1;
        }
        if self.failures < MAX_ATTEMPTS {
            Some(INITIAL_DELAY_MS + DELAY_STEP_MS * self.failures as u64)
        } else {
            None
        }
    }
}

/// The delays that a call failing `k` times in a row is retried after, one
/// per failure.
pub open spec fn retry_schedule(k: nat) -> Seq<Option<nat>> {
    Seq::new(k, |i: int| retry_delay((i + 1) as nat))
}

/// A call that fails `k` times and then succeeds, with `k` under the
/// attempt ceiling, is retried exactly `k` times, after delays of 110 ms,
/// 210 ms and so on, 100 ms longer each time; it then succeeds on attempt
/// `k + 1`, which is within the ceiling.
pub proof fn lemma_retry_schedule(k: nat)
    requires
        k < MAX_ATTEMPTS,
    ensures
        retry_schedule(k) == Seq::new(k, |i: int| Some((110 + 100 * i) as nat)),
        k + 1 <= MAX_ATTEMPTS,
{
    assert(retry_schedule(k) =~= Seq::new(k, |i: int| Some((110 + 100 * i) as nat)));
}

/// The call is given up on its `MAX_ATTEMPTS`-th failure and not before.
pub proof fn lemma_retry_ceiling(failures: nat)
    ensures
        retry_delay(failures) is None <==> failures >= MAX_ATTEMPTS,
{
}

} // verus!
