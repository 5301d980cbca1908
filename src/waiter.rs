use vstd::prelude::*;
use vstd::string::StringExecFns;

use crate::request::Provider;
use crate::response::decimal;

verus! {

/// How long a login waiter polls for its provider's code.
#[derive(Clone, Copy, Debug, PartialEq, Eq, Structural)]
pub struct WaitPolicy {
    /// Seconds between two polls.
    pub interval_secs: u32,
    /// Number of polls that may come back empty before the wait fails.
    pub max_attempts: u32,
}

/// Interval of the default policy: two seconds.
pub const DEFAULT_INTERVAL_SECS: u32 = 2;

/// Attempts of the default policy: 150 polls, five minutes in all.
pub const DEFAULT_MAX_ATTEMPTS: u32 = 150;

impl WaitPolicy {
    pub fn new(interval_secs: u32, max_attempts: u32) -> (r: WaitPolicy)
        ensures
            r.interval_secs == interval_secs,
            r.max_attempts == max_attempts,
    {
        WaitPolicy { interval_secs, max_attempts }
    }

    /// Two seconds between polls, 150 polls: a five-minute timeout.
    pub fn standard() -> (r: WaitPolicy)
        ensures
            r.interval_secs == DEFAULT_INTERVAL_SECS,
            r.max_attempts == DEFAULT_MAX_ATTEMPTS,
    {
        WaitPolicy { interval_secs: DEFAULT_INTERVAL_SECS, max_attempts: DEFAULT_MAX_ATTEMPTS }
    }

    pub open spec fn timeout(&self) -> nat {
        self.interval_secs as nat * self.max_attempts as nat
    }

    /// Total seconds slept before the wait gives up.
    pub fn timeout_secs(&self) -> (r: u64)
        ensures
            r == self.timeout(),
    {
        assert(self.interval_secs as nat * self.max_attempts as nat <= u32::MAX as nat
            * u32::MAX as nat) by (nonlinear_arith);
        self.interval_secs as u64 * self.max_attempts as u64
    }
}

/// What the login routine does after one poll of its code slot.
#[derive(Clone, Copy, Debug, PartialEq, Eq, Structural)]
pub enum WaitStep {
    /// The code is there: go on with the token exchange.
    Proceed,
    /// Not yet: sleep this many seconds and poll again.
    Sleep(u32),
    /// The attempts are spent: the login has failed.
    TimedOut,
}

pub struct WaiterView {
    pub provider: Provider,
    pub policy: WaitPolicy,
    pub attempts: nat,
}

/// One poll: a present code means proceed; an empty slot means sleep while
/// attempts are left, and time out once they are spent.
pub open spec fn poll_step(w: WaiterView, code_seen: bool) -> (WaiterView, WaitStep) {
    if code_seen {
        (w, WaitStep::Proceed)
    } else if w.attempts >= w.policy.max_attempts {
        (w, WaitStep::TimedOut)
    } else {
        (
            WaiterView { attempts: w.attempts + 1, ..w },
            WaitStep::Sleep(w.policy.interval_secs),
        )
    }
}

/// The waiter and the steps it returns after `k` polls that found no code.
pub open spec fn after_misses(w: WaiterView, k: nat) -> (WaiterView, Seq<WaitStep>)
    decreases k,
{
    if k == 0 {
        (w, Seq::empty())
    } else {
        let (w1, steps) = after_misses(w, (k - 1) as nat);
        let (w2, step) = poll_step(w1, false);
        (w2, steps.push(step))
    }
}

/// The step that the `j`-th empty poll of a fresh waiter returns.
pub open spec fn miss_outcome(policy: WaitPolicy, j: nat) -> WaitStep {
    if j < policy.max_attempts {
        WaitStep::Sleep(policy.interval_secs)
    } else {
        WaitStep::TimedOut
    }
}

/// Polls one provider's code slot under a `WaitPolicy`.
pub struct LoginWaiter {
    provider: Provider,
    policy: WaitPolicy,
    attempts: u32,
}

impl View for LoginWaiter {
    type V = WaiterView;

    closed spec fn view(&self) -> WaiterView {
        WaiterView { provider: self.provider, policy: self.policy, attempts: self.attempts as nat }
    }
}

impl LoginWaiter {
    pub open spec fn wf(&self) -> bool {
        self@.attempts <= self@.policy.max_attempts
    }

    pub fn new(provider: Provider, policy: WaitPolicy) -> (r: LoginWaiter)
        ensures
            r@ == (WaiterView { provider, policy, attempts: 0 }),
            r.wf(),
    {
        LoginWaiter { provider, policy, attempts: 0 }
    }

    /// Decides what to do after a poll that did (`code_seen`) or did not find
    /// the code.
    pub fn poll(&mut self, code_seen: bool) -> (step: WaitStep)
        requires
            old(self).wf(),
        ensures
            final(self).wf(),
            (final(self)@, step) == poll_step(old(self)@, code_seen),
    {
        if code_seen {
            WaitStep::Proceed
        } else if self.attempts >= self.policy.max_attempts {
            WaitStep::TimedOut
        } else {
            self.attempts = self.attempts + 1;
            WaitStep::Sleep(self.policy.interval_secs)
        }
    }

    pub fn provider(&self) -> (r: Provider)
        ensures
            r == self@.provider,
    {
        self.provider
    }

    pub fn policy(&self) -> (r: WaitPolicy)
        ensures
            r == self@.policy,
    {
        self.policy
    }

    /// The failure message once the wait has timed out: it names the provider
    /// and the time waited.
    pub fn timeout_message(&self) -> (r: String)
        ensures
            r@ == timeout_text(self@.provider, self@.policy.timeout()),
    {
        let secs = self.policy.timeout_secs();
        let digits = decimal_string(secs);
        let mut r = String::from_str("[");
        r.append(digits.as_str());
        r.append("s timeout] Failed to login to ");
        r.append(provider_name(self.provider));
        r
    }
}

/// A fresh waiter that never sees a code sleeps the policy's interval on each
/// of its first `max_attempts` polls and times out on the next one: it gives
/// up after exactly `interval × max_attempts` seconds of sleep, never earlier.
pub proof fn lemma_times_out_after_budget(provider: Provider, policy: WaitPolicy, k: nat)
    requires
        k <= policy.max_attempts + 1,
    ensures
        ({
            let (w, steps) = after_misses(WaiterView { provider, policy, attempts: 0 }, k);
            &&& steps.len() == k
            &&& w.policy == policy
            &&& forall|j: int| 0 <= j < k ==> steps[j] == miss_outcome(policy, j as nat)
            &&& w.attempts == if k <= policy.max_attempts {
                k
            } else {
                policy.max_attempts as nat
            }
        }),
    decreases k,
{
    if k > 0 {
        let w0 = WaiterView { provider, policy, attempts: 0 };
        lemma_times_out_after_budget(provider, policy, (k - 1) as nat);
        let (w1, s1) = after_misses(w0, (k - 1) as nat);
        let (w2, st) = poll_step(w1, false);
        assert(w1.attempts == k - 1);
        assert(st == miss_outcome(policy, (k - 1) as nat));
        let steps = s1.push(st);
        assert(after_misses(w0, k) == (w2, steps));
        assert forall|j: int| 0 <= j < k implies steps[j] == miss_outcome(policy, j as nat) by {
            if j < k - 1 {
                assert(steps[j] == s1[j]);
            }
        }
    }
}

pub open spec fn provider_text(p: Provider) -> Seq<char> {
    match p {
        Provider::Deezer => "Deezer"@,
        Provider::Spotify => "Spotify"@,
    }
}

/// `[<seconds>s timeout] Failed to login to <Provider>`.
pub open spec fn timeout_text(p: Provider, secs: nat) -> Seq<char> {
    "["@ + decimal_chars(secs) + "s timeout] Failed to login to "@ + provider_text(p)
}

/// The decimal rendering of `n` as characters.
pub open spec fn decimal_chars(n: nat) -> Seq<char> {
    decimal(n).map_values(|b: u8| b as char)
}

/// The display name of a provider.
pub fn provider_name(p: Provider) -> (r: &'static str)
    ensures
        r@ == provider_text(p),
{
    match p {
        Provider::Deezer => "Deezer",
        Provider::Spotify => "Spotify",
    }
}

/// Relies on `u64::to_string` (through `Display`): the decimal digits of `n`,
/// most significant first, with no sign or padding.
#[verifier::external_body]
fn decimal_string(n: u64) -> (r: String)
    ensures
        r@ == decimal_chars(n as nat),
{
    n.to_string()
}

} // verus!
