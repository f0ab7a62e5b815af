//! The flat-pool variant of the fan-out/fan-in pattern.
//!
//! A fixed pool of stateless worker units all report to one counting
//! collector: every message a worker receives becomes exactly one completion
//! pulse. The collector increments a counter per pulse and, when the counter
//! first reaches or exceeds its target, fires a one-shot completion signal
//! exactly once; the driver blocks on that signal instead of polling. The
//! collector's counter needs no lock because the runtime processes one unit's
//! mailbox on a single logical thread of control; the step functions here are
//! that single-writer logic.

use vstd::prelude::*;

verus! {

/// A one-shot completion signal: a single-use handle from the collector to
/// the driver. Only its fired/not-fired state matters to the protocol; the
/// transport that wakes the waiting driver is the concurrency collaborator's.
pub struct CompletionSignal {
    /// Whether the signal has been fired.
    pub fired: bool,
}

impl CompletionSignal {
    /// A fresh, unfired signal.
    pub fn new() -> (s: CompletionSignal)
        ensures
            !s.fired,
    {
        CompletionSignal { fired: false }
    }

    /// Fire the signal. Firing an already-fired signal is accepted and has no
    /// effect; the result says whether this call is the one that fired it.
    pub fn fire(&mut self) -> (fired_now: bool)
        ensures
            final(self).fired,
            fired_now == !old(self).fired,
    {
        let was_fired = self.fired;
        self.fired = true;
        !was_fired
    }
}

/// The counting collector: a monotonically increasing counter of received
/// completion pulses, a fixed target, and the one-shot signal it fires when
/// the counter first reaches the target.
pub struct Collector {
    /// How many completion pulses have been received.
    pub count: usize,
    /// The target number of pulses.
    pub amount: usize,
    /// The one-shot completion signal handed to the driver.
    pub signal: CompletionSignal,
}

/// A collector as constructed: counter at zero, signal unfired.
pub open spec fn fresh_collector(amount: usize) -> Collector {
    Collector { count: 0, amount: amount, signal: CompletionSignal { fired: false } }
}

/// The collector state after one completion pulse: the counter one higher,
/// and the signal fired as soon as the counter has ever reached the target.
pub open spec fn pulse_step(c: Collector) -> Collector {
    Collector {
        count: (c.count + 1) as usize,
        amount: c.amount,
        signal: CompletionSignal { fired: c.signal.fired || c.count + 1 >= c.amount },
    }
}

/// Whether one pulse delivered in state `c` fires the signal: the counter
/// just reached or exceeded the target and the signal was not fired before.
pub open spec fn pulse_fires(c: Collector) -> bool {
    !c.signal.fired && c.count + 1 >= c.amount
}

/// The collector state after `n` pulses.
pub open spec fn after_pulses(c: Collector, n: nat) -> Collector
    decreases n,
{
    if n == 0 {
        c
    } else {
        pulse_step(after_pulses(c, (n - 1) as nat))
    }
}

/// How many of `n` pulses delivered starting in state `c` fire the signal.
pub open spec fn fires_among(c: Collector, n: nat) -> nat
    decreases n,
{
    if n == 0 {
        0
    } else {
        fires_among(c, (n - 1) as nat) + (if pulse_fires(after_pulses(c, (n - 1) as nat)) {
            1nat
        } else {
            0nat
        })
    }
}

impl Collector {
    /// Construct a collector with target `amount` and a fresh signal.
    pub fn new(amount: usize) -> (c: Collector)
        requires
            amount >= 1,
        ensures
            c == fresh_collector(amount),
    {
        Collector { count: 0, amount: amount, signal: CompletionSignal::new() }
    }

    /// Receive one completion pulse: increment the counter and fire the
    /// signal when the counter first reaches or exceeds the target. Pulses
    /// beyond the target are accepted and have no further effect. Returns
    /// whether this pulse fired the signal.
    pub fn on_pulse(&mut self) -> (fired_now: bool)
        requires
            old(self).count < usize::MAX,
        ensures
            *final(self) == pulse_step(*old(self)),
            fired_now == pulse_fires(*old(self)),
    {
        self.count = self.count + 1;
        if self.count >= self.amount {
            self.signal.fire()
        } else {
            false
        }
    }
}

/// Law: the counter counts every pulse. After `n` pulses the counter reads
/// `c.count + n` and the target is unchanged, whatever the target and however
/// the pulses were produced — in the flat pool each message to a worker
/// yields exactly one pulse, so `m` messages distributed round-robin (or in
/// any other way) across the pool leave a fresh collector's counter at
/// exactly `m`.
pub proof fn lemma_counter_counts_all_pulses(c: Collector, n: nat)
    requires
        c.count + n <= usize::MAX,
    ensures
        after_pulses(c, n).count == c.count + n,
        after_pulses(c, n).amount == c.amount,
    decreases n,
{
    if n > 0 {
        lemma_counter_counts_all_pulses(c, (n - 1) as nat);
    }
}

/// After at least one pulse, the signal is fired exactly when it already was
/// or the counter has reached the target.
proof fn lemma_fired_after_pulses(c: Collector, n: nat)
    requires
        n >= 1,
        c.count + n <= usize::MAX,
    ensures
        after_pulses(c, n).signal.fired == (c.signal.fired || c.count + n >= c.amount),
    decreases n,
{
    if n == 1 {
        assert(after_pulses(c, 0nat) == c);
        assert(after_pulses(c, 1nat) == pulse_step(c));
    } else {
        lemma_fired_after_pulses(c, (n - 1) as nat);
        lemma_counter_counts_all_pulses(c, (n - 1) as nat);
    }
}

/// While the counter stays strictly below the target, no pulse fires the
/// signal of a fresh collector.
proof fn lemma_no_fires_below_target(amount: usize, k: nat)
    requires
        k < amount,
    ensures
        fires_among(fresh_collector(amount), k) == 0,
        !after_pulses(fresh_collector(amount), k).signal.fired,
        after_pulses(fresh_collector(amount), k).count == k,
        after_pulses(fresh_collector(amount), k).amount == amount,
    decreases k,
{
    if k > 0 {
        lemma_no_fires_below_target(amount, (k - 1) as nat);
    }
}

/// Law: a fresh collector with target `amount >= 1` that receives
/// `n >= amount` pulses fires its completion signal exactly once, whether the
/// number of pulses exactly equals or strictly exceeds the target.
pub proof fn lemma_collector_fires_exactly_once(amount: usize, n: nat)
    requires
        1 <= amount,
        amount <= n,
        n <= usize::MAX,
    ensures
        fires_among(fresh_collector(amount), n) == 1,
    decreases n,
{
    if n == amount {
        lemma_no_fires_below_target(amount, (n - 1) as nat);
    } else {
        lemma_collector_fires_exactly_once(amount, (n - 1) as nat);
        lemma_fired_after_pulses(fresh_collector(amount), (n - 1) as nat);
    }
}

/// Law: once the signal has fired, any number of extra pulses is accepted
/// without firing it again and without resetting it — a second independent
/// waiter would never be unblocked.
pub proof fn lemma_extra_pulses_never_refire(c: Collector, k: nat)
    requires
        c.signal.fired,
        c.count + k <= usize::MAX,
    ensures
        fires_among(c, k) == 0,
        after_pulses(c, k).signal.fired,
    decreases k,
{
    if k > 0 {
        lemma_extra_pulses_never_refire(c, (k - 1) as nat);
    }
}

/// A worker unit of the flat pool. It is constructed with a reference to the
/// collector (the driver holds that wiring); it keeps no state of its own and
/// ignores message content.
pub struct PoolWorker {}

impl PoolWorker {
    /// A fresh pool worker.
    pub fn new() -> (w: PoolWorker) {
        PoolWorker {}
    }

    /// Handle one message of opaque payload: no domain computation, exactly
    /// one "unit of work done" pulse to the collector. The worker is not
    /// terminated by a message; it stays ready for the next one.
    pub fn recv(&self, _payload: usize) -> (pulses: usize)
        ensures
            pulses == 1,
    {
        1
    }
}

/// Drive a flat pool of `units` workers under `messages` messages delivered
/// round-robin, as the load-test driver does with its producer threads, with
/// every pulse routed to one collector whose target is `messages`. Returns
/// the finished collector and how many pulses fired the signal: the counter
/// reads exactly `messages`, the signal has fired, and it fired exactly once.
pub fn run_pool(units: usize, messages: usize) -> (outcome: (Collector, usize))
    requires
        1 <= units,
        1 <= messages,
    ensures
        outcome.0.count == messages,
        outcome.0.amount == messages,
        outcome.0.signal.fired,
        outcome.1 == 1,
{
    let mut pool: Vec<PoolWorker> = Vec::new();
    let mut created: usize = 0;
    while created < units
        invariant
            pool.len() == created,
            created <= units,
        decreases units - created,
    {
        pool.push(PoolWorker::new());
        created = created + 1;
    }
    let mut collector = Collector::new(messages);
    let mut fired_count: usize = 0;
    let mut sent: usize = 0;
    while sent < messages
        invariant
            1 <= units,
            pool.len() == units,
            sent <= messages,
            collector.amount == messages,
            collector.count == sent,
            collector.signal.fired == (sent >= messages),
            fired_count == (if sent >= messages {
                1usize
            } else {
                0usize
            }),
        decreases messages - sent,
    {
        let target: usize = sent % units;
        let pulses = pool[target].recv(sent);
        assert(pulses == 1);
        let fired_now = collector.on_pulse();
        if fired_now {
            fired_count = fired_count + 1;
        }
        sent = sent + 1;
    }
    (collector, fired_count)
}

} // verus!
