//! The watch/debounce state machine: filesystem events on the two mod
//! folders and the settings file are coalesced by a fixed debounce
//! window into single rescans, and at most one rescan is in flight at
//! a time. The surrounding loop performs the returned action (arming
//! the timer, starting a scan) and feeds the next input back in.

use vstd::prelude::*;

verus! {

/// The debounce window, in milliseconds: how long after the last event
/// the timer the loop arms must run before a rescan starts.
pub const DEBOUNCE_WINDOW_MILLIS: u64 = 100;

/// Where the loop stands.
#[derive(Clone, Copy, PartialEq, Eq, Structural, Debug)]
pub enum WatchPhase {
    /// No rescan pending.
    Idle,
    /// An event arrived; the debounce timer is running.
    Debouncing,
    /// A rescan is in progress; `pending` records whether an event
    /// arrived meanwhile.
    Scanning { pending: bool },
}

/// What the loop must do after a step.
#[derive(Clone, Copy, PartialEq, Eq, Structural, Debug)]
pub enum WatchAction {
    /// Nothing.
    Wait,
    /// Arm the debounce timer.
    StartTimer,
    /// Re-arm the debounce timer from the start.
    RestartTimer,
    /// Begin one rescan.
    BeginScan,
}

/// What can happen to the loop.
#[derive(Clone, Copy, PartialEq, Eq, Structural, Debug)]
pub enum WatchInput {
    /// A filesystem event on a watched path: a mod folder or the
    /// settings file.
    FsEvent,
    /// The debounce timer ran out.
    TimerElapsed,
    /// The running rescan finished.
    ScanComplete,
}

/// The transition relation of the loop. An event while debouncing only
/// re-arms the timer; an event while scanning is remembered and turns
/// into a fresh debounce once the scan completes, so requests are
/// coalesced, never queued deeper than one.
pub open spec fn spec_step(s: WatchPhase, input: WatchInput) -> (WatchPhase, WatchAction) {
    match input {
        WatchInput::FsEvent => match s {
            WatchPhase::Idle => (WatchPhase::Debouncing, WatchAction::StartTimer),
            WatchPhase::Debouncing => (WatchPhase::Debouncing, WatchAction::RestartTimer),
            WatchPhase::Scanning { pending: _ } => (
                WatchPhase::Scanning { pending: true },
                WatchAction::Wait,
            ),
        },
        WatchInput::TimerElapsed => match s {
            WatchPhase::Debouncing => (
                WatchPhase::Scanning { pending: false },
                WatchAction::BeginScan,
            ),
            _ => (s, WatchAction::Wait),
        },
        WatchInput::ScanComplete => match s {
            WatchPhase::Scanning { pending: true } => (
                WatchPhase::Debouncing,
                WatchAction::StartTimer,
            ),
            WatchPhase::Scanning { pending: false } => (WatchPhase::Idle, WatchAction::Wait),
            _ => (s, WatchAction::Wait),
        },
    }
}

/// One step of the loop.
pub fn step(s: WatchPhase, input: WatchInput) -> (r: (WatchPhase, WatchAction))
    ensures
        r == spec_step(s, input),
{
    match input {
        WatchInput::FsEvent => match s {
            WatchPhase::Idle => (WatchPhase::Debouncing, WatchAction::StartTimer),
            WatchPhase::Debouncing => (WatchPhase::Debouncing, WatchAction::RestartTimer),
            WatchPhase::Scanning { pending: _ } => (
                WatchPhase::Scanning { pending: true },
                WatchAction::Wait,
            ),
        },
        WatchInput::TimerElapsed => match s {
            WatchPhase::Debouncing => (
                WatchPhase::Scanning { pending: false },
                WatchAction::BeginScan,
            ),
            _ => (s, WatchAction::Wait),
        },
        WatchInput::ScanComplete => match s {
            WatchPhase::Scanning { pending: true } => (
                WatchPhase::Debouncing,
                WatchAction::StartTimer,
            ),
            WatchPhase::Scanning { pending: false } => (WatchPhase::Idle, WatchAction::Wait),
            _ => (s, WatchAction::Wait),
        },
    }
}

/// The phase after feeding `inputs` one by one from `s`.
pub open spec fn spec_run(s: WatchPhase, inputs: Seq<WatchInput>) -> WatchPhase
    decreases inputs.len(),
{
    if inputs.len() == 0 {
        s
    } else {
        spec_run(spec_step(s, inputs[0]).0, inputs.drop_first())
    }
}

/// How many rescans feeding `inputs` from `s` begins.
pub open spec fn spec_scan_count(s: WatchPhase, inputs: Seq<WatchInput>) -> nat
    decreases inputs.len(),
{
    if inputs.len() == 0 {
        0
    } else {
        (if spec_step(s, inputs[0]).1 == WatchAction::BeginScan {
            1nat
        } else {
            0nat
        }) + spec_scan_count(spec_step(s, inputs[0]).0, inputs.drop_first())
    }
}

/// A burst of `n` filesystem events.
pub open spec fn spec_event_burst(n: nat) -> Seq<WatchInput> {
    Seq::new(n, |i: int| WatchInput::FsEvent)
}

proof fn lemma_burst_from_debouncing(n: nat)
    ensures
        spec_run(WatchPhase::Debouncing, spec_event_burst(n)) == WatchPhase::Debouncing,
        spec_scan_count(WatchPhase::Debouncing, spec_event_burst(n)) == 0,
    decreases n,
{
    if n > 0 {
        assert(spec_event_burst(n).drop_first() =~= spec_event_burst((n - 1) as nat));
        lemma_burst_from_debouncing((n - 1) as nat);
    }
}

proof fn lemma_scan_count_snoc(s: WatchPhase, inputs: Seq<WatchInput>, last: WatchInput)
    ensures
        spec_scan_count(s, inputs.push(last)) == spec_scan_count(s, inputs) + (if spec_step(
            spec_run(s, inputs),
            last,
        ).1 == WatchAction::BeginScan {
            1nat
        } else {
            0nat
        }),
    decreases inputs.len(),
{
    if inputs.len() == 0 {
        assert(inputs.push(last)[0] == last);
        assert(inputs.push(last).drop_first() =~= inputs);
        assert(spec_run(s, inputs) == s);
        assert(spec_scan_count(spec_step(s, last).0, inputs) == 0);
    } else {
        assert(inputs.push(last)[0] == inputs[0]);
        assert(inputs.push(last).drop_first() =~= inputs.drop_first().push(last));
        lemma_scan_count_snoc(spec_step(s, inputs[0]).0, inputs.drop_first(), last);
    }
}

/// Debounce coalescing: any burst of filesystem events arriving within
/// one debounce window — the timer only runs out after the last of
/// them — begins exactly one rescan, however many events the burst
/// holds.
pub proof fn lemma_debounce_coalesces(n: nat)
    requires
        n >= 1,
    ensures
        spec_scan_count(WatchPhase::Idle, spec_event_burst(n).push(WatchInput::TimerElapsed))
            == 1,
        spec_run(WatchPhase::Idle, spec_event_burst(n).push(WatchInput::TimerElapsed))
            == (WatchPhase::Scanning { pending: false }),
{
    let burst = spec_event_burst(n);
    assert(burst[0] == WatchInput::FsEvent);
    assert(spec_step(WatchPhase::Idle, WatchInput::FsEvent).0 == WatchPhase::Debouncing);
    assert(burst.drop_first() =~= spec_event_burst((n - 1) as nat));
    lemma_burst_from_debouncing((n - 1) as nat);
    assert(spec_run(WatchPhase::Idle, burst) == WatchPhase::Debouncing) by {
        lemma_run_snoc_free(n);
    }
    assert(spec_scan_count(WatchPhase::Idle, burst) == 0) by {
        lemma_run_snoc_free(n);
    }
    lemma_scan_count_snoc(WatchPhase::Idle, burst, WatchInput::TimerElapsed);
    lemma_run_snoc(WatchPhase::Idle, burst, WatchInput::TimerElapsed);
}

proof fn lemma_run_snoc_free(n: nat)
    requires
        n >= 1,
    ensures
        spec_run(WatchPhase::Idle, spec_event_burst(n)) == WatchPhase::Debouncing,
        spec_scan_count(WatchPhase::Idle, spec_event_burst(n)) == 0,
{
    let burst = spec_event_burst(n);
    assert(burst[0] == WatchInput::FsEvent);
    assert(burst.drop_first() =~= spec_event_burst((n - 1) as nat));
    lemma_burst_from_debouncing((n - 1) as nat);
}

proof fn lemma_run_snoc(s: WatchPhase, inputs: Seq<WatchInput>, last: WatchInput)
    ensures
        spec_run(s, inputs.push(last)) == spec_step(spec_run(s, inputs), last).0,
    decreases inputs.len(),
{
    if inputs.len() == 0 {
        assert(inputs.push(last)[0] == last);
        assert(inputs.push(last).drop_first() =~= inputs);
        assert(spec_run(s, inputs) == s);
        assert(spec_run(spec_step(s, last).0, inputs) == spec_step(s, last).0);
    } else {
        assert(inputs.push(last)[0] == inputs[0]);
        assert(inputs.push(last).drop_first() =~= inputs.drop_first().push(last));
        lemma_run_snoc(spec_step(s, inputs[0]).0, inputs.drop_first(), last);
    }
}

} // verus!
