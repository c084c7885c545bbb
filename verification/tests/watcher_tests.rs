use eternalmodmanager::watcher::{step, WatchAction, WatchInput, WatchPhase, DEBOUNCE_WINDOW_MILLIS};

#[test]
fn five_events_in_one_window_trigger_exactly_one_rescan() {
    let mut phase = WatchPhase::Idle;
    let mut scans = 0;
    for _ in 0..5 {
        let (next, action) = step(phase, WatchInput::FsEvent);
        if action == WatchAction::BeginScan {
            scans += 1;
        }
        phase = next;
    }
    let (next, action) = step(phase, WatchInput::TimerElapsed);
    if action == WatchAction::BeginScan {
        scans += 1;
    }
    phase = next;
    assert_eq!(scans, 1);
    assert_eq!(phase, WatchPhase::Scanning { pending: false });
}

#[test]
fn event_during_scan_is_coalesced_into_one_follow_up() {
    let mut phase = WatchPhase::Scanning { pending: false };
    for _ in 0..3 {
        let (next, action) = step(phase, WatchInput::FsEvent);
        assert_eq!(action, WatchAction::Wait);
        phase = next;
    }
    assert_eq!(phase, WatchPhase::Scanning { pending: true });
    let (next, action) = step(phase, WatchInput::ScanComplete);
    assert_eq!(next, WatchPhase::Debouncing);
    assert_eq!(action, WatchAction::StartTimer);
}

#[test]
fn scan_completion_without_pending_events_returns_to_idle() {
    let (next, action) = step(WatchPhase::Scanning { pending: false }, WatchInput::ScanComplete);
    assert_eq!(next, WatchPhase::Idle);
    assert_eq!(action, WatchAction::Wait);
}

#[test]
fn event_while_debouncing_restarts_the_timer() {
    let (next, action) = step(WatchPhase::Debouncing, WatchInput::FsEvent);
    assert_eq!(next, WatchPhase::Debouncing);
    assert_eq!(action, WatchAction::RestartTimer);
}

#[test]
fn debounce_window_is_one_hundred_milliseconds() {
    assert_eq!(DEBOUNCE_WINDOW_MILLIS, 100);
}
