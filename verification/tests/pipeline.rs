use keyberon::action::{k, Action};
use keyberon::key_code::KeyCode;
use keyscan_core::events::{KeyDirection, KeyEvent};
use keyscan_core::grid::KeyGrid;
use keyscan_core::scan::{ScanCore, TickAction};
use keyscan_core::usb::UsbLinkState;

/// One layer, each position its own keycode, row-major from `A`.
fn test_layers() -> keyberon::layout::Layers {
    let r0: &'static [Action] = Box::leak(
        vec![
            k(KeyCode::A),
            k(KeyCode::B),
            k(KeyCode::C),
            k(KeyCode::D),
            k(KeyCode::E),
            k(KeyCode::F),
            k(KeyCode::G),
        ]
        .into_boxed_slice(),
    );
    let r1: &'static [Action] = Box::leak(
        vec![
            k(KeyCode::H),
            k(KeyCode::I),
            k(KeyCode::J),
            k(KeyCode::K),
            k(KeyCode::L),
            k(KeyCode::M),
            k(KeyCode::N),
        ]
        .into_boxed_slice(),
    );
    let r2: &'static [Action] = Box::leak(
        vec![
            k(KeyCode::O),
            k(KeyCode::P),
            k(KeyCode::Q),
            k(KeyCode::R),
            k(KeyCode::S),
            k(KeyCode::T),
            k(KeyCode::U),
        ]
        .into_boxed_slice(),
    );
    let r3: &'static [Action] = Box::leak(
        vec![
            k(KeyCode::V),
            k(KeyCode::W),
            k(KeyCode::X),
            k(KeyCode::Y),
            k(KeyCode::Z),
            k(KeyCode::Kb1),
            k(KeyCode::Kb2),
        ]
        .into_boxed_slice(),
    );
    let r4: &'static [Action] = Box::leak(
        vec![
            k(KeyCode::Kb3),
            k(KeyCode::Kb4),
            k(KeyCode::Kb5),
            k(KeyCode::Kb6),
            k(KeyCode::Kb7),
            k(KeyCode::Kb8),
            k(KeyCode::Kb9),
        ]
        .into_boxed_slice(),
    );
    let rows: &'static [&'static [Action]] =
        Box::leak(vec![r0, r1, r2, r3, r4].into_boxed_slice());
    Box::leak(vec![rows].into_boxed_slice())
}

const SETTLE: u16 = 20;

fn fresh_core() -> ScanCore {
    ScanCore::new(0, 1000, SETTLE, 3, test_layers())
}

#[test]
fn quiet_ticks_produce_nothing_and_feed_watchdog() {
    // no key activity over N ticks: no events, keycodes unchanged, one
    // watchdog feed per tick, and drift-free deadlines
    let mut core = fresh_core();
    let g = KeyGrid::new();
    for key_tick in 1..=8u64 {
        let out = core.scan_tick(&g, UsbLinkState::Configured);
        assert!(out.events.is_empty());
        assert!(out.keys.is_empty());
        assert_eq!(out.action, TickAction::Transmit);
        assert_eq!(out.next_deadline, (key_tick + 1) * 1000);
        assert_eq!(core.feeds, key_tick);
    }
}

#[test]
fn active_keycodes_read_is_idempotent() {
    let mut core = fresh_core();
    let mut g = KeyGrid::new();
    g.set(2, 3, true);
    for _ in 0..(SETTLE as usize + 3) {
        core.scan_tick(&g, UsbLinkState::Configured);
    }
    let first = core.layout.active_keycodes();
    let second = core.layout.active_keycodes();
    assert_eq!(first, second);
    assert_eq!(first, vec![KeyCode::R as u8]);
}

#[test]
fn unconfigured_link_never_transmits() {
    // even with a key held down and settled, a link that is not yet
    // configured skips every transmission
    let mut core = fresh_core();
    let mut g = KeyGrid::new();
    g.set(0, 0, true);
    for _ in 0..(SETTLE as usize + 5) {
        let out = core.scan_tick(&g, UsbLinkState::DefaultState);
        assert_eq!(out.action, TickAction::SkipNotConfigured);
    }
    let out = core.scan_tick(&g, UsbLinkState::Addressed);
    assert_eq!(out.action, TickAction::SkipNotConfigured);
}

#[test]
fn press_hold_release_cycle() {
    // press (2, 3), hold through the settle window, release: one press
    // event after the window, one release event after release settles, and
    // the mapped keycode active strictly between the two
    let mut core = fresh_core();
    let mut g = KeyGrid::new();

    // a first quiet tick
    let out = core.scan_tick(&g, UsbLinkState::Configured);
    assert!(out.events.is_empty());
    assert!(out.keys.is_empty());

    g.set(2, 3, true);
    // the raw press is filtered for the whole settle window
    for _ in 0..SETTLE {
        let out = core.scan_tick(&g, UsbLinkState::Configured);
        assert!(out.events.is_empty());
        assert!(out.keys.is_empty());
    }
    // settled: the press event is emitted exactly once
    let out = core.scan_tick(&g, UsbLinkState::Configured);
    assert_eq!(
        out.events,
        vec![KeyEvent { row: 2, col: 3, dir: KeyDirection::Press }]
    );
    assert_eq!(out.action, TickAction::Transmit);

    // the engine applies the queued press on the next tick: the mapped
    // keycode (R) is active from here on
    let out = core.scan_tick(&g, UsbLinkState::Configured);
    assert_eq!(out.keys, vec![KeyCode::R as u8]);
    assert_eq!(&out.report.bytes[..], &[0, 0, KeyCode::R as u8, 0, 0, 0, 0, 0]);

    // hold: no further events, keycode stays active
    for _ in 0..4 {
        let out = core.scan_tick(&g, UsbLinkState::Configured);
        assert!(out.events.is_empty());
        assert_eq!(out.keys, vec![KeyCode::R as u8]);
    }

    g.set(2, 3, false);
    // the release is filtered for the whole settle window; the keycode is
    // still active in between
    for _ in 0..SETTLE {
        let out = core.scan_tick(&g, UsbLinkState::Configured);
        assert!(out.events.is_empty());
        assert_eq!(out.keys, vec![KeyCode::R as u8]);
    }
    // settled: the release event is emitted exactly once
    let out = core.scan_tick(&g, UsbLinkState::Configured);
    assert_eq!(
        out.events,
        vec![KeyEvent { row: 2, col: 3, dir: KeyDirection::Release }]
    );
    // and applied on the next tick: nothing active after
    let out = core.scan_tick(&g, UsbLinkState::Configured);
    assert!(out.keys.is_empty());
    for _ in 0..3 {
        let out = core.scan_tick(&g, UsbLinkState::Configured);
        assert!(out.events.is_empty());
        assert!(out.keys.is_empty());
    }
}

#[test]
fn two_keys_in_one_tick_skip_that_report() {
    // both keys settle in the same tick: both events are applied to the
    // layout, but that tick's report is skipped by the multi-event policy
    let mut core = fresh_core();
    let mut g = KeyGrid::new();
    g.set(0, 0, true);
    g.set(0, 1, true);
    for _ in 0..SETTLE {
        let out = core.scan_tick(&g, UsbLinkState::Configured);
        assert!(out.events.is_empty());
    }
    let out = core.scan_tick(&g, UsbLinkState::Configured);
    assert_eq!(
        out.events,
        vec![
            KeyEvent { row: 0, col: 0, dir: KeyDirection::Press },
            KeyEvent { row: 0, col: 1, dir: KeyDirection::Press },
        ]
    );
    assert_eq!(out.action, TickAction::SkipMultiEvent);

    // the engine unstacks one queued event per tick: both keycodes end up
    // active, and the following reports are transmitted again
    let out = core.scan_tick(&g, UsbLinkState::Configured);
    assert_eq!(out.action, TickAction::Transmit);
    assert_eq!(out.keys, vec![KeyCode::A as u8]);
    let out = core.scan_tick(&g, UsbLinkState::Configured);
    assert_eq!(out.action, TickAction::Transmit);
    assert_eq!(out.keys, vec![KeyCode::A as u8, KeyCode::B as u8]);
    assert_eq!(
        &out.report.bytes[..],
        &[0, 0, KeyCode::A as u8, KeyCode::B as u8, 0, 0, 0, 0]
    );
}

#[test]
fn debounce_bounce_restarts_the_window() {
    // a bouncing contact never settles: no event is ever emitted
    let mut core = fresh_core();
    let mut pressed = KeyGrid::new();
    pressed.set(1, 1, true);
    let released = KeyGrid::new();
    for _ in 0..10 {
        let out = core.scan_tick(&pressed, UsbLinkState::Configured);
        assert!(out.events.is_empty());
        let out = core.scan_tick(&released, UsbLinkState::Configured);
        assert!(out.events.is_empty());
    }
    assert!(core.layout.active_keycodes().is_empty());
}

#[test]
fn two_phase_firing_matches_fused_tick() {
    // a handler on hardware programs the alarm and feeds the watchdog
    // between the two phases; the outcome is the same as the fused call
    let mut fused = fresh_core();
    let mut phased = fresh_core();
    let mut g = KeyGrid::new();
    g.set(2, 3, true);
    for _ in 0..(SETTLE as usize + 4) {
        let a = fused.scan_tick(&g, UsbLinkState::Configured);
        let d = phased.begin_tick();
        let b = phased.process_grid(&g, UsbLinkState::Configured);
        assert_eq!(a.next_deadline, d);
        assert_eq!(a.next_deadline, b.next_deadline);
        assert_eq!(a.events, b.events);
        assert_eq!(a.keys, b.keys);
        assert_eq!(a.report.bytes, b.report.bytes);
        assert_eq!(a.action, b.action);
    }
    assert_eq!(fused.feeds, phased.feeds);
    assert_eq!(fused.alarm, phased.alarm);
}
