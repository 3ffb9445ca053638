use haole::input::KeyStroke;
use haole::style::{Line, Tone};
use haole::watch::{
    effective_interval, watch_banner, watch_error, watch_farewell, WatchAction, WatchEvent,
    WatchLoop, WatchPhase, DEFAULT_INTERVAL_SECS, MIN_INTERVAL_SECS,
};

fn spans(line: &Line) -> Vec<(Tone, String)> {
    line.spans.iter().map(|s| (s.tone, s.text.clone())).collect()
}

fn key(pressed: bool, symbol: Option<char>) -> Option<KeyStroke> {
    Some(KeyStroke { pressed, symbol })
}

#[test]
fn no_watch_flag_means_a_single_run() {
    assert_eq!(effective_interval(None), 0);
}

#[test]
fn watch_without_a_number_means_five_seconds() {
    assert_eq!(effective_interval(Some(None)), 5);
    assert_eq!(DEFAULT_INTERVAL_SECS, 5);
}

#[test]
fn interval_is_the_larger_of_request_and_two() {
    assert_eq!(MIN_INTERVAL_SECS, 2);
    for s in [0u64, 1, 2, 3, 4, 5, 6, 60, 3600, u64::MAX] {
        assert_eq!(effective_interval(Some(Some(s))), std::cmp::max(s, 2), "for {}", s);
    }
    assert_eq!(effective_interval(Some(Some(0))), 2);
    assert_eq!(effective_interval(Some(Some(1))), 2);
    assert_eq!(effective_interval(Some(Some(2))), 2);
    assert_eq!(effective_interval(Some(Some(3))), 3);
}

#[test]
fn single_run_stops_after_the_command() {
    let mut w = WatchLoop::new(None);
    assert!(!w.is_watching());
    assert_eq!(w.interval_secs(), 0);
    assert_eq!(w.pending(), WatchAction::Run);
    assert_eq!(w.step(WatchEvent::Ran { failed: false }), WatchAction::Stop);
    assert_eq!(w.phase(), WatchPhase::Stopped);
    assert!(!w.has_failed());
}

#[test]
fn single_run_that_fails_is_a_failure_of_the_program() {
    let mut w = WatchLoop::new(None);
    assert_eq!(w.step(WatchEvent::Ran { failed: true }), WatchAction::Stop);
    assert!(w.has_failed());
}

#[test]
fn watch_waits_the_interval_after_each_run() {
    let mut w = WatchLoop::new(Some(Some(1)));
    assert!(w.is_watching());
    assert_eq!(w.pending(), WatchAction::Run);
    assert_eq!(w.step(WatchEvent::Ran { failed: false }), WatchAction::Poll { secs: 2 });
    assert_eq!(w.step(WatchEvent::Polled(None)), WatchAction::Run);
    assert_eq!(w.step(WatchEvent::Ran { failed: false }), WatchAction::Poll { secs: 2 });
    let mut w = WatchLoop::new(Some(None));
    assert_eq!(w.step(WatchEvent::Ran { failed: false }), WatchAction::Poll { secs: 5 });
    let mut w = WatchLoop::new(Some(Some(30)));
    assert_eq!(w.step(WatchEvent::Ran { failed: false }), WatchAction::Poll { secs: 30 });
}

#[test]
fn watch_goes_on_after_a_failed_run() {
    let mut w = WatchLoop::new(Some(Some(3)));
    assert_eq!(w.step(WatchEvent::Ran { failed: true }), WatchAction::Poll { secs: 3 });
    assert_eq!(w.phase(), WatchPhase::Waiting);
    assert!(!w.has_failed());
    assert_eq!(w.step(WatchEvent::Polled(None)), WatchAction::Run);
    assert_eq!(w.phase(), WatchPhase::Running);
    assert_eq!(w.step(WatchEvent::Ran { failed: true }), WatchAction::Poll { secs: 3 });
    assert!(!w.has_failed());
}

#[test]
fn watch_stops_on_a_quit_key_in_either_case() {
    for c in ['q', 'Q'] {
        let mut w = WatchLoop::new(Some(None));
        w.step(WatchEvent::Ran { failed: false });
        assert_eq!(w.step(WatchEvent::Polled(key(true, Some(c)))), WatchAction::Stop);
        assert_eq!(w.phase(), WatchPhase::Stopped);
        assert!(!w.has_failed());
        assert_eq!(w.step(WatchEvent::Ran { failed: false }), WatchAction::Stop);
        assert_eq!(w.step(WatchEvent::Polled(None)), WatchAction::Stop);
    }
}

#[test]
fn watch_ignores_other_keys_and_releases() {
    for k in [key(true, Some('x')), key(true, None), key(false, Some('q')), key(false, Some('Q'))] {
        let mut w = WatchLoop::new(Some(None));
        w.step(WatchEvent::Ran { failed: false });
        assert_eq!(w.step(WatchEvent::Polled(k)), WatchAction::Run);
    }
}

#[test]
fn watch_stops_in_failure_when_the_terminal_fails() {
    let mut w = WatchLoop::new(Some(None));
    assert_eq!(w.step(WatchEvent::Failed), WatchAction::Stop);
    assert!(w.has_failed());
    let mut w = WatchLoop::new(Some(None));
    w.step(WatchEvent::Ran { failed: false });
    assert_eq!(w.step(WatchEvent::Failed), WatchAction::Stop);
    assert!(w.has_failed());
}

#[test]
fn watch_ignores_an_event_it_is_not_waiting_for() {
    let mut w = WatchLoop::new(Some(None));
    assert_eq!(w.step(WatchEvent::Polled(key(true, Some('q')))), WatchAction::Run);
    assert_eq!(w.phase(), WatchPhase::Running);
    w.step(WatchEvent::Ran { failed: false });
    assert_eq!(w.step(WatchEvent::Ran { failed: true }), WatchAction::Poll { secs: 5 });
    assert_eq!(w.phase(), WatchPhase::Waiting);
}

#[test]
fn watch_banner_names_the_interval() {
    assert_eq!(
        spans(&watch_banner(5)),
        vec![
            (Tone::Blue, ">>".to_string()),
            (Tone::Plain, " 5秒おきに監視中... (Qキーで終了)\n".to_string()),
        ]
    );
    assert_eq!(watch_banner(120).plain_text(), ">> 120秒おきに監視中... (Qキーで終了)\n");
}

#[test]
fn watch_error_carries_the_reason() {
    assert_eq!(
        spans(&watch_error("connection refused")),
        vec![(Tone::Red, "!!".to_string()), (Tone::Plain, " エラー: connection refused".to_string())]
    );
}

#[test]
fn watch_farewell_is_set_off_by_an_empty_line() {
    assert_eq!(
        spans(&watch_farewell()),
        vec![(Tone::Plain, "\n".to_string()), (Tone::Yellow, "監視を終了しました。".to_string())]
    );
}

#[test]
fn single_run_has_no_banner_no_failure_line_and_no_farewell() {
    let mut w = WatchLoop::new(None);
    assert!(w.banner().is_none());
    assert!(w.failure_line("boom").is_none());
    assert!(w.closing_line().is_none());
    w.step(WatchEvent::Ran { failed: false });
    assert!(w.closing_line().is_none());
}

#[test]
fn watch_has_a_banner_and_prints_failures() {
    let w = WatchLoop::new(Some(Some(1)));
    assert_eq!(w.banner().unwrap().plain_text(), ">> 2秒おきに監視中... (Qキーで終了)\n");
    assert_eq!(w.failure_line("boom").unwrap().plain_text(), "!! エラー: boom");
    assert!(w.closing_line().is_none());
}

#[test]
fn watch_says_farewell_after_a_quit_key_only() {
    let mut w = WatchLoop::new(Some(None));
    w.step(WatchEvent::Ran { failed: false });
    assert!(w.closing_line().is_none());
    w.step(WatchEvent::Polled(key(true, Some('q'))));
    assert_eq!(spans(&w.closing_line().unwrap()), spans(&watch_farewell()));
    let mut w = WatchLoop::new(Some(None));
    w.step(WatchEvent::Failed);
    assert!(w.closing_line().is_none());
}
