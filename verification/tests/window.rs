use rustygolem::credential::{refresh_delay, Refresh, TokenKeeper, REFRESH_MARGIN_SECS};
use rustygolem::error::Error;
use rustygolem::window::Window;

#[test]
fn window_bounds_the_hooks_in_flight() {
    let mut window = Window::new(7, 5);
    let mut started = Vec::new();
    while let Some(hook) = window.start() {
        started.push(hook);
    }
    assert_eq!(started, vec![0, 1, 2, 3, 4]);
    assert_eq!(window.start(), None);
    assert!(window.finish());
    assert_eq!(window.start(), Some(5));
    assert_eq!(window.start(), None);
    assert!(window.finish());
    assert!(window.finish());
    assert_eq!(window.start(), Some(6));
    assert_eq!(window.start(), None);
    assert!(!window.is_done());
    for _ in 0..4 {
        assert!(window.finish());
    }
    assert!(!window.finish());
    assert!(window.is_done());
    assert_eq!(window, Window { limit: 5, total: 7, started: 7, finished: 7 });
}

#[test]
fn window_without_limit_starts_everything() {
    let mut window = Window::new(9, 0);
    for expected in 0..9 {
        assert_eq!(window.start(), Some(expected));
    }
    assert_eq!(window.start(), None);
}

#[test]
fn empty_window_is_done() {
    let mut window = Window::new(0, 5);
    assert!(window.is_done());
    assert_eq!(window.start(), None);
    assert!(!window.finish());
}

#[test]
fn refresh_failure_keeps_the_credential() {
    let mut keeper = TokenKeeper::new("first".to_string());
    assert_eq!(keeper.get(), "first");
    assert_eq!(
        keeper.refreshed(Err(Error::Synthetic("no network".to_string()))),
        Refresh::Kept("Error while refreshing token: Generic plugin error no network".to_string())
    );
    assert_eq!(keeper.get(), "first");
    assert_eq!(keeper.refreshed(Ok("second".to_string())), Refresh::Renewed);
    assert_eq!(keeper.get(), "second");
    assert_eq!(
        keeper.refreshed(Err(Error::Generic("x".to_string()))),
        Refresh::Kept("Error while refreshing token: Generic error".to_string())
    );
    assert_eq!(keeper.get(), "second");
}

#[test]
fn refresh_is_due_a_minute_before_expiry() {
    assert_eq!(REFRESH_MARGIN_SECS, 60);
    assert_eq!(refresh_delay(3600), 3540);
    assert_eq!(refresh_delay(60), 0);
    assert_eq!(refresh_delay(59), 0);
    assert_eq!(refresh_delay(0), 0);
    assert_eq!(refresh_delay(u64::MAX), u64::MAX - 60);
}
