//! The multiplexer over real channels: one correctly tagged event per wait,
//! the forced first full update, and the mutually exclusive update sources.

use gitui_core::channels::{build_channels, ChannelError, Updater};
use gitui_core::events::{
    AsyncAppNotification, AsyncGitNotification, AsyncNotification, InputEvent, InputState,
    QueueEvent, SyntaxHighlightProgress,
};
use gitui_core::runtime::Runtime;

fn next_non_spinner(runtime: &mut Runtime) -> Result<QueueEvent, ChannelError> {
    loop {
        match runtime.next_event() {
            Ok(QueueEvent::SpinnerUpdate) => continue,
            other => return other,
        }
    }
}

#[test]
fn first_iteration_forces_full_update_before_ready_events() {
    let (tx_input, rx_input) = crossbeam_channel::unbounded::<InputEvent>();
    let (channels, tx_git, _tx_app) = build_channels(Updater::Ticker, rx_input, None);
    // Queue events before the loop ever waits: the first iteration must still
    // bypass the multiplexer.
    tx_git.send(AsyncGitNotification::Status).unwrap();
    tx_input.send(InputEvent::State(InputState::Paused)).unwrap();
    let mut runtime = Runtime::new(channels);
    assert!(matches!(runtime.next_event(), Ok(QueueEvent::Notify)));
}

#[test]
fn git_notification_is_tagged_as_async_git_event() {
    let (_tx_input, rx_input) = crossbeam_channel::unbounded::<InputEvent>();
    let (channels, tx_git, _tx_app) = build_channels(Updater::Ticker, rx_input, None);
    let mut runtime = Runtime::new(channels);
    let _ = runtime.next_event();
    tx_git.send(AsyncGitNotification::Status).unwrap();
    assert!(matches!(
        next_non_spinner(&mut runtime),
        Ok(QueueEvent::AsyncEvent(AsyncNotification::Git(
            AsyncGitNotification::Status
        )))
    ));
}

#[test]
fn app_notification_is_tagged_as_async_app_event() {
    let (_tx_input, rx_input) = crossbeam_channel::unbounded::<InputEvent>();
    let (channels, _tx_git, tx_app) = build_channels(Updater::Ticker, rx_input, None);
    let mut runtime = Runtime::new(channels);
    let _ = runtime.next_event();
    tx_app
        .send(AsyncAppNotification::SyntaxHighlighting(SyntaxHighlightProgress::Done))
        .unwrap();
    assert!(matches!(
        next_non_spinner(&mut runtime),
        Ok(QueueEvent::AsyncEvent(AsyncNotification::App(
            AsyncAppNotification::SyntaxHighlighting(SyntaxHighlightProgress::Done)
        )))
    ));
}

#[test]
fn each_wait_consumes_exactly_one_value() {
    let (_tx_input, rx_input) = crossbeam_channel::unbounded::<InputEvent>();
    let (channels, tx_git, _tx_app) = build_channels(Updater::Ticker, rx_input, None);
    let mut runtime = Runtime::new(channels);
    let _ = runtime.next_event();
    tx_git.send(AsyncGitNotification::Status).unwrap();
    tx_git.send(AsyncGitNotification::Diff).unwrap();
    assert!(matches!(
        next_non_spinner(&mut runtime),
        Ok(QueueEvent::AsyncEvent(AsyncNotification::Git(
            AsyncGitNotification::Status
        )))
    ));
    assert!(matches!(
        next_non_spinner(&mut runtime),
        Ok(QueueEvent::AsyncEvent(AsyncNotification::Git(
            AsyncGitNotification::Diff
        )))
    ));
}

#[test]
fn input_value_is_tagged_as_input_event() {
    let (tx_input, rx_input) = crossbeam_channel::unbounded::<InputEvent>();
    let (channels, _tx_git, _tx_app) = build_channels(Updater::Ticker, rx_input, None);
    let mut runtime = Runtime::new(channels);
    let _ = runtime.next_event();
    tx_input.send(InputEvent::State(InputState::Polling)).unwrap();
    assert!(matches!(
        next_non_spinner(&mut runtime),
        Ok(QueueEvent::InputEvent(InputEvent::State(InputState::Polling)))
    ));
}

#[test]
fn change_notifier_value_is_tagged_as_notify() {
    let (_tx_input, rx_input) = crossbeam_channel::unbounded::<InputEvent>();
    let (tx_watch, rx_watch) = crossbeam_channel::unbounded::<()>();
    let (channels, _tx_git, _tx_app) =
        build_channels(Updater::NotifyWatcher, rx_input, Some(rx_watch));
    let mut runtime = Runtime::new(channels);
    let _ = runtime.next_event();
    tx_watch.send(()).unwrap();
    let ev = next_non_spinner(&mut runtime);
    assert!(matches!(ev, Ok(QueueEvent::Notify)));
    assert!(!matches!(ev, Ok(QueueEvent::Tick)));
}

#[test]
fn periodic_timer_value_is_tagged_as_tick() {
    let (_tx_input, rx_input) = crossbeam_channel::unbounded::<InputEvent>();
    let (channels, _tx_git, _tx_app) = build_channels(Updater::Ticker, rx_input, None);
    let mut runtime = Runtime::new(channels);
    let _ = runtime.next_event();
    // With no other channel activity the next non-spinner event can only be
    // the periodic timer, after its full five-second period.
    assert!(matches!(next_non_spinner(&mut runtime), Ok(QueueEvent::Tick)));
}

#[test]
fn animation_clock_fires_and_is_tagged_as_spinner_update() {
    let (_tx_input, rx_input) = crossbeam_channel::unbounded::<InputEvent>();
    let (channels, _tx_git, _tx_app) = build_channels(Updater::Ticker, rx_input, None);
    let mut runtime = Runtime::new(channels);
    let _ = runtime.next_event();
    loop {
        match runtime.next_event() {
            Ok(QueueEvent::SpinnerUpdate) => break,
            Ok(QueueEvent::Tick) => panic!("animation clock must fire well before the timer"),
            other => panic!("unexpected event before the animation clock: {:?}", other.is_ok()),
        }
    }
}

#[test]
fn disconnected_worker_channel_is_fatal() {
    let (_tx_input, rx_input) = crossbeam_channel::unbounded::<InputEvent>();
    let (channels, tx_git, _tx_app) = build_channels(Updater::Ticker, rx_input, None);
    let mut runtime = Runtime::new(channels);
    let _ = runtime.next_event();
    drop(tx_git);
    assert!(matches!(
        next_non_spinner(&mut runtime),
        Err(ChannelError::Disconnected)
    ));
}
