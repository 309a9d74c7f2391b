//! The signal channel set of one session and the blocking multiplexer over it:
//! six single-consumer receive endpoints, of which exactly one is consumed per
//! wait, the value coming back tagged with its originating source.

use vstd::prelude::*;

use crate::cadence::{SPINNER_INTERVAL_MS, TICK_INTERVAL_MS};
use crate::events::{
    AsyncAppNotification, AsyncGitNotification, AsyncNotification, InputEvent, QueueEvent,
};

verus! {

/// Receive endpoints are held and read by the session that owns them; the
/// values inside are only ever moved out, never inspected here.
#[verifier::external_type_specification]
#[verifier::external_body]
#[verifier::reject_recursive_types(T)]
pub struct ExReceiver<T>(crossbeam_channel::Receiver<T>);

/// Send endpoints are created together with their receivers and handed to the
/// application so its background workers can report completions.
#[verifier::external_type_specification]
#[verifier::external_body]
#[verifier::reject_recursive_types(T)]
pub struct ExSender<T>(crossbeam_channel::Sender<T>);

/// The payload of the two clock channels; the driver discards it on receipt.
#[verifier::external_type_specification]
#[verifier::external_body]
pub struct ExInstant(std::time::Instant);

/// The error a receive endpoint reports once its channel is empty and
/// disconnected.
#[verifier::external_type_specification]
#[verifier::external_body]
pub struct ExRecvError(crossbeam_channel::RecvError);

/// Relies on crossbeam_channel::unbounded: creates a connected
/// sender/receiver pair for an unbounded queue.
pub assume_specification<T>[ crossbeam_channel::unbounded::<T> ]() -> (r: (
    crossbeam_channel::Sender<T>,
    crossbeam_channel::Receiver<T>,
));

/// Relies on crossbeam_channel::Receiver::recv: blocks until a message
/// arrives and returns it, or reports an error once the channel is empty and
/// all senders have been dropped.
pub assume_specification<T>[ crossbeam_channel::Receiver::<T>::recv ](
    rx: &crossbeam_channel::Receiver<T>,
) -> (r: Result<T, crossbeam_channel::RecvError>);

/// Relies on crossbeam_channel::tick: a channel of capacity one that is never
/// disconnected and delivers a message every `ms` milliseconds.
#[verifier::external_body]
fn tick_channel(ms: u64) -> (r: crossbeam_channel::Receiver<std::time::Instant>) {
    crossbeam_channel::tick(std::time::Duration::from_millis(ms))
}

/// Relies on crossbeam_channel::never: a channel that never delivers a
/// message and never disconnects; it stands in for whichever update source a
/// session leaves permanently inert.
#[verifier::external_body]
fn never_channel<T>() -> (r: crossbeam_channel::Receiver<T>) {
    crossbeam_channel::never()
}

/// Relies on crossbeam_channel::Select (new, recv, ready): registers the six
/// receivers in the given order and blocks until at least one registered
/// operation no longer has to block, returning that operation's registration
/// index. A ready operation may be one that would report a disconnection, and
/// readiness may in rare cases be reported spuriously; the caller therefore
/// completes the wait with a blocking receive on the indicated endpoint.
/// Selection among simultaneously ready operations is unspecified.
#[verifier::external_body]
fn wait_any_ready(
    rx_input: &crossbeam_channel::Receiver<InputEvent>,
    rx_git: &crossbeam_channel::Receiver<AsyncGitNotification>,
    rx_app: &crossbeam_channel::Receiver<AsyncAppNotification>,
    rx_ticker: &crossbeam_channel::Receiver<std::time::Instant>,
    rx_watcher: &crossbeam_channel::Receiver<()>,
    rx_spinner: &crossbeam_channel::Receiver<std::time::Instant>,
) -> (r: usize)
    ensures
        r < 6,
{
    let mut sel = crossbeam_channel::Select::new();
    sel.recv(rx_input);
    sel.recv(rx_git);
    sel.recv(rx_app);
    sel.recv(rx_ticker);
    sel.recv(rx_watcher);
    sel.recv(rx_spinner);
    sel.ready()
}

/// Which of the two mutually exclusive full-update sources a session runs on;
/// chosen once at session start and fixed for the session's lifetime.
#[derive(Clone, Copy, Debug, PartialEq, Eq, Structural)]
pub enum Updater {
    Ticker,
    NotifyWatcher,
}

/// The two full-update signal sources a session can be driven by.
#[derive(Clone, Copy, Debug, PartialEq, Eq, Structural)]
pub enum UpdateSource {
    PeriodicTimer,
    ChangeNotifier,
}

/// Which update source can ever deliver a value under the given mode; the
/// other one is wired to an inert channel for the whole session.
pub open spec fn update_source_live(u: Updater, s: UpdateSource) -> bool {
    match u {
        Updater::Ticker => s == UpdateSource::PeriodicTimer,
        Updater::NotifyWatcher => s == UpdateSource::ChangeNotifier,
    }
}

/// Law: in every session exactly one of the periodic timer and the change
/// notifier is live; the other never yields a value.
pub proof fn lemma_one_live_update_source(u: Updater)
    ensures
        update_source_live(u, UpdateSource::PeriodicTimer) != update_source_live(
            u,
            UpdateSource::ChangeNotifier,
        ),
{
}

/// The six receive endpoints owned by one session. They are created together,
/// passed to the runtime loop together, and dropped together when the session
/// ends; outstanding background work completing after that is unobservable.
pub struct Channels {
    updater: Updater,
    rx_input: crossbeam_channel::Receiver<InputEvent>,
    rx_git: crossbeam_channel::Receiver<AsyncGitNotification>,
    rx_app: crossbeam_channel::Receiver<AsyncAppNotification>,
    rx_ticker: crossbeam_channel::Receiver<std::time::Instant>,
    rx_watcher: crossbeam_channel::Receiver<()>,
    rx_spinner: crossbeam_channel::Receiver<std::time::Instant>,
}

/// The identity of the channel a multiplexed event was consumed from.
#[derive(Clone, Copy, Debug, PartialEq, Eq, Structural)]
pub enum EventSource {
    Input,
    GitWorker,
    AppWorker,
    PeriodicTimer,
    ChangeNotifier,
    AnimationClock,
}

/// The tag an event must carry to identify the given origin channel.
pub open spec fn event_matches_source(src: EventSource, ev: QueueEvent) -> bool {
    match src {
        EventSource::Input => ev is InputEvent,
        EventSource::GitWorker => ev matches QueueEvent::AsyncEvent(AsyncNotification::Git(_)),
        EventSource::AppWorker => ev matches QueueEvent::AsyncEvent(AsyncNotification::App(_)),
        EventSource::PeriodicTimer => ev is Tick,
        EventSource::ChangeNotifier => ev is Notify,
        EventSource::AnimationClock => ev is SpinnerUpdate,
    }
}

/// Law: the tagging never conflates sources: an event's tag identifies at
/// most one origin channel.
pub proof fn lemma_source_tag_unambiguous(ev: QueueEvent, s1: EventSource, s2: EventSource)
    requires
        event_matches_source(s1, ev),
        event_matches_source(s2, ev),
    ensures
        s1 == s2,
{
}

/// Law: every event the multiplexer can produce carries a tag that identifies
/// an origin channel.
pub proof fn lemma_every_event_tagged(ev: QueueEvent)
    ensures
        exists|s: EventSource| event_matches_source(s, ev),
{
    match ev {
        QueueEvent::Tick => {
            assert(event_matches_source(EventSource::PeriodicTimer, ev));
        },
        QueueEvent::Notify => {
            assert(event_matches_source(EventSource::ChangeNotifier, ev));
        },
        QueueEvent::SpinnerUpdate => {
            assert(event_matches_source(EventSource::AnimationClock, ev));
        },
        QueueEvent::AsyncEvent(n) => {
            match n {
                AsyncNotification::Git(_) => {
                    assert(event_matches_source(EventSource::GitWorker, ev));
                },
                AsyncNotification::App(_) => {
                    assert(event_matches_source(EventSource::AppWorker, ev));
                },
            }
        },
        QueueEvent::InputEvent(_) => {
            assert(event_matches_source(EventSource::Input, ev));
        },
    }
}

/// The session's wait failed because a channel was empty and disconnected;
/// the session treats this as fatal.
#[derive(Clone, Copy, Debug, PartialEq, Eq, Structural)]
pub enum ChannelError {
    Disconnected,
}

impl Channels {
    /// The update-source mode this channel set was built for.
    pub closed spec fn update_mode(&self) -> Updater {
        self.updater
    }

    /// Blocks until one endpoint has a value, consumes exactly one value from
    /// exactly one endpoint, and returns it tagged with its origin.
    pub fn select_source(&self) -> (r: Result<(EventSource, QueueEvent), ChannelError>)
        ensures
            r matches Ok(p) ==> event_matches_source(p.0, p.1),
    {
        let idx = wait_any_ready(
            &self.rx_input,
            &self.rx_git,
            &self.rx_app,
            &self.rx_ticker,
            &self.rx_watcher,
            &self.rx_spinner,
        );
        if idx == 0 {
            match self.rx_input.recv() {
                Ok(ev) => Ok((EventSource::Input, QueueEvent::InputEvent(ev))),
                Err(_) => Err(ChannelError::Disconnected),
            }
        } else if idx == 1 {
            match self.rx_git.recv() {
                Ok(n) => Ok(
                    (EventSource::GitWorker, QueueEvent::AsyncEvent(AsyncNotification::Git(n))),
                ),
                Err(_) => Err(ChannelError::Disconnected),
            }
        } else if idx == 2 {
            match self.rx_app.recv() {
                Ok(n) => Ok(
                    (EventSource::AppWorker, QueueEvent::AsyncEvent(AsyncNotification::App(n))),
                ),
                Err(_) => Err(ChannelError::Disconnected),
            }
        } else if idx == 3 {
            match self.rx_ticker.recv() {
                Ok(_) => Ok((EventSource::PeriodicTimer, QueueEvent::Tick)),
                Err(_) => Err(ChannelError::Disconnected),
            }
        } else if idx == 4 {
            match self.rx_watcher.recv() {
                Ok(_) => Ok((EventSource::ChangeNotifier, QueueEvent::Notify)),
                Err(_) => Err(ChannelError::Disconnected),
            }
        } else {
            match self.rx_spinner.recv() {
                Ok(_) => Ok((EventSource::AnimationClock, QueueEvent::SpinnerUpdate)),
                Err(_) => Err(ChannelError::Disconnected),
            }
        }
    }

    /// One multiplexer wait: exactly one correctly tagged event per call.
    pub fn select_event(&self) -> (r: Result<QueueEvent, ChannelError>)
        ensures
            r matches Ok(ev) ==> exists|s: EventSource| event_matches_source(s, ev),
    {
        match self.select_source() {
            Ok((source, ev)) => {
                proof {
                    assert(event_matches_source(source, ev));
                }
                Ok(ev)
            },
            Err(e) => Err(e),
        }
    }
}

/// Builds one session's channel set: fresh worker queues, the clock channels,
/// and — depending on the update mode — either a live periodic timer with an
/// inert change notifier or the other way round. Returns the two send
/// endpoints the application's background workers report through.
pub fn build_channels(
    updater: Updater,
    rx_input: crossbeam_channel::Receiver<InputEvent>,
    rx_watcher: Option<crossbeam_channel::Receiver<()>>,
) -> (r: (
    Channels,
    crossbeam_channel::Sender<AsyncGitNotification>,
    crossbeam_channel::Sender<AsyncAppNotification>,
))
    requires
        (updater == Updater::NotifyWatcher) <==> rx_watcher is Some,
    ensures
        r.0.update_mode() == updater,
{
    let (tx_git, rx_git) = crossbeam_channel::unbounded();
    let (tx_app, rx_app) = crossbeam_channel::unbounded();
    let (rx_ticker, rx_watch): (
        crossbeam_channel::Receiver<std::time::Instant>,
        crossbeam_channel::Receiver<()>,
    ) = match rx_watcher {
        Some(watcher) => (never_channel(), watcher),
        None => (tick_channel(TICK_INTERVAL_MS), never_channel()),
    };
    let rx_spinner = tick_channel(SPINNER_INTERVAL_MS);
    let channels = Channels {
        updater,
        rx_input,
        rx_git,
        rx_app,
        rx_ticker,
        rx_watcher: rx_watch,
        rx_spinner,
    };
    (channels, tx_git, tx_app)
}

} // verus!
