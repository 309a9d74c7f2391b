//! The event pump of one session: the very first iteration synthesizes a
//! forced full-update event without consulting the multiplexer; every later
//! iteration blocks on the channel set and hands back one tagged event.

use vstd::prelude::*;

use crate::channels::{event_matches_source, ChannelError, Channels, EventSource};
use crate::events::QueueEvent;

verus! {

/// One session's event pump, owning the session's channel set for the
/// session's entire duration.
pub struct Runtime {
    channels: Channels,
    first_update: bool,
}

impl Runtime {
    /// Whether the forced first full update is still owed.
    pub closed spec fn awaiting_first_update(&self) -> bool {
        self.first_update
    }

    /// The channel set this pump draws from.
    pub closed spec fn channels(&self) -> Channels {
        self.channels
    }

    /// Starts a session's event pump over a freshly built channel set.
    pub fn new(channels: Channels) -> (r: Runtime)
        ensures
            r.awaiting_first_update(),
            r.channels() == channels,
    {
        Runtime { channels, first_update: true }
    }

    /// Produces the next event to dispatch. The first call always yields the
    /// synthesized full-update event and never consults the multiplexer;
    /// every later call consumes exactly one correctly tagged value from one
    /// ready channel.
    pub fn next_event(&mut self) -> (r: Result<QueueEvent, ChannelError>)
        ensures
            !final(self).awaiting_first_update(),
            final(self).channels() == old(self).channels(),
            old(self).awaiting_first_update() ==> r == Ok::<QueueEvent, ChannelError>(
                QueueEvent::Notify,
            ),
            r matches Ok(ev) ==> exists|s: EventSource| event_matches_source(s, ev),
    {
        if self.first_update {
            self.first_update = false;
            proof {
                assert(event_matches_source(EventSource::ChangeNotifier, QueueEvent::Notify));
            }
            Ok(QueueEvent::Notify)
        } else {
            self.channels.select_event()
        }
    }
}

} // verus!
