//! The media player of Windows.
use vstd::prelude::*;

use crate::double::Double;
use crate::listeners::{EventListeners, EventListenersView};
use crate::numbers;
use crate::types::{Emission, MediaEvent, MediaPlayerMediaType, MediaPlayerPlaybackStatus};
use crate::windows::controls;
use crate::windows::controls::{
    MediaPlaybackStatus, MediaPlaybackType, SystemMediaTransportControlsButton, TimelineProperties,
};
use crate::windows::time;

verus! {

/// A media player: what the media transport controls do not hold.
pub struct MediaPlayer {
    pub listeners: EventListeners,
    pub seek_enabled: bool,
    pub track_id: String,
}

/// What a `MediaPlayer` holds.
#[verifier::ext_equal]
pub struct MediaPlayerView {
    pub listeners: EventListenersView,
    pub seek_enabled: bool,
    pub track_id: Seq<char>,
}

impl View for MediaPlayer {
    type V = MediaPlayerView;

    open spec fn view(&self) -> MediaPlayerView {
        MediaPlayerView {
            listeners: self.listeners@,
            seek_enabled: self.seek_enabled,
            track_id: self.track_id@,
        }
    }
}

impl MediaPlayer {
    /// A player that can seek, without a track.
    pub fn new() -> (r: Self)
        ensures
            r@ == (MediaPlayerView {
                listeners: EventListenersView::empty(),
                seek_enabled: true,
                track_id: Seq::empty(),
            }),
    {
        MediaPlayer {
            listeners: EventListeners::new(),
            seek_enabled: true,
            track_id: String::new(),
        }
    }

    /// Deactivates the MediaPlayer denying the operating system to see and use it
    ///
    /// Returns the status to show: closed is the one for a session that is no longer active.
    pub fn deactivate(&self) -> (r: MediaPlaybackStatus)
        ensures
            r == MediaPlaybackStatus::Closed,
    {
        MediaPlaybackStatus::Closed
    }

    /// Adds an event listener to the MediaPlayer
    ///
    /// 'buttonpressed' - Emitted when a media services button is pressed
    /// 'positionchanged' - Emitted when the media service requests a position change
    /// 'positionseeked' - Emitted when the media service requests a forward or backward position seek from current position
    ///
    /// Says whether the callback was added; one that listens already is not.
    pub fn add_event_listener(&mut self, event_name: String, callback: usize, handle: u64) -> (r: bool)
        ensures
            final(self)@ == (MediaPlayerView {
                listeners: old(self)@.listeners.added(event_name@, callback, handle),
                ..old(self)@
            }),
            r == (MediaEvent::named_spec(event_name@) matches Some(event) && !old(
                self,
            )@.listeners.of(event).contains_key(callback)),
    {
        self.listeners.add_event_listener(&event_name, callback, handle)
    }

    /// Removes an event listener from the MediaPlayer
    ///
    /// Says by which handle the callback was called.
    pub fn remove_event_listener(&mut self, event_name: String, callback: usize) -> (r: Option<u64>)
        ensures
            final(self)@ == (MediaPlayerView {
                listeners: old(self)@.listeners.removed(event_name@, callback),
                ..old(self)@
            }),
            r == match MediaEvent::named_spec(event_name@) {
                Some(event) => if old(self)@.listeners.of(event).contains_key(callback) {
                    Some(old(self)@.listeners.of(event)[callback])
                } else {
                    None
                },
                None => None,
            },
    {
        self.listeners.remove_event_listener(&event_name, callback)
    }

    /// Adds an event listener to the MediaPlayer
    ///
    /// Alias for addEventListener
    pub fn on(&mut self, event_name: String, callback: usize, handle: u64) -> (r: bool)
        ensures
            final(self)@ == (MediaPlayerView {
                listeners: old(self)@.listeners.added(event_name@, callback, handle),
                ..old(self)@
            }),
            r == (MediaEvent::named_spec(event_name@) matches Some(event) && !old(
                self,
            )@.listeners.of(event).contains_key(callback)),
    {
        self.add_event_listener(event_name, callback, handle)
    }

    /// Removes an event listener from the MediaPlayer
    ///
    /// Alias for removeEventListener
    pub fn off(&mut self, event_name: String, callback: usize) -> (r: Option<u64>)
        ensures
            final(self)@ == (MediaPlayerView {
                listeners: old(self)@.listeners.removed(event_name@, callback),
                ..old(self)@
            }),
            r == match MediaEvent::named_spec(event_name@) {
                Some(event) => if old(self)@.listeners.of(event).contains_key(callback) {
                    Some(old(self)@.listeners.of(event)[callback])
                } else {
                    None
                },
                None => None,
            },
    {
        self.remove_event_listener(event_name, callback)
    }

    /// Sets the timeline data
    ///
    /// You MUST call this function everytime the position changes in the song. The media service will become out of sync if this is not called enough or cause seeked signals to be emitted to the media service unnecessarily.
    ///
    /// Returns the timeline to show.
    pub fn set_timeline(&mut self, duration: Double, position: Double) -> (r: Result<
        TimelineProperties,
        String,
    >)
        ensures
            final(self)@ == old(self)@,
            match numbers::timeline_fault(duration, position) {
                Some(fault) => r matches Err(reason) && reason@ == fault,
                None => r == Ok::<TimelineProperties, String>(
                    controls::timeline(duration, position),
                ),
            },
    {
        if let Err(reason) = numbers::validate_timeline(duration, position) {
            return Err(reason);
        }
        Ok(
            TimelineProperties {
                start_time: Double::zero(),
                end_time: duration,
                position,
                min_seek_time: Double::zero(),
                max_seek_time: duration,
            },
        )
    }

    /// Gets the seek enabled state
    pub fn get_seek_enabled(&self) -> (r: bool)
        ensures
            r == self@.seek_enabled,
    {
        self.seek_enabled
    }

    /// Sets the seek enabled state
    pub fn set_seek_enabled(&mut self, enabled: bool)
        ensures
            final(self)@ == (MediaPlayerView { seek_enabled: enabled, ..old(self)@ }),
    {
        self.seek_enabled = enabled;
    }

    /// Gets the playback status
    ///
    /// `status` is the one that the media transport controls show.
    pub fn get_playback_status(&self, status: MediaPlaybackStatus) -> (r: MediaPlayerPlaybackStatus)
        ensures
            r == controls::status_shown(status),
    {
        match status {
            MediaPlaybackStatus::Playing => MediaPlayerPlaybackStatus::Playing,
            MediaPlaybackStatus::Paused => MediaPlayerPlaybackStatus::Paused,
            MediaPlaybackStatus::Stopped => MediaPlayerPlaybackStatus::Stopped,
            _ => MediaPlayerPlaybackStatus::Unknown,
        }
    }

    /// Sets the playback status
    ///
    /// Returns the status to show. An unknown status is refused.
    pub fn set_playback_status(&mut self, playback_status: MediaPlayerPlaybackStatus) -> (r: Result<
        MediaPlaybackStatus,
        String,
    >)
        ensures
            final(self)@ == old(self)@,
            match controls::shown_status(playback_status) {
                Some(status) => r == Ok::<MediaPlaybackStatus, String>(status),
                None => r matches Err(reason) && reason@
                    == "Unknown is not a valid MediaPlayerPlaybackStatus to set"@,
            },
    {
        match playback_status {
            MediaPlayerPlaybackStatus::Playing => Ok(MediaPlaybackStatus::Playing),
            MediaPlayerPlaybackStatus::Paused => Ok(MediaPlaybackStatus::Paused),
            MediaPlayerPlaybackStatus::Stopped => Ok(MediaPlaybackStatus::Stopped),
            _ => Err("Unknown is not a valid MediaPlayerPlaybackStatus to set".to_owned()),
        }
    }

    /// Gets the media type
    ///
    /// `playback_type` is the one that the media transport controls show.
    pub fn get_media_type(&self, playback_type: MediaPlaybackType) -> (r: MediaPlayerMediaType)
        ensures
            r == controls::type_shown(playback_type),
    {
        match playback_type {
            MediaPlaybackType::Music => MediaPlayerMediaType::Music,
            _ => MediaPlayerMediaType::Unknown,
        }
    }

    /// Sets the media type
    ///
    /// Returns the kind of media to show. An unknown media type is refused.
    pub fn set_media_type(&mut self, media_type: MediaPlayerMediaType) -> (r: Result<
        MediaPlaybackType,
        String,
    >)
        ensures
            final(self)@ == old(self)@,
            match controls::shown_type(media_type) {
                Some(playback_type) => r == Ok::<MediaPlaybackType, String>(playback_type),
                None => r matches Err(reason) && reason@
                    == "Unknown is not a valid MediaPlayerMediaType to set"@,
            },
    {
        match media_type {
            MediaPlayerMediaType::Music => Ok(MediaPlaybackType::Music),
            _ => Err("Unknown is not a valid MediaPlayerMediaType to set".to_owned()),
        }
    }

    /// Gets the track id
    pub fn get_track_id(&self) -> (r: String)
        ensures
            r@ == self@.track_id,
    {
        self.track_id.clone()
    }

    /// Sets the track id
    pub fn set_track_id(&mut self, track_id: String)
        ensures
            final(self)@ == (MediaPlayerView { track_id: track_id@, ..old(self)@ }),
    {
        self.track_id = track_id;
    }

    /// What the listeners are told of a button.
    pub fn button_pressed(&self, button: SystemMediaTransportControlsButton) -> (r: Option<
        Emission,
    >)
        ensures
            r == controls::button_response(button, self@.seek_enabled),
    {
        controls::dispatch_smtc_button(button, self.seek_enabled)
    }

    /// What the listeners are told of a requested position, given as a time span.
    pub fn position_change_requested(&self, requested: i64) -> (r: Option<Emission>)
        requires
            self@.seek_enabled ==> time::is_convertible(requested),
        ensures
            r == if self@.seek_enabled {
                Some(Emission::PositionChanged(time::span_of(requested).seconds_spec()))
            } else {
                None
            },
    {
        if !self.seek_enabled {
            return None;
        }
        controls::position_requested(time::timespan_to_span(requested).seconds(), self.seek_enabled)
    }

    /// Lets go of all listeners.
    pub fn finalize(&mut self)
        ensures
            final(self)@ == (MediaPlayerView {
                listeners: EventListenersView::empty(),
                ..old(self)@
            }),
    {
        self.listeners.clear();
    }
}

} // verus!
