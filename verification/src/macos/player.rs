//! The media player of macOS.
use vstd::prelude::*;

use crate::double::Double;
use crate::listeners::{EventListeners, EventListenersView};
use crate::macos::controls::{MediaMetadata, MediaPlayback};
use crate::macos::state::{
    FlushMode, FlushPayload, FlushPayloadView, MediaPlayerState, MediaPlayerStateView,
    PlaybackStatePatch, TitleDataPatch, TitleDataPatchView,
};
use crate::numbers;
use crate::types;
use crate::types::{
    MediaEvent, MediaPlayerMediaType, MediaPlayerPlaybackStatus, MediaPlayerThumbnail,
};

verus! {

/// A media player and its listeners.
pub struct MediaPlayer {
    pub listeners: EventListeners,
    pub state: MediaPlayerState,
}

/// What a `MediaPlayer` holds.
#[verifier::ext_equal]
pub struct MediaPlayerView {
    pub listeners: EventListenersView,
    pub state: MediaPlayerStateView,
}

impl View for MediaPlayer {
    type V = MediaPlayerView;

    open spec fn view(&self) -> MediaPlayerView {
        MediaPlayerView { listeners: self.listeners@, state: self.state@ }
    }
}

pub open spec fn payload_view(payload: Option<FlushPayload>) -> Option<FlushPayloadView> {
    match payload {
        Some(payload) => Some(payload@),
        None => None,
    }
}

/// What is left to do of a flush.
#[derive(Clone, Copy, Debug)]
pub enum FlushStep<'a> {
    /// Show the metadata.
    SendMetadata(MediaMetadata<'a>),
    /// Show the playback.
    SendPlayback(MediaPlayback),
    /// Nothing.
    Done,
}

impl FlushPayloadView {
    /// What is left after the next step.
    pub open spec fn rest(self) -> Self {
        if self.metadata is Some {
            FlushPayloadView { metadata: None, ..self }
        } else {
            FlushPayloadView { playback: None, ..self }
        }
    }
}

impl MediaPlayerStateView {
    /// The state after the next step of a flush was made.
    pub open spec fn step_made(self, payload: FlushPayloadView) -> Self {
        match (payload.metadata, payload.playback) {
            (Some(snapshot), _) => self.metadata_flushed(payload.state_revision, snapshot),
            (None, Some(snapshot)) => self.playback_flushed(payload.state_revision, snapshot),
            (None, None) => self,
        }
    }
}

/// Two steps make every flush: they end in the state in which all of it was sent, with nothing left to
/// do.
pub proof fn law_flush_takes_two_steps(before: MediaPlayerStateView, mode: FlushMode)
    requires
        before.flush_payload(mode) is Some,
    ensures
        ({
            let payload = before.flush_payload(mode)->0;
            &&& before.step_made(payload).step_made(payload.rest()) == before.flushed(mode)
            &&& payload.rest().rest().metadata is None
            &&& payload.rest().rest().playback is None
        }),
{
}

impl FlushPayload {
    /// The next thing to do: the metadata are shown before the playback.
    pub fn next_step<'a>(&'a self) -> (r: FlushStep<'a>)
        ensures
            match (self@.metadata, self@.playback) {
                (Some(snapshot), _) => r matches FlushStep::SendMetadata(metadata) && metadata@
                    == snapshot.shown(),
                (None, Some(snapshot)) => r == FlushStep::<'a>::SendPlayback(snapshot.shown()),
                (None, None) => r is Done,
            },
    {
        match &self.metadata {
            Some(snapshot) => FlushStep::SendMetadata(snapshot.to_media_metadata()),
            None => match &self.playback {
                Some(snapshot) => FlushStep::SendPlayback(snapshot.to_media_playback()),
                None => FlushStep::Done,
            },
        }
    }
}

impl MediaPlayerView {
    /// The player with another state.
    pub open spec fn with_state(self, state: MediaPlayerStateView) -> Self {
        MediaPlayerView { state, ..self }
    }

    /// The player after a patch of what describes the track.
    pub open spec fn title_patched(self, patch: TitleDataPatchView) -> Self {
        self.with_state(self.state.title_patched(patch))
    }

    /// What is sent after a patch of what describes the track: nothing, if it changes nothing.
    pub open spec fn title_payload(self, patch: TitleDataPatchView, mode: FlushMode) -> Option<
        FlushPayloadView,
    > {
        if self.state.title_changes(patch) {
            self.state.title_patched(patch).flush_payload(mode)
        } else {
            None
        }
    }
}

/// The patch that sets the timeline.
pub open spec fn timeline_patch(duration: Double, position: Double) -> PlaybackStatePatch {
    PlaybackStatePatch {
        duration: Some(duration),
        position: Some(position),
        ..PlaybackStatePatch::empty()
    }
}

/// The patch that sets the playback status.
pub open spec fn status_patch(playback_status: MediaPlayerPlaybackStatus) -> PlaybackStatePatch {
    PlaybackStatePatch { playback_status: Some(playback_status), ..PlaybackStatePatch::empty() }
}

impl MediaPlayerStateView {
    /// What is sent after the timeline was set: with the timeline of a new track its metadata are sent
    /// too.
    pub open spec fn timeline_payload(self, duration: Double, position: Double) -> Option<
        FlushPayloadView,
    > {
        let patch = timeline_patch(duration, position);
        if !self.playback_changes(patch) {
            None
        } else if self.completes_transition(patch) {
            self.playback_patched(patch).flush_payload(FlushMode::TrackChange)
        } else {
            self.playback_patched(patch).flush_payload(FlushMode::PlaybackOnly)
        }
    }

    /// What is sent after the playback status was set.
    pub open spec fn status_payload(self, playback_status: MediaPlayerPlaybackStatus) -> Option<
        FlushPayloadView,
    > {
        let patch = status_patch(playback_status);
        if self.playback_changes(patch) {
            self.playback_patched(patch).flush_payload(FlushMode::PlaybackOnly)
        } else {
            None
        }
    }
}

/// Once its timeline is set, a new track of an active player is shown with its duration and position,
/// unless these are both what a new track has at first.
pub proof fn law_timeline_shows_new_track(
    before: MediaPlayerStateView,
    patch: TitleDataPatchView,
    duration: Double,
    position: Double,
)
    requires
        before.active,
        before.track_changes(patch),
        before.title_patched(patch).playback_changes(timeline_patch(duration, position)),
    ensures
        ({
            let changed = before.title_patched(patch);
            let after = changed.playback_patched(timeline_patch(duration, position));
            changed.timeline_payload(duration, position) == Some(
                FlushPayloadView {
                    state_revision: after.state_revision,
                    metadata: Some(after.metadata_snapshot()),
                    playback: Some(after.playback_snapshot()),
                },
            )
        }),
{
}

impl MediaPlayer {
    /// A player that is not active yet.
    pub fn new() -> (r: Self)
        ensures
            r@ == (MediaPlayerView {
                listeners: EventListenersView::empty(),
                state: MediaPlayerStateView::initial(),
            }),
    {
        MediaPlayer { listeners: EventListeners::new(), state: MediaPlayerState::default() }
    }

    /// Activates the MediaPlayer allowing the operating system to see and use it
    ///
    /// Returns what to send.
    pub fn activate(&mut self) -> (r: Option<FlushPayload>)
        ensures
            final(self)@ == old(self)@.with_state(
                MediaPlayerStateView { active: true, ..old(self)@.state },
            ),
            payload_view(r) == final(self)@.state.flush_payload(FlushMode::Full),
    {
        self.state.active = true;
        self.flush_state(FlushMode::Full)
    }

    /// Deactivates the MediaPlayer denying the operating system to see and use it
    ///
    /// Returns the playback to show.
    pub fn deactivate(&mut self) -> (r: MediaPlayback)
        ensures
            final(self)@ == old(self)@.with_state(
                MediaPlayerStateView { active: false, ..old(self)@.state },
            ),
            r == MediaPlayback::Stopped,
    {
        self.state.active = false;
        MediaPlayback::Stopped
    }

    /// Adds an event listener to the MediaPlayer
    ///
    /// 'buttonpressed' - Emitted when a media services button is pressed
    /// 'positionchanged' - Emitted when the media service requests a position change
    /// 'positionseeked' - Emitted when the media service requests a forward or backward position seek from current position
    ///
    /// Says whether the callback was added; one that listens already is not.
    pub fn add_event_listener(&mut self, event_name: String, callback: usize, handle: u64) -> (r: bool)
        ensures
            final(self)@ == (MediaPlayerView {
                listeners: old(self)@.listeners.added(event_name@, callback, handle),
                ..old(self)@
            }),
            r == (MediaEvent::named_spec(event_name@) matches Some(event) && !old(
                self,
            )@.listeners.of(event).contains_key(callback)),
    {
        self.listeners.add_event_listener(&event_name, callback, handle)
    }

    /// Removes an event listener from the MediaPlayer
    ///
    /// Says by which handle the callback was called.
    pub fn remove_event_listener(&mut self, event_name: String, callback: usize) -> (r: Option<u64>)
        ensures
            final(self)@ == (MediaPlayerView {
                listeners: old(self)@.listeners.removed(event_name@, callback),
                ..old(self)@
            }),
            r == match MediaEvent::named_spec(event_name@) {
                Some(event) => if old(self)@.listeners.of(event).contains_key(callback) {
                    Some(old(self)@.listeners.of(event)[callback])
                } else {
                    None
                },
                None => None,
            },
    {
        self.listeners.remove_event_listener(&event_name, callback)
    }

    /// Adds an event listener to the MediaPlayer
    ///
    /// Alias for addEventListener
    pub fn on(&mut self, event_name: String, callback: usize, handle: u64) -> (r: bool)
        ensures
            final(self)@ == (MediaPlayerView {
                listeners: old(self)@.listeners.added(event_name@, callback, handle),
                ..old(self)@
            }),
            r == (MediaEvent::named_spec(event_name@) matches Some(event) && !old(
                self,
            )@.listeners.of(event).contains_key(callback)),
    {
        self.add_event_listener(event_name, callback, handle)
    }

    /// Removes an event listener from the MediaPlayer
    ///
    /// Alias for removeEventListener
    pub fn off(&mut self, event_name: String, callback: usize) -> (r: Option<u64>)
        ensures
            final(self)@ == (MediaPlayerView {
                listeners: old(self)@.listeners.removed(event_name@, callback),
                ..old(self)@
            }),
            r == match MediaEvent::named_spec(event_name@) {
                Some(event) => if old(self)@.listeners.of(event).contains_key(callback) {
                    Some(old(self)@.listeners.of(event)[callback])
                } else {
                    None
                },
                None => None,
            },
    {
        self.remove_event_listener(event_name, callback)
    }

    /// Instructs the media service to update its media information being displayed
    ///
    /// Returns what to send.
    pub fn update(&self) -> (r: Option<FlushPayload>)
        ensures
            payload_view(r) == self@.state.flush_payload(FlushMode::Full),
    {
        self.flush_state(FlushMode::Full)
    }

    /// Sets the thumbnail
    ///
    /// Returns what to send.
    pub fn set_thumbnail(&mut self, thumbnail: &MediaPlayerThumbnail) -> (r: Option<FlushPayload>)
        ensures
            ({
                let patch = TitleDataPatchView {
                    thumbnail: Some(thumbnail.thumbnail@),
                    ..TitleDataPatchView::empty()
                };
                &&& final(self)@ == old(self)@.title_patched(patch)
                &&& payload_view(r) == old(self)@.title_payload(patch, FlushMode::MetadataOnly)
            }),
    {
        self.update_title_data(
            TitleDataPatch {
                thumbnail: Some(thumbnail.thumbnail.clone()),
                ..TitleDataPatch::default()
            },
            FlushMode::MetadataOnly,
        )
    }

    /// Sets the timeline data
    ///
    /// You MUST call this function everytime the position changes in the song. The media service will become out of sync if this is not called enough or cause seeked signals to be emitted to the media service unnecessarily.
    ///
    /// Returns what to send.
    pub fn set_timeline(&mut self, duration: Double, position: Double) -> (r: Result<
        Option<FlushPayload>,
        String,
    >)
        ensures
            match numbers::timeline_fault(duration, position) {
                Some(fault) => {
                    &&& final(self)@ == old(self)@
                    &&& r matches Err(reason) && reason@ == fault
                },
                None => {
                    &&& final(self)@ == old(self)@.with_state(
                        old(self)@.state.playback_patched(timeline_patch(duration, position)),
                    )
                    &&& r matches Ok(payload) && payload_view(payload) == old(
                        self,
                    )@.state.timeline_payload(duration, position)
                },
            },
    {
        if let Err(reason) = numbers::validate_timeline(duration, position) {
            return Err(reason);
        }
        let result = self.state.apply_playback_patch(
            PlaybackStatePatch {
                duration: Some(duration),
                position: Some(position),
                playback_status: None,
            },
        );
        if !result.changed {
            return Ok(None);
        }
        let flush_mode = if result.completed_track_transition {
            FlushMode::TrackChange
        } else {
            FlushMode::PlaybackOnly
        };
        Ok(self.flush_state(flush_mode))
    }

    /// Gets the play button enabled state
    pub fn get_play_button_enabled(&self) -> (r: bool)
        ensures
            r == self@.state.can_play,
    {
        self.state.can_play
    }

    /// Sets the play button enabled state
    pub fn set_play_button_enabled(&mut self, enabled: bool)
        ensures
            final(self)@ == old(self)@.with_state(
                MediaPlayerStateView { can_play: enabled, ..old(self)@.state },
            ),
    {
        self.state.can_play = enabled;
    }

    /// Gets the paused button enabled state
    pub fn get_pause_button_enabled(&self) -> (r: bool)
        ensures
            r == self@.state.can_pause,
    {
        self.state.can_pause
    }

    /// Sets the paused button enabled state
    pub fn set_pause_button_enabled(&mut self, enabled: bool)
        ensures
            final(self)@ == old(self)@.with_state(
                MediaPlayerStateView { can_pause: enabled, ..old(self)@.state },
            ),
    {
        self.state.can_pause = enabled;
    }

    /// Gets the stop button enabled state
    pub fn get_stop_button_enabled(&self) -> (r: bool)
        ensures
            r == self@.state.can_control,
    {
        self.state.can_control
    }

    /// Sets the stop button enabled state
    pub fn set_stop_button_enabled(&mut self, enabled: bool)
        ensures
            final(self)@ == old(self)@.with_state(
                MediaPlayerStateView { can_control: enabled, ..old(self)@.state },
            ),
    {
        self.state.can_control = enabled;
    }

    /// Gets the previous button enabled state
    pub fn get_previous_button_enabled(&self) -> (r: bool)
        ensures
            r == self@.state.can_go_previous,
    {
        self.state.can_go_previous
    }

    /// Sets the previous button enabled state
    pub fn set_previous_button_enabled(&mut self, enabled: bool)
        ensures
            final(self)@ == old(self)@.with_state(
                MediaPlayerStateView { can_go_previous: enabled, ..old(self)@.state },
            ),
    {
        self.state.can_go_previous = enabled;
    }

    /// Gets the next button enabled state
    pub fn get_next_button_enabled(&self) -> (r: bool)
        ensures
            r == self@.state.can_go_next,
    {
        self.state.can_go_next
    }

    /// Sets the next button enabled state
    pub fn set_next_button_enabled(&mut self, enabled: bool)
        ensures
            final(self)@ == old(self)@.with_state(
                MediaPlayerStateView { can_go_next: enabled, ..old(self)@.state },
            ),
    {
        self.state.can_go_next = enabled;
    }

    /// Gets the seek enabled state
    pub fn get_seek_enabled(&self) -> (r: bool)
        ensures
            r == self@.state.can_seek,
    {
        self.state.can_seek
    }

    /// Sets the seek enabled state
    pub fn set_seek_enabled(&mut self, enabled: bool)
        ensures
            final(self)@ == old(self)@.with_state(
                MediaPlayerStateView { can_seek: enabled, ..old(self)@.state },
            ),
    {
        self.state.can_seek = enabled;
    }

    /// Gets the playback rate
    pub fn get_playback_rate(&self) -> (r: Double)
        ensures
            r == self@.state.playback_rate,
    {
        self.state.playback_rate
    }

    /// Sets the playback rate
    pub fn set_playback_rate(&mut self, playback_rate: Double)
        ensures
            final(self)@ == old(self)@.with_state(
                MediaPlayerStateView { playback_rate, ..old(self)@.state },
            ),
    {
        self.state.playback_rate = playback_rate;
    }

    /// Gets the playback status
    pub fn get_playback_status(&self) -> (r: MediaPlayerPlaybackStatus)
        ensures
            r == self@.state.playback_status,
    {
        self.state.playback_status
    }

    /// Sets the playback status
    ///
    /// Returns what to send. An unknown status is refused.
    pub fn set_playback_status(&mut self, playback_status: MediaPlayerPlaybackStatus) -> (r: Result<
        Option<FlushPayload>,
        String,
    >)
        ensures
            if playback_status is Unknown {
                &&& final(self)@ == old(self)@
                &&& r matches Err(reason) && reason@
                    == "Unknown is not a valid MediaPlayerPlaybackStatus to set"@
            } else {
                &&& final(self)@ == old(self)@.with_state(
                    old(self)@.state.playback_patched(status_patch(playback_status)),
                )
                &&& r matches Ok(payload) && payload_view(payload) == old(
                    self,
                )@.state.status_payload(playback_status)
            },
    {
        if let Err(reason) = types::check_playback_status(playback_status) {
            return Err(reason);
        }
        let result = self.state.apply_playback_patch(
            PlaybackStatePatch {
                duration: None,
                position: None,
                playback_status: Some(playback_status),
            },
        );
        if !result.changed {
            return Ok(None);
        }
        Ok(self.flush_state(FlushMode::PlaybackOnly))
    }

    /// Gets the media type
    pub fn get_media_type(&self) -> (r: MediaPlayerMediaType)
        ensures
            r == self@.state.media_type,
    {
        self.state.media_type
    }

    /// Sets the media type
    ///
    /// An unknown media type is refused.
    pub fn set_media_type(&mut self, media_type: MediaPlayerMediaType) -> (r: Result<(), String>)
        ensures
            if media_type is Unknown {
                &&& final(self)@ == old(self)@
                &&& r matches Err(reason) && reason@
                    == "Unknown is not a valid MediaPlayerMediaType to set"@
            } else {
                &&& final(self)@ == old(self)@.with_state(
                    MediaPlayerStateView { media_type, ..old(self)@.state },
                )
                &&& r is Ok
            },
    {
        if let Err(reason) = types::check_media_type(media_type) {
            return Err(reason);
        }
        self.state.media_type = media_type;
        Ok(())
    }

    /// Gets the media title
    pub fn get_title(&self) -> (r: String)
        ensures
            r@ == self@.state.title,
    {
        self.state.title.clone()
    }

    /// Sets the media title
    ///
    /// Returns what to send.
    pub fn set_title(&mut self, title: String) -> (r: Option<FlushPayload>)
        ensures
            ({
                let patch = TitleDataPatchView {
                    title: Some(title@),
                    ..TitleDataPatchView::empty()
                };
                &&& final(self)@ == old(self)@.title_patched(patch)
                &&& payload_view(r) == old(self)@.title_payload(patch, FlushMode::MetadataOnly)
            }),
    {
        self.update_title_data(
            TitleDataPatch { title: Some(title), ..TitleDataPatch::default() },
            FlushMode::MetadataOnly,
        )
    }

    /// Gets the media artist
    pub fn get_artist(&self) -> (r: String)
        ensures
            r@ == self@.state.artist,
    {
        self.state.artist.clone()
    }

    /// Sets the media artist
    ///
    /// Returns what to send.
    pub fn set_artist(&mut self, artist: String) -> (r: Option<FlushPayload>)
        ensures
            ({
                let patch = TitleDataPatchView {
                    artist: Some(artist@),
                    ..TitleDataPatchView::empty()
                };
                &&& final(self)@ == old(self)@.title_patched(patch)
                &&& payload_view(r) == old(self)@.title_payload(patch, FlushMode::MetadataOnly)
            }),
    {
        self.update_title_data(
            TitleDataPatch { artist: Some(artist), ..TitleDataPatch::default() },
            FlushMode::MetadataOnly,
        )
    }

    /// Gets the media album title
    pub fn get_album_title(&self) -> (r: String)
        ensures
            r@ == self@.state.album_title,
    {
        self.state.album_title.clone()
    }

    /// Sets the media album title
    ///
    /// Returns what to send.
    pub fn set_album_title(&mut self, album_title: String) -> (r: Option<FlushPayload>)
        ensures
            ({
                let patch = TitleDataPatchView {
                    album_title: Some(album_title@),
                    ..TitleDataPatchView::empty()
                };
                &&& final(self)@ == old(self)@.title_patched(patch)
                &&& payload_view(r) == old(self)@.title_payload(patch, FlushMode::MetadataOnly)
            }),
    {
        self.update_title_data(
            TitleDataPatch { album_title: Some(album_title), ..TitleDataPatch::default() },
            FlushMode::MetadataOnly,
        )
    }

    /// Gets the track id
    pub fn get_track_id(&self) -> (r: String)
        ensures
            r@ == self@.state.track_id,
    {
        self.state.track_id.clone()
    }

    /// Sets the track id
    ///
    /// Nothing is sent before the timeline of the track is set, or what describes it.
    pub fn set_track_id(&mut self, track_id: String) -> (r: Option<FlushPayload>)
        ensures
            final(self)@ == old(self)@.title_patched(
                TitleDataPatchView { track_id: Some(track_id@), ..TitleDataPatchView::empty() },
            ),
            r is None,
    {
        self.update_title_data(
            TitleDataPatch { track_id: Some(track_id), ..TitleDataPatch::default() },
            FlushMode::Nothing,
        )
    }

    /// Takes over a patch of what describes the track. Returns what to send.
    pub fn update_title_data(&mut self, patch: TitleDataPatch, flush_mode: FlushMode) -> (r: Option<
        FlushPayload,
    >)
        ensures
            final(self)@ == old(self)@.title_patched(patch@),
            payload_view(r) == old(self)@.title_payload(patch@, flush_mode),
    {
        let changed = self.state.apply_title_patch(patch);
        if !changed {
            return None;
        }
        self.flush_state(flush_mode)
    }

    /// What a flush sends.
    pub fn flush_state(&self, flush_mode: FlushMode) -> (r: Option<FlushPayload>)
        ensures
            payload_view(r) == self@.state.flush_payload(flush_mode),
    {
        self.state.create_flush_payload(flush_mode)
    }

    /// Takes note that the next step of a flush was made, and leaves the rest of the flush.
    pub fn step_made(&mut self, payload: &mut FlushPayload)
        ensures
            final(self)@ == old(self)@.with_state(old(self)@.state.step_made(old(payload)@)),
            final(payload)@ == old(payload)@.rest(),
    {
        match payload.metadata.take() {
            Some(snapshot) => {
                self.state.mark_metadata_flushed(payload.state_revision, snapshot);
            },
            None => {
                if let Some(snapshot) = payload.playback.take() {
                    self.state.mark_playback_flushed(payload.state_revision, snapshot);
                }
            },
        }
    }

    /// Lets go of all listeners.
    pub fn finalize(&mut self)
        ensures
            final(self)@ == (MediaPlayerView {
                listeners: EventListenersView::empty(),
                ..old(self)@
            }),
    {
        self.listeners.clear();
    }
}

} // verus!
