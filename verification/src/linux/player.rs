//! The media player of a desktop with a message bus.
use std::time::Instant;
use vstd::prelude::*;

use crate::conversion;
use crate::double::Double;
use crate::linux::clock;
use crate::linux::mpris::{MprisPlayer, MprisPlayerView};
use crate::linux::names;
use crate::linux::properties::{PropertyMap, PropertyValue, PropertyValueView};
use crate::linux::state::MprisPlayerStateView;
use crate::listeners::EventListenersView;
use crate::numbers;
use crate::span::Span;
use crate::text;
use crate::types;
use crate::types::{
    MediaEvent, MediaPlayerMediaType, MediaPlayerPlaybackStatus, MediaPlayerThumbnail,
};

verus! {

/// A media player with the changes of its properties that were not announced yet.
pub struct MediaPlayer {
    pub service_name: String,
    pub player: MprisPlayer,
    pub properties_changed: PropertyMap<PropertyValue>,
    pub active: bool,
}

/// What a `MediaPlayer` holds.
#[verifier::ext_equal]
pub struct MediaPlayerView {
    pub service_name: Seq<char>,
    pub player: MprisPlayerView,
    pub pending: Map<Seq<char>, PropertyValueView>,
    pub active: bool,
}

impl View for MediaPlayer {
    type V = MediaPlayerView;

    open spec fn view(&self) -> MediaPlayerView {
        MediaPlayerView {
            service_name: self.service_name@,
            player: self.player@,
            pending: self.properties_changed@,
            active: self.active,
        }
    }
}

/// The names of the properties that a player announces.
pub open spec fn property_names() -> Set<Seq<char>> {
    set![
        "PlaybackStatus"@,
        "Rate"@,
        "Metadata"@,
        "CanPlay"@,
        "CanPause"@,
        "CanGoPrevious"@,
        "CanGoNext"@,
        "CanSeek"@,
        "CanControl"@,
    ]
}

impl MprisPlayerStateView {
    /// The properties that a player announces, with their values.
    pub open spec fn properties(self) -> Map<Seq<char>, PropertyValueView> {
        Map::empty().insert(
            "PlaybackStatus"@,
            PropertyValueView::Text(types::status_label(self.playback_status)),
        ).insert("Rate"@, PropertyValueView::Double(self.playback_rate)).insert(
            "Metadata"@,
            PropertyValueView::Metadata(self.metadata()),
        ).insert("CanPlay"@, PropertyValueView::Bool(self.can_play)).insert(
            "CanPause"@,
            PropertyValueView::Bool(self.can_pause),
        ).insert("CanGoPrevious"@, PropertyValueView::Bool(self.can_go_previous)).insert(
            "CanGoNext"@,
            PropertyValueView::Bool(self.can_go_next),
        ).insert("CanSeek"@, PropertyValueView::Bool(self.can_seek)).insert(
            "CanControl"@,
            PropertyValueView::Bool(self.can_control),
        )
    }

    /// The state after a timeline was set.
    pub open spec fn timeline_set(self, duration: Double, position: Double, at: Instant) -> Self {
        MprisPlayerStateView { duration, position, last_updated_position: at, ..self }
    }
}

/// The properties of a player, one by one.
pub proof fn law_properties(state: MprisPlayerStateView)
    ensures
        state.properties().dom() == property_names(),
        state.properties()["PlaybackStatus"@] == PropertyValueView::Text(
            types::status_label(state.playback_status),
        ),
        state.properties()["Rate"@] == PropertyValueView::Double(state.playback_rate),
        state.properties()["Metadata"@] == PropertyValueView::Metadata(state.metadata()),
        state.properties()["CanPlay"@] == PropertyValueView::Bool(state.can_play),
        state.properties()["CanPause"@] == PropertyValueView::Bool(state.can_pause),
        state.properties()["CanGoPrevious"@] == PropertyValueView::Bool(state.can_go_previous),
        state.properties()["CanGoNext"@] == PropertyValueView::Bool(state.can_go_next),
        state.properties()["CanSeek"@] == PropertyValueView::Bool(state.can_seek),
        state.properties()["CanControl"@] == PropertyValueView::Bool(state.can_control),
{
    reveal_strlit("PlaybackStatus");
    reveal_strlit("Rate");
    reveal_strlit("Metadata");
    reveal_strlit("CanPlay");
    reveal_strlit("CanPause");
    reveal_strlit("CanGoPrevious");
    reveal_strlit("CanGoNext");
    reveal_strlit("CanSeek");
    reveal_strlit("CanControl");
    assert("PlaybackStatus"@.len() == 14);
    assert("Rate"@.len() == 4);
    assert("Metadata"@.len() == 8 && "Metadata"@[0] == 'M');
    assert("CanPlay"@.len() == 7 && "CanPlay"@[3] == 'P');
    assert("CanPause"@.len() == 8 && "CanPause"@[0] == 'C');
    assert("CanGoPrevious"@.len() == 13);
    assert("CanGoNext"@.len() == 9);
    assert("CanSeek"@.len() == 7 && "CanSeek"@[3] == 'S');
    assert("CanControl"@.len() == 10);
    assert(state.properties().dom() =~= property_names());
}

impl MediaPlayerView {
    /// The player with another state.
    pub open spec fn with_state(self, state: MprisPlayerStateView) -> Self {
        MediaPlayerView { player: MprisPlayerView { state, ..self.player }, ..self }
    }

    /// The player with other listeners.
    pub open spec fn with_listeners(self, listeners: EventListenersView) -> Self {
        MediaPlayerView { player: MprisPlayerView { listeners, ..self.player }, ..self }
    }

    /// The player with a change to announce.
    pub open spec fn queued(self, name: Seq<char>, value: PropertyValueView) -> Self {
        MediaPlayerView { pending: self.pending.insert(name, value), ..self }
    }

    /// The player with its metadata to announce.
    pub open spec fn metadata_queued(self) -> Self {
        self.queued("Metadata"@, PropertyValueView::Metadata(self.player.state.metadata()))
    }

    /// The player with all its properties to announce.
    pub open spec fn all_queued(self) -> Self {
        MediaPlayerView {
            pending: self.pending.union_prefer_right(self.player.state.properties()),
            ..self
        }
    }

    /// Nothing is to be announced but properties.
    pub open spec fn only_properties(self) -> bool {
        self.pending.dom().subset_of(property_names())
    }

    /// Each change that is still to be announced is the current value of its property.
    pub open spec fn in_step(self) -> bool {
        forall|name: Seq<char>| #[trigger]
            self.pending.contains_key(name) ==> self.player.state.properties().contains_key(name)
                && self.pending[name] == self.player.state.properties()[name]
    }
}

/// A change of one property keeps the changes in step, if it is queued.
proof fn lemma_in_step(before: MediaPlayerView, after: MediaPlayerView, name: Seq<char>)
    requires
        before.in_step(),
        after.player.state.properties().contains_key(name),
        after.pending == before.pending.insert(name, after.player.state.properties()[name]),
        forall|other: Seq<char>|
            other != name && #[trigger] before.player.state.properties().contains_key(other)
                ==> after.player.state.properties().contains_key(other)
                && after.player.state.properties()[other] == before.player.state.properties()[other],
    ensures
        after.in_step(),
{
    assert forall|other: Seq<char>| #[trigger] after.pending.contains_key(
        other,
    ) implies after.player.state.properties().contains_key(other) && after.pending[other]
        == after.player.state.properties()[other] by {
        if other != name {
            assert(before.pending.contains_key(other));
        }
    }
}

/// Whatever state a player takes, also by a request from the bus, and whatever value it queues for a
/// property, it has nothing but properties to announce.
pub proof fn law_only_properties_kept(
    player: MediaPlayerView,
    state: MprisPlayerStateView,
    name: Seq<char>,
    value: PropertyValueView,
)
    requires
        player.only_properties(),
        property_names().contains(name),
    ensures
        player.with_state(state).only_properties(),
        player.with_state(state).queued(name, value).only_properties(),
{
}

/// An activation announces every property with its current value, and nothing else.
pub proof fn law_activation_announces_all(player: MediaPlayerView)
    requires
        player.only_properties(),
    ensures
        player.all_queued().pending == player.player.state.properties(),
{
    law_properties(player.player.state);
    assert(player.all_queued().pending =~= player.player.state.properties());
}

impl MediaPlayer {
    /// Nothing is to be announced but properties, and none of them twice.
    pub open spec fn wf(self) -> bool {
        self.properties_changed.wf() && self@.only_properties()
    }

    /// A player that is not active yet, if its name can be one on the bus.
    pub fn new(service_name: String, identity: String) -> (r: Result<Self, String>)
        ensures
            r is Ok <==> text::has_alphanumeric(service_name@),
            r matches Ok(player) ==> {
                &&& player.wf()
                &&& player@.in_step()
                &&& clock::is_reading(player@.player.state.last_updated_position)
                &&& player@ == (MediaPlayerView {
                    service_name: names::instance_name(service_name@),
                    player: MprisPlayerView {
                        listeners: EventListenersView::empty(),
                        state: MprisPlayerStateView::initial(
                            identity@,
                            player@.player.state.last_updated_position,
                        ),
                    },
                    pending: Map::empty(),
                    active: false,
                })
            },
            r matches Err(reason) ==> reason@
                == "serviceName must contain at least one alphanumeric character for MPRIS D-Bus registration"@,
    {
        match names::sanitize_mpris_instance_name(service_name.as_str()) {
            Ok(service_name) => Ok(
                MediaPlayer {
                    service_name,
                    player: MprisPlayer::new(identity),
                    properties_changed: PropertyMap::new(),
                    active: false,
                },
            ),
            Err(reason) => Err(reason),
        }
    }

    /// The bus name to claim before an activation; none, if the player is active.
    pub fn registration(&self) -> (r: Option<String>)
        ensures
            r is None <==> self@.active,
            r matches Some(name) ==> name@ == names::bus_name(self@.service_name),
    {
        if self.active {
            None
        } else {
            Some(names::mpris_bus_name(self.service_name.as_str()))
        }
    }

    /// Activates the MediaPlayer allowing the operating system to see and use it
    ///
    /// `registered` says whether the bus name was claimed. Returns the property changes to announce.
    pub fn activate(&mut self, registered: bool) -> (r: Result<
        Option<PropertyMap<PropertyValue>>,
        String,
    >)
        requires
            old(self).wf(),
        ensures
            final(self).wf(),
            r is Err <==> !old(self)@.active && !registered,
            r matches Err(reason) ==> reason@ == "Could not obtain service name on D-Bus"@,
            r matches Ok(None) <==> old(self)@.active,
            r matches Ok(Some(changes)) ==> changes.wf() && changes@
                == old(self)@.player.state.properties(),
            final(self)@ == if !old(self)@.active && registered {
                MediaPlayerView { active: true, pending: Map::empty(), ..old(self)@ }
            } else {
                old(self)@
            },
    {
        if self.active {
            return Ok(None);
        }
        if !registered {
            return Err("Could not obtain service name on D-Bus".to_owned());
        }
        self.active = true;
        proof {
            law_activation_announces_all(self@);
        }
        self.queue_initial_properties();
        Ok(Some(self.emit_properties_changed()))
    }

    /// Deactivates the MediaPlayer denying the operating system to see and use it
    ///
    /// Returns the bus name to release.
    pub fn deactivate(&mut self) -> (r: Option<String>)
        requires
            old(self).wf(),
        ensures
            final(self).wf(),
            final(self)@ == (MediaPlayerView { active: false, ..old(self)@ }),
            r is Some <==> old(self)@.active,
            r matches Some(name) ==> name@ == names::bus_name(old(self)@.service_name),
    {
        if self.active {
            self.active = false;
            Some(names::mpris_bus_name(self.service_name.as_str()))
        } else {
            None
        }
    }

    /// The bus name to release at the end, whether or not the player is active.
    pub fn finalize(&self) -> (r: String)
        ensures
            r@ == names::bus_name(self@.service_name),
    {
        names::mpris_bus_name(self.service_name.as_str())
    }

    /// Adds an event listener to the MediaPlayer
    ///
    /// 'buttonpressed' - Emitted when a media services button is pressed
    /// 'positionchanged' - Emitted when the media service requests a position change
    /// 'positionseeked' - Emitted when the media service requests a forward or backward position seek from current position
    ///
    /// Says whether the callback was added; one that listens already is not.
    pub fn add_event_listener(&mut self, event_name: String, callback: usize, handle: u64) -> (r: bool)
        ensures
            old(self).wf() ==> final(self).wf(),
            final(self)@ == old(self)@.with_listeners(
                old(self)@.player.listeners.added(event_name@, callback, handle),
            ),
            r == (MediaEvent::named_spec(event_name@) matches Some(event)
                && !old(self)@.player.listeners.of(event).contains_key(callback)),
    {
        self.player.listeners.add_event_listener(&event_name, callback, handle)
    }

    /// Removes an event listener from the MediaPlayer
    ///
    /// Says by which handle the callback was called.
    pub fn remove_event_listener(&mut self, event_name: String, callback: usize) -> (r: Option<u64>)
        ensures
            old(self).wf() ==> final(self).wf(),
            final(self)@ == old(self)@.with_listeners(
                old(self)@.player.listeners.removed(event_name@, callback),
            ),
            r == match MediaEvent::named_spec(event_name@) {
                Some(event) => if old(self)@.player.listeners.of(event).contains_key(callback) {
                    Some(old(self)@.player.listeners.of(event)[callback])
                } else {
                    None
                },
                None => None,
            },
    {
        self.player.listeners.remove_event_listener(&event_name, callback)
    }

    /// Adds an event listener to the MediaPlayer
    ///
    /// Alias for addEventListener
    pub fn on(&mut self, event_name: String, callback: usize, handle: u64) -> (r: bool)
        ensures
            old(self).wf() ==> final(self).wf(),
            final(self)@ == old(self)@.with_listeners(
                old(self)@.player.listeners.added(event_name@, callback, handle),
            ),
            r == (MediaEvent::named_spec(event_name@) matches Some(event)
                && !old(self)@.player.listeners.of(event).contains_key(callback)),
    {
        self.add_event_listener(event_name, callback, handle)
    }

    /// Removes an event listener from the MediaPlayer
    ///
    /// Alias for removeEventListener
    pub fn off(&mut self, event_name: String, callback: usize) -> (r: Option<u64>)
        ensures
            old(self).wf() ==> final(self).wf(),
            final(self)@ == old(self)@.with_listeners(
                old(self)@.player.listeners.removed(event_name@, callback),
            ),
            r == match MediaEvent::named_spec(event_name@) {
                Some(event) => if old(self)@.player.listeners.of(event).contains_key(callback) {
                    Some(old(self)@.player.listeners.of(event)[callback])
                } else {
                    None
                },
                None => None,
            },
    {
        self.remove_event_listener(event_name, callback)
    }

    /// Instructs the media service to update its media information being displayed
    ///
    /// Property setters only queue changes. Call `update()` after changing status, metadata, buttons, or
    /// rate so that desktop shells see the new values. `activate()` already announces once. Returns the
    /// changes to announce.
    pub fn update(&mut self) -> (r: PropertyMap<PropertyValue>)
        requires
            old(self).wf(),
        ensures
            final(self).wf(),
            r.wf(),
            r@ == old(self)@.pending,
            final(self)@ == (MediaPlayerView { pending: Map::empty(), ..old(self)@ }),
    {
        self.emit_properties_changed()
    }

    /// Sets the thumbnail
    pub fn set_thumbnail(&mut self, thumbnail: &MediaPlayerThumbnail)
        requires
            old(self).wf(),
        ensures
            final(self).wf(),
            final(self)@ == old(self)@.with_state(
                (MprisPlayerStateView {
                    thumbnail: thumbnail.thumbnail@,
                    ..old(self)@.player.state
                }),
            ).metadata_queued(),
            old(self)@.in_step() ==> final(self)@.in_step(),
    {
        self.player.state.thumbnail = thumbnail.thumbnail.clone();
        self.queue_metadata_changed();
        proof {
            lemma_metadata_in_step(old(self)@, self@);
        }
    }

    /// Sets the timeline data
    ///
    /// You MUST call this function everytime the position changes in the song. The media service will become out of sync if this is not called enough or cause seeked signals to be emitted to the media service unnecessarily.
    ///
    /// Returns the position in microseconds, where a seeked signal is to be emitted: it is a jump, and no
    /// whole second has elapsed since the last timeline. How much has elapsed is known by the clock alone.
    pub fn set_timeline(&mut self, duration: Double, position: Double) -> (r: Result<
        Option<i64>,
        String,
    >)
        requires
            old(self).wf(),
        ensures
            final(self).wf(),
            r is Ok <==> numbers::timeline_fault(duration, position) is None,
            r matches Err(reason) ==> numbers::timeline_fault(duration, position) == Some(reason@),
            r matches Ok(Some(micros)) ==> micros == conversion::micros(position),
            r is Err ==> final(self)@ == old(self)@,
            r is Ok ==> exists|elapsed: Span, at: Instant|
                {
                    &&& #[trigger] clock::has_elapsed(
                        old(self)@.player.state.last_updated_position,
                        elapsed,
                    )
                    &&& #[trigger] clock::is_reading(at)
                    &&& final(self)@ == old(self)@.with_state(
                        old(self)@.player.state.timeline_set(duration, position, at),
                    ).metadata_queued()
                    &&& (r matches Ok(Some(_)) <==> old(self)@.player.state.jumps_to(position)
                        && elapsed.secs < 1)
                },
            old(self)@.in_step() ==> final(self)@.in_step(),
    {
        let elapsed = clock::elapsed(&self.player.state.last_updated_position);
        let at = clock::now();
        assert(clock::has_elapsed(old(self)@.player.state.last_updated_position, elapsed));
        self.set_timeline_at(duration, position, elapsed.secs, at)
    }

    /// Sets the timeline data at the time `at`, `elapsed_secs` whole seconds after the last ones.
    ///
    /// Returns the position in microseconds, where a seeked signal is to be emitted.
    pub fn set_timeline_at(
        &mut self,
        duration: Double,
        position: Double,
        elapsed_secs: u64,
        at: Instant,
    ) -> (r: Result<Option<i64>, String>)
        requires
            old(self).wf(),
        ensures
            final(self).wf(),
            r is Ok <==> numbers::timeline_fault(duration, position) is None,
            r matches Err(reason) ==> numbers::timeline_fault(duration, position) == Some(reason@),
            r matches Ok(Some(micros)) ==> micros == conversion::micros(position),
            r is Ok ==> (r matches Ok(Some(_)) <==> old(self)@.player.state.jumps_to(position)
                && elapsed_secs < 1),
            final(self)@ == if r is Ok {
                old(self)@.with_state(
                    old(self)@.player.state.timeline_set(duration, position, at),
                ).metadata_queued()
            } else {
                old(self)@
            },
            old(self)@.in_step() ==> final(self)@.in_step(),
    {
        match numbers::validate_timeline(duration, position) {
            Ok(()) => {
                let seeked = self.player.state.is_seek(position, elapsed_secs);
                self.apply_timeline(duration, position, at);
                Ok(
                    if seeked {
                        Some(conversion::seconds_to_micros(position))
                    } else {
                        None
                    },
                )
            },
            Err(reason) => Err(reason),
        }
    }

    /// Takes over the timeline data.
    fn apply_timeline(&mut self, duration: Double, position: Double, at: Instant)
        requires
            old(self).wf(),
        ensures
            final(self).wf(),
            final(self)@ == old(self)@.with_state(
                old(self)@.player.state.timeline_set(duration, position, at),
            ).metadata_queued(),
            old(self)@.in_step() ==> final(self)@.in_step(),
    {
        self.player.state.duration = duration;
        self.player.state.position = position;
        self.player.state.last_updated_position = at;
        self.queue_metadata_changed();
        proof {
            lemma_metadata_in_step(old(self)@, self@);
        }
    }

    /// Gets the play button enabled state
    pub fn get_play_button_enabled(&self) -> (r: bool)
        ensures
            r == self@.player.state.can_play,
    {
        self.player.state.can_play
    }

    /// Sets the play button enabled state
    pub fn set_play_button_enabled(&mut self, enabled: bool)
        requires
            old(self).wf(),
        ensures
            final(self).wf(),
            final(self)@ == old(self)@.with_state(
                (MprisPlayerStateView { can_play: enabled, ..old(self)@.player.state }),
            ).queued("CanPlay"@, PropertyValueView::Bool(enabled)),
            old(self)@.in_step() ==> final(self)@.in_step(),
    {
        self.player.state.can_play = enabled;
        self.queue_bool_prop("CanPlay", enabled);
        proof {
            law_properties(old(self)@.player.state);
            law_properties(self@.player.state);
            if old(self)@.in_step() {
                lemma_in_step(old(self)@, self@, "CanPlay"@);
            }
        }
    }

    /// Gets the paused button enabled state
    pub fn get_pause_button_enabled(&self) -> (r: bool)
        ensures
            r == self@.player.state.can_pause,
    {
        self.player.state.can_pause
    }

    /// Sets the paused button enabled state
    pub fn set_pause_button_enabled(&mut self, enabled: bool)
        requires
            old(self).wf(),
        ensures
            final(self).wf(),
            final(self)@ == old(self)@.with_state(
                (MprisPlayerStateView { can_pause: enabled, ..old(self)@.player.state }),
            ).queued("CanPause"@, PropertyValueView::Bool(enabled)),
            old(self)@.in_step() ==> final(self)@.in_step(),
    {
        self.player.state.can_pause = enabled;
        self.queue_bool_prop("CanPause", enabled);
        proof {
            law_properties(old(self)@.player.state);
            law_properties(self@.player.state);
            if old(self)@.in_step() {
                lemma_in_step(old(self)@, self@, "CanPause"@);
            }
        }
    }

    /// Gets the stop button enabled state, which is tied to whether the player can be controlled
    pub fn get_stop_button_enabled(&self) -> (r: bool)
        ensures
            r == self@.player.state.can_control,
    {
        self.player.state.can_control
    }

    /// The stop button is tied to whether the player can be controlled, so setting it has no effect
    pub fn set_stop_button_enabled(&mut self, _enabled: bool)
        ensures
            *final(self) == *old(self),
    {
    }

    /// Gets the previous button enabled state
    pub fn get_previous_button_enabled(&self) -> (r: bool)
        ensures
            r == self@.player.state.can_go_previous,
    {
        self.player.state.can_go_previous
    }

    /// Sets the previous button enabled state
    pub fn set_previous_button_enabled(&mut self, enabled: bool)
        requires
            old(self).wf(),
        ensures
            final(self).wf(),
            final(self)@ == old(self)@.with_state(
                (MprisPlayerStateView { can_go_previous: enabled, ..old(self)@.player.state }),
            ).queued("CanGoPrevious"@, PropertyValueView::Bool(enabled)),
            old(self)@.in_step() ==> final(self)@.in_step(),
    {
        self.player.state.can_go_previous = enabled;
        self.queue_bool_prop("CanGoPrevious", enabled);
        proof {
            law_properties(old(self)@.player.state);
            law_properties(self@.player.state);
            if old(self)@.in_step() {
                lemma_in_step(old(self)@, self@, "CanGoPrevious"@);
            }
        }
    }

    /// Gets the next button enabled state
    pub fn get_next_button_enabled(&self) -> (r: bool)
        ensures
            r == self@.player.state.can_go_next,
    {
        self.player.state.can_go_next
    }

    /// Sets the next button enabled state
    pub fn set_next_button_enabled(&mut self, enabled: bool)
        requires
            old(self).wf(),
        ensures
            final(self).wf(),
            final(self)@ == old(self)@.with_state(
                (MprisPlayerStateView { can_go_next: enabled, ..old(self)@.player.state }),
            ).queued("CanGoNext"@, PropertyValueView::Bool(enabled)),
            old(self)@.in_step() ==> final(self)@.in_step(),
    {
        self.player.state.can_go_next = enabled;
        self.queue_bool_prop("CanGoNext", enabled);
        proof {
            law_properties(old(self)@.player.state);
            law_properties(self@.player.state);
            if old(self)@.in_step() {
                lemma_in_step(old(self)@, self@, "CanGoNext"@);
            }
        }
    }

    /// Gets the seek enabled state
    pub fn get_seek_enabled(&self) -> (r: bool)
        ensures
            r == self@.player.state.can_seek,
    {
        self.player.state.can_seek
    }

    /// Sets the seek enabled state
    pub fn set_seek_enabled(&mut self, enabled: bool)
        requires
            old(self).wf(),
        ensures
            final(self).wf(),
            final(self)@ == old(self)@.with_state(
                (MprisPlayerStateView { can_seek: enabled, ..old(self)@.player.state }),
            ).queued("CanSeek"@, PropertyValueView::Bool(enabled)),
            old(self)@.in_step() ==> final(self)@.in_step(),
    {
        self.player.state.can_seek = enabled;
        self.queue_bool_prop("CanSeek", enabled);
        proof {
            law_properties(old(self)@.player.state);
            law_properties(self@.player.state);
            if old(self)@.in_step() {
                lemma_in_step(old(self)@, self@, "CanSeek"@);
            }
        }
    }

    /// Gets the playback rate
    pub fn get_playback_rate(&self) -> (r: Double)
        ensures
            r == self@.player.state.playback_rate,
    {
        self.player.state.playback_rate
    }

    /// Sets the playback rate
    pub fn set_playback_rate(&mut self, playback_rate: Double) -> (r: Result<(), String>)
        requires
            old(self).wf(),
        ensures
            final(self).wf(),
            r is Ok <==> playback_rate.is_playback_rate_spec(),
            r matches Err(reason) ==> reason@ == "playbackRate must be between 0.25 and 2"@,
            final(self)@ == if r is Ok {
                old(self)@.with_state(
                    (MprisPlayerStateView { playback_rate, ..old(self)@.player.state }),
                ).queued("Rate"@, PropertyValueView::Double(playback_rate))
            } else {
                old(self)@
            },
            old(self)@.in_step() ==> final(self)@.in_step(),
    {
        if !playback_rate.is_playback_rate() {
            return Err("playbackRate must be between 0.25 and 2".to_owned());
        }
        self.player.state.playback_rate = playback_rate;
        self.properties_changed.insert("Rate".to_owned(), PropertyValue::Double(playback_rate));
        proof {
            law_properties(old(self)@.player.state);
            law_properties(self@.player.state);
            if old(self)@.in_step() {
                lemma_in_step(old(self)@, self@, "Rate"@);
            }
        }
        Ok(())
    }

    /// Gets the playback status
    pub fn get_playback_status(&self) -> (r: MediaPlayerPlaybackStatus)
        ensures
            r == self@.player.state.playback_status,
    {
        self.player.state.playback_status
    }

    /// Sets the playback status
    pub fn set_playback_status(&mut self, playback_status: MediaPlayerPlaybackStatus) -> (r: Result<
        (),
        String,
    >)
        requires
            old(self).wf(),
        ensures
            final(self).wf(),
            r is Err <==> playback_status is Unknown,
            r matches Err(reason) ==> reason@
                == "Unknown is not a valid MediaPlayerPlaybackStatus to set"@,
            final(self)@ == if r is Ok {
                old(self)@.with_state(
                    (MprisPlayerStateView { playback_status, ..old(self)@.player.state }),
                ).queued(
                    "PlaybackStatus"@,
                    PropertyValueView::Text(types::status_label(playback_status)),
                )
            } else {
                old(self)@
            },
            old(self)@.in_step() ==> final(self)@.in_step(),
    {
        match types::check_playback_status(playback_status) {
            Ok(()) => {},
            Err(reason) => {
                return Err(reason);
            },
        }
        self.player.state.playback_status = playback_status;
        let label = self.player.state.playback_status_label();
        self.properties_changed.insert("PlaybackStatus".to_owned(), PropertyValue::Text(label));
        proof {
            law_properties(old(self)@.player.state);
            law_properties(self@.player.state);
            if old(self)@.in_step() {
                lemma_in_step(old(self)@, self@, "PlaybackStatus"@);
            }
        }
        Ok(())
    }

    /// Gets the media type
    pub fn get_media_type(&self) -> (r: MediaPlayerMediaType)
        ensures
            r == self@.player.state.media_type,
    {
        self.player.state.media_type
    }

    /// Sets the media type
    pub fn set_media_type(&mut self, media_type: MediaPlayerMediaType) -> (r: Result<(), String>)
        ensures
            old(self).wf() ==> final(self).wf(),
            r is Err <==> media_type is Unknown,
            r matches Err(reason) ==> reason@
                == "Unknown is not a valid MediaPlayerMediaType to set"@,
            final(self)@ == if r is Ok {
                old(self)@.with_state(
                    (MprisPlayerStateView { media_type, ..old(self)@.player.state }),
                )
            } else {
                old(self)@
            },
            old(self)@.in_step() ==> final(self)@.in_step(),
    {
        match types::check_media_type(media_type) {
            Ok(()) => {},
            Err(reason) => {
                return Err(reason);
            },
        }
        self.player.state.media_type = media_type;
        assert(self@.player.state.metadata() == old(self)@.player.state.metadata());
        assert(self@.player.state.properties() == old(self)@.player.state.properties());
        Ok(())
    }

    /// Gets the media title
    pub fn get_title(&self) -> (r: String)
        ensures
            r@ == self@.player.state.title,
    {
        self.player.state.title.clone()
    }

    /// Sets the media title
    pub fn set_title(&mut self, title: String)
        requires
            old(self).wf(),
        ensures
            final(self).wf(),
            final(self)@ == old(self)@.with_state(
                (MprisPlayerStateView { title: title@, ..old(self)@.player.state }),
            ).metadata_queued(),
            old(self)@.in_step() ==> final(self)@.in_step(),
    {
        self.player.state.title = title;
        self.queue_metadata_changed();
        proof {
            lemma_metadata_in_step(old(self)@, self@);
        }
    }

    /// Gets the media artist
    pub fn get_artist(&self) -> (r: String)
        ensures
            r@ == self@.player.state.artist,
    {
        self.player.state.artist.clone()
    }

    /// Sets the media artist
    pub fn set_artist(&mut self, artist: String)
        requires
            old(self).wf(),
        ensures
            final(self).wf(),
            final(self)@ == old(self)@.with_state(
                (MprisPlayerStateView { artist: artist@, ..old(self)@.player.state }),
            ).metadata_queued(),
            old(self)@.in_step() ==> final(self)@.in_step(),
    {
        self.player.state.artist = artist;
        self.queue_metadata_changed();
        proof {
            lemma_metadata_in_step(old(self)@, self@);
        }
    }

    /// Gets the media album title
    pub fn get_album_title(&self) -> (r: String)
        ensures
            r@ == self@.player.state.album_title,
    {
        self.player.state.album_title.clone()
    }

    /// Sets the media album title
    pub fn set_album_title(&mut self, album_title: String)
        requires
            old(self).wf(),
        ensures
            final(self).wf(),
            final(self)@ == old(self)@.with_state(
                (MprisPlayerStateView { album_title: album_title@, ..old(self)@.player.state }),
            ).metadata_queued(),
            old(self)@.in_step() ==> final(self)@.in_step(),
    {
        self.player.state.album_title = album_title;
        self.queue_metadata_changed();
        proof {
            lemma_metadata_in_step(old(self)@, self@);
        }
    }

    /// Gets the track id
    pub fn get_track_id(&self) -> (r: String)
        ensures
            r@ == self@.player.state.track_id,
    {
        self.player.state.track_id.clone()
    }

    /// Sets the track id
    pub fn set_track_id(&mut self, track_id: String)
        requires
            old(self).wf(),
        ensures
            final(self).wf(),
            final(self)@ == old(self)@.with_state(
                (MprisPlayerStateView { track_id: track_id@, ..old(self)@.player.state }),
            ).metadata_queued(),
            old(self)@.in_step() ==> final(self)@.in_step(),
    {
        self.player.state.track_id = track_id;
        self.queue_metadata_changed();
        proof {
            lemma_metadata_in_step(old(self)@, self@);
        }
    }

    /// Queues a boolean property.
    fn queue_bool_prop(&mut self, name: &str, value: bool)
        requires
            old(self).wf(),
            property_names().contains(name@),
        ensures
            final(self).wf(),
            final(self)@ == old(self)@.queued(name@, PropertyValueView::Bool(value)),
    {
        self.properties_changed.insert(name.to_owned(), PropertyValue::Bool(value));
    }

    /// Queues every property that a player announces.
    fn queue_initial_properties(&mut self)
        requires
            old(self).wf(),
        ensures
            final(self).wf(),
            final(self)@ == old(self)@.all_queued(),
    {
        let playback_status = self.player.state.playback_status_label();
        let rate = self.player.state.playback_rate;
        let metadata = self.player.state.metadata_map();
        self.properties_changed.insert(
            "PlaybackStatus".to_owned(),
            PropertyValue::Text(playback_status),
        );
        self.properties_changed.insert("Rate".to_owned(), PropertyValue::Double(rate));
        self.properties_changed.insert("Metadata".to_owned(), PropertyValue::Metadata(metadata));
        self.queue_bool_prop("CanPlay", self.player.state.can_play);
        self.queue_bool_prop("CanPause", self.player.state.can_pause);
        self.queue_bool_prop("CanGoPrevious", self.player.state.can_go_previous);
        self.queue_bool_prop("CanGoNext", self.player.state.can_go_next);
        self.queue_bool_prop("CanSeek", self.player.state.can_seek);
        self.queue_bool_prop("CanControl", self.player.state.can_control);
        assert(self@.pending =~= old(self)@.all_queued().pending);
    }

    /// Queues the metadata.
    fn queue_metadata_changed(&mut self)
        requires
            old(self).wf(),
        ensures
            final(self).wf(),
            final(self)@ == old(self)@.metadata_queued(),
    {
        let metadata = self.player.state.metadata_map();
        self.properties_changed.insert("Metadata".to_owned(), PropertyValue::Metadata(metadata));
    }

    /// Hands out the queued changes.
    fn emit_properties_changed(&mut self) -> (r: PropertyMap<PropertyValue>)
        requires
            old(self).wf(),
        ensures
            final(self).wf(),
            r.wf(),
            r@ == old(self)@.pending,
            final(self)@ == (MediaPlayerView { pending: Map::empty(), ..old(self)@ }),
    {
        let mut changes: PropertyMap<PropertyValue> = PropertyMap::new();
        std::mem::swap(&mut changes, &mut self.properties_changed);
        changes
    }
}

/// A change of the metadata keeps the changes in step, if the metadata are queued.
proof fn lemma_metadata_in_step(before: MediaPlayerView, after: MediaPlayerView)
    requires
        after.pending == before.pending.insert(
            "Metadata"@,
            PropertyValueView::Metadata(after.player.state.metadata()),
        ),
        after.player.state.playback_status == before.player.state.playback_status,
        after.player.state.playback_rate == before.player.state.playback_rate,
        after.player.state.can_play == before.player.state.can_play,
        after.player.state.can_pause == before.player.state.can_pause,
        after.player.state.can_go_previous == before.player.state.can_go_previous,
        after.player.state.can_go_next == before.player.state.can_go_next,
        after.player.state.can_seek == before.player.state.can_seek,
        after.player.state.can_control == before.player.state.can_control,
    ensures
        before.in_step() ==> after.in_step(),
{
    law_properties(before.player.state);
    law_properties(after.player.state);
    if before.in_step() {
        lemma_in_step(before, after, "Metadata"@);
    }
}

} // verus!
