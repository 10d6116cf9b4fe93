//! What a media player answers to requests from the message bus.
use std::time::Instant;
use vstd::prelude::*;

use crate::conversion;
use crate::double::Double;
use crate::linux::clock;
use crate::linux::properties::{MetadataValue, PropertyMap};
use crate::linux::state::{MprisPlayerState, MprisPlayerStateView};
use crate::listeners::{EventListeners, EventListenersView};
use crate::numbers;
use crate::numbers::{MAX_PLAYBACK_RATE, MIN_PLAYBACK_RATE};
use crate::span;
use crate::types;
use crate::types::{Button, Emission};

verus! {

/// Why a request was refused.
#[derive(Clone, Debug)]
pub enum MethodError {
    /// The request failed.
    Failed(String),
    /// The request has an argument that is not accepted.
    InvalidArg(String),
}

/// What a `MethodError` holds.
#[verifier::ext_equal]
pub enum MethodErrorView {
    Failed(Seq<char>),
    InvalidArg(Seq<char>),
}

impl View for MethodError {
    type V = MethodErrorView;

    open spec fn view(&self) -> MethodErrorView {
        match self {
            MethodError::Failed(reason) => MethodErrorView::Failed(reason@),
            MethodError::InvalidArg(reason) => MethodErrorView::InvalidArg(reason@),
        }
    }
}

/// A media player as the message bus sees it.
pub struct MprisPlayer {
    pub listeners: EventListeners,
    pub state: MprisPlayerState,
}

/// What an `MprisPlayer` holds.
#[verifier::ext_equal]
pub struct MprisPlayerView {
    pub listeners: EventListenersView,
    pub state: MprisPlayerStateView,
}

impl View for MprisPlayer {
    type V = MprisPlayerView;

    open spec fn view(&self) -> MprisPlayerView {
        MprisPlayerView { listeners: self.listeners@, state: self.state@ }
    }
}

/// An event, where it is allowed.
pub open spec fn button_if(allowed: bool, button: Button) -> Option<Emission> {
    if allowed {
        Some(Emission::ButtonPressed(button))
    } else {
        None
    }
}

/// A whole number of microseconds, in seconds, as the standard library converts a duration.
pub open spec fn position_seconds(position: int) -> Double {
    span::duration_seconds(
        (position / 1_000_000) as u64,
        ((position % 1_000_000) * 1000) as u32,
    )
}

impl MprisPlayerStateView {
    /// Whether a requested position is accepted: the player can seek, the position lies within the
    /// track, and the track is the current one. `requested` is the position in seconds.
    pub open spec fn accepts_position(
        self,
        track_id: Seq<char>,
        position: int,
        requested: Double,
    ) -> bool {
        &&& self.can_seek
        &&& position >= 0
        &&& !self.duration.lt(requested)
        &&& track_id == self.track_object_path()
    }

    /// The state after a request for a playback rate.
    pub open spec fn rate_requested(self, value: Double) -> Self {
        if !value.same(numbers::zero()) && value.is_playback_rate_spec() {
            MprisPlayerStateView { playback_rate: value, ..self }
        } else {
            self
        }
    }
}

/// A playback rate in the accepted range stays in it, whatever rate is requested.
pub proof fn law_rate_stays_in_range(state: MprisPlayerStateView, value: Double)
    requires
        state.playback_rate.is_playback_rate_spec(),
    ensures
        state.rate_requested(value).playback_rate.is_playback_rate_spec(),
{
}

/// The playback rate of a new player is in the accepted range, which starts above zero.
pub proof fn law_initial_rate_in_range(identity: Seq<char>, at: Instant)
    ensures
        MprisPlayerStateView::initial(identity, at).playback_rate.is_playback_rate_spec(),
        (Double { bits: MIN_PLAYBACK_RATE }).units() > 0,
{
    numbers::lemma_constants();
}

/// A volume that was set lies between zero and one.
pub proof fn law_volume_in_range(value: Double)
    requires
        !value.is_nan_spec(),
    ensures
        !value.unit_range_spec().is_nan_spec(),
        0 <= value.unit_range_spec().units() <= conversion::one(),
{
    numbers::lemma_constants();
}

/// A position for a track that is no longer the current one is refused.
pub proof fn law_stale_position_refused(
    state: MprisPlayerStateView,
    track_id: Seq<char>,
    position: int,
    requested: Double,
)
    requires
        track_id != state.track_object_path(),
    ensures
        !state.accepts_position(track_id, position, requested),
{
}

impl MprisPlayer {
    pub fn new(identity: String) -> (r: Self)
        ensures
            clock::is_reading(r@.state.last_updated_position),
            r@.listeners == EventListenersView::empty(),
            r@.state == MprisPlayerStateView::initial(identity@, r@.state.last_updated_position),
    {
        MprisPlayer { listeners: EventListeners::new(), state: MprisPlayerState::new(identity) }
    }

    /// The event of a button, where it is allowed.
    fn emit_button_if(allowed: bool, button: Button) -> (r: Option<Emission>)
        ensures
            r == button_if(allowed, button),
    {
        if allowed {
            Some(Emission::ButtonPressed(button))
        } else {
            None
        }
    }

    /// A request to show the player has no effect.
    pub fn raise(&mut self)
        ensures
            *final(self) == *old(self),
    {
    }

    /// A request to end the player has no effect.
    pub fn quit(&mut self)
        ensures
            *final(self) == *old(self),
    {
    }

    pub fn can_quit(&self) -> (r: bool)
        ensures
            r == false,
    {
        false
    }

    pub fn fullscreen(&self) -> (r: bool)
        ensures
            r == false,
    {
        false
    }

    /// A request for the full screen has no effect.
    pub fn set_fullscreen(&mut self, _value: bool)
        ensures
            *final(self) == *old(self),
    {
    }

    pub fn can_set_fullscreen(&self) -> (r: bool)
        ensures
            r == false,
    {
        false
    }

    pub fn can_raise(&self) -> (r: bool)
        ensures
            r == false,
    {
        false
    }

    pub fn has_track_list(&self) -> (r: bool)
        ensures
            r == false,
    {
        false
    }

    pub fn identity(&self) -> (r: String)
        ensures
            r@ == self@.state.identity,
    {
        self.state.identity.clone()
    }

    /// No desktop entry.
    pub fn desktop_entry(&self) -> (r: String)
        ensures
            r@.len() == 0,
    {
        String::new()
    }

    /// No URI schemes.
    pub fn supported_uri_schemes(&self) -> (r: Vec<String>)
        ensures
            r@.len() == 0,
    {
        Vec::new()
    }

    /// No MIME types.
    pub fn supported_mime_types(&self) -> (r: Vec<String>)
        ensures
            r@.len() == 0,
    {
        Vec::new()
    }

    pub fn next(&self) -> (r: Option<Emission>)
        ensures
            r == button_if(self@.state.can_go_next, Button::Next),
    {
        Self::emit_button_if(self.state.can_go_next, Button::Next)
    }

    pub fn previous(&self) -> (r: Option<Emission>)
        ensures
            r == button_if(self@.state.can_go_previous, Button::Previous),
    {
        Self::emit_button_if(self.state.can_go_previous, Button::Previous)
    }

    pub fn pause(&self) -> (r: Option<Emission>)
        ensures
            r == button_if(self@.state.can_pause, Button::Pause),
    {
        Self::emit_button_if(self.state.can_pause, Button::Pause)
    }

    /// Play or pause, where the player can do one of them.
    pub fn play_pause(&self) -> (r: Result<Emission, MethodError>)
        ensures
            r is Ok <==> self@.state.can_pause || self@.state.can_play,
            r matches Ok(emission) ==> emission == Emission::ButtonPressed(Button::PlayPause),
            r matches Err(error) ==> error@ == MethodErrorView::Failed(
                "This media player cannot play or pause"@,
            ),
    {
        if !(self.state.can_pause || self.state.can_play) {
            return Err(
                MethodError::Failed("This media player cannot play or pause".to_owned()),
            );
        }
        Ok(Emission::ButtonPressed(Button::PlayPause))
    }

    /// Stop, where the player can be controlled.
    pub fn stop(&self) -> (r: Result<Emission, MethodError>)
        ensures
            r is Ok <==> self@.state.can_control,
            r matches Ok(emission) ==> emission == Emission::ButtonPressed(Button::Stop),
            r matches Err(error) ==> error@ == MethodErrorView::Failed(
                "This media player cannot be controlled"@,
            ),
    {
        if !self.state.can_control {
            return Err(MethodError::Failed("This media player cannot be controlled".to_owned()));
        }
        Ok(Emission::ButtonPressed(Button::Stop))
    }

    pub fn play(&self) -> (r: Option<Emission>)
        ensures
            r == button_if(self@.state.can_play, Button::Play),
    {
        Self::emit_button_if(self.state.can_play, Button::Play)
    }

    /// A seek by microseconds from the current position, where the player can seek.
    pub fn seek(&self, offset: i64) -> (r: Option<Emission>)
        ensures
            r is Some <==> self@.state.can_seek,
            r matches Some(emission) ==> (emission matches Emission::PositionSeeked(seconds)
                && !seconds.is_nan_spec() && seconds.is_negative_spec() == (offset < 0)
                && seconds.units() == conversion::micros_units(offset as int)),
    {
        if !self.state.can_seek {
            return None;
        }
        Some(Emission::PositionSeeked(conversion::micros_to_seconds(offset)))
    }

    /// Whether a requested position is accepted; `requested` is the position in seconds.
    pub fn accepts_position(&self, track_id: &String, position: i64, requested: Double) -> (r: bool)
        ensures
            r == self@.state.accepts_position(track_id@, position as int, requested),
    {
        if !self.state.can_seek || position < 0 {
            return false;
        }
        if self.state.duration.less_than(requested) {
            return false;
        }
        // Stale SetPosition for a previous track must be ignored.
        *track_id == self.state.track_object_path()
    }

    /// A request for a position in microseconds in the track with the given object path.
    pub fn set_position(&self, track_id: &String, position: i64) -> (r: Option<Emission>)
        ensures
            r == if self@.state.accepts_position(
                track_id@,
                position as int,
                position_seconds(position as int),
            ) {
                Some(Emission::PositionChanged(position_seconds(position as int)))
            } else {
                None
            },
            r matches Some(Emission::PositionChanged(requested)) ==> numbers::zero().le(requested)
                && !self@.state.duration.lt(requested),
    {
        if position < 0 {
            return None;
        }
        let micros = position as u64;
        let requested = span::as_secs(
            micros / 1_000_000,
            ((micros % 1_000_000) * 1000) as u32,
        );
        assert(requested == position_seconds(position as int));
        if self.accepts_position(track_id, position, requested) {
            Some(Emission::PositionChanged(requested))
        } else {
            None
        }
    }

    /// No URI can be opened.
    pub fn open_uri(&self, _uri: &String) -> (r: Result<(), MethodError>)
        ensures
            r matches Err(error) && error@ == MethodErrorView::Failed("OpenUri is not supported"@),
    {
        Err(MethodError::Failed("OpenUri is not supported".to_owned()))
    }

    pub fn playback_status(&self) -> (r: String)
        ensures
            r@ == types::status_label(self@.state.playback_status),
    {
        self.state.playback_status_label()
    }

    /// The player does not loop.
    pub fn loop_status(&self) -> (r: String)
        ensures
            r@ == "None"@,
    {
        "None".to_owned()
    }

    /// A request to loop has no effect.
    pub fn set_loop_status(&mut self, _value: &String)
        ensures
            *final(self) == *old(self),
    {
    }

    pub fn rate(&self) -> (r: Double)
        ensures
            r == self@.state.playback_rate,
    {
        self.state.playback_rate
    }

    /// A request for a playback rate. A rate of zero is a request to pause.
    pub fn set_rate(&mut self, value: Double) -> (r: Result<Option<Emission>, MethodError>)
        ensures
            final(self)@ == (MprisPlayerView {
                state: old(self)@.state.rate_requested(value),
                ..old(self)@
            }),
            r is Ok <==> value.same(numbers::zero()) || value.is_playback_rate_spec(),
            r matches Ok(emission) ==> emission == button_if(
                value.same(numbers::zero()) && old(self)@.state.can_pause,
                Button::Pause,
            ),
            r matches Err(error) ==> error@ == MethodErrorView::InvalidArg(
                "Rate out of MinimumRate..MaximumRate"@,
            ),
    {
        // MPRIS: Rate = 0.0 is equivalent to Pause.
        if value.equals(Double::zero()) {
            return Ok(Self::emit_button_if(self.state.can_pause, Button::Pause));
        }
        if !value.is_playback_rate() {
            return Err(
                MethodError::InvalidArg("Rate out of MinimumRate..MaximumRate".to_owned()),
            );
        }
        self.state.playback_rate = value;
        Ok(None)
    }

    /// The player does not shuffle.
    pub fn shuffle(&self) -> (r: bool)
        ensures
            r == false,
    {
        false
    }

    /// A request to shuffle has no effect.
    pub fn set_shuffle(&mut self, _value: bool)
        ensures
            *final(self) == *old(self),
    {
    }

    pub fn metadata(&self) -> (r: PropertyMap<MetadataValue>)
        ensures
            r.wf(),
            r@ == self@.state.metadata(),
    {
        self.state.metadata_map()
    }

    pub fn volume(&self) -> (r: Double)
        ensures
            r == self@.state.volume,
    {
        self.state.volume
    }

    /// Sets the volume, brought into the range from zero to one.
    pub fn set_volume(&mut self, value: Double)
        ensures
            final(self)@ == (MprisPlayerView {
                state: MprisPlayerStateView { volume: value.unit_range_spec(), ..old(self)@.state },
                ..old(self)@
            }),
    {
        self.state.volume = value.unit_range();
    }

    /// The position in microseconds.
    pub fn position(&self) -> (r: i64)
        ensures
            r == conversion::micros(self@.state.position),
    {
        conversion::seconds_to_micros(self.state.position)
    }

    pub fn minimum_rate(&self) -> (r: Double)
        ensures
            r.bits == MIN_PLAYBACK_RATE,
    {
        Double { bits: MIN_PLAYBACK_RATE }
    }

    pub fn maximum_rate(&self) -> (r: Double)
        ensures
            r.bits == MAX_PLAYBACK_RATE,
    {
        Double { bits: MAX_PLAYBACK_RATE }
    }

    pub fn can_go_next(&self) -> (r: bool)
        ensures
            r == self@.state.can_go_next,
    {
        self.state.can_go_next
    }

    pub fn can_go_previous(&self) -> (r: bool)
        ensures
            r == self@.state.can_go_previous,
    {
        self.state.can_go_previous
    }

    pub fn can_play(&self) -> (r: bool)
        ensures
            r == self@.state.can_play,
    {
        self.state.can_play
    }

    pub fn can_pause(&self) -> (r: bool)
        ensures
            r == self@.state.can_pause,
    {
        self.state.can_pause
    }

    pub fn can_seek(&self) -> (r: bool)
        ensures
            r == self@.state.can_seek,
    {
        self.state.can_seek
    }

    pub fn can_control(&self) -> (r: bool)
        ensures
            r == self@.state.can_control,
    {
        self.state.can_control
    }
}

} // verus!
