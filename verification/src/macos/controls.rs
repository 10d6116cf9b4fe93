//! The events of the media controls, and what the controls show.
use vstd::prelude::*;

use crate::double::Double;
use crate::macos::state::{
    MediaPlayerState, MediaPlayerStateView, MetadataSnapshot, MetadataSnapshotView,
    PlaybackSnapshot,
};
use crate::numbers;
use crate::span::Span;
use crate::types::{Button, Emission, MediaPlayerPlaybackStatus};

verus! {

#[derive(Clone, Copy, Debug, PartialEq, Eq, Structural)]
pub enum SeekDirection {
    Forward,
    Backward,
}

/// An event of the media controls, with amounts of time of type `A`.
#[derive(Clone, Copy, Debug)]
pub enum MediaControlEvent<A> {
    Play,
    Pause,
    Toggle,
    Next,
    Previous,
    Stop,
    /// Seek by an amount of the player's choice.
    Seek(SeekDirection),
    /// Seek by the given amount.
    SeekBy(SeekDirection, A),
    /// Go to the given position.
    SetPosition(A),
    /// An event that a media player does not answer.
    Other,
}

impl MediaControlEvent<Span> {
    /// The amount of the event, if it has one, is well-formed.
    pub open spec fn wf(self) -> bool {
        match self {
            MediaControlEvent::SeekBy(_, amount) => amount.wf(),
            MediaControlEvent::SetPosition(position) => position.wf(),
            _ => true,
        }
    }

    /// The event with its amount in seconds.
    pub open spec fn in_seconds_spec(self) -> MediaControlEvent<Double> {
        match self {
            MediaControlEvent::Play => MediaControlEvent::Play,
            MediaControlEvent::Pause => MediaControlEvent::Pause,
            MediaControlEvent::Toggle => MediaControlEvent::Toggle,
            MediaControlEvent::Next => MediaControlEvent::Next,
            MediaControlEvent::Previous => MediaControlEvent::Previous,
            MediaControlEvent::Stop => MediaControlEvent::Stop,
            MediaControlEvent::Seek(direction) => MediaControlEvent::Seek(direction),
            MediaControlEvent::SeekBy(direction, amount) => MediaControlEvent::SeekBy(
                direction,
                amount.seconds_spec(),
            ),
            MediaControlEvent::SetPosition(position) => MediaControlEvent::SetPosition(
                position.seconds_spec(),
            ),
            MediaControlEvent::Other => MediaControlEvent::Other,
        }
    }

    /// The event with its amount in seconds.
    pub fn in_seconds(self) -> (r: MediaControlEvent<Double>)
        requires
            self.wf(),
        ensures
            r == self.in_seconds_spec(),
            r matches MediaControlEvent::SetPosition(position) ==> numbers::zero().le(position),
    {
        match self {
            MediaControlEvent::Play => MediaControlEvent::Play,
            MediaControlEvent::Pause => MediaControlEvent::Pause,
            MediaControlEvent::Toggle => MediaControlEvent::Toggle,
            MediaControlEvent::Next => MediaControlEvent::Next,
            MediaControlEvent::Previous => MediaControlEvent::Previous,
            MediaControlEvent::Stop => MediaControlEvent::Stop,
            MediaControlEvent::Seek(direction) => MediaControlEvent::Seek(direction),
            MediaControlEvent::SeekBy(direction, amount) => MediaControlEvent::SeekBy(
                direction,
                amount.seconds(),
            ),
            MediaControlEvent::SetPosition(position) => MediaControlEvent::SetPosition(
                position.seconds(),
            ),
            MediaControlEvent::Other => MediaControlEvent::Other,
        }
    }
}

/// A seek in a direction: backward is below zero.
pub open spec fn signed_seek(direction: SeekDirection, amount: Double) -> Double {
    match direction {
        SeekDirection::Forward => amount,
        SeekDirection::Backward => amount.negated_spec(),
    }
}

/// A seek in a direction: backward is below zero.
pub fn signed_seek_seconds(direction: SeekDirection, amount: Double) -> (r: Double)
    ensures
        r == signed_seek(direction, amount),
{
    match direction {
        SeekDirection::Forward => amount,
        SeekDirection::Backward => amount.negated(),
    }
}

impl MediaPlayerStateView {
    /// What the listeners are told of an event of the media controls. A player that is not active tells
    /// nothing, and neither does one that does not have what the event asks for.
    pub open spec fn response(self, event: MediaControlEvent<Double>) -> Option<Emission> {
        if !self.active {
            None
        } else {
            match event {
                MediaControlEvent::Play if self.can_play => Some(
                    Emission::ButtonPressed(Button::Play),
                ),
                MediaControlEvent::Pause if self.can_pause => Some(
                    Emission::ButtonPressed(Button::Pause),
                ),
                MediaControlEvent::Toggle if self.can_play || self.can_pause => Some(
                    Emission::ButtonPressed(Button::PlayPause),
                ),
                MediaControlEvent::Next if self.can_go_next => Some(
                    Emission::ButtonPressed(Button::Next),
                ),
                MediaControlEvent::Previous if self.can_go_previous => Some(
                    Emission::ButtonPressed(Button::Previous),
                ),
                MediaControlEvent::Stop if self.can_control => Some(
                    Emission::ButtonPressed(Button::Stop),
                ),
                MediaControlEvent::Seek(direction) if self.can_seek => Some(
                    Emission::PositionSeeked(signed_seek(direction, numbers::seek_step())),
                ),
                MediaControlEvent::SeekBy(direction, amount) if self.can_seek => Some(
                    Emission::PositionSeeked(signed_seek(direction, amount)),
                ),
                MediaControlEvent::SetPosition(position) if self.accepts_set_position(position)
                    => Some(Emission::PositionChanged(position)),
                _ => None,
            }
        }
    }
}

impl MediaPlayerState {
    /// What the listeners are told of an event with its amount in seconds.
    pub fn respond(&self, event: MediaControlEvent<Double>) -> (r: Option<Emission>)
        ensures
            r == self@.response(event),
    {
        if !self.active {
            return None;
        }
        match event {
            MediaControlEvent::Play if self.can_play => Some(Emission::ButtonPressed(Button::Play)),
            MediaControlEvent::Pause if self.can_pause => Some(
                Emission::ButtonPressed(Button::Pause),
            ),
            MediaControlEvent::Toggle if self.can_play || self.can_pause => Some(
                Emission::ButtonPressed(Button::PlayPause),
            ),
            MediaControlEvent::Next if self.can_go_next => Some(
                Emission::ButtonPressed(Button::Next),
            ),
            MediaControlEvent::Previous if self.can_go_previous => Some(
                Emission::ButtonPressed(Button::Previous),
            ),
            MediaControlEvent::Stop if self.can_control => Some(
                Emission::ButtonPressed(Button::Stop),
            ),
            MediaControlEvent::Seek(direction) if self.can_seek => Some(
                Emission::PositionSeeked(
                    signed_seek_seconds(direction, numbers::default_seek_step()),
                ),
            ),
            MediaControlEvent::SeekBy(direction, amount) if self.can_seek => Some(
                Emission::PositionSeeked(signed_seek_seconds(direction, amount)),
            ),
            MediaControlEvent::SetPosition(position) => {
                if self.accepts_set_position(position) {
                    Some(Emission::PositionChanged(position))
                } else {
                    None
                }
            },
            _ => None,
        }
    }
}

/// What the listeners are told of an event of the media controls. A position that they are told of lies
/// within the track.
pub fn handle_media_control_event(
    event: MediaControlEvent<Span>,
    state: &MediaPlayerState,
) -> (r: Option<Emission>)
    requires
        event.wf(),
    ensures
        r == state@.response(event.in_seconds_spec()),
        r matches Some(Emission::PositionChanged(position)) ==> numbers::zero().le(position)
            && position.le(state@.duration),
{
    state.respond(event.in_seconds())
}

/// The metadata as the media controls show them; a text that is not there is left out.
#[derive(Clone, Copy, Debug)]
pub struct MediaMetadata<'a> {
    pub title: Option<&'a str>,
    pub album: Option<&'a str>,
    pub artist: Option<&'a str>,
    pub cover_url: Option<&'a str>,
    /// In seconds.
    pub duration: Double,
}

/// The playback as the media controls show it.
#[derive(Clone, Copy, Debug, PartialEq, Eq, Structural)]
pub enum MediaPlayback {
    Stopped,
    Paused {
        /// In seconds.
        progress: Double,
    },
    Playing {
        /// In seconds.
        progress: Double,
    },
}

/// What a text holds, if it holds anything.
pub open spec fn optional_text(value: Seq<char>) -> Option<Seq<char>> {
    if value.len() == 0 {
        None
    } else {
        Some(value)
    }
}

pub open spec fn ref_view(text: Option<&str>) -> Option<Seq<char>> {
    match text {
        Some(text) => Some(text@),
        None => None,
    }
}

/// A text, if it holds anything.
pub fn to_optional_ref(value: &str) -> (r: Option<&str>)
    ensures
        ref_view(r) == optional_text(value@),
{
    if value.is_empty() {
        None
    } else {
        Some(value)
    }
}

/// What a `MediaMetadata` holds.
#[verifier::ext_equal]
pub struct MediaMetadataView {
    pub title: Option<Seq<char>>,
    pub album: Option<Seq<char>>,
    pub artist: Option<Seq<char>>,
    pub cover_url: Option<Seq<char>>,
    pub duration: Double,
}

impl<'a> View for MediaMetadata<'a> {
    type V = MediaMetadataView;

    open spec fn view(&self) -> MediaMetadataView {
        MediaMetadataView {
            title: ref_view(self.title),
            album: ref_view(self.album),
            artist: ref_view(self.artist),
            cover_url: ref_view(self.cover_url),
            duration: self.duration,
        }
    }
}

impl MetadataSnapshotView {
    /// The metadata as the media controls show them.
    pub open spec fn shown(self) -> MediaMetadataView {
        MediaMetadataView {
            title: optional_text(self.title),
            album: optional_text(self.album_title),
            artist: optional_text(self.artist),
            cover_url: optional_text(self.thumbnail),
            duration: self.duration,
        }
    }
}

impl MetadataSnapshot {
    /// The metadata as the media controls show them.
    pub fn to_media_metadata<'a>(&'a self) -> (r: MediaMetadata<'a>)
        ensures
            r@ == self@.shown(),
    {
        MediaMetadata {
            title: to_optional_ref(self.title.as_str()),
            album: to_optional_ref(self.album_title.as_str()),
            artist: to_optional_ref(self.artist.as_str()),
            cover_url: to_optional_ref(self.thumbnail.as_str()),
            duration: self.duration,
        }
    }
}

impl PlaybackSnapshot {
    /// The playback as the media controls show it: one that is neither playing nor paused is stopped.
    pub open spec fn shown(self) -> MediaPlayback {
        match self.playback_status {
            MediaPlayerPlaybackStatus::Playing => MediaPlayback::Playing {
                progress: self.position,
            },
            MediaPlayerPlaybackStatus::Paused => MediaPlayback::Paused { progress: self.position },
            _ => MediaPlayback::Stopped,
        }
    }

    /// The playback as the media controls show it.
    pub fn to_media_playback(&self) -> (r: MediaPlayback)
        ensures
            r == self.shown(),
    {
        match self.playback_status {
            MediaPlayerPlaybackStatus::Playing => MediaPlayback::Playing {
                progress: self.position,
            },
            MediaPlayerPlaybackStatus::Paused => MediaPlayback::Paused { progress: self.position },
            _ => MediaPlayback::Stopped,
        }
    }
}

} // verus!
