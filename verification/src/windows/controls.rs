//! What the media transport controls ask for and show.
use vstd::prelude::*;

use crate::double::Double;
use crate::numbers;
use crate::types::{
    Button, Emission, MediaPlayerMediaType, MediaPlayerPlaybackStatus, MediaPlayerThumbnailType,
};

verus! {

/// A button of the media transport controls.
#[derive(Clone, Copy, Debug, PartialEq, Eq, Structural)]
pub enum SystemMediaTransportControlsButton {
    Play,
    Pause,
    Stop,
    Next,
    Previous,
    FastForward,
    Rewind,
    /// A button that a media player does not answer.
    Other,
}

/// The playback status that the media transport controls show.
#[derive(Clone, Copy, Debug, PartialEq, Eq, Structural)]
pub enum MediaPlaybackStatus {
    Closed,
    Changing,
    Stopped,
    Playing,
    Paused,
}

/// The kind of media that the media transport controls show.
#[derive(Clone, Copy, Debug, PartialEq, Eq, Structural)]
pub enum MediaPlaybackType {
    Unknown,
    Music,
    Video,
    Image,
}

/// The timeline that the media transport controls show, in seconds.
#[derive(Clone, Copy, Debug, PartialEq, Eq, Structural)]
pub struct TimelineProperties {
    pub start_time: Double,
    pub end_time: Double,
    pub position: Double,
    pub min_seek_time: Double,
    pub max_seek_time: Double,
}

/// Where a thumbnail is found.
#[derive(Clone, Debug)]
pub enum ThumbnailSource {
    /// In the file with the given path.
    File(String),
    /// At the given URI.
    Uri(String),
}

/// What the listeners are told of a button. Seeking takes a player that has it enabled.
pub open spec fn button_response(
    button: SystemMediaTransportControlsButton,
    seek_enabled: bool,
) -> Option<Emission> {
    match button {
        SystemMediaTransportControlsButton::Play => Some(Emission::ButtonPressed(Button::Play)),
        SystemMediaTransportControlsButton::Pause => Some(Emission::ButtonPressed(Button::Pause)),
        SystemMediaTransportControlsButton::Stop => Some(Emission::ButtonPressed(Button::Stop)),
        SystemMediaTransportControlsButton::Next => Some(Emission::ButtonPressed(Button::Next)),
        SystemMediaTransportControlsButton::Previous => Some(
            Emission::ButtonPressed(Button::Previous),
        ),
        SystemMediaTransportControlsButton::FastForward if seek_enabled => Some(
            Emission::PositionSeeked(numbers::seek_step()),
        ),
        SystemMediaTransportControlsButton::Rewind if seek_enabled => Some(
            Emission::PositionSeeked(numbers::seek_step().negated_spec()),
        ),
        _ => None,
    }
}

/// What the listeners are told of a button.
pub fn dispatch_smtc_button(
    button: SystemMediaTransportControlsButton,
    seek_enabled: bool,
) -> (r: Option<Emission>)
    ensures
        r == button_response(button, seek_enabled),
{
    match button {
        SystemMediaTransportControlsButton::Play => Some(Emission::ButtonPressed(Button::Play)),
        SystemMediaTransportControlsButton::Pause => Some(Emission::ButtonPressed(Button::Pause)),
        SystemMediaTransportControlsButton::Stop => Some(Emission::ButtonPressed(Button::Stop)),
        SystemMediaTransportControlsButton::Next => Some(Emission::ButtonPressed(Button::Next)),
        SystemMediaTransportControlsButton::Previous => Some(
            Emission::ButtonPressed(Button::Previous),
        ),
        SystemMediaTransportControlsButton::FastForward if seek_enabled => Some(
            Emission::PositionSeeked(numbers::default_seek_step()),
        ),
        SystemMediaTransportControlsButton::Rewind if seek_enabled => Some(
            Emission::PositionSeeked(numbers::default_seek_step().negated()),
        ),
        _ => None,
    }
}

/// Fast forward and rewind move by the same amount, in opposite directions.
pub proof fn law_rewind_undoes_fast_forward()
    ensures
        button_response(SystemMediaTransportControlsButton::FastForward, true) matches Some(
            Emission::PositionSeeked(forward),
        ) && button_response(SystemMediaTransportControlsButton::Rewind, true) matches Some(
            Emission::PositionSeeked(backward),
        ) && forward.units() > 0 && backward.units() == -forward.units(),
{
    numbers::lemma_constants();
    assert(numbers::seek_step().negated_spec().magnitude_bits()
        == numbers::seek_step().magnitude_bits());
}

/// A player that has seeking disabled tells of no seek, whatever is pressed.
pub proof fn law_seek_gate(button: SystemMediaTransportControlsButton)
    ensures
        !(button_response(button, false) matches Some(Emission::PositionSeeked(_))),
{
}

/// What the listeners are told of a requested position, given in seconds.
pub fn position_requested(seconds: Double, seek_enabled: bool) -> (r: Option<Emission>)
    ensures
        r == if seek_enabled {
            Some(Emission::PositionChanged(seconds))
        } else {
            None
        },
{
    if !seek_enabled {
        return None;
    }
    Some(Emission::PositionChanged(seconds))
}

/// The playback status that the media transport controls show for a status.
pub open spec fn shown_status(playback_status: MediaPlayerPlaybackStatus) -> Option<
    MediaPlaybackStatus,
> {
    match playback_status {
        MediaPlayerPlaybackStatus::Playing => Some(MediaPlaybackStatus::Playing),
        MediaPlayerPlaybackStatus::Paused => Some(MediaPlaybackStatus::Paused),
        MediaPlayerPlaybackStatus::Stopped => Some(MediaPlaybackStatus::Stopped),
        MediaPlayerPlaybackStatus::Unknown => None,
    }
}

/// The status of a player whose media transport controls show the given one.
pub open spec fn status_shown(status: MediaPlaybackStatus) -> MediaPlayerPlaybackStatus {
    match status {
        MediaPlaybackStatus::Playing => MediaPlayerPlaybackStatus::Playing,
        MediaPlaybackStatus::Paused => MediaPlayerPlaybackStatus::Paused,
        MediaPlaybackStatus::Stopped => MediaPlayerPlaybackStatus::Stopped,
        _ => MediaPlayerPlaybackStatus::Unknown,
    }
}

/// The kind of media that the media transport controls show for a media type.
pub open spec fn shown_type(media_type: MediaPlayerMediaType) -> Option<MediaPlaybackType> {
    match media_type {
        MediaPlayerMediaType::Music => Some(MediaPlaybackType::Music),
        MediaPlayerMediaType::Unknown => None,
    }
}

/// The media type of a player whose media transport controls show the given one.
pub open spec fn type_shown(playback_type: MediaPlaybackType) -> MediaPlayerMediaType {
    match playback_type {
        MediaPlaybackType::Music => MediaPlayerMediaType::Music,
        _ => MediaPlayerMediaType::Unknown,
    }
}

/// A status that was set is the status that is read.
pub proof fn law_status_roundtrip(playback_status: MediaPlayerPlaybackStatus)
    ensures
        shown_status(playback_status) matches Some(status) ==> status_shown(status)
            == playback_status,
        shown_status(playback_status) is None <==> playback_status is Unknown,
{
}

/// A media type that was set is the media type that is read.
pub proof fn law_media_type_roundtrip(media_type: MediaPlayerMediaType)
    ensures
        shown_type(media_type) matches Some(playback_type) ==> type_shown(playback_type)
            == media_type,
        shown_type(media_type) is None <==> media_type is Unknown,
{
}

/// The timeline of a track: it starts at zero, and all of it can be reached.
pub open spec fn timeline(duration: Double, position: Double) -> TimelineProperties {
    TimelineProperties {
        start_time: numbers::zero(),
        end_time: duration,
        position,
        min_seek_time: numbers::zero(),
        max_seek_time: duration,
    }
}

/// The position of a timeline that is accepted lies between its ends, and so do the times that can be
/// reached. What is not a number is left out.
pub proof fn law_timeline_in_order(duration: Double, position: Double)
    requires
        numbers::timeline_fault(duration, position) is None,
        !duration.is_nan_spec(),
        !position.is_nan_spec(),
    ensures
        ({
            let shown = timeline(duration, position);
            &&& shown.start_time.le(shown.position)
            &&& shown.position.le(shown.end_time)
            &&& shown.start_time.le(shown.min_seek_time)
            &&& shown.min_seek_time.le(shown.max_seek_time)
            &&& shown.max_seek_time.le(shown.end_time)
        }),
{
    numbers::lemma_constants();
    numbers::law_timeline_in_range(duration, position);
}

/// Where a thumbnail is found. One of an unknown type is refused.
pub fn thumbnail_source(thumbnail_type: MediaPlayerThumbnailType, thumbnail: String) -> (r: Result<
    ThumbnailSource,
    String,
>)
    ensures
        match thumbnail_type {
            MediaPlayerThumbnailType::File => r == Ok::<ThumbnailSource, String>(
                ThumbnailSource::File(thumbnail),
            ),
            MediaPlayerThumbnailType::Uri => r == Ok::<ThumbnailSource, String>(
                ThumbnailSource::Uri(thumbnail),
            ),
            MediaPlayerThumbnailType::Unknown => r matches Err(reason) && reason@
                == "Unknown is not a valid MediaPlayerThumbnailType to create"@,
        },
{
    match thumbnail_type {
        MediaPlayerThumbnailType::File => Ok(ThumbnailSource::File(thumbnail)),
        MediaPlayerThumbnailType::Uri => Ok(ThumbnailSource::Uri(thumbnail)),
        _ => Err("Unknown is not a valid MediaPlayerThumbnailType to create".to_owned()),
    }
}

} // verus!
