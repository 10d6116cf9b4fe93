//! The media player of Windows.
use std::time::Duration;
use xosms::double::Double;
use xosms::span::Span;
use xosms::types::{
    Button, Emission, MediaPlayerMediaType, MediaPlayerPlaybackStatus, MediaPlayerThumbnailType,
};
use xosms::windows::controls::{
    dispatch_smtc_button, position_requested, thumbnail_source, MediaPlaybackStatus,
    MediaPlaybackType, SystemMediaTransportControlsButton, ThumbnailSource, TimelineProperties,
};
use xosms::windows::player::MediaPlayer;
use xosms::windows::time::{secs_to_timespan, timespan_to_span};

fn double(number: f64) -> Double {
    Double { bits: number.to_bits() }
}

fn span(duration: Duration) -> Span {
    Span { secs: duration.as_secs(), nanos: duration.subsec_nanos() }
}

#[test]
fn secs_to_timespan_roundtrips_duration() {
    let timespan = secs_to_timespan(span(Duration::from_secs_f64(12.5)));
    assert_eq!(timespan_to_span(timespan), span(Duration::from_secs_f64(12.5)));
}

#[test]
fn time_spans_count_steps() {
    assert_eq!(secs_to_timespan(Span { secs: 12, nanos: 500_000_000 }), 125_000_000);
    assert_eq!(secs_to_timespan(Span { secs: 0, nanos: 199 }), 1);
    assert_eq!(secs_to_timespan(Span { secs: 1_000_000_000_000, nanos: 0 }), -8446744073709551616);
    assert_eq!(timespan_to_span(1), Span { secs: 0, nanos: 100 });
    assert_eq!(timespan_to_span(10_000_001), Span { secs: 1, nanos: 100 });
    assert_eq!(timespan_to_span(-1), Span { secs: 18_446_744_073, nanos: 709_551_516 });
}

#[test]
fn buttons_are_dispatched() {
    let button = |button| dispatch_smtc_button(button, true);
    assert_eq!(
        button(SystemMediaTransportControlsButton::Play),
        Some(Emission::ButtonPressed(Button::Play))
    );
    assert_eq!(
        button(SystemMediaTransportControlsButton::Pause),
        Some(Emission::ButtonPressed(Button::Pause))
    );
    assert_eq!(
        button(SystemMediaTransportControlsButton::Stop),
        Some(Emission::ButtonPressed(Button::Stop))
    );
    assert_eq!(
        button(SystemMediaTransportControlsButton::Next),
        Some(Emission::ButtonPressed(Button::Next))
    );
    assert_eq!(
        button(SystemMediaTransportControlsButton::Previous),
        Some(Emission::ButtonPressed(Button::Previous))
    );
    assert_eq!(
        button(SystemMediaTransportControlsButton::FastForward),
        Some(Emission::PositionSeeked(double(15.0)))
    );
    assert_eq!(
        button(SystemMediaTransportControlsButton::Rewind),
        Some(Emission::PositionSeeked(double(-15.0)))
    );
    assert_eq!(button(SystemMediaTransportControlsButton::Other), None);
}

#[test]
fn seeking_takes_a_player_that_has_it_enabled() {
    assert_eq!(dispatch_smtc_button(SystemMediaTransportControlsButton::FastForward, false), None);
    assert_eq!(dispatch_smtc_button(SystemMediaTransportControlsButton::Rewind, false), None);
    assert_eq!(
        dispatch_smtc_button(SystemMediaTransportControlsButton::Play, false),
        Some(Emission::ButtonPressed(Button::Play))
    );
    assert_eq!(position_requested(double(2.0), false), None);
    assert_eq!(
        position_requested(double(2.0), true),
        Some(Emission::PositionChanged(double(2.0)))
    );

    let mut player = MediaPlayer::new();
    assert!(player.get_seek_enabled());
    assert_eq!(
        player.position_change_requested(25_000_000),
        Some(Emission::PositionChanged(double(2.5)))
    );
    player.set_seek_enabled(false);
    assert!(!player.get_seek_enabled());
    assert_eq!(player.position_change_requested(25_000_000), None);
    assert_eq!(player.position_change_requested(i64::MAX), None);
    assert_eq!(player.button_pressed(SystemMediaTransportControlsButton::Rewind), None);
    assert_eq!(
        player.button_pressed(SystemMediaTransportControlsButton::Next),
        Some(Emission::ButtonPressed(Button::Next))
    );
}

#[test]
fn statuses_and_types_are_read_back() {
    let mut player = MediaPlayer::new();
    for status in [
        MediaPlayerPlaybackStatus::Playing,
        MediaPlayerPlaybackStatus::Paused,
        MediaPlayerPlaybackStatus::Stopped,
    ] {
        let shown = player.set_playback_status(status).unwrap();
        assert_eq!(player.get_playback_status(shown), status);
    }
    assert_eq!(
        player.set_playback_status(MediaPlayerPlaybackStatus::Unknown).unwrap_err(),
        "Unknown is not a valid MediaPlayerPlaybackStatus to set"
    );
    assert_eq!(
        player.get_playback_status(MediaPlaybackStatus::Closed),
        MediaPlayerPlaybackStatus::Unknown
    );
    assert_eq!(
        player.get_playback_status(MediaPlaybackStatus::Changing),
        MediaPlayerPlaybackStatus::Unknown
    );
    assert_eq!(player.deactivate(), MediaPlaybackStatus::Closed);

    assert_eq!(
        player.set_media_type(MediaPlayerMediaType::Music).unwrap(),
        MediaPlaybackType::Music
    );
    assert_eq!(
        player.set_media_type(MediaPlayerMediaType::Unknown).unwrap_err(),
        "Unknown is not a valid MediaPlayerMediaType to set"
    );
    assert_eq!(player.get_media_type(MediaPlaybackType::Music), MediaPlayerMediaType::Music);
    assert_eq!(player.get_media_type(MediaPlaybackType::Video), MediaPlayerMediaType::Unknown);
    assert_eq!(player.get_media_type(MediaPlaybackType::Image), MediaPlayerMediaType::Unknown);
}

#[test]
fn the_timeline_starts_at_zero() {
    let mut player = MediaPlayer::new();
    assert_eq!(
        player.set_timeline(double(100.0), double(3.0)).unwrap(),
        TimelineProperties {
            start_time: double(0.0),
            end_time: double(100.0),
            position: double(3.0),
            min_seek_time: double(0.0),
            max_seek_time: double(100.0),
        }
    );
    assert_eq!(
        player.set_timeline(double(-100.0), double(3.0)).unwrap_err(),
        "Duration cannot be less than 0"
    );
}

#[test]
fn windows_thumbnails_have_a_source() {
    assert!(matches!(
        thumbnail_source(MediaPlayerThumbnailType::File, String::from("C:\\a")),
        Ok(ThumbnailSource::File(path)) if path == "C:\\a"
    ));
    assert!(matches!(
        thumbnail_source(MediaPlayerThumbnailType::Uri, String::from("http://a")),
        Ok(ThumbnailSource::Uri(uri)) if uri == "http://a"
    ));
    assert_eq!(
        thumbnail_source(MediaPlayerThumbnailType::Unknown, String::from("x")).unwrap_err(),
        "Unknown is not a valid MediaPlayerThumbnailType to create"
    );
}

#[test]
fn windows_players_hold_a_track_and_listeners() {
    let mut player = MediaPlayer::new();
    assert_eq!(player.get_track_id(), "");
    player.set_track_id(String::from("a-b"));
    assert_eq!(player.get_track_id(), "a-b");
    assert!(player.on(String::from("positionchanged"), 4, 40));
    assert!(!player.add_event_listener(String::from("positionchanged"), 4, 41));
    let emission = Emission::PositionChanged(double(1.0));
    assert_eq!(player.listeners.recipients(emission), vec![40]);
    assert_eq!(player.off(String::from("positionchanged"), 4), Some(40));
    assert_eq!(player.remove_event_listener(String::from("positionchanged"), 4), None);
    assert!(player.add_event_listener(String::from("positionchanged"), 5, 50));
    player.finalize();
    assert!(player.listeners.recipients(emission).is_empty());
}
