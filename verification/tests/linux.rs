//! The media player of a desktop with a message bus.
use std::time::Instant;
use xosms::conversion::seconds_to_micros;
use xosms::double::Double;
use xosms::linux::mpris::{MethodError, MprisPlayer};
use xosms::linux::names::{
    mpris_bus_name, mpris_path, no_track_path, sanitize_mpris_instance_name,
    sanitize_track_object_path,
};
use xosms::linux::player::MediaPlayer;
use xosms::linux::properties::{MetadataValue, PropertyMap, PropertyValue};
use xosms::linux::session::{
    claim_bus_name, DBusSession, ReleaseNameReply, RequestNameReply, SessionAction, SessionEvent,
    SessionPhase,
};
use xosms::linux::state::MprisPlayerState;
use xosms::types::{
    Button, Emission, MediaPlayerMediaType, MediaPlayerPlaybackStatus, MediaPlayerThumbnail,
    MediaPlayerThumbnailType,
};

const NO_TRACK_PATH: &str = "/org/mpris/MediaPlayer2/TrackList/NoTrack";

fn double(number: f64) -> Double {
    Double { bits: number.to_bits() }
}

fn text(text: &str) -> String {
    text.to_string()
}

#[test]
fn sanitizes_spaces_and_symbols() {
    assert_eq!(sanitize_mpris_instance_name("My App!").unwrap(), "My_App");
}

#[test]
fn prefixes_leading_digits() {
    assert_eq!(sanitize_mpris_instance_name("1player").unwrap(), "p1player");
}

#[test]
fn rejects_empty_after_sanitize() {
    assert!(sanitize_mpris_instance_name("!!!").is_err());
}

#[test]
fn empty_track_id_uses_mpris_no_track_path() {
    let state = MprisPlayerState::new(String::from("Test Player"));
    assert_eq!(state.track_object_path().to_string(), NO_TRACK_PATH);
}

#[test]
fn metadata_uses_artist_array_and_object_path_track_id() {
    let mut state = MprisPlayerState::new(String::from("Test Player"));
    state.track_id = String::from("abc");
    state.artist = String::from("Artist");
    state.title = String::from("Title");
    state.duration = double(12.5);

    let metadata = state.metadata_map();
    assert!(metadata.contains_key(&text("mpris:trackid")));
    assert!(metadata.contains_key(&text("xesam:artist")));
    assert_eq!(state.track_object_path().to_string(), "/xosms/trackid/abc");
    assert_eq!(seconds_to_micros(double(12.5)), 12_500_000);
}

#[test]
fn track_id_with_hyphen_sanitizes_to_valid_object_path() {
    let mut state = MprisPlayerState::new(String::from("Test Player"));
    // YouTube-style ids include `-`, which is illegal in D-Bus object paths.
    state.track_id = String::from("dQw4w9WgXcQ-extra");
    assert_eq!(state.track_object_path().to_string(), "/xosms/trackid/dQw4w9WgXcQ_extra");
}

#[test]
fn track_id_with_only_invalid_chars_falls_back_to_no_track() {
    let mut state = MprisPlayerState::new(String::from("Test Player"));
    state.track_id = String::from("---");
    assert_eq!(state.track_object_path().to_string(), NO_TRACK_PATH);
}

#[test]
fn seeked_emits_only_on_large_position_jumps() {
    let mut state = MprisPlayerState::new(String::from("Test Player"));
    state.position = double(10.0);
    state.playback_rate = double(1.0);
    assert!(state.should_emit_seeked(double(12.0)));
    assert!(!state.should_emit_seeked(double(10.5)));
}

#[test]
fn playback_status_label_maps_unknown_to_stopped() {
    let mut state = MprisPlayerState::new(String::from("Test Player"));
    state.playback_status = MediaPlayerPlaybackStatus::Unknown;
    assert_eq!(state.playback_status_label(), "Stopped");
    state.playback_status = MediaPlayerPlaybackStatus::Playing;
    assert_eq!(state.playback_status_label(), "Playing");
}

fn sample_ids() -> Vec<&'static str> {
    vec![
        "",
        "-",
        "___",
        "a",
        "9",
        "_a_",
        "-a-",
        "a__b",
        "a_-_b",
        "a-_-b",
        "a  b",
        "--__a--__",
        "dQw4w9WgXcQ-extra",
        "spotify:track:4uLU6hMCjMI75M1A2tKUQC",
        "/already/a/path/",
        "\u{e9}t\u{e9}",
        "\u{661}\u{662}",
        "a\u{0}b",
        "0123",
        "My App!",
        "p1player",
    ]
}

/// The instance name by whole-text operations.
fn instance_name_by_text(raw: &str) -> Result<String, ()> {
    let mut name: String = raw
        .chars()
        .map(|c| if c.is_ascii_alphanumeric() || c == '_' || c == '-' { c } else { '_' })
        .collect();
    while name.contains("__") {
        name = name.replace("__", "_");
    }
    let name = name.trim_matches(|c| c == '_' || c == '-').to_string();
    if name.is_empty() {
        return Err(());
    }
    if name.starts_with(|c: char| c.is_ascii_digit()) {
        return Ok(format!("p{name}"));
    }
    Ok(name)
}

/// The track path by whole-text operations, checked by the `dbus` crate.
fn track_path_by_text(track_id: &str) -> Option<String> {
    let mut element: String = track_id
        .chars()
        .map(|c| if c.is_ascii_alphanumeric() || c == '_' { c } else { '_' })
        .collect();
    while element.contains("__") {
        element = element.replace("__", "_");
    }
    let element = element.trim_matches('_');
    if element.is_empty() {
        return None;
    }
    dbus::Path::new(format!("/xosms/trackid/{element}")).ok().map(|path| path.to_string())
}

#[test]
fn names_are_those_of_whole_text_operations() {
    let alphabet = ['a', 'Z', '0', '9', '_', '-', ' ', '/', '\u{e9}', '.'];
    let mut samples: Vec<String> = sample_ids().into_iter().map(text).collect();
    for length in 1..=4u32 {
        for code in 0..10usize.pow(length) {
            let mut rest = code;
            let mut sample = String::new();
            for _ in 0..length {
                sample.push(alphabet[rest % 10]);
                rest /= 10;
            }
            samples.push(sample);
        }
    }
    for sample in samples {
        assert_eq!(
            sanitize_mpris_instance_name(&sample).map_err(|_| ()),
            instance_name_by_text(&sample),
            "{sample:?}"
        );
        assert_eq!(
            sanitize_track_object_path(&sample),
            track_path_by_text(&sample),
            "{sample:?}"
        );
    }
}

#[test]
fn object_paths_are_accepted_by_the_bus() {
    for id in sample_ids() {
        let mut state = MprisPlayerState::new(text("Test Player"));
        state.track_id = text(id);
        assert!(dbus::Path::new(state.track_object_path()).is_ok(), "{id:?}");
    }
    assert!(dbus::Path::new(mpris_path()).is_ok());
    assert_eq!(mpris_path(), "/org/mpris/MediaPlayer2");
    assert!(dbus::Path::new(no_track_path()).is_ok());
    assert_eq!(no_track_path(), NO_TRACK_PATH);
}

#[test]
fn names_stay_when_made_again() {
    for id in sample_ids() {
        if let Ok(name) = sanitize_mpris_instance_name(id) {
            assert_eq!(sanitize_mpris_instance_name(&name), Ok(name.clone()));
            assert!(dbus::strings::BusName::new(mpris_bus_name(&name)).is_ok());
        }
    }
    assert_eq!(mpris_bus_name("My_App"), "org.mpris.MediaPlayer2.My_App");
    assert_eq!(
        sanitize_mpris_instance_name(""),
        Err(text(
            "serviceName must contain at least one alphanumeric character for MPRIS D-Bus registration"
        ))
    );
}

#[test]
fn a_seek_takes_a_jump_within_a_second() {
    let mut state = MprisPlayerState::new(text("Test Player"));
    state.position = double(10.0);
    assert!(state.is_seek(double(11.5), 0));
    assert!(!state.is_seek(double(11.5), 1));
    assert!(!state.is_seek(double(11.0), 0));
    assert!(!state.is_seek(double(3.0), 0));
    state.playback_rate = double(2.0);
    assert!(!state.is_seek(double(11.5), 0));
}

#[test]
fn property_maps_hold_one_value_for_a_name() {
    let mut map: PropertyMap<PropertyValue> = PropertyMap::new();
    assert!(map.get(&text("a")).is_none());
    map.insert(text("a"), PropertyValue::Bool(true));
    map.insert(text("b"), PropertyValue::Bool(true));
    map.insert(text("a"), PropertyValue::Bool(false));
    assert_eq!(map.names, vec!["a", "b"]);
    assert!(matches!(map.get(&text("a")), Some(PropertyValue::Bool(false))));
    assert!(matches!(map.get(&text("b")), Some(PropertyValue::Bool(true))));
    assert!(!map.contains_key(&text("c")));
}

#[test]
fn metadata_hold_six_entries() {
    let mut state = MprisPlayerState::new(text("Test Player"));
    state.track_id = text("a-b");
    state.artist = text("Artist");
    state.title = text("Title");
    state.album_title = text("Album");
    state.thumbnail = text("file:///a.png");
    state.duration = double(0.25);
    let metadata = state.metadata_map();
    assert_eq!(metadata.names.len(), 6);
    assert!(matches!(
        metadata.get(&text("mpris:trackid")),
        Some(MetadataValue::ObjectPath(path)) if path == "/xosms/trackid/a_b"
    ));
    assert!(matches!(
        metadata.get(&text("mpris:length")),
        Some(MetadataValue::Int64(250_000))
    ));
    assert!(matches!(
        metadata.get(&text("mpris:artUrl")),
        Some(MetadataValue::Text(url)) if url == "file:///a.png"
    ));
    assert!(matches!(
        metadata.get(&text("xesam:title")),
        Some(MetadataValue::Text(title)) if title == "Title"
    ));
    assert!(matches!(
        metadata.get(&text("xesam:album")),
        Some(MetadataValue::Text(album)) if album == "Album"
    ));
    assert!(matches!(
        metadata.get(&text("xesam:artist")),
        Some(MetadataValue::TextList(artists)) if *artists == vec!["Artist"]
    ));
}

#[test]
fn bus_requests_press_buttons_that_are_enabled() {
    let mut player = MprisPlayer::new(text("Test Player"));
    assert_eq!(player.next(), None);
    assert_eq!(player.previous(), None);
    assert_eq!(player.play(), None);
    assert_eq!(player.pause(), None);
    assert!(matches!(
        player.play_pause(),
        Err(MethodError::Failed(reason)) if reason == "This media player cannot play or pause"
    ));
    assert!(matches!(player.stop(), Ok(Emission::ButtonPressed(Button::Stop))));

    player.state.can_go_next = true;
    player.state.can_go_previous = true;
    player.state.can_play = true;
    assert_eq!(player.next(), Some(Emission::ButtonPressed(Button::Next)));
    assert_eq!(player.previous(), Some(Emission::ButtonPressed(Button::Previous)));
    assert_eq!(player.play(), Some(Emission::ButtonPressed(Button::Play)));
    assert!(matches!(player.play_pause(), Ok(Emission::ButtonPressed(Button::PlayPause))));
    player.state.can_play = false;
    player.state.can_pause = true;
    assert_eq!(player.pause(), Some(Emission::ButtonPressed(Button::Pause)));
    assert!(matches!(player.play_pause(), Ok(Emission::ButtonPressed(Button::PlayPause))));

    player.state.can_control = false;
    assert!(matches!(
        player.stop(),
        Err(MethodError::Failed(reason)) if reason == "This media player cannot be controlled"
    ));
}

#[test]
fn bus_requests_seek_in_microseconds() {
    let mut player = MprisPlayer::new(text("Test Player"));
    assert_eq!(player.seek(5_000_000), None);
    player.state.can_seek = true;
    assert_eq!(player.seek(5_000_000), Some(Emission::PositionSeeked(double(5.0))));
    assert_eq!(player.seek(-2_500_000), Some(Emission::PositionSeeked(double(-2.5))));
    assert_eq!(player.seek(0), Some(Emission::PositionSeeked(double(0.0))));
}

#[test]
fn bus_positions_must_lie_in_the_current_track() {
    let mut player = MprisPlayer::new(text("Test Player"));
    player.state.can_seek = true;
    player.state.duration = double(100.0);
    player.state.track_id = text("a");
    let track = text("/xosms/trackid/a");
    assert_eq!(
        player.set_position(&track, 2_500_000),
        Some(Emission::PositionChanged(double(2.5)))
    );
    assert_eq!(
        player.set_position(&track, 100_000_000),
        Some(Emission::PositionChanged(double(100.0)))
    );
    assert_eq!(player.set_position(&track, 100_000_001), None);
    assert_eq!(player.set_position(&track, -1), None);
    assert_eq!(player.set_position(&text("/xosms/trackid/b"), 2_500_000), None);
    player.state.can_seek = false;
    assert_eq!(player.set_position(&track, 2_500_000), None);

    player.state.can_seek = true;
    assert!(player.accepts_position(&track, 5, double(5.0)));
    assert!(!player.accepts_position(&track, 5, double(100.5)));
}

#[test]
fn bus_rates_stay_in_range() {
    let mut player = MprisPlayer::new(text("Test Player"));
    assert_eq!(player.rate(), double(1.0));
    assert!(matches!(player.set_rate(double(0.0)), Ok(None)));
    player.state.can_pause = true;
    assert!(matches!(
        player.set_rate(double(-0.0)),
        Ok(Some(Emission::ButtonPressed(Button::Pause)))
    ));
    assert_eq!(player.rate(), double(1.0));
    for rate in [0.25, 1.5, 2.0] {
        assert!(matches!(player.set_rate(double(rate)), Ok(None)));
        assert_eq!(player.rate(), double(rate));
    }
    for rate in [0.2, 2.1, -1.0, f64::NAN, f64::INFINITY] {
        assert!(matches!(
            player.set_rate(double(rate)),
            Err(MethodError::InvalidArg(reason)) if reason == "Rate out of MinimumRate..MaximumRate"
        ));
        assert_eq!(player.rate(), double(2.0));
    }
    assert_eq!(player.minimum_rate(), double(0.25));
    assert_eq!(player.maximum_rate(), double(2.0));
}

#[test]
fn bus_volumes_stay_in_range() {
    let mut player = MprisPlayer::new(text("Test Player"));
    assert_eq!(player.volume(), double(1.0));
    player.set_volume(double(0.5));
    assert_eq!(player.volume(), double(0.5));
    player.set_volume(double(-3.0));
    assert_eq!(player.volume(), double(0.0));
    player.set_volume(double(3.0));
    assert_eq!(player.volume(), double(1.0));
}

#[test]
fn bus_properties_are_read() {
    let mut player = MprisPlayer::new(text("Test Player"));
    assert_eq!(player.identity(), "Test Player");
    assert!(!player.can_quit());
    assert!(!player.can_raise());
    assert!(!player.fullscreen());
    assert!(!player.can_set_fullscreen());
    assert!(!player.has_track_list());
    assert!(!player.shuffle());
    assert_eq!(player.desktop_entry(), "");
    assert!(player.supported_uri_schemes().is_empty());
    assert!(player.supported_mime_types().is_empty());
    assert_eq!(player.loop_status(), "None");
    assert_eq!(player.playback_status(), "Stopped");
    assert!(matches!(
        player.open_uri(&text("http://a")),
        Err(MethodError::Failed(reason)) if reason == "OpenUri is not supported"
    ));
    player.state.position = double(1.25);
    assert_eq!(player.position(), 1_250_000);
    assert_eq!(player.metadata().names.len(), 6);
    assert!(player.can_control());
    assert!(!player.can_play());
}

#[test]
fn linux_players_need_a_name() {
    assert!(MediaPlayer::new(text("???"), text("Test Player")).is_err());
    let player = MediaPlayer::new(text("1 player"), text("Test Player")).unwrap();
    assert_eq!(player.service_name, "p1_player");
    assert_eq!(player.registration(), Some(text("org.mpris.MediaPlayer2.p1_player")));
    assert_eq!(player.finalize(), "org.mpris.MediaPlayer2.p1_player");
}

#[test]
fn activation_announces_all_properties() {
    let mut player = MediaPlayer::new(text("app"), text("Test Player")).unwrap();
    player.set_play_button_enabled(true);
    assert_eq!(player.activate(false).unwrap_err(), "Could not obtain service name on D-Bus");
    let changes = player.activate(true).unwrap().unwrap();
    let mut names = changes.names.clone();
    names.sort();
    assert_eq!(
        names,
        vec![
            "CanControl",
            "CanGoNext",
            "CanGoPrevious",
            "CanPause",
            "CanPlay",
            "CanSeek",
            "Metadata",
            "PlaybackStatus",
            "Rate",
        ]
    );
    assert!(matches!(changes.get(&text("CanPlay")), Some(PropertyValue::Bool(true))));
    assert!(matches!(changes.get(&text("CanPause")), Some(PropertyValue::Bool(false))));
    assert!(matches!(
        changes.get(&text("PlaybackStatus")),
        Some(PropertyValue::Text(label)) if label == "Stopped"
    ));
    assert!(player.activate(true).unwrap().is_none());
    assert!(player.activate(false).unwrap().is_none());
    assert_eq!(player.registration(), None);
    assert!(player.update().names.is_empty());
    assert_eq!(player.deactivate(), Some(text("org.mpris.MediaPlayer2.app")));
    assert_eq!(player.deactivate(), None);
}

#[test]
fn setters_queue_what_an_update_announces() {
    let mut player = MediaPlayer::new(text("app"), text("Test Player")).unwrap();
    player.set_pause_button_enabled(true);
    player.set_previous_button_enabled(true);
    player.set_next_button_enabled(true);
    player.set_seek_enabled(true);
    player.set_stop_button_enabled(false);
    player.set_playback_status(MediaPlayerPlaybackStatus::Paused).unwrap();
    player.set_playback_rate(double(1.5)).unwrap();
    player.set_title(text("old"));
    player.set_title(text("new"));
    player.set_artist(text("r"));
    player.set_album_title(text("l"));
    player.set_track_id(text("i"));
    player.set_media_type(MediaPlayerMediaType::Music).unwrap();
    let thumbnail =
        MediaPlayerThumbnail::create(MediaPlayerThumbnailType::File, text("/a")).unwrap();
    player.set_thumbnail(&thumbnail);

    let changes = player.update();
    let mut names = changes.names.clone();
    names.sort();
    assert_eq!(
        names,
        vec![
            "CanGoNext",
            "CanGoPrevious",
            "CanPause",
            "CanSeek",
            "Metadata",
            "PlaybackStatus",
            "Rate",
        ]
    );
    let Some(PropertyValue::Metadata(metadata)) = changes.get(&text("Metadata")) else {
        panic!("no metadata");
    };
    assert!(matches!(
        metadata.get(&text("xesam:title")),
        Some(MetadataValue::Text(title)) if title == "new"
    ));
    assert!(matches!(
        metadata.get(&text("mpris:artUrl")),
        Some(MetadataValue::Text(url)) if url == "file:///a"
    ));
    assert!(matches!(
        changes.get(&text("Rate")),
        Some(PropertyValue::Double(rate)) if *rate == double(1.5)
    ));
    assert!(player.update().names.is_empty());

    assert!(player.get_pause_button_enabled());
    assert!(player.get_stop_button_enabled());
    assert!(player.get_previous_button_enabled());
    assert!(player.get_next_button_enabled());
    assert!(player.get_seek_enabled());
    assert!(!player.get_play_button_enabled());
    assert_eq!(player.get_playback_rate(), double(1.5));
    assert_eq!(player.get_playback_status(), MediaPlayerPlaybackStatus::Paused);
    assert_eq!(player.get_media_type(), MediaPlayerMediaType::Music);
    assert_eq!(player.get_title(), "new");
    assert_eq!(player.get_artist(), "r");
    assert_eq!(player.get_album_title(), "l");
    assert_eq!(player.get_track_id(), "i");
}

#[test]
fn linux_players_refuse_what_they_cannot_hold() {
    let mut player = MediaPlayer::new(text("app"), text("Test Player")).unwrap();
    assert_eq!(
        player.set_playback_rate(double(3.0)).unwrap_err(),
        "playbackRate must be between 0.25 and 2"
    );
    assert_eq!(
        player.set_playback_rate(double(f64::NAN)).unwrap_err(),
        "playbackRate must be between 0.25 and 2"
    );
    assert_eq!(
        player.set_playback_status(MediaPlayerPlaybackStatus::Unknown).unwrap_err(),
        "Unknown is not a valid MediaPlayerPlaybackStatus to set"
    );
    assert_eq!(
        player.set_media_type(MediaPlayerMediaType::Unknown).unwrap_err(),
        "Unknown is not a valid MediaPlayerMediaType to set"
    );
    assert_eq!(
        player.set_timeline(double(5.0), double(6.0)).unwrap_err(),
        "Position cannot be greather than provided duration"
    );
    assert!(player.update().names.is_empty());
}

#[test]
fn a_timeline_signals_a_seek() {
    let mut player = MediaPlayer::new(text("app"), text("Test Player")).unwrap();
    let at = Instant::now();
    assert_eq!(player.set_timeline_at(double(100.0), double(0.5), 0, at), Ok(None));
    assert_eq!(player.set_timeline_at(double(100.0), double(20.0), 0, at), Ok(Some(20_000_000)));
    assert_eq!(player.set_timeline_at(double(100.0), double(40.0), 1, at), Ok(None));
    assert_eq!(player.player.position(), 40_000_000);
    let changes = player.update();
    let Some(PropertyValue::Metadata(metadata)) = changes.get(&text("Metadata")) else {
        panic!("no metadata");
    };
    assert!(matches!(
        metadata.get(&text("mpris:length")),
        Some(MetadataValue::Int64(100_000_000))
    ));
}

#[test]
fn the_clock_decides_on_a_seek() {
    let mut player = MediaPlayer::new(text("app"), text("Test Player")).unwrap();
    assert_eq!(player.set_timeline(double(100.0), double(0.5)), Ok(None));
    assert_eq!(player.set_timeline(double(100.0), double(20.0)), Ok(Some(20_000_000)));
}

#[test]
fn linux_listeners_come_and_go() {
    let mut player = MediaPlayer::new(text("app"), text("Test Player")).unwrap();
    assert!(player.add_event_listener(text("buttonpressed"), 1, 10));
    assert!(!player.on(text("buttonpressed"), 1, 11));
    let play = Emission::ButtonPressed(Button::Play);
    assert_eq!(player.player.listeners.recipients(play), vec![10]);
    assert_eq!(player.off(text("buttonpressed"), 1), Some(10));
    assert_eq!(player.remove_event_listener(text("buttonpressed"), 1), None);
    assert!(player.player.listeners.recipients(play).is_empty());
}

fn is_request(action: &SessionAction, expected: &str) -> bool {
    matches!(
        action,
        SessionAction::RequestName {
            name,
            allow_replacement: false,
            replace_existing: true,
            do_not_queue: true,
        } if name == expected
    )
}

fn serving_session() -> DBusSession {
    let mut session = DBusSession::new();
    assert!(matches!(session.step(SessionEvent::Connected(true)), SessionAction::Serve));
    session
}

#[test]
fn a_session_connects_until_it_can() {
    let mut session = DBusSession::new();
    assert!(matches!(session.step(SessionEvent::Connected(false)), SessionAction::ConnectLater(250)));
    assert!(matches!(session.phase, SessionPhase::Connecting));
    assert!(matches!(session.step(SessionEvent::Message), SessionAction::Ignore));
    assert!(matches!(session.step(SessionEvent::Emit), SessionAction::Ignore));
    assert!(matches!(session.step(DBusSession::register("app")), SessionAction::Ignore));
    assert!(matches!(session.step(SessionEvent::Connected(true)), SessionAction::Serve));
    assert!(matches!(session.step(SessionEvent::Message), SessionAction::Discard));
}

#[test]
fn a_session_registers_a_name_it_owns() {
    let mut session = serving_session();
    assert!(is_request(&session.step(DBusSession::register("app")), "org.mpris.MediaPlayer2.app"));
    assert!(matches!(
        session.step(SessionEvent::NameReply(Some(RequestNameReply::Exists))),
        SessionAction::Respond(false)
    ));
    assert_eq!(session.registered, None);
    session.step(DBusSession::register("app"));
    assert!(matches!(
        session.step(SessionEvent::NameReply(Some(RequestNameReply::PrimaryOwner))),
        SessionAction::Respond(true)
    ));
    assert_eq!(session.registered, Some(text("org.mpris.MediaPlayer2.app")));
    assert!(matches!(session.step(SessionEvent::Message), SessionAction::Dispatch));
}

#[test]
fn a_session_reclaims_its_name() {
    let mut session = serving_session();
    session.step(DBusSession::register("app"));
    session.step(SessionEvent::NameReply(Some(RequestNameReply::PrimaryOwner)));
    assert!(matches!(session.step(SessionEvent::Disconnected), SessionAction::Connect));
    assert!(is_request(
        &session.step(SessionEvent::Connected(true)),
        "org.mpris.MediaPlayer2.app"
    ));
    assert!(matches!(
        session.step(SessionEvent::NameReply(None)),
        SessionAction::ConnectLater(250)
    ));
    session.step(SessionEvent::Connected(true));
    assert!(matches!(session.step(SessionEvent::Emit), SessionAction::Ignore));
    assert!(matches!(session.step(DBusSession::unregister("app")), SessionAction::Ignore));
    assert!(matches!(
        session.step(SessionEvent::NameReply(Some(RequestNameReply::PrimaryOwner))),
        SessionAction::Serve
    ));
    assert!(matches!(session.step(SessionEvent::Emit), SessionAction::Send));
    assert_eq!(session.registered, Some(text("org.mpris.MediaPlayer2.app")));
}

#[test]
fn a_session_releases_its_name() {
    let mut session = serving_session();
    assert!(matches!(
        session.step(DBusSession::unregister("app")),
        SessionAction::Respond(false)
    ));
    session.step(DBusSession::register("app"));
    session.step(SessionEvent::NameReply(Some(RequestNameReply::PrimaryOwner)));
    assert!(matches!(
        session.step(DBusSession::unregister("other")),
        SessionAction::Respond(false)
    ));
    assert!(matches!(
        session.step(DBusSession::unregister("app")),
        SessionAction::ReleaseName(name) if name == "org.mpris.MediaPlayer2.app"
    ));
    assert!(matches!(
        session.step(SessionEvent::ReleaseReply(Some(ReleaseNameReply::Released))),
        SessionAction::Respond(true)
    ));
    assert_eq!(session.registered, None);
    assert!(matches!(session.step(SessionEvent::Message), SessionAction::Discard));
}

#[test]
fn only_the_primary_owner_holds_a_name() {
    assert!(claim_bus_name(Some(RequestNameReply::PrimaryOwner)));
    assert!(!claim_bus_name(Some(RequestNameReply::InQueue)));
    assert!(!claim_bus_name(Some(RequestNameReply::Exists)));
    assert!(!claim_bus_name(Some(RequestNameReply::AlreadyOwner)));
    assert!(!claim_bus_name(None));
    assert!(DBusSession::outcome(Some(true)));
    assert!(!DBusSession::outcome(Some(false)));
    assert!(!DBusSession::outcome(None));
}
