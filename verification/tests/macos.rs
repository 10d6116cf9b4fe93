//! The media player of macOS.
use xosms::double::Double;
use xosms::macos::controls::{
    handle_media_control_event, signed_seek_seconds, to_optional_ref, MediaControlEvent,
    MediaPlayback, SeekDirection,
};
use xosms::macos::player::{FlushStep, MediaPlayer};
use xosms::macos::state::{
    assign_if_changed, FlushMode, FlushPayload, MediaPlayerState, PlaybackSnapshot,
    PlaybackStatePatch, TitleDataPatch,
};
use xosms::span::Span;
use xosms::types::{
    Button, Emission, MediaPlayerMediaType, MediaPlayerPlaybackStatus, MediaPlayerThumbnail,
    MediaPlayerThumbnailType,
};

fn double(number: f64) -> Double {
    Double { bits: number.to_bits() }
}

fn build_test_state() -> MediaPlayerState {
    MediaPlayerState {
        active: true,
        can_go_next: true,
        can_go_previous: true,
        can_play: true,
        can_pause: true,
        can_seek: true,
        can_control: true,
        media_type: MediaPlayerMediaType::Music,
        playback_status: MediaPlayerPlaybackStatus::Paused,
        ..MediaPlayerState::default()
    }
}

#[test]
fn track_transition_is_completed_by_timeline_patch() {
    let mut state = build_test_state();

    assert!(state.apply_title_patch(TitleDataPatch {
        track_id: Some(String::from("track-2")),
        ..TitleDataPatch::default()
    }));
    assert!(state.track_transition_pending);
    assert_eq!(state.track_revision, 1);
    assert_eq!(state.position_event_track_revision, 0);

    let playback_result = state.apply_playback_patch(PlaybackStatePatch {
        duration: Some(double(200.0)),
        position: Some(double(0.0)),
        ..PlaybackStatePatch::default()
    });

    assert!(playback_result.completed_track_transition);
    assert_eq!(state.position_event_track_revision, state.track_revision);
    assert!(!state.track_transition_pending);
}

#[test]
fn set_position_is_rejected_for_stale_track_context() {
    let mut state = build_test_state();
    state.track_revision = 2;
    state.position_event_track_revision = 1;
    state.duration = double(120.0);

    assert!(!state.accepts_set_position(double(12.0)));

    state.position_event_track_revision = 2;
    assert!(state.accepts_set_position(double(12.0)));
}

#[test]
fn metadata_flush_requires_dirty_or_changed_snapshot() {
    let mut state = build_test_state();
    state.title = String::from("Song");
    state.duration = double(180.0);

    let metadata_snapshot = state.metadata_snapshot();
    state.last_metadata_snapshot = Some(metadata_snapshot.clone());
    state.metadata_dirty = false;

    assert!(!state.should_emit_metadata(&metadata_snapshot, FlushMode::PlaybackOnly));
    assert!(!state.should_emit_metadata(&metadata_snapshot, FlushMode::TrackChange));

    state.metadata_dirty = true;
    assert!(state.should_emit_metadata(&metadata_snapshot, FlushMode::TrackChange));
}

#[test]
fn paused_playback_flush_uses_latest_position_snapshot() {
    let mut state = build_test_state();
    state.position = double(55.0);
    state.playback_status = MediaPlayerPlaybackStatus::Playing;
    state.last_playback_snapshot = Some(PlaybackSnapshot {
        playback_status: MediaPlayerPlaybackStatus::Playing,
        position: double(58.0),
    });
    state.playback_dirty = false;

    assert!(
        state
            .apply_playback_patch(PlaybackStatePatch {
                playback_status: Some(MediaPlayerPlaybackStatus::Paused),
                ..PlaybackStatePatch::default()
            })
            .changed
    );
    assert!(state.prefer_last_playback_position_for_status_flush);

    let playback_snapshot = state.playback_snapshot();
    assert_eq!(playback_snapshot.position, double(58.0));
    assert_eq!(playback_snapshot.playback_status, MediaPlayerPlaybackStatus::Paused);
    assert!(state.should_emit_playback(&playback_snapshot, FlushMode::PlaybackOnly));
}

#[test]
fn track_change_resets_timeline_state_before_next_playback_flush() {
    let mut state = build_test_state();
    state.duration = double(245.0);
    state.position = double(182.0);
    state.last_playback_snapshot = Some(PlaybackSnapshot {
        playback_status: MediaPlayerPlaybackStatus::Playing,
        position: double(182.0),
    });

    assert!(state.apply_title_patch(TitleDataPatch {
        track_id: Some(String::from("new-track")),
        ..TitleDataPatch::default()
    }));
    assert_eq!(state.duration, double(0.0));
    assert_eq!(state.position, double(0.0));
    assert!(state.track_transition_pending);
}

#[test]
fn inactive_state_does_not_create_flush_payload() {
    let mut state = build_test_state();
    state.active = false;
    state.metadata_dirty = true;
    state.playback_dirty = true;

    assert!(state.create_flush_payload(FlushMode::Full).is_none());
}

#[test]
fn texts_are_assigned_where_they_change() {
    let mut text = String::from("a");
    assert!(!assign_if_changed(&mut text, None));
    assert!(!assign_if_changed(&mut text, Some(String::from("a"))));
    assert_eq!(text, "a");
    assert!(assign_if_changed(&mut text, Some(String::from("b"))));
    assert_eq!(text, "b");
    assert!(assign_if_changed(&mut text, Some(String::new())));
    assert_eq!(text, "");
}

#[test]
fn patches_without_news_change_nothing() {
    let mut state = build_test_state();
    assert!(!state.apply_title_patch(TitleDataPatch::default()));
    assert!(!state.apply_title_patch(TitleDataPatch {
        title: Some(String::new()),
        track_id: Some(String::new()),
        ..TitleDataPatch::default()
    }));
    let result = state.apply_playback_patch(PlaybackStatePatch {
        duration: Some(double(0.0)),
        playback_status: Some(MediaPlayerPlaybackStatus::Paused),
        ..PlaybackStatePatch::default()
    });
    assert!(!result.changed);
    assert!(!result.completed_track_transition);
    assert_eq!(state.state_revision, 0);
    assert!(!state.metadata_dirty);
    assert!(!state.playback_dirty);
}

#[test]
fn revisions_stop_at_the_last_one() {
    let mut state = build_test_state();
    state.state_revision = u64::MAX;
    state.track_revision = u64::MAX;
    assert!(state.apply_title_patch(TitleDataPatch {
        track_id: Some(String::from("a")),
        ..TitleDataPatch::default()
    }));
    assert_eq!(state.state_revision, u64::MAX);
    assert_eq!(state.track_revision, u64::MAX);
}

#[test]
fn positions_are_accepted_again_once_the_timeline_is_set() {
    let mut state = build_test_state();
    state.duration = double(100.0);
    assert!(state.accepts_set_position(double(100.0)));
    assert!(!state.accepts_set_position(double(100.5)));
    assert!(!state.accepts_set_position(double(f64::NAN)));

    state.apply_title_patch(TitleDataPatch {
        track_id: Some(String::from("next")),
        ..TitleDataPatch::default()
    });
    assert!(!state.accepts_set_position(double(0.0)));
    state.apply_title_patch(TitleDataPatch {
        title: Some(String::from("Next")),
        ..TitleDataPatch::default()
    });
    assert!(!state.accepts_set_position(double(0.0)));
    state.apply_playback_patch(PlaybackStatePatch {
        playback_status: Some(MediaPlayerPlaybackStatus::Playing),
        ..PlaybackStatePatch::default()
    });
    assert!(state.track_transition_pending);
    assert!(!state.accepts_set_position(double(0.0)));

    state.apply_playback_patch(PlaybackStatePatch {
        duration: Some(double(200.0)),
        position: Some(double(1.0)),
        ..PlaybackStatePatch::default()
    });
    assert!(state.accepts_set_position(double(150.0)));
    state.can_seek = false;
    assert!(!state.accepts_set_position(double(150.0)));
}

#[test]
fn snapshots_are_not_below_zero() {
    let mut state = build_test_state();
    state.duration = double(-3.0);
    state.position = double(f64::NAN);
    assert_eq!(state.metadata_snapshot().duration, double(0.0));
    assert_eq!(state.playback_snapshot().position, double(0.0));
}

#[test]
fn a_change_during_a_flush_is_kept() {
    let mut state = build_test_state();
    state.apply_title_patch(TitleDataPatch {
        title: Some(String::from("old")),
        ..TitleDataPatch::default()
    });
    let payload = state.create_flush_payload(FlushMode::MetadataOnly).unwrap();
    state.apply_title_patch(TitleDataPatch {
        title: Some(String::from("new")),
        ..TitleDataPatch::default()
    });
    state.mark_metadata_flushed(payload.state_revision, payload.metadata.unwrap());
    assert!(state.metadata_dirty);
    let payload = state.create_flush_payload(FlushMode::MetadataOnly).unwrap();
    assert_eq!(payload.metadata.as_ref().unwrap().title, "new");
    assert!(payload.playback.is_none());
    state.mark_metadata_flushed(payload.state_revision, payload.metadata.unwrap());
    assert!(!state.metadata_dirty);
    assert!(state.create_flush_payload(FlushMode::MetadataOnly).is_none());
}

#[test]
fn a_playback_change_during_a_flush_is_kept() {
    let mut state = build_test_state();
    let snapshot = state.playback_snapshot();
    let revision = state.state_revision;
    state.apply_playback_patch(PlaybackStatePatch {
        playback_status: Some(MediaPlayerPlaybackStatus::Playing),
        ..PlaybackStatePatch::default()
    });
    state.mark_playback_flushed(revision, snapshot);
    assert!(state.playback_dirty);
    assert!(state.prefer_last_playback_position_for_status_flush);
}

#[test]
fn media_controls_are_answered() {
    let mut state = build_test_state();
    state.duration = double(100.0);
    let press = |state: &MediaPlayerState, event| handle_media_control_event(event, state);
    assert_eq!(
        press(&state, MediaControlEvent::Play),
        Some(Emission::ButtonPressed(Button::Play))
    );
    assert_eq!(
        press(&state, MediaControlEvent::Pause),
        Some(Emission::ButtonPressed(Button::Pause))
    );
    assert_eq!(
        press(&state, MediaControlEvent::Toggle),
        Some(Emission::ButtonPressed(Button::PlayPause))
    );
    assert_eq!(
        press(&state, MediaControlEvent::Next),
        Some(Emission::ButtonPressed(Button::Next))
    );
    assert_eq!(
        press(&state, MediaControlEvent::Previous),
        Some(Emission::ButtonPressed(Button::Previous))
    );
    assert_eq!(
        press(&state, MediaControlEvent::Stop),
        Some(Emission::ButtonPressed(Button::Stop))
    );
    assert_eq!(
        press(&state, MediaControlEvent::Seek(SeekDirection::Forward)),
        Some(Emission::PositionSeeked(double(15.0)))
    );
    assert_eq!(
        press(&state, MediaControlEvent::Seek(SeekDirection::Backward)),
        Some(Emission::PositionSeeked(double(-15.0)))
    );
    let amount = Span { secs: 2, nanos: 500_000_000 };
    assert_eq!(
        press(&state, MediaControlEvent::SeekBy(SeekDirection::Backward, amount)),
        Some(Emission::PositionSeeked(double(-2.5)))
    );
    assert_eq!(
        press(&state, MediaControlEvent::SetPosition(amount)),
        Some(Emission::PositionChanged(double(2.5)))
    );
    assert_eq!(
        press(&state, MediaControlEvent::SetPosition(Span { secs: 101, nanos: 0 })),
        None
    );
    assert_eq!(press(&state, MediaControlEvent::Other), None);

    state.can_play = false;
    assert_eq!(press(&state, MediaControlEvent::Play), None);
    assert_eq!(
        press(&state, MediaControlEvent::Toggle),
        Some(Emission::ButtonPressed(Button::PlayPause))
    );
    state.can_pause = false;
    assert_eq!(press(&state, MediaControlEvent::Pause), None);
    assert_eq!(press(&state, MediaControlEvent::Toggle), None);
    state.can_seek = false;
    assert_eq!(press(&state, MediaControlEvent::Seek(SeekDirection::Forward)), None);
    assert_eq!(press(&state, MediaControlEvent::SetPosition(amount)), None);
    state.can_control = false;
    assert_eq!(press(&state, MediaControlEvent::Stop), None);

    state.active = false;
    assert_eq!(press(&state, MediaControlEvent::Next), None);
}

#[test]
fn events_in_seconds_are_answered() {
    let mut state = build_test_state();
    state.duration = double(10.0);
    assert_eq!(
        state.respond(MediaControlEvent::SetPosition(double(10.0))),
        Some(Emission::PositionChanged(double(10.0)))
    );
    assert_eq!(state.respond(MediaControlEvent::SetPosition(double(10.5))), None);
    assert_eq!(
        state.respond(MediaControlEvent::SeekBy(SeekDirection::Forward, double(4.0))),
        Some(Emission::PositionSeeked(double(4.0)))
    );
    assert_eq!(signed_seek_seconds(SeekDirection::Backward, double(4.0)), double(-4.0));
}

#[test]
fn empty_texts_are_not_shown() {
    assert_eq!(to_optional_ref(""), None);
    assert_eq!(to_optional_ref("a"), Some("a"));
    let mut state = build_test_state();
    state.title = String::from("Song");
    state.thumbnail = String::from("file:///a");
    let snapshot = state.metadata_snapshot();
    let shown = snapshot.to_media_metadata();
    assert_eq!(shown.title, Some("Song"));
    assert_eq!(shown.album, None);
    assert_eq!(shown.artist, None);
    assert_eq!(shown.cover_url, Some("file:///a"));
}

#[test]
fn playback_is_shown_by_status() {
    let shown = |playback_status| {
        PlaybackSnapshot { playback_status, position: double(3.0) }.to_media_playback()
    };
    assert_eq!(
        shown(MediaPlayerPlaybackStatus::Playing),
        MediaPlayback::Playing { progress: double(3.0) }
    );
    assert_eq!(
        shown(MediaPlayerPlaybackStatus::Paused),
        MediaPlayback::Paused { progress: double(3.0) }
    );
    assert_eq!(shown(MediaPlayerPlaybackStatus::Stopped), MediaPlayback::Stopped);
    assert_eq!(shown(MediaPlayerPlaybackStatus::Unknown), MediaPlayback::Stopped);
}

/// Sends all of a flush, and says what was sent.
fn send(player: &mut MediaPlayer, payload: Option<FlushPayload>) -> Vec<String> {
    let mut sent = Vec::new();
    let Some(mut payload) = payload else {
        return sent;
    };
    loop {
        match payload.next_step() {
            FlushStep::SendMetadata(metadata) => {
                sent.push(format!("metadata {}", metadata.title.unwrap_or("-")))
            }
            FlushStep::SendPlayback(MediaPlayback::Playing { progress }) => {
                sent.push(format!("playing {}", f64::from_bits(progress.bits)))
            }
            FlushStep::SendPlayback(MediaPlayback::Paused { progress }) => {
                sent.push(format!("paused {}", f64::from_bits(progress.bits)))
            }
            FlushStep::SendPlayback(MediaPlayback::Stopped) => sent.push("stopped".to_string()),
            FlushStep::Done => return sent,
        }
        player.step_made(&mut payload);
    }
}

#[test]
fn a_track_is_sent_step_by_step() {
    let mut player = MediaPlayer::new();
    assert!(player.set_title(String::from("early")).is_none());
    let payload = player.activate();
    assert_eq!(send(&mut player, payload), vec!["metadata early", "stopped"]);
    assert!(player.update().is_none());

    let payload = player.set_playback_status(MediaPlayerPlaybackStatus::Playing).unwrap();
    assert_eq!(send(&mut player, payload), vec!["playing 0"]);

    assert!(player.set_track_id(String::from("one")).is_none());
    let payload = player.set_title(String::from("One"));
    assert_eq!(send(&mut player, payload), vec!["metadata One"]);
    let payload = player.set_timeline(double(200.0), double(10.0)).unwrap();
    assert_eq!(send(&mut player, payload), vec!["metadata One", "playing 10"]);

    let payload = player.set_timeline(double(200.0), double(11.0)).unwrap();
    assert_eq!(send(&mut player, payload), vec!["playing 11"]);
    assert!(player.set_timeline(double(200.0), double(11.0)).unwrap().is_none());

    let payload = player.set_playback_status(MediaPlayerPlaybackStatus::Paused).unwrap();
    assert_eq!(send(&mut player, payload), vec!["paused 11"]);
    assert!(player.set_playback_status(MediaPlayerPlaybackStatus::Paused).unwrap().is_none());

    assert_eq!(player.deactivate(), MediaPlayback::Stopped);
    assert!(player.set_title(String::from("late")).is_none());
    assert!(player.update().is_none());
    let payload = player.activate();
    assert_eq!(send(&mut player, payload), vec!["metadata late"]);
}

#[test]
fn a_step_that_is_not_made_is_left() {
    let mut player = MediaPlayer::new();
    player.set_title(String::from("a"));
    let mut payload = player.activate().unwrap();
    assert!(matches!(payload.next_step(), FlushStep::SendMetadata(_)));
    player.step_made(&mut payload);
    assert!(matches!(payload.next_step(), FlushStep::SendPlayback(MediaPlayback::Stopped)));
    let payload = player.update();
    assert_eq!(send(&mut player, payload), vec!["stopped"]);
    assert!(player.update().is_none());
}

#[test]
fn macos_setters_are_read_back() {
    let mut player = MediaPlayer::new();
    assert!(player.get_stop_button_enabled());
    assert!(!player.get_play_button_enabled());
    player.set_play_button_enabled(true);
    player.set_pause_button_enabled(true);
    player.set_stop_button_enabled(false);
    player.set_previous_button_enabled(true);
    player.set_next_button_enabled(true);
    player.set_seek_enabled(true);
    player.set_playback_rate(double(7.0));
    assert!(player.get_play_button_enabled());
    assert!(player.get_pause_button_enabled());
    assert!(!player.get_stop_button_enabled());
    assert!(player.get_previous_button_enabled());
    assert!(player.get_next_button_enabled());
    assert!(player.get_seek_enabled());
    assert_eq!(player.get_playback_rate(), double(7.0));

    player.set_title(String::from("t"));
    player.set_artist(String::from("r"));
    player.set_album_title(String::from("l"));
    player.set_track_id(String::from("i"));
    let thumbnail =
        MediaPlayerThumbnail::create(MediaPlayerThumbnailType::Uri, String::from("u")).unwrap();
    player.set_thumbnail(&thumbnail);
    assert_eq!(player.get_title(), "t");
    assert_eq!(player.get_artist(), "r");
    assert_eq!(player.get_album_title(), "l");
    assert_eq!(player.get_track_id(), "i");
    assert_eq!(player.state.thumbnail, "u");

    assert_eq!(player.set_media_type(MediaPlayerMediaType::Music), Ok(()));
    assert_eq!(player.get_media_type(), MediaPlayerMediaType::Music);
    assert_eq!(
        player.set_media_type(MediaPlayerMediaType::Unknown),
        Err(String::from("Unknown is not a valid MediaPlayerMediaType to set"))
    );
    assert_eq!(player.get_media_type(), MediaPlayerMediaType::Music);
    assert_eq!(player.get_playback_status(), MediaPlayerPlaybackStatus::Unknown);
    assert_eq!(
        player.set_playback_status(MediaPlayerPlaybackStatus::Unknown).unwrap_err(),
        "Unknown is not a valid MediaPlayerPlaybackStatus to set"
    );
    assert_eq!(
        player.set_timeline(double(1.0), double(2.0)).unwrap_err(),
        "Position cannot be greather than provided duration"
    );
    assert_eq!(player.state.duration, double(0.0));
}

#[test]
fn macos_listeners_come_and_go() {
    let mut player = MediaPlayer::new();
    assert!(player.on(String::from("buttonpressed"), 1, 10));
    assert!(!player.add_event_listener(String::from("buttonpressed"), 1, 11));
    assert!(player.add_event_listener(String::from("positionseeked"), 1, 12));
    let play = Emission::ButtonPressed(Button::Play);
    assert_eq!(player.listeners.recipients(play), vec![10]);
    assert_eq!(player.off(String::from("buttonpressed"), 1), Some(10));
    assert_eq!(player.remove_event_listener(String::from("buttonpressed"), 1), None);
    assert!(player.listeners.recipients(play).is_empty());
    player.finalize();
    assert!(player.listeners.recipients(Emission::PositionSeeked(double(1.0))).is_empty());
}

#[test]
fn revisions_grow_with_changes() {
    let mut state = build_test_state();
    state.apply_title_patch(TitleDataPatch {
        title: Some(String::from("a")),
        ..TitleDataPatch::default()
    });
    assert_eq!((state.state_revision, state.track_revision), (1, 0));
    state.apply_title_patch(TitleDataPatch {
        title: Some(String::from("b")),
        track_id: Some(String::from("t")),
        ..TitleDataPatch::default()
    });
    assert_eq!((state.state_revision, state.track_revision), (2, 1));
    state.apply_playback_patch(PlaybackStatePatch {
        duration: Some(double(3.0)),
        position: Some(double(1.0)),
        ..PlaybackStatePatch::default()
    });
    assert_eq!((state.state_revision, state.track_revision), (3, 1));
}

#[test]
fn a_new_duration_ends_a_transition() {
    let mut state = build_test_state();
    state.apply_title_patch(TitleDataPatch {
        track_id: Some(String::from("t")),
        ..TitleDataPatch::default()
    });
    let result = state.apply_playback_patch(PlaybackStatePatch {
        duration: Some(double(0.0)),
        ..PlaybackStatePatch::default()
    });
    assert!(!result.completed_track_transition);
    assert!(state.track_transition_pending);
    let result = state.apply_playback_patch(PlaybackStatePatch {
        duration: Some(double(30.0)),
        ..PlaybackStatePatch::default()
    });
    assert!(result.completed_track_transition);
    assert!(state.metadata_dirty);
}

#[test]
fn a_position_without_a_change_ends_a_transition() {
    let mut player = MediaPlayer::new();
    player.activate();
    player.set_track_id(String::from("t"));
    assert!(player.state.track_transition_pending);
    assert!(player.set_timeline(double(0.0), double(0.0)).unwrap().is_none());
    assert!(!player.state.track_transition_pending);
}

#[test]
fn the_current_position_follows_a_status_with_the_last_one() {
    let mut player = MediaPlayer::new();
    let payload = player.activate();
    send(&mut player, payload);
    player.state.position = double(5.0);
    let payload = player.set_playback_status(MediaPlayerPlaybackStatus::Paused).unwrap();
    assert_eq!(send(&mut player, payload), vec!["paused 0"]);
    let payload = player.update();
    assert_eq!(send(&mut player, payload), vec!["paused 5"]);
    assert!(player.update().is_none());
}

#[test]
fn a_flush_keeps_what_a_player_holds() {
    let mut player = MediaPlayer::new();
    player.set_title(String::from("a"));
    player.set_timeline(double(9.0), double(4.0)).unwrap();
    let revision = player.state.state_revision;
    let payload = player.activate();
    send(&mut player, payload);
    assert_eq!(player.get_title(), "a");
    assert_eq!(player.state.duration, double(9.0));
    assert_eq!(player.state.position, double(4.0));
    assert_eq!(player.state.state_revision, revision);
}
