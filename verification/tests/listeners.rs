//! The listeners and the events.
use xosms::double::Double;
use xosms::listeners::{EventListeners, Listeners};
use xosms::types::{
    check_media_type, check_playback_status, Button, Emission, MediaEvent, MediaPlayerMediaType,
    MediaPlayerPlaybackStatus, MediaPlayerThumbnail, MediaPlayerThumbnailType,
};

fn name(text: &str) -> String {
    text.to_string()
}

fn sorted(mut handles: Vec<u64>) -> Vec<u64> {
    handles.sort();
    handles
}

#[test]
fn listeners_are_kept_by_callback() {
    let mut listeners = Listeners::new();
    assert!(listeners.handles().is_empty());
    assert!(!listeners.contains(7));
    assert!(listeners.insert(7, 70));
    assert!(listeners.insert(8, 80));
    assert!(listeners.contains(7));
    assert!(!listeners.contains(70));
    assert_eq!(sorted(listeners.handles()), vec![70, 80]);
    assert_eq!(listeners.remove(7), Some(70));
    assert_eq!(listeners.remove(7), None);
    assert_eq!(listeners.handles(), vec![80]);
    listeners.clear();
    assert!(listeners.handles().is_empty());
}

#[test]
fn a_callback_that_listens_keeps_its_handle() {
    let mut listeners = Listeners::new();
    assert!(listeners.insert(7, 70));
    assert!(!listeners.insert(7, 71));
    assert_eq!(listeners.handles(), vec![70]);
}

#[test]
fn two_callbacks_may_share_a_handle() {
    let mut listeners = Listeners::new();
    assert!(listeners.insert(1, 5));
    assert!(listeners.insert(2, 5));
    assert_eq!(listeners.handles(), vec![5, 5]);
}

#[test]
fn many_listeners_are_all_called_once() {
    let mut listeners = Listeners::new();
    for callback in 0..1000 {
        assert!(listeners.insert(callback, callback as u64 + 1));
    }
    assert_eq!(sorted(listeners.handles()), (1..=1000).collect::<Vec<u64>>());
}

#[test]
fn events_reach_the_listeners_of_their_kind() {
    let mut listeners = EventListeners::new();
    assert!(listeners.accepts(&name("buttonpressed"), 1));
    assert!(listeners.add_event_listener(&name("buttonpressed"), 1, 10));
    assert!(!listeners.accepts(&name("buttonpressed"), 1));
    assert!(listeners.accepts(&name("positionchanged"), 1));
    assert!(listeners.add_event_listener(&name("positionchanged"), 1, 11));
    assert!(listeners.add_event_listener(&name("positionseeked"), 2, 12));
    assert!(!listeners.add_event_listener(&name("positionseeked"), 2, 13));

    let zero = Double { bits: 0 };
    assert_eq!(listeners.recipients(Emission::ButtonPressed(Button::Play)), vec![10]);
    assert_eq!(listeners.recipients(Emission::PositionChanged(zero)), vec![11]);
    assert_eq!(listeners.recipients(Emission::PositionSeeked(zero)), vec![12]);

    assert_eq!(listeners.remove_event_listener(&name("positionchanged"), 1), Some(11));
    assert_eq!(listeners.remove_event_listener(&name("positionchanged"), 1), None);
    assert!(listeners.recipients(Emission::PositionChanged(zero)).is_empty());
    assert_eq!(listeners.recipients(Emission::ButtonPressed(Button::Stop)), vec![10]);

    listeners.clear();
    assert!(listeners.recipients(Emission::ButtonPressed(Button::Play)).is_empty());
    assert!(listeners.recipients(Emission::PositionSeeked(zero)).is_empty());
}

#[test]
fn unknown_event_names_are_ignored() {
    let mut listeners = EventListeners::new();
    assert!(!listeners.accepts(&name("volumechanged"), 1));
    assert!(!listeners.add_event_listener(&name("volumechanged"), 1, 10));
    assert!(!listeners.add_event_listener(&name("ButtonPressed"), 1, 10));
    assert_eq!(listeners.remove_event_listener(&name(""), 1), None);
    assert!(listeners.recipients(Emission::ButtonPressed(Button::Play)).is_empty());
    assert_eq!(MediaEvent::named(&name("positionseeked")), Some(MediaEvent::PositionSeeked));
    assert_eq!(MediaEvent::named(&name("positionseeke")), None);
}

#[test]
fn buttons_have_names() {
    assert_eq!(Button::Play.name(), "play");
    assert_eq!(Button::Pause.name(), "pause");
    assert_eq!(Button::PlayPause.name(), "playpause");
    assert_eq!(Button::Stop.name(), "stop");
    assert_eq!(Button::Next.name(), "next");
    assert_eq!(Button::Previous.name(), "previous");
    assert_eq!(Emission::ButtonPressed(Button::Next).kind(), MediaEvent::ButtonPressed);
}

#[test]
fn thumbnails_are_found_by_url() {
    let file =
        MediaPlayerThumbnail::create(MediaPlayerThumbnailType::File, name("/tmp/a.png")).unwrap();
    assert_eq!(file.thumbnail, "file:///tmp/a.png");
    assert_eq!(file.thumbnail_type(), MediaPlayerThumbnailType::File);
    let uri =
        MediaPlayerThumbnail::create(MediaPlayerThumbnailType::Uri, name("http://a/b.png")).unwrap();
    assert_eq!(uri.thumbnail, "http://a/b.png");
    assert_eq!(uri.thumbnail_type(), MediaPlayerThumbnailType::Uri);
    assert_eq!(
        MediaPlayerThumbnail::create(MediaPlayerThumbnailType::Unknown, name("x")).unwrap_err(),
        "Unknown is not a valid MediaPlayerThumbnailType to create"
    );
}

#[test]
fn unknown_values_are_refused() {
    assert_eq!(check_playback_status(MediaPlayerPlaybackStatus::Stopped), Ok(()));
    assert_eq!(
        check_playback_status(MediaPlayerPlaybackStatus::Unknown),
        Err(name("Unknown is not a valid MediaPlayerPlaybackStatus to set"))
    );
    assert_eq!(check_media_type(MediaPlayerMediaType::Music), Ok(()));
    assert_eq!(
        check_media_type(MediaPlayerMediaType::Unknown),
        Err(name("Unknown is not a valid MediaPlayerMediaType to set"))
    );
}
