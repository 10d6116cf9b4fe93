//! What all platforms share: the enumerations of the player and the events that it emits.
use vstd::prelude::*;

use crate::double::Double;

verus! {

#[derive(Clone, Copy, Debug, PartialEq, Eq, Structural)]
pub enum MediaPlayerThumbnailType {
    Unknown,
    File,
    Uri,
}

#[derive(Clone, Copy, Debug, PartialEq, Eq, Structural)]
pub enum MediaPlayerMediaType {
    Unknown,
    Music,
}

#[derive(Clone, Copy, Debug, PartialEq, Eq, Structural)]
pub enum MediaPlayerPlaybackStatus {
    Unknown,
    Playing,
    Paused,
    Stopped,
}

/// The buttons of a media service.
#[derive(Clone, Copy, Debug, PartialEq, Eq, Structural)]
pub enum Button {
    Play,
    Pause,
    PlayPause,
    Stop,
    Next,
    Previous,
}

/// The three kinds of events that a listener can ask for.
#[derive(Clone, Copy, Debug, PartialEq, Eq, Structural)]
pub enum MediaEvent {
    ButtonPressed,
    PositionChanged,
    PositionSeeked,
}

/// An event for the listeners, with what it carries.
#[derive(Clone, Copy, Debug, PartialEq, Eq, Structural)]
pub enum Emission {
    /// A media services button is pressed.
    ButtonPressed(Button),
    /// The media service requests a position.
    PositionChanged(Double),
    /// The media service requests a seek from the current position.
    PositionSeeked(Double),
}

impl Button {
    /// The name of a button in its event.
    pub open spec fn name_spec(self) -> Seq<char> {
        match self {
            Button::Play => "play"@,
            Button::Pause => "pause"@,
            Button::PlayPause => "playpause"@,
            Button::Stop => "stop"@,
            Button::Next => "next"@,
            Button::Previous => "previous"@,
        }
    }

    /// The name of a button in its event.
    pub fn name(self) -> (r: String)
        ensures
            r@ == self.name_spec(),
    {
        match self {
            Button::Play => "play".to_owned(),
            Button::Pause => "pause".to_owned(),
            Button::PlayPause => "playpause".to_owned(),
            Button::Stop => "stop".to_owned(),
            Button::Next => "next".to_owned(),
            Button::Previous => "previous".to_owned(),
        }
    }
}

impl MediaEvent {
    /// The event with the given name, if there is one.
    pub open spec fn named_spec(name: Seq<char>) -> Option<MediaEvent> {
        if name == "buttonpressed"@ {
            Some(MediaEvent::ButtonPressed)
        } else if name == "positionchanged"@ {
            Some(MediaEvent::PositionChanged)
        } else if name == "positionseeked"@ {
            Some(MediaEvent::PositionSeeked)
        } else {
            None
        }
    }

    /// The event with the given name, if there is one.
    pub fn named(name: &String) -> (r: Option<MediaEvent>)
        ensures
            r == Self::named_spec(name@),
    {
        if *name == "buttonpressed".to_owned() {
            Some(MediaEvent::ButtonPressed)
        } else if *name == "positionchanged".to_owned() {
            Some(MediaEvent::PositionChanged)
        } else if *name == "positionseeked".to_owned() {
            Some(MediaEvent::PositionSeeked)
        } else {
            None
        }
    }
}

impl Emission {
    /// The kind of an event.
    pub open spec fn kind_spec(self) -> MediaEvent {
        match self {
            Emission::ButtonPressed(_) => MediaEvent::ButtonPressed,
            Emission::PositionChanged(_) => MediaEvent::PositionChanged,
            Emission::PositionSeeked(_) => MediaEvent::PositionSeeked,
        }
    }

    /// The kind of an event.
    pub fn kind(self) -> (r: MediaEvent)
        ensures
            r == self.kind_spec(),
    {
        match self {
            Emission::ButtonPressed(_) => MediaEvent::ButtonPressed,
            Emission::PositionChanged(_) => MediaEvent::PositionChanged,
            Emission::PositionSeeked(_) => MediaEvent::PositionSeeked,
        }
    }
}

/// The label of a playback status: a status that is neither playing nor paused is stopped.
pub open spec fn status_label(status: MediaPlayerPlaybackStatus) -> Seq<char> {
    match status {
        MediaPlayerPlaybackStatus::Playing => "Playing"@,
        MediaPlayerPlaybackStatus::Paused => "Paused"@,
        _ => "Stopped"@,
    }
}

/// Refuses an unknown playback status.
pub fn check_playback_status(playback_status: MediaPlayerPlaybackStatus) -> (r: Result<
    (),
    String,
>)
    ensures
        r is Err <==> playback_status is Unknown,
        r matches Err(reason) ==> reason@
            == "Unknown is not a valid MediaPlayerPlaybackStatus to set"@,
{
    if playback_status == MediaPlayerPlaybackStatus::Unknown {
        Err("Unknown is not a valid MediaPlayerPlaybackStatus to set".to_owned())
    } else {
        Ok(())
    }
}

/// Refuses an unknown media type.
pub fn check_media_type(media_type: MediaPlayerMediaType) -> (r: Result<(), String>)
    ensures
        r is Err <==> media_type is Unknown,
        r matches Err(reason) ==> reason@ == "Unknown is not a valid MediaPlayerMediaType to set"@,
{
    if media_type == MediaPlayerMediaType::Unknown {
        Err("Unknown is not a valid MediaPlayerMediaType to set".to_owned())
    } else {
        Ok(())
    }
}

/// A thumbnail by the URL at which it is found.
#[derive(Clone, Debug)]
pub struct MediaPlayerThumbnail {
    pub thumbnail_type: MediaPlayerThumbnailType,
    pub thumbnail: String,
}

impl MediaPlayerThumbnail {
    /// A thumbnail from a file path or from a URI.
    pub fn create(thumbnail_type: MediaPlayerThumbnailType, thumbnail: String) -> (r: Result<
        Self,
        String,
    >)
        ensures
            r is Err <==> thumbnail_type is Unknown,
            r matches Ok(t) ==> t.thumbnail_type == thumbnail_type && t.thumbnail@ == if thumbnail_type
                is File {
                "file://"@ + thumbnail@
            } else {
                thumbnail@
            },
            r matches Err(reason) ==> reason@
                == "Unknown is not a valid MediaPlayerThumbnailType to create"@,
    {
        match thumbnail_type {
            MediaPlayerThumbnailType::File => Ok(
                Self { thumbnail_type, thumbnail: "file://".to_owned().concat(thumbnail.as_str()) },
            ),
            MediaPlayerThumbnailType::Uri => Ok(Self { thumbnail_type, thumbnail }),
            _ => Err("Unknown is not a valid MediaPlayerThumbnailType to create".to_owned()),
        }
    }

    pub fn thumbnail_type(&self) -> (r: MediaPlayerThumbnailType)
        ensures
            r == self.thumbnail_type,
    {
        self.thumbnail_type
    }
}

/// A thumbnail keeps its type. One of a file is found at the URL of the file, one of a URI at the URI, and one
/// of an unknown type is refused.
pub proof fn law_thumbnail_created(
    thumbnail_type: MediaPlayerThumbnailType,
    thumbnail: String,
    r: Result<MediaPlayerThumbnail, String>,
)
    requires
        call_ensures(MediaPlayerThumbnail::create, (thumbnail_type, thumbnail), r),
    ensures
        thumbnail_type is File ==> (r matches Ok(created) && created.thumbnail_type is File
            && created.thumbnail@ == "file://"@ + thumbnail@),
        thumbnail_type is Uri ==> (r matches Ok(created) && created.thumbnail_type is Uri
            && created.thumbnail@ == thumbnail@),
        thumbnail_type is Unknown ==> r is Err,
{
}

/// Each button is told by its own name.
pub proof fn law_button_names()
    ensures
        Button::Play.name_spec() == "play"@,
        Button::Pause.name_spec() == "pause"@,
        Button::PlayPause.name_spec() == "playpause"@,
        Button::Stop.name_spec() == "stop"@,
        Button::Next.name_spec() == "next"@,
        Button::Previous.name_spec() == "previous"@,
{
}

/// No two buttons share a name.
pub proof fn law_button_names_differ(a: Button, b: Button)
    ensures
        a.name_spec() == b.name_spec() <==> a == b,
{
    reveal_strlit("play");
    reveal_strlit("pause");
    reveal_strlit("playpause");
    reveal_strlit("stop");
    reveal_strlit("next");
    reveal_strlit("previous");
    assert("play"@.len() == 4 && "play"@[0] == 'p');
    assert("pause"@.len() == 5);
    assert("playpause"@.len() == 9);
    assert("stop"@.len() == 4 && "stop"@[0] == 's');
    assert("next"@.len() == 4 && "next"@[0] == 'n');
    assert("previous"@.len() == 8);
}

/// An event is asked for by its own name, and by no other.
pub proof fn law_event_names(name: Seq<char>)
    ensures
        MediaEvent::named_spec(name) == Some(MediaEvent::ButtonPressed) <==> name
            == "buttonpressed"@,
        MediaEvent::named_spec(name) == Some(MediaEvent::PositionChanged) <==> name
            == "positionchanged"@,
        MediaEvent::named_spec(name) == Some(MediaEvent::PositionSeeked) <==> name
            == "positionseeked"@,
        MediaEvent::named_spec(name) is None <==> {
            &&& name != "buttonpressed"@
            &&& name != "positionchanged"@
            &&& name != "positionseeked"@
        },
{
    reveal_strlit("buttonpressed");
    reveal_strlit("positionchanged");
    reveal_strlit("positionseeked");
    assert("buttonpressed"@.len() == 13);
    assert("positionchanged"@.len() == 15);
    assert("positionseeked"@.len() == 14);
}

/// An event is of the kind that it is named after, whatever it carries.
pub proof fn law_emission_kinds(button: Button, seconds: Double)
    ensures
        Emission::ButtonPressed(button).kind_spec() == MediaEvent::ButtonPressed,
        Emission::PositionChanged(seconds).kind_spec() == MediaEvent::PositionChanged,
        Emission::PositionSeeked(seconds).kind_spec() == MediaEvent::PositionSeeked,
{
}

/// A playing player is labelled as playing, a paused one as paused, and every other one as stopped.
pub proof fn law_status_labels(status: MediaPlayerPlaybackStatus)
    ensures
        status is Playing <==> status_label(status) == "Playing"@,
        status is Paused <==> status_label(status) == "Paused"@,
        status is Stopped || status is Unknown <==> status_label(status) == "Stopped"@,
{
    reveal_strlit("Playing");
    reveal_strlit("Paused");
    reveal_strlit("Stopped");
    assert("Playing"@.len() == 7 && "Playing"@[0] == 'P');
    assert("Paused"@.len() == 6);
    assert("Stopped"@.len() == 7 && "Stopped"@[0] == 'S');
}

} // verus!
