//! The state of a media player that the message bus reads.
use std::time::Instant;
use vstd::prelude::*;

use crate::conversion;
use crate::double::Double;
use crate::linux::clock;
use crate::linux::names;
use crate::linux::properties::{MetadataValue, MetadataValueView, PropertyMap};
use crate::numbers;
use crate::span::Span;
use crate::types;
use crate::types::{MediaPlayerMediaType, MediaPlayerPlaybackStatus};

verus! {

pub struct MprisPlayerState {
    pub identity: String,
    pub can_go_next: bool,
    pub can_go_previous: bool,
    pub can_play: bool,
    pub can_pause: bool,
    pub can_seek: bool,
    pub can_control: bool,
    pub media_type: MediaPlayerMediaType,
    pub playback_status: MediaPlayerPlaybackStatus,
    pub thumbnail: String,
    pub artist: String,
    pub album_title: String,
    pub title: String,
    pub track_id: String,
    /// In seconds.
    pub position: Double,
    pub last_updated_position: Instant,
    /// In seconds.
    pub duration: Double,
    pub volume: Double,
    pub playback_rate: Double,
}

/// What an `MprisPlayerState` holds.
#[verifier::ext_equal]
pub struct MprisPlayerStateView {
    pub identity: Seq<char>,
    pub can_go_next: bool,
    pub can_go_previous: bool,
    pub can_play: bool,
    pub can_pause: bool,
    pub can_seek: bool,
    pub can_control: bool,
    pub media_type: MediaPlayerMediaType,
    pub playback_status: MediaPlayerPlaybackStatus,
    pub thumbnail: Seq<char>,
    pub artist: Seq<char>,
    pub album_title: Seq<char>,
    pub title: Seq<char>,
    pub track_id: Seq<char>,
    pub position: Double,
    pub last_updated_position: Instant,
    pub duration: Double,
    pub volume: Double,
    pub playback_rate: Double,
}

impl View for MprisPlayerState {
    type V = MprisPlayerStateView;

    open spec fn view(&self) -> MprisPlayerStateView {
        MprisPlayerStateView {
            identity: self.identity@,
            can_go_next: self.can_go_next,
            can_go_previous: self.can_go_previous,
            can_play: self.can_play,
            can_pause: self.can_pause,
            can_seek: self.can_seek,
            can_control: self.can_control,
            media_type: self.media_type,
            playback_status: self.playback_status,
            thumbnail: self.thumbnail@,
            artist: self.artist@,
            album_title: self.album_title@,
            title: self.title@,
            track_id: self.track_id@,
            position: self.position,
            last_updated_position: self.last_updated_position,
            duration: self.duration,
            volume: self.volume,
            playback_rate: self.playback_rate,
        }
    }
}

impl MprisPlayerStateView {
    /// The state of a player that was made at the given time.
    pub open spec fn initial(identity: Seq<char>, at: Instant) -> Self {
        MprisPlayerStateView {
            identity,
            can_go_next: false,
            can_go_previous: false,
            can_play: false,
            can_pause: false,
            can_seek: false,
            can_control: true,
            media_type: MediaPlayerMediaType::Unknown,
            playback_status: MediaPlayerPlaybackStatus::Unknown,
            thumbnail: Seq::empty(),
            artist: Seq::empty(),
            album_title: Seq::empty(),
            title: Seq::empty(),
            track_id: Seq::empty(),
            position: numbers::zero(),
            last_updated_position: at,
            duration: numbers::zero(),
            volume: numbers::one(),
            playback_rate: numbers::one(),
        }
    }

    /// The object path of the current track.
    pub open spec fn track_object_path(self) -> Seq<char> {
        match names::track_path(self.track_id) {
            Some(path) => path,
            None => "/org/mpris/MediaPlayer2/TrackList/NoTrack"@,
        }
    }

    /// The metadata of the current track.
    pub open spec fn metadata(self) -> Map<Seq<char>, MetadataValueView> {
        Map::empty().insert(
            "mpris:trackid"@,
            MetadataValueView::ObjectPath(self.track_object_path()),
        ).insert(
            "mpris:length"@,
            MetadataValueView::Int64(conversion::micros(self.duration)),
        ).insert("mpris:artUrl"@, MetadataValueView::Text(self.thumbnail)).insert(
            "xesam:title"@,
            MetadataValueView::Text(self.title),
        ).insert("xesam:album"@, MetadataValueView::Text(self.album_title)).insert(
            "xesam:artist"@,
            MetadataValueView::TextList(seq![self.artist]),
        )
    }

    /// Whether a new position is a jump that a player of this rate does not make by playing.
    pub open spec fn jumps_to(self, next_position: Double) -> bool {
        next_position.exceeds_spec(self.position, self.playback_rate)
    }
}

/// The object path of a track is one that the bus accepts, whatever the track id holds.
pub proof fn law_track_object_path_accepted(state: MprisPlayerStateView)
    ensures
        names::is_object_path(state.track_object_path()),
{
    names::law_track_path_accepted(state.track_id);
    reveal_strlit("/org/mpris/MediaPlayer2/TrackList/NoTrack");
}

/// The metadata hold the six entries of a track and no other: the artist as a list of texts, the
/// track by an object path.
pub proof fn law_metadata_entries(state: MprisPlayerStateView)
    ensures
        state.metadata().dom() == set![
            "mpris:trackid"@,
            "mpris:length"@,
            "mpris:artUrl"@,
            "xesam:title"@,
            "xesam:album"@,
            "xesam:artist"@,
        ],
        state.metadata()["mpris:trackid"@] == MetadataValueView::ObjectPath(
            state.track_object_path(),
        ),
        state.metadata()["mpris:length"@] == MetadataValueView::Int64(
            conversion::micros(state.duration),
        ),
        state.metadata()["mpris:artUrl"@] == MetadataValueView::Text(state.thumbnail),
        state.metadata()["xesam:title"@] == MetadataValueView::Text(state.title),
        state.metadata()["xesam:album"@] == MetadataValueView::Text(state.album_title),
        state.metadata()["xesam:artist"@] == MetadataValueView::TextList(seq![state.artist]),
{
    reveal_strlit("mpris:trackid");
    reveal_strlit("mpris:length");
    reveal_strlit("mpris:artUrl");
    reveal_strlit("xesam:title");
    reveal_strlit("xesam:album");
    reveal_strlit("xesam:artist");
    assert("mpris:trackid"@.len() == 13);
    assert("mpris:length"@.len() == 12 && "mpris:length"@[0] == 'm' && "mpris:length"@[6] == 'l');
    assert("mpris:artUrl"@.len() == 12 && "mpris:artUrl"@[6] == 'a');
    assert("xesam:title"@.len() == 11 && "xesam:title"@[6] == 't');
    assert("xesam:album"@.len() == 11 && "xesam:album"@[6] == 'a');
    assert("xesam:artist"@.len() == 12 && "xesam:artist"@[0] == 'x');
    assert("mpris:artUrl"@[0] == 'm');
    assert(state.metadata().dom() =~= set![
        "mpris:trackid"@,
        "mpris:length"@,
        "mpris:artUrl"@,
        "xesam:title"@,
        "xesam:album"@,
        "xesam:artist"@,
    ]);
}

impl MprisPlayerState {
    pub fn new(identity: String) -> (r: Self)
        ensures
            clock::is_reading(r@.last_updated_position),
            r@ == MprisPlayerStateView::initial(identity@, r@.last_updated_position),
    {
        Self {
            identity,
            can_go_next: false,
            can_go_previous: false,
            can_play: false,
            can_pause: false,
            can_seek: false,
            can_control: true,
            media_type: MediaPlayerMediaType::Unknown,
            playback_status: MediaPlayerPlaybackStatus::Unknown,
            thumbnail: String::new(),
            artist: String::new(),
            album_title: String::new(),
            title: String::new(),
            track_id: String::new(),
            position: Double::zero(),
            last_updated_position: clock::now(),
            duration: Double::zero(),
            volume: Double::one(),
            playback_rate: Double::one(),
        }
    }

    /// The object path of the current track.
    pub fn track_object_path(&self) -> (r: String)
        ensures
            r@ == self@.track_object_path(),
            names::is_object_path(r@),
    {
        proof {
            law_track_object_path_accepted(self@);
            names::law_track_path_accepted(self@.track_id);
        }
        match names::sanitize_track_object_path(self.track_id.as_str()) {
            Some(path) => path,
            None => names::no_track_path(),
        }
    }

    /// The label of the playback status.
    pub fn playback_status_label(&self) -> (r: String)
        ensures
            r@ == types::status_label(self@.playback_status),
    {
        match self.playback_status {
            MediaPlayerPlaybackStatus::Playing => "Playing".to_owned(),
            MediaPlayerPlaybackStatus::Paused => "Paused".to_owned(),
            _ => "Stopped".to_owned(),
        }
    }

    /// The metadata of the current track.
    pub fn metadata_map(&self) -> (r: PropertyMap<MetadataValue>)
        ensures
            r.wf(),
            r@ == self@.metadata(),
    {
        let mut metadata: PropertyMap<MetadataValue> = PropertyMap::new();
        metadata.insert(
            "mpris:trackid".to_owned(),
            MetadataValue::ObjectPath(self.track_object_path()),
        );
        metadata.insert(
            "mpris:length".to_owned(),
            MetadataValue::Int64(conversion::seconds_to_micros(self.duration)),
        );
        metadata.insert("mpris:artUrl".to_owned(), MetadataValue::Text(self.thumbnail.clone()));
        metadata.insert("xesam:title".to_owned(), MetadataValue::Text(self.title.clone()));
        metadata.insert("xesam:album".to_owned(), MetadataValue::Text(self.album_title.clone()));
        // MPRIS requires xesam:artist as an array of strings (`as`).
        let mut artists: Vec<String> = Vec::new();
        artists.push(self.artist.clone());
        assert(artists@.map_values(|text: String| text@) =~= seq![self.artist@]);
        metadata.insert("xesam:artist".to_owned(), MetadataValue::TextList(artists));
        metadata
    }

    /// Whether a new position calls for a seeked signal, `elapsed_secs` whole seconds after the last
    /// one was set.
    pub fn is_seek(&self, next_position: Double, elapsed_secs: u64) -> (r: bool)
        ensures
            r == (self@.jumps_to(next_position) && elapsed_secs < 1),
    {
        next_position.exceeds(self.position, self.playback_rate) && elapsed_secs < 1
    }

    /// Whether a new position calls for a seeked signal now: it is a jump, and no whole second has
    /// elapsed since the last one was set. How much has elapsed is known by the clock alone.
    pub fn should_emit_seeked(&self, next_position: Double) -> (r: bool)
        ensures
            exists|elapsed: Span| #[trigger]
                clock::has_elapsed(self@.last_updated_position, elapsed) && r == (self@.jumps_to(
                    next_position,
                ) && elapsed.secs < 1),
    {
        let elapsed = clock::elapsed(&self.last_updated_position);
        assert(clock::has_elapsed(self@.last_updated_position, elapsed));
        self.is_seek(next_position, elapsed.secs)
    }
}

} // verus!
