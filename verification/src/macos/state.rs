//! The state of a media player whose changes are flushed to the media service.
use vstd::prelude::*;

use crate::double::Double;
use crate::numbers;
use crate::types::{MediaPlayerMediaType, MediaPlayerPlaybackStatus};

verus! {

/// The metadata of a track at one time.
#[derive(Clone, Debug)]
pub struct MetadataSnapshot {
    pub title: String,
    pub album_title: String,
    pub artist: String,
    pub thumbnail: String,
    /// In seconds.
    pub duration: Double,
}

/// What a `MetadataSnapshot` holds.
#[verifier::ext_equal]
pub struct MetadataSnapshotView {
    pub title: Seq<char>,
    pub album_title: Seq<char>,
    pub artist: Seq<char>,
    pub thumbnail: Seq<char>,
    pub duration: Double,
}

impl View for MetadataSnapshot {
    type V = MetadataSnapshotView;

    open spec fn view(&self) -> MetadataSnapshotView {
        MetadataSnapshotView {
            title: self.title@,
            album_title: self.album_title@,
            artist: self.artist@,
            thumbnail: self.thumbnail@,
            duration: self.duration,
        }
    }
}

/// The playback at one time.
#[derive(Clone, Copy, Debug, PartialEq, Eq, Structural)]
pub struct PlaybackSnapshot {
    pub playback_status: MediaPlayerPlaybackStatus,
    /// In seconds.
    pub position: Double,
}

/// What to send to the media service.
#[derive(Clone, Debug)]
pub struct FlushPayload {
    pub state_revision: u64,
    pub metadata: Option<MetadataSnapshot>,
    pub playback: Option<PlaybackSnapshot>,
}

/// What a `FlushPayload` holds.
#[verifier::ext_equal]
pub struct FlushPayloadView {
    pub state_revision: u64,
    pub metadata: Option<MetadataSnapshotView>,
    pub playback: Option<PlaybackSnapshot>,
}

impl View for FlushPayload {
    type V = FlushPayloadView;

    open spec fn view(&self) -> FlushPayloadView {
        FlushPayloadView {
            state_revision: self.state_revision,
            metadata: snapshot_view(self.metadata),
            playback: self.playback,
        }
    }
}

/// Which parts of the state a flush may send.
#[derive(Clone, Copy, Debug, PartialEq, Eq, Structural)]
pub enum FlushMode {
    Nothing,
    Full,
    TrackChange,
    MetadataOnly,
    PlaybackOnly,
}

/// New values for what describes a track.
#[derive(Clone, Debug)]
pub struct TitleDataPatch {
    pub title: Option<String>,
    pub artist: Option<String>,
    pub album_title: Option<String>,
    pub thumbnail: Option<String>,
    pub track_id: Option<String>,
}

/// What a `TitleDataPatch` holds.
#[verifier::ext_equal]
pub struct TitleDataPatchView {
    pub title: Option<Seq<char>>,
    pub artist: Option<Seq<char>>,
    pub album_title: Option<Seq<char>>,
    pub thumbnail: Option<Seq<char>>,
    pub track_id: Option<Seq<char>>,
}

pub open spec fn text_view(text: Option<String>) -> Option<Seq<char>> {
    match text {
        Some(text) => Some(text@),
        None => None,
    }
}

pub open spec fn snapshot_view(snapshot: Option<MetadataSnapshot>) -> Option<MetadataSnapshotView> {
    match snapshot {
        Some(snapshot) => Some(snapshot@),
        None => None,
    }
}

impl View for TitleDataPatch {
    type V = TitleDataPatchView;

    open spec fn view(&self) -> TitleDataPatchView {
        TitleDataPatchView {
            title: text_view(self.title),
            artist: text_view(self.artist),
            album_title: text_view(self.album_title),
            thumbnail: text_view(self.thumbnail),
            track_id: text_view(self.track_id),
        }
    }
}

impl TitleDataPatchView {
    /// A patch that changes nothing.
    pub open spec fn empty() -> Self {
        TitleDataPatchView {
            title: None,
            artist: None,
            album_title: None,
            thumbnail: None,
            track_id: None,
        }
    }
}

impl Default for TitleDataPatch {
    fn default() -> (r: Self)
        ensures
            r@ == TitleDataPatchView::empty(),
    {
        TitleDataPatch {
            title: None,
            artist: None,
            album_title: None,
            thumbnail: None,
            track_id: None,
        }
    }
}

/// New values for the playback.
#[derive(Clone, Copy, Debug)]
pub struct PlaybackStatePatch {
    pub duration: Option<Double>,
    pub position: Option<Double>,
    pub playback_status: Option<MediaPlayerPlaybackStatus>,
}

impl PlaybackStatePatch {
    /// A patch that changes nothing.
    pub open spec fn empty() -> Self {
        PlaybackStatePatch { duration: None, position: None, playback_status: None }
    }
}

impl Default for PlaybackStatePatch {
    fn default() -> (r: Self)
        ensures
            r == PlaybackStatePatch::empty(),
    {
        PlaybackStatePatch { duration: None, position: None, playback_status: None }
    }
}

/// What a playback patch did.
#[derive(Clone, Copy, Debug, PartialEq, Eq, Structural)]
pub struct PlaybackPatchResult {
    pub changed: bool,
    pub completed_track_transition: bool,
}

#[derive(Debug)]
pub struct MediaPlayerState {
    pub active: bool,
    pub can_go_next: bool,
    pub can_go_previous: bool,
    pub can_play: bool,
    pub can_pause: bool,
    pub can_seek: bool,
    pub can_control: bool,
    pub media_type: MediaPlayerMediaType,
    pub playback_status: MediaPlayerPlaybackStatus,
    pub thumbnail: String,
    pub artist: String,
    pub album_title: String,
    pub title: String,
    pub track_id: String,
    /// In seconds.
    pub duration: Double,
    /// In seconds.
    pub position: Double,
    pub playback_rate: Double,
    pub state_revision: u64,
    pub track_revision: u64,
    /// Track revision that may accept `SetPosition` events from the OS.
    pub position_event_track_revision: u64,
    pub track_transition_pending: bool,
    /// Avoid Now Playing position jumps when only status changes (e.g. pause).
    pub prefer_last_playback_position_for_status_flush: bool,
    pub metadata_dirty: bool,
    pub playback_dirty: bool,
    pub last_metadata_snapshot: Option<MetadataSnapshot>,
    pub last_playback_snapshot: Option<PlaybackSnapshot>,
}

/// What a `MediaPlayerState` holds.
pub struct MediaPlayerStateView {
    pub active: bool,
    pub can_go_next: bool,
    pub can_go_previous: bool,
    pub can_play: bool,
    pub can_pause: bool,
    pub can_seek: bool,
    pub can_control: bool,
    pub media_type: MediaPlayerMediaType,
    pub playback_status: MediaPlayerPlaybackStatus,
    pub thumbnail: Seq<char>,
    pub artist: Seq<char>,
    pub album_title: Seq<char>,
    pub title: Seq<char>,
    pub track_id: Seq<char>,
    pub duration: Double,
    pub position: Double,
    pub playback_rate: Double,
    pub state_revision: u64,
    pub track_revision: u64,
    pub position_event_track_revision: u64,
    pub track_transition_pending: bool,
    pub prefer_last_playback_position_for_status_flush: bool,
    pub metadata_dirty: bool,
    pub playback_dirty: bool,
    pub last_metadata_snapshot: Option<MetadataSnapshotView>,
    pub last_playback_snapshot: Option<PlaybackSnapshot>,
}

impl View for MediaPlayerState {
    type V = MediaPlayerStateView;

    open spec fn view(&self) -> MediaPlayerStateView {
        MediaPlayerStateView {
            active: self.active,
            can_go_next: self.can_go_next,
            can_go_previous: self.can_go_previous,
            can_play: self.can_play,
            can_pause: self.can_pause,
            can_seek: self.can_seek,
            can_control: self.can_control,
            media_type: self.media_type,
            playback_status: self.playback_status,
            thumbnail: self.thumbnail@,
            artist: self.artist@,
            album_title: self.album_title@,
            title: self.title@,
            track_id: self.track_id@,
            duration: self.duration,
            position: self.position,
            playback_rate: self.playback_rate,
            state_revision: self.state_revision,
            track_revision: self.track_revision,
            position_event_track_revision: self.position_event_track_revision,
            track_transition_pending: self.track_transition_pending,
            prefer_last_playback_position_for_status_flush:
                self.prefer_last_playback_position_for_status_flush,
            metadata_dirty: self.metadata_dirty,
            playback_dirty: self.playback_dirty,
            last_metadata_snapshot: snapshot_view(self.last_metadata_snapshot),
            last_playback_snapshot: self.last_playback_snapshot,
        }
    }
}

/// The next revision; the last one has no successor but itself.
pub open spec fn next_revision(revision: u64) -> u64 {
    if revision == u64::MAX {
        revision
    } else {
        (revision + 1) as u64
    }
}

/// A text after a patch.
pub open spec fn assigned(current: Seq<char>, next: Option<Seq<char>>) -> Seq<char> {
    match next {
        Some(next) => next,
        None => current,
    }
}

/// Whether two snapshots are the same.
pub open spec fn same_metadata(a: MetadataSnapshotView, b: MetadataSnapshotView) -> bool {
    &&& a.title == b.title
    &&& a.album_title == b.album_title
    &&& a.artist == b.artist
    &&& a.thumbnail == b.thumbnail
    &&& a.duration.same(b.duration)
}

/// Whether two snapshots are the same.
pub open spec fn same_playback(a: PlaybackSnapshot, b: PlaybackSnapshot) -> bool {
    a.playback_status == b.playback_status && a.position.same(b.position)
}

impl FlushMode {
    /// Whether a flush may send the metadata.
    pub open spec fn sends_metadata_spec(self) -> bool {
        self is Full || self is TrackChange || self is MetadataOnly
    }

    /// Whether a flush may send the playback.
    pub open spec fn sends_playback_spec(self) -> bool {
        self is Full || self is TrackChange || self is PlaybackOnly
    }
}

impl MediaPlayerStateView {
    /// The state of a new player.
    pub open spec fn initial() -> Self {
        MediaPlayerStateView {
            active: false,
            can_go_next: false,
            can_go_previous: false,
            can_play: false,
            can_pause: false,
            can_seek: false,
            can_control: true,
            media_type: MediaPlayerMediaType::Unknown,
            playback_status: MediaPlayerPlaybackStatus::Unknown,
            thumbnail: Seq::empty(),
            artist: Seq::empty(),
            album_title: Seq::empty(),
            title: Seq::empty(),
            track_id: Seq::empty(),
            duration: numbers::zero(),
            position: numbers::zero(),
            playback_rate: numbers::one(),
            state_revision: 0,
            track_revision: 0,
            position_event_track_revision: 0,
            track_transition_pending: false,
            prefer_last_playback_position_for_status_flush: false,
            metadata_dirty: false,
            playback_dirty: false,
            last_metadata_snapshot: None,
            last_playback_snapshot: None,
        }
    }

    /// Whether a patch changes the track.
    pub open spec fn track_changes(self, patch: TitleDataPatchView) -> bool {
        patch.track_id matches Some(track_id) && track_id != self.track_id
    }

    /// Whether a patch changes anything.
    pub open spec fn title_changes(self, patch: TitleDataPatchView) -> bool {
        ||| assigned(self.title, patch.title) != self.title
        ||| assigned(self.artist, patch.artist) != self.artist
        ||| assigned(self.album_title, patch.album_title) != self.album_title
        ||| assigned(self.thumbnail, patch.thumbnail) != self.thumbnail
        ||| self.track_changes(patch)
    }

    /// The state after a patch of what describes the track. A new track starts a transition, with no
    /// duration and no position yet.
    pub open spec fn title_patched(self, patch: TitleDataPatchView) -> Self {
        let track = self.track_changes(patch);
        let changed = self.title_changes(patch);
        MediaPlayerStateView {
            title: assigned(self.title, patch.title),
            artist: assigned(self.artist, patch.artist),
            album_title: assigned(self.album_title, patch.album_title),
            thumbnail: assigned(self.thumbnail, patch.thumbnail),
            track_id: assigned(self.track_id, patch.track_id),
            track_revision: if track {
                next_revision(self.track_revision)
            } else {
                self.track_revision
            },
            track_transition_pending: track || self.track_transition_pending,
            duration: if track {
                numbers::zero()
            } else {
                self.duration
            },
            position: if track {
                numbers::zero()
            } else {
                self.position
            },
            playback_dirty: track || self.playback_dirty,
            prefer_last_playback_position_for_status_flush: !track
                && self.prefer_last_playback_position_for_status_flush,
            metadata_dirty: changed || self.metadata_dirty,
            state_revision: if changed {
                next_revision(self.state_revision)
            } else {
                self.state_revision
            },
            ..self
        }
    }

    pub open spec fn duration_changes(self, patch: PlaybackStatePatch) -> bool {
        patch.duration matches Some(duration) && self.duration.differs_spec(duration)
    }

    pub open spec fn position_changes(self, patch: PlaybackStatePatch) -> bool {
        patch.position matches Some(position) && self.position.differs_spec(position)
    }

    pub open spec fn status_changes(self, patch: PlaybackStatePatch) -> bool {
        patch.playback_status matches Some(status) && self.playback_status != status
    }

    /// Whether a patch changes anything.
    pub open spec fn playback_changes(self, patch: PlaybackStatePatch) -> bool {
        self.duration_changes(patch) || self.position_changes(patch) || self.status_changes(patch)
    }

    /// Whether a patch ends the transition to a new track: it has a position or a new duration.
    pub open spec fn completes_transition(self, patch: PlaybackStatePatch) -> bool {
        self.track_transition_pending && (self.duration_changes(patch) || patch.position is Some)
    }

    /// The state after a patch of the playback.
    pub open spec fn playback_patched(self, patch: PlaybackStatePatch) -> Self {
        let changed = self.playback_changes(patch);
        let completed = self.completes_transition(patch);
        MediaPlayerStateView {
            duration: if self.duration_changes(patch) {
                patch.duration->0
            } else {
                self.duration
            },
            position: if self.position_changes(patch) {
                patch.position->0
            } else {
                self.position
            },
            playback_status: if self.status_changes(patch) {
                patch.playback_status->0
            } else {
                self.playback_status
            },
            metadata_dirty: self.duration_changes(patch) || self.metadata_dirty,
            position_event_track_revision: if completed {
                self.track_revision
            } else {
                self.position_event_track_revision
            },
            track_transition_pending: self.track_transition_pending && !completed,
            prefer_last_playback_position_for_status_flush: if patch.position is Some
                || self.duration_changes(patch) {
                false
            } else {
                self.status_changes(patch) || self.prefer_last_playback_position_for_status_flush
            },
            playback_dirty: changed || self.playback_dirty,
            state_revision: if changed {
                next_revision(self.state_revision)
            } else {
                self.state_revision
            },
            ..self
        }
    }

    /// The metadata of the current track.
    pub open spec fn metadata_snapshot(self) -> MetadataSnapshotView {
        MetadataSnapshotView {
            title: self.title,
            album_title: self.album_title,
            artist: self.artist,
            thumbnail: self.thumbnail,
            duration: self.duration.at_least_zero_spec(),
        }
    }

    /// The current playback. After a change of the status alone, its position is the one that the media
    /// service has.
    pub open spec fn playback_snapshot(self) -> PlaybackSnapshot {
        PlaybackSnapshot {
            playback_status: self.playback_status,
            position: if self.prefer_last_playback_position_for_status_flush
                && !self.track_transition_pending && self.last_playback_snapshot is Some {
                self.last_playback_snapshot->0.position.at_least_zero_spec()
            } else {
                self.position.at_least_zero_spec()
            },
        }
    }

    /// Whether a flush sends the metadata: they are marked as changed, or not those that were sent last.
    pub open spec fn emits_metadata(self, snapshot: MetadataSnapshotView, mode: FlushMode) -> bool {
        mode.sends_metadata_spec() && (self.metadata_dirty || !(
        self.last_metadata_snapshot matches Some(last) && same_metadata(last, snapshot)))
    }

    /// Whether a flush sends the playback: it is marked as changed, or not the one that was sent last.
    pub open spec fn emits_playback(self, snapshot: PlaybackSnapshot, mode: FlushMode) -> bool {
        mode.sends_playback_spec() && (self.playback_dirty || !(
        self.last_playback_snapshot matches Some(last) && same_playback(last, snapshot)))
    }

    /// What a flush sends; nothing, if the player is not active or nothing is to be sent.
    pub open spec fn flush_payload(self, mode: FlushMode) -> Option<FlushPayloadView> {
        let metadata = self.emits_metadata(self.metadata_snapshot(), mode);
        let playback = self.emits_playback(self.playback_snapshot(), mode);
        if !self.active || !(metadata || playback) {
            None
        } else {
            Some(
                FlushPayloadView {
                    state_revision: self.state_revision,
                    metadata: if metadata {
                        Some(self.metadata_snapshot())
                    } else {
                        None
                    },
                    playback: if playback {
                        Some(self.playback_snapshot())
                    } else {
                        None
                    },
                },
            )
        }
    }

    /// The state after metadata of the given revision were sent.
    pub open spec fn metadata_flushed(self, revision: u64, snapshot: MetadataSnapshotView) -> Self {
        MediaPlayerStateView {
            last_metadata_snapshot: Some(snapshot),
            metadata_dirty: self.metadata_dirty && self.state_revision != revision,
            ..self
        }
    }

    /// The state after a playback of the given revision was sent.
    pub open spec fn playback_flushed(self, revision: u64, snapshot: PlaybackSnapshot) -> Self {
        MediaPlayerStateView {
            last_playback_snapshot: Some(snapshot),
            playback_dirty: self.playback_dirty && self.state_revision != revision,
            prefer_last_playback_position_for_status_flush:
                self.prefer_last_playback_position_for_status_flush && self.state_revision
                != revision,
            ..self
        }
    }

    /// The state after a flush with the given mode, all of which was sent.
    pub open spec fn flushed(self, mode: FlushMode) -> Self {
        match self.flush_payload(mode) {
            Some(payload) => {
                let sent = match payload.metadata {
                    Some(snapshot) => self.metadata_flushed(payload.state_revision, snapshot),
                    None => self,
                };
                match payload.playback {
                    Some(snapshot) => sent.playback_flushed(payload.state_revision, snapshot),
                    None => sent,
                }
            },
            None => self,
        }
    }

    /// Whether a position that the media service requests is accepted: the player can seek, the position
    /// lies within the track, and the track is the one of which the service knows the timeline.
    pub open spec fn accepts_set_position(self, requested_seconds: Double) -> bool {
        &&& self.can_seek
        &&& requested_seconds.le(self.duration)
        &&& self.position_event_track_revision == self.track_revision
    }

    /// The revision of which positions are accepted is not ahead of the track; outside of a transition it
    /// is that of the track, and during one it is behind, unless the revisions have come to their end.
    pub open spec fn revisions_in_order(self) -> bool {
        &&& self.position_event_track_revision <= self.track_revision
        &&& !self.track_transition_pending ==> self.position_event_track_revision
            == self.track_revision
        &&& self.track_transition_pending && self.track_revision < u64::MAX
            ==> self.position_event_track_revision < self.track_revision
    }
}

impl FlushMode {
    fn sends_metadata(self) -> (r: bool)
        ensures
            r == self.sends_metadata_spec(),
    {
        match self {
            FlushMode::Full | FlushMode::TrackChange | FlushMode::MetadataOnly => true,
            _ => false,
        }
    }

    fn sends_playback(self) -> (r: bool)
        ensures
            r == self.sends_playback_spec(),
    {
        match self {
            FlushMode::Full | FlushMode::TrackChange | FlushMode::PlaybackOnly => true,
            _ => false,
        }
    }
}

impl MetadataSnapshot {
    /// Whether two snapshots are the same.
    pub fn same_as(&self, other: &MetadataSnapshot) -> (r: bool)
        ensures
            r == same_metadata(self@, other@),
    {
        self.title == other.title && self.album_title == other.album_title && self.artist
            == other.artist && self.thumbnail == other.thumbnail && self.duration.equals(
            other.duration,
        )
    }
}

impl PlaybackSnapshot {
    /// Whether two snapshots are the same.
    pub fn same_as(&self, other: &PlaybackSnapshot) -> (r: bool)
        ensures
            r == same_playback(*self, *other),
    {
        self.playback_status == other.playback_status && self.position.equals(other.position)
    }
}

/// Assigns a new text, if there is one and it is another; says whether it did.
pub fn assign_if_changed(target: &mut String, next: Option<String>) -> (r: bool)
    ensures
        final(target)@ == assigned(old(target)@, text_view(next)),
        r == (final(target)@ != old(target)@),
{
    match next {
        Some(next) => {
            if *target == next {
                return false;
            }
            *target = next;
            true
        },
        None => false,
    }
}

impl Default for MediaPlayerState {
    fn default() -> (r: Self)
        ensures
            r@ == MediaPlayerStateView::initial(),
    {
        Self {
            active: false,
            can_go_next: false,
            can_go_previous: false,
            can_play: false,
            can_pause: false,
            can_seek: false,
            can_control: true,
            media_type: MediaPlayerMediaType::Unknown,
            playback_status: MediaPlayerPlaybackStatus::Unknown,
            thumbnail: String::new(),
            artist: String::new(),
            album_title: String::new(),
            title: String::new(),
            track_id: String::new(),
            duration: Double::zero(),
            position: Double::zero(),
            playback_rate: Double::one(),
            state_revision: 0,
            track_revision: 0,
            position_event_track_revision: 0,
            track_transition_pending: false,
            prefer_last_playback_position_for_status_flush: false,
            metadata_dirty: false,
            playback_dirty: false,
            last_metadata_snapshot: None,
            last_playback_snapshot: None,
        }
    }
}

/// What a patch of the playback changes.
struct PlaybackChanges {
    duration: bool,
    position: bool,
    playback_status: bool,
}

/// The state after the values of a patch were taken over.
#[verifier::opaque]
spec fn playback_assigned(
    state: MediaPlayerStateView,
    patch: PlaybackStatePatch,
    changes: PlaybackChanges,
) -> MediaPlayerStateView {
    MediaPlayerStateView {
        duration: if changes.duration {
            patch.duration->0
        } else {
            state.duration
        },
        position: if changes.position {
            patch.position->0
        } else {
            state.position
        },
        playback_status: if changes.playback_status {
            patch.playback_status->0
        } else {
            state.playback_status
        },
        metadata_dirty: changes.duration || state.metadata_dirty,
        prefer_last_playback_position_for_status_flush: if patch.position is Some
            || changes.duration {
            false
        } else {
            changes.playback_status || state.prefer_last_playback_position_for_status_flush
        },
        ..state
    }
}

/// The state after a patch had the given result.
#[verifier::opaque]
spec fn playback_concluded(
    state: MediaPlayerStateView,
    result: PlaybackPatchResult,
) -> MediaPlayerStateView {
    MediaPlayerStateView {
        position_event_track_revision: if result.completed_track_transition {
            state.track_revision
        } else {
            state.position_event_track_revision
        },
        track_transition_pending: state.track_transition_pending
            && !result.completed_track_transition,
        playback_dirty: result.changed || state.playback_dirty,
        state_revision: if result.changed {
            next_revision(state.state_revision)
        } else {
            state.state_revision
        },
        ..state
    }
}

proof fn lemma_playback_patched(
    before: MediaPlayerStateView,
    patch: PlaybackStatePatch,
    changes: PlaybackChanges,
    assigned: MediaPlayerStateView,
    after: MediaPlayerStateView,
    result: PlaybackPatchResult,
)
    requires
        changes.duration == before.duration_changes(patch),
        changes.position == before.position_changes(patch),
        changes.playback_status == before.status_changes(patch),
        assigned == playback_assigned(before, patch, changes),
        after == playback_concluded(assigned, result),
        result.changed == before.playback_changes(patch),
        result.completed_track_transition == before.completes_transition(patch),
    ensures
        after == before.playback_patched(patch),
{
    reveal(playback_assigned);
    reveal(playback_concluded);
}

impl MediaPlayerState {
    fn bump_revision(&mut self)
        ensures
            final(self)@ == (MediaPlayerStateView {
                state_revision: next_revision(old(self)@.state_revision),
                ..old(self)@
            }),
    {
        self.state_revision = self.state_revision.saturating_add(1);
    }

    /// Takes over a patch of what describes the track; says whether anything changed.
    pub fn apply_title_patch(&mut self, patch: TitleDataPatch) -> (r: bool)
        ensures
            final(self)@ == old(self)@.title_patched(patch@),
            r == old(self)@.title_changes(patch@),
    {
        let text_changed = self.assign_texts(
            patch.title,
            patch.artist,
            patch.album_title,
            patch.thumbnail,
        );
        let track_changed = match patch.track_id {
            Some(track_id) => {
                if self.track_id != track_id {
                    self.begin_track(track_id);
                    true
                } else {
                    false
                }
            },
            None => false,
        };
        if text_changed || track_changed {
            self.metadata_dirty = true;
            self.bump_revision();
        }
        text_changed || track_changed
    }

    /// Assigns the texts that describe the track; says whether one of them changed.
    fn assign_texts(
        &mut self,
        title: Option<String>,
        artist: Option<String>,
        album_title: Option<String>,
        thumbnail: Option<String>,
    ) -> (r: bool)
        ensures
            final(self)@ == (MediaPlayerStateView {
                title: assigned(old(self)@.title, text_view(title)),
                artist: assigned(old(self)@.artist, text_view(artist)),
                album_title: assigned(old(self)@.album_title, text_view(album_title)),
                thumbnail: assigned(old(self)@.thumbnail, text_view(thumbnail)),
                ..old(self)@
            }),
            r == (final(self)@ != old(self)@),
    {
        let title_changed = assign_if_changed(&mut self.title, title);
        let artist_changed = assign_if_changed(&mut self.artist, artist);
        let album_changed = assign_if_changed(&mut self.album_title, album_title);
        let thumbnail_changed = assign_if_changed(&mut self.thumbnail, thumbnail);
        title_changed || artist_changed || album_changed || thumbnail_changed
    }

    /// Starts the transition to another track.
    fn begin_track(&mut self, track_id: String)
        ensures
            final(self)@ == (MediaPlayerStateView {
                track_id: track_id@,
                track_revision: next_revision(old(self)@.track_revision),
                track_transition_pending: true,
                duration: numbers::zero(),
                position: numbers::zero(),
                playback_dirty: true,
                prefer_last_playback_position_for_status_flush: false,
                ..old(self)@
            }),
    {
        self.track_id = track_id;
        self.track_revision = self.track_revision.saturating_add(1);
        self.track_transition_pending = true;
        self.duration = Double::zero();
        self.position = Double::zero();
        self.playback_dirty = true;
        self.prefer_last_playback_position_for_status_flush = false;
    }

    /// Takes over a patch of the playback; says what it did.
    pub fn apply_playback_patch(&mut self, patch: PlaybackStatePatch) -> (r: PlaybackPatchResult)
        ensures
            final(self)@ == old(self)@.playback_patched(patch),
            r.changed == old(self)@.playback_changes(patch),
            r.completed_track_transition == old(self)@.completes_transition(patch),
    {
        let changes = self.changes_of(patch);
        let result = PlaybackPatchResult {
            changed: changes.duration || changes.position || changes.playback_status,
            completed_track_transition: self.track_transition_pending && (changes.duration
                || patch.position.is_some()),
        };
        self.assign_playback(patch, &changes);
        let ghost assigned = self@;
        self.conclude_playback(result);
        proof {
            lemma_playback_patched(old(self)@, patch, changes, assigned, self@, result);
        }
        result
    }

    /// What a patch changes.
    fn changes_of(&self, patch: PlaybackStatePatch) -> (r: PlaybackChanges)
        ensures
            r.duration == self@.duration_changes(patch),
            r.position == self@.position_changes(patch),
            r.playback_status == self@.status_changes(patch),
    {
        PlaybackChanges {
            duration: match patch.duration {
                Some(duration) => self.duration.differs(duration),
                None => false,
            },
            position: match patch.position {
                Some(position) => self.position.differs(position),
                None => false,
            },
            playback_status: match patch.playback_status {
                Some(playback_status) => self.playback_status != playback_status,
                None => false,
            },
        }
    }

    /// Takes over what a patch changes, and chooses the position for the next flush.
    fn assign_playback(&mut self, patch: PlaybackStatePatch, changes: &PlaybackChanges)
        requires
            changes.duration ==> patch.duration is Some,
            changes.position ==> patch.position is Some,
            changes.playback_status ==> patch.playback_status is Some,
        ensures
            final(self)@ == playback_assigned(old(self)@, patch, *changes),
    {
        reveal(playback_assigned);
        if changes.duration {
            self.duration = patch.duration.unwrap();
            self.metadata_dirty = true;
        }
        if changes.position {
            self.position = patch.position.unwrap();
        }
        if changes.playback_status {
            self.playback_status = patch.playback_status.unwrap();
        }
        if patch.position.is_some() || changes.duration {
            self.prefer_last_playback_position_for_status_flush = false;
        } else if changes.playback_status {
            self.prefer_last_playback_position_for_status_flush = true;
        }
    }

    /// Ends the transition to a track, and marks the playback as changed.
    fn conclude_playback(&mut self, result: PlaybackPatchResult)
        ensures
            final(self)@ == playback_concluded(old(self)@, result),
    {
        reveal(playback_concluded);
        if result.completed_track_transition {
            self.position_event_track_revision = self.track_revision;
            self.track_transition_pending = false;
        }
        if result.changed {
            self.playback_dirty = true;
            self.bump_revision();
        }
    }

    /// The metadata of the current track.
    pub fn metadata_snapshot(&self) -> (r: MetadataSnapshot)
        ensures
            r@ == self@.metadata_snapshot(),
    {
        MetadataSnapshot {
            title: self.title.clone(),
            album_title: self.album_title.clone(),
            artist: self.artist.clone(),
            thumbnail: self.thumbnail.clone(),
            duration: self.duration.at_least_zero(),
        }
    }

    /// The current playback.
    pub fn playback_snapshot(&self) -> (r: PlaybackSnapshot)
        ensures
            r == self@.playback_snapshot(),
    {
        let position = if self.prefer_last_playback_position_for_status_flush
            && !self.track_transition_pending {
            match &self.last_playback_snapshot {
                Some(snapshot) => snapshot.position.at_least_zero(),
                None => self.position.at_least_zero(),
            }
        } else {
            self.position.at_least_zero()
        };
        PlaybackSnapshot { playback_status: self.playback_status, position }
    }

    /// Whether a flush sends the metadata.
    pub fn should_emit_metadata(&self, snapshot: &MetadataSnapshot, flush_mode: FlushMode) -> (r:
        bool)
        ensures
            r == self@.emits_metadata(snapshot@, flush_mode),
    {
        let is_last = match &self.last_metadata_snapshot {
            Some(last) => last.same_as(snapshot),
            None => false,
        };
        flush_mode.sends_metadata() && (self.metadata_dirty || !is_last)
    }

    /// Whether a flush sends the playback.
    pub fn should_emit_playback(&self, snapshot: &PlaybackSnapshot, flush_mode: FlushMode) -> (r:
        bool)
        ensures
            r == self@.emits_playback(*snapshot, flush_mode),
    {
        let is_last = match &self.last_playback_snapshot {
            Some(last) => last.same_as(snapshot),
            None => false,
        };
        flush_mode.sends_playback() && (self.playback_dirty || !is_last)
    }

    /// What a flush sends.
    pub fn create_flush_payload(&self, flush_mode: FlushMode) -> (r: Option<FlushPayload>)
        ensures
            match r {
                Some(payload) => self@.flush_payload(flush_mode) == Some(payload@),
                None => self@.flush_payload(flush_mode) is None,
            },
    {
        if !self.active || flush_mode == FlushMode::Nothing {
            return None;
        }
        let metadata_snapshot = self.metadata_snapshot();
        let playback_snapshot = self.playback_snapshot();
        let emit_metadata = self.should_emit_metadata(&metadata_snapshot, flush_mode);
        let emit_playback = self.should_emit_playback(&playback_snapshot, flush_mode);
        if !emit_metadata && !emit_playback {
            return None;
        }
        Some(
            FlushPayload {
                state_revision: self.state_revision,
                metadata: if emit_metadata {
                    Some(metadata_snapshot)
                } else {
                    None
                },
                playback: if emit_playback {
                    Some(playback_snapshot)
                } else {
                    None
                },
            },
        )
    }

    /// Takes note that metadata were sent.
    pub fn mark_metadata_flushed(&mut self, state_revision: u64, snapshot: MetadataSnapshot)
        ensures
            final(self)@ == old(self)@.metadata_flushed(state_revision, snapshot@),
    {
        self.last_metadata_snapshot = Some(snapshot);
        if self.state_revision == state_revision {
            self.metadata_dirty = false;
        }
    }

    /// Takes note that a playback was sent.
    pub fn mark_playback_flushed(&mut self, state_revision: u64, snapshot: PlaybackSnapshot)
        ensures
            final(self)@ == old(self)@.playback_flushed(state_revision, snapshot),
    {
        self.last_playback_snapshot = Some(snapshot);
        if self.state_revision == state_revision {
            self.playback_dirty = false;
            self.prefer_last_playback_position_for_status_flush = false;
        }
    }

    /// Whether a position that the media service requests is accepted.
    pub fn accepts_set_position(&self, requested_seconds: Double) -> (r: bool)
        ensures
            r == self@.accepts_set_position(requested_seconds),
    {
        self.can_seek && requested_seconds.at_most(self.duration)
            && self.position_event_track_revision == self.track_revision
    }
}

} // verus!
