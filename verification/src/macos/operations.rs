//! What the operations of a media player do, in terms of what they are given and what they return.
use vstd::arithmetic::power2::*;
use vstd::prelude::*;

use crate::double::Double;
use crate::listeners;
use crate::macos::controls;
use crate::macos::controls::{
    MediaControlEvent, MediaMetadata, MediaPlayback, SeekDirection,
};
use crate::macos::player::{FlushStep, MediaPlayer, MediaPlayerView};
use crate::macos::state;
use crate::macos::state::{
    FlushMode, FlushPayload, MediaPlayerState, MediaPlayerStateView, MetadataSnapshot,
    PlaybackPatchResult, PlaybackSnapshot, PlaybackStatePatch, TitleDataPatch,
};
use crate::numbers;
use crate::span;
use crate::span::Span;
use crate::types;
use crate::types::{
    Button, Emission, MediaPlayerMediaType, MediaPlayerPlaybackStatus, MediaPlayerThumbnail,
};

verus! {

/// What is shown of a state is what it holds, each under its own name.
pub proof fn law_state_shown(state: MediaPlayerState)
    ensures
        state@.active == state.active,
        state@.can_go_next == state.can_go_next,
        state@.can_go_previous == state.can_go_previous,
        state@.can_play == state.can_play,
        state@.can_pause == state.can_pause,
        state@.can_seek == state.can_seek,
        state@.can_control == state.can_control,
        state@.media_type == state.media_type,
        state@.playback_status == state.playback_status,
        state@.thumbnail == state.thumbnail@,
        state@.artist == state.artist@,
        state@.album_title == state.album_title@,
        state@.title == state.title@,
        state@.track_id == state.track_id@,
        state@.duration == state.duration,
        state@.position == state.position,
        state@.playback_rate == state.playback_rate,
        state@.state_revision == state.state_revision,
        state@.track_revision == state.track_revision,
        state@.position_event_track_revision == state.position_event_track_revision,
        state@.track_transition_pending == state.track_transition_pending,
        state@.prefer_last_playback_position_for_status_flush
            == state.prefer_last_playback_position_for_status_flush,
        state@.metadata_dirty == state.metadata_dirty,
        state@.playback_dirty == state.playback_dirty,
        state.last_metadata_snapshot is None ==> state@.last_metadata_snapshot is None,
        state.last_metadata_snapshot matches Some(last) ==> state@.last_metadata_snapshot == Some(
            last@,
        ),
        state@.last_playback_snapshot == state.last_playback_snapshot,
{
}

/// What is shown of the other values is what they hold, each under its own name.
pub proof fn law_values_shown(
    player: MediaPlayer,
    snapshot: MetadataSnapshot,
    payload: FlushPayload,
    patch: TitleDataPatch,
)
    ensures
        player@.state == player.state@,
        player@.listeners == player.listeners@,
        snapshot@.title == snapshot.title@,
        snapshot@.album_title == snapshot.album_title@,
        snapshot@.artist == snapshot.artist@,
        snapshot@.thumbnail == snapshot.thumbnail@,
        snapshot@.duration == snapshot.duration,
        payload@.state_revision == payload.state_revision,
        payload@.playback == payload.playback,
        payload.metadata is None ==> payload@.metadata is None,
        payload.metadata matches Some(metadata) ==> payload@.metadata == Some(metadata@),
        patch.title is None ==> patch@.title is None,
        patch.title matches Some(text) ==> patch@.title == Some(text@),
        patch.artist is None ==> patch@.artist is None,
        patch.artist matches Some(text) ==> patch@.artist == Some(text@),
        patch.album_title is None ==> patch@.album_title is None,
        patch.album_title matches Some(text) ==> patch@.album_title == Some(text@),
        patch.thumbnail is None ==> patch@.thumbnail is None,
        patch.thumbnail matches Some(text) ==> patch@.thumbnail == Some(text@),
        patch.track_id is None ==> patch@.track_id is None,
        patch.track_id matches Some(text) ==> patch@.track_id == Some(text@),
{
}

/// A new state is that of a player that is not active, can be controlled, and holds nothing.
pub proof fn law_new_state(r: MediaPlayerState)
    requires
        call_ensures(MediaPlayerState::default, (), r),
    ensures
        !r.active,
        r.can_control,
        !r.can_go_next,
        !r.can_go_previous,
        !r.can_play,
        !r.can_pause,
        !r.can_seek,
        r.media_type is Unknown,
        r.playback_status is Unknown,
        r.thumbnail@.len() == 0,
        r.artist@.len() == 0,
        r.album_title@.len() == 0,
        r.title@.len() == 0,
        r.track_id@.len() == 0,
        r.duration.bits == 0,
        r.position.bits == 0,
        r.playback_rate.units() == pow2(1074),
        r.state_revision == 0,
        r.track_revision == 0,
        r.position_event_track_revision == 0,
        !r.track_transition_pending,
        !r.prefer_last_playback_position_for_status_flush,
        !r.metadata_dirty,
        !r.playback_dirty,
        r.last_metadata_snapshot is None,
        r.last_playback_snapshot is None,
{
    numbers::lemma_constants();
}

/// How far apart two numbers are at most, in units, that are taken for the same.
pub open spec fn tolerance() -> int {
    (pow2(1022) + pow2(969)) as int
}

/// Whether two numbers are further apart than the tolerance, in either direction.
pub open spec fn apart(a: Double, b: Double) -> bool {
    a.units() - b.units() > tolerance() || b.units() - a.units() > tolerance()
}

/// The tolerance is one part in `2^52`, and less than a unit in its last place more; two numbers are apart
/// whichever of them is the larger one.
pub proof fn law_apart(a: Double, b: Double)
    ensures
        tolerance() == pow2(1022) + pow2(969),
        apart(a, b) == apart(b, a),
        a.units() > b.units() + pow2(1022) + pow2(969) ==> apart(a, b),
        b.units() > a.units() + pow2(1022) + pow2(969) ==> apart(a, b),
        a.units() == b.units() ==> !apart(a, b),
{
    lemma_pow2_pos(1022);
}

/// A timeline whose position lies from zero up to the duration is taken over, whatever was held before:
/// the position that is held is the given one where the two are further apart than the tolerance, forward
/// or backward, and stays where they are not; so is the duration. Nothing else changes, but for what is
/// marked to be sent.
pub proof fn law_timeline_set(
    player: &mut MediaPlayer,
    duration: Double,
    position: Double,
    r: Result<Option<FlushPayload>, String>,
)
    requires
        call_ensures(MediaPlayer::set_timeline, (player, duration, position), r),
        !duration.is_nan_spec(),
        !position.is_nan_spec(),
        !old(player).state.duration.is_nan_spec(),
        !old(player).state.position.is_nan_spec(),
    ensures
        r is Ok <==> 0 <= position.units() <= duration.units(),
        r is Err ==> final(player)@ == old(player)@,
        r is Ok ==> {
            let before = old(player)@.state;
            let after = final(player)@.state;
            let moved = apart(position, old(player).state.position);
            let resized = apart(duration, old(player).state.duration);
            &&& after.position == if moved { position } else { before.position }
            &&& after.duration == if resized { duration } else { before.duration }
            &&& !apart(position, after.position)
            &&& !apart(duration, after.duration)
            &&& !after.track_transition_pending
            &&& !after.prefer_last_playback_position_for_status_flush
            &&& after.position_event_track_revision == if before.track_transition_pending {
                before.track_revision
            } else {
                before.position_event_track_revision
            }
            &&& after.metadata_dirty == (before.metadata_dirty || resized)
            &&& after.playback_dirty == (before.playback_dirty || moved || resized)
            &&& after.state_revision == if (moved || resized) && before.state_revision < u64::MAX {
                before.state_revision + 1
            } else {
                before.state_revision as int
            }
            &&& after == (MediaPlayerStateView {
                position: after.position,
                duration: after.duration,
                track_transition_pending: after.track_transition_pending,
                prefer_last_playback_position_for_status_flush:
                    after.prefer_last_playback_position_for_status_flush,
                position_event_track_revision: after.position_event_track_revision,
                metadata_dirty: after.metadata_dirty,
                playback_dirty: after.playback_dirty,
                state_revision: after.state_revision,
                ..before
            })
            &&& final(player)@.listeners == old(player)@.listeners
        },
{
    numbers::law_timeline_faults(duration, position);
    numbers::law_differs(old(player).state.position, position);
    numbers::law_differs(old(player).state.duration, duration);
    lemma_pow2_pos(1022);
}

/// A position that is further from the held one than the tolerance, ahead of it or behind it, is sent by
/// an active player, as the position of the playback; so is the position where the duration is another
/// one. With the timeline of a new track, the metadata are sent too, with its duration. A player that is
/// not active sends nothing, and neither does one whose timeline stays.
pub proof fn law_timeline_sent(
    player: &mut MediaPlayer,
    duration: Double,
    position: Double,
    r: Result<Option<FlushPayload>, String>,
)
    requires
        call_ensures(MediaPlayer::set_timeline, (player, duration, position), r),
        !duration.is_nan_spec(),
        !position.is_nan_spec(),
        !old(player).state.duration.is_nan_spec(),
        !old(player).state.position.is_nan_spec(),
        0 <= position.units() <= duration.units(),
    ensures
        ({
            let moved = apart(position, old(player).state.position);
            let resized = apart(duration, old(player).state.duration);
            &&& !old(player).state.active || !(moved || resized) ==> (r matches Ok(None))
            &&& old(player).state.active && (moved || resized) ==> (r matches Ok(Some(payload)) && (
            payload.playback matches Some(playback) && {
                &&& playback.playback_status == old(player).state.playback_status
                &&& moved ==> playback.position.units() == position.units()
                &&& moved && position.units() > 0 ==> playback.position == position
                &&& !apart(playback.position, position)
                &&& payload.state_revision == final(player).state.state_revision
                &&& payload.metadata is Some ==> old(player).state.track_transition_pending
                &&& old(player).state.track_transition_pending && (resized || old(
                    player,
                ).state.metadata_dirty) ==> (payload.metadata matches Some(metadata) && {
                    &&& metadata.title@ == old(player).state.title@
                    &&& metadata.artist@ == old(player).state.artist@
                    &&& metadata.album_title@ == old(player).state.album_title@
                    &&& metadata.thumbnail@ == old(player).state.thumbnail@
                    &&& !apart(metadata.duration, duration)
                })
            }))
        }),
{
    law_timeline_set(player, duration, position, r);
    numbers::law_timeline_faults(duration, position);
    numbers::law_differs(old(player).state.position, position);
    numbers::law_differs(old(player).state.duration, duration);
    numbers::law_at_least_zero(final(player).state.position);
    numbers::law_at_least_zero(final(player).state.duration);
    numbers::lemma_constants();
    lemma_pow2_pos(1022);
}

/// A known status is held from then on and the unknown one is refused. Another status than the held one is
/// sent by an active player, as the status of the playback. Its position is the one that was sent last,
/// unless a track is new; the timeline stays.
pub proof fn law_playback_status_set(
    player: &mut MediaPlayer,
    given: MediaPlayerPlaybackStatus,
    r: Result<Option<FlushPayload>, String>,
    read: MediaPlayerPlaybackStatus,
)
    requires
        call_ensures(MediaPlayer::set_playback_status, (player, given), r),
        call_ensures(MediaPlayer::get_playback_status, (final(player),), read),
    ensures
        r is Err <==> given is Unknown,
        r is Err ==> final(player)@ == old(player)@,
        r is Ok ==> read == given,
        r is Ok && given == old(player).state.playback_status ==> final(player)@ == old(player)@
            && (r matches Ok(None)),
        r is Ok && given != old(player).state.playback_status ==> {
            let before = old(player)@.state;
            let after = final(player)@.state;
            &&& after.playback_dirty
            &&& after.prefer_last_playback_position_for_status_flush
            &&& after.state_revision == if before.state_revision < u64::MAX {
                before.state_revision + 1
            } else {
                before.state_revision as int
            }
            &&& after == (MediaPlayerStateView {
                playback_status: given,
                playback_dirty: after.playback_dirty,
                prefer_last_playback_position_for_status_flush:
                    after.prefer_last_playback_position_for_status_flush,
                state_revision: after.state_revision,
                ..before
            })
            &&& final(player)@.listeners == old(player)@.listeners
            &&& !before.active ==> (r matches Ok(None))
            &&& before.active ==> (r matches Ok(Some(payload)) && payload.metadata is None
                && payload.state_revision == after.state_revision && (
            payload.playback matches Some(playback) && {
                let source = match before.last_playback_snapshot {
                    Some(last) => if before.track_transition_pending {
                        before.position
                    } else {
                        last.position
                    },
                    None => before.position,
                };
                &&& playback.playback_status == given
                &&& !source.is_nan_spec() && source.units() > 0 ==> playback.position == source
                &&& source.is_nan_spec() || source.units() <= 0 ==> playback.position.bits == 0
            }))
        },
{
    let state = final(player).state;
    numbers::law_at_least_zero(state.position);
    if state.last_playback_snapshot is Some {
        numbers::law_at_least_zero(state.last_playback_snapshot->0.position);
    }
}

/// The title that was set is held from then on, and the other texts stay. Another title than the held one
/// is sent by an active player, with the other texts as they are and without the playback; the same one
/// changes nothing and sends nothing.
pub proof fn law_title_set(
    player: &mut MediaPlayer,
    given: String,
    r: Option<FlushPayload>,
    read: String,
)
    requires
        call_ensures(MediaPlayer::set_title, (player, given), r),
        call_ensures(MediaPlayer::get_title, (final(player),), read),
    ensures
        read@ == given@,
        final(player).state.title@ == given@,
        given@ == old(player).state.title@ ==> final(player)@ == old(player)@ && r is None,
        given@ != old(player).state.title@ ==> {
            let before = old(player)@.state;
            let after = final(player)@.state;
            &&& after.metadata_dirty
            &&& after.state_revision == if before.state_revision < u64::MAX {
                before.state_revision + 1
            } else {
                before.state_revision as int
            }
            &&& after == (MediaPlayerStateView {
                title: given@,
                metadata_dirty: after.metadata_dirty,
                state_revision: after.state_revision,
                ..before
            })
            &&& final(player)@.listeners == old(player)@.listeners
            &&& !before.active ==> r is None
            &&& before.active ==> (r matches Some(payload) && payload.playback is None
                && payload.state_revision == after.state_revision && (
            payload.metadata matches Some(metadata) && {
                &&& metadata.title@ == given@
                &&& metadata.artist@ == old(player).state.artist@
                &&& metadata.album_title@ == old(player).state.album_title@
                &&& metadata.thumbnail@ == old(player).state.thumbnail@
                &&& !before.duration.is_nan_spec() && before.duration.units() > 0
                    ==> metadata.duration == before.duration
                &&& before.duration.is_nan_spec() || before.duration.units() <= 0
                    ==> metadata.duration.bits == 0
            }))
        },
{
    numbers::law_at_least_zero(old(player).state.duration);
}

/// The artist that was set is held from then on, and the other texts stay. Another artist than the held one
/// is sent by an active player, with the other texts as they are and without the playback; the same one
/// changes nothing and sends nothing.
pub proof fn law_artist_set(
    player: &mut MediaPlayer,
    given: String,
    r: Option<FlushPayload>,
    read: String,
)
    requires
        call_ensures(MediaPlayer::set_artist, (player, given), r),
        call_ensures(MediaPlayer::get_artist, (final(player),), read),
    ensures
        read@ == given@,
        final(player).state.artist@ == given@,
        given@ == old(player).state.artist@ ==> final(player)@ == old(player)@ && r is None,
        given@ != old(player).state.artist@ ==> {
            let before = old(player)@.state;
            let after = final(player)@.state;
            &&& after.metadata_dirty
            &&& after.state_revision == if before.state_revision < u64::MAX {
                before.state_revision + 1
            } else {
                before.state_revision as int
            }
            &&& after == (MediaPlayerStateView {
                artist: given@,
                metadata_dirty: after.metadata_dirty,
                state_revision: after.state_revision,
                ..before
            })
            &&& final(player)@.listeners == old(player)@.listeners
            &&& !before.active ==> r is None
            &&& before.active ==> (r matches Some(payload) && payload.playback is None
                && payload.state_revision == after.state_revision && (
            payload.metadata matches Some(metadata) && {
                &&& metadata.artist@ == given@
                &&& metadata.title@ == old(player).state.title@
                &&& metadata.album_title@ == old(player).state.album_title@
                &&& metadata.thumbnail@ == old(player).state.thumbnail@
                &&& !before.duration.is_nan_spec() && before.duration.units() > 0
                    ==> metadata.duration == before.duration
                &&& before.duration.is_nan_spec() || before.duration.units() <= 0
                    ==> metadata.duration.bits == 0
            }))
        },
{
    numbers::law_at_least_zero(old(player).state.duration);
}

/// The album title that was set is held from then on, and the other texts stay. Another album title than the held one
/// is sent by an active player, with the other texts as they are and without the playback; the same one
/// changes nothing and sends nothing.
pub proof fn law_album_title_set(
    player: &mut MediaPlayer,
    given: String,
    r: Option<FlushPayload>,
    read: String,
)
    requires
        call_ensures(MediaPlayer::set_album_title, (player, given), r),
        call_ensures(MediaPlayer::get_album_title, (final(player),), read),
    ensures
        read@ == given@,
        final(player).state.album_title@ == given@,
        given@ == old(player).state.album_title@ ==> final(player)@ == old(player)@ && r is None,
        given@ != old(player).state.album_title@ ==> {
            let before = old(player)@.state;
            let after = final(player)@.state;
            &&& after.metadata_dirty
            &&& after.state_revision == if before.state_revision < u64::MAX {
                before.state_revision + 1
            } else {
                before.state_revision as int
            }
            &&& after == (MediaPlayerStateView {
                album_title: given@,
                metadata_dirty: after.metadata_dirty,
                state_revision: after.state_revision,
                ..before
            })
            &&& final(player)@.listeners == old(player)@.listeners
            &&& !before.active ==> r is None
            &&& before.active ==> (r matches Some(payload) && payload.playback is None
                && payload.state_revision == after.state_revision && (
            payload.metadata matches Some(metadata) && {
                &&& metadata.album_title@ == given@
                &&& metadata.title@ == old(player).state.title@
                &&& metadata.artist@ == old(player).state.artist@
                &&& metadata.thumbnail@ == old(player).state.thumbnail@
                &&& !before.duration.is_nan_spec() && before.duration.units() > 0
                    ==> metadata.duration == before.duration
                &&& before.duration.is_nan_spec() || before.duration.units() <= 0
                    ==> metadata.duration.bits == 0
            }))
        },
{
    numbers::law_at_least_zero(old(player).state.duration);
}

/// The thumbnail that was set is held from then on, and the other texts stay. Another thumbnail than the held one
/// is sent by an active player, with the other texts as they are and without the playback; the same one
/// changes nothing and sends nothing.
pub proof fn law_thumbnail_set(
    player: &mut MediaPlayer,
    given: &MediaPlayerThumbnail,
    r: Option<FlushPayload>,
)
    requires
        call_ensures(MediaPlayer::set_thumbnail, (player, given), r),
    ensures
        final(player).state.thumbnail@ == given.thumbnail@,
        given.thumbnail@ == old(player).state.thumbnail@ ==> final(player)@ == old(player)@ && r is None,
        given.thumbnail@ != old(player).state.thumbnail@ ==> {
            let before = old(player)@.state;
            let after = final(player)@.state;
            &&& after.metadata_dirty
            &&& after.state_revision == if before.state_revision < u64::MAX {
                before.state_revision + 1
            } else {
                before.state_revision as int
            }
            &&& after == (MediaPlayerStateView {
                thumbnail: given.thumbnail@,
                metadata_dirty: after.metadata_dirty,
                state_revision: after.state_revision,
                ..before
            })
            &&& final(player)@.listeners == old(player)@.listeners
            &&& !before.active ==> r is None
            &&& before.active ==> (r matches Some(payload) && payload.playback is None
                && payload.state_revision == after.state_revision && (
            payload.metadata matches Some(metadata) && {
                &&& metadata.thumbnail@ == given.thumbnail@
                &&& metadata.title@ == old(player).state.title@
                &&& metadata.artist@ == old(player).state.artist@
                &&& metadata.album_title@ == old(player).state.album_title@
                &&& !before.duration.is_nan_spec() && before.duration.units() > 0
                    ==> metadata.duration == before.duration
                &&& before.duration.is_nan_spec() || before.duration.units() <= 0
                    ==> metadata.duration.bits == 0
            }))
        },
{
    numbers::law_at_least_zero(old(player).state.duration);
}

/// Another track than the held one starts anew: with no duration and no position, in a transition that
/// only its timeline ends. Nothing is sent before that, and the texts stay. The same track changes nothing.
pub proof fn law_track_id_set(
    player: &mut MediaPlayer,
    given: String,
    r: Option<FlushPayload>,
    read: String,
)
    requires
        call_ensures(MediaPlayer::set_track_id, (player, given), r),
        call_ensures(MediaPlayer::get_track_id, (final(player),), read),
    ensures
        read@ == given@,
        final(player).state.track_id@ == given@,
        r is None,
        given@ == old(player).state.track_id@ ==> final(player)@ == old(player)@,
        given@ != old(player).state.track_id@ ==> {
            let before = old(player)@.state;
            let after = final(player)@.state;
            &&& after.duration.bits == 0
            &&& after.position.bits == 0
            &&& after.track_transition_pending
            &&& after.metadata_dirty
            &&& after.playback_dirty
            &&& !after.prefer_last_playback_position_for_status_flush
            &&& after.track_revision == if before.track_revision < u64::MAX {
                before.track_revision + 1
            } else {
                before.track_revision as int
            }
            &&& after.state_revision == if before.state_revision < u64::MAX {
                before.state_revision + 1
            } else {
                before.state_revision as int
            }
            &&& after == (MediaPlayerStateView {
                track_id: given@,
                duration: after.duration,
                position: after.position,
                track_transition_pending: after.track_transition_pending,
                metadata_dirty: after.metadata_dirty,
                playback_dirty: after.playback_dirty,
                prefer_last_playback_position_for_status_flush:
                    after.prefer_last_playback_position_for_status_flush,
                track_revision: after.track_revision,
                state_revision: after.state_revision,
                ..before
            })
            &&& final(player)@.listeners == old(player)@.listeners
        },
{
}

/// The text that a patch leaves: its own, where it has one, and the one of before otherwise.
pub proof fn law_text_assigned(target: &mut String, next: Option<String>, r: bool)
    requires
        call_ensures(state::assign_if_changed, (target, next), r),
    ensures
        next matches Some(text) ==> final(target)@ == text@ && r == (text@ != old(target)@),
        next is None ==> final(target)@ == old(target)@ && !r,
{
}

/// A patch of what describes the track takes over each text that it has, and leaves each that it does not
/// have. It says whether it changed anything.
pub proof fn law_title_patch_applied(state: &mut MediaPlayerState, patch: TitleDataPatch, r: bool)
    requires
        call_ensures(MediaPlayerState::apply_title_patch, (state, patch), r),
    ensures
        patch.title matches Some(text) ==> final(state).title@ == text@,
        patch.title is None ==> final(state).title@ == old(state).title@,
        patch.artist matches Some(text) ==> final(state).artist@ == text@,
        patch.artist is None ==> final(state).artist@ == old(state).artist@,
        patch.album_title matches Some(text) ==> final(state).album_title@ == text@,
        patch.album_title is None ==> final(state).album_title@ == old(state).album_title@,
        patch.thumbnail matches Some(text) ==> final(state).thumbnail@ == text@,
        patch.thumbnail is None ==> final(state).thumbnail@ == old(state).thumbnail@,
        patch.track_id matches Some(text) ==> final(state).track_id@ == text@,
        patch.track_id is None ==> final(state).track_id@ == old(state).track_id@,
        r <==> {
            ||| final(state).title@ != old(state).title@
            ||| final(state).artist@ != old(state).artist@
            ||| final(state).album_title@ != old(state).album_title@
            ||| final(state).thumbnail@ != old(state).thumbnail@
            ||| final(state).track_id@ != old(state).track_id@
        },
        !r ==> final(state)@ == old(state)@,
        r ==> final(state).metadata_dirty,
        r && old(state).state_revision < u64::MAX ==> final(state).state_revision == old(
            state,
        ).state_revision + 1,
        ({
            let another = final(state).track_id@ != old(state).track_id@;
            &&& another ==> {
                &&& final(state).duration.bits == 0
                &&& final(state).position.bits == 0
                &&& final(state).track_transition_pending
                &&& final(state).playback_dirty
                &&& !final(state).prefer_last_playback_position_for_status_flush
                &&& old(state).track_revision < u64::MAX ==> final(state).track_revision == old(
                    state,
                ).track_revision + 1
            }
            &&& !another ==> {
                &&& final(state).duration == old(state).duration
                &&& final(state).position == old(state).position
                &&& final(state).track_transition_pending == old(state).track_transition_pending
                &&& final(state).playback_dirty == old(state).playback_dirty
                &&& final(state).prefer_last_playback_position_for_status_flush == old(
                    state,
                ).prefer_last_playback_position_for_status_flush
                &&& final(state).track_revision == old(state).track_revision
            }
        }),
        final(state).playback_status == old(state).playback_status,
        final(state).media_type == old(state).media_type,
        final(state).active == old(state).active,
        final(state).position_event_track_revision == old(state).position_event_track_revision,
        final(state)@.last_metadata_snapshot == old(state)@.last_metadata_snapshot,
        final(state).last_playback_snapshot == old(state).last_playback_snapshot,
{
}

/// A patch of the playback takes over each value that it has, but for a number within the tolerance of the
/// held one, and leaves each that it does not have. It says whether it changed anything, and whether it
/// ended the transition to a track.
pub proof fn law_playback_patch_applied(
    state: &mut MediaPlayerState,
    patch: PlaybackStatePatch,
    r: PlaybackPatchResult,
)
    requires
        call_ensures(MediaPlayerState::apply_playback_patch, (state, patch), r),
        !old(state).duration.is_nan_spec(),
        !old(state).position.is_nan_spec(),
        patch.duration matches Some(duration) ==> !duration.is_nan_spec(),
        patch.position matches Some(position) ==> !position.is_nan_spec(),
    ensures
        patch.duration matches Some(duration) ==> final(state).duration == if apart(
            duration,
            old(state).duration,
        ) {
            duration
        } else {
            old(state).duration
        },
        patch.duration is None ==> final(state).duration == old(state).duration,
        patch.position matches Some(position) ==> final(state).position == if apart(
            position,
            old(state).position,
        ) {
            position
        } else {
            old(state).position
        },
        patch.position is None ==> final(state).position == old(state).position,
        patch.playback_status matches Some(status) ==> final(state).playback_status == status,
        patch.playback_status is None ==> final(state).playback_status == old(
            state,
        ).playback_status,
        r.changed <==> {
            ||| final(state).duration != old(state).duration
            ||| final(state).position != old(state).position
            ||| final(state).playback_status != old(state).playback_status
        },
        r.changed ==> final(state).playback_dirty,
        !r.changed ==> final(state).playback_dirty == old(state).playback_dirty
            && final(state).state_revision == old(state).state_revision,
        r.changed && old(state).state_revision < u64::MAX ==> final(state).state_revision == old(
            state,
        ).state_revision + 1,
        final(state).metadata_dirty == (old(state).metadata_dirty || final(state).duration != old(
            state,
        ).duration),
        r.completed_track_transition <==> old(state).track_transition_pending
            && !final(state).track_transition_pending,
        final(state).track_transition_pending <==> old(state).track_transition_pending
            && patch.position is None && final(state).duration == old(state).duration,
        r.completed_track_transition ==> final(state).position_event_track_revision == old(
            state,
        ).track_revision,
        !r.completed_track_transition ==> final(state).position_event_track_revision == old(
            state,
        ).position_event_track_revision,
        final(state).prefer_last_playback_position_for_status_flush <==> patch.position is None
            && final(state).duration == old(state).duration && (final(state).playback_status != old(
            state,
        ).playback_status || old(state).prefer_last_playback_position_for_status_flush),
        final(state)@ == (MediaPlayerStateView {
            duration: final(state).duration,
            position: final(state).position,
            playback_status: final(state).playback_status,
            metadata_dirty: final(state).metadata_dirty,
            playback_dirty: final(state).playback_dirty,
            state_revision: final(state).state_revision,
            track_transition_pending: final(state).track_transition_pending,
            position_event_track_revision: final(state).position_event_track_revision,
            prefer_last_playback_position_for_status_flush:
                final(state).prefer_last_playback_position_for_status_flush,
            ..old(state)@
        }),
{
    if patch.duration is Some {
        numbers::law_differs(old(state).duration, patch.duration->0);
    }
    if patch.position is Some {
        numbers::law_differs(old(state).position, patch.position->0);
    }
    lemma_pow2_pos(1022);
}

/// A value that is no number is not taken over, and neither is any in its place.
pub proof fn law_no_number_taken(
    state: &mut MediaPlayerState,
    patch: PlaybackStatePatch,
    r: PlaybackPatchResult,
)
    requires
        call_ensures(MediaPlayerState::apply_playback_patch, (state, patch), r),
    ensures
        patch.position matches Some(position) ==> position.is_nan_spec() || old(
            state,
        ).position.is_nan_spec() ==> final(state).position == old(state).position,
        patch.duration matches Some(duration) ==> duration.is_nan_spec() || old(
            state,
        ).duration.is_nan_spec() ==> final(state).duration == old(state).duration,
{
    if patch.duration is Some {
        numbers::law_differs(old(state).duration, patch.duration->0);
    }
    if patch.position is Some {
        numbers::law_differs(old(state).position, patch.position->0);
    }
}

/// The metadata at one time are those of the track, each text under its own name, and a duration that is
/// not below zero.
pub proof fn law_metadata_taken(state: &MediaPlayerState, r: MetadataSnapshot)
    requires
        call_ensures(MediaPlayerState::metadata_snapshot, (state,), r),
    ensures
        r.title@ == state.title@,
        r.album_title@ == state.album_title@,
        r.artist@ == state.artist@,
        r.thumbnail@ == state.thumbnail@,
        !state.duration.is_nan_spec() && state.duration.units() > 0 ==> r.duration
            == state.duration,
        state.duration.is_nan_spec() || state.duration.units() <= 0 ==> r.duration.bits == 0,
{
    numbers::law_at_least_zero(state.duration);
}

/// The media controls show each text of the metadata under its own name, where it holds anything, and the
/// duration.
pub proof fn law_metadata_shown<'a>(snapshot: &'a MetadataSnapshot, r: MediaMetadata<'a>)
    requires
        call_ensures(MetadataSnapshot::to_media_metadata, (snapshot,), r),
    ensures
        r.title is None <==> snapshot.title@.len() == 0,
        r.title matches Some(text) ==> text@ == snapshot.title@,
        r.album is None <==> snapshot.album_title@.len() == 0,
        r.album matches Some(text) ==> text@ == snapshot.album_title@,
        r.artist is None <==> snapshot.artist@.len() == 0,
        r.artist matches Some(text) ==> text@ == snapshot.artist@,
        r.cover_url is None <==> snapshot.thumbnail@.len() == 0,
        r.cover_url matches Some(text) ==> text@ == snapshot.thumbnail@,
        r.duration == snapshot.duration,
{
    let view = r@;
    assert(view.title == controls::ref_view(r.title));
    assert(view.album == controls::ref_view(r.album));
    assert(view.artist == controls::ref_view(r.artist));
    assert(view.cover_url == controls::ref_view(r.cover_url));
}

/// What a patch gave is what the media controls show, each text under its own name: the title as the
/// title, the album title as the album, the artist as the artist and the thumbnail as the cover.
pub proof fn law_patch_shown<'a>(
    state: &mut MediaPlayerState,
    patch: TitleDataPatch,
    changed: bool,
    snapshot: &'a MetadataSnapshot,
    r: MediaMetadata<'a>,
)
    requires
        call_ensures(MediaPlayerState::apply_title_patch, (state, patch), changed),
        call_ensures(MediaPlayerState::metadata_snapshot, (final(state),), *snapshot),
        call_ensures(MetadataSnapshot::to_media_metadata, (snapshot,), r),
    ensures
        patch.title matches Some(given) ==> given@.len() > 0 ==> (r.title matches Some(text)
            && text@ == given@),
        patch.album_title matches Some(given) ==> given@.len() > 0 ==> (r.album matches Some(text)
            && text@ == given@),
        patch.artist matches Some(given) ==> given@.len() > 0 ==> (r.artist matches Some(text)
            && text@ == given@),
        patch.thumbnail matches Some(given) ==> given@.len() > 0 ==> (r.cover_url matches Some(text)
            && text@ == given@),
        !r.duration.is_nan_spec() && r.duration.units() >= 0,
{
    law_title_patch_applied(state, patch, changed);
    law_metadata_taken(final(state), *snapshot);
    law_metadata_shown(snapshot, r);
    numbers::law_at_least_zero(final(state).duration);
}

/// A text is shown where it holds anything, and left out where it does not.
pub proof fn law_optional_text<'a>(value: &'a str, r: Option<&'a str>)
    requires
        call_ensures(controls::to_optional_ref, (value,), r),
    ensures
        value@.len() == 0 ==> r is None,
        value@.len() > 0 ==> (r matches Some(text) && text@ == value@),
{
    assert(controls::ref_view(r) == controls::optional_text(value@));
}

/// The media controls show each status under its own name, with the position while there is one.
pub proof fn law_playback_shown(snapshot: &PlaybackSnapshot, r: MediaPlayback)
    requires
        call_ensures(PlaybackSnapshot::to_media_playback, (snapshot,), r),
    ensures
        snapshot.playback_status is Playing ==> r == (MediaPlayback::Playing {
            progress: snapshot.position,
        }),
        snapshot.playback_status is Paused ==> r == (MediaPlayback::Paused {
            progress: snapshot.position,
        }),
        snapshot.playback_status is Stopped ==> r is Stopped,
        snapshot.playback_status is Unknown ==> r is Stopped,
{
}

/// The playback at one time has the status, and a position that is not below zero: the one that was sent
/// last while a change of the status alone is to be sent, and the current one otherwise.
pub proof fn law_playback_taken(state: &MediaPlayerState, r: PlaybackSnapshot)
    requires
        call_ensures(MediaPlayerState::playback_snapshot, (state,), r),
    ensures
        r.playback_status == state.playback_status,
        ({
            let kept = state.prefer_last_playback_position_for_status_flush
                && !state.track_transition_pending && state.last_playback_snapshot is Some;
            let source = if kept {
                state.last_playback_snapshot->0.position
            } else {
                state.position
            };
            &&& !source.is_nan_spec() && source.units() > 0 ==> r.position == source
            &&& source.is_nan_spec() || source.units() <= 0 ==> r.position.bits == 0
        }),
{
    numbers::law_at_least_zero(state.position);
    if state.last_playback_snapshot is Some {
        numbers::law_at_least_zero(state.last_playback_snapshot->0.position);
    }
}

/// Two snapshots are the same where their texts are, and their numbers have the same value.
pub proof fn law_same_snapshots(
    a: &MetadataSnapshot,
    b: &MetadataSnapshot,
    c: &PlaybackSnapshot,
    d: &PlaybackSnapshot,
    r: bool,
)
    ensures
        call_ensures(MetadataSnapshot::same_as, (a, b), r) ==> (r <==> {
            &&& a.title@ == b.title@
            &&& a.album_title@ == b.album_title@
            &&& a.artist@ == b.artist@
            &&& a.thumbnail@ == b.thumbnail@
            &&& !a.duration.is_nan_spec()
            &&& !b.duration.is_nan_spec()
            &&& a.duration.units() == b.duration.units()
        }),
        call_ensures(PlaybackSnapshot::same_as, (c, d), r) ==> (r <==> {
            &&& c.playback_status == d.playback_status
            &&& !c.position.is_nan_spec()
            &&& !d.position.is_nan_spec()
            &&& c.position.units() == d.position.units()
        }),
{
}

/// A flush of everything, and one of a new track, sends what is marked as changed or not known to be sent;
/// a flush of one part sends that part alone, and a flush of nothing sends nothing.
pub proof fn law_parts_sent(
    state: &MediaPlayerState,
    metadata: &MetadataSnapshot,
    playback: &PlaybackSnapshot,
    mode: FlushMode,
    known: bool,
    r: bool,
)
    ensures
        call_ensures(MediaPlayerState::should_emit_metadata, (state, metadata, mode), r) ==> {
            let sends = mode is Full || mode is TrackChange || mode is MetadataOnly;
            &&& !sends ==> !r
            &&& sends && state.metadata_dirty ==> r
            &&& sends && state.last_metadata_snapshot is None ==> r
            &&& sends && !state.metadata_dirty ==> (state.last_metadata_snapshot matches Some(last)
                ==> call_ensures(MetadataSnapshot::same_as, (&last, metadata), known) ==> r
                == !known)
        },
        call_ensures(MediaPlayerState::should_emit_playback, (state, playback, mode), r) ==> {
            let sends = mode is Full || mode is TrackChange || mode is PlaybackOnly;
            &&& !sends ==> !r
            &&& sends && state.playback_dirty ==> r
            &&& sends && state.last_playback_snapshot is None ==> r
            &&& sends && !state.playback_dirty ==> (state.last_playback_snapshot matches Some(last)
                ==> call_ensures(PlaybackSnapshot::same_as, (&last, playback), known) ==> r
                == !known)
        },
{
}

/// What a flush sends: the parts that are to be sent, each as it is at the time, and nothing where there is
/// no part or the player is not active.
pub proof fn law_flush(
    state: &MediaPlayerState,
    mode: FlushMode,
    metadata: MetadataSnapshot,
    playback: PlaybackSnapshot,
    sends_metadata: bool,
    sends_playback: bool,
    r: Option<FlushPayload>,
)
    requires
        call_ensures(MediaPlayerState::create_flush_payload, (state, mode), r),
        call_ensures(MediaPlayerState::metadata_snapshot, (state,), metadata),
        call_ensures(MediaPlayerState::playback_snapshot, (state,), playback),
        call_ensures(
            MediaPlayerState::should_emit_metadata,
            (state, &metadata, mode),
            sends_metadata,
        ),
        call_ensures(
            MediaPlayerState::should_emit_playback,
            (state, &playback, mode),
            sends_playback,
        ),
    ensures
        r is Some <==> state.active && (sends_metadata || sends_playback),
        r matches Some(payload) ==> {
            &&& payload.state_revision == state.state_revision
            &&& payload.metadata is Some <==> sends_metadata
            &&& payload.metadata matches Some(sent) ==> sent@ == metadata@
            &&& payload.playback == if sends_playback {
                Some(playback)
            } else {
                None
            }
        },
{
}

/// Metadata and a playback that were sent are known to be sent; they are not marked as changed any more,
/// unless a change came after them.
pub proof fn law_sent_noted(
    state: &mut MediaPlayerState,
    revision: u64,
    metadata: MetadataSnapshot,
    playback: PlaybackSnapshot,
)
    ensures
        call_ensures(MediaPlayerState::mark_metadata_flushed, (state, revision, metadata), ()) ==> {
            &&& (final(state).last_metadata_snapshot matches Some(last) && last@ == metadata@)
            &&& old(state).state_revision == revision ==> !final(state).metadata_dirty
            &&& old(state).state_revision != revision ==> final(state).metadata_dirty == old(
                state,
            ).metadata_dirty
            &&& final(state)@ == (MediaPlayerStateView {
                last_metadata_snapshot: Some(metadata@),
                metadata_dirty: final(state).metadata_dirty,
                ..old(state)@
            })
        },
        call_ensures(MediaPlayerState::mark_playback_flushed, (state, revision, playback), ()) ==> {
            &&& final(state).last_playback_snapshot == Some(playback)
            &&& old(state).state_revision == revision ==> !final(state).playback_dirty
                && !final(state).prefer_last_playback_position_for_status_flush
            &&& old(state).state_revision != revision ==> final(state).playback_dirty == old(
                state,
            ).playback_dirty && final(state).prefer_last_playback_position_for_status_flush == old(
                state,
            ).prefer_last_playback_position_for_status_flush
            &&& final(state)@ == (MediaPlayerStateView {
                last_playback_snapshot: Some(playback),
                playback_dirty: final(state).playback_dirty,
                prefer_last_playback_position_for_status_flush:
                    final(state).prefer_last_playback_position_for_status_flush,
                ..old(state)@
            })
        },
{
}

/// A requested position is accepted exactly by a player that can seek, in a track whose timeline is known,
/// up to its duration, wherever the player is in the track.
pub proof fn law_position_accepted(state: &MediaPlayerState, requested: Double, r: bool)
    requires
        call_ensures(MediaPlayerState::accepts_set_position, (state, requested), r),
    ensures
        r <==> {
            &&& state.can_seek
            &&& !requested.is_nan_spec()
            &&& !state.duration.is_nan_spec()
            &&& requested.units() <= state.duration.units()
            &&& state.position_event_track_revision == state.track_revision
        },
{
}

/// An active player tells each button of the media controls under its own name, where it is able to do it.
pub proof fn law_buttons_told(state: &MediaPlayerState, r: Option<Emission>)
    ensures
        call_ensures(MediaPlayerState::respond, (state, MediaControlEvent::Play), r) ==> r == if state.active
            && state.can_play {
            Some(Emission::ButtonPressed(Button::Play))
        } else {
            None
        },
        call_ensures(MediaPlayerState::respond, (state, MediaControlEvent::Pause), r) ==> r
            == if state.active && state.can_pause {
            Some(Emission::ButtonPressed(Button::Pause))
        } else {
            None
        },
        call_ensures(MediaPlayerState::respond, (state, MediaControlEvent::Toggle), r) ==> r
            == if state.active && (state.can_play || state.can_pause) {
            Some(Emission::ButtonPressed(Button::PlayPause))
        } else {
            None
        },
        call_ensures(MediaPlayerState::respond, (state, MediaControlEvent::Next), r) ==> r == if state.active
            && state.can_go_next {
            Some(Emission::ButtonPressed(Button::Next))
        } else {
            None
        },
        call_ensures(MediaPlayerState::respond, (state, MediaControlEvent::Previous), r) ==> r
            == if state.active && state.can_go_previous {
            Some(Emission::ButtonPressed(Button::Previous))
        } else {
            None
        },
        call_ensures(MediaPlayerState::respond, (state, MediaControlEvent::Stop), r) ==> r == if state.active
            && state.can_control {
            Some(Emission::ButtonPressed(Button::Stop))
        } else {
            None
        },
        call_ensures(MediaPlayerState::respond, (state, MediaControlEvent::Other), r) ==> r is None,
{
}

/// An active player that can seek tells a seek in its direction: forward by the amount, backward by the
/// amount with the sign changed. Without an amount it is fifteen seconds.
pub proof fn law_seeks_told(
    state: &MediaPlayerState,
    direction: SeekDirection,
    amount: Double,
    r: Option<Emission>,
)
    ensures
        call_ensures(
            MediaPlayerState::respond,
            (state, MediaControlEvent::SeekBy(direction, amount)),
            r,
        ) ==> {
            &&& r is Some <==> state.active && state.can_seek
            &&& r is Some ==> (r matches Some(Emission::PositionSeeked(seconds)) && {
                &&& direction is Forward ==> seconds == amount
                &&& direction is Backward ==> seconds.units() == -amount.units() && seconds
                    != amount && seconds.is_nan_spec() == amount.is_nan_spec()
            })
        },
        call_ensures(MediaPlayerState::respond, (state, MediaControlEvent::Seek(direction)), r) ==> {
            &&& r is Some <==> state.active && state.can_seek
            &&& r is Some ==> (r matches Some(Emission::PositionSeeked(seconds)) && {
                &&& !seconds.is_nan_spec()
                &&& direction is Forward ==> seconds.units() == 15 * pow2(1074)
                &&& direction is Backward ==> seconds.units() == -15 * pow2(1074)
            })
        },
{
    numbers::lemma_constants();
    numbers::law_negation(amount, amount);
    numbers::law_negation(numbers::seek_step(), numbers::seek_step());
}

/// An active player tells a requested position that it accepts, as it was requested, and no other one.
pub proof fn law_positions_told(
    state: &MediaPlayerState,
    requested: Double,
    accepted: bool,
    r: Option<Emission>,
)
    requires
        call_ensures(MediaPlayerState::accepts_set_position, (state, requested), accepted),
        call_ensures(
            MediaPlayerState::respond,
            (state, MediaControlEvent::SetPosition(requested)),
            r,
        ),
    ensures
        state.active && accepted ==> r == Some(Emission::PositionChanged(requested)),
        !state.active || !accepted ==> r is None,
{
}

/// An event keeps its kind and its direction, and its amount is told in seconds.
pub proof fn law_event_in_seconds(event: MediaControlEvent<Span>, r: MediaControlEvent<Double>)
    requires
        event.wf(),
        call_ensures(MediaControlEvent::<Span>::in_seconds, (event,), r),
    ensures
        event is Play <==> r is Play,
        event is Pause <==> r is Pause,
        event is Toggle <==> r is Toggle,
        event is Next <==> r is Next,
        event is Previous <==> r is Previous,
        event is Stop <==> r is Stop,
        event is Other <==> r is Other,
        event matches MediaControlEvent::Seek(direction) ==> r == MediaControlEvent::<Double>::Seek(
            direction,
        ),
        event matches MediaControlEvent::SeekBy(direction, amount) ==> (
        r matches MediaControlEvent::SeekBy(same, seconds) && same == direction && seconds.bits
            == span::duration_bits(amount.secs, amount.nanos)),
        event matches MediaControlEvent::SetPosition(position) ==> (
        r matches MediaControlEvent::SetPosition(seconds) && seconds.bits == span::duration_bits(
            position.secs,
            position.nanos,
        )),
{
}

/// An event of the media controls is answered as the event with its amount in seconds.
pub proof fn law_event_answered(
    state: &MediaPlayerState,
    event: MediaControlEvent<Span>,
    in_seconds: MediaControlEvent<Double>,
    answer: Option<Emission>,
    r: Option<Emission>,
)
    requires
        event.wf(),
        call_ensures(MediaControlEvent::<Span>::in_seconds, (event,), in_seconds),
        call_ensures(MediaPlayerState::respond, (state, in_seconds), answer),
        call_ensures(controls::handle_media_control_event, (event, state), r),
    ensures
        r == answer,
{
}

/// The next step of a flush shows the metadata, where they are left to be shown, and the playback
/// otherwise; made, it is not left any more, and is known to be sent.
pub proof fn law_steps<'a>(payload: &'a FlushPayload, r: FlushStep<'a>)
    requires
        call_ensures(FlushPayload::next_step, (payload,), r),
    ensures
        payload.metadata matches Some(snapshot) ==> (r matches FlushStep::SendMetadata(metadata) && {
            &&& metadata.title matches Some(text) ==> text@ == snapshot.title@
            &&& metadata.album matches Some(text) ==> text@ == snapshot.album_title@
            &&& metadata.artist matches Some(text) ==> text@ == snapshot.artist@
            &&& metadata.cover_url matches Some(text) ==> text@ == snapshot.thumbnail@
            &&& metadata.title is None <==> snapshot.title@.len() == 0
            &&& metadata.album is None <==> snapshot.album_title@.len() == 0
            &&& metadata.artist is None <==> snapshot.artist@.len() == 0
            &&& metadata.cover_url is None <==> snapshot.thumbnail@.len() == 0
            &&& metadata.duration == snapshot.duration
        }),
        payload.metadata is None ==> (payload.playback matches Some(snapshot) ==> (
        r matches FlushStep::SendPlayback(playback) && {
            &&& snapshot.playback_status is Playing <==> playback is Playing
            &&& snapshot.playback_status is Paused <==> playback is Paused
            &&& playback matches MediaPlayback::Playing { progress } ==> progress
                == snapshot.position
            &&& playback matches MediaPlayback::Paused { progress } ==> progress
                == snapshot.position
        })),
        payload.metadata is None && payload.playback is None ==> r is Done,
{
    if payload.metadata is Some {
        let metadata = r->SendMetadata_0;
        assert(metadata@.title == controls::ref_view(metadata.title));
        assert(metadata@.album == controls::ref_view(metadata.album));
        assert(metadata@.artist == controls::ref_view(metadata.artist));
        assert(metadata@.cover_url == controls::ref_view(metadata.cover_url));
    }
}

/// A step that was made is not left any more, and what it sent is known to be sent.
pub proof fn law_step_noted(player: &mut MediaPlayer, payload: &mut FlushPayload)
    requires
        call_ensures(MediaPlayer::step_made, (player, payload), ()),
    ensures
        final(payload).metadata is None,
        final(payload).state_revision == old(payload).state_revision,
        old(payload).metadata is Some ==> final(payload).playback == old(payload).playback,
        old(payload).metadata is None ==> final(payload).playback is None,
        old(payload).metadata matches Some(sent) ==> (
        final(player).state.last_metadata_snapshot matches Some(last) && last@ == sent@)
            && final(player).state.last_playback_snapshot == old(
            player,
        ).state.last_playback_snapshot,
        old(payload).metadata is None ==> (old(payload).playback matches Some(sent)
            ==> final(player).state.last_playback_snapshot == Some(sent)),
        old(payload).metadata is None && old(payload).playback is None ==> final(player)@ == old(
            player,
        )@,
        final(player)@.listeners == old(player)@.listeners,
{
}

/// An activation changes nothing but that the player is active, and sends what a full flush of it sends; a
/// deactivation changes nothing but that it is not, and shows it as stopped.
pub proof fn law_activation(
    player: &mut MediaPlayer,
    r: Option<FlushPayload>,
    shown: MediaPlayback,
)
    ensures
        call_ensures(MediaPlayer::activate, (player,), r) ==> {
            &&& final(player).state.active
            &&& final(player)@ == (MediaPlayerView {
                state: MediaPlayerStateView { active: true, ..old(player)@.state },
                ..old(player)@
            })
            &&& old(player).state.metadata_dirty || old(
                player,
            ).state.last_metadata_snapshot is None ==> (r matches Some(payload) && (
            payload.metadata matches Some(metadata) && {
                &&& metadata.title@ == old(player).state.title@
                &&& metadata.artist@ == old(player).state.artist@
                &&& metadata.album_title@ == old(player).state.album_title@
                &&& metadata.thumbnail@ == old(player).state.thumbnail@
            }))
            &&& old(player).state.playback_dirty || old(
                player,
            ).state.last_playback_snapshot is None ==> (r matches Some(payload) && (
            payload.playback matches Some(playback) && playback.playback_status == old(
                player,
            ).state.playback_status))
        },
        call_ensures(MediaPlayer::deactivate, (player,), shown) ==> {
            &&& !final(player).state.active
            &&& final(player)@ == (MediaPlayerView {
                state: MediaPlayerStateView { active: false, ..old(player)@.state },
                ..old(player)@
            })
            &&& shown is Stopped
        },
{
}

/// An update sends what a full flush of the player sends.
pub proof fn law_update(
    player: &MediaPlayer,
    r: Option<FlushPayload>,
    flushed: Option<FlushPayload>,
)
    requires
        call_ensures(MediaPlayer::update, (player,), r),
        call_ensures(MediaPlayerState::create_flush_payload, (&player.state, FlushMode::Full), flushed),
    ensures
        r is None <==> flushed is None,
        r matches Some(payload) ==> payload@ == flushed->0@,
{
}

/// The play button that was set is read back, and nothing else changes.
pub proof fn law_play_button_set(player: &mut MediaPlayer, enabled: bool, read: bool)
    requires
        call_ensures(MediaPlayer::set_play_button_enabled, (player, enabled), ()),
        call_ensures(MediaPlayer::get_play_button_enabled, (final(player),), read),
    ensures
        read == enabled,
        final(player).state.can_play == enabled,
        final(player)@ == (MediaPlayerView {
            state: MediaPlayerStateView { can_play: enabled, ..old(player)@.state },
            ..old(player)@
        }),
{
}

/// The pause button that was set is read back, and nothing else changes.
pub proof fn law_pause_button_set(player: &mut MediaPlayer, enabled: bool, read: bool)
    requires
        call_ensures(MediaPlayer::set_pause_button_enabled, (player, enabled), ()),
        call_ensures(MediaPlayer::get_pause_button_enabled, (final(player),), read),
    ensures
        read == enabled,
        final(player).state.can_pause == enabled,
        final(player)@ == (MediaPlayerView {
            state: MediaPlayerStateView { can_pause: enabled, ..old(player)@.state },
            ..old(player)@
        }),
{
}

/// The stop button that was set is read back, and nothing else changes.
pub proof fn law_stop_button_set(player: &mut MediaPlayer, enabled: bool, read: bool)
    requires
        call_ensures(MediaPlayer::set_stop_button_enabled, (player, enabled), ()),
        call_ensures(MediaPlayer::get_stop_button_enabled, (final(player),), read),
    ensures
        read == enabled,
        final(player).state.can_control == enabled,
        final(player)@ == (MediaPlayerView {
            state: MediaPlayerStateView { can_control: enabled, ..old(player)@.state },
            ..old(player)@
        }),
{
}

/// The previous button that was set is read back, and nothing else changes.
pub proof fn law_previous_button_set(player: &mut MediaPlayer, enabled: bool, read: bool)
    requires
        call_ensures(MediaPlayer::set_previous_button_enabled, (player, enabled), ()),
        call_ensures(MediaPlayer::get_previous_button_enabled, (final(player),), read),
    ensures
        read == enabled,
        final(player).state.can_go_previous == enabled,
        final(player)@ == (MediaPlayerView {
            state: MediaPlayerStateView { can_go_previous: enabled, ..old(player)@.state },
            ..old(player)@
        }),
{
}

/// The next button that was set is read back, and nothing else changes.
pub proof fn law_next_button_set(player: &mut MediaPlayer, enabled: bool, read: bool)
    requires
        call_ensures(MediaPlayer::set_next_button_enabled, (player, enabled), ()),
        call_ensures(MediaPlayer::get_next_button_enabled, (final(player),), read),
    ensures
        read == enabled,
        final(player).state.can_go_next == enabled,
        final(player)@ == (MediaPlayerView {
            state: MediaPlayerStateView { can_go_next: enabled, ..old(player)@.state },
            ..old(player)@
        }),
{
}

/// The ability to seek that was set is read back, and nothing else changes.
pub proof fn law_seek_set(player: &mut MediaPlayer, enabled: bool, read: bool)
    requires
        call_ensures(MediaPlayer::set_seek_enabled, (player, enabled), ()),
        call_ensures(MediaPlayer::get_seek_enabled, (final(player),), read),
    ensures
        read == enabled,
        final(player).state.can_seek == enabled,
        final(player)@ == (MediaPlayerView {
            state: MediaPlayerStateView { can_seek: enabled, ..old(player)@.state },
            ..old(player)@
        }),
{
}

/// The playback rate that was set is read back, and nothing else changes.
pub proof fn law_playback_rate_set(player: &mut MediaPlayer, given: Double, read: Double)
    requires
        call_ensures(MediaPlayer::set_playback_rate, (player, given), ()),
        call_ensures(MediaPlayer::get_playback_rate, (final(player),), read),
    ensures
        read == given,
        final(player)@ == (MediaPlayerView {
            state: MediaPlayerStateView { playback_rate: given, ..old(player)@.state },
            ..old(player)@
        }),
{
}

/// A known media type is set and read back, and nothing else changes; the unknown one is refused.
pub proof fn law_media_type_set(
    player: &mut MediaPlayer,
    given: MediaPlayerMediaType,
    r: Result<(), String>,
    read: MediaPlayerMediaType,
)
    requires
        call_ensures(MediaPlayer::set_media_type, (player, given), r),
        call_ensures(MediaPlayer::get_media_type, (final(player),), read),
    ensures
        r is Err <==> given is Unknown,
        r is Err ==> final(player)@ == old(player)@,
        r is Ok ==> read == given && final(player)@ == (MediaPlayerView {
            state: MediaPlayerStateView { media_type: given, ..old(player)@.state },
            ..old(player)@
        }),
{
}

/// A listener that was added listens, one that was removed does not, and every other one listens as before.
pub proof fn law_listeners_changed(
    player: &mut MediaPlayer,
    name: String,
    callback: usize,
    handle: u64,
    added: bool,
    removed: Option<u64>,
)
    ensures
        call_ensures(MediaPlayer::add_event_listener, (player, name, callback, handle), added)
            || call_ensures(MediaPlayer::on, (player, name, callback, handle), added) ==> {
            let before = old(player).listeners;
            let after = final(player).listeners;
            &&& final(player)@.state == old(player)@.state
            &&& name@ == "buttonpressed"@ ==> listeners::one_added(
                before.button_pressed@,
                after.button_pressed@,
                callback,
                handle,
            ) && added == !before.button_pressed@.contains_key(callback)
            &&& name@ == "positionchanged"@ ==> listeners::one_added(
                before.position_changed@,
                after.position_changed@,
                callback,
                handle,
            ) && added == !before.position_changed@.contains_key(callback)
            &&& name@ == "positionseeked"@ ==> listeners::one_added(
                before.position_seeked@,
                after.position_seeked@,
                callback,
                handle,
            ) && added == !before.position_seeked@.contains_key(callback)
            &&& name@ != "buttonpressed"@ ==> after.button_pressed@ == before.button_pressed@
            &&& name@ != "positionchanged"@ ==> after.position_changed@ == before.position_changed@
            &&& name@ != "positionseeked"@ ==> after.position_seeked@ == before.position_seeked@
        },
        call_ensures(MediaPlayer::remove_event_listener, (player, name, callback), removed)
            || call_ensures(MediaPlayer::off, (player, name, callback), removed) ==> {
            let before = old(player).listeners;
            let after = final(player).listeners;
            &&& final(player)@.state == old(player)@.state
            &&& name@ == "buttonpressed"@ ==> listeners::one_removed(
                before.button_pressed@,
                after.button_pressed@,
                callback,
            ) && removed == before.button_pressed@.get(callback)
            &&& name@ == "positionchanged"@ ==> listeners::one_removed(
                before.position_changed@,
                after.position_changed@,
                callback,
            ) && removed == before.position_changed@.get(callback)
            &&& name@ == "positionseeked"@ ==> listeners::one_removed(
                before.position_seeked@,
                after.position_seeked@,
                callback,
            ) && removed == before.position_seeked@.get(callback)
            &&& name@ != "buttonpressed"@ ==> after.button_pressed@ == before.button_pressed@
            &&& name@ != "positionchanged"@ ==> after.position_changed@ == before.position_changed@
            &&& name@ != "positionseeked"@ ==> after.position_seeked@ == before.position_seeked@
        },
{
    types::law_event_names(name@);
    listeners::law_addition_is_local(old(player).listeners@, name@, callback, handle);
    listeners::law_removal_is_local(old(player).listeners@, name@, callback);
}

/// In the end nobody listens, and nothing else changes.
pub proof fn law_finalized(player: &mut MediaPlayer, callback: usize)
    requires
        call_ensures(MediaPlayer::finalize, (player,), ()),
    ensures
        !final(player).listeners.button_pressed@.contains_key(callback),
        !final(player).listeners.position_changed@.contains_key(callback),
        !final(player).listeners.position_seeked@.contains_key(callback),
        final(player)@.state == old(player)@.state,
{
    listeners::law_nobody_listens_at_first(callback);
    assert(final(player)@.listeners == final(player).listeners@);
}

} // verus!
