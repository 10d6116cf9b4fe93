//! What holds of the state of a media player over several patches and flushes.
use vstd::prelude::*;

use crate::double::Double;
use crate::macos::state::{
    FlushMode, MediaPlayerStateView, MetadataSnapshotView, PlaybackSnapshot, PlaybackStatePatch,
    TitleDataPatchView,
};
use crate::numbers;

verus! {

/// A new player has its revisions in order.
pub proof fn law_initial_in_order()
    ensures
        MediaPlayerStateView::initial().revisions_in_order(),
{
}

/// A patch of what describes the track keeps the revisions in order.
pub proof fn law_title_patch_keeps_order(before: MediaPlayerStateView, patch: TitleDataPatchView)
    requires
        before.revisions_in_order(),
    ensures
        before.title_patched(patch).revisions_in_order(),
{
}

/// A patch of the playback keeps the revisions in order.
pub proof fn law_playback_patch_keeps_order(
    before: MediaPlayerStateView,
    patch: PlaybackStatePatch,
)
    requires
        before.revisions_in_order(),
    ensures
        before.playback_patched(patch).revisions_in_order(),
{
}

/// No revision goes back.
pub proof fn law_revisions_grow(
    before: MediaPlayerStateView,
    title: TitleDataPatchView,
    playback: PlaybackStatePatch,
)
    ensures
        before.title_patched(title).state_revision >= before.state_revision,
        before.title_patched(title).track_revision >= before.track_revision,
        before.playback_patched(playback).state_revision >= before.state_revision,
        before.playback_patched(playback).track_revision == before.track_revision,
{
}

/// During the transition to a track no position that the media service requests is accepted. Left out is
/// a track of the last revision, if positions of that revision were accepted before.
pub proof fn law_transition_refuses_positions(
    state: MediaPlayerStateView,
    requested_seconds: Double,
)
    requires
        state.revisions_in_order(),
        state.track_transition_pending,
        state.track_revision < u64::MAX || state.position_event_track_revision < u64::MAX,
    ensures
        !state.accepts_set_position(requested_seconds),
{
}

/// A transition lasts until a patch of the playback ends it: no patch of what describes the track does,
/// and no patch of the playback without a position or a new duration.
pub proof fn law_transition_lasts(
    before: MediaPlayerStateView,
    title: TitleDataPatchView,
    playback: PlaybackStatePatch,
)
    requires
        before.track_transition_pending,
    ensures
        before.title_patched(title).track_transition_pending,
        before.playback_patched(playback).track_transition_pending
            <==> !before.completes_transition(playback),
        before.completes_transition(playback) <==> playback.position is Some
            || before.duration_changes(playback),
{
}

/// A change of the track starts a transition: at once, no position that the media service requests is
/// accepted. Left out is a track of the last revision whose timeline is known: the next track has the
/// same revision.
pub proof fn law_track_change_refuses_positions(
    before: MediaPlayerStateView,
    patch: TitleDataPatchView,
    requested_seconds: Double,
)
    requires
        before.revisions_in_order(),
        before.track_changes(patch),
        before.track_revision < u64::MAX || before.position_event_track_revision < u64::MAX,
    ensures
        before.title_patched(patch).track_transition_pending,
        !before.title_patched(patch).accepts_set_position(requested_seconds),
{
}

/// A patch with a position ends the transition to a track: from then on the positions within the track
/// are accepted, if the player can seek.
pub proof fn law_position_completes_transition(
    before: MediaPlayerStateView,
    patch: PlaybackStatePatch,
    requested_seconds: Double,
)
    requires
        before.revisions_in_order(),
        patch.position is Some,
    ensures
        !before.playback_patched(patch).track_transition_pending,
        before.completes_transition(patch) <==> before.track_transition_pending,
        before.playback_patched(patch).accepts_set_position(requested_seconds) <==> {
            &&& before.can_seek
            &&& requested_seconds.le(before.playback_patched(patch).duration)
        },
{
}

/// A new track has no duration and no position until a patch brings them, and what was sent of the track
/// before is sent anew.
pub proof fn law_track_change_resets_timeline(
    before: MediaPlayerStateView,
    patch: TitleDataPatchView,
)
    requires
        before.track_changes(patch),
    ensures
        ({
            let after = before.title_patched(patch);
            &&& after.track_id == patch.track_id->0
            &&& after.duration == numbers::zero()
            &&& after.position == numbers::zero()
            &&& after.playback_snapshot().position == numbers::zero()
            &&& after.track_transition_pending
            &&& after.metadata_dirty
            &&& after.playback_dirty
        }),
{
}

/// After a change of the status alone, the position that is sent is the one that was sent last.
pub proof fn law_status_change_keeps_position(
    before: MediaPlayerStateView,
    patch: PlaybackStatePatch,
    last: PlaybackSnapshot,
)
    requires
        before.last_playback_snapshot == Some(last),
        !before.track_transition_pending,
        before.status_changes(patch),
        patch.position is None,
        !before.duration_changes(patch),
    ensures
        before.playback_patched(patch).playback_snapshot() == (PlaybackSnapshot {
            playback_status: patch.playback_status->0,
            position: last.position.at_least_zero_spec(),
        }),
{
}

/// A patch of what describes the track that brings nothing new changes nothing.
pub proof fn law_same_title_changes_nothing(
    before: MediaPlayerStateView,
    patch: TitleDataPatchView,
)
    requires
        !before.title_changes(patch),
    ensures
        before.title_patched(patch) == before,
{
}

/// A patch of the playback that brings nothing new changes nothing, unless its position ends a transition
/// or takes the place of the one that was sent last.
pub proof fn law_same_playback_changes_nothing(
    before: MediaPlayerStateView,
    patch: PlaybackStatePatch,
)
    requires
        !before.playback_changes(patch),
        patch.position is None || (!before.track_transition_pending
            && !before.prefer_last_playback_position_for_status_flush),
    ensures
        before.playback_patched(patch) == before,
{
}

/// What a player sends is never below zero, and always a number.
pub proof fn law_snapshots_not_negative(state: MediaPlayerStateView)
    ensures
        numbers::zero().le(state.metadata_snapshot().duration),
        numbers::zero().le(state.playback_snapshot().position),
{
    numbers::lemma_constants();
}

/// A player that is not active sends nothing, and neither does a flush of nothing.
pub proof fn law_nothing_to_send(state: MediaPlayerStateView, mode: FlushMode)
    requires
        !state.active || mode is Nothing,
    ensures
        state.flush_payload(mode) is None,
        state.flushed(mode) == state,
{
}

/// A change of what describes the track is sent by every flush that may send it.
pub proof fn law_title_change_is_sent(
    before: MediaPlayerStateView,
    patch: TitleDataPatchView,
    mode: FlushMode,
)
    requires
        before.active,
        before.title_changes(patch),
        mode.sends_metadata_spec(),
    ensures
        ({
            let after = before.title_patched(patch);
            after.flush_payload(mode) matches Some(payload) && payload.metadata == Some(
                after.metadata_snapshot(),
            )
        }),
{
}

/// A change of the playback is sent by every flush that may send it.
pub proof fn law_playback_change_is_sent(
    before: MediaPlayerStateView,
    patch: PlaybackStatePatch,
    mode: FlushMode,
)
    requires
        before.active,
        before.playback_changes(patch),
        mode.sends_playback_spec(),
    ensures
        ({
            let after = before.playback_patched(patch);
            after.flush_payload(mode) matches Some(payload) && payload.playback == Some(
                after.playback_snapshot(),
            )
        }),
{
}

/// A change that comes while older values are sent stays marked. The last revision is left out: a change
/// does not raise it.
pub proof fn law_late_flush_keeps_changes(
    before: MediaPlayerStateView,
    title: TitleDataPatchView,
    playback: PlaybackStatePatch,
    metadata: MetadataSnapshotView,
    snapshot: PlaybackSnapshot,
)
    requires
        before.state_revision < u64::MAX,
    ensures
        before.title_changes(title) ==> before.title_patched(title).metadata_flushed(
            before.state_revision,
            metadata,
        ).metadata_dirty,
        before.playback_changes(playback) ==> before.playback_patched(playback).playback_flushed(
            before.state_revision,
            snapshot,
        ).playback_dirty,
{
}

/// After a full flush, nothing is left to send. Left out is a flush that sends, after a change of the
/// status alone, a position that is no longer the current one: the current one is still to be sent.
pub proof fn law_full_flush_settles(state: MediaPlayerStateView)
    requires
        state.active && state.emits_playback(state.playback_snapshot(), FlushMode::Full)
            ==> state.playback_snapshot().position == state.position.at_least_zero_spec(),
    ensures
        state.flushed(FlushMode::Full).flush_payload(FlushMode::Full) is None,
{
    law_snapshots_not_negative(state);
    let after = state.flushed(FlushMode::Full);
    assert(after.metadata_snapshot() == state.metadata_snapshot());
    if state.active {
        assert(after.playback_snapshot().playback_status
            == state.playback_snapshot().playback_status);
    }
}

/// A flush changes nothing but what is known to be sent.
pub proof fn law_flush_keeps_state(state: MediaPlayerStateView, mode: FlushMode)
    ensures
        state.flushed(mode) == (MediaPlayerStateView {
            metadata_dirty: state.flushed(mode).metadata_dirty,
            playback_dirty: state.flushed(mode).playback_dirty,
            prefer_last_playback_position_for_status_flush: state.flushed(
                mode,
            ).prefer_last_playback_position_for_status_flush,
            last_metadata_snapshot: state.flushed(mode).last_metadata_snapshot,
            last_playback_snapshot: state.flushed(mode).last_playback_snapshot,
            ..state
        }),
{
}

} // verus!
