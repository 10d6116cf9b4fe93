//! What the operations of a media player do, in terms of what they are given and what they return.
use vstd::arithmetic::power2::*;
use vstd::prelude::*;

use crate::double::Double;
use crate::listeners;
use crate::numbers;
use crate::span;
use crate::span::Span;
use crate::types;
use crate::types::{
    Button, Emission, MediaPlayerMediaType, MediaPlayerPlaybackStatus, MediaPlayerThumbnailType,
};
use crate::windows::controls;
use crate::windows::controls::{
    MediaPlaybackStatus, MediaPlaybackType, SystemMediaTransportControlsButton, ThumbnailSource,
    TimelineProperties,
};
use crate::windows::player::{MediaPlayer, MediaPlayerView};
use crate::windows::time;

verus! {

/// What is shown of a player is what it holds, each under its own name.
pub proof fn law_player_shown(player: MediaPlayer)
    ensures
        player@.listeners == player.listeners@,
        player@.seek_enabled == player.seek_enabled,
        player@.track_id == player.track_id@,
{
}

/// A new player can seek, has no track, and nobody listens to it.
pub proof fn law_new_player(r: MediaPlayer, callback: usize)
    requires
        call_ensures(MediaPlayer::new, (), r),
    ensures
        r.seek_enabled,
        r.track_id@.len() == 0,
        !r.listeners.button_pressed@.contains_key(callback),
        !r.listeners.position_changed@.contains_key(callback),
        !r.listeners.position_seeked@.contains_key(callback),
{
    listeners::law_nobody_listens_at_first(callback);
    assert(r@.listeners == r.listeners@);
}

/// Each status that is set is shown under its own name, and the unknown one is refused.
pub proof fn law_status_set(
    player: &mut MediaPlayer,
    given: MediaPlayerPlaybackStatus,
    r: Result<MediaPlaybackStatus, String>,
)
    requires
        call_ensures(MediaPlayer::set_playback_status, (player, given), r),
    ensures
        given is Playing <==> r == Ok::<MediaPlaybackStatus, String>(MediaPlaybackStatus::Playing),
        given is Paused <==> r == Ok::<MediaPlaybackStatus, String>(MediaPlaybackStatus::Paused),
        given is Stopped <==> r == Ok::<MediaPlaybackStatus, String>(MediaPlaybackStatus::Stopped),
        given is Unknown <==> r is Err,
        final(player)@ == old(player)@,
{
}

/// Each status that is shown is read under its own name; one that no player sets is unknown.
pub proof fn law_status_read(
    player: &MediaPlayer,
    shown: MediaPlaybackStatus,
    r: MediaPlayerPlaybackStatus,
)
    requires
        call_ensures(MediaPlayer::get_playback_status, (player, shown), r),
    ensures
        shown is Playing <==> r is Playing,
        shown is Paused <==> r is Paused,
        shown is Stopped <==> r is Stopped,
        shown is Closed || shown is Changing <==> r is Unknown,
{
}

/// Statuses are shown and read by name.
pub proof fn law_statuses_by_name(
    status: MediaPlayerPlaybackStatus,
    shown: MediaPlaybackStatus,
)
    ensures
        status is Playing <==> controls::shown_status(status) == Some(MediaPlaybackStatus::Playing),
        status is Paused <==> controls::shown_status(status) == Some(MediaPlaybackStatus::Paused),
        status is Stopped <==> controls::shown_status(status) == Some(MediaPlaybackStatus::Stopped),
        shown is Playing <==> controls::status_shown(shown) is Playing,
        shown is Paused <==> controls::status_shown(shown) is Paused,
        shown is Stopped <==> controls::status_shown(shown) is Stopped,
{
}

/// Music is shown as music and read as music; the unknown type is refused, and any other kind of media is
/// read as unknown.
pub proof fn law_media_types(
    player: &mut MediaPlayer,
    given: MediaPlayerMediaType,
    r: Result<MediaPlaybackType, String>,
    shown: MediaPlaybackType,
    read: MediaPlayerMediaType,
)
    requires
        call_ensures(MediaPlayer::set_media_type, (player, given), r),
        call_ensures(MediaPlayer::get_media_type, (final(player), shown), read),
    ensures
        given is Music <==> r == Ok::<MediaPlaybackType, String>(MediaPlaybackType::Music),
        given is Unknown <==> r is Err,
        shown is Music <==> read is Music,
        final(player)@ == old(player)@,
{
}

/// A deactivated player is shown as closed, which is read as no status that was set.
pub proof fn law_deactivated(
    player: &MediaPlayer,
    shown: MediaPlaybackStatus,
    read: MediaPlayerPlaybackStatus,
)
    requires
        call_ensures(MediaPlayer::deactivate, (player,), shown),
        call_ensures(MediaPlayer::get_playback_status, (player, shown), read),
    ensures
        shown is Closed,
        read is Unknown,
{
}

/// A timeline whose position lies from zero up to the duration is shown as it is given, from zero up to the
/// duration, all of which can be reached; the player stays as it is.
pub proof fn law_timeline_set(
    player: &mut MediaPlayer,
    duration: Double,
    position: Double,
    r: Result<TimelineProperties, String>,
)
    requires
        call_ensures(MediaPlayer::set_timeline, (player, duration, position), r),
    ensures
        !duration.is_nan_spec() && !position.is_nan_spec() ==> (r is Ok <==> 0 <= position.units()
            <= duration.units()),
        r matches Ok(shown) ==> {
            &&& shown.position == position
            &&& shown.end_time == duration
            &&& shown.max_seek_time == duration
            &&& shown.start_time.bits == 0
            &&& shown.min_seek_time.bits == 0
        },
        final(player)@ == old(player)@,
{
    numbers::law_timeline_faults(duration, position);
}

/// Each button is told under its own name, whether or not the player can seek.
pub proof fn law_buttons_told(player: &MediaPlayer, r: Option<Emission>)
    ensures
        call_ensures(
            MediaPlayer::button_pressed,
            (player, SystemMediaTransportControlsButton::Play),
            r,
        ) ==> r == Some(Emission::ButtonPressed(Button::Play)),
        call_ensures(
            MediaPlayer::button_pressed,
            (player, SystemMediaTransportControlsButton::Pause),
            r,
        ) ==> r == Some(Emission::ButtonPressed(Button::Pause)),
        call_ensures(
            MediaPlayer::button_pressed,
            (player, SystemMediaTransportControlsButton::Stop),
            r,
        ) ==> r == Some(Emission::ButtonPressed(Button::Stop)),
        call_ensures(
            MediaPlayer::button_pressed,
            (player, SystemMediaTransportControlsButton::Next),
            r,
        ) ==> r == Some(Emission::ButtonPressed(Button::Next)),
        call_ensures(
            MediaPlayer::button_pressed,
            (player, SystemMediaTransportControlsButton::Previous),
            r,
        ) ==> r == Some(Emission::ButtonPressed(Button::Previous)),
        call_ensures(
            MediaPlayer::button_pressed,
            (player, SystemMediaTransportControlsButton::Other),
            r,
        ) ==> r is None,
{
}

/// Fast forward is told as a seek of fifteen seconds ahead, rewind as one of fifteen seconds back, by a
/// player that can seek; any other one tells nothing.
pub proof fn law_seeks_told(player: &MediaPlayer, r: Option<Emission>)
    ensures
        call_ensures(
            MediaPlayer::button_pressed,
            (player, SystemMediaTransportControlsButton::FastForward),
            r,
        ) ==> {
            &&& !player.seek_enabled ==> r is None
            &&& player.seek_enabled ==> (r matches Some(Emission::PositionSeeked(seconds))
                && !seconds.is_nan_spec() && seconds.units() == 15 * pow2(1074))
        },
        call_ensures(
            MediaPlayer::button_pressed,
            (player, SystemMediaTransportControlsButton::Rewind),
            r,
        ) ==> {
            &&& !player.seek_enabled ==> r is None
            &&& player.seek_enabled ==> (r matches Some(Emission::PositionSeeked(seconds))
                && !seconds.is_nan_spec() && seconds.units() == -15 * pow2(1074))
        },
{
    numbers::lemma_constants();
    numbers::law_negation(numbers::seek_step(), numbers::seek_step());
}

/// A pressed button is answered as the button alone, with what the player allows.
pub proof fn law_button_dispatched(
    player: &MediaPlayer,
    button: SystemMediaTransportControlsButton,
    r: Option<Emission>,
    answer: Option<Emission>,
)
    requires
        call_ensures(MediaPlayer::button_pressed, (player, button), r),
        call_ensures(controls::dispatch_smtc_button, (button, player.seek_enabled), answer),
    ensures
        r == answer,
{
}

/// A requested position is told as it is requested, by a player that can seek.
pub proof fn law_position_told(seconds: Double, seek_enabled: bool, r: Option<Emission>)
    requires
        call_ensures(controls::position_requested, (seconds, seek_enabled), r),
    ensures
        seek_enabled ==> r == Some(Emission::PositionChanged(seconds)),
        !seek_enabled ==> r is None,
{
}

/// A position that is requested as a time span, which counts steps of 100 nanoseconds, is told in seconds,
/// by a player that can seek.
pub proof fn law_requested_position_told(
    player: &MediaPlayer,
    requested: i64,
    r: Option<Emission>,
)
    requires
        call_ensures(MediaPlayer::position_change_requested, (player, requested), r),
        0 <= requested * 100 <= i64::MAX,
    ensures
        player.seek_enabled ==> (r matches Some(Emission::PositionChanged(seconds)) && seconds.bits
            == span::duration_bits(
            (requested as int / 10_000_000) as u64,
            (requested as int % 10_000_000 * 100) as u32,
        )),
        !player.seek_enabled ==> r is None,
{
    let n = requested * 100;
    assert(n / 1_000_000_000 == requested as int / 10_000_000);
    assert(n % 1_000_000_000 == requested as int % 10_000_000 * 100);
}

/// A time span counts the whole steps of 100 nanoseconds in a span of time, where these fit its 64 bits.
pub proof fn law_steps_counted(span: Span, r: i64)
    requires
        span.wf(),
        call_ensures(time::secs_to_timespan, (span,), r),
        span.secs * 1_000_000_000 + span.nanos < 100 * 0x8000_0000_0000_0000,
    ensures
        100 * r <= span.secs * 1_000_000_000 + span.nanos < 100 * r + 100,
        0 <= r,
{
    let n = span.secs * 1_000_000_000 + span.nanos;
    assert(0 <= n / 100 <= i64::MAX);
    assert(r == n / 100);
}

/// A span of time has the nanoseconds of the time span that it is made from, 100 for each step, and less than
/// a second of them apart.
pub proof fn law_span_made(timespan: i64, r: Span)
    requires
        call_ensures(time::timespan_to_span, (timespan,), r),
        0 <= timespan * 100 <= i64::MAX,
    ensures
        r.secs * 1_000_000_000 + r.nanos == timespan * 100,
        r.nanos < 1_000_000_000,
{
    let n = timespan * 100;
    assert(n / 1_000_000_000 * 1_000_000_000 + n % 1_000_000_000 == n);
}

/// A time span below zero wraps around: its nanoseconds are taken for those of an unsigned number of 64 bits.
pub proof fn law_span_wraps(timespan: i64, r: Span)
    requires
        call_ensures(time::timespan_to_span, (timespan,), r),
        i64::MIN <= timespan * 100 < 0,
    ensures
        r.secs * 1_000_000_000 + r.nanos == timespan * 100 + 0x1_0000_0000_0000_0000,
        r.nanos < 1_000_000_000,
{
    let below: i64 = (timespan * 100) as i64;
    assert(below as u64 == below + 0x1_0000_0000_0000_0000) by (bit_vector)
        requires
            below < 0,
    ;
    let n = timespan * 100 + 0x1_0000_0000_0000_0000;
    assert(time::step_nanoseconds(timespan) == n);
    assert(n / 1_000_000_000 * 1_000_000_000 + n % 1_000_000_000 == n);
}

/// A longer span of time has no smaller time span, where both fit.
pub proof fn law_steps_in_order(a: Span, b: Span, r: i64, s: i64)
    requires
        a.wf(),
        b.wf(),
        call_ensures(time::secs_to_timespan, (a,), r),
        call_ensures(time::secs_to_timespan, (b,), s),
        a.secs * 1_000_000_000 + a.nanos <= b.secs * 1_000_000_000 + b.nanos,
        b.secs * 1_000_000_000 + b.nanos < 100 * 0x8000_0000_0000_0000,
    ensures
        r <= s,
{
    law_steps_counted(a, r);
    law_steps_counted(b, s);
}

/// Exactly the time spans whose nanoseconds fit a signed number of 64 bits can be converted.
pub proof fn law_convertible(timespan: i64)
    ensures
        time::is_convertible(timespan) <==> -0x8000_0000_0000_0000 <= timespan * 100
            <= 0x7fff_ffff_ffff_ffff,
{
}

/// Where a thumbnail is found, by its type.
pub proof fn law_thumbnail_found(
    thumbnail_type: MediaPlayerThumbnailType,
    thumbnail: String,
    r: Result<ThumbnailSource, String>,
)
    requires
        call_ensures(controls::thumbnail_source, (thumbnail_type, thumbnail), r),
    ensures
        thumbnail_type is File <==> (r matches Ok(ThumbnailSource::File(path)) && path@
            == thumbnail@),
        thumbnail_type is Uri <==> (r matches Ok(ThumbnailSource::Uri(uri)) && uri@ == thumbnail@),
        thumbnail_type is Unknown <==> r is Err,
{
}

/// The ability to seek that was set is read back, and nothing else changes.
pub proof fn law_seek_set(player: &mut MediaPlayer, enabled: bool, read: bool)
    requires
        call_ensures(MediaPlayer::set_seek_enabled, (player, enabled), ()),
        call_ensures(MediaPlayer::get_seek_enabled, (final(player),), read),
    ensures
        read == enabled,
        final(player)@ == (MediaPlayerView { seek_enabled: enabled, ..old(player)@ }),
{
}

/// The track id that was set is read back, and nothing else changes.
pub proof fn law_track_id_set(player: &mut MediaPlayer, given: String, read: String)
    requires
        call_ensures(MediaPlayer::set_track_id, (player, given), ()),
        call_ensures(MediaPlayer::get_track_id, (final(player),), read),
    ensures
        read@ == given@,
        final(player)@ == (MediaPlayerView { track_id: given@, ..old(player)@ }),
{
}

/// A listener that was added listens, one that was removed does not, and every other one listens as before.
pub proof fn law_listeners_changed(
    player: &mut MediaPlayer,
    name: String,
    callback: usize,
    handle: u64,
    added: bool,
    removed: Option<u64>,
)
    ensures
        call_ensures(MediaPlayer::add_event_listener, (player, name, callback, handle), added)
            || call_ensures(MediaPlayer::on, (player, name, callback, handle), added) ==> {
            let before = old(player).listeners;
            let after = final(player).listeners;
            &&& final(player).seek_enabled == old(player).seek_enabled
            &&& final(player).track_id@ == old(player).track_id@
            &&& name@ == "buttonpressed"@ ==> listeners::one_added(
                before.button_pressed@,
                after.button_pressed@,
                callback,
                handle,
            ) && added == !before.button_pressed@.contains_key(callback)
            &&& name@ == "positionchanged"@ ==> listeners::one_added(
                before.position_changed@,
                after.position_changed@,
                callback,
                handle,
            ) && added == !before.position_changed@.contains_key(callback)
            &&& name@ == "positionseeked"@ ==> listeners::one_added(
                before.position_seeked@,
                after.position_seeked@,
                callback,
                handle,
            ) && added == !before.position_seeked@.contains_key(callback)
            &&& name@ != "buttonpressed"@ ==> after.button_pressed@ == before.button_pressed@
            &&& name@ != "positionchanged"@ ==> after.position_changed@ == before.position_changed@
            &&& name@ != "positionseeked"@ ==> after.position_seeked@ == before.position_seeked@
        },
        call_ensures(MediaPlayer::remove_event_listener, (player, name, callback), removed)
            || call_ensures(MediaPlayer::off, (player, name, callback), removed) ==> {
            let before = old(player).listeners;
            let after = final(player).listeners;
            &&& final(player).seek_enabled == old(player).seek_enabled
            &&& final(player).track_id@ == old(player).track_id@
            &&& name@ == "buttonpressed"@ ==> listeners::one_removed(
                before.button_pressed@,
                after.button_pressed@,
                callback,
            ) && removed == before.button_pressed@.get(callback)
            &&& name@ == "positionchanged"@ ==> listeners::one_removed(
                before.position_changed@,
                after.position_changed@,
                callback,
            ) && removed == before.position_changed@.get(callback)
            &&& name@ == "positionseeked"@ ==> listeners::one_removed(
                before.position_seeked@,
                after.position_seeked@,
                callback,
            ) && removed == before.position_seeked@.get(callback)
            &&& name@ != "buttonpressed"@ ==> after.button_pressed@ == before.button_pressed@
            &&& name@ != "positionchanged"@ ==> after.position_changed@ == before.position_changed@
            &&& name@ != "positionseeked"@ ==> after.position_seeked@ == before.position_seeked@
        },
{
    types::law_event_names(name@);
    listeners::law_addition_is_local(old(player).listeners@, name@, callback, handle);
    listeners::law_removal_is_local(old(player).listeners@, name@, callback);
}

/// In the end nobody listens, and nothing else changes.
pub proof fn law_finalized(player: &mut MediaPlayer, callback: usize)
    requires
        call_ensures(MediaPlayer::finalize, (player,), ()),
    ensures
        !final(player).listeners.button_pressed@.contains_key(callback),
        !final(player).listeners.position_changed@.contains_key(callback),
        !final(player).listeners.position_seeked@.contains_key(callback),
        final(player).seek_enabled == old(player).seek_enabled,
        final(player).track_id@ == old(player).track_id@,
{
    listeners::law_nobody_listens_at_first(callback);
    assert(final(player)@.listeners == final(player).listeners@);
}

} // verus!
