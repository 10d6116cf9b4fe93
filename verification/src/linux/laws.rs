//! What holds of a media player on a message bus, in terms of what it was given and what it answers.
use std::time::Instant;
use vstd::arithmetic::power2::*;
use vstd::prelude::*;

use crate::conversion;
use crate::double::Double;
use crate::linux::mpris;
use crate::linux::mpris::{MethodError, MethodErrorView, MprisPlayer, MprisPlayerView};
use crate::linux::names;
use crate::linux::player;
use crate::linux::player::{MediaPlayer, MediaPlayerView};
use crate::linux::properties::{
    MetadataValue, MetadataValueView, PropertyMap, PropertyValue, PropertyValueView,
};
use crate::linux::session;
use crate::linux::session::{
    DBusSession, DBusSessionView, ReleaseNameReply, RequestNameReply, SessionAction,
    SessionActionView, SessionEvent, SessionEventView, SessionPhase, SessionPhaseView,
};
use crate::linux::state::{MprisPlayerState, MprisPlayerStateView};
use crate::listeners;
use crate::listeners::EventListenersView;
use crate::numbers;
use crate::span;
use crate::text;
use crate::types;
use crate::types::{
    Button, Emission, MediaPlayerMediaType, MediaPlayerPlaybackStatus, MediaPlayerThumbnail,
};

verus! {

/// An instance name is the cleaned text, with one letter before a digit at its start.
pub proof fn law_instance_name(raw: Seq<char>)
    requires
        text::has_alphanumeric(raw),
    ensures
        ({
            let name = names::instance_name(raw);
            let plain = text::cleaned(raw, true);
            &&& plain.len() > 0
            &&& 48 <= plain[0] as u32 <= 57 ==> name.len() == plain.len() + 1 && name[0] == 'p'
                && name.skip(1) == plain
            &&& !(48 <= plain[0] as u32 <= 57) ==> name == plain
            &&& !(48 <= name[0] as u32 <= 57)
            &&& name.len() <= raw.len() + 1
        }),
{
    text::lemma_cleaned(raw, true);
    reveal_strlit("p");
    let plain = text::cleaned(raw, true);
    assert(("p"@ + plain).skip(1) =~= plain);
    lemma_cleaned_length(raw, true);
}

/// A player that is named by letters and digits, a letter first, keeps its name.
pub proof fn law_plain_name_kept(raw: Seq<char>)
    requires
        raw.len() > 0,
        forall|i: int| 0 <= i < raw.len() ==> text::is_alphanumeric(#[trigger] raw[i]),
        !text::is_digit(raw[0]),
    ensures
        names::instance_name(raw) == raw,
{
    text::lemma_cleaned_fixed(raw, true);
}

/// Cleaning makes no text longer.
proof fn lemma_cleaned_length(s: Seq<char>, hyphens: bool)
    ensures
        text::cleaned(s, hyphens).len() <= s.len(),
{
    let a = text::substituted(s, hyphens);
    lemma_collapsed_length(a);
    let b = text::collapsed(a);
    lemma_trimmed_length(b, hyphens);
    lemma_trimmed_length(text::trimmed_start(b, hyphens), hyphens);
}

proof fn lemma_collapsed_length(s: Seq<char>)
    ensures
        text::collapsed(s).len() <= s.len(),
    decreases s.len(),
{
    if s.len() > 0 {
        lemma_collapsed_length(s.drop_last());
    }
}

proof fn lemma_trimmed_length(s: Seq<char>, hyphens: bool)
    ensures
        text::trimmed_start(s, hyphens).len() <= s.len(),
        text::trimmed_end(s, hyphens).len() <= s.len(),
    decreases s.len(),
{
    if s.len() > 0 {
        lemma_trimmed_length(s.drop_first(), hyphens);
        lemma_trimmed_length(s.drop_last(), hyphens);
    }
}

/// A bus name is the name of the standard, followed by the instance name; two instances share none.
pub proof fn law_bus_names(a: Seq<char>, b: Seq<char>)
    ensures
        names::bus_name(a) == "org.mpris.MediaPlayer2."@ + a,
        names::bus_name(a) == names::bus_name(b) <==> a == b,
{
    let prefix = "org.mpris.MediaPlayer2."@;
    assert((prefix + a).skip(prefix.len() as int) =~= a);
    assert((prefix + b).skip(prefix.len() as int) =~= b);
}

/// A track with a letter or digit in its id has a path of its own prefix and the cleaned id; another one
/// has the path of no track.
pub proof fn law_track_paths(state: MprisPlayerStateView)
    ensures
        text::has_alphanumeric(state.track_id) ==> state.track_object_path()
            == "/xosms/trackid/"@ + text::cleaned(state.track_id, false),
        !text::has_alphanumeric(state.track_id) ==> state.track_object_path()
            == "/org/mpris/MediaPlayer2/TrackList/NoTrack"@,
{
    text::lemma_cleaned(state.track_id, false);
}

/// A track whose id is made of letters and digits alone is found under that id, and under no other.
pub proof fn law_plain_track_paths(a: MprisPlayerStateView, b: MprisPlayerStateView)
    requires
        a.track_id.len() > 0,
        b.track_id.len() > 0,
        forall|i: int| 0 <= i < a.track_id.len() ==> text::is_alphanumeric(#[trigger] a.track_id[i]),
        forall|i: int| 0 <= i < b.track_id.len() ==> text::is_alphanumeric(#[trigger] b.track_id[i]),
    ensures
        a.track_object_path() == "/xosms/trackid/"@ + a.track_id,
        a.track_object_path() == b.track_object_path() <==> a.track_id == b.track_id,
{
    text::lemma_cleaned_fixed(a.track_id, false);
    text::lemma_cleaned_fixed(b.track_id, false);
    let prefix = "/xosms/trackid/"@;
    assert((prefix + a.track_id).skip(prefix.len() as int) =~= a.track_id);
    assert((prefix + b.track_id).skip(prefix.len() as int) =~= b.track_id);
}

/// A new player holds its identity and nothing else: it can be controlled, and do nothing.
pub proof fn law_new_player(identity: Seq<char>, at: Instant)
    ensures
        ({
            let state = MprisPlayerStateView::initial(identity, at);
            &&& state.identity == identity
            &&& state.last_updated_position == at
            &&& state.can_control
            &&& !state.can_go_next
            &&& !state.can_go_previous
            &&& !state.can_play
            &&& !state.can_pause
            &&& !state.can_seek
            &&& state.media_type is Unknown
            &&& state.playback_status is Unknown
            &&& state.thumbnail.len() == 0
            &&& state.artist.len() == 0
            &&& state.album_title.len() == 0
            &&& state.title.len() == 0
            &&& state.track_id.len() == 0
            &&& state.position.bits == 0
            &&& state.duration.bits == 0
            &&& state.volume.units() == pow2(1074)
            &&& state.playback_rate.units() == pow2(1074)
            &&& state.track_object_path() == "/org/mpris/MediaPlayer2/TrackList/NoTrack"@
        }),
{
    numbers::lemma_constants();
    law_track_paths(MprisPlayerStateView::initial(identity, at));
}

/// A requested position is accepted exactly by a player that can seek, for its current track, from zero
/// up to the duration. What is not a number has nothing above it.
pub proof fn law_position_accepted(
    state: MprisPlayerStateView,
    track_id: Seq<char>,
    position: int,
    requested: Double,
)
    ensures
        state.accepts_position(track_id, position, requested) <==> {
            &&& state.can_seek
            &&& position >= 0
            &&& track_id == state.track_object_path()
            &&& state.duration.is_nan_spec() || requested.is_nan_spec() || requested.units()
                <= state.duration.units()
        },
{
}

/// Whether a position is accepted rests on the track, its duration and the ability to seek alone: two
/// players that share these accept the same, wherever they are in the track and whatever else they hold.
pub proof fn law_acceptance_rests_on_track(
    a: MprisPlayerStateView,
    b: MprisPlayerStateView,
    track_id: Seq<char>,
    position: int,
    requested: Double,
)
    requires
        a.can_seek == b.can_seek,
        a.duration == b.duration,
        a.track_id == b.track_id,
    ensures
        a.accepts_position(track_id, position, requested) == b.accepts_position(
            track_id,
            position,
            requested,
        ),
{
}

/// A position in microseconds is told as the seconds of the duration of that length.
pub proof fn law_position_in_seconds(position: int)
    requires
        0 <= position <= i64::MAX,
    ensures
        ({
            let secs = (position / 1_000_000) as u64;
            let nanos = (position % 1_000_000 * 1000) as u32;
            &&& mpris::position_seconds(position).bits == span::duration_bits(secs, nanos)
            &&& secs * 1_000_000_000 + nanos == position * 1000
            &&& nanos < 1_000_000_000
        }),
{
}

/// A button is told where it is allowed, and nothing is told where it is not.
pub proof fn law_allowed_buttons(allowed: bool, button: Button)
    ensures
        allowed ==> mpris::button_if(allowed, button) == Some(Emission::ButtonPressed(button)),
        !allowed ==> mpris::button_if(allowed, button) is None,
{
}

/// A requested rate from one quarter to two is taken over, every other one is not, and nothing but the
/// rate changes.
pub proof fn law_requested_rates(state: MprisPlayerStateView, value: Double)
    ensures
        ({
            let accepted = !value.is_nan_spec() && pow2(1074) <= 4 * value.units()
                && value.units() <= 2 * pow2(1074);
            let after = state.rate_requested(value);
            &&& accepted ==> after.playback_rate == value
            &&& !accepted ==> after.playback_rate == state.playback_rate
            &&& after == (MprisPlayerStateView { playback_rate: after.playback_rate, ..state })
        }),
{
    numbers::lemma_constants();
    lemma_pow2_pos(1074);
}

/// A new position is a jump where it is further ahead than the rate plays in a second: never where it is
/// not further ahead, always where it is by one part in `2^52`.
pub proof fn law_jumps(state: MprisPlayerStateView, next_position: Double)
    requires
        !next_position.is_nan_spec(),
        !state.position.is_nan_spec(),
        !state.playback_rate.is_nan_spec(),
        0 < state.playback_rate.units() <= 2 * pow2(1074),
    ensures
        next_position.units() - state.position.units() <= state.playback_rate.units()
            ==> !state.jumps_to(next_position),
        (next_position.units() - state.position.units() - state.playback_rate.units())
            * 0x10_0000_0000_0000 >= state.playback_rate.units() ==> state.jumps_to(next_position),
{
    numbers::law_exceeds(next_position, state.position, state.playback_rate);
}

/// What is not a number is no jump.
pub proof fn law_no_number_is_no_jump(state: MprisPlayerStateView, next_position: Double)
    requires
        next_position.is_nan_spec() || state.position.is_nan_spec()
            || state.playback_rate.is_nan_spec(),
    ensures
        !state.jumps_to(next_position),
{
}

/// Setting the timeline takes over the duration, the position and the time, each for itself, and changes
/// nothing else.
pub proof fn law_timeline_taken_over(
    before: MprisPlayerStateView,
    duration: Double,
    position: Double,
    at: Instant,
)
    ensures
        ({
            let after = before.timeline_set(duration, position, at);
            &&& after.duration == duration
            &&& after.position == position
            &&& after.last_updated_position == at
            &&& after == (MprisPlayerStateView {
                duration: after.duration,
                position: after.position,
                last_updated_position: after.last_updated_position,
                ..before
            })
        }),
{
}

/// The length of a track of a whole number of microseconds is announced as that number, within 53 bits.
pub proof fn law_length_announced(state: MprisPlayerStateView, whole: int)
    requires
        !state.duration.is_nan_spec(),
        !state.duration.is_infinite_spec(),
        state.duration.units() * 1_000_000 == whole * pow2(1074),
        -0x20_0000_0000_0000 < whole < 0x20_0000_0000_0000,
    ensures
        state.metadata()["mpris:length"@] == MetadataValueView::Int64(whole),
{
    conversion::law_micros_exact(state.duration, whole);
    crate::linux::state::law_metadata_entries(state);
}

/// The texts of a track are announced each under its own name, as they were given.
pub proof fn law_texts_announced(state: MprisPlayerStateView)
    ensures
        state.metadata()["xesam:title"@] == MetadataValueView::Text(state.title),
        state.metadata()["xesam:album"@] == MetadataValueView::Text(state.album_title),
        state.metadata()["mpris:artUrl"@] == MetadataValueView::Text(state.thumbnail),
        state.metadata()["xesam:artist"@] matches MetadataValueView::TextList(artists)
            && artists.len() == 1 && artists[0] == state.artist,
        state.metadata()["mpris:trackid"@] == MetadataValueView::ObjectPath(
            state.track_object_path(),
        ),
{
    crate::linux::state::law_metadata_entries(state);
}

/// The properties are announced each under its own name, with the value that the player holds.
pub proof fn law_properties_announced(state: MprisPlayerStateView)
    ensures
        state.properties()["CanPlay"@] == PropertyValueView::Bool(state.can_play),
        state.properties()["CanPause"@] == PropertyValueView::Bool(state.can_pause),
        state.properties()["CanGoPrevious"@] == PropertyValueView::Bool(state.can_go_previous),
        state.properties()["CanGoNext"@] == PropertyValueView::Bool(state.can_go_next),
        state.properties()["CanSeek"@] == PropertyValueView::Bool(state.can_seek),
        state.properties()["CanControl"@] == PropertyValueView::Bool(state.can_control),
        state.properties()["Rate"@] == PropertyValueView::Double(state.playback_rate),
        state.playback_status is Playing <==> state.properties()["PlaybackStatus"@]
            == PropertyValueView::Text("Playing"@),
        state.playback_status is Paused <==> state.properties()["PlaybackStatus"@]
            == PropertyValueView::Text("Paused"@),
        state.playback_status is Stopped || state.playback_status is Unknown
            <==> state.properties()["PlaybackStatus"@] == PropertyValueView::Text("Stopped"@),
        state.properties()["Metadata"@] == PropertyValueView::Metadata(state.metadata()),
{
    player::law_properties(state);
    types::law_status_labels(state.playback_status);
}

/// A queued change is announced with its value, the other changes stay, and the rest of the player does.
pub proof fn law_queued(before: MediaPlayerView, name: Seq<char>, value: PropertyValueView)
    ensures
        ({
            let after = before.queued(name, value);
            &&& after.pending.contains_key(name)
            &&& after.pending[name] == value
            &&& after.pending.remove(name) == before.pending.remove(name)
            &&& after.player == before.player
            &&& after.service_name == before.service_name
            &&& after.active == before.active
        }),
{
    assert(before.queued(name, value).pending.remove(name) =~= before.pending.remove(name));
}

/// Queued metadata are those of the state that the player holds.
pub proof fn law_metadata_queued(before: MediaPlayerView)
    ensures
        ({
            let after = before.metadata_queued();
            &&& after.pending.contains_key("Metadata"@)
            &&& after.pending["Metadata"@] == PropertyValueView::Metadata(
                before.player.state.metadata(),
            )
            &&& after.pending.remove("Metadata"@) == before.pending.remove("Metadata"@)
            &&& after.player == before.player
            &&& after.service_name == before.service_name
            &&& after.active == before.active
        }),
{
    law_queued(
        before,
        "Metadata"@,
        PropertyValueView::Metadata(before.player.state.metadata()),
    );
}

/// Another state, or other listeners, leave the rest of a player as it is.
pub proof fn law_replaced(
    before: MediaPlayerView,
    state: MprisPlayerStateView,
    listeners: EventListenersView,
)
    ensures
        before.with_state(state).player.state == state,
        before.with_state(state).player.listeners == before.player.listeners,
        before.with_state(state).pending == before.pending,
        before.with_state(state).service_name == before.service_name,
        before.with_state(state).active == before.active,
        before.with_listeners(listeners).player.listeners == listeners,
        before.with_listeners(listeners).player.state == before.player.state,
        before.with_listeners(listeners).pending == before.pending,
        before.with_listeners(listeners).service_name == before.service_name,
        before.with_listeners(listeners).active == before.active,
{
}

/// What is shown of a player is what it holds, each under its own name.
pub proof fn law_state_shown(state: MprisPlayerState)
    ensures
        state@.identity == state.identity@,
        state@.can_go_next == state.can_go_next,
        state@.can_go_previous == state.can_go_previous,
        state@.can_play == state.can_play,
        state@.can_pause == state.can_pause,
        state@.can_seek == state.can_seek,
        state@.can_control == state.can_control,
        state@.media_type == state.media_type,
        state@.playback_status == state.playback_status,
        state@.thumbnail == state.thumbnail@,
        state@.artist == state.artist@,
        state@.album_title == state.album_title@,
        state@.title == state.title@,
        state@.track_id == state.track_id@,
        state@.position == state.position,
        state@.last_updated_position == state.last_updated_position,
        state@.duration == state.duration,
        state@.volume == state.volume,
        state@.playback_rate == state.playback_rate,
{
}

/// What is shown of a media player is what it holds, each under its own name.
pub proof fn law_players_shown(player: MediaPlayer, bus: MprisPlayer)
    ensures
        player@.service_name == player.service_name@,
        player@.player == player.player@,
        player@.pending == player.properties_changed@,
        player@.active == player.active,
        bus@.listeners == bus.listeners@,
        bus@.state == bus.state@,
{
}

/// A map holds for each of its names the value at the same place, and for no other name anything.
pub proof fn law_map_entries<T: View>(map: PropertyMap<T>, i: int, name: Seq<char>)
    requires
        map.wf(),
        0 <= i < map.names.len(),
    ensures
        map@.contains_key(map.names@[i]@),
        map@[map.names@[i]@] == map.values@[i]@,
        map@.contains_key(name) ==> exists|j: int|
            0 <= j < map.names.len() && (#[trigger] map.names@[j])@ == name,
        map.names.len() == map.values.len(),
{
    let names = map.name_seq();
    assert(names[i] == map.names@[i]@);
    assert(names.contains(names[i]));
    let k = names.index_of(names[i]);
    assert(0 <= k < names.len() && names[k] == names[i]);
    if map@.contains_key(name) {
        let j = names.index_of(name);
        assert(map.names@[j]@ == name);
    }
}

/// A value is shown as it is held, and under its own type.
pub proof fn law_values_shown(
    text: String,
    number: i64,
    list: Vec<String>,
    flag: bool,
    rate: Double,
    metadata: PropertyMap<MetadataValue>,
)
    ensures
        MetadataValue::ObjectPath(text)@ == MetadataValueView::ObjectPath(text@),
        MetadataValue::Text(text)@ == MetadataValueView::Text(text@),
        MetadataValue::Int64(number)@ == MetadataValueView::Int64(number as int),
        MetadataValue::TextList(list)@ matches MetadataValueView::TextList(shown) && shown.len()
            == list.len() && forall|i: int|
            0 <= i < list.len() ==> #[trigger] shown[i] == list@[i]@,
        PropertyValue::Bool(flag)@ == PropertyValueView::Bool(flag),
        PropertyValue::Double(rate)@ == PropertyValueView::Double(rate),
        PropertyValue::Text(text)@ == PropertyValueView::Text(text@),
        PropertyValue::Metadata(metadata)@ == PropertyValueView::Metadata(metadata@),
        MethodError::Failed(text)@ == MethodErrorView::Failed(text@),
        MethodError::InvalidArg(text)@ == MethodErrorView::InvalidArg(text@),
{
}

/// The bus makes a connection the owner of a name by one answer alone.
pub proof fn law_claims(reply: Option<RequestNameReply>)
    ensures
        session::is_claimed(reply) <==> reply == Some(RequestNameReply::PrimaryOwner),
{
}

/// A name is requested so that nobody can take it over, that it is taken over from its owner, and that
/// nobody waits for it.
pub proof fn law_name_requests(name: Seq<char>)
    ensures
        session::name_request(name) matches SessionActionView::RequestName {
            name: requested,
            allow_replacement,
            replace_existing,
            do_not_queue,
        } && requested == name && !allow_replacement && replace_existing && do_not_queue,
{
}

/// A session that gets no connection tries again after a quarter of a second; one that gets one serves at
/// once if no player is registered, and requests its name if one is.
pub proof fn law_connection(before: DBusSessionView, connected: bool)
    requires
        before.phase is Connecting,
    ensures
        ({
            let (after, action) = before.next(SessionEventView::Connected(connected));
            &&& after.registered == before.registered
            &&& !connected ==> after.phase is Connecting && action
                == SessionActionView::ConnectLater(250)
            &&& connected && before.registered is None ==> after.phase is Serving && action is Serve
            &&& connected ==> (before.registered matches Some(name) ==> after.phase is Reclaiming
                && (action matches SessionActionView::RequestName { name: requested, .. }
                && requested == name))
        }),
{
}

/// A message goes to the registered player, and to nobody if there is none; the session stays as it is.
pub proof fn law_messages(before: DBusSessionView)
    requires
        before.phase is Serving,
    ensures
        before.next(SessionEventView::Message).0 == before,
        before.registered is Some <==> before.next(SessionEventView::Message).1 is Dispatch,
        before.registered is None <==> before.next(SessionEventView::Message).1 is Discard,
{
}

/// A registration requests the name of the player that is to be registered, and keeps the one that is
/// registered until the answer.
pub proof fn law_registration(before: DBusSessionView, name: Seq<char>)
    requires
        before.phase is Serving,
    ensures
        ({
            let (after, action) = before.next(SessionEventView::Register(name));
            &&& after.registered == before.registered
            &&& after.phase == SessionPhaseView::Claiming(name)
            &&& action matches SessionActionView::RequestName { name: requested, .. } && requested
                == name
        }),
{
}

/// A lost connection is made anew at once, and leaves the player registered.
pub proof fn law_disconnection(before: DBusSessionView)
    requires
        before.phase is Serving,
    ensures
        before.next(SessionEventView::Disconnected) == (
            DBusSessionView { phase: SessionPhaseView::Connecting, registered: before.registered },
            SessionActionView::Connect,
        ),
{
}

/// An event that nothing waits for changes nothing.
pub proof fn law_unexpected_events(before: DBusSessionView, event: SessionEventView)
    requires
        event is Connected ==> !(before.phase is Connecting),
        event is NameReply ==> !(before.phase is Reclaiming) && !(before.phase is Claiming),
        event is ReleaseReply ==> !(before.phase is Releasing),
        !(event is Connected) && !(event is NameReply) && !(event is ReleaseReply) ==> !(
        before.phase is Serving),
    ensures
        before.next(event) == (before, SessionActionView::Ignore),
{
}

/// What is shown of a session and of its actions is what they hold.
pub proof fn law_session_shown(session: DBusSession, name: String, answer: bool, delay: u64)
    ensures
        session@.phase == session.phase@,
        session.registered is None ==> session@.registered is None,
        session.registered matches Some(registered) ==> session@.registered == Some(registered@),
        SessionPhase::Claiming(name)@ == SessionPhaseView::Claiming(name@),
        SessionEvent::Register(name)@ == SessionEventView::Register(name@),
        SessionEvent::Unregister(name)@ == SessionEventView::Unregister(name@),
        SessionEvent::Connected(answer)@ == SessionEventView::Connected(answer),
        SessionAction::Respond(answer)@ == SessionActionView::Respond(answer),
        SessionAction::ReleaseName(name)@ == SessionActionView::ReleaseName(name@),
        SessionAction::ConnectLater(delay)@ == SessionActionView::ConnectLater(delay),
        SessionAction::Connect@ is Connect,
        SessionAction::Serve@ is Serve,
        SessionAction::Dispatch@ is Dispatch,
        SessionAction::Discard@ is Discard,
        SessionAction::Send@ is Send,
        SessionAction::Ignore@ is Ignore,
{
}

/// What is shown of the answers of the bus, and of a request for a name, is what they hold.
pub proof fn law_requests_shown(
    name: String,
    flags: (bool, bool, bool),
    claim: Option<RequestNameReply>,
    release: Option<ReleaseNameReply>,
)
    ensures
        (SessionAction::RequestName {
            name,
            allow_replacement: flags.0,
            replace_existing: flags.1,
            do_not_queue: flags.2,
        })@ == (SessionActionView::RequestName {
            name: name@,
            allow_replacement: flags.0,
            replace_existing: flags.1,
            do_not_queue: flags.2,
        }),
        SessionEvent::NameReply(claim)@ == SessionEventView::NameReply(claim),
        SessionEvent::ReleaseReply(release)@ == SessionEventView::ReleaseReply(release),
        SessionEvent::Disconnected@ is Disconnected,
        SessionEvent::Message@ is Message,
        SessionEvent::Emit@ is Emit,
        SessionPhase::Connecting@ is Connecting,
        SessionPhase::Reclaiming@ is Reclaiming,
        SessionPhase::Serving@ is Serving,
        SessionPhase::Releasing@ is Releasing,
{
}

/// A player that can seek answers a request that names the current track, for a position from zero up to
/// the duration, by an event with that position, wherever it is in the track; it answers no other one.
pub proof fn law_requested_position_told(
    player: &MprisPlayer,
    path: String,
    track_id: &String,
    position: i64,
    r: Option<Emission>,
)
    requires
        call_ensures(MprisPlayerState::track_object_path, (&player.state,), path),
        call_ensures(MprisPlayer::set_position, (player, track_id, position), r),
    ensures
        ({
            let requested = Double {
                bits: span::duration_bits(
                    (position as int / 1_000_000) as u64,
                    (position as int % 1_000_000 * 1000) as u32,
                ),
            };
            let beyond = !player.state.duration.is_nan_spec() && !requested.is_nan_spec()
                && requested.units() > player.state.duration.units();
            &&& player.state.can_seek && position >= 0 && track_id@ == path@ && !beyond ==> r == Some(
                Emission::PositionChanged(requested),
            )
            &&& !player.state.can_seek || position < 0 || track_id@ != path@ || beyond ==> r is None
        }),
{
}

/// A request to seek is told by a player that can seek, in the direction that was requested: a whole
/// number of seconds as that number, within 53 bits.
pub proof fn law_requested_seek_told(player: &MprisPlayer, offset: i64, r: Option<Emission>)
    requires
        call_ensures(MprisPlayer::seek, (player, offset), r),
    ensures
        !player.state.can_seek ==> r is None,
        player.state.can_seek ==> (r matches Some(Emission::PositionSeeked(seconds)) && {
            &&& !seconds.is_nan_spec()
            &&& offset > 0 ==> seconds.units() > 0
            &&& offset < 0 ==> seconds.units() < 0
            &&& offset == 0 ==> seconds.units() == 0
            &&& offset % 1_000_000 == 0 && -0x20_0000_0000_0000 < offset < 0x20_0000_0000_0000
                ==> seconds.units() * 1_000_000 == offset * pow2(1074)
        }),
{
    let whole = offset as int;
    conversion::law_seconds_close(whole);
    lemma_pow2_pos(1074);
    let one = pow2(1074) as int;
    let told = conversion::micros_units(whole);
    if whole > 0 {
        assert(whole * one > 0 && told > 0) by (nonlinear_arith)
            requires
                whole > 0,
                one > 0,
                0x8_0000_0000_0000 * (told * 1_000_000 - whole * one) >= -(whole * one),
        ;
    } else if whole < 0 {
        assert(whole * one < 0 && told < 0) by (nonlinear_arith)
            requires
                whole < 0,
                one > 0,
                0x8_0000_0000_0000 * (told * 1_000_000 - whole * one) <= -(whole * one),
        ;
    }
    if whole % 1_000_000 == 0 && -0x20_0000_0000_0000 < whole < 0x20_0000_0000_0000 {
        let seconds = whole / 1_000_000;
        assert(seconds * 1_000_000 == whole);
        conversion::law_seconds_exact(seconds);
        assert(told * 1_000_000 == whole * one) by (nonlinear_arith)
            requires
                told == seconds * one,
                seconds * 1_000_000 == whole,
        ;
    }
}

/// A requested button is told under its own name, by a player that is able to do it.
pub proof fn law_requested_buttons_told(
    player: &MprisPlayer,
    r: Option<Emission>,
    answer: Result<Emission, MethodError>,
)
    ensures
        call_ensures(MprisPlayer::next, (player,), r) ==> r == if player.state.can_go_next {
            Some(Emission::ButtonPressed(Button::Next))
        } else {
            None
        },
        call_ensures(MprisPlayer::previous, (player,), r) ==> r == if player.state.can_go_previous {
            Some(Emission::ButtonPressed(Button::Previous))
        } else {
            None
        },
        call_ensures(MprisPlayer::play, (player,), r) ==> r == if player.state.can_play {
            Some(Emission::ButtonPressed(Button::Play))
        } else {
            None
        },
        call_ensures(MprisPlayer::pause, (player,), r) ==> r == if player.state.can_pause {
            Some(Emission::ButtonPressed(Button::Pause))
        } else {
            None
        },
        call_ensures(MprisPlayer::play_pause, (player,), answer) ==> {
            &&& player.state.can_play || player.state.can_pause ==> answer == Ok::<
                Emission,
                MethodError,
            >(Emission::ButtonPressed(Button::PlayPause))
            &&& !player.state.can_play && !player.state.can_pause ==> answer is Err
        },
        call_ensures(MprisPlayer::stop, (player,), answer) ==> {
            &&& player.state.can_control ==> answer == Ok::<Emission, MethodError>(
                Emission::ButtonPressed(Button::Stop),
            )
            &&& !player.state.can_control ==> answer is Err
        },
{
}

/// A requested rate is told from then on, where it lies between one quarter and two; a rate of zero
/// changes nothing and pauses a player that can pause; every other one changes nothing and is refused.
pub proof fn law_requested_rate_told(
    player: &mut MprisPlayer,
    value: Double,
    r: Result<Option<Emission>, MethodError>,
    before: Double,
    told: Double,
)
    requires
        call_ensures(MprisPlayer::rate, (old(player),), before),
        call_ensures(MprisPlayer::set_rate, (player, value), r),
        call_ensures(MprisPlayer::rate, (final(player),), told),
    ensures
        value.is_nan_spec() ==> r is Err && told == before,
        !value.is_nan_spec() && value.units() == 0 ==> told == before && r == Ok::<
            Option<Emission>,
            MethodError,
        >(
            if old(player).state.can_pause {
                Some(Emission::ButtonPressed(Button::Pause))
            } else {
                None
            },
        ),
        !value.is_nan_spec() && value.units() != 0 && (4 * value.units() < pow2(1074)
            || value.units() > 2 * pow2(1074)) ==> r is Err && told == before,
        !value.is_nan_spec() && pow2(1074) <= 4 * value.units() && value.units() <= 2 * pow2(1074)
            ==> told == value && r == Ok::<Option<Emission>, MethodError>(None),
        final(player)@.listeners == old(player)@.listeners,
        final(player)@.state == (MprisPlayerStateView {
            playback_rate: told,
            ..old(player)@.state
        }),
{
    numbers::lemma_constants();
    lemma_pow2_pos(1074);
}

/// A requested volume is told from then on, where it lies between zero and one; a smaller one as zero, a
/// larger one as one.
pub proof fn law_requested_volume_told(player: &mut MprisPlayer, value: Double, told: Double)
    requires
        call_ensures(MprisPlayer::set_volume, (player, value), ()),
        call_ensures(MprisPlayer::volume, (final(player),), told),
    ensures
        value.is_nan_spec() ==> told == value,
        !value.is_nan_spec() && value.units() < 0 ==> told.bits == 0,
        !value.is_nan_spec() && 0 <= value.units() <= pow2(1074) ==> told == value,
        !value.is_nan_spec() && value.units() > pow2(1074) ==> !told.is_nan_spec() && told.units()
            == pow2(1074),
        final(player)@.listeners == old(player)@.listeners,
        final(player)@.state == (MprisPlayerStateView { volume: told, ..old(player)@.state }),
{
    numbers::law_unit_range(value);
}

/// A player tells the rates that it accepts: none is below its smallest, none above its largest one.
pub proof fn law_rate_limits_told(player: &MprisPlayer, least: Double, most: Double, value: Double)
    requires
        call_ensures(MprisPlayer::minimum_rate, (player,), least),
        call_ensures(MprisPlayer::maximum_rate, (player,), most),
    ensures
        least.le(value) && value.le(most) <==> value.is_playback_rate_spec(),
        4 * least.units() == pow2(1074),
        most.units() == 2 * pow2(1074),
{
    numbers::lemma_constants();
}

/// A player tells of each ability whether it has it.
pub proof fn law_abilities_told(player: &MprisPlayer, r: bool)
    ensures
        call_ensures(MprisPlayer::can_go_next, (player,), r) ==> r == player.state.can_go_next,
        call_ensures(MprisPlayer::can_go_previous, (player,), r) ==> r
            == player.state.can_go_previous,
        call_ensures(MprisPlayer::can_play, (player,), r) ==> r == player.state.can_play,
        call_ensures(MprisPlayer::can_pause, (player,), r) ==> r == player.state.can_pause,
        call_ensures(MprisPlayer::can_seek, (player,), r) ==> r == player.state.can_seek,
        call_ensures(MprisPlayer::can_control, (player,), r) ==> r == player.state.can_control,
        call_ensures(MprisPlayer::can_quit, (player,), r) ==> !r,
        call_ensures(MprisPlayer::can_raise, (player,), r) ==> !r,
        call_ensures(MprisPlayer::fullscreen, (player,), r) ==> !r,
        call_ensures(MprisPlayer::can_set_fullscreen, (player,), r) ==> !r,
        call_ensures(MprisPlayer::has_track_list, (player,), r) ==> !r,
        call_ensures(MprisPlayer::shuffle, (player,), r) ==> !r,
{
}

/// A player tells its status by name.
pub proof fn law_status_told(player: &MprisPlayer, r: String)
    requires
        call_ensures(MprisPlayer::playback_status, (player,), r),
    ensures
        player.state.playback_status is Playing <==> r@ == "Playing"@,
        player.state.playback_status is Paused <==> r@ == "Paused"@,
        player.state.playback_status is Stopped || player.state.playback_status is Unknown <==> r@
            == "Stopped"@,
{
    types::law_status_labels(player.state.playback_status);
}

/// A position of a whole number of microseconds is told as that number, within 53 bits.
pub proof fn law_position_told(player: &MprisPlayer, r: i64, whole: int)
    requires
        call_ensures(MprisPlayer::position, (player,), r),
        !player.state.position.is_nan_spec(),
        !player.state.position.is_infinite_spec(),
        player.state.position.units() * 1_000_000 == whole * pow2(1074),
        -0x20_0000_0000_0000 < whole < 0x20_0000_0000_0000,
    ensures
        r == whole,
{
    conversion::law_micros_exact(player.state.position, whole);
}

/// The play button that was set is read back, told to the bus and announced by the next update. Nothing else
/// changes.
pub proof fn law_play_button_set(
    player: &mut MediaPlayer,
    enabled: bool,
    read: bool,
    told: bool,
)
    requires
        old(player).wf(),
        call_ensures(MediaPlayer::set_play_button_enabled, (player, enabled), ()),
        call_ensures(MediaPlayer::get_play_button_enabled, (final(player),), read),
        call_ensures(MprisPlayer::can_play, (&final(player).player,), told),
    ensures
        read == enabled,
        told == enabled,
        final(player)@.pending.contains_key("CanPlay"@),
        final(player)@.pending["CanPlay"@] == PropertyValueView::Bool(enabled),
        final(player)@.pending.remove("CanPlay"@) == old(player)@.pending.remove("CanPlay"@),
        final(player)@.service_name == old(player)@.service_name,
        final(player)@.active == old(player)@.active,
        final(player)@.player.listeners == old(player)@.player.listeners,
        final(player)@.player.state == (MprisPlayerStateView {
            can_play: enabled,
            ..old(player)@.player.state
        }),
{
    law_queued(
        old(player)@.with_state(
            (MprisPlayerStateView { can_play: enabled, ..old(player)@.player.state }),
        ),
        "CanPlay"@,
        PropertyValueView::Bool(enabled),
    );
}

/// The pause button that was set is read back, told to the bus and announced by the next update. Nothing else
/// changes.
pub proof fn law_pause_button_set(
    player: &mut MediaPlayer,
    enabled: bool,
    read: bool,
    told: bool,
)
    requires
        old(player).wf(),
        call_ensures(MediaPlayer::set_pause_button_enabled, (player, enabled), ()),
        call_ensures(MediaPlayer::get_pause_button_enabled, (final(player),), read),
        call_ensures(MprisPlayer::can_pause, (&final(player).player,), told),
    ensures
        read == enabled,
        told == enabled,
        final(player)@.pending.contains_key("CanPause"@),
        final(player)@.pending["CanPause"@] == PropertyValueView::Bool(enabled),
        final(player)@.pending.remove("CanPause"@) == old(player)@.pending.remove("CanPause"@),
        final(player)@.service_name == old(player)@.service_name,
        final(player)@.active == old(player)@.active,
        final(player)@.player.listeners == old(player)@.player.listeners,
        final(player)@.player.state == (MprisPlayerStateView {
            can_pause: enabled,
            ..old(player)@.player.state
        }),
{
    law_queued(
        old(player)@.with_state(
            (MprisPlayerStateView { can_pause: enabled, ..old(player)@.player.state }),
        ),
        "CanPause"@,
        PropertyValueView::Bool(enabled),
    );
}

/// The previous button that was set is read back, told to the bus and announced by the next update. Nothing else
/// changes.
pub proof fn law_previous_button_set(
    player: &mut MediaPlayer,
    enabled: bool,
    read: bool,
    told: bool,
)
    requires
        old(player).wf(),
        call_ensures(MediaPlayer::set_previous_button_enabled, (player, enabled), ()),
        call_ensures(MediaPlayer::get_previous_button_enabled, (final(player),), read),
        call_ensures(MprisPlayer::can_go_previous, (&final(player).player,), told),
    ensures
        read == enabled,
        told == enabled,
        final(player)@.pending.contains_key("CanGoPrevious"@),
        final(player)@.pending["CanGoPrevious"@] == PropertyValueView::Bool(enabled),
        final(player)@.pending.remove("CanGoPrevious"@) == old(player)@.pending.remove("CanGoPrevious"@),
        final(player)@.service_name == old(player)@.service_name,
        final(player)@.active == old(player)@.active,
        final(player)@.player.listeners == old(player)@.player.listeners,
        final(player)@.player.state == (MprisPlayerStateView {
            can_go_previous: enabled,
            ..old(player)@.player.state
        }),
{
    law_queued(
        old(player)@.with_state(
            (MprisPlayerStateView { can_go_previous: enabled, ..old(player)@.player.state }),
        ),
        "CanGoPrevious"@,
        PropertyValueView::Bool(enabled),
    );
}

/// The next button that was set is read back, told to the bus and announced by the next update. Nothing else
/// changes.
pub proof fn law_next_button_set(
    player: &mut MediaPlayer,
    enabled: bool,
    read: bool,
    told: bool,
)
    requires
        old(player).wf(),
        call_ensures(MediaPlayer::set_next_button_enabled, (player, enabled), ()),
        call_ensures(MediaPlayer::get_next_button_enabled, (final(player),), read),
        call_ensures(MprisPlayer::can_go_next, (&final(player).player,), told),
    ensures
        read == enabled,
        told == enabled,
        final(player)@.pending.contains_key("CanGoNext"@),
        final(player)@.pending["CanGoNext"@] == PropertyValueView::Bool(enabled),
        final(player)@.pending.remove("CanGoNext"@) == old(player)@.pending.remove("CanGoNext"@),
        final(player)@.service_name == old(player)@.service_name,
        final(player)@.active == old(player)@.active,
        final(player)@.player.listeners == old(player)@.player.listeners,
        final(player)@.player.state == (MprisPlayerStateView {
            can_go_next: enabled,
            ..old(player)@.player.state
        }),
{
    law_queued(
        old(player)@.with_state(
            (MprisPlayerStateView { can_go_next: enabled, ..old(player)@.player.state }),
        ),
        "CanGoNext"@,
        PropertyValueView::Bool(enabled),
    );
}

/// The ability to seek that was set is read back, told to the bus and announced by the next update. Nothing else
/// changes.
pub proof fn law_seek_set(
    player: &mut MediaPlayer,
    enabled: bool,
    read: bool,
    told: bool,
)
    requires
        old(player).wf(),
        call_ensures(MediaPlayer::set_seek_enabled, (player, enabled), ()),
        call_ensures(MediaPlayer::get_seek_enabled, (final(player),), read),
        call_ensures(MprisPlayer::can_seek, (&final(player).player,), told),
    ensures
        read == enabled,
        told == enabled,
        final(player)@.pending.contains_key("CanSeek"@),
        final(player)@.pending["CanSeek"@] == PropertyValueView::Bool(enabled),
        final(player)@.pending.remove("CanSeek"@) == old(player)@.pending.remove("CanSeek"@),
        final(player)@.service_name == old(player)@.service_name,
        final(player)@.active == old(player)@.active,
        final(player)@.player.listeners == old(player)@.player.listeners,
        final(player)@.player.state == (MprisPlayerStateView {
            can_seek: enabled,
            ..old(player)@.player.state
        }),
{
    law_queued(
        old(player)@.with_state(
            (MprisPlayerStateView { can_seek: enabled, ..old(player)@.player.state }),
        ),
        "CanSeek"@,
        PropertyValueView::Bool(enabled),
    );
}

/// The title that was set is read back, and announced by the next update among the metadata. Nothing
/// else changes.
pub proof fn law_title_set(player: &mut MediaPlayer, given: String, read: String)
    requires
        old(player).wf(),
        call_ensures(MediaPlayer::set_title, (player, given), ()),
        call_ensures(MediaPlayer::get_title, (final(player),), read),
    ensures
        read@ == given@,
        final(player)@.pending.contains_key("Metadata"@),
        final(player)@.pending["Metadata"@] matches PropertyValueView::Metadata(metadata)
            && metadata["xesam:title"@] == MetadataValueView::Text(given@),
        final(player)@.pending.remove("Metadata"@) == old(player)@.pending.remove("Metadata"@),
        final(player)@.service_name == old(player)@.service_name,
        final(player)@.active == old(player)@.active,
        final(player)@.player.listeners == old(player)@.player.listeners,
        final(player)@.player.state == (MprisPlayerStateView {
            title: given@,
            ..old(player)@.player.state
        }),
{
    law_metadata_queued(
        old(player)@.with_state(
            (MprisPlayerStateView { title: given@, ..old(player)@.player.state }),
        ),
    );
    crate::linux::state::law_metadata_entries(final(player)@.player.state);
}

/// The album title that was set is read back, and announced by the next update among the metadata. Nothing
/// else changes.
pub proof fn law_album_title_set(player: &mut MediaPlayer, given: String, read: String)
    requires
        old(player).wf(),
        call_ensures(MediaPlayer::set_album_title, (player, given), ()),
        call_ensures(MediaPlayer::get_album_title, (final(player),), read),
    ensures
        read@ == given@,
        final(player)@.pending.contains_key("Metadata"@),
        final(player)@.pending["Metadata"@] matches PropertyValueView::Metadata(metadata)
            && metadata["xesam:album"@] == MetadataValueView::Text(given@),
        final(player)@.pending.remove("Metadata"@) == old(player)@.pending.remove("Metadata"@),
        final(player)@.service_name == old(player)@.service_name,
        final(player)@.active == old(player)@.active,
        final(player)@.player.listeners == old(player)@.player.listeners,
        final(player)@.player.state == (MprisPlayerStateView {
            album_title: given@,
            ..old(player)@.player.state
        }),
{
    law_metadata_queued(
        old(player)@.with_state(
            (MprisPlayerStateView { album_title: given@, ..old(player)@.player.state }),
        ),
    );
    crate::linux::state::law_metadata_entries(final(player)@.player.state);
}

/// The artist that was set is read back, and announced by the next update among the metadata. Nothing
/// else changes.
pub proof fn law_artist_set(player: &mut MediaPlayer, given: String, read: String)
    requires
        old(player).wf(),
        call_ensures(MediaPlayer::set_artist, (player, given), ()),
        call_ensures(MediaPlayer::get_artist, (final(player),), read),
    ensures
        read@ == given@,
        final(player)@.pending.contains_key("Metadata"@),
        final(player)@.pending["Metadata"@] matches PropertyValueView::Metadata(metadata)
            && metadata["xesam:artist"@] == MetadataValueView::TextList(seq![given@]),
        final(player)@.pending.remove("Metadata"@) == old(player)@.pending.remove("Metadata"@),
        final(player)@.service_name == old(player)@.service_name,
        final(player)@.active == old(player)@.active,
        final(player)@.player.listeners == old(player)@.player.listeners,
        final(player)@.player.state == (MprisPlayerStateView {
            artist: given@,
            ..old(player)@.player.state
        }),
{
    law_metadata_queued(
        old(player)@.with_state(
            (MprisPlayerStateView { artist: given@, ..old(player)@.player.state }),
        ),
    );
    crate::linux::state::law_metadata_entries(final(player)@.player.state);
}

/// The track id that was set is read back, and announced by the next update among the metadata. Nothing
/// else changes.
pub proof fn law_track_id_set(player: &mut MediaPlayer, given: String, read: String)
    requires
        old(player).wf(),
        call_ensures(MediaPlayer::set_track_id, (player, given), ()),
        call_ensures(MediaPlayer::get_track_id, (final(player),), read),
    ensures
        read@ == given@,
        final(player)@.pending.contains_key("Metadata"@),
        final(player)@.pending["Metadata"@] matches PropertyValueView::Metadata(metadata)
            && metadata["mpris:trackid"@] == MetadataValueView::ObjectPath(
                final(player)@.player.state.track_object_path(),
            ),
        final(player)@.pending.remove("Metadata"@) == old(player)@.pending.remove("Metadata"@),
        final(player)@.service_name == old(player)@.service_name,
        final(player)@.active == old(player)@.active,
        final(player)@.player.listeners == old(player)@.player.listeners,
        final(player)@.player.state == (MprisPlayerStateView {
            track_id: given@,
            ..old(player)@.player.state
        }),
{
    law_metadata_queued(
        old(player)@.with_state(
            (MprisPlayerStateView { track_id: given@, ..old(player)@.player.state }),
        ),
    );
    crate::linux::state::law_metadata_entries(final(player)@.player.state);
}

/// The thumbnail that was set is announced by the next update among the metadata. Nothing else changes.
pub proof fn law_thumbnail_set(player: &mut MediaPlayer, given: &MediaPlayerThumbnail)
    requires
        old(player).wf(),
        call_ensures(MediaPlayer::set_thumbnail, (player, given), ()),
    ensures
        final(player)@.pending.contains_key("Metadata"@),
        final(player)@.pending["Metadata"@] matches PropertyValueView::Metadata(metadata)
            && metadata["mpris:artUrl"@] == MetadataValueView::Text(given.thumbnail@),
        final(player)@.pending.remove("Metadata"@) == old(player)@.pending.remove("Metadata"@),
        final(player)@.service_name == old(player)@.service_name,
        final(player)@.active == old(player)@.active,
        final(player)@.player.listeners == old(player)@.player.listeners,
        final(player)@.player.state == (MprisPlayerStateView {
            thumbnail: given.thumbnail@,
            ..old(player)@.player.state
        }),
{
    law_metadata_queued(
        old(player)@.with_state(
            (MprisPlayerStateView {
                thumbnail: given.thumbnail@,
                ..old(player)@.player.state
            }),
        ),
    );
    crate::linux::state::law_metadata_entries(final(player)@.player.state);
}

/// A rate from one quarter to two is set, read back, and announced by the next update; every other one is
/// refused and changes nothing.
pub proof fn law_playback_rate_set(
    player: &mut MediaPlayer,
    given: Double,
    r: Result<(), String>,
    read: Double,
)
    requires
        old(player).wf(),
        call_ensures(MediaPlayer::set_playback_rate, (player, given), r),
        call_ensures(MediaPlayer::get_playback_rate, (final(player),), read),
    ensures
        r is Ok <==> !given.is_nan_spec() && pow2(1074) <= 4 * given.units() && given.units() <= 2
            * pow2(1074),
        r is Err ==> final(player)@ == old(player)@,
        r is Ok ==> {
            &&& read == given
            &&& final(player)@.pending.contains_key("Rate"@)
            &&& final(player)@.pending["Rate"@] == PropertyValueView::Double(given)
            &&& final(player)@.pending.remove("Rate"@) == old(player)@.pending.remove("Rate"@)
            &&& final(player)@.service_name == old(player)@.service_name
            &&& final(player)@.active == old(player)@.active
            &&& final(player)@.player.listeners == old(player)@.player.listeners
            &&& final(player)@.player.state == (MprisPlayerStateView {
                playback_rate: given,
                ..old(player)@.player.state
            })
        },
{
    numbers::law_playback_rates(given);
    law_queued(
        old(player)@.with_state(
            (MprisPlayerStateView { playback_rate: given, ..old(player)@.player.state }),
        ),
        "Rate"@,
        PropertyValueView::Double(given),
    );
}

/// A known status is set, read back, and announced by the next update under its name; the unknown one is
/// refused and changes nothing.
pub proof fn law_playback_status_set(
    player: &mut MediaPlayer,
    given: MediaPlayerPlaybackStatus,
    r: Result<(), String>,
    read: MediaPlayerPlaybackStatus,
)
    requires
        old(player).wf(),
        call_ensures(MediaPlayer::set_playback_status, (player, given), r),
        call_ensures(MediaPlayer::get_playback_status, (final(player),), read),
    ensures
        r is Err <==> given is Unknown,
        r is Err ==> final(player)@ == old(player)@,
        r is Ok ==> {
            let announced = final(player)@.pending["PlaybackStatus"@];
            &&& read == given
            &&& final(player)@.pending.contains_key("PlaybackStatus"@)
            &&& given is Playing <==> announced == PropertyValueView::Text("Playing"@)
            &&& given is Paused <==> announced == PropertyValueView::Text("Paused"@)
            &&& given is Stopped <==> announced == PropertyValueView::Text("Stopped"@)
            &&& final(player)@.pending.remove("PlaybackStatus"@) == old(player)@.pending.remove(
                "PlaybackStatus"@,
            )
            &&& final(player)@.service_name == old(player)@.service_name
            &&& final(player)@.active == old(player)@.active
            &&& final(player)@.player.listeners == old(player)@.player.listeners
            &&& final(player)@.player.state == (MprisPlayerStateView {
                playback_status: given,
                ..old(player)@.player.state
            })
        },
{
    types::law_status_labels(given);
    law_queued(
        old(player)@.with_state(
            (MprisPlayerStateView { playback_status: given, ..old(player)@.player.state }),
        ),
        "PlaybackStatus"@,
        PropertyValueView::Text(types::status_label(given)),
    );
}

/// A known media type is set and read back; the unknown one is refused and changes nothing.
pub proof fn law_media_type_set(
    player: &mut MediaPlayer,
    given: MediaPlayerMediaType,
    r: Result<(), String>,
    read: MediaPlayerMediaType,
)
    requires
        call_ensures(MediaPlayer::set_media_type, (player, given), r),
        call_ensures(MediaPlayer::get_media_type, (final(player),), read),
    ensures
        r is Err <==> given is Unknown,
        r is Err ==> final(player)@ == old(player)@,
        r is Ok ==> read == given && final(player)@ == (MediaPlayerView {
            player: MprisPlayerView {
                state: MprisPlayerStateView { media_type: given, ..old(player)@.player.state },
                ..old(player)@.player
            },
            ..old(player)@
        }),
{
}

/// The stop button is tied to whether the player can be controlled, and cannot be set.
pub proof fn law_stop_button_tied(player: &mut MediaPlayer, enabled: bool, read: bool)
    requires
        call_ensures(MediaPlayer::set_stop_button_enabled, (player, enabled), ()),
        call_ensures(MediaPlayer::get_stop_button_enabled, (final(player),), read),
    ensures
        read == old(player).player.state.can_control,
        final(player)@ == old(player)@,
{
}

/// A timeline without a fault is taken over, whatever was held before. Its position is told by a signal
/// exactly where it is a jump within a second of the timeline before.
pub proof fn law_timeline_set(
    player: &mut MediaPlayer,
    duration: Double,
    position: Double,
    elapsed_secs: u64,
    at: Instant,
    r: Result<Option<i64>, String>,
    told: i64,
)
    requires
        old(player).wf(),
        call_ensures(
            MediaPlayer::set_timeline_at,
            (player, duration, position, elapsed_secs, at),
            r,
        ),
        call_ensures(MprisPlayer::position, (&final(player).player,), told),
    ensures
        !duration.is_nan_spec() && !position.is_nan_spec() ==> (r is Ok <==> 0 <= position.units()
            <= duration.units()),
        r is Err ==> final(player)@ == old(player)@,
        r matches Ok(Some(micros)) ==> micros == told,
        r matches Ok(Some(_)) ==> elapsed_secs == 0,
        r is Ok && elapsed_secs == 0 ==> (r matches Ok(Some(_)) <==> old(
            player,
        )@.player.state.jumps_to(position)),
        r is Ok ==> {
            &&& final(player)@.pending.contains_key("Metadata"@)
            &&& final(player)@.pending["Metadata"@] == PropertyValueView::Metadata(
                final(player)@.player.state.metadata(),
            )
            &&& final(player)@.pending.remove("Metadata"@) == old(player)@.pending.remove(
                "Metadata"@,
            )
            &&& final(player)@.service_name == old(player)@.service_name
            &&& final(player)@.active == old(player)@.active
            &&& final(player)@.player.listeners == old(player)@.player.listeners
            &&& final(player)@.player.state == (MprisPlayerStateView {
                duration,
                position,
                last_updated_position: at,
                ..old(player)@.player.state
            })
        },
{
    numbers::law_timeline_faults(duration, position);
    law_metadata_queued(
        old(player)@.with_state(
            old(player)@.player.state.timeline_set(duration, position, at),
        ),
    );
}

/// An activation and a deactivation speak of the same bus name, that of the player; the first announces
/// everything, and either is made only once.
pub proof fn law_activation(
    player: &mut MediaPlayer,
    registered: bool,
    claimed: Option<String>,
    released: String,
    r: Result<Option<PropertyMap<PropertyValue>>, String>,
)
    requires
        old(player).wf(),
        call_ensures(MediaPlayer::registration, (old(player),), claimed),
        call_ensures(MediaPlayer::activate, (player, registered), r),
        call_ensures(MediaPlayer::finalize, (final(player),), released),
    ensures
        released@ == "org.mpris.MediaPlayer2."@ + old(player).service_name@,
        old(player).active ==> claimed is None && r == Ok::<
            Option<PropertyMap<PropertyValue>>,
            String,
        >(None) && final(player)@ == old(player)@,
        !old(player).active ==> (claimed matches Some(name) && name@ == released@),
        !old(player).active && !registered ==> r is Err && final(player)@ == old(player)@,
        !old(player).active && registered ==> (r matches Ok(Some(changes)) && changes@
            == old(player)@.player.state.properties()) && final(player)@ == (MediaPlayerView {
            active: true,
            pending: Map::empty(),
            ..old(player)@
        }),
{
}

/// A deactivation releases the bus name of an active player, and changes nothing but that.
pub proof fn law_deactivation(player: &mut MediaPlayer, r: Option<String>)
    requires
        old(player).wf(),
        call_ensures(MediaPlayer::deactivate, (player,), r),
    ensures
        old(player).active ==> (r matches Some(name) && name@ == "org.mpris.MediaPlayer2."@ + old(
            player,
        ).service_name@),
        !old(player).active ==> r is None,
        !final(player).active,
        final(player)@ == (MediaPlayerView { active: false, ..old(player)@ }),
{
}

/// An update announces what was queued, once.
pub proof fn law_update(player: &mut MediaPlayer, r: PropertyMap<PropertyValue>)
    requires
        old(player).wf(),
        call_ensures(MediaPlayer::update, (player,), r),
    ensures
        r@ == old(player)@.pending,
        forall|name: Seq<char>| !(#[trigger] final(player)@.pending.contains_key(name)),
        final(player)@ == (MediaPlayerView { pending: final(player)@.pending, ..old(player)@ }),
{
}

/// A listener that was added listens, one that was removed does not, and every other one listens as before.
pub proof fn law_listeners_changed(
    player: &mut MediaPlayer,
    name: String,
    callback: usize,
    handle: u64,
    added: bool,
    removed: Option<u64>,
)
    ensures
        call_ensures(MediaPlayer::add_event_listener, (player, name, callback, handle), added)
            || call_ensures(MediaPlayer::on, (player, name, callback, handle), added) ==> {
            let before = old(player).player.listeners;
            let after = final(player).player.listeners;
            &&& final(player)@.player.state == old(player)@.player.state
            &&& final(player)@.pending == old(player)@.pending
            &&& final(player)@.service_name == old(player)@.service_name
            &&& final(player)@.active == old(player)@.active
            &&& name@ == "buttonpressed"@ ==> listeners::one_added(
                before.button_pressed@,
                after.button_pressed@,
                callback,
                handle,
            ) && added == !before.button_pressed@.contains_key(callback)
            &&& name@ == "positionchanged"@ ==> listeners::one_added(
                before.position_changed@,
                after.position_changed@,
                callback,
                handle,
            ) && added == !before.position_changed@.contains_key(callback)
            &&& name@ == "positionseeked"@ ==> listeners::one_added(
                before.position_seeked@,
                after.position_seeked@,
                callback,
                handle,
            ) && added == !before.position_seeked@.contains_key(callback)
            &&& name@ != "buttonpressed"@ ==> after.button_pressed@ == before.button_pressed@
            &&& name@ != "positionchanged"@ ==> after.position_changed@ == before.position_changed@
            &&& name@ != "positionseeked"@ ==> after.position_seeked@ == before.position_seeked@
        },
        call_ensures(MediaPlayer::remove_event_listener, (player, name, callback), removed)
            || call_ensures(MediaPlayer::off, (player, name, callback), removed) ==> {
            let before = old(player).player.listeners;
            let after = final(player).player.listeners;
            &&& final(player)@.player.state == old(player)@.player.state
            &&& final(player)@.pending == old(player)@.pending
            &&& final(player)@.service_name == old(player)@.service_name
            &&& final(player)@.active == old(player)@.active
            &&& name@ == "buttonpressed"@ ==> listeners::one_removed(
                before.button_pressed@,
                after.button_pressed@,
                callback,
            ) && removed == before.button_pressed@.get(callback)
            &&& name@ == "positionchanged"@ ==> listeners::one_removed(
                before.position_changed@,
                after.position_changed@,
                callback,
            ) && removed == before.position_changed@.get(callback)
            &&& name@ == "positionseeked"@ ==> listeners::one_removed(
                before.position_seeked@,
                after.position_seeked@,
                callback,
            ) && removed == before.position_seeked@.get(callback)
            &&& name@ != "buttonpressed"@ ==> after.button_pressed@ == before.button_pressed@
            &&& name@ != "positionchanged"@ ==> after.position_changed@ == before.position_changed@
            &&& name@ != "positionseeked"@ ==> after.position_seeked@ == before.position_seeked@
        },
{
    types::law_event_names(name@);
    listeners::law_addition_is_local(old(player).player.listeners@, name@, callback, handle);
    listeners::law_removal_is_local(old(player).player.listeners@, name@, callback);
}

/// A player has the name that was given, as the bus accepts it, and its identity as it was given; it is not
/// active, has nothing to announce, and nobody listens to it. A name without a letter or a digit is refused.
pub proof fn law_player_made(
    service_name: String,
    identity: String,
    r: Result<MediaPlayer, String>,
    callback: usize,
)
    requires
        call_ensures(MediaPlayer::new, (service_name, identity), r),
    ensures
        r is Ok <==> text::has_alphanumeric(service_name@),
        r matches Ok(player) ==> {
            &&& player.player.state.identity@ == identity@
            &&& player.service_name@ == names::instance_name(service_name@)
            &&& !player.active
            &&& player.properties_changed.names.len() == 0
            &&& !player.player.listeners.button_pressed@.contains_key(callback)
            &&& !player.player.listeners.position_changed@.contains_key(callback)
            &&& !player.player.listeners.position_seeked@.contains_key(callback)
            &&& player.player.state.can_control
            &&& !player.player.state.can_play
            &&& !player.player.state.can_pause
            &&& !player.player.state.can_go_next
            &&& !player.player.state.can_go_previous
            &&& !player.player.state.can_seek
            &&& player.player.state.playback_status is Unknown
            &&& player.player.state.media_type is Unknown
        },
{
    listeners::law_nobody_listens_at_first(callback);
    if r is Ok {
        let player = r->Ok_0;
        assert(player@.player.listeners == player.player.listeners@);
        if player.properties_changed.names.len() > 0 {
            law_map_entries(player.properties_changed, 0, Seq::<char>::empty());
            assert(player@.pending.contains_key(player.properties_changed.names@[0]@));
        }
    }
}

/// The names that the bus knows a player by are made of the given one.
pub proof fn law_names_made(
    raw: &str,
    instance: Result<String, String>,
    bus: String,
    path: Option<String>,
)
    ensures
        call_ensures(names::sanitize_mpris_instance_name, (raw,), instance) ==> {
            &&& instance is Ok <==> text::has_alphanumeric(raw@)
            &&& instance matches Ok(name) ==> name@ == names::instance_name(raw@)
        },
        call_ensures(names::mpris_bus_name, (raw,), bus) ==> bus@ == "org.mpris.MediaPlayer2."@
            + raw@,
        call_ensures(names::sanitize_track_object_path, (raw,), path) ==> {
            &&& path is Some <==> text::has_alphanumeric(raw@)
            &&& path matches Some(path) ==> path@ == "/xosms/trackid/"@ + text::cleaned(raw@, false)
        },
{
    text::lemma_cleaned(raw@, false);
}

/// The value that was set for a name is found under it, and every other name has what it had.
pub proof fn law_value_found<T: View>(
    map: &mut PropertyMap<T>,
    name: String,
    value: T,
    other: &String,
    before: Option<&T>,
    found: Option<&T>,
)
    requires
        old(map).wf(),
        call_ensures(PropertyMap::<T>::get, (old(map), other), before),
        call_ensures(PropertyMap::<T>::insert, (map, name, value), ()),
        call_ensures(PropertyMap::<T>::get, (final(map), other), found),
    ensures
        other@ == name@ ==> (found matches Some(it) && it@ == value@),
        other@ != name@ ==> (found is None <==> before is None),
        other@ != name@ && before is Some ==> found->0@ == before->0@,
{
}

/// While a session serves, a message goes to the player that is registered and to nobody where none is, a
/// message is sent, and a request for a name goes to the bus; the session waits for the answer.
pub proof fn law_session_serves(
    session: &mut DBusSession,
    event: SessionEvent,
    r: SessionAction,
)
    requires
        call_ensures(DBusSession::step, (session, event), r),
        old(session).phase is Serving,
    ensures
        event is Message ==> {
            &&& old(session).registered is Some ==> r is Dispatch
            &&& old(session).registered is None ==> r is Discard
            &&& final(session)@ == old(session)@
        },
        event is Emit ==> r is Send && final(session)@ == old(session)@,
        event matches SessionEvent::Register(name) ==> {
            &&& final(session)@.registered == old(session)@.registered
            &&& final(session)@.phase == SessionPhaseView::Claiming(name@)
            &&& r@ == (SessionActionView::RequestName {
                name: name@,
                allow_replacement: false,
                replace_existing: true,
                do_not_queue: true,
            })
        },
        event matches SessionEvent::Unregister(name) ==> {
            let registered = old(session)@.registered == Some(name@);
            &&& registered ==> r@ == SessionActionView::ReleaseName(name@)
                && final(session).phase is Releasing && final(session).registered is None
            &&& !registered ==> r@ == SessionActionView::Respond(false) && final(session)@ == old(
                session,
            )@
        },
        event is Disconnected ==> r is Connect && final(session).phase is Connecting
            && final(session)@.registered == old(session)@.registered,
{
}

/// While a session waits for an answer of the bus, the answer says what becomes of the name: the one that
/// makes the connection its owner registers the player, or serves the one that is registered; any other
/// one leaves it, and a connection without the name of its player is given up.
pub proof fn law_session_answered(
    session: &mut DBusSession,
    reply: Option<RequestNameReply>,
    r: SessionAction,
)
    requires
        call_ensures(DBusSession::step, (session, SessionEvent::NameReply(reply)), r),
    ensures
        ({
            let granted = reply == Some(RequestNameReply::PrimaryOwner);
            &&& old(session).phase matches SessionPhase::Claiming(name) ==> {
                &&& final(session).phase is Serving
                &&& r@ == SessionActionView::Respond(granted)
                &&& final(session)@.registered == if granted {
                    Some(name@)
                } else {
                    old(session)@.registered
                }
            }
            &&& old(session).phase is Reclaiming ==> {
                &&& final(session)@.registered == old(session)@.registered
                &&& granted ==> final(session).phase is Serving && r is Serve
                &&& !granted ==> final(session).phase is Connecting && r@
                    == SessionActionView::ConnectLater(250)
            }
        }),
{
}

/// A name that was released is answered with success exactly where the bus says that it was.
pub proof fn law_session_released(
    session: &mut DBusSession,
    reply: Option<ReleaseNameReply>,
    r: SessionAction,
)
    requires
        call_ensures(DBusSession::step, (session, SessionEvent::ReleaseReply(reply)), r),
        old(session).phase is Releasing,
    ensures
        r@ == SessionActionView::Respond(reply == Some(ReleaseNameReply::Released)),
        final(session).phase is Serving,
        final(session)@.registered == old(session)@.registered,
{
}

/// A player tells its identity, and of what it does not have that it has nothing; a request for what it does
/// not do has no effect.
pub proof fn law_fixed_answers(
    player: &MprisPlayer,
    changed: &mut MprisPlayer,
    told: String,
    list: Vec<String>,
    value: &String,
    flag: bool,
)
    ensures
        call_ensures(MprisPlayer::identity, (player,), told) ==> told@ == player.state.identity@,
        call_ensures(MprisPlayer::desktop_entry, (player,), told) ==> told@.len() == 0,
        call_ensures(MprisPlayer::loop_status, (player,), told) ==> told@ == "None"@,
        call_ensures(MprisPlayer::supported_uri_schemes, (player,), list) ==> list.len() == 0,
        call_ensures(MprisPlayer::supported_mime_types, (player,), list) ==> list.len() == 0,
        call_ensures(MprisPlayer::raise, (changed,), ()) ==> final(changed)@ == old(changed)@,
        call_ensures(MprisPlayer::quit, (changed,), ()) ==> final(changed)@ == old(changed)@,
        call_ensures(MprisPlayer::set_fullscreen, (changed, flag), ()) ==> final(changed)@ == old(
            changed,
        )@,
        call_ensures(MprisPlayer::set_shuffle, (changed, flag), ()) ==> final(changed)@ == old(
            changed,
        )@,
        call_ensures(MprisPlayer::set_loop_status, (changed, value), ()) ==> final(changed)@ == old(
            changed,
        )@,
{
}

/// A request that is refused is told why: one that the player is not able to do, or does not know, failed,
/// and a rate out of range is an argument that is not accepted.
pub proof fn law_refusals_told(
    player: &MprisPlayer,
    changed: &mut MprisPlayer,
    uri: &String,
    value: Double,
    answer: Result<Emission, MethodError>,
    opened: Result<(), MethodError>,
    rated: Result<Option<Emission>, MethodError>,
)
    ensures
        call_ensures(MprisPlayer::play_pause, (player,), answer) ==> (answer matches Err(error)
            ==> error@ == MethodErrorView::Failed("This media player cannot play or pause"@)),
        call_ensures(MprisPlayer::stop, (player,), answer) ==> (answer matches Err(error) ==> error@
            == MethodErrorView::Failed("This media player cannot be controlled"@)),
        call_ensures(MprisPlayer::open_uri, (player, uri), opened) ==> (opened matches Err(error)
            && error@ == MethodErrorView::Failed("OpenUri is not supported"@)),
        call_ensures(MprisPlayer::set_rate, (changed, value), rated) ==> (rated matches Err(error)
            ==> error@ == MethodErrorView::InvalidArg("Rate out of MinimumRate..MaximumRate"@)),
{
}

/// A new position calls for a signal where it is a jump, and no whole second has elapsed.
pub proof fn law_seek_signalled(
    state: &MprisPlayerState,
    next_position: Double,
    elapsed_secs: u64,
    r: bool,
)
    requires
        call_ensures(MprisPlayerState::is_seek, (state, next_position, elapsed_secs), r),
    ensures
        elapsed_secs > 0 ==> !r,
        elapsed_secs == 0 ==> r == state@.jumps_to(next_position),
{
}

/// A session starts without a connection and without a player. A player is registered and unregistered by
/// its bus name, and a request without an answer failed.
pub proof fn law_session_requests(
    session: DBusSession,
    name: &str,
    event: SessionEvent,
    answer: Option<bool>,
    reply: Option<RequestNameReply>,
    r: bool,
)
    ensures
        call_ensures(DBusSession::new, (), session) ==> session.phase is Connecting
            && session.registered is None,
        call_ensures(DBusSession::register, (name,), event) ==> (
        event matches SessionEvent::Register(bus) && bus@ == "org.mpris.MediaPlayer2."@ + name@),
        call_ensures(DBusSession::unregister, (name,), event) ==> (
        event matches SessionEvent::Unregister(bus) && bus@ == "org.mpris.MediaPlayer2."@ + name@),
        call_ensures(DBusSession::outcome, (answer,), r) ==> (r <==> answer == Some(true)),
        call_ensures(session::claim_bus_name, (reply,), r) ==> (r <==> reply == Some(
            RequestNameReply::PrimaryOwner,
        )),
{
}

/// Whoever reads the metadata of a player finds each text of the track under its own name.
pub proof fn law_metadata_told(
    player: &MprisPlayer,
    metadata: PropertyMap<MetadataValue>,
    name: &String,
    found: Option<&MetadataValue>,
)
    requires
        call_ensures(MprisPlayer::metadata, (player,), metadata)
            || call_ensures(MprisPlayerState::metadata_map, (&player.state,), metadata),
        call_ensures(PropertyMap::<MetadataValue>::get, (&metadata, name), found),
    ensures
        name@ == "xesam:title"@ ==> (found matches Some(MetadataValue::Text(text)) && text@
            == player.state.title@),
        name@ == "xesam:album"@ ==> (found matches Some(MetadataValue::Text(text)) && text@
            == player.state.album_title@),
        name@ == "mpris:artUrl"@ ==> (found matches Some(MetadataValue::Text(text)) && text@
            == player.state.thumbnail@),
        name@ == "xesam:artist"@ ==> (found matches Some(MetadataValue::TextList(texts))
            && texts.len() == 1 && texts@[0]@ == player.state.artist@),
        name@ == "mpris:trackid"@ ==> (found matches Some(MetadataValue::ObjectPath(path)) && path@
            == player.state@.track_object_path()),
        name@ == "mpris:length"@ ==> (found matches Some(MetadataValue::Int64(_))),
{
    crate::linux::state::law_metadata_entries(player.state@);
    assert(metadata.wf());
    if name@ == "xesam:artist"@ {
        assert(found is Some);
        let texts = found->0->TextList_0;
        assert(found->0@ == MetadataValueView::TextList(seq![player.state.artist@]));
        assert(texts@.map_values(|text: String| text@) == seq![player.state.artist@]);
        assert(texts@.map_values(|text: String| text@)[0] == texts@[0]@);
    }
}

} // verus!
