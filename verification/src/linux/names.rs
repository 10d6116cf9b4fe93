//! Names and object paths on the message bus.
use vstd::prelude::*;

use crate::text;

verus! {

/// A name element that the bus accepts: `[A-Za-z_][A-Za-z0-9_-]*`.
pub open spec fn is_name_element(s: Seq<char>) -> bool {
    &&& s.len() > 0
    &&& text::is_letter(s[0]) || s[0] == '_'
    &&& forall|i: int| 0 <= i < s.len() ==> text::is_allowed(#[trigger] s[i], true)
}

/// An object path that the bus accepts: the root, or elements of `[A-Za-z0-9_]` with a slash before
/// each of them.
pub open spec fn is_object_path(p: Seq<char>) -> bool {
    &&& p.len() > 0
    &&& p[0] == '/'
    &&& forall|i: int| 0 <= i < p.len() ==> #[trigger] p[i] == '/' || text::is_allowed(p[i], false)
    &&& forall|i: int| 0 < i < p.len() && #[trigger] p[i] == '/' ==> p[i - 1] != '/'
    &&& p.len() > 1 ==> p.last() != '/'
}

/// The instance name that stands for `raw`, where it holds a letter or a digit.
pub open spec fn instance_name(raw: Seq<char>) -> Seq<char> {
    let name = text::cleaned(raw, true);
    if text::is_digit(name[0]) {
        "p"@ + name
    } else {
        name
    }
}

/// The bus name of the media player with the given instance name.
pub open spec fn bus_name(instance: Seq<char>) -> Seq<char> {
    "org.mpris.MediaPlayer2."@ + instance
}

/// The object path of the track with the given id, if the id holds a letter or a digit.
pub open spec fn track_path(track_id: Seq<char>) -> Option<Seq<char>> {
    let element = text::cleaned(track_id, false);
    if element.len() == 0 {
        None
    } else {
        Some("/xosms/trackid/"@ + element)
    }
}

/// An instance name is made exactly of the texts that hold an ASCII letter or digit, and the bus
/// accepts it as a name element.
pub proof fn law_instance_name_accepted(raw: Seq<char>)
    ensures
        text::cleaned(raw, true).len() > 0 <==> text::has_alphanumeric(raw),
        text::has_alphanumeric(raw) ==> is_name_element(instance_name(raw)),
{
    text::lemma_cleaned(raw, true);
    let name = text::cleaned(raw, true);
    if name.len() > 0 {
        reveal_strlit("p");
        let r = instance_name(raw);
        assert forall|i: int| 0 <= i < r.len() implies text::is_allowed(#[trigger] r[i], true) by {
            if text::is_digit(name[0]) && i > 0 {
                assert(r[i] == name[i - 1]);
            }
        }
    }
}

/// Making an instance name of an instance name changes nothing.
pub proof fn law_instance_name_idempotent(raw: Seq<char>)
    requires
        text::has_alphanumeric(raw),
    ensures
        text::has_alphanumeric(instance_name(raw)),
        instance_name(instance_name(raw)) == instance_name(raw),
{
    text::lemma_cleaned(raw, true);
    law_instance_name_accepted(raw);
    reveal_strlit("p");
    let name = text::cleaned(raw, true);
    let r = instance_name(raw);
    assert(text::is_alphanumeric(r[0]));
    assert forall|i: int| 0 < i < r.len() && #[trigger] r[i] == '_' implies r[i - 1] != '_' by {
        if text::is_digit(name[0]) {
            assert(r[i] == name[i - 1]);
            if i > 1 {
                assert(r[i - 1] == name[i - 2]);
            }
        }
    }
    assert(r.last() == name.last());
    text::lemma_cleaned_fixed(r, true);
}

/// The path of a track is a path that the bus accepts; a track has one exactly where its id holds an
/// ASCII letter or digit.
pub proof fn law_track_path_accepted(track_id: Seq<char>)
    ensures
        track_path(track_id) is Some <==> text::has_alphanumeric(track_id),
        track_path(track_id) matches Some(path) ==> is_object_path(path),
{
    text::lemma_cleaned(track_id, false);
    let element = text::cleaned(track_id, false);
    if element.len() > 0 {
        reveal_strlit("/xosms/trackid/");
        let prefix = "/xosms/trackid/"@;
        let path = prefix + element;
        assert forall|i: int| 0 <= i < path.len() implies #[trigger] path[i] == '/'
            || text::is_allowed(path[i], false) by {
            if i >= prefix.len() {
                assert(path[i] == element[i - prefix.len()]);
            }
        }
        assert forall|i: int| 0 < i < path.len() && #[trigger] path[i] == '/' implies path[i - 1]
            != '/' by {
            if i >= prefix.len() {
                assert(path[i] == element[i - prefix.len()]);
            }
        }
        assert(path.last() == element.last());
    }
}

/// Cleaning the element of a track path again gives the same path.
pub proof fn law_track_path_idempotent(track_id: Seq<char>)
    ensures
        track_path(text::cleaned(track_id, false)) == track_path(track_id),
{
    text::lemma_cleaned(track_id, false);
    text::lemma_cleaned_fixed(text::cleaned(track_id, false), false);
}

/// Sanitize a user-provided MPRIS instance name into a valid D-Bus name element.
///
/// D-Bus well-known name elements must match `[A-Za-z_][A-Za-z0-9_-]*`.
pub fn sanitize_mpris_instance_name(raw: &str) -> (r: Result<String, String>)
    ensures
        r is Ok <==> text::has_alphanumeric(raw@),
        r matches Ok(name) ==> name@ == instance_name(raw@) && is_name_element(name@),
        r matches Err(reason) ==> reason@
            == "serviceName must contain at least one alphanumeric character for MPRIS D-Bus registration"@,
{
    let sanitized = text::clean(raw, true);
    proof {
        law_instance_name_accepted(raw@);
    }
    if sanitized.len() == 0 {
        return Err(
            "serviceName must contain at least one alphanumeric character for MPRIS D-Bus registration".to_owned(),
        );
    }
    let first = sanitized[0];
    if '0' <= first && first <= '9' {
        return Ok(text::prefixed("p", &sanitized));
    }
    let name = text::prefixed("", &sanitized);
    proof {
        reveal_strlit("");
        assert(name@ =~= sanitized@);
    }
    Ok(name)
}

/// The bus name of the media player with the given instance name.
pub fn mpris_bus_name(service_name: &str) -> (r: String)
    ensures
        r@ == bus_name(service_name@),
{
    "org.mpris.MediaPlayer2.".to_owned().concat(service_name)
}

/// Build a valid D-Bus object path for `mpris:trackid`.
///
/// Object path elements may only use `[A-Za-z0-9_]`, while raw media ids often contain `-` and other
/// characters.
pub fn sanitize_track_object_path(track_id: &str) -> (r: Option<String>)
    ensures
        r is Some <==> text::has_alphanumeric(track_id@),
        r matches Some(path) ==> track_path(track_id@) == Some(path@) && is_object_path(path@),
{
    let element = text::clean(track_id, false);
    proof {
        law_track_path_accepted(track_id@);
    }
    if element.len() == 0 {
        None
    } else {
        Some(text::prefixed("/xosms/trackid/", &element))
    }
}

/// The object path at which a media player is found.
pub fn mpris_path() -> (r: String)
    ensures
        r@ == "/org/mpris/MediaPlayer2"@,
        is_object_path(r@),
{
    proof {
        reveal_strlit("/org/mpris/MediaPlayer2");
    }
    "/org/mpris/MediaPlayer2".to_owned()
}

/// The object path that stands for no track.
pub fn no_track_path() -> (r: String)
    ensures
        r@ == "/org/mpris/MediaPlayer2/TrackList/NoTrack"@,
        is_object_path(r@),
{
    proof {
        reveal_strlit("/org/mpris/MediaPlayer2/TrackList/NoTrack");
    }
    "/org/mpris/MediaPlayer2/TrackList/NoTrack".to_owned()
}

} // verus!
