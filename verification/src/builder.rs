use vstd::prelude::*;
use vstd::string::StringExecFns;

use crate::model::MediaKind;
use crate::model::PresenceState;
use crate::model::Session;
use crate::model::classify_kind;
use crate::model::kind_spec;
use crate::model::str_eq;

verus! {

/// The secondary line the builder derives: credits (`"by {artist} on {album}"`)
/// for `Listening`, the empty string for every other kind.
pub open spec fn secondary_spec(kind: MediaKind, album_artist: Seq<char>, album: Seq<char>) -> Seq<
    char,
> {
    if kind == MediaKind::Listening {
        "by "@ + album_artist + " on "@ + album
    } else {
        Seq::<char>::empty()
    }
}

/// Whether the builder derives a state from this session for this target
/// username: the user must match and something must be playing.
pub open spec fn builds_some(s: Session, target: Seq<char>) -> bool {
    s.user_name@ == target && s.now_playing is Some
}

/// The primary line the builder would derive from this session (the item's
/// title), or the empty sequence when nothing is playing.
pub open spec fn built_primary(s: Session) -> Seq<char> {
    match s.now_playing {
        Some(item) => item.name@,
        None => Seq::<char>::empty(),
    }
}

/// The identifier of the session's playing item, used for the image request,
/// or the empty sequence when nothing is playing.
pub open spec fn built_item_id(s: Session) -> Seq<char> {
    match s.now_playing {
        Some(item) => item.item_id@,
        None => Seq::<char>::empty(),
    }
}

/// The state `build_presence` derives from a session that has a now-playing
/// item: kind classified from the raw media type, title as primary line,
/// credits as secondary line for audio, and a still-unresolved image.
pub open spec fn state_matches(p: PresenceState, s: Session) -> bool {
    match s.now_playing {
        Some(item) => {
            &&& p.kind == kind_spec(item.media_type@)
            &&& p.primary@ == item.name@
            &&& p.secondary@ == secondary_spec(p.kind, item.album_artist@, item.album@)
            &&& p.image_url@ == Seq::<char>::empty()
        },
        None => false,
    }
}

/// Build the secondary line for a given kind: `"by {album_artist} on {album}"`
/// when listening (even when either part is empty), empty otherwise.
pub fn secondary_line(kind: MediaKind, album_artist: &str, album: &str) -> (s: String)
    ensures
        s@ == secondary_spec(kind, album_artist@, album@),
{
    match kind {
        MediaKind::Listening => "by ".to_owned().concat(album_artist).concat(" on ").concat(album),
        _ => String::new(),
    }
}

/// Convert one raw session into a presence state for the target username.
/// Returns `None` when the session belongs to another user or nothing is
/// playing; otherwise every field of the state is pinned by `state_matches`.
/// The image URL is left empty here: it is resolved only once a publish
/// decision is confirmed, never on suppressed cycles.
pub fn build_presence(session: &Session, target: &str) -> (r: Option<PresenceState>)
    ensures
        (r is Some) == builds_some(*session, target@),
        r matches Some(p) ==> state_matches(p, *session),
{
    if !str_eq(session.user_name.as_str(), target) {
        return None;
    }
    match &session.now_playing {
        None => None,
        Some(item) => {
            let kind = classify_kind(item.media_type.as_str());
            let secondary = secondary_line(kind, item.album_artist.as_str(), item.album.as_str());
            Some(
                PresenceState {
                    kind,
                    primary: item.name.clone(),
                    secondary,
                    image_url: String::new(),
                },
            )
        },
    }
}

/// Attach a resolved image URL to an already-built state, leaving every other
/// field as it was.
pub fn with_image(state: PresenceState, url: String) -> (r: PresenceState)
    ensures
        r.kind == state.kind,
        r.primary@ == state.primary@,
        r.secondary@ == state.secondary@,
        r.image_url@ == url@,
{
    PresenceState { image_url: url, ..state }
}

} // verus!
