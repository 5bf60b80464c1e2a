use vstd::prelude::*;

verus! {

/// Classification of the current playback activity, as shown by the presence
/// sink. A missing or unknown raw media type falls back to `Playing`.
#[derive(Clone, Copy, Debug, PartialEq, Eq, Structural)]
pub enum MediaKind {
    Listening,
    Watching,
    Playing,
}

/// The media item a session is currently playing, reduced to the fields the
/// presence display uses. A field the source omitted is held as the empty
/// string: missing metadata is a legal state, not an error.
pub struct NowPlayingItem {
    pub media_type: String,
    pub name: String,
    pub album: String,
    pub album_artist: String,
    pub item_id: String,
}

/// One active playback record reported by the media source: who is playing,
/// and what, if anything.
pub struct Session {
    pub user_name: String,
    pub now_playing: Option<NowPlayingItem>,
}

/// The normalized presence value that one cycle derives and may publish:
/// a media kind, a primary line (the title), a secondary line (credits for
/// audio, empty otherwise), and an image URL, which stays empty until a
/// publish decision is confirmed.
pub struct PresenceState {
    pub kind: MediaKind,
    pub primary: String,
    pub secondary: String,
    pub image_url: String,
}

/// What `classify_kind` returns for a raw media-type string.
pub open spec fn kind_spec(media_type: Seq<char>) -> MediaKind {
    if media_type == "Audio"@ {
        MediaKind::Listening
    } else if media_type == "Video"@ {
        MediaKind::Watching
    } else {
        MediaKind::Playing
    }
}

/// String equality on `&str`, visible to the verifier as equality of the
/// character sequences.
pub fn str_eq(a: &str, b: &str) -> (r: bool)
    ensures
        r == (a@ == b@),
{
    let sa: String = a.to_owned();
    let sb: String = b.to_owned();
    sa == sb
}

/// Classify a raw media-type string: `"Audio"` plays as `Listening`,
/// `"Video"` as `Watching`, anything else (including empty) as `Playing`.
pub fn classify_kind(media_type: &str) -> (k: MediaKind)
    ensures
        k == kind_spec(media_type@),
{
    if str_eq(media_type, "Audio") {
        MediaKind::Listening
    } else if str_eq(media_type, "Video") {
        MediaKind::Watching
    } else {
        MediaKind::Playing
    }
}

} // verus!
