use vstd::prelude::*;

use crate::model::MediaKind;
use crate::model::PresenceState;

verus! {

/// The fields handed to the presence sink's set-activity operation, already
/// laid out by template. `Listening` fills all of them; every other kind shows
/// the primary line alone.
pub struct ActivityContent {
    pub kind: MediaKind,
    pub details: Option<String>,
    pub state_line: String,
    pub large_image: Option<String>,
}

/// Lay a presence state out for the sink. For `Listening`: the primary line
/// goes to `details`, the secondary line to `state_line`, and the image to the
/// large asset. For every other kind: the primary line goes to `state_line`,
/// with no details and no image.
pub fn select_template(state: &PresenceState) -> (a: ActivityContent)
    ensures
        a.kind == state.kind,
        state.kind == MediaKind::Listening ==> {
            &&& a.details matches Some(d) && d@ == state.primary@
            &&& a.state_line@ == state.secondary@
            &&& a.large_image matches Some(u) && u@ == state.image_url@
        },
        state.kind != MediaKind::Listening ==> {
            &&& a.details is None
            &&& a.state_line@ == state.primary@
            &&& a.large_image is None
        },
{
    match state.kind {
        MediaKind::Listening => ActivityContent {
            kind: state.kind,
            details: Some(state.primary.clone()),
            state_line: state.secondary.clone(),
            large_image: Some(state.image_url.clone()),
        },
        _ => ActivityContent {
            kind: state.kind,
            details: None,
            state_line: state.primary.clone(),
            large_image: None,
        },
    }
}

} // verus!
