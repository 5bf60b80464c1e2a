use vstd::prelude::*;

use crate::model::NowPlayingItem;
use crate::model::Session;

verus! {

/// Why one cycle's session fetch yielded no sessions. All of these are
/// recoverable: the loop skips the cycle and fetches again later.
#[derive(Clone, Copy, Debug, PartialEq, Eq, Structural)]
pub enum FetchError {
    Unauthorized,
    Unreachable,
    Malformed,
}

/// The fetch error a sessions-response status maps to: none for a success
/// status, an authentication rejection for 401, the server being unreachable
/// for this cycle otherwise.
pub open spec fn fetch_status_spec(status: u16) -> Option<FetchError> {
    if 200 <= status && status < 300 {
        None
    } else if status == 401 {
        Some(FetchError::Unauthorized)
    } else {
        Some(FetchError::Unreachable)
    }
}

/// Judge the HTTP status of the sessions response: a success status carries no
/// error, any other is classified, the authentication rejection apart from the
/// rest.
pub fn check_fetch_status(status: u16) -> (r: Option<FetchError>)
    ensures
        r == fetch_status_spec(status),
{
    if 200 <= status && status < 300 {
        None
    } else if status == 401 {
        Some(FetchError::Unauthorized)
    } else {
        Some(FetchError::Unreachable)
    }
}

#[verifier::external_type_specification]
#[verifier::external_body]
pub struct ExValue(serde_json::Value);

/// The number of elements of a JSON value, when it is an array.
pub uninterp spec fn array_len_of(v: serde_json::Value) -> Option<usize>;

/// The element of a JSON array at a position, when there is one.
pub uninterp spec fn elem_of(v: serde_json::Value, i: usize) -> Option<serde_json::Value>;

/// The value under a key of a JSON object, when there is one.
pub uninterp spec fn key_of(v: serde_json::Value, key: Seq<char>) -> Option<serde_json::Value>;

/// The text of a JSON value, when it is a string.
pub uninterp spec fn str_of(v: serde_json::Value) -> Option<Seq<char>>;

/// Relies on serde_json::Value::as_array: the number of elements when the
/// value is a JSON array, None otherwise. Both it and Value::get answer from
/// the same array, so every position under that length holds an element.
#[verifier::external_body]
fn json_array_len(v: &serde_json::Value) -> (r: Option<usize>)
    ensures
        r == array_len_of(*v),
        r matches Some(n) ==> forall|i: usize| i < n ==> (#[trigger] elem_of(*v, i)) is Some,
{
    v.as_array().map(|a| a.len())
}

/// Relies on serde_json::Value::get with a usize index: the element at that
/// position when the value is an array and the index is in bounds, None
/// otherwise.
#[verifier::external_body]
fn json_get_index(v: &serde_json::Value, i: usize) -> (r: Option<&serde_json::Value>)
    ensures
        (r is Some) == (elem_of(*v, i) is Some),
        r matches Some(e) ==> elem_of(*v, i) == Some(*e),
{
    v.get(i)
}

/// Relies on serde_json::Value::get with a string key: the value under that
/// key when the value is an object holding it, None otherwise.
#[verifier::external_body]
fn json_get_key<'a>(v: &'a serde_json::Value, key: &str) -> (r: Option<&'a serde_json::Value>)
    ensures
        (r is Some) == (key_of(*v, key@) is Some),
        r matches Some(e) ==> key_of(*v, key@) == Some(*e),
{
    v.get(key)
}

/// Relies on serde_json::Value::as_str: the owned text when the value is a
/// JSON string, None otherwise.
#[verifier::external_body]
fn json_as_str(v: &serde_json::Value) -> (r: Option<String>)
    ensures
        (r is Some) == (str_of(*v) is Some),
        r matches Some(s) ==> str_of(*v) == Some(s@),
{
    v.as_str().map(|s| s.to_owned())
}

/// The `UserName` of a session record: the text under that key, when the key
/// is there and holds a string.
pub open spec fn user_name_of(v: serde_json::Value) -> Option<Seq<char>> {
    match key_of(v, "UserName"@) {
        Some(u) => str_of(u),
        None => None,
    }
}

/// The text under a key of an item, degraded to the empty sequence when the
/// key is missing or does not hold a string.
pub open spec fn field_text_of(item: serde_json::Value, key: Seq<char>) -> Seq<char> {
    match key_of(item, key) {
        Some(f) => match str_of(f) {
            Some(s) => s,
            None => Seq::<char>::empty(),
        },
        None => Seq::<char>::empty(),
    }
}

/// The now-playing fields read from an item's JSON form, each degraded to
/// empty when missing.
pub open spec fn item_matches_json(np: NowPlayingItem, item: serde_json::Value) -> bool {
    &&& np.media_type@ == field_text_of(item, "MediaType"@)
    &&& np.name@ == field_text_of(item, "Name"@)
    &&& np.album@ == field_text_of(item, "Album"@)
    &&& np.album_artist@ == field_text_of(item, "AlbumArtist"@)
    &&& np.item_id@ == field_text_of(item, "Id"@)
}

/// The session read from one record's JSON form: its `UserName`, and its
/// `NowPlayingItem` exactly when the record carries one.
pub open spec fn session_matches_json(s: Session, v: serde_json::Value) -> bool {
    &&& user_name_of(v) == Some(s.user_name@)
    &&& match key_of(v, "NowPlayingItem"@) {
        Some(item) => s.now_playing matches Some(np) && item_matches_json(np, item),
        None => s.now_playing is None,
    }
}

/// Record `i` of the sessions array exists and parses as a session: it must
/// carry a string `UserName`.
pub open spec fn elem_is_session(v: serde_json::Value, i: int) -> bool {
    elem_of(v, i as usize) matches Some(e) && user_name_of(e) is Some
}

/// Session `s` is what record `i` of the sessions array parses to.
pub open spec fn parsed_elem_ok(v: serde_json::Value, s: Session, i: int) -> bool {
    elem_of(v, i as usize) matches Some(e) && session_matches_json(s, e)
}

/// The sessions response parses: the value is a JSON array, every record of
/// which parses as a session.
pub open spec fn sessions_parse_ok(v: serde_json::Value) -> bool {
    match array_len_of(v) {
        Some(n) => forall|i: int| 0 <= i < n ==> elem_is_session(v, i),
        None => false,
    }
}

/// The given string, or empty when there was none: a missing metadata field
/// degrades to the empty string rather than failing the cycle.
fn string_or_empty(o: Option<String>) -> (s: String)
    ensures
        s@ == (match o {
            Some(x) => x@,
            None => Seq::<char>::empty(),
        }),
{
    match o {
        Some(x) => x,
        None => String::new(),
    }
}

/// The text under `key`, or empty when the key is missing or not a string.
fn field_string(item: &serde_json::Value, key: &str) -> (s: String)
    ensures
        s@ == field_text_of(*item, key@),
{
    match json_get_key(item, key) {
        None => String::new(),
        Some(f) => string_or_empty(json_as_str(f)),
    }
}

/// Read one session record from its JSON form. `None` exactly when the record
/// is malformed: a session must carry a string `UserName`. A missing
/// `NowPlayingItem` is a legal idle session; within a present item, every
/// missing field degrades to the empty string.
pub fn session_from_json(v: &serde_json::Value) -> (r: Option<Session>)
    ensures
        (r is Some) == (user_name_of(*v) is Some),
        r matches Some(s) ==> session_matches_json(s, *v),
{
    let user_value = match json_get_key(v, "UserName") {
        None => {
            return None;
        },
        Some(u) => u,
    };
    let user_name = match json_as_str(user_value) {
        None => {
            return None;
        },
        Some(name) => name,
    };
    match json_get_key(v, "NowPlayingItem") {
        None => Some(Session { user_name, now_playing: None }),
        Some(item) => {
            let media_type = field_string(item, "MediaType");
            let name = field_string(item, "Name");
            let album = field_string(item, "Album");
            let album_artist = field_string(item, "AlbumArtist");
            let item_id = field_string(item, "Id");
            Some(
                Session {
                    user_name,
                    now_playing: Some(
                        NowPlayingItem { media_type, name, album, album_artist, item_id },
                    ),
                },
            )
        },
    }
}

/// Read the sessions response: a JSON array of session records, in their
/// order. It succeeds exactly when the response parses; any other shape — not
/// an array, or a record without a string `UserName` — is the one error this
/// produces, `Malformed`; the other fetch errors come from the transport,
/// before a body exists.
pub fn sessions_from_json(v: &serde_json::Value) -> (r: Result<Vec<Session>, FetchError>)
    ensures
        (r is Ok) == sessions_parse_ok(*v),
        r matches Err(e) ==> e == FetchError::Malformed,
        r matches Ok(out) ==> (array_len_of(*v) matches Some(n) && out@.len() == n && forall|
            j: int,
        | 0 <= j < n ==> parsed_elem_ok(*v, #[trigger] out@[j], j)),
{
    let n = match json_array_len(v) {
        None => {
            return Err(FetchError::Malformed);
        },
        Some(n) => n,
    };
    let mut out: Vec<Session> = Vec::new();
    let mut i: usize = 0;
    while i < n
        invariant
            array_len_of(*v) == Some(n),
            0 <= i <= n,
            out@.len() == i,
            forall|j: int| 0 <= j < i ==> parsed_elem_ok(*v, #[trigger] out@[j], j),
        decreases n - i,
    {
        let elem = match json_get_index(v, i) {
            None => {
                proof {
                    assert(!elem_is_session(*v, i as int));
                }
                return Err(FetchError::Malformed);
            },
            Some(e) => e,
        };
        let session = match session_from_json(elem) {
            None => {
                proof {
                    assert(!elem_is_session(*v, i as int));
                }
                return Err(FetchError::Malformed);
            },
            Some(s) => s,
        };
        proof {
            assert(parsed_elem_ok(*v, session, i as int));
        }
        let ghost prev = out@;
        out.push(session);
        i += 1;
        proof {
            assert forall|j: int| 0 <= j < i implies parsed_elem_ok(
                *v,
                #[trigger] out@[j],
                j,
            ) by {
                if j < prev.len() as int {
                    assert(parsed_elem_ok(*v, prev[j], j));
                    assert(out@[j] == prev[j]);
                } else {
                    assert(out@[j] == session);
                }
            }
        }
    }
    proof {
        assert forall|j: int| 0 <= j < n implies elem_is_session(*v, j) by {
            assert(parsed_elem_ok(*v, out@[j], j));
        }
    }
    Ok(out)
}

} // verus!
