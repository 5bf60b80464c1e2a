use jellyfin_rpc::builder::build_presence;
use jellyfin_rpc::builder::secondary_line;
use jellyfin_rpc::builder::with_image;
use jellyfin_rpc::detector::should_publish;
use jellyfin_rpc::detector::Decision;
use jellyfin_rpc::detector::FAST_POLL_SECS;
use jellyfin_rpc::detector::SLOW_POLL_SECS;
use jellyfin_rpc::image::fallback_image_url;
use jellyfin_rpc::image::image_request_url;
use jellyfin_rpc::image::resolve_image;
use jellyfin_rpc::image::ImageOutcome;
use jellyfin_rpc::model::classify_kind;
use jellyfin_rpc::model::MediaKind;
use jellyfin_rpc::model::NowPlayingItem;
use jellyfin_rpc::model::PresenceState;
use jellyfin_rpc::model::Session;
use jellyfin_rpc::publisher::select_template;
use jellyfin_rpc::setup::auth_header_value;
use jellyfin_rpc::setup::classify_probe;
use jellyfin_rpc::setup::effective_client_id;
use jellyfin_rpc::setup::sessions_request_url;
use jellyfin_rpc::setup::validate_credentials;
use jellyfin_rpc::setup::Credentials;
use jellyfin_rpc::setup::SetupError;
use jellyfin_rpc::setup::DEFAULT_DISCORD_CLIENT_ID;

fn item(media_type: &str, name: &str, album: &str, album_artist: &str, id: &str) -> NowPlayingItem {
    NowPlayingItem {
        media_type: media_type.to_owned(),
        name: name.to_owned(),
        album: album.to_owned(),
        album_artist: album_artist.to_owned(),
        item_id: id.to_owned(),
    }
}

fn playing_session(user: &str, it: NowPlayingItem) -> Session {
    Session { user_name: user.to_owned(), now_playing: Some(it) }
}

#[test]
fn classify_audio_video_other() {
    assert_eq!(classify_kind("Audio"), MediaKind::Listening);
    assert_eq!(classify_kind("Video"), MediaKind::Watching);
    assert_eq!(classify_kind("Book"), MediaKind::Playing);
    assert_eq!(classify_kind(""), MediaKind::Playing);
}

#[test]
fn builder_none_for_other_user() {
    let s = playing_session("bob", item("Audio", "Song A", "Album X", "Artist Y", "123"));
    assert!(build_presence(&s, "alice").is_none());
}

#[test]
fn builder_none_when_nothing_plays() {
    let s = Session { user_name: "alice".to_owned(), now_playing: None };
    assert!(build_presence(&s, "alice").is_none());
}

#[test]
fn builder_audio_secondary_line() {
    let s = playing_session("alice", item("Audio", "Song A", "Album X", "Artist Y", "123"));
    let p = build_presence(&s, "alice").unwrap();
    assert_eq!(p.kind, MediaKind::Listening);
    assert_eq!(p.primary, "Song A");
    assert_eq!(p.secondary, "by Artist Y on Album X");
    assert_eq!(p.image_url, "");
}

#[test]
fn builder_audio_secondary_line_with_empty_subfields() {
    let s = playing_session("alice", item("Audio", "Song A", "", "", "123"));
    let p = build_presence(&s, "alice").unwrap();
    assert_eq!(p.secondary, "by  on ");
}

#[test]
fn builder_non_audio_secondary_empty() {
    let s = playing_session("alice", item("Video", "Film B", "ignored", "ignored", "9"));
    let p = build_presence(&s, "alice").unwrap();
    assert_eq!(p.kind, MediaKind::Watching);
    assert_eq!(p.primary, "Film B");
    assert_eq!(p.secondary, "");
}

#[test]
fn builder_empty_title_is_legal() {
    let s = playing_session("alice", item("Audio", "", "Album X", "Artist Y", "123"));
    let p = build_presence(&s, "alice").unwrap();
    assert_eq!(p.primary, "");
}

#[test]
fn secondary_line_only_for_listening() {
    assert_eq!(secondary_line(MediaKind::Listening, "A", "B"), "by A on B");
    assert_eq!(secondary_line(MediaKind::Watching, "A", "B"), "");
    assert_eq!(secondary_line(MediaKind::Playing, "A", "B"), "");
}

fn state(kind: MediaKind, primary: &str, secondary: &str, image: &str) -> PresenceState {
    PresenceState {
        kind,
        primary: primary.to_owned(),
        secondary: secondary.to_owned(),
        image_url: image.to_owned(),
    }
}

#[test]
fn detector_publishes_on_first_cycle() {
    let c = state(MediaKind::Listening, "Song A", "by A on B", "");
    assert_eq!(should_publish(&c, &None), Decision::Publish);
}

#[test]
fn detector_suppresses_equal_title() {
    let prev = state(MediaKind::Listening, "Song A", "by A on B", "u");
    let c = state(MediaKind::Listening, "Song A", "by A on B", "");
    assert_eq!(should_publish(&c, &Some(prev)), Decision::Suppress);
}

#[test]
fn detector_title_only_comparison() {
    // Same title, different album metadata: still suppressed.
    let prev = state(MediaKind::Listening, "Song A", "by A on Album X", "u");
    let c = state(MediaKind::Listening, "Song A", "by A on Album Z", "");
    assert_eq!(should_publish(&c, &Some(prev)), Decision::Suppress);
}

#[test]
fn detector_publishes_on_new_title() {
    let prev = state(MediaKind::Listening, "Song A", "", "u");
    let c = state(MediaKind::Listening, "Song B", "", "");
    assert_eq!(should_publish(&c, &Some(prev)), Decision::Publish);
}

#[test]
fn poll_intervals_are_two_tier() {
    assert_eq!(FAST_POLL_SECS, 5);
    assert_eq!(SLOW_POLL_SECS, 10);
}

#[test]
fn image_failure_falls_back() {
    let url = resolve_image(ImageOutcome::Failure { status: 404 });
    assert_eq!(url, fallback_image_url());
    let url = resolve_image(ImageOutcome::Failure { status: 500 });
    assert_eq!(url, fallback_image_url());
}

#[test]
fn image_success_returns_resolved_url() {
    // The resolved URL, not the request URL, comes back.
    let request = image_request_url("http://media", "123");
    let resolved = "http://cdn/real.png".to_owned();
    let url = resolve_image(ImageOutcome::Success { resolved_url: resolved.clone() });
    assert_eq!(url, resolved);
    assert_ne!(url, request);
}

#[test]
fn with_image_keeps_other_fields() {
    let p = state(MediaKind::Listening, "Song A", "by A on B", "");
    let q = with_image(p, "http://cdn/a.png".to_owned());
    assert_eq!(q.kind, MediaKind::Listening);
    assert_eq!(q.primary, "Song A");
    assert_eq!(q.secondary, "by A on B");
    assert_eq!(q.image_url, "http://cdn/a.png");
}

#[test]
fn template_for_listening() {
    let p = state(MediaKind::Listening, "Song A", "by A on B", "http://cdn/a.png");
    let a = select_template(&p);
    assert_eq!(a.kind, MediaKind::Listening);
    assert_eq!(a.details.as_deref(), Some("Song A"));
    assert_eq!(a.state_line, "by A on B");
    assert_eq!(a.large_image.as_deref(), Some("http://cdn/a.png"));
}

#[test]
fn template_for_other_kinds() {
    let p = state(MediaKind::Watching, "Film B", "", "http://cdn/a.png");
    let a = select_template(&p);
    assert_eq!(a.kind, MediaKind::Watching);
    assert!(a.details.is_none());
    assert_eq!(a.state_line, "Film B");
    assert!(a.large_image.is_none());
}

fn creds(endpoint: &str, username: &str, client_id: Option<u64>) -> Credentials {
    Credentials {
        endpoint: endpoint.to_owned(),
        api_key: "key".to_owned(),
        username: username.to_owned(),
        client_id,
    }
}

#[test]
fn validate_rejects_empty_endpoint() {
    let r = validate_credentials(&creds("", "alice", None));
    assert_eq!(r, Err(SetupError::EmptyEndpoint));
}

#[test]
fn validate_rejects_empty_username() {
    let r = validate_credentials(&creds("http://media", "", None));
    assert_eq!(r, Err(SetupError::EmptyUsername));
}

#[test]
fn validate_accepts_complete_credentials() {
    let r = validate_credentials(&creds("http://media", "alice", Some(7)));
    assert_eq!(r, Ok(()));
}

#[test]
fn probe_statuses() {
    assert_eq!(classify_probe(200), Ok(()));
    assert_eq!(classify_probe(401), Err(SetupError::Unauthorized));
    assert_eq!(classify_probe(503), Err(SetupError::ProbeFailed { status: 503 }));
}

#[test]
fn client_id_default() {
    assert_eq!(effective_client_id(&Some(42)), 42);
    assert_eq!(effective_client_id(&None), DEFAULT_DISCORD_CLIENT_ID);
}

#[test]
fn request_urls_and_auth_header() {
    assert_eq!(
        sessions_request_url("http://media"),
        "http://media/Sessions?activeWithinSeconds=1"
    );
    assert_eq!(
        image_request_url("http://media", "123"),
        "http://media/Items/123/Images/Primary"
    );
    assert_eq!(auth_header_value("secret"), "MediaBrowser Token=secret");
}
