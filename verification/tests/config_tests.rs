use jadwiga::config::RawConfig;
use jadwiga::error::Error;
use jadwiga::webfinger::find;

fn raw(root: &str) -> RawConfig {
    RawConfig {
        db_url: "db.sqlite".to_string(),
        pub_key: "PEM".to_string(),
        root_url: root.to_string(),
        actor_username: "alice".to_string(),
        actor_name: "Alice".to_string(),
        media_dir: "/var/media".to_string(),
    }
}

#[test]
fn validate_normalizes_the_root_url() {
    let config = raw("HTTPS://EXAMPLE.COM").validate().unwrap();
    assert_eq!(config.root_url, "https://example.com/");
    assert_eq!(config.actor_url(), "https://example.com/");
    assert_eq!(config.db_url, "db.sqlite");
    assert_eq!(config.actor_username, "alice");
}

#[test]
fn validate_rejects_an_invalid_root_url() {
    assert!(raw("not a url").validate().is_err());
}

#[test]
fn derived_urls_join_onto_the_root() {
    let config = raw("https://example.com/sub/").validate().unwrap();
    assert_eq!(config.inbox_url().unwrap(), "https://example.com/_inbox");
    assert_eq!(config.outbox_url().unwrap(), "https://example.com/_outbox");
    assert_eq!(config.post_url("hello").unwrap(), "https://example.com/hello");
    assert_eq!(
        config.activity_url("hello").unwrap(),
        "https://example.com/_activity/hello"
    );
    assert_eq!(
        config.media_url("icon.jpg").unwrap(),
        "https://example.com/_media/icon.jpg"
    );
    assert_eq!(config.host_str().unwrap(), "example.com");
}

#[test]
fn webfinger_resolves_only_the_configured_identity() {
    let config = raw("https://example.com").validate().unwrap();
    let doc = find(&config, "acct:alice@example.com").unwrap();
    assert_eq!(doc.subject, "acct:alice@example.com");
    assert_eq!(doc.aliases, vec!["https://example.com/".to_string()]);
    assert_eq!(doc.links.len(), 1);
    assert_eq!(doc.links[0].rel, "self");
    assert_eq!(
        doc.links[0].mime_type,
        Some("application/activity+json".to_string())
    );
    assert_eq!(doc.links[0].href, "https://example.com/");

    let miss = find(&config, "acct:bob@example.com");
    assert_eq!(miss.unwrap_err(), Error::NotFound);
}

#[test]
fn error_status_codes() {
    assert_eq!(Error::NotFound.status_code(), 404);
    assert_eq!(Error::BadRequest("why".to_string()).status_code(), 400);
    assert_eq!(Error::Internal("why".to_string()).status_code(), 500);
}

#[test]
fn error_constructors_classify() {
    match Error::bad_request("boom") {
        Error::BadRequest(why) => assert!(why.contains("boom")),
        other => panic!("expected BadRequest, got {:?}", other),
    }
    match Error::internal("boom") {
        Error::Internal(why) => assert!(why.contains("boom")),
        other => panic!("expected Internal, got {:?}", other),
    }
    let io = std::io::Error::new(std::io::ErrorKind::NotFound, "gone");
    assert_eq!(Error::from_io(io), Error::NotFound);
    let io = std::io::Error::new(std::io::ErrorKind::PermissionDenied, "no");
    assert!(matches!(Error::from_io(io), Error::Internal(_)));
}

#[test]
fn from_io_kind_maps_the_classification() {
    assert_eq!(Error::from_io_kind(true, "gone".to_string()), Error::NotFound);
    assert_eq!(
        Error::from_io_kind(false, "denied".to_string()),
        Error::Internal("denied".to_string())
    );
}
