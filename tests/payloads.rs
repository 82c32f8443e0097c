use ruma_server_name::error::IdError;
use ruma_server_name::mxc_uri::MxcUri;
use ruma_server_name::profile::{avatar_url_from_wire, Request, Response};
use ruma_server_name::server_acl::ServerAclEventContent;
use ruma_server_name::user_id::UserId;

#[test]
fn acl_content_with_no_fields_present() {
    let content = ServerAclEventContent::default();
    assert!(content.allow_ip_literals);
    assert!(content.allow.is_empty());
    assert!(content.deny.is_empty());
}

#[test]
fn acl_content_keeps_patterns_unvalidated() {
    let content = ServerAclEventContent::new(
        false,
        vec!["*.example.org".to_owned(), "matrix.?rg".to_owned()],
        vec!["*".to_owned()],
    );
    assert!(!content.allow_ip_literals);
    assert_eq!(content.allow, vec!["*.example.org".to_owned(), "matrix.?rg".to_owned()]);
    assert_eq!(content.deny, vec!["*".to_owned()]);
}

#[test]
fn profile_response_with_no_fields_present() {
    let response = Response::default();
    assert!(response.avatar_url.is_none());
    assert!(response.displayname.is_none());
    assert!(response.blurhash.is_none());
}

#[test]
fn profile_response_with_only_display_name() {
    let response = Response::new(None, Some("Alice".to_owned()));
    assert!(response.avatar_url.is_none());
    assert_eq!(response.displayname.as_deref(), Some("Alice"));
    assert!(response.blurhash.is_none());
}

#[test]
fn profile_response_with_avatar() {
    let avatar = MxcUri::parse("mxc://example.org/abc123").unwrap();
    let response = Response::new(Some(avatar.clone()), None);
    assert_eq!(response.avatar_url, Some(avatar));
    assert!(response.displayname.is_none());
}

#[test]
fn profile_request_for_user() {
    let user = UserId::parse("@carl:example.com").unwrap();
    let request = Request::new(&user);
    assert_eq!(request.user_id.as_str(), "@carl:example.com");
}

#[test]
fn user_id_validation() {
    assert!(UserId::parse("@carl:example.com").is_ok());
    assert_eq!(UserId::parse("carl:example.com").unwrap_err(), IdError::InvalidUserId);
    assert_eq!(UserId::parse("@carl").unwrap_err(), IdError::InvalidUserId);
    assert_eq!(UserId::parse("@carl:[test::1]").unwrap_err(), IdError::InvalidUserId);
    assert_eq!(UserId::parse("@carl:example.com").unwrap().clone(), UserId::parse("@carl:example.com").unwrap());
}

#[test]
fn mxc_uri_validation() {
    let uri = MxcUri::parse("mxc://example.org/abc-123_X").unwrap();
    assert_eq!(uri.as_str(), "mxc://example.org/abc-123_X");
    assert_eq!(MxcUri::parse("https://example.org/abc").unwrap_err(), IdError::InvalidMxcUri);
    assert_eq!(MxcUri::parse("mxc://example.org").unwrap_err(), IdError::InvalidMxcUri);
    assert_eq!(MxcUri::parse("mxc://exa mple.org/abc").unwrap_err(), IdError::InvalidMxcUri);
    assert_eq!(MxcUri::parse("").unwrap_err(), IdError::InvalidMxcUri);
}

#[test]
fn avatar_url_compat_mode() {
    assert_eq!(avatar_url_from_wire(None, false), Ok(None));
    assert_eq!(avatar_url_from_wire(None, true), Ok(None));
    assert_eq!(avatar_url_from_wire(Some(""), true), Ok(None));
    assert_eq!(avatar_url_from_wire(Some(""), false), Err(IdError::InvalidMxcUri));
    assert_eq!(avatar_url_from_wire(Some("not a uri"), true), Err(IdError::InvalidMxcUri));
    let got = avatar_url_from_wire(Some("mxc://example.org/media"), false).unwrap().unwrap();
    assert_eq!(got.as_str(), "mxc://example.org/media");
}

#[test]
fn mxc_uri_media_offset_that_would_wrap_is_refused() {
    let wraps = format!("mxc://{}/x", "a".repeat(250));
    assert_eq!(MxcUri::parse(&wraps).unwrap_err(), IdError::InvalidMxcUri);
    assert_eq!(avatar_url_from_wire(Some(&wraps), true), Err(IdError::InvalidMxcUri));
    let fits = format!("mxc://{}/x", "a".repeat(249));
    assert_eq!(MxcUri::parse(&fits).unwrap().as_str(), fits);
    let past = format!("mxc://{}/x", "a".repeat(251));
    assert_eq!(MxcUri::parse(&past).unwrap().as_str(), past);
}

#[test]
fn user_id_length_and_localpart_rules() {
    let longest = format!("@{}:example.org", "a".repeat(255 - 13));
    assert_eq!(longest.len(), 255);
    assert!(UserId::parse(&longest).is_ok());
    let too_long = format!("@{}:example.org", "a".repeat(256 - 13));
    assert_eq!(UserId::parse(&too_long).unwrap_err(), IdError::InvalidUserId);
    assert_eq!(UserId::parse("@ca\0rl:example.com").unwrap_err(), IdError::InvalidUserId);
    assert!(UserId::parse("@Carl Ü:example.com").is_ok());
}
