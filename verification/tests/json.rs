use well_known::config::Config;
use well_known::jrd::Link;
use well_known::json::Json;
use well_known::media::Content;
use well_known::nodeinfo::{nodeinfo, webfinger_nodeinfo, SchemaVersion};
use well_known::webfinger::webfinger_get_resource;

fn text(text: &str) -> Json {
    Json::Text(text.to_string())
}

fn member(name: &str, value: Json) -> (String, Json) {
    (name.to_string(), value)
}

fn example_config() -> Config {
    Config::new("https://example.com", "example.com", "0a1b2c3")
}

#[test]
fn json_constructors_keep_what_they_are_given() {
    assert_eq!(Json::text("alice"), text("alice"));
    assert_eq!(Json::text(""), text(""));
    assert_eq!(
        Json::array(vec![Json::Bool(true), Json::Integer(-3)]),
        Json::Array(vec![Json::Bool(true), Json::Integer(-3)])
    );
    assert_eq!(Json::array(vec![]), Json::Array(vec![]));
    assert_eq!(
        Json::texts(&vec!["a".to_string(), "b".to_string()]),
        Json::Array(vec![text("a"), text("b")])
    );
    assert_eq!(Json::texts(&vec![]), Json::Array(vec![]));
    assert_eq!(
        Json::object(vec![member("total", Json::Integer(7))]),
        Json::Object(vec![member("total", Json::Integer(7))])
    );
}

#[test]
fn link_with_a_media_type_has_three_members() {
    let link = Link {
        rel: "self".to_string(),
        media_type: Some("application/activity+json".to_string()),
        href: "https://example.com/users/alice".to_string(),
    };
    assert_eq!(
        link.to_json(),
        Json::Object(vec![
            member("href", text("https://example.com/users/alice")),
            member("rel", text("self")),
            member("type", text("application/activity+json")),
        ])
    );
}

#[test]
fn link_without_a_media_type_has_no_type_member() {
    let link = Link {
        rel: "http://nodeinfo.diaspora.software/ns/schema/2.0".to_string(),
        media_type: None,
        href: "https://example.com/nodeinfo/2.0".to_string(),
    };
    assert_eq!(
        link.to_json(),
        Json::Object(vec![
            member("href", text("https://example.com/nodeinfo/2.0")),
            member("rel", text("http://nodeinfo.diaspora.software/ns/schema/2.0")),
        ])
    );
}

#[test]
fn profile_is_written_with_aliases_links_and_subject() {
    let uri = "https://example.com/users/alice";
    let reply = webfinger_get_resource(
        "acct:alice@example.com".to_string(),
        &example_config(),
        Some(uri.to_string()),
    );
    let Content(_, document) = reply.unwrap().unwrap();
    assert_eq!(
        document.to_json(),
        Json::Object(vec![
            member("aliases", Json::Array(vec![text(uri)])),
            member(
                "links",
                Json::Array(vec![
                    Json::Object(vec![
                        member("href", text(uri)),
                        member("rel", text("http://webfinger.net/rel/profile-page")),
                        member("type", text("text/html")),
                    ]),
                    Json::Object(vec![
                        member("href", text(uri)),
                        member("rel", text("self")),
                        member("type", text("application/activity+json")),
                    ]),
                ]),
            ),
            member("subject", text("acct:alice@example.com")),
        ])
    );
}

#[test]
fn nodeinfo_discovery_is_written_with_its_links_only() {
    let Content(_, document) = webfinger_nodeinfo(&example_config());
    assert_eq!(
        document.to_json(),
        Json::Object(vec![member(
            "links",
            Json::Array(vec![Json::Object(vec![
                member("href", text("https://example.com/nodeinfo/2.0")),
                member("rel", text("http://nodeinfo.diaspora.software/ns/schema/2.0")),
            ])]),
        )])
    );
}

#[test]
fn schema_version_is_written_as_a_decimal() {
    assert_eq!(
        SchemaVersion::TwoPointZero.to_json(),
        Json::Decimal { mantissa: 20, scale: 1 }
    );
}

#[test]
fn nodeinfo_is_written_with_all_its_members() {
    let Content(_, document) = nodeinfo::<String>(&example_config(), Ok(42), Ok(1234)).unwrap();
    assert_eq!(
        document.to_json(),
        Json::Object(vec![
            member("version", Json::Decimal { mantissa: 20, scale: 1 }),
            member(
                "software",
                Json::Object(vec![
                    member("name", text("rustodon")),
                    member("version", text("0a1b2c3")),
                ]),
            ),
            member("protocols", Json::Array(vec![text("activitypub")])),
            member(
                "services",
                Json::Object(vec![
                    member("inbound", Json::Array(vec![])),
                    member("outbound", Json::Array(vec![])),
                ]),
            ),
            member("openRegistrations", Json::Bool(true)),
            member(
                "usage",
                Json::Object(vec![
                    member("users", Json::Object(vec![member("total", Json::Integer(42))])),
                    member("localPosts", Json::Integer(1234)),
                ]),
            ),
        ])
    );
}
