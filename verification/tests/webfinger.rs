use well_known::address::AccountAddress;
use well_known::config::Config;
use well_known::error::Error;
use well_known::jrd::{JrdDocument, Link};
use well_known::media::{Content, MediaType};
use well_known::webfinger::{local_username, webfinger_get_resource};

fn example_config() -> Config {
    Config::new("https://example.com", "example.com", "0a1b2c3")
}

fn profile(resource: &str, uri: &str) -> Content<JrdDocument> {
    Content(
        MediaType::Jrd,
        JrdDocument {
            subject: Some(resource.to_string()),
            aliases: Some(vec![uri.to_string()]),
            links: vec![
                Link {
                    rel: "http://webfinger.net/rel/profile-page".to_string(),
                    media_type: Some("text/html".to_string()),
                    href: uri.to_string(),
                },
                Link {
                    rel: "self".to_string(),
                    media_type: Some("application/activity+json".to_string()),
                    href: uri.to_string(),
                },
            ],
        },
    )
}

#[test]
fn local_account_resolves_to_its_profile() {
    let uri = "https://example.com/users/alice";
    let reply = webfinger_get_resource(
        "acct:alice@example.com".to_string(),
        &example_config(),
        Some(uri.to_string()),
    );
    assert_eq!(reply, Ok(Some(profile("acct:alice@example.com", uri))));
}

#[test]
fn profile_subject_is_the_query_and_both_links_carry_the_uri() {
    let uri = "https://example.com/users/alice";
    let reply = webfinger_get_resource(
        "acct:alice@example.com".to_string(),
        &example_config(),
        Some(uri.to_string()),
    );
    let Content(media_type, document) = reply.unwrap().unwrap();
    assert_eq!(media_type, MediaType::Jrd);
    assert_eq!(document.subject, Some("acct:alice@example.com".to_string()));
    assert_eq!(document.aliases, Some(vec![uri.to_string()]));
    assert_eq!(document.links.len(), 2);
    assert_eq!(document.links[0].href, uri);
    assert_eq!(document.links[1].href, uri);
    assert_eq!(document.links[0].rel, "http://webfinger.net/rel/profile-page");
    assert_eq!(document.links[0].media_type, Some("text/html".to_string()));
    assert_eq!(document.links[1].rel, "self");
    assert_eq!(
        document.links[1].media_type,
        Some("application/activity+json".to_string())
    );
}

#[test]
fn foreign_domain_is_not_found_whether_or_not_the_user_exists() {
    let config = example_config();
    assert_eq!(
        webfinger_get_resource("acct:bob@other.org".to_string(), &config, None),
        Ok(None)
    );
    assert_eq!(
        webfinger_get_resource(
            "acct:bob@other.org".to_string(),
            &config,
            Some("https://example.com/users/bob".to_string()),
        ),
        Ok(None)
    );
    assert_eq!(local_username("acct:bob@other.org", &config), Ok(None));
}

#[test]
fn unknown_local_user_is_not_found() {
    assert_eq!(
        webfinger_get_resource("acct:nobody@example.com".to_string(), &example_config(), None),
        Ok(None)
    );
}

#[test]
fn address_without_separator_is_malformed() {
    let config = example_config();
    assert_eq!(
        webfinger_get_resource("acct:alice".to_string(), &config, None),
        Err(Error::MalformedResource)
    );
    assert_eq!(
        webfinger_get_resource(
            "acct:alice".to_string(),
            &config,
            Some("https://example.com/users/alice".to_string()),
        ),
        Err(Error::MalformedResource)
    );
    assert_eq!(local_username("acct:alice", &config), Err(Error::MalformedResource));
    assert_eq!(local_username("", &config), Err(Error::MalformedResource));
    assert_eq!(local_username("acct:", &config), Err(Error::MalformedResource));
}

#[test]
fn empty_user_or_domain_is_malformed() {
    let config = example_config();
    assert_eq!(local_username("acct:@example.com", &config), Err(Error::MalformedResource));
    assert_eq!(local_username("acct:alice@", &config), Err(Error::MalformedResource));
    assert_eq!(local_username("acct:@", &config), Err(Error::MalformedResource));
    assert_eq!(
        webfinger_get_resource("acct:@example.com".to_string(), &config, None),
        Err(Error::MalformedResource)
    );
}

#[test]
fn more_than_one_separator_is_malformed() {
    let config = example_config();
    assert_eq!(
        local_username("acct:alice@example.com@example.com", &config),
        Err(Error::MalformedResource)
    );
    assert_eq!(
        webfinger_get_resource(
            "acct:alice@bob@example.com".to_string(),
            &config,
            Some("https://example.com/users/alice".to_string()),
        ),
        Err(Error::MalformedResource)
    );
}

#[test]
fn query_without_scheme_is_read_as_an_address() {
    let config = example_config();
    let uri = "https://example.com/users/alice";
    assert_eq!(
        local_username("alice@example.com", &config),
        Ok(Some("alice".to_string()))
    );
    assert_eq!(
        webfinger_get_resource("alice@example.com".to_string(), &config, Some(uri.to_string())),
        Ok(Some(profile("alice@example.com", uri)))
    );
}

#[test]
fn address_starts_after_the_first_scheme() {
    let config = example_config();
    assert_eq!(
        local_username("acct:acct:bob@example.com", &config),
        Ok(Some("acct:bob".to_string()))
    );
    assert_eq!(
        local_username("see acct:alice@example.com", &config),
        Ok(Some("alice".to_string()))
    );
    assert_eq!(
        local_username("acctacct:alice@example.com", &config),
        Ok(Some("alice".to_string()))
    );
    assert_eq!(
        local_username("x@y acct:alice@example.com", &config),
        Ok(Some("alice".to_string()))
    );
    assert_eq!(
        local_username("acct:x@y acct:alice@example.com", &config),
        Err(Error::MalformedResource)
    );
}

#[test]
fn scheme_and_domain_are_matched_by_case() {
    let config = example_config();
    assert_eq!(local_username("acct:alice@Example.com", &config), Ok(None));
    assert_eq!(
        local_username("ACCT:alice@example.com", &config),
        Ok(Some("ACCT:alice".to_string()))
    );
}

#[test]
fn user_names_beyond_ascii_are_cut_by_character() {
    let config = Config::new("https://bücher.example", "bücher.example", "0a1b2c3");
    assert_eq!(
        local_username("→ acct:ålice@bücher.example", &config),
        Ok(Some("ålice".to_string()))
    );
    let uri = "https://bücher.example/users/ålice";
    assert_eq!(
        webfinger_get_resource(
            "acct:ålice@bücher.example".to_string(),
            &config,
            Some(uri.to_string()),
        ),
        Ok(Some(profile("acct:ålice@bücher.example", uri)))
    );
}

#[test]
fn parse_gives_user_name_and_domain() {
    assert_eq!(
        AccountAddress::parse("acct:alice@example.com"),
        Ok(AccountAddress { username: "alice".to_string(), domain: "example.com".to_string() })
    );
    assert_eq!(
        AccountAddress::parse("bob@other.org"),
        Ok(AccountAddress { username: "bob".to_string(), domain: "other.org".to_string() })
    );
    assert_eq!(AccountAddress::parse("acct:alice"), Err(Error::MalformedResource));
    assert_eq!(AccountAddress::parse("a@b@c"), Err(Error::MalformedResource));
}
