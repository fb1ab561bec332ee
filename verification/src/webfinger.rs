//! The WebFinger resolver: from an `acct:` query to the profile document of
//! a local account.
//!
//! The account store is read by the caller. `local_username` names the user
//! to look up, and `webfinger_get_resource` takes the store's answer.

use crate::address::{
    address_of, lemma_address_after_scheme, parse_resource, AccountAddress, ACCT_SCHEME, SEPARATOR,
};
use crate::config::Config;
use crate::error::{Error, Perhaps};
use crate::jrd::{JrdDocument, JrdView, Link, LinkView};
use crate::media::{Content, MediaType};
use crate::text::{first_occurrence, lemma_split_pair, lemma_split_without_separator};
use vstd::prelude::*;

verus! {

/// The user name that a resource query asks this server about: none where
/// the query names another domain, and an error where it names no address.
pub open spec fn local_name(resource: Seq<char>, domain: Seq<char>) -> Perhaps<Seq<char>> {
    match parse_resource(resource) {
        None => Err(Error::MalformedResource),
        Some((username, named_domain)) => if named_domain == domain {
            Ok(Some(username))
        } else {
            Ok(None)
        },
    }
}

/// The profile document of the account with the canonical URI
/// `account_uri`, in answer to the query `resource`.
pub open spec fn profile_document(resource: Seq<char>, account_uri: Seq<char>) -> JrdView {
    JrdView {
        subject: Some(resource),
        aliases: Some(seq![account_uri]),
        links: seq![
            LinkView {
                rel: "http://webfinger.net/rel/profile-page"@,
                media_type: Some("text/html"@),
                href: account_uri,
            },
            LinkView {
                rel: "self"@,
                media_type: Some("application/activity+json"@),
                href: account_uri,
            },
        ],
    }
}

/// The answer to the query `resource` on the server for `domain`, where
/// `account_uri` is what the account store holds for the user that the query
/// names.
pub open spec fn resolve(
    resource: Seq<char>,
    domain: Seq<char>,
    account_uri: Option<Seq<char>>,
) -> Perhaps<Content<JrdView>> {
    match (local_name(resource, domain), account_uri) {
        (Err(error), _) => Err(error),
        (Ok(Some(_)), Some(uri)) => Ok(
            Some(Content(MediaType::Jrd, profile_document(resource, uri))),
        ),
        _ => Ok(None),
    }
}

/// A query that holds `acct:`, then a user name, `@` and this server's
/// domain, with no `acct:` before that one, asks about that user; and where
/// the account store holds the user, the answer is a resource descriptor
/// whose subject is the query itself and whose two links both lead to the
/// account's canonical URI.
pub proof fn lemma_local_account_resolves(
    prefix: Seq<char>,
    user: Seq<char>,
    domain: Seq<char>,
    account_uri: Seq<char>,
)
    requires
        first_occurrence(prefix, ACCT_SCHEME@) is None,
        user.len() > 0,
        !user.contains(SEPARATOR),
        domain.len() > 0,
        !domain.contains(SEPARATOR),
    ensures
        ({
            let resource = prefix + ACCT_SCHEME@ + user + seq![SEPARATOR] + domain;
            &&& local_name(resource, domain) matches Ok(Some(asked))
            &&& asked == user
            &&& resolve(resource, domain, Some(account_uri)) matches Ok(Some(content))
            &&& content.0 == MediaType::Jrd
            &&& content.1.subject == Some(resource)
            &&& content.1.links.len() == 2
            &&& content.1.links[0].href == account_uri
            &&& content.1.links[1].href == account_uri
        }),
{
    let address = user + seq![SEPARATOR] + domain;
    lemma_address_after_scheme(prefix, address);
    assert(prefix + ACCT_SCHEME@ + user + seq![SEPARATOR] + domain =~= prefix + ACCT_SCHEME@
        + address);
    lemma_split_pair(user, domain, SEPARATOR);
}

/// The user to look up in the account store for the query `resource`:
/// `Ok(None)` where the query names another domain than this server's, so
/// that nothing is to be looked up.
pub fn local_username(resource: &str, config: &Config) -> (name: Perhaps<String>)
    ensures
        match local_name(resource@, config.domain@) {
            Ok(Some(username)) => name matches Ok(Some(found)) && found@ == username,
            Ok(None) => name matches Ok(None),
            Err(error) => name matches Err(raised) && raised == error,
        },
        !address_of(resource@).contains(SEPARATOR) ==> name matches Err(Error::MalformedResource),
        parse_resource(resource@) matches Some((_, domain)) && domain != config.domain@
            ==> name matches Ok(None),
{
    proof {
        if !address_of(resource@).contains(SEPARATOR) {
            lemma_split_without_separator(address_of(resource@), SEPARATOR);
        }
    }
    match AccountAddress::parse(resource) {
        Err(error) => Err(error),
        Ok(address) => if address.domain == config.domain {
            Ok(Some(address.username))
        } else {
            Ok(None)
        },
    }
}

/// Answers a WebFinger query. `account_uri` is the canonical URI of the
/// account that the store holds under the name that `local_username` gives
/// for this query, or `None` where it holds no such account; it is not looked
/// at where the query is malformed or names another domain.
pub fn webfinger_get_resource(
    resource: String,
    config: &Config,
    account_uri: Option<String>,
) -> (reply: Perhaps<Content<JrdDocument>>)
    ensures
        match resolve(resource@, config.domain@, account_uri.deep_view()) {
            Ok(Some(content)) => reply matches Ok(Some(sent)) && sent.deep_view() == content,
            Ok(None) => reply matches Ok(None),
            Err(error) => reply matches Err(raised) && raised == error,
        },
        !address_of(resource@).contains(SEPARATOR) ==> reply matches Err(Error::MalformedResource),
        parse_resource(resource@) matches Some((_, domain)) && domain != config.domain@
            ==> reply matches Ok(None),
        reply matches Ok(Some(sent)) ==> {
            &&& account_uri matches Some(uri)
            &&& sent.0 == MediaType::Jrd
            &&& sent.1.subject matches Some(subject)
            &&& subject@ == resource@
            &&& sent.1.links.len() == 2
            &&& sent.1.links[0].href@ == uri@
            &&& sent.1.links[1].href@ == uri@
        },
{
    proof {
        if !address_of(resource@).contains(SEPARATOR) {
            lemma_split_without_separator(address_of(resource@), SEPARATOR);
        }
    }
    let address = match AccountAddress::parse(resource.as_str()) {
        Ok(address) => address,
        Err(error) => {
            return Err(error);
        },
    };
    if !(address.domain == config.domain) {
        return Ok(None);
    }
    match account_uri {
        None => Ok(None),
        Some(uri) => {
            let profile_page = Link {
                rel: "http://webfinger.net/rel/profile-page".to_owned(),
                media_type: Some("text/html".to_owned()),
                href: uri.clone(),
            };
            let actor = Link {
                rel: "self".to_owned(),
                media_type: Some("application/activity+json".to_owned()),
                href: uri.clone(),
            };
            let document = JrdDocument {
                subject: Some(resource),
                aliases: Some(vec![uri]),
                links: vec![profile_page, actor],
            };
            assert(document.deep_view().aliases->0 =~= seq![uri@]);
            assert(document.deep_view().links =~= profile_document(resource@, uri@).links);
            Ok(Some(Content(MediaType::Jrd, document)))
        },
    }
}

} // verus!
